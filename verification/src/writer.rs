//! The console writer: it owns the display surface, keeps the cursor and the
//! colours, and prints bytes and strings on the bottom row.

use vstd::prelude::*;
use vstd::string::StringSliceAdditionalSpecFns;
use crate::buffer::{grid, read_cell, write_cell, Buffer, ScreenChar, BUFFER_HEIGHT, BUFFER_WIDTH};
use crate::color::{Color, ColorCode};
use crate::console::{
    is_printable, lemma_new_line_shifts_rows, lemma_write_byte_newline,
    lemma_write_byte_printable, lemma_write_byte_wf, Console, NEWLINE, PLACEHOLDER,
};

verus! {

/// Writes text to the display surface that it holds for good.
pub struct Writer {
    column_position: usize,
    color_code: ColorCode,
    buffer: &'static mut Buffer,
    scrolls: Ghost<nat>,
}

impl View for Writer {
    type V = Console;

    closed spec fn view(&self) -> Console {
        Console {
            rows: grid(*self.buffer),
            column: self.column_position as nat,
            color: self.color_code,
            scrolls: self.scrolls@,
        }
    }
}

impl Writer {
    #[verifier::type_invariant]
    spec fn cursor_in_row(self) -> bool {
        self.column_position <= BUFFER_WIDTH
    }

    /// The colours every writer starts with: light green on black.
    pub open spec fn default_color() -> ColorCode {
        ColorCode::pack(Color::LightGreen, Color::Black)
    }

    /// A writer on `buffer`, with the cursor in column 0 and the default
    /// colours. What the surface shows stays as it is.
    pub fn new(buffer: &'static mut Buffer) -> (writer: Writer)
        ensures
            writer@ == (Console {
                rows: grid(*old(buffer)),
                column: 0,
                color: Self::default_color(),
                scrolls: 0,
            }),
            writer@.wf(),
    {
        Writer {
            column_position: 0,
            color_code: ColorCode::new(Color::LightGreen, Color::Black),
            buffer,
            scrolls: Ghost(0),
        }
    }

    /// The column that the next glyph goes to.
    pub fn column(&self) -> (column: usize)
        ensures
            column == self@.column,
            column <= BUFFER_WIDTH,
    {
        proof {
            use_type_invariant(self);
        }
        self.column_position
    }

    /// The colours that the writer prints in.
    pub fn color_code(&self) -> (color: ColorCode)
        ensures
            color == self@.color,
    {
        self.color_code
    }

    /// The cell at `row`, `col` of the surface; `None` outside the surface.
    pub fn cell(&self, row: usize, col: usize) -> (cell: Option<ScreenChar>)
        ensures
            cell == if row < BUFFER_HEIGHT && col < BUFFER_WIDTH {
                Some(self@.rows[row as int][col as int])
            } else {
                None
            },
    {
        if row < BUFFER_HEIGHT && col < BUFFER_WIDTH {
            Some(read_cell(self.buffer, row, col))
        } else {
            None
        }
    }

    /// Writes one byte: a newline scrolls; any other byte goes to the cursor
    /// on the bottom row, after a scroll where that row is full.
    pub fn write_byte(&mut self, byte: u8)
        ensures
            final(self)@ == old(self)@.write_byte(byte),
            final(self)@.wf(),
            final(self)@.column <= BUFFER_WIDTH,
            is_printable(byte) && old(self)@.column < BUFFER_WIDTH ==> {
                &&& final(self)@.rows[BUFFER_HEIGHT - 1][old(self)@.column as int] == (ScreenChar {
                    ascii_character: byte,
                    color_code: old(self)@.color,
                })
                &&& final(self)@.column == old(self)@.column + 1
                &&& final(self)@.scrolls == old(self)@.scrolls
            },
            byte == NEWLINE ==> {
                &&& final(self)@.column == 0
                &&& final(self)@.scrolls == old(self)@.scrolls + 1
            },
    {
        proof {
            use_type_invariant(&*self);
            lemma_write_byte_wf(self@, byte);
            if is_printable(byte) && self@.column < BUFFER_WIDTH {
                lemma_write_byte_printable(self@, byte);
            }
            lemma_write_byte_newline(self@);
        }
        if byte == NEWLINE {
            self.new_line();
        } else {
            if self.column_position >= BUFFER_WIDTH {
                self.new_line();
            }
            let row: usize = BUFFER_HEIGHT - 1;
            let col: usize = self.column_position;
            let color_code = self.color_code;
            write_cell(self.buffer, row, col, ScreenChar { ascii_character: byte, color_code });
            self.column_position += 1;
        }
    }

    /// Writes the bytes of `s` in order: printable ASCII and newlines as they
    /// are, every other byte as the placeholder glyph.
    pub fn write_string(&mut self, s: &str)
        ensures
            final(self)@ == old(self)@.write_string(s.spec_bytes()),
            final(self)@.wf(),
    {
        let bytes = s.as_bytes();
        let ghost start = self@;
        proof {
            use_type_invariant(&*self);
        }
        let mut i: usize = 0;
        while i < bytes.len()
            invariant
                i <= bytes.len(),
                self@ == start.write_string(bytes@.take(i as int)),
                self@.wf(),
            decreases bytes.len() - i,
        {
            let byte: u8 = bytes[i];
            proof {
                assert(bytes@.take(i + 1).drop_last() =~= bytes@.take(i as int));
                assert(bytes@.take(i + 1).last() == byte);
            }
            if (0x20 <= byte && byte <= 0x7e) || byte == NEWLINE {
                self.write_byte(byte);
            } else {
                self.write_byte(PLACEHOLDER);
            }
            i += 1;
        }
        proof {
            assert(bytes@.take(i as int) =~= bytes@);
        }
    }

    /// Scrolls: every row from the second on is copied to the row above it,
    /// top first, the bottom row is blanked and the cursor returns to
    /// column 0.
    pub fn new_line(&mut self)
        ensures
            final(self)@ == old(self)@.new_line(),
            final(self)@.wf(),
            forall|row: int|
                1 <= row < BUFFER_HEIGHT ==> #[trigger] final(self)@.rows[row - 1] == old(
                    self,
                )@.rows[row],
            forall|col: int|
                0 <= col < BUFFER_WIDTH ==> #[trigger] final(self)@.rows[BUFFER_HEIGHT - 1][col]
                    == ScreenChar::blank(old(self)@.color),
            final(self)@.column == 0,
            final(self)@.scrolls == old(self)@.scrolls + 1,
    {
        let ghost before = self@;
        proof {
            use_type_invariant(&*self);
            lemma_new_line_shifts_rows(before);
        }
        let mut row: usize = 1;
        while row < BUFFER_HEIGHT
            invariant
                1 <= row <= BUFFER_HEIGHT,
                self.column_position <= BUFFER_WIDTH,
                self@.column == before.column,
                self@.color == before.color,
                self@.scrolls == before.scrolls,
                self@.rows.len() == BUFFER_HEIGHT,
                before.rows.len() == BUFFER_HEIGHT,
                forall|r: int| 0 <= r < row - 1 ==> #[trigger] self@.rows[r] == before.rows[r + 1],
                forall|r: int|
                    row - 1 <= r < BUFFER_HEIGHT ==> #[trigger] self@.rows[r] == before.rows[r],
            decreases BUFFER_HEIGHT - row,
        {
            let ghost at_row = self@;
            let mut col: usize = 0;
            while col < BUFFER_WIDTH
                invariant
                    1 <= row < BUFFER_HEIGHT,
                    col <= BUFFER_WIDTH,
                    self.column_position <= BUFFER_WIDTH,
                    self@.column == before.column,
                    self@.color == before.color,
                    self@.scrolls == before.scrolls,
                    self@.rows.len() == BUFFER_HEIGHT,
                    at_row.rows.len() == BUFFER_HEIGHT,
                    self@.rows[row - 1].len() == BUFFER_WIDTH,
                    at_row.rows[row as int].len() == BUFFER_WIDTH,
                    forall|r: int|
                        0 <= r < BUFFER_HEIGHT && r != row - 1 ==> #[trigger] self@.rows[r]
                            == at_row.rows[r],
                    forall|c: int|
                        0 <= c < col ==> #[trigger] self@.rows[row - 1][c]
                            == at_row.rows[row as int][c],
                decreases BUFFER_WIDTH - col,
            {
                let character = read_cell(self.buffer, row, col);
                write_cell(self.buffer, row - 1, col, character);
                col += 1;
            }
            proof {
                assert(self@.rows[row - 1] =~= at_row.rows[row as int]);
            }
            row += 1;
        }
        self.clear_row(BUFFER_HEIGHT - 1);
        self.column_position = 0;
        proof {
            self.scrolls@ = self.scrolls@ + 1;
            assert(self@.rows =~= before.new_line().rows);
        }
    }

    /// Blanks row `row`, which must be a row of the surface: a space in the
    /// current colours in every column.
    pub fn clear_row(&mut self, row: usize)
        requires
            row < BUFFER_HEIGHT,
        ensures
            final(self)@ == old(self)@.clear_row(row as int),
            final(self)@.wf(),
    {
        let ghost before = self@;
        proof {
            use_type_invariant(&*self);
        }
        let blank = ScreenChar { ascii_character: 0x20, color_code: self.color_code };
        let mut col: usize = 0;
        while col < BUFFER_WIDTH
            invariant
                row < BUFFER_HEIGHT,
                col <= BUFFER_WIDTH,
                self.column_position <= BUFFER_WIDTH,
                before.rows.len() == BUFFER_HEIGHT,
                blank == ScreenChar::blank(before.color),
                self@.column == before.column,
                self@.color == before.color,
                self@.scrolls == before.scrolls,
                self@.rows.len() == BUFFER_HEIGHT,
                self@.rows[row as int].len() == BUFFER_WIDTH,
                forall|r: int|
                    0 <= r < BUFFER_HEIGHT && r != row ==> #[trigger] self@.rows[r]
                        == before.rows[r],
                forall|c: int| 0 <= c < col ==> #[trigger] self@.rows[row as int][c] == blank,
            decreases BUFFER_WIDTH - col,
        {
            write_cell(self.buffer, row, col, blank);
            col += 1;
        }
        proof {
            assert(self@.rows[row as int] =~= before.blank_row());
            assert(self@.rows =~= before.clear_row(row as int).rows);
        }
    }
}

} // verus!
