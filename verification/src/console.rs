//! The ghost model of the console: what is on the surface, where the cursor
//! stands, and how each operation changes both.

use vstd::prelude::*;
use vstd::utf8::{encode_scalar, encode_utf8};
use crate::buffer::{ScreenChar, BUFFER_HEIGHT, BUFFER_WIDTH};
use crate::color::ColorCode;

verus! {

/// The byte that ends a line.
pub const NEWLINE: u8 = 0x0a;

/// The glyph shown in place of a byte that has no glyph of its own.
pub const PLACEHOLDER: u8 = 0xfe;

/// Printable ASCII: the bytes that are shown as they are.
pub open spec fn is_printable(byte: u8) -> bool {
    0x20 <= byte <= 0x7e
}

/// The byte that is written for `byte` of a string: the byte itself where
/// it is printable or ends a line, the placeholder otherwise.
pub open spec fn glyph_for(byte: u8) -> u8 {
    if is_printable(byte) || byte == NEWLINE {
        byte
    } else {
        PLACEHOLDER
    }
}

/// The state of a console.
pub struct Console {
    /// The cells of the surface, row by row, top row first.
    pub rows: Seq<Seq<ScreenChar>>,
    /// The column of the bottom row that the next glyph goes to.
    pub column: nat,
    /// The colours that glyphs and blanks are written in.
    pub color: ColorCode,
    /// How many times the rows have moved up since the console was made.
    pub scrolls: nat,
}

impl Console {
    /// The surface has its full size and the cursor is at most one past the
    /// last column.
    pub open spec fn wf(self) -> bool {
        &&& self.rows.len() == BUFFER_HEIGHT
        &&& forall|row: int|
            0 <= row < BUFFER_HEIGHT ==> (#[trigger] self.rows[row]).len() == BUFFER_WIDTH
        &&& self.column <= BUFFER_WIDTH
    }

    /// A row of spaces in the current colours.
    pub open spec fn blank_row(self) -> Seq<ScreenChar> {
        Seq::new(BUFFER_WIDTH as nat, |col: int| ScreenChar::blank(self.color))
    }

    /// Row `row` blanked, everything else as it was.
    pub open spec fn clear_row(self, row: int) -> Console {
        Console { rows: self.rows.update(row, self.blank_row()), ..self }
    }

    /// One scroll: the top row is lost, every other row moves up by one, a
    /// blank row comes in at the bottom and the cursor returns to column 0.
    pub open spec fn new_line(self) -> Console {
        Console {
            rows: self.rows.skip(1).push(self.blank_row()),
            column: 0,
            color: self.color,
            scrolls: self.scrolls + 1,
        }
    }

    /// `glyph` placed at the cursor, the cursor moved one column on.
    pub open spec fn put(self, glyph: u8) -> Console {
        let bottom = BUFFER_HEIGHT - 1;
        let cell = ScreenChar { ascii_character: glyph, color_code: self.color };
        Console {
            rows: self.rows.update(bottom, self.rows[bottom].update(self.column as int, cell)),
            column: self.column + 1,
            ..self
        }
    }

    /// The bottom row with `bytes` laid out from the cursor rightward.
    pub open spec fn bottom_row_with(self, bytes: Seq<u8>) -> Seq<ScreenChar> {
        Seq::new(
            BUFFER_WIDTH as nat,
            |col: int|
                if self.column <= col < self.column + bytes.len() {
                    ScreenChar { ascii_character: bytes[col - self.column], color_code: self.color }
                } else {
                    self.rows[BUFFER_HEIGHT - 1][col]
                },
        )
    }

    /// One byte written: a newline scrolls; any other byte is placed at the
    /// cursor, after a scroll where the bottom row is full.
    pub open spec fn write_byte(self, byte: u8) -> Console {
        if byte == NEWLINE {
            self.new_line()
        } else if self.column >= BUFFER_WIDTH {
            self.new_line().put(byte)
        } else {
            self.put(byte)
        }
    }

    /// The bytes of a string written one after the other, each as
    /// [`glyph_for`] gives it.
    pub open spec fn write_string(self, bytes: Seq<u8>) -> Console
        decreases bytes.len(),
    {
        if bytes.len() == 0 {
            self
        } else {
            self.write_string(bytes.drop_last()).write_byte(glyph_for(bytes.last()))
        }
    }
}

/// Scrolling keeps a console well formed.
pub proof fn lemma_new_line_wf(c: Console)
    requires
        c.wf(),
    ensures
        c.new_line().wf(),
{
}

/// Writing a byte keeps a console well formed: the cursor never passes the
/// end of the row.
pub proof fn lemma_write_byte_wf(c: Console, byte: u8)
    requires
        c.wf(),
    ensures
        c.write_byte(byte).wf(),
        c.write_byte(byte).column <= BUFFER_WIDTH,
        c.write_byte(byte).color == c.color,
{
}

/// Writing a string keeps a console well formed and its colours.
pub proof fn lemma_write_string_wf(c: Console, bytes: Seq<u8>)
    requires
        c.wf(),
    ensures
        c.write_string(bytes).wf(),
        c.write_string(bytes).color == c.color,
    decreases bytes.len(),
{
    if bytes.len() > 0 {
        lemma_write_string_wf(c, bytes.drop_last());
        lemma_write_byte_wf(c.write_string(bytes.drop_last()), glyph_for(bytes.last()));
    }
}

/// Writing a text in two pieces is the same as writing it in one.
pub proof fn lemma_write_string_concat(c: Console, first: Seq<u8>, second: Seq<u8>)
    ensures
        c.write_string(first + second) == c.write_string(first).write_string(second),
    decreases second.len(),
{
    if second.len() == 0 {
        assert(first + second =~= first);
    } else {
        lemma_write_string_concat(c, first, second.drop_last());
        assert((first + second).drop_last() =~= first + second.drop_last());
        assert((first + second).last() == second.last());
    }
}

/// A printable byte written where the bottom row has room goes to the cursor
/// in the current colours, moves the cursor on by exactly one column and
/// changes nothing else.
pub proof fn lemma_write_byte_printable(c: Console, byte: u8)
    requires
        c.wf(),
        is_printable(byte),
        c.column < BUFFER_WIDTH,
    ensures
        c.write_byte(byte).rows[BUFFER_HEIGHT - 1][c.column as int] == (ScreenChar {
            ascii_character: byte,
            color_code: c.color,
        }),
        c.write_byte(byte).column == c.column + 1,
        c.write_byte(byte).column <= BUFFER_WIDTH,
        c.write_byte(byte).scrolls == c.scrolls,
        c.write_byte(byte).color == c.color,
        forall|row: int, col: int|
            0 <= row < BUFFER_HEIGHT && 0 <= col < BUFFER_WIDTH && !(row == BUFFER_HEIGHT - 1 && col
                == c.column) ==> #[trigger] c.write_byte(byte).rows[row][col] == c.rows[row][col],
{
}

/// A newline always scrolls exactly once and returns the cursor to column 0,
/// wherever the cursor stood.
pub proof fn lemma_write_byte_newline(c: Console)
    ensures
        c.write_byte(NEWLINE) == c.new_line(),
        c.write_byte(NEWLINE).column == 0,
        c.write_byte(NEWLINE).scrolls == c.scrolls + 1,
{
}

/// After a scroll every row but the top one is found one row higher,
/// unchanged, and the bottom row is blank in the current colours.
pub proof fn lemma_new_line_shifts_rows(c: Console)
    requires
        c.wf(),
    ensures
        forall|row: int|
            1 <= row < BUFFER_HEIGHT ==> #[trigger] c.new_line().rows[row - 1] == c.rows[row],
        forall|col: int|
            0 <= col < BUFFER_WIDTH ==> #[trigger] c.new_line().rows[BUFFER_HEIGHT - 1][col]
                == ScreenChar::blank(c.color),
        forall|col: int|
            0 <= col < BUFFER_WIDTH ==> (#[trigger] c.new_line().rows[BUFFER_HEIGHT
                - 1][col]).color_code.background_code() == c.color.background_code(),
        c.new_line().column == 0,
        c.new_line().color == c.color,
        c.new_line().scrolls == c.scrolls + 1,
{
}

/// A byte is only ever placed on the bottom row, and the rows above it only
/// ever move up: writing a byte scrolls at most once, and leaves every row
/// above the bottom one where it was, or one row higher after a scroll.
pub proof fn lemma_write_byte_upper_rows(c: Console, byte: u8)
    requires
        c.wf(),
    ensures
        c.write_byte(byte).scrolls == c.scrolls || c.write_byte(byte).scrolls == c.scrolls + 1,
        c.write_byte(byte).scrolls == c.scrolls ==> forall|row: int|
            0 <= row < BUFFER_HEIGHT - 1 ==> #[trigger] c.write_byte(byte).rows[row] == c.rows[row],
        c.write_byte(byte).scrolls == c.scrolls + 1 ==> forall|row: int|
            0 <= row < BUFFER_HEIGHT - 1 ==> #[trigger] c.write_byte(byte).rows[row] == c.rows[row
                + 1],
{
}

/// However much is written, the rows only ever move up, by one row for each
/// scroll: a row that has not left the surface and has not been the bottom
/// row since is found unchanged, as many rows higher as there were scrolls.
pub proof fn lemma_write_string_rows_move_up(c: Console, bytes: Seq<u8>)
    requires
        c.wf(),
    ensures
        c.write_string(bytes).scrolls >= c.scrolls,
        forall|row: int|
            0 <= row && row + (c.write_string(bytes).scrolls - c.scrolls) < BUFFER_HEIGHT - 1
                ==> #[trigger] c.write_string(bytes).rows[row] == c.rows[row + (c.write_string(
                bytes,
            ).scrolls - c.scrolls)],
    decreases bytes.len(),
{
    if bytes.len() > 0 {
        let front = c.write_string(bytes.drop_last());
        lemma_write_string_rows_move_up(c, bytes.drop_last());
        lemma_write_string_wf(c, bytes.drop_last());
        lemma_write_byte_upper_rows(front, glyph_for(bytes.last()));
        let end = c.write_string(bytes);
        let moved = end.scrolls - c.scrolls;
        assert forall|row: int| 0 <= row && row + moved < BUFFER_HEIGHT - 1 implies #[trigger] end.rows[row]
            == c.rows[row + moved] by {
            if end.scrolls == front.scrolls {
                assert(end.rows[row] == front.rows[row]);
            } else {
                assert(end.rows[row] == front.rows[row + 1]);
            }
        }
    }
}

/// A byte of a string that is neither printable nor a newline is shown as
/// the placeholder, which differs from the byte unless the byte is the
/// placeholder's own code.
pub proof fn lemma_unprintable_is_placeholder(c: Console, byte: u8)
    requires
        !is_printable(byte),
        byte != NEWLINE,
    ensures
        glyph_for(byte) == PLACEHOLDER,
        byte != PLACEHOLDER ==> glyph_for(byte) != byte,
        c.write_string(seq![byte]) == c.write_byte(PLACEHOLDER),
{
    let bytes = seq![byte];
    assert(bytes.drop_last().len() == 0);
    assert(bytes.last() == byte);
    assert(c.write_string(bytes.drop_last()) == c);
}

/// No byte of the UTF-8 encoding of a character is the placeholder's code.
proof fn lemma_scalar_has_no_placeholder(scalar: u32)
    ensures
        forall|i: int|
            0 <= i < encode_scalar(scalar).len() ==> #[trigger] encode_scalar(scalar)[i]
                != PLACEHOLDER,
{
    assert(((scalar & 0x7F) as u8) != 0xfeu8) by (bit_vector);
    assert((0xC0u8 | ((scalar >> 6) & 0x1F) as u8) != 0xfeu8) by (bit_vector);
    assert((0xE0u8 | ((scalar >> 12) & 0x0F) as u8) != 0xfeu8) by (bit_vector);
    assert((0xF0u8 | ((scalar >> 18) & 0x7) as u8) != 0xfeu8) by (bit_vector);
    assert((0x80u8 | (scalar & 0x3F) as u8) != 0xfeu8) by (bit_vector);
    assert((0x80u8 | ((scalar >> 6) & 0x3F) as u8) != 0xfeu8) by (bit_vector);
    assert((0x80u8 | ((scalar >> 12) & 0x3F) as u8) != 0xfeu8) by (bit_vector);
}

/// No byte of a string is the placeholder's code: the UTF-8 encoding of text
/// never holds it.
pub proof fn lemma_text_has_no_placeholder(chars: Seq<char>)
    ensures
        forall|i: int|
            0 <= i < encode_utf8(chars).len() ==> #[trigger] encode_utf8(chars)[i] != PLACEHOLDER,
    decreases chars.len(),
{
    if chars.len() > 0 {
        lemma_scalar_has_no_placeholder(chars[0] as u32);
        lemma_text_has_no_placeholder(chars.drop_first());
        let head = encode_scalar(chars[0] as u32);
        let tail = encode_utf8(chars.drop_first());
        assert forall|i: int| 0 <= i < encode_utf8(chars).len() implies #[trigger] encode_utf8(
            chars,
        )[i] != PLACEHOLDER by {
            if i < head.len() {
                assert(encode_utf8(chars)[i] == head[i]);
            } else {
                assert(encode_utf8(chars)[i] == tail[i - head.len()]);
            }
        }
    }
}

/// A byte of a string that is neither printable nor a newline is never shown
/// as itself: it is shown as the placeholder, whose code no string holds.
pub proof fn lemma_text_byte_is_substituted(chars: Seq<char>, i: int)
    requires
        0 <= i < encode_utf8(chars).len(),
        !is_printable(encode_utf8(chars)[i]),
        encode_utf8(chars)[i] != NEWLINE,
    ensures
        glyph_for(encode_utf8(chars)[i]) == PLACEHOLDER,
        glyph_for(encode_utf8(chars)[i]) != encode_utf8(chars)[i],
{
    lemma_text_has_no_placeholder(chars);
}

/// A run of printable bytes that fits in what is left of the bottom row is
/// laid out from the cursor rightward, without a scroll.
pub proof fn lemma_write_string_fits(c: Console, bytes: Seq<u8>)
    requires
        c.wf(),
        forall|i: int| 0 <= i < bytes.len() ==> is_printable(#[trigger] bytes[i]),
        c.column + bytes.len() <= BUFFER_WIDTH,
    ensures
        c.write_string(bytes).column == c.column + bytes.len(),
        c.write_string(bytes).scrolls == c.scrolls,
        c.write_string(bytes).color == c.color,
        c.write_string(bytes).rows == c.rows.update(
            BUFFER_HEIGHT - 1,
            c.bottom_row_with(bytes),
        ),
    decreases bytes.len(),
{
    let laid_out = c.rows.update(BUFFER_HEIGHT - 1, c.bottom_row_with(bytes));
    if bytes.len() == 0 {
        assert(c.write_string(bytes).rows =~~= laid_out);
    } else {
        lemma_write_string_fits(c, bytes.drop_last());
        assert(glyph_for(bytes.last()) == bytes.last());
        assert(c.write_string(bytes).rows =~~= laid_out);
    }
}

/// One printable byte more than a row holds, written from the start of the
/// row, scrolls exactly once: the first bytes fill the row, which moves up,
/// and the last byte lands in column 0 of the new bottom row.
pub proof fn lemma_row_overflow_scrolls_once(c: Console, bytes: Seq<u8>)
    requires
        c.wf(),
        c.column == 0,
        bytes.len() == BUFFER_WIDTH + 1,
        forall|i: int| 0 <= i < bytes.len() ==> is_printable(#[trigger] bytes[i]),
    ensures
        c.write_string(bytes).scrolls == c.scrolls + 1,
        c.write_string(bytes).column == 1,
        c.write_string(bytes).rows[BUFFER_HEIGHT - 1][0] == (ScreenChar {
            ascii_character: bytes[BUFFER_WIDTH as int],
            color_code: c.color,
        }),
        forall|col: int|
            1 <= col < BUFFER_WIDTH ==> #[trigger] c.write_string(bytes).rows[BUFFER_HEIGHT
                - 1][col] == ScreenChar::blank(c.color),
        forall|col: int|
            0 <= col < BUFFER_WIDTH ==> #[trigger] c.write_string(bytes).rows[BUFFER_HEIGHT
                - 2][col] == (ScreenChar { ascii_character: bytes[col], color_code: c.color }),
        c.write_string(bytes) == c.write_string(bytes.drop_last()).new_line().put(bytes.last()),
{
    let front = bytes.drop_last();
    lemma_write_string_fits(c, front);
    let full = c.write_string(front);
    assert(glyph_for(bytes.last()) == bytes.last());
}

} // verus!
