//! The display surface: a grid of volatile two-byte cells, and the cell
//! values the console reads from it and writes to it.

use vstd::prelude::*;
use volatile::Volatile;
use crate::color::ColorCode;

verus! {

/// Number of rows of the display surface.
pub const BUFFER_HEIGHT: usize = 25;

/// Number of cells in a row of the display surface.
pub const BUFFER_WIDTH: usize = 80;

/// The display surface, row by row. A cell is two bytes: the glyph code,
/// then the attribute byte.
pub type Buffer = [[Volatile<[u8; 2]>; BUFFER_WIDTH]; BUFFER_HEIGHT];

/// A glyph and the colours it is shown in.
#[derive(Debug, Clone, Copy, PartialEq, Eq, Structural)]
pub struct ScreenChar {
    pub ascii_character: u8,
    pub color_code: ColorCode,
}

impl ScreenChar {
    /// The cell that two bytes of the surface stand for.
    pub open spec fn decode(bytes: Seq<u8>) -> ScreenChar {
        ScreenChar { ascii_character: bytes[0], color_code: ColorCode(bytes[1]) }
    }

    /// The space glyph in the colours `color`.
    pub open spec fn blank(color: ColorCode) -> ScreenChar {
        ScreenChar { ascii_character: 0x20, color_code: color }
    }
}

/// `volatile::Volatile`: a value that is only read and written by volatile
/// accesses, which the compiler neither drops nor reorders.
#[verifier::external_type_specification]
#[verifier::external_body]
#[verifier::reject_recursive_types(T)]
pub struct ExVolatile<T: Copy>(Volatile<T>);

/// The two bytes that a cell of the surface holds: what `Volatile::read`
/// returns and what `Volatile::write` sets.
pub uninterp spec fn held(cell: Volatile<[u8; 2]>) -> Seq<u8>;

/// `Volatile::read`: a volatile read of the wrapped value. The contract
/// claims that the bytes returned are the bytes the cell holds, and so that
/// nothing but a write changes them; that is true of memory that keeps what
/// was stored in it, as the text-mode surface does.
#[verifier::external_body]
fn volatile_read(cell: &Volatile<[u8; 2]>) -> (bytes: [u8; 2])
    ensures
        bytes@ == held(*cell),
{
    cell.read()
}

/// `Volatile::write`: a volatile write of the wrapped value. The contract
/// claims that afterwards the cell holds exactly the bytes written, and that
/// the call does not unwind.
#[verifier::external_body]
fn volatile_write(cell: &mut Volatile<[u8; 2]>, bytes: [u8; 2])
    ensures
        held(*final(cell)) == bytes@,
    no_unwind
{
    cell.write(bytes)
}

/// The cell at `row`, `col` of the surface.
pub open spec fn cell_at(buffer: Buffer, row: int, col: int) -> ScreenChar {
    ScreenChar::decode(held(buffer[row][col]))
}

/// The surface as rows of cells.
pub open spec fn grid(buffer: Buffer) -> Seq<Seq<ScreenChar>> {
    Seq::new(
        BUFFER_HEIGHT as nat,
        |row: int| Seq::new(BUFFER_WIDTH as nat, |col: int| cell_at(buffer, row, col)),
    )
}

/// Reads one cell of the surface.
pub(crate) fn read_cell(buffer: &Buffer, row: usize, col: usize) -> (cell: ScreenChar)
    requires
        row < BUFFER_HEIGHT,
        col < BUFFER_WIDTH,
    ensures
        cell == grid(*buffer)[row as int][col as int],
{
    let bytes = volatile_read(&buffer[row][col]);
    ScreenChar { ascii_character: bytes[0], color_code: ColorCode(bytes[1]) }
}

/// Writes one cell of the surface and leaves every other cell as it was.
pub(crate) fn write_cell(buffer: &mut Buffer, row: usize, col: usize, cell: ScreenChar)
    requires
        row < BUFFER_HEIGHT,
        col < BUFFER_WIDTH,
    ensures
        grid(*final(buffer)) == grid(*old(buffer)).update(
            row as int,
            grid(*old(buffer))[row as int].update(col as int, cell),
        ),
    no_unwind
{
    volatile_write(&mut buffer[row][col], [cell.ascii_character, cell.color_code.0]);
    assert(grid(*buffer) =~~= grid(*old(buffer)).update(
        row as int,
        grid(*old(buffer))[row as int].update(col as int, cell),
    ));
}

} // verus!
