//! A text console for a memory-mapped character display: a grid of 25 rows
//! of 80 cells, each cell a glyph byte and a colour attribute byte.
//!
//! The [`Writer`] prints on the bottom row, wraps at the right edge and
//! scrolls the rows upward. Every operation is specified against the ghost
//! model [`Console`].

pub mod buffer;
pub mod color;
pub mod console;
pub mod print;
pub mod writer;

pub use buffer::{Buffer, ScreenChar, BUFFER_HEIGHT, BUFFER_WIDTH};
pub use color::{Color, ColorCode};
pub use console::Console;
pub use print::{_print, print_rendered};
pub use writer::Writer;
