//! A text writer for a memory-mapped character display: a grid of
//! 25 rows by 80 columns of two-byte cells, written along the bottom row
//! with line wrapping and whole-row scrolling.

pub mod buffer;
pub mod color;
pub mod screen;
pub mod theorems;
pub mod writer;

pub use buffer::{Buffer, ScreenChar, BUFFER_HEIGHT, BUFFER_WIDTH};
pub use color::{Color, ColorCode};
pub use writer::Writer;
