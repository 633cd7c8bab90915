//! The writer as a state machine: what is on the display and where the
//! cursor stands, and what each operation makes of that.

use vstd::prelude::*;
use crate::buffer::{blank_row, grid_shaped, ScreenChar, BUFFER_HEIGHT, BUFFER_WIDTH};
use crate::color::ColorCode;

verus! {

/// The byte that ends a line.
pub const NEWLINE: u8 = 0x0a;

/// The glyph shown in place of a byte that cannot be printed: a filled
/// square.
pub const SUBSTITUTE: u8 = 0xfe;

/// Whether `byte` is a printable character: a space, a tilde or anything
/// between the two.
pub open spec fn is_printable(byte: u8) -> bool {
    0x20 <= byte <= 0x7e
}

/// The byte that is written for `byte` when it comes in a string: itself if
/// it is printable or ends a line, the substitute glyph if not.
pub open spec fn rendered(byte: u8) -> u8 {
    if is_printable(byte) || byte == NEWLINE {
        byte
    } else {
        SUBSTITUTE
    }
}

/// The state of a writer: the column at which the next byte goes, the
/// colors in which it is drawn, and the cells of the display.
pub struct Screen {
    pub column: nat,
    pub color: ColorCode,
    pub rows: Seq<Seq<ScreenChar>>,
}

impl Screen {
    /// The cells have the shape of the grid, and the cursor stands in the
    /// bottom row or just behind its last cell.
    pub open spec fn wf(self) -> bool {
        &&& grid_shaped(self.rows)
        &&& self.column <= BUFFER_WIDTH
    }

    /// The row that is written to.
    pub open spec fn bottom(self) -> Seq<ScreenChar> {
        self.rows[BUFFER_HEIGHT - 1]
    }

    /// Row `row` blanked in the current colors.
    pub open spec fn clear_row(self, row: int) -> Screen {
        Screen { rows: self.rows.update(row, blank_row(self.color)), ..self }
    }

    /// Every row blanked in the current colors. The cursor stays.
    pub open spec fn clear_screen(self) -> Screen {
        Screen { rows: Seq::new(BUFFER_HEIGHT as nat, |row: int| blank_row(self.color)), ..self }
    }

    /// One scroll: the top row is gone, every other row has moved up by
    /// one, the bottom row is blank, and the cursor is at its start.
    pub open spec fn new_line(self) -> Screen {
        Screen {
            column: 0,
            rows: self.rows.subrange(1, BUFFER_HEIGHT as int).push(blank_row(self.color)),
            ..self
        }
    }

    /// `byte` stored under the cursor in the current colors, and the cursor
    /// moved on by one.
    pub open spec fn place(self, byte: u8) -> Screen {
        Screen {
            column: self.column + 1,
            rows: self.rows.update(
                BUFFER_HEIGHT - 1,
                self.bottom().update(
                    self.column as int,
                    ScreenChar { ascii_character: byte, color_code: self.color },
                ),
            ),
            ..self
        }
    }

    /// One byte taken in. A newline scrolls and stores nothing. Any other
    /// byte is stored under the cursor, after a scroll if the line is full.
    pub open spec fn write_byte(self, byte: u8) -> Screen {
        if byte == NEWLINE {
            self.new_line()
        } else if self.column >= BUFFER_WIDTH {
            self.new_line().place(byte)
        } else {
            self.place(byte)
        }
    }

    /// The bytes of a string taken in from first to last, each as the byte
    /// it is rendered as.
    pub open spec fn write_bytes(self, bytes: Seq<u8>) -> Screen
        decreases bytes.len(),
    {
        if bytes.len() == 0 {
            self
        } else {
            self.write_bytes(bytes.drop_last()).write_byte(rendered(bytes.last()))
        }
    }
}

} // verus!
