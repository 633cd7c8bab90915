//! The writer: it takes bytes and renders them along the bottom row of the
//! grid, wrapping at the end of the line and scrolling the rows up.

use vstd::prelude::*;
use vstd::string::StringSliceAdditionalSpecFns;
use crate::buffer::{blank, blank_row, Buffer, ScreenChar, BUFFER_HEIGHT, BUFFER_WIDTH};
use crate::color::ColorCode;
use crate::screen::{Screen, NEWLINE, SUBSTITUTE};

verus! {

/// A cursor in the bottom row of a grid, and the colors to write in.
pub struct Writer {
    pub column_position: usize,
    pub color_code: ColorCode,
    pub buffer: Buffer,
}

impl View for Writer {
    type V = Screen;

    open spec fn view(&self) -> Screen {
        Screen {
            column: self.column_position as nat,
            color: self.color_code,
            rows: self.buffer@,
        }
    }
}

impl Writer {
    /// A writer at the start of the bottom row of `buffer`, whose cells it
    /// leaves as they are.
    pub fn new(color_code: ColorCode, buffer: Buffer) -> (writer: Writer)
        ensures
            writer@ == (Screen { column: 0, color: color_code, rows: buffer@ }),
            writer@.wf(),
    {
        Writer { column_position: 0, color_code, buffer }
    }

    /// Takes in one byte as it is. A newline scrolls the grid up by one row
    /// and stores nothing. Any other byte is stored in the bottom row under
    /// the cursor, after a scroll if the row is full, and the cursor moves
    /// on by one.
    pub fn write_byte(&mut self, byte: u8)
        ensures
            final(self)@ == old(self)@.write_byte(byte),
            final(self)@.wf(),
    {
        if byte == NEWLINE {
            self.new_line();
        } else {
            if self.column_position >= BUFFER_WIDTH {
                self.new_line();
            }
            let row = BUFFER_HEIGHT - 1;
            let col = self.column_position;
            let color = self.color_code;
            self.buffer.write(row, col, ScreenChar::new(byte, color));
            self.column_position += 1;
        }
    }

    /// Takes in the bytes of `s` in order: a printable byte or a newline as
    /// it is, any other byte as the substitute glyph.
    pub fn write_string(&mut self, s: &str)
        ensures
            final(self)@ == old(self)@.write_bytes(s.spec_bytes()),
            old(self)@.wf() ==> final(self)@.wf(),
    {
        let bytes = s.as_bytes();
        for i in 0..bytes.len()
            invariant
                bytes@ == s.spec_bytes(),
                self@ == old(self)@.write_bytes(bytes@.take(i as int)),
                old(self)@.wf() ==> self@.wf(),
        {
            let byte = bytes[i];
            proof {
                assert(bytes@.take(i + 1).drop_last() =~= bytes@.take(i as int));
            }
            match byte {
                0x20..=0x7e | 0x0a => self.write_byte(byte),
                _ => self.write_byte(SUBSTITUTE),
            }
        }
        proof {
            assert(bytes@.take(bytes@.len() as int) =~= bytes@);
        }
    }

    /// Scrolls the grid up by one row: every row but the top one moves up,
    /// the bottom row is blanked, and the cursor returns to its start.
    fn new_line(&mut self)
        ensures
            final(self)@ == old(self)@.new_line(),
    {
        for row in 1..BUFFER_HEIGHT
            invariant
                self.column_position == old(self).column_position,
                self.color_code == old(self).color_code,
                // The rows above have taken what stood below them; the rest
                // is untouched.
                forall|r: int|
                    0 <= r < row - 1 ==> #[trigger] self.buffer@[r] == old(self).buffer@[r + 1],
                forall|r: int|
                    row - 1 <= r < BUFFER_HEIGHT ==> #[trigger] self.buffer@[r]
                        == old(self).buffer@[r],
        {
            for col in 0..BUFFER_WIDTH
                invariant
                    1 <= row < BUFFER_HEIGHT,
                    self.column_position == old(self).column_position,
                    self.color_code == old(self).color_code,
                    forall|r: int|
                        0 <= r < row - 1 ==> #[trigger] self.buffer@[r] == old(self).buffer@[r + 1],
                    forall|r: int|
                        row <= r < BUFFER_HEIGHT ==> #[trigger] self.buffer@[r]
                            == old(self).buffer@[r],
                    // The row above is overwritten from the left.
                    forall|c: int|
                        0 <= c < col ==> #[trigger] self.buffer@[row - 1][c]
                            == old(self).buffer@[row as int][c],
            {
                let character = self.buffer.read(row, col);
                self.buffer.write(row - 1, col, character);
            }
            proof {
                assert(self.buffer@[row - 1] =~= old(self).buffer@[row as int]);
            }
        }
        self.clear_row(BUFFER_HEIGHT - 1);
        self.column_position = 0;
        proof {
            assert(self@.rows =~= old(self)@.new_line().rows);
        }
    }

    /// Blanks one row in the current colors.
    fn clear_row(&mut self, row: usize)
        requires
            row < BUFFER_HEIGHT,
        ensures
            final(self)@ == old(self)@.clear_row(row as int),
    {
        let space = ScreenChar::new(0x20, self.color_code);
        for col in 0..BUFFER_WIDTH
            invariant
                row < BUFFER_HEIGHT,
                space == blank(self.color_code),
                self.column_position == old(self).column_position,
                self.color_code == old(self).color_code,
                forall|r: int|
                    0 <= r < BUFFER_HEIGHT && r != row ==> #[trigger] self.buffer@[r]
                        == old(self).buffer@[r],
                forall|c: int| 0 <= c < col ==> #[trigger] self.buffer@[row as int][c] == space,
        {
            self.buffer.write(row, col, space);
        }
        proof {
            assert(self@.rows[row as int] =~= old(self)@.clear_row(row as int).rows[row as int]);
            assert(self@.rows =~= old(self)@.clear_row(row as int).rows);
        }
    }

    /// Blanks every cell of the grid in the current colors. The cursor
    /// stays where it is.
    pub fn clear_screen(&mut self)
        ensures
            final(self)@ == old(self)@.clear_screen(),
            final(self).column_position == old(self).column_position,
            final(self).color_code == old(self).color_code,
            forall|row: int, col: int|
                0 <= row < BUFFER_HEIGHT && 0 <= col < BUFFER_WIDTH
                    ==> #[trigger] final(self).buffer@[row][col] == blank(old(self).color_code),
    {
        for row in 0..BUFFER_HEIGHT
            invariant
                self.column_position == old(self).column_position,
                self.color_code == old(self).color_code,
                forall|r: int|
                    0 <= r < row ==> #[trigger] self.buffer@[r] == blank_row(self.color_code),
        {
            self.clear_row(row);
        }
        proof {
            assert(self@.rows =~= old(self)@.clear_screen().rows);
        }
    }
}

} // verus!
