//! The character grid: cells of one code point and one color code, in
//! rows of fixed width.

use vstd::prelude::*;
use crate::color::{lemma_code_is_its_byte, ColorCode};

verus! {

/// The number of rows of the grid.
pub const BUFFER_HEIGHT: usize = 25;

/// The number of cells in a row.
pub const BUFFER_WIDTH: usize = 80;

/// One cell of the display: the code point of a glyph, then the colors it
/// is drawn in.
#[derive(Clone, Copy, Debug, PartialEq, Eq, Structural)]
pub struct ScreenChar {
    pub ascii_character: u8,
    pub color_code: ColorCode,
}

impl ScreenChar {
    /// The two bytes of this cell in the display's memory: the code point
    /// first, the color code second.
    pub open spec fn spec_to_bytes(self) -> Seq<u8> {
        seq![self.ascii_character, self.color_code@]
    }

    /// The cell that shows `ascii_character` in the colors of `color_code`.
    pub fn new(ascii_character: u8, color_code: ColorCode) -> (cell: ScreenChar)
        ensures
            cell == (ScreenChar { ascii_character, color_code }),
    {
        ScreenChar { ascii_character, color_code }
    }

    /// The two bytes of this cell as the display reads them.
    pub fn to_bytes(self) -> (bytes: [u8; 2])
        ensures
            bytes@ == self.spec_to_bytes(),
    {
        let bytes = [self.ascii_character, self.color_code.bits()];
        assert(bytes@ =~= self.spec_to_bytes());
        bytes
    }

    /// The cell that the display shows for two bytes of its memory. It is
    /// the one cell with these two bytes.
    pub fn from_bytes(bytes: [u8; 2]) -> (cell: ScreenChar)
        ensures
            cell.ascii_character == bytes[0],
            cell.color_code@ == bytes[1],
            cell.spec_to_bytes() == bytes@,
    {
        let cell = ScreenChar {
            ascii_character: bytes[0],
            color_code: ColorCode::from_bits(bytes[1]),
        };
        assert(cell.spec_to_bytes() =~= bytes@);
        cell
    }
}

/// A cell is nothing but its two bytes: cells with the same bytes are the
/// same cell.
pub proof fn lemma_cell_is_its_bytes(one: ScreenChar, other: ScreenChar)
    ensures
        one.spec_to_bytes() == other.spec_to_bytes() <==> one == other,
{
    lemma_code_is_its_byte(one.color_code, other.color_code);
    if one.spec_to_bytes() == other.spec_to_bytes() {
        assert(one.spec_to_bytes()[0] == other.spec_to_bytes()[0]);
        assert(one.spec_to_bytes()[1] == other.spec_to_bytes()[1]);
    }
}

/// The cell that shows nothing: a space in the given colors.
pub open spec fn blank(color_code: ColorCode) -> ScreenChar {
    ScreenChar { ascii_character: 0x20, color_code }
}

/// A row of blank cells.
pub open spec fn blank_row(color_code: ColorCode) -> Seq<ScreenChar> {
    Seq::new(BUFFER_WIDTH as nat, |col: int| blank(color_code))
}

/// Whether `rows` has the shape of the grid: `BUFFER_HEIGHT` rows of
/// `BUFFER_WIDTH` cells each.
pub open spec fn grid_shaped(rows: Seq<Seq<ScreenChar>>) -> bool {
    &&& rows.len() == BUFFER_HEIGHT
    &&& forall|row: int| 0 <= row < BUFFER_HEIGHT ==> (#[trigger] rows[row]).len() == BUFFER_WIDTH
}

/// The cells of the display, row by row from the top.
pub struct Buffer {
    chars: [[ScreenChar; BUFFER_WIDTH]; BUFFER_HEIGHT],
}

impl View for Buffer {
    type V = Seq<Seq<ScreenChar>>;

    /// The rows from top to bottom, each from left to right.
    open spec fn view(&self) -> Seq<Seq<ScreenChar>> {
        Seq::new(
            BUFFER_HEIGHT as nat,
            |row: int| Seq::new(BUFFER_WIDTH as nat, |col: int| self.cell_at(row, col)),
        )
    }
}

impl Buffer {
    /// The cell in row `row`, counted from the top, and column `col`,
    /// counted from the left.
    pub closed spec fn cell_at(&self, row: int, col: int) -> ScreenChar {
        self.chars[row][col]
    }

    /// A grid that holds `fill` in every cell.
    pub fn new(fill: ScreenChar) -> (buffer: Buffer)
        ensures
            grid_shaped(buffer@),
            forall|row: int, col: int|
                0 <= row < BUFFER_HEIGHT && 0 <= col < BUFFER_WIDTH ==> #[trigger] buffer@[row][col]
                    == fill,
    {
        Buffer { chars: [[fill; BUFFER_WIDTH]; BUFFER_HEIGHT] }
    }

    /// Reads one cell.
    pub fn read(&self, row: usize, col: usize) -> (cell: ScreenChar)
        requires
            row < BUFFER_HEIGHT,
            col < BUFFER_WIDTH,
        ensures
            cell == self@[row as int][col as int],
    {
        self.chars[row][col]
    }

    /// Stores `cell` at the given place and leaves every other cell as it
    /// was.
    pub fn write(&mut self, row: usize, col: usize, cell: ScreenChar)
        requires
            row < BUFFER_HEIGHT,
            col < BUFFER_WIDTH,
        ensures
            final(self)@ == old(self)@.update(
                row as int,
                old(self)@[row as int].update(col as int, cell),
            ),
    {
        self.chars[row][col] = cell;
        proof {
            assert(self@ =~~= old(self)@.update(
                row as int,
                old(self)@[row as int].update(col as int, cell),
            ));
        }
    }
}

} // verus!
