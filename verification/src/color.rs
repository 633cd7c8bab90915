//! The sixteen display colors and the one-byte color code that packs a
//! foreground and a background color.

use vstd::prelude::*;

verus! {

/// One of the sixteen colors of the display: eight base hues, each in a
/// normal and a bright form.
#[derive(Clone, Copy, Debug, PartialEq, Eq, Structural)]
pub enum Color {
    Black,
    Blue,
    Green,
    Cyan,
    Red,
    Magenta,
    Brown,
    LightGray,
    DarkGray,
    LightBlue,
    LightGreen,
    LightCyan,
    LightRed,
    Pink,
    Yellow,
    White,
}

impl Color {
    /// The four-bit number of this color in the display's palette.
    pub open spec fn spec_nibble(self) -> u8 {
        match self {
            Color::Black => 0,
            Color::Blue => 1,
            Color::Green => 2,
            Color::Cyan => 3,
            Color::Red => 4,
            Color::Magenta => 5,
            Color::Brown => 6,
            Color::LightGray => 7,
            Color::DarkGray => 8,
            Color::LightBlue => 9,
            Color::LightGreen => 10,
            Color::LightCyan => 11,
            Color::LightRed => 12,
            Color::Pink => 13,
            Color::Yellow => 14,
            Color::White => 15,
        }
    }

    /// The color whose palette number is `nibble`; none for 16 and above.
    pub open spec fn spec_from_nibble(nibble: u8) -> Option<Color> {
        if nibble == 0 {
            Some(Color::Black)
        } else if nibble == 1 {
            Some(Color::Blue)
        } else if nibble == 2 {
            Some(Color::Green)
        } else if nibble == 3 {
            Some(Color::Cyan)
        } else if nibble == 4 {
            Some(Color::Red)
        } else if nibble == 5 {
            Some(Color::Magenta)
        } else if nibble == 6 {
            Some(Color::Brown)
        } else if nibble == 7 {
            Some(Color::LightGray)
        } else if nibble == 8 {
            Some(Color::DarkGray)
        } else if nibble == 9 {
            Some(Color::LightBlue)
        } else if nibble == 10 {
            Some(Color::LightGreen)
        } else if nibble == 11 {
            Some(Color::LightCyan)
        } else if nibble == 12 {
            Some(Color::LightRed)
        } else if nibble == 13 {
            Some(Color::Pink)
        } else if nibble == 14 {
            Some(Color::Yellow)
        } else if nibble == 15 {
            Some(Color::White)
        } else {
            None
        }
    }

    /// The palette number of this color, in `0..16`.
    #[verifier::when_used_as_spec(spec_nibble)]
    pub fn nibble(self) -> (nibble: u8)
        ensures
            nibble == self.spec_nibble(),
            nibble < 16,
            Color::spec_from_nibble(nibble) == Some(self),
    {
        match self {
            Color::Black => 0,
            Color::Blue => 1,
            Color::Green => 2,
            Color::Cyan => 3,
            Color::Red => 4,
            Color::Magenta => 5,
            Color::Brown => 6,
            Color::LightGray => 7,
            Color::DarkGray => 8,
            Color::LightBlue => 9,
            Color::LightGreen => 10,
            Color::LightCyan => 11,
            Color::LightRed => 12,
            Color::Pink => 13,
            Color::Yellow => 14,
            Color::White => 15,
        }
    }

    /// The color with the given palette number. There is one exactly for
    /// the numbers below 16, and its number is the one given.
    #[verifier::when_used_as_spec(spec_from_nibble)]
    pub fn from_nibble(nibble: u8) -> (color: Option<Color>)
        ensures
            color == Color::spec_from_nibble(nibble),
            color is Some <==> nibble < 16,
            color matches Some(c) ==> c.spec_nibble() == nibble,
    {
        match nibble {
            0 => Some(Color::Black),
            1 => Some(Color::Blue),
            2 => Some(Color::Green),
            3 => Some(Color::Cyan),
            4 => Some(Color::Red),
            5 => Some(Color::Magenta),
            6 => Some(Color::Brown),
            7 => Some(Color::LightGray),
            8 => Some(Color::DarkGray),
            9 => Some(Color::LightBlue),
            10 => Some(Color::LightGreen),
            11 => Some(Color::LightCyan),
            12 => Some(Color::LightRed),
            13 => Some(Color::Pink),
            14 => Some(Color::Yellow),
            15 => Some(Color::White),
            _ => None,
        }
    }
}

/// The byte that holds `background` in its high four bits and `foreground`
/// in its low four bits.
pub open spec fn pack(foreground: Color, background: Color) -> u8 {
    (background.spec_nibble() << 4) | foreground.spec_nibble()
}

/// A foreground and a background color in one byte, as the display reads
/// it: the background in the high nibble, the foreground in the low one.
#[derive(Clone, Copy, Debug, PartialEq, Eq, Structural)]
pub struct ColorCode(u8);

impl View for ColorCode {
    type V = u8;

    /// The packed byte.
    closed spec fn view(&self) -> u8 {
        self.0
    }
}

impl ColorCode {
    /// The color in the low nibble.
    pub open spec fn spec_foreground(self) -> Color {
        Color::spec_from_nibble(self@ & 0x0f).unwrap()
    }

    /// The color in the high nibble.
    pub open spec fn spec_background(self) -> Color {
        Color::spec_from_nibble(self@ >> 4).unwrap()
    }

    /// Packs a foreground and a background color. The two colors can be
    /// read back from the code unchanged.
    pub fn new(foreground: Color, background: Color) -> (code: ColorCode)
        ensures
            code@ == pack(foreground, background),
            code@ == 16 * background.spec_nibble() + foreground.spec_nibble(),
            code.spec_foreground() == foreground,
            code.spec_background() == background,
    {
        let low = foreground.nibble();
        let high = background.nibble();
        proof {
            lemma_pack_nibbles(low, high);
        }
        ColorCode(high << 4 | low)
    }

    /// The code that is the byte `bits`. Every byte is a code: its low
    /// nibble is a foreground color and its high nibble a background color.
    pub fn from_bits(bits: u8) -> (code: ColorCode)
        ensures
            code@ == bits,
    {
        ColorCode(bits)
    }

    /// The packed byte.
    pub fn bits(&self) -> (bits: u8)
        ensures
            bits == self@,
    {
        self.0
    }

    /// The foreground color.
    #[verifier::when_used_as_spec(spec_foreground)]
    pub fn foreground(self) -> (color: Color)
        ensures
            color == self.spec_foreground(),
            color.spec_nibble() == self@ & 0x0f,
    {
        let bits = self.0;
        let low = bits & 0x0f;
        assert(low < 16) by (bit_vector)
            requires
                low == bits & 0x0f,
        ;
        Color::from_nibble(low).unwrap()
    }

    /// The background color.
    #[verifier::when_used_as_spec(spec_background)]
    pub fn background(self) -> (color: Color)
        ensures
            color == self.spec_background(),
            color.spec_nibble() == self@ >> 4,
    {
        let bits = self.0;
        let high = bits >> 4;
        assert(high < 16) by (bit_vector)
            requires
                high == bits >> 4,
        ;
        Color::from_nibble(high).unwrap()
    }
}

/// Two nibbles packed into a byte can be taken out again by masking and
/// shifting, and the byte is sixteen times the high nibble plus the low one.
proof fn lemma_pack_nibbles(low: u8, high: u8)
    requires
        low < 16,
        high < 16,
    ensures
        ((high << 4) | low) & 0x0f == low,
        ((high << 4) | low) >> 4 == high,
        ((high << 4) | low) == 16 * high + low,
{
    assert(((high << 4) | low) & 0x0f == low) by (bit_vector)
        requires
            low < 16,
            high < 16,
    ;
    assert(((high << 4) | low) >> 4 == high) by (bit_vector)
        requires
            low < 16,
            high < 16,
    ;
    assert(((high << 4) | low) == 16 * high + low) by (bit_vector)
        requires
            low < 16,
            high < 16,
    ;
}

/// Packing is lossless: for every pair of colors, the code made of them
/// has the first as its foreground and the second as its background.
pub proof fn lemma_color_code_round_trip(foreground: Color, background: Color)
    ensures
        Color::spec_from_nibble(pack(foreground, background) & 0x0f) == Some(foreground),
        Color::spec_from_nibble(pack(foreground, background) >> 4) == Some(background),
{
    lemma_pack_nibbles(foreground.spec_nibble(), background.spec_nibble());
}

/// A code is nothing but its byte: two codes with the same byte are the
/// same code.
pub proof fn lemma_code_is_its_byte(one: ColorCode, other: ColorCode)
    ensures
        one@ == other@ <==> one == other,
{
}

/// Every byte is the code of exactly the pair of colors read out of it.
pub proof fn lemma_every_byte_is_a_code(code: ColorCode)
    ensures
        code@ == pack(code.spec_foreground(), code.spec_background()),
{
    let bits = code@;
    let low = bits & 0x0f;
    let high = bits >> 4;
    assert(low < 16 && high < 16 && (high << 4) | low == bits) by (bit_vector)
        requires
            low == bits & 0x0f,
            high == bits >> 4,
    ;
}

} // verus!
