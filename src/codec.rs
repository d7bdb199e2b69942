use vstd::prelude::*;

verus! {

/// One of the sixteen colors of the text mode, each with a 4-bit code.
#[derive(Debug, Clone, Copy, PartialEq, Eq, Structural)]
pub enum Color {
    Black,
    Blue,
    Green,
    Cyan,
    Red,
    Magenta,
    Brown,
    LightGray,
    DarkGray,
    LightBlue,
    LightGreen,
    LightCyan,
    LightRed,
    Pink,
    Yellow,
    White,
}

impl Color {
    /// The 4-bit hardware code of the color.
    pub open spec fn spec_code(self) -> u8 {
        match self {
            Color::Black => 0,
            Color::Blue => 1,
            Color::Green => 2,
            Color::Cyan => 3,
            Color::Red => 4,
            Color::Magenta => 5,
            Color::Brown => 6,
            Color::LightGray => 7,
            Color::DarkGray => 8,
            Color::LightBlue => 9,
            Color::LightGreen => 10,
            Color::LightCyan => 11,
            Color::LightRed => 12,
            Color::Pink => 13,
            Color::Yellow => 14,
            Color::White => 15,
        }
    }

    /// The 4-bit hardware code of the color.
    pub fn code(self) -> (r: u8)
        ensures
            r == self.spec_code(),
            r < 16,
    {
        match self {
            Color::Black => 0,
            Color::Blue => 1,
            Color::Green => 2,
            Color::Cyan => 3,
            Color::Red => 4,
            Color::Magenta => 5,
            Color::Brown => 6,
            Color::LightGray => 7,
            Color::DarkGray => 8,
            Color::LightBlue => 9,
            Color::LightGreen => 10,
            Color::LightCyan => 11,
            Color::LightRed => 12,
            Color::Pink => 13,
            Color::Yellow => 14,
            Color::White => 15,
        }
    }
}

/// The packed color byte of a cell: background in the high nibble,
/// foreground in the low nibble.
pub open spec fn packed(text_color: Color, background: Color) -> u8 {
    (background.spec_code() * 16 + text_color.spec_code()) as u8
}

/// A foreground and a background color packed into one byte.
#[derive(Debug, Clone, Copy, PartialEq, Eq, Structural)]
pub struct ColorCode(pub u8);

impl ColorCode {
    /// Packs `text_color` into the low nibble and `background` into the high one.
    pub fn new(text_color: Color, background: Color) -> (r: ColorCode)
        ensures
            r.0 == packed(text_color, background),
    {
        let f = text_color.code();
        let b = background.code();
        assert((b << 4u8) | f == b * 16 + f) by (bit_vector)
            requires
                b < 16,
                f < 16,
        ;
        ColorCode((b << 4u8) | f)
    }
}

/// One cell of the grid: a byte of text and its packed colors.
#[derive(Debug, Clone, Copy, PartialEq, Eq, Structural)]
pub struct ScreenChar {
    pub ascii_char: u8,
    pub color: ColorCode,
}

/// The cell that holds `byte` in the given colors.
pub open spec fn cell(byte: u8, text_color: Color, background: Color) -> ScreenChar {
    ScreenChar { ascii_char: byte, color: ColorCode(packed(text_color, background)) }
}

/// Builds the cell that holds `byte` in the given colors.
pub fn encode_cell(byte: u8, text_color: Color, background: Color) -> (r: ScreenChar)
    ensures
        r == cell(byte, text_color, background),
{
    ScreenChar { ascii_char: byte, color: ColorCode::new(text_color, background) }
}

/// Packing a pair of colors is undone by splitting the byte into its nibbles:
/// the high nibble is the background's code and the low one the foreground's.
pub proof fn lemma_packed_nibbles(text_color: Color, background: Color)
    ensures
        packed(text_color, background) / 16 == background.spec_code(),
        packed(text_color, background) % 16 == text_color.spec_code(),
        packed(text_color, background) >> 4u8 == background.spec_code(),
        packed(text_color, background) & 0xfu8 == text_color.spec_code(),
{
    let p = packed(text_color, background);
    let b = background.spec_code();
    let f = text_color.spec_code();
    assert(p == b * 16 + f);
    assert(p >> 4u8 == p / 16 && p & 0xfu8 == p % 16) by (bit_vector);
}

} // verus!
