//! Colours of the board: the named colours it is painted with, their 8-bit
//! channel values, and the four-entry player palette.

use vstd::prelude::*;

verus! {

/// A colour the board is painted with.
#[derive(Clone, Copy, Debug, PartialEq, Eq, Structural)]
pub enum Color {
    Red,
    Yellow,
    Blue,
    Green,
    White,
    Black,
    Gray,
}

/// Number of entries in a palette.
pub const PALETTE_SIZE: usize = 4;

impl Color {
    /// Red, green, blue and alpha of the colour, 8 bits each, in sRGB.
    pub open spec fn channels(self) -> (u8, u8, u8, u8) {
        match self {
            Color::Red => (255u8, 0u8, 0u8, 255u8),
            Color::Yellow => (255u8, 255u8, 0u8, 255u8),
            Color::Blue => (0u8, 0u8, 255u8, 255u8),
            Color::Green => (0u8, 128u8, 0u8, 255u8),
            Color::White => (255u8, 255u8, 255u8, 255u8),
            Color::Black => (0u8, 0u8, 0u8, 255u8),
            Color::Gray => (128u8, 128u8, 128u8, 255u8),
        }
    }

    /// Red, green, blue and alpha of the colour, 8 bits each, in sRGB.
    pub fn rgba8(&self) -> (c: (u8, u8, u8, u8))
        ensures
            c == self.channels(),
    {
        match self {
            Color::Red => (255, 0, 0, 255),
            Color::Yellow => (255, 255, 0, 255),
            Color::Blue => (0, 0, 255, 255),
            Color::Green => (0, 128, 0, 255),
            Color::White => (255, 255, 255, 255),
            Color::Black => (0, 0, 0, 255),
            Color::Gray => (128, 128, 128, 255),
        }
    }
}

/// The four player colours, in player order.
#[derive(Clone, Copy, Debug, PartialEq, Eq)]
pub struct Palette {
    pub entries: [Color; 4],
}

impl Palette {
    /// Red, yellow, blue, green.
    pub fn standard() -> (p: Palette)
        ensures
            p.entries@ == seq![Color::Red, Color::Yellow, Color::Blue, Color::Green],
    {
        Palette { entries: [Color::Red, Color::Yellow, Color::Blue, Color::Green] }
    }

    /// The colour a running index selects: indices wrap around the palette.
    pub open spec fn pick(self, index: int) -> Color {
        self.entries@[index % 4]
    }

    /// The colour at `index` modulo the palette size.
    pub fn color(&self, index: usize) -> (c: Color)
        ensures
            c == self.pick(index as int),
    {
        self.entries[index % PALETTE_SIZE]
    }
}

} // verus!
