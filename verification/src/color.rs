//! A single pixel's color and its WS2812 wire-format packing.

use vstd::prelude::*;

verus! {

/// One pixel's color: three independent 8-bit intensity channels.
#[derive(Copy, Clone, Debug, PartialEq, Eq, Structural)]
pub struct Rgb {
    pub r: u8,
    pub g: u8,
    pub b: u8,
}

impl Rgb {
    /// The 24-bit GRB wire word for this color, as a mathematical value:
    /// green in bits 16..24, red in bits 8..16, blue in bits 0..8.
    pub open spec fn spec_grb24(self) -> u32 {
        ((self.g as u32) * 0x10000 + (self.r as u32) * 0x100 + (self.b as u32)) as u32
    }

    /// True when every channel is off.
    pub open spec fn is_black(self) -> bool {
        self.r == 0 && self.g == 0 && self.b == 0
    }

    pub fn new(r: u8, g: u8, b: u8) -> (c: Rgb)
        ensures
            c == (Rgb { r, g, b }),
    {
        Rgb { r, g, b }
    }

    /// All channels off.
    pub fn black() -> (c: Rgb)
        ensures
            c == (Rgb { r: 0, g: 0, b: 0 }),
    {
        Rgb { r: 0, g: 0, b: 0 }
    }

    pub fn red() -> (c: Rgb)
        ensures
            c == (Rgb { r: 255, g: 0, b: 0 }),
    {
        Rgb { r: 255, g: 0, b: 0 }
    }

    pub fn green() -> (c: Rgb)
        ensures
            c == (Rgb { r: 0, g: 255, b: 0 }),
    {
        Rgb { r: 0, g: 255, b: 0 }
    }

    pub fn blue() -> (c: Rgb)
        ensures
            c == (Rgb { r: 0, g: 0, b: 255 }),
    {
        Rgb { r: 0, g: 0, b: 255 }
    }

    /// All channels at full intensity.
    pub fn white() -> (c: Rgb)
        ensures
            c == (Rgb { r: 255, g: 255, b: 255 }),
    {
        Rgb { r: 255, g: 255, b: 255 }
    }

    pub fn yellow() -> (c: Rgb)
        ensures
            c == (Rgb { r: 255, g: 255, b: 0 }),
    {
        Rgb { r: 255, g: 255, b: 0 }
    }

    pub fn cyan() -> (c: Rgb)
        ensures
            c == (Rgb { r: 0, g: 255, b: 255 }),
    {
        Rgb { r: 0, g: 255, b: 255 }
    }

    pub fn magenta() -> (c: Rgb)
        ensures
            c == (Rgb { r: 255, g: 0, b: 255 }),
    {
        Rgb { r: 255, g: 0, b: 255 }
    }

    /// Pack this color into the 24-bit GRB word the strip expects on the
    /// wire; the high 8 bits of the result stay zero.
    pub fn to_grb24(&self) -> (word: u32)
        ensures
            word == self.spec_grb24(),
            word == ((self.g as u32) << 16) | ((self.r as u32) << 8) | (self.b as u32),
            word < 0x1000000,
    {
        proof {
            lemma_grb24_shift_form(*self);
        }
        ((self.g as u32) << 16) | ((self.r as u32) << 8) | (self.b as u32)
    }
}

/// Packing a color is exactly the shift-and-or of its three bytes:
/// the arithmetic form of the wire word and the bitwise form agree,
/// and the word occupies only the low 24 bits.
pub proof fn lemma_grb24_shift_form(c: Rgb)
    ensures
        c.spec_grb24() == ((c.g as u32) << 16) | ((c.r as u32) << 8) | (c.b as u32),
        c.spec_grb24() < 0x1000000,
{
    let r = c.r;
    let g = c.g;
    let b = c.b;
    assert(((g as u32) * 0x10000 + (r as u32) * 0x100 + (b as u32)) as u32 == ((g as u32) << 16)
        | ((r as u32) << 8) | (b as u32)) by (bit_vector);
    assert((((g as u32) * 0x10000 + (r as u32) * 0x100 + (b as u32)) as u32) < 0x1000000)
        by (bit_vector);
}

} // verus!
