//! Clamped 8-bit RGB color values.
//!
//! Every channel always lies in `[0, 255]`; channel arithmetic saturates
//! instead of wrapping or panicking.

use vstd::prelude::*;

verus! {

/// Mathematical clamp of an integer into the channel range `[0, 255]`.
pub open spec fn clamp_spec(value: int) -> int {
    if value < 0 {
        0
    } else if value > 255 {
        255
    } else {
        value
    }
}

/// An RGB color with one byte per channel.
#[derive(Debug, Copy, Clone, PartialEq, Eq, Structural)]
pub struct Color {
    pub r: u8,
    pub g: u8,
    pub b: u8,
}

impl Color {
    /// Clamps an integer channel value into `[0, 255]`.
    pub fn clamp(value: i32) -> (res: u8)
        ensures
            res as int == clamp_spec(value as int),
    {
        if value < 0 {
            0
        } else if value > 255 {
            255
        } else {
            value as u8
        }
    }

    /// Builds a color from integer channel values, clamping each channel.
    pub fn new(r: i32, g: i32, b: i32) -> (res: Color)
        ensures
            res.r as int == clamp_spec(r as int),
            res.g as int == clamp_spec(g as int),
            res.b as int == clamp_spec(b as int),
    {
        Color { r: Color::clamp(r), g: Color::clamp(g), b: Color::clamp(b) }
    }

    /// Builds a color from a packed `0xRRGGBB` value.
    pub fn from_hex(hex: u32) -> (res: Color)
        ensures
            res.r == ((hex >> 16) & 0xFF) as u8,
            res.g == ((hex >> 8) & 0xFF) as u8,
            res.b == (hex & 0xFF) as u8,
    {
        let r = ((hex >> 16) & 0xFF) as u8;
        let g = ((hex >> 8) & 0xFF) as u8;
        let b = (hex & 0xFF) as u8;
        Color::new(r as i32, g as i32, b as i32)
    }

    /// Adds two colors channel by channel, saturating at 255.
    pub fn add(&self, other: &Color) -> (res: Color)
        ensures
            res.r as int == clamp_spec(self.r as int + other.r as int),
            res.g as int == clamp_spec(self.g as int + other.g as int),
            res.b as int == clamp_spec(self.b as int + other.b as int),
    {
        Color {
            r: Color::clamp(self.r as i32 + other.r as i32),
            g: Color::clamp(self.g as i32 + other.g as i32),
            b: Color::clamp(self.b as i32 + other.b as i32),
        }
    }

    /// The color with every channel zero.
    pub fn black() -> (res: Color)
        ensures
            res == (Color { r: 0, g: 0, b: 0 }),
    {
        Color { r: 0, g: 0, b: 0 }
    }

    /// Packs the channels into a single `0xRRGGBB` value.
    pub fn to_u32(&self) -> (res: u32)
        ensures
            res == ((self.r as u32) << 16) | ((self.g as u32) << 8) | (self.b as u32),
    {
        let r = (self.r as u32) << 16;
        let g = (self.g as u32) << 8;
        let b = self.b as u32;
        r | g | b
    }
}

/// Clamping is idempotent: clamping an already clamped channel value changes
/// nothing, and a clamped value always lies in `[0, 255]`.
pub proof fn lemma_clamp_idempotent(value: int)
    ensures
        clamp_spec(clamp_spec(value)) == clamp_spec(value),
        0 <= clamp_spec(value) <= 255,
{
}

/// Splitting a packed value into channels as `from_hex` does and repacking
/// them as `to_u32` does keeps exactly the low 24 bits: the ignored high
/// byte is the only information lost.
pub proof fn lemma_from_hex_to_u32(hex: u32)
    ensures
        ((((hex >> 16) & 0xFF) as u8 as u32) << 16) | ((((hex >> 8) & 0xFF) as u8 as u32) << 8) | (
        (hex & 0xFF) as u8 as u32) == hex & 0xFFFFFF,
{
    assert(((((hex >> 16) & 0xFF) as u8 as u32) << 16) | ((((hex >> 8) & 0xFF) as u8 as u32) << 8)
        | ((hex & 0xFF) as u8 as u32) == hex & 0xFFFFFF) by (bit_vector);
}

/// Saturating channel addition never leaves the channel range: whatever two
/// colors are added, every channel of the sum stays within `[0, 255]`, so
/// repeated addition can never push a channel past 255.
pub proof fn lemma_add_channels_in_range(a: Color, b: Color)
    ensures
        0 <= clamp_spec(a.r as int + b.r as int) <= 255,
        0 <= clamp_spec(a.g as int + b.g as int) <= 255,
        0 <= clamp_spec(a.b as int + b.b as int) <= 255,
{
}

} // verus!
