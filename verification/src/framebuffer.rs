//! A pixel framebuffer: a row-major grid of packed `0xAARRGGBB` pixels with
//! verified in-bounds addressing.

use vstd::prelude::*;
use crate::color::Color;

verus! {

/// Packs a color into a `0xAARRGGBB` pixel with a full-opacity alpha byte.
pub open spec fn pack_spec(c: Color) -> u32 {
    ((255u32) << 24) | ((c.r as u32) << 16) | ((c.g as u32) << 8) | (c.b as u32)
}

/// Reads the color channels back out of a packed pixel, dropping alpha.
pub open spec fn unpack_spec(p: u32) -> Color {
    Color { r: ((p >> 16) & 0xFF) as u8, g: ((p >> 8) & 0xFF) as u8, b: (p & 0xFF) as u8 }
}

/// Packing a color into a pixel and unpacking it returns the same color:
/// framebuffer storage is lossless on colors.
pub proof fn lemma_pack_unpack(c: Color)
    ensures
        unpack_spec(pack_spec(c)) == c,
{
    let r = c.r;
    let g = c.g;
    let b = c.b;
    let p = pack_spec(c);
    assert((((p >> 16) & 0xFF) as u8) == r && (((p >> 8) & 0xFF) as u8) == g && ((p
        & 0xFF) as u8) == b) by (bit_vector)
        requires
            p == ((255u32) << 24) | ((r as u32) << 16) | ((g as u32) << 8) | (b as u32),
    ;
}

pub struct Framebuffer {
    pub width: usize,
    pub height: usize,
    pub buffer: Vec<u32>,
    pub background_color: Color,
    pub current_color: Color,
}

impl Framebuffer {
    /// The pixel storage holds exactly one packed pixel per grid cell.
    pub open spec fn wf(self) -> bool {
        self.buffer@.len() == self.width * self.height
    }

    /// Allocates a framebuffer of the given size with every pixel zeroed,
    /// a neutral gray background and a white drawing color.
    pub fn new(width: usize, height: usize) -> (res: Framebuffer)
        requires
            width * height <= usize::MAX,
        ensures
            res.wf(),
            res.width == width,
            res.height == height,
            forall|i: int| 0 <= i < res.buffer@.len() ==> res.buffer@[i] == 0u32,
            res.background_color == (Color { r: 179, g: 179, b: 179 }),
            res.current_color == (Color { r: 255, g: 255, b: 255 }),
    {
        let buffer_size: usize = width * height;
        let mut buffer: Vec<u32> = Vec::new();
        let mut i: usize = 0;
        while i < buffer_size
            invariant
                i <= buffer_size,
                buffer@.len() == i,
                forall|j: int| 0 <= j < i ==> buffer@[j] == 0u32,
            decreases buffer_size - i,
        {
            buffer.push(0u32);
            i = i + 1;
        }
        Framebuffer {
            width,
            height,
            buffer,
            background_color: Color::new(179, 179, 179),
            current_color: Color::new(255, 255, 255),
        }
    }

    /// Floods every pixel with the packed background color.
    pub fn clear(&mut self)
        requires
            old(self).wf(),
        ensures
            final(self).wf(),
            final(self).width == old(self).width,
            final(self).height == old(self).height,
            final(self).background_color == old(self).background_color,
            final(self).current_color == old(self).current_color,
            final(self).buffer@.len() == old(self).buffer@.len(),
            forall|i: int|
                0 <= i < final(self).buffer@.len() ==> final(self).buffer@[i] == pack_spec(
                    old(self).background_color,
                ),
    {
        let color_u32 = self.color_to_u32(&self.background_color);
        let n = self.buffer.len();
        let mut i: usize = 0;
        while i < n
            invariant
                i <= n,
                self.buffer@.len() == n,
                self.width == old(self).width,
                self.height == old(self).height,
                self.background_color == old(self).background_color,
                self.current_color == old(self).current_color,
                color_u32 == pack_spec(old(self).background_color),
                n == old(self).buffer@.len(),
                forall|j: int| 0 <= j < i ==> self.buffer@[j] == color_u32,
            decreases n - i,
        {
            self.buffer.set(i, color_u32);
            i = i + 1;
        }
    }

    /// Writes one pixel. Coordinates outside the grid leave the framebuffer
    /// untouched.
    pub fn point(&mut self, x: usize, y: usize, color: Color)
        requires
            old(self).wf(),
        ensures
            final(self).wf(),
            final(self).width == old(self).width,
            final(self).height == old(self).height,
            final(self).background_color == old(self).background_color,
            final(self).current_color == old(self).current_color,
            x < old(self).width && y < old(self).height ==> final(self).buffer@ == old(
                self,
            ).buffer@.update(y * old(self).width + x, pack_spec(color)),
            !(x < old(self).width && y < old(self).height) ==> *final(self) == *old(self),
    {
        if x < self.width && y < self.height {
            // The length bound of the vector keeps the index within usize.
            let _len: usize = self.buffer.len();
            proof {
                assert(y * self.width + x < self.width * self.height) by (nonlinear_arith)
                    requires
                        x < self.width,
                        y < self.height,
                ;
            }
            let index: usize = y * self.width + x;
            let packed = self.color_to_u32(&color);
            self.buffer.set(index, packed);
        }
    }

    /// Replaces the background color; nothing else changes.
    pub fn set_background_color(&mut self, color: Color)
        ensures
            final(self).background_color == color,
            final(self).current_color == old(self).current_color,
            final(self).width == old(self).width,
            final(self).height == old(self).height,
            final(self).buffer@ == old(self).buffer@,
    {
        self.background_color = color;
    }

    /// Replaces the current drawing color; nothing else changes.
    pub fn set_current_color(&mut self, color: Color)
        ensures
            final(self).current_color == color,
            final(self).background_color == old(self).background_color,
            final(self).width == old(self).width,
            final(self).height == old(self).height,
            final(self).buffer@ == old(self).buffer@,
    {
        self.current_color = color;
    }

    /// Reads back the color stored at a grid cell.
    pub fn get_pixel(&self, x: usize, y: usize) -> (res: Color)
        requires
            self.wf(),
            x < self.width,
            y < self.height,
        ensures
            res == unpack_spec(self.buffer@[y * self.width + x]),
    {
        // The length bound of the vector keeps the index within usize.
        let _len: usize = self.buffer.len();
        proof {
            assert(y * self.width + x < self.width * self.height) by (nonlinear_arith)
                requires
                    x < self.width,
                    y < self.height,
            ;
        }
        let index: usize = y * self.width + x;
        let color_u32 = self.buffer[index];
        self.u32_to_color(color_u32)
    }

    /// Packs a color into a `0xAARRGGBB` pixel with full opacity.
    pub fn color_to_u32(&self, color: &Color) -> (res: u32)
        ensures
            res == pack_spec(*color),
    {
        ((255u32) << 24) | ((color.r as u32) << 16) | ((color.g as u32) << 8) | (color.b as u32)
    }

    /// Reads the color channels back out of a packed pixel.
    pub fn u32_to_color(&self, color: u32) -> (res: Color)
        ensures
            res == unpack_spec(color),
    {
        let r = ((color >> 16) & 0xFF) as u8;
        let g = ((color >> 8) & 0xFF) as u8;
        let b = (color & 0xFF) as u8;
        Color { r, g, b }
    }
}

} // verus!

