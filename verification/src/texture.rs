//! Decoded textures and the catalog keys that name them.
//!
//! Image decoding is outside this crate: a texture is built from
//! already-decoded pixels, and texel lookups clamp out-of-range indices to
//! the nearest edge instead of indexing out of bounds.

use vstd::prelude::*;
use crate::color::Color;

verus! {

/// Names one texture variant; each variant owns a stable catalog index
/// assigned at load time.
#[derive(Debug, Copy, Clone, PartialEq, Eq, Structural)]
pub enum TextureType {
    Netherrack,
}

impl TextureType {
    /// The catalog index that this variant was loaded under.
    pub open spec fn index_spec(self) -> int {
        match self {
            TextureType::Netherrack => 0,
        }
    }

    /// Returns the stable catalog index of this variant.
    pub fn texture_index(&self) -> (res: usize)
        ensures
            res as int == self.index_spec(),
    {
        match self {
            TextureType::Netherrack => 0,
        }
    }
}

/// A decoded texture image: a row-major grid of colors.
pub struct Texture {
    pub width: usize,
    pub height: usize,
    pub pixels: Vec<Color>,
}

/// Clamps an index into `[0, len - 1]`; indices past the end map to the last
/// valid position.
pub open spec fn clamp_index_spec(i: int, len: int) -> int {
    if i >= len {
        len - 1
    } else {
        i
    }
}

impl Texture {
    /// A texture is never empty and stores exactly one color per grid cell.
    pub open spec fn wf(self) -> bool {
        &&& self.width >= 1
        &&& self.height >= 1
        &&& self.pixels@.len() == self.width * self.height
    }

    /// Builds a texture from already-decoded pixels, given in row-major
    /// order.
    pub fn new(width: usize, height: usize, pixels: Vec<Color>) -> (res: Texture)
        requires
            width >= 1,
            height >= 1,
            pixels@.len() == width * height,
        ensures
            res.wf(),
            res.width == width,
            res.height == height,
            res.pixels@ == pixels@,
    {
        Texture { width, height, pixels }
    }

    /// Reads the texel at `(x, y)`. Indices outside the grid are clamped to
    /// the nearest edge, so the lookup never reaches out of bounds.
    pub fn get_color(&self, x: usize, y: usize) -> (res: Color)
        requires
            self.wf(),
        ensures
            res == self.pixels@[clamp_index_spec(y as int, self.height as int) * self.width
                + clamp_index_spec(x as int, self.width as int)],
    {
        let cx: usize = if x >= self.width {
            self.width - 1
        } else {
            x
        };
        let cy: usize = if y >= self.height {
            self.height - 1
        } else {
            y
        };
        // The length bound of the vector keeps the index within usize.
        let _len: usize = self.pixels.len();
        proof {
            assert(cy * self.width + cx < self.width * self.height) by (nonlinear_arith)
                requires
                    cx < self.width,
                    cy < self.height,
            ;
        }
        let index: usize = cy * self.width + cx;
        self.pixels[index]
    }
}

} // verus!
