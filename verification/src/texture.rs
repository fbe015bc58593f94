//! Decoded images as plain pixel grids.
//!
//! Decoding an image file is input work that stays outside this library;
//! a `Texture` is built from the decoded width, height and row-major
//! pixels, and answers the two sampling queries the materials need.

use vstd::prelude::*;
use crate::color::Color;
use crate::fixed::{div_trunc, FX_ONE};

verus! {

pub struct Texture {
    pub width: u32,
    pub height: u32,
    pub pixels: Vec<Color>,
}

/// The color sampled at integer pixel coordinates: row-major lookup, red
/// for out-of-range coordinates.
pub open spec fn spec_texture_pixel(t: Texture, x: u32, y: u32) -> Color {
    if x >= t.width || y >= t.height {
        Color { r: 255, g: 0, b: 0 }
    } else {
        t.pixels@[y as int * t.width as int + x as int]
    }
}

/// A UV coordinate in fixed-point [0, 1] scaled to a pixel index and
/// clamped into [0, dim - 1], truncating as a float-to-integer cast does.
pub open spec fn spec_uv_index(u: i64, dim: u32) -> u32 {
    let q = div_trunc(u * dim, FX_ONE as int);
    if q < 0 {
        0
    } else if q > dim - 1 {
        (dim - 1) as u32
    } else {
        q as u32
    }
}

/// The color sampled at normalized fixed-point UV coordinates.
pub open spec fn spec_texture_color(t: Texture, u: i64, v: i64) -> Color {
    spec_texture_pixel(t, spec_uv_index(u, t.width), spec_uv_index(v, t.height))
}

impl Texture {
    /// The pixel vector holds exactly one color per coordinate pair.
    pub open spec fn wf(&self) -> bool {
        self.pixels@.len() == self.width as int * self.height as int
    }

    /// Build a texture from decoded dimensions and row-major pixels.
    pub fn new(width: u32, height: u32, pixels: Vec<Color>) -> (t: Texture)
        requires
            pixels@.len() == width as int * height as int,
        ensures
            t == (Texture { width, height, pixels }),
            t.wf(),
    {
        Texture { width, height, pixels }
    }

    /// Sample at integer pixel coordinates; out-of-range coordinates give
    /// red, as a visible marker.
    pub fn get_pixel_color(&self, x: u32, y: u32) -> (c: Color)
        requires
            self.wf(),
        ensures
            c == spec_texture_pixel(*self, x, y),
    {
        if x >= self.width || y >= self.height {
            return Color::new(255, 0, 0);
        }
        proof {
            lemma_row_major_in_range(
                x as int,
                y as int,
                self.width as int,
                self.height as int,
            );
        }
        let n: usize = self.pixels.len();
        assert((y as int) * (self.width as int) + (x as int) < (n as int));
        let idx: usize = (y as usize) * (self.width as usize) + (x as usize);
        self.pixels[idx]
    }

    /// Sample at normalized fixed-point UV coordinates, clamped into the
    /// pixel grid.
    pub fn get_color(&self, u: i64, v: i64) -> (c: Color)
        requires
            self.wf(),
            self.width >= 1,
            self.height >= 1,
        ensures
            c == spec_texture_color(*self, u, v),
    {
        let x = uv_index(u, self.width);
        let y = uv_index(v, self.height);
        self.get_pixel_color(x, y)
    }
}

/// A row-major index lies inside the pixel vector.
proof fn lemma_row_major_in_range(x: int, y: int, w: int, h: int)
    by (nonlinear_arith)
    requires
        0 <= x < w,
        0 <= y < h,
    ensures
        0 <= y * w + x < w * h,
{
}

/// Scale a fixed-point UV coordinate to a pixel index, clamped.
pub fn uv_index(u: i64, dim: u32) -> (x: u32)
    requires
        dim >= 1,
    ensures
        x == spec_uv_index(u, dim),
{
    if u <= 0 {
        proof {
            lemma_uv_index_nonpos(u as int, dim as int);
        }
        0
    } else {
        proof {
            assert(u as int * dim as int <= 0x8000_0000_0000_0000 * 0x1_0000_0000)
                by (nonlinear_arith)
                requires
                    0 <= u <= 0x7fff_ffff_ffff_ffff && 0 <= dim <= 0xffff_ffff,
            ;
        }
        let p: u128 = (u as u128) * (dim as u128);
        let q: u128 = p / (FX_ONE as u128);
        if q > (dim - 1) as u128 {
            dim - 1
        } else {
            q as u32
        }
    }
}

/// A non-positive UV coordinate clamps to pixel index zero.
proof fn lemma_uv_index_nonpos(u: int, dim: int)
    requires
        u <= 0,
        dim >= 1,
    ensures
        div_trunc(u * dim, FX_ONE as int) <= 0,
{
    assert(u * dim <= 0) by (nonlinear_arith)
        requires
            u <= 0 && dim >= 1,
    ;
}

} // verus!
