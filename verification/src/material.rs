//! Shading coefficients bundled per primitive.
//!
//! The four albedo channels weight the diffuse, specular, reflected and
//! refracted contributions; all weights, the refractive index and the
//! emission strength are Q31.32 fixed-point values. A texture, when
//! present, is shared behind a reference-counted handle.

use vstd::prelude::*;
use std::sync::Arc;
use crate::color::Color;
use crate::fixed::{div_trunc, FX_ONE};
use crate::texture::{spec_texture_pixel, Texture};

verus! {

pub struct Material {
    pub diffuse: Color,
    /// Specular exponent: the power the specular intensity is raised to.
    pub specular: u32,
    /// Weights of {diffuse, specular, reflected, refracted} light.
    pub albedo: [i64; 4],
    pub texture: Option<Arc<Texture>>,
    pub refractive_index: i64,
    pub emission: Color,
    pub emission_strength: i64,
}

/// A UV coordinate scaled to a pixel index, rounded to the nearest pixel
/// (halves away from zero) and clamped into [0, dim - 1].
pub open spec fn spec_round_index(u: i64, dim: u32) -> u32 {
    let t = u * dim;
    let r = if t >= 0 {
        (t + (FX_ONE as int) / 2) / (FX_ONE as int)
    } else {
        -(((-t) + (FX_ONE as int) / 2) / (FX_ONE as int))
    };
    if r < 0 {
        0
    } else if r > dim - 1 {
        (dim - 1) as u32
    } else {
        r as u32
    }
}

/// The diffuse color at a surface point: the texture sampled at the
/// nearest pixel when one is present, else the flat diffuse color.
pub open spec fn spec_get_diffuse(m: Material, u: i64, v: i64) -> Color {
    match m.texture {
        Some(t) => spec_texture_pixel(*t, spec_round_index(u, t.width), spec_round_index(v, t.height)),
        None => m.diffuse,
    }
}

impl Material {
    /// A held texture is well formed and at least one pixel wide and high.
    pub open spec fn wf(&self) -> bool {
        match self.texture {
            Some(t) => t.wf() && t.width >= 1 && t.height >= 1,
            None => true,
        }
    }

    pub fn new(
        diffuse: Color,
        specular: u32,
        albedo: [i64; 4],
        refractive_index: i64,
        emission: Color,
        emission_strength: i64,
    ) -> (m: Material)
        ensures
            m == (Material {
                diffuse,
                specular,
                albedo,
                texture: None::<Arc<Texture>>,
                refractive_index,
                emission,
                emission_strength,
            }),
            m.wf(),
    {
        Material {
            diffuse,
            specular,
            albedo,
            texture: None,
            refractive_index,
            emission,
            emission_strength,
        }
    }

    pub fn material_with_texture(
        diffuse: Color,
        specular: u32,
        albedo: [i64; 4],
        texture: Option<Arc<Texture>>,
        refractive_index: i64,
        emission: Color,
        emission_strength: i64,
    ) -> (m: Material)
        requires
            match texture {
                Some(t) => t.wf() && t.width >= 1 && t.height >= 1,
                None => true,
            },
        ensures
            m == (Material {
                diffuse,
                specular,
                albedo,
                texture,
                refractive_index,
                emission,
                emission_strength,
            }),
            m.wf(),
    {
        Material {
            diffuse,
            specular,
            albedo,
            texture,
            refractive_index,
            emission,
            emission_strength,
        }
    }

    /// The diffuse color at UV coordinates `(u, v)`.
    pub fn get_diffuse(&self, u: i64, v: i64) -> (c: Color)
        requires
            self.wf(),
        ensures
            c == spec_get_diffuse(*self, u, v),
    {
        match &self.texture {
            Some(t) => {
                let x = round_index(u, t.width);
                let y = round_index(v, t.height);
                t.get_pixel_color(x, y)
            },
            None => self.diffuse,
        }
    }

    /// The all-zero material: black, no weights, no texture, no emission.
    pub fn black() -> (m: Material)
        ensures
            m == (Material {
                diffuse: Color { r: 0, g: 0, b: 0 },
                specular: 0u32,
                albedo: [0i64, 0i64, 0i64, 0i64],
                texture: None::<Arc<Texture>>,
                refractive_index: 0i64,
                emission: Color { r: 0, g: 0, b: 0 },
                emission_strength: 0i64,
            }),
            m.wf(),
    {
        Material {
            diffuse: Color::new(0, 0, 0),
            specular: 0,
            albedo: [0, 0, 0, 0],
            texture: None,
            refractive_index: 0,
            emission: Color::new(0, 0, 0),
            emission_strength: 0,
        }
    }
}

/// Scale a fixed-point UV coordinate to the nearest pixel index, clamped.
pub fn round_index(u: i64, dim: u32) -> (x: u32)
    requires
        dim >= 1,
    ensures
        x == spec_round_index(u, dim),
{
    if u <= 0 {
        proof {
            lemma_round_index_nonpos(u as int, dim as int);
        }
        0
    } else {
        proof {
            assert(u as int * dim as int <= 0x8000_0000_0000_0000 * 0x1_0000_0000)
                by (nonlinear_arith)
                requires
                    0 <= u <= 0x7fff_ffff_ffff_ffff && 0 <= dim <= 0xffff_ffff,
            ;
        }
        let p: u128 = (u as u128) * (dim as u128) + (FX_ONE as u128) / 2;
        let q: u128 = p / (FX_ONE as u128);
        if q > (dim - 1) as u128 {
            dim - 1
        } else {
            q as u32
        }
    }
}

/// A non-positive UV coordinate rounds and clamps to pixel index zero.
proof fn lemma_round_index_nonpos(u: int, dim: int)
    requires
        u <= 0,
        dim >= 1,
    ensures
        u * dim <= 0,
{
    assert(u * dim <= 0) by (nonlinear_arith)
        requires
            u <= 0 && dim >= 1,
    ;
}

} // verus!
