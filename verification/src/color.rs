//! RGB colors with three 8-bit channels.
//!
//! Addition saturates each channel at 255; scalar multiplication clamps
//! each channel into [0, 255]. Both are stated exactly by the spec
//! functions below.

use vstd::prelude::*;
use crate::fixed::{div_trunc, FX_ONE};

verus! {

#[derive(Clone, Copy, PartialEq, Eq, Structural, Debug)]
pub struct Color {
    pub r: u8,
    pub g: u8,
    pub b: u8,
}

/// Clamp a mathematical integer into one 8-bit channel.
pub open spec fn clamp_channel(v: int) -> u8 {
    if v > 255 {
        255
    } else if v < 0 {
        0
    } else {
        v as u8
    }
}

/// Channel-wise saturating addition.
pub open spec fn spec_color_add(a: Color, b: Color) -> Color {
    Color {
        r: clamp_channel(a.r + b.r),
        g: clamp_channel(a.g + b.g),
        b: clamp_channel(a.b + b.b),
    }
}

/// Channel-wise clamping multiplication by an integer factor.
pub open spec fn spec_color_mul(a: Color, factor: i32) -> Color {
    Color {
        r: clamp_channel(a.r * factor),
        g: clamp_channel(a.g * factor),
        b: clamp_channel(a.b * factor),
    }
}

/// One channel scaled by a fixed-point factor, truncated and clamped.
pub open spec fn spec_channel_scale(c: u8, k: i64) -> u8 {
    clamp_channel(div_trunc(c * k, FX_ONE as int))
}

/// Channel-wise clamping multiplication by a fixed-point factor.
pub open spec fn spec_color_scale(a: Color, k: i64) -> Color {
    Color {
        r: spec_channel_scale(a.r, k),
        g: spec_channel_scale(a.g, k),
        b: spec_channel_scale(a.b, k),
    }
}

/// The packed 24-bit value 0xRRGGBB.
pub open spec fn spec_color_to_hex(c: Color) -> u32 {
    ((c.r as u32) << 16) | ((c.g as u32) << 8) | (c.b as u32)
}

pub open spec fn spec_color_from_hex(hex: u32) -> Color {
    Color { r: ((hex >> 16) & 0xff) as u8, g: ((hex >> 8) & 0xff) as u8, b: (hex & 0xff) as u8 }
}

impl Color {
    pub fn new(r: u8, g: u8, b: u8) -> (c: Color)
        ensures
            c == (Color { r, g, b }),
    {
        Color { r, g, b }
    }

    /// Unpack a 24-bit 0xRRGGBB value; bits above the low 24 are ignored.
    pub fn from_hex(hex: u32) -> (c: Color)
        ensures
            c == spec_color_from_hex(hex),
    {
        let r = ((hex >> 16) & 0xff) as u8;
        let g = ((hex >> 8) & 0xff) as u8;
        let b = (hex & 0xff) as u8;
        Color { r, g, b }
    }

    /// Pack the channels as 0xRRGGBB, high byte zero.
    pub fn to_hex(&self) -> (h: u32)
        ensures
            h == spec_color_to_hex(*self),
    {
        ((self.r as u32) << 16) | ((self.g as u32) << 8) | (self.b as u32)
    }

    /// Channel-wise saturating addition.
    pub fn add(&self, o: &Color) -> (c: Color)
        ensures
            c == spec_color_add(*self, *o),
    {
        let r = self.r.saturating_add(o.r);
        let g = self.g.saturating_add(o.g);
        let b = self.b.saturating_add(o.b);
        Color { r, g, b }
    }

    /// Channel-wise multiplication by an integer factor, clamped to [0, 255].
    pub fn mul(&self, factor: i32) -> (c: Color)
        ensures
            c == spec_color_mul(*self, factor),
    {
        Color {
            r: mul_channel(self.r, factor),
            g: mul_channel(self.g, factor),
            b: mul_channel(self.b, factor),
        }
    }

    /// Channel-wise multiplication by a fixed-point factor, clamped to
    /// [0, 255].
    pub fn scale(&self, k: i64) -> (c: Color)
        ensures
            c == spec_color_scale(*self, k),
    {
        Color {
            r: scale_channel(self.r, k),
            g: scale_channel(self.g, k),
            b: scale_channel(self.b, k),
        }
    }
}

fn mul_channel(c: u8, factor: i32) -> (r: u8)
    ensures
        r == clamp_channel(c * factor),
{
    proof {
        assert(-0x8000_0000 * 256 <= c as int * factor as int <= 0x8000_0000 * 256)
            by (nonlinear_arith)
            requires
                0 <= c <= 255 && -0x8000_0000 <= factor <= 0x7fff_ffff,
        ;
    }
    let p: i64 = (c as i64) * (factor as i64);
    if p > 255 {
        255
    } else if p < 0 {
        0
    } else {
        p as u8
    }
}

fn scale_channel(c: u8, k: i64) -> (r: u8)
    ensures
        r == spec_channel_scale(c, k),
{
    if k <= 0 || c == 0 {
        proof {
            lemma_scale_nonpos(c as int, k as int);
        }
        0
    } else {
        proof {
            assert(c as int * k as int <= 256 * 0x8000_0000_0000_0000) by (nonlinear_arith)
                requires
                    0 <= c <= 255 && 0 <= k <= 0x7fff_ffff_ffff_ffff,
            ;
        }
        let p: u128 = (c as u128) * (k as u128);
        let q: u128 = p / (FX_ONE as u128);
        if q > 255 {
            255
        } else {
            q as u8
        }
    }
}

/// A channel scaled by a non-positive factor clamps to zero.
proof fn lemma_scale_nonpos(c: int, k: int)
    requires
        0 <= c <= 255,
        k <= 0 || c == 0,
    ensures
        clamp_channel(div_trunc(c * k, FX_ONE as int)) == 0,
{
    assert(c * k <= 0) by (nonlinear_arith)
        requires
            0 <= c && (k <= 0 || c == 0),
    ;
}

/// Saturating color addition is commutative: accumulated light does not
/// depend on which of two contributions lands first.
pub proof fn lemma_color_add_commutative(a: Color, b: Color)
    ensures
        spec_color_add(a, b) == spec_color_add(b, a),
{
}

/// Saturating color addition is associative: each channel ends at the
/// smaller of 255 and the plain sum, however the additions group. Together
/// with commutativity, the order a scene's lights are accumulated in never
/// changes the result.
pub proof fn lemma_color_add_associative(a: Color, b: Color, c: Color)
    ensures
        spec_color_add(spec_color_add(a, b), c) == spec_color_add(a, spec_color_add(b, c)),
{
}

/// Packing the channels and unpacking them gives the channels back.
pub proof fn lemma_hex_round_trip(c: Color)
    ensures
        spec_color_from_hex(spec_color_to_hex(c)) == c,
{
    let r = c.r;
    let g = c.g;
    let b = c.b;
    let h = spec_color_to_hex(c);
    assert(((h >> 16) & 0xff) == (r as u32) && ((h >> 8) & 0xff) == (g as u32) && (h & 0xff)
        == (b as u32)) by (bit_vector)
        requires
            h == ((r as u32) << 16) | ((g as u32) << 8) | (b as u32),
    ;
}

/// Unpacking a 24-bit value and packing it again keeps its low 24 bits.
pub proof fn lemma_hex_round_trip_back(hex: u32)
    ensures
        spec_color_to_hex(spec_color_from_hex(hex)) == hex & 0xff_ffff,
{
    let r = spec_color_from_hex(hex).r;
    let g = spec_color_from_hex(hex).g;
    let b = spec_color_from_hex(hex).b;
    assert(((r as u32) << 16) | ((g as u32) << 8) | (b as u32) == hex & 0xff_ffff)
        by (bit_vector)
        requires
            r == ((hex >> 16) & 0xff) as u8 && g == ((hex >> 8) & 0xff) as u8 && b == (hex
                & 0xff) as u8,
    ;
}

} // verus!
