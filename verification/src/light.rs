//! Point lights.

use vstd::prelude::*;
use crate::color::Color;
use crate::vec3::Vec3;

verus! {

/// A point light: lighting is additive over a scene's lights, so their
/// order never matters to the result.
#[derive(Clone, Copy, PartialEq, Eq, Structural, Debug)]
pub struct Light {
    pub position: Vec3,
    pub color: Color,
    /// Non-negative fixed-point brightness factor.
    pub intensity: i64,
}

impl Light {
    pub fn new(position: Vec3, color: Color, intensity: i64) -> (l: Light)
        ensures
            l == (Light { position, color, intensity }),
    {
        Light { position, color, intensity }
    }
}

} // verus!
