//! Three-component fixed-point vectors.

use vstd::prelude::*;
use crate::fixed::{
    fx_add, fx_sub, fx_neg, fx_mul, fx_div, fx_sqrt, spec_fx_add, spec_fx_sub, spec_fx_neg,
    spec_fx_mul, spec_fx_div, spec_fx_sqrt,
};

verus! {

/// A point or direction in space, with Q31.32 fixed-point components.
#[derive(Clone, Copy, PartialEq, Eq, Structural, Debug)]
pub struct Vec3 {
    pub x: i64,
    pub y: i64,
    pub z: i64,
}

pub open spec fn spec_v3_add(a: Vec3, b: Vec3) -> Vec3 {
    Vec3 { x: spec_fx_add(a.x, b.x), y: spec_fx_add(a.y, b.y), z: spec_fx_add(a.z, b.z) }
}

pub open spec fn spec_v3_sub(a: Vec3, b: Vec3) -> Vec3 {
    Vec3 { x: spec_fx_sub(a.x, b.x), y: spec_fx_sub(a.y, b.y), z: spec_fx_sub(a.z, b.z) }
}

pub open spec fn spec_v3_neg(a: Vec3) -> Vec3 {
    Vec3 { x: spec_fx_neg(a.x), y: spec_fx_neg(a.y), z: spec_fx_neg(a.z) }
}

pub open spec fn spec_v3_scale(a: Vec3, k: i64) -> Vec3 {
    Vec3 { x: spec_fx_mul(a.x, k), y: spec_fx_mul(a.y, k), z: spec_fx_mul(a.z, k) }
}

/// Dot product, each partial product and sum saturating.
pub open spec fn spec_v3_dot(a: Vec3, b: Vec3) -> i64 {
    spec_fx_add(spec_fx_add(spec_fx_mul(a.x, b.x), spec_fx_mul(a.y, b.y)), spec_fx_mul(a.z, b.z))
}

pub open spec fn spec_v3_cross(a: Vec3, b: Vec3) -> Vec3 {
    Vec3 {
        x: spec_fx_sub(spec_fx_mul(a.y, b.z), spec_fx_mul(a.z, b.y)),
        y: spec_fx_sub(spec_fx_mul(a.z, b.x), spec_fx_mul(a.x, b.z)),
        z: spec_fx_sub(spec_fx_mul(a.x, b.y), spec_fx_mul(a.y, b.x)),
    }
}

/// Euclidean length, computed as the square root of the saturating dot
/// product of the vector with itself.
pub open spec fn spec_v3_length(a: Vec3) -> i64 {
    spec_fx_sqrt(spec_v3_dot(a, a))
}

/// The unit vector with the direction of `a`; the zero vector (and any
/// vector whose length rounds down to zero) maps to the zero vector.
pub open spec fn spec_v3_normalize(a: Vec3) -> Vec3 {
    let len = spec_v3_length(a);
    if len == 0 {
        Vec3 { x: 0, y: 0, z: 0 }
    } else {
        Vec3 {
            x: spec_fx_div(a.x, len),
            y: spec_fx_div(a.y, len),
            z: spec_fx_div(a.z, len),
        }
    }
}

impl Vec3 {
    pub fn new(x: i64, y: i64, z: i64) -> (r: Vec3)
        ensures
            r == (Vec3 { x, y, z }),
    {
        Vec3 { x, y, z }
    }

    pub fn zeros() -> (r: Vec3)
        ensures
            r == (Vec3 { x: 0, y: 0, z: 0 }),
    {
        Vec3 { x: 0, y: 0, z: 0 }
    }

    pub fn add(&self, o: &Vec3) -> (r: Vec3)
        ensures
            r == spec_v3_add(*self, *o),
    {
        Vec3 { x: fx_add(self.x, o.x), y: fx_add(self.y, o.y), z: fx_add(self.z, o.z) }
    }

    pub fn sub(&self, o: &Vec3) -> (r: Vec3)
        ensures
            r == spec_v3_sub(*self, *o),
    {
        Vec3 { x: fx_sub(self.x, o.x), y: fx_sub(self.y, o.y), z: fx_sub(self.z, o.z) }
    }

    pub fn neg(&self) -> (r: Vec3)
        ensures
            r == spec_v3_neg(*self),
    {
        Vec3 { x: fx_neg(self.x), y: fx_neg(self.y), z: fx_neg(self.z) }
    }

    pub fn scale(&self, k: i64) -> (r: Vec3)
        ensures
            r == spec_v3_scale(*self, k),
    {
        Vec3 { x: fx_mul(self.x, k), y: fx_mul(self.y, k), z: fx_mul(self.z, k) }
    }

    pub fn dot(&self, o: &Vec3) -> (r: i64)
        ensures
            r == spec_v3_dot(*self, *o),
    {
        fx_add(fx_add(fx_mul(self.x, o.x), fx_mul(self.y, o.y)), fx_mul(self.z, o.z))
    }

    pub fn cross(&self, o: &Vec3) -> (r: Vec3)
        ensures
            r == spec_v3_cross(*self, *o),
    {
        Vec3 {
            x: fx_sub(fx_mul(self.y, o.z), fx_mul(self.z, o.y)),
            y: fx_sub(fx_mul(self.z, o.x), fx_mul(self.x, o.z)),
            z: fx_sub(fx_mul(self.x, o.y), fx_mul(self.y, o.x)),
        }
    }

    pub fn length(&self) -> (r: i64)
        ensures
            r == spec_v3_length(*self),
    {
        fx_sqrt(self.dot(self))
    }

    pub fn normalize(&self) -> (r: Vec3)
        ensures
            r == spec_v3_normalize(*self),
    {
        let len = self.length();
        if len == 0 {
            Vec3 { x: 0, y: 0, z: 0 }
        } else {
            Vec3 {
                x: fx_div(self.x, len),
                y: fx_div(self.y, len),
                z: fx_div(self.z, len),
            }
        }
    }
}

} // verus!
