//! Hit records and the ray-intersection capability.

use vstd::prelude::*;
use crate::vec3::Vec3;

verus! {

/// The result of testing one ray against one primitive. The empty record
/// (`is_intersecting == false`, distance 0) reports a miss; it must never
/// win a nearest-hit search while any real hit is available.
#[derive(Clone, Copy, PartialEq, Eq, Structural, Debug)]
pub struct Intersect {
    pub point: Vec3,
    pub normal: Vec3,
    pub distance: i64,
    pub is_intersecting: bool,
    pub u: i64,
    pub v: i64,
}

/// The sentinel record for a miss.
pub open spec fn spec_empty_intersect() -> Intersect {
    Intersect {
        point: Vec3 { x: 0, y: 0, z: 0 },
        normal: Vec3 { x: 0, y: 0, z: 0 },
        distance: 0,
        is_intersecting: false,
        u: 0,
        v: 0,
    }
}

impl Intersect {
    pub fn new(point: Vec3, normal: Vec3, distance: i64, u: i64, v: i64) -> (r: Intersect)
        ensures
            r == (Intersect { point, normal, distance, is_intersecting: true, u, v }),
    {
        Intersect { point, normal, distance, is_intersecting: true, u, v }
    }

    pub fn empty() -> (r: Intersect)
        ensures
            r == spec_empty_intersect(),
    {
        Intersect {
            point: Vec3::zeros(),
            normal: Vec3::zeros(),
            distance: 0,
            is_intersecting: false,
            u: 0,
            v: 0,
        }
    }
}

/// The capability of being hit by a ray. The caller passes a normalized
/// direction; no implementation normalizes it.
pub trait RayIntersect {
    /// The exact hit record this primitive produces for the given ray.
    spec fn spec_ray_intersect(&self, origin: Vec3, direction: Vec3) -> Intersect;

    fn ray_intersect(&self, ray_origin: &Vec3, ray_direction: &Vec3) -> (r: Intersect)
        ensures
            r == self.spec_ray_intersect(*ray_origin, *ray_direction),
    ;
}

} // verus!
