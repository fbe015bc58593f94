//! Axis-aligned boxes: slab intersection, face normals, face UV mapping.

use vstd::prelude::*;
use crate::fixed::{
    fx_abs, fx_clamp01, fx_div, fx_max, fx_min, fx_round_count, fx_sub, spec_fx_abs,
    spec_fx_clamp01, spec_fx_div, spec_fx_max, spec_fx_min, spec_fx_round_count, spec_fx_sub,
    FX_ONE,
};
use crate::material::Material;
use crate::rayintersect::{spec_empty_intersect, Intersect, RayIntersect};
use crate::vec3::{spec_v3_add, spec_v3_scale, Vec3};

verus! {

/// How close (in fixed-point units) a hit point must lie to a face plane
/// for the normal search to pick that face; stands for about 1e-6.
pub const CUBE_FACE_EPS: i64 = 0x1000;

pub struct Cube {
    /// Component-wise lower corner; `min` is expected to lie at or below
    /// `max` in every axis.
    pub min: Vec3,
    pub max: Vec3,
    pub material: Material,
}

/// The entry and exit parameters of the ray against one axis slab. A zero
/// direction component saturates as an infinity would: the slab constrains
/// nothing when the origin lies between the planes and excludes everything
/// otherwise.
pub open spec fn spec_slab(minc: i64, maxc: i64, o: i64, d: i64) -> (i64, i64) {
    (spec_fx_div(spec_fx_sub(minc, o), d), spec_fx_div(spec_fx_sub(maxc, o), d))
}

/// The greatest slab entry over the three axes.
pub open spec fn spec_cube_tmin(c: Cube, origin: Vec3, direction: Vec3) -> i64 {
    let (t1, t2) = spec_slab(c.min.x, c.max.x, origin.x, direction.x);
    let (t3, t4) = spec_slab(c.min.y, c.max.y, origin.y, direction.y);
    let (t5, t6) = spec_slab(c.min.z, c.max.z, origin.z, direction.z);
    spec_fx_max(spec_fx_max(spec_fx_min(t1, t2), spec_fx_min(t3, t4)), spec_fx_min(t5, t6))
}

/// The least slab exit over the three axes.
pub open spec fn spec_cube_tmax(c: Cube, origin: Vec3, direction: Vec3) -> i64 {
    let (t1, t2) = spec_slab(c.min.x, c.max.x, origin.x, direction.x);
    let (t3, t4) = spec_slab(c.min.y, c.max.y, origin.y, direction.y);
    let (t5, t6) = spec_slab(c.min.z, c.max.z, origin.z, direction.z);
    spec_fx_min(spec_fx_min(spec_fx_max(t1, t2), spec_fx_max(t3, t4)), spec_fx_max(t5, t6))
}

/// The outward face normal at a hit point: the first face plane, in the
/// fixed order -X, +X, -Y, +Y, -Z, +Z, that the point lies on within
/// `CUBE_FACE_EPS`; straight up when no face matches.
pub open spec fn spec_cube_normal(c: Cube, p: Vec3) -> Vec3 {
    if spec_fx_abs(spec_fx_sub(p.x, c.min.x)) < CUBE_FACE_EPS {
        Vec3 { x: (-FX_ONE) as i64, y: 0, z: 0 }
    } else if spec_fx_abs(spec_fx_sub(p.x, c.max.x)) < CUBE_FACE_EPS {
        Vec3 { x: FX_ONE, y: 0, z: 0 }
    } else if spec_fx_abs(spec_fx_sub(p.y, c.min.y)) < CUBE_FACE_EPS {
        Vec3 { x: 0, y: (-FX_ONE) as i64, z: 0 }
    } else if spec_fx_abs(spec_fx_sub(p.y, c.max.y)) < CUBE_FACE_EPS {
        Vec3 { x: 0, y: FX_ONE, z: 0 }
    } else if spec_fx_abs(spec_fx_sub(p.z, c.min.z)) < CUBE_FACE_EPS {
        Vec3 { x: 0, y: 0, z: (-FX_ONE) as i64 }
    } else if spec_fx_abs(spec_fx_sub(p.z, c.max.z)) < CUBE_FACE_EPS {
        Vec3 { x: 0, y: 0, z: FX_ONE }
    } else {
        Vec3 { x: 0, y: FX_ONE, z: 0 }
    }
}

/// The UV coordinates of a hit point: the point normalized into box-local
/// [0, 1] coordinates per axis, two of which are selected (and possibly
/// flipped) by the face the rounded normal names; both clamped to [0, 1].
pub open spec fn spec_cube_uv(c: Cube, hit: Vec3, normal: Vec3) -> (i64, i64) {
    let lx = spec_fx_div(spec_fx_sub(hit.x, c.min.x), spec_fx_sub(c.max.x, c.min.x));
    let ly = spec_fx_div(spec_fx_sub(hit.y, c.min.y), spec_fx_sub(c.max.y, c.min.y));
    let lz = spec_fx_div(spec_fx_sub(hit.z, c.min.z), spec_fx_sub(c.max.z, c.min.z));
    let nx = spec_fx_round_count(normal.x);
    let ny = spec_fx_round_count(normal.y);
    let nz = spec_fx_round_count(normal.z);
    let uv = if nx == 1 && ny == 0 && nz == 0 {
        (lz, ly)
    } else if nx == -1 && ny == 0 && nz == 0 {
        (spec_fx_sub(FX_ONE, lz), ly)
    } else if nx == 0 && ny == 1 && nz == 0 {
        (lx, lz)
    } else if nx == 0 && ny == -1 && nz == 0 {
        (lx, spec_fx_sub(FX_ONE, lz))
    } else if nx == 0 && ny == 0 && nz == 1 {
        (spec_fx_sub(FX_ONE, lx), ly)
    } else if nx == 0 && ny == 0 && nz == -1 {
        (lx, ly)
    } else {
        (0, 0)
    };
    (spec_fx_clamp01(uv.0), spec_fx_clamp01(uv.1))
}

/// The slab test: a miss when the exit lies behind the origin or the entry
/// lies past the exit; otherwise the hit sits at the entry, or at the exit
/// when the origin is inside the box.
pub open spec fn spec_cube_intersect(c: Cube, origin: Vec3, direction: Vec3) -> Intersect {
    let t_min = spec_cube_tmin(c, origin, direction);
    let t_max = spec_cube_tmax(c, origin, direction);
    if t_max < 0 || t_min > t_max {
        spec_empty_intersect()
    } else {
        let distance = if t_min >= 0 {
            t_min
        } else {
            t_max
        };
        let hit = spec_v3_add(origin, spec_v3_scale(direction, distance));
        let normal = spec_cube_normal(c, hit);
        let uv = spec_cube_uv(c, hit, normal);
        Intersect {
            point: hit,
            normal,
            distance,
            is_intersecting: true,
            u: uv.0,
            v: uv.1,
        }
    }
}

/// Whenever a cube reports a hit, its slab entry does not exceed its slab
/// exit, and the hit distance is non-negative.
pub proof fn lemma_cube_hit_interval(c: Cube, origin: Vec3, direction: Vec3)
    ensures
        spec_cube_intersect(c, origin, direction).is_intersecting ==> spec_cube_tmin(
            c,
            origin,
            direction,
        ) <= spec_cube_tmax(c, origin, direction),
        spec_cube_intersect(c, origin, direction).is_intersecting ==> spec_cube_intersect(
            c,
            origin,
            direction,
        ).distance >= 0,
{
}

impl Cube {
    /// The box-local UV coordinates of a hit point on the face that the
    /// given normal names.
    pub fn get_uv(&self, hit_point: Vec3, normal: Vec3) -> (uv: (i64, i64))
        ensures
            uv == spec_cube_uv(*self, hit_point, normal),
    {
        let width = fx_sub(self.max.x, self.min.x);
        let height = fx_sub(self.max.y, self.min.y);
        let depth = fx_sub(self.max.z, self.min.z);

        let local_x = fx_div(fx_sub(hit_point.x, self.min.x), width);
        let local_y = fx_div(fx_sub(hit_point.y, self.min.y), height);
        let local_z = fx_div(fx_sub(hit_point.z, self.min.z), depth);

        let nx = fx_round_count(normal.x);
        let ny = fx_round_count(normal.y);
        let nz = fx_round_count(normal.z);

        let (u, v): (i64, i64) = if nx == 1 && ny == 0 && nz == 0 {
            (local_z, local_y)
        } else if nx == -1 && ny == 0 && nz == 0 {
            (fx_sub(FX_ONE, local_z), local_y)
        } else if nx == 0 && ny == 1 && nz == 0 {
            (local_x, local_z)
        } else if nx == 0 && ny == -1 && nz == 0 {
            (local_x, fx_sub(FX_ONE, local_z))
        } else if nx == 0 && ny == 0 && nz == 1 {
            (fx_sub(FX_ONE, local_x), local_y)
        } else if nx == 0 && ny == 0 && nz == -1 {
            (local_x, local_y)
        } else {
            (0, 0)
        };

        (fx_clamp01(u), fx_clamp01(v))
    }

    /// The outward normal of the face the hit point lies on, searched in
    /// the fixed order -X, +X, -Y, +Y, -Z, +Z.
    fn compute_normal(&self, hit_point: Vec3) -> (n: Vec3)
        ensures
            n == spec_cube_normal(*self, hit_point),
    {
        if fx_abs(fx_sub(hit_point.x, self.min.x)) < CUBE_FACE_EPS {
            Vec3::new(-FX_ONE, 0, 0)
        } else if fx_abs(fx_sub(hit_point.x, self.max.x)) < CUBE_FACE_EPS {
            Vec3::new(FX_ONE, 0, 0)
        } else if fx_abs(fx_sub(hit_point.y, self.min.y)) < CUBE_FACE_EPS {
            Vec3::new(0, -FX_ONE, 0)
        } else if fx_abs(fx_sub(hit_point.y, self.max.y)) < CUBE_FACE_EPS {
            Vec3::new(0, FX_ONE, 0)
        } else if fx_abs(fx_sub(hit_point.z, self.min.z)) < CUBE_FACE_EPS {
            Vec3::new(0, 0, -FX_ONE)
        } else if fx_abs(fx_sub(hit_point.z, self.max.z)) < CUBE_FACE_EPS {
            Vec3::new(0, 0, FX_ONE)
        } else {
            Vec3::new(0, FX_ONE, 0)
        }
    }
}

impl RayIntersect for Cube {
    open spec fn spec_ray_intersect(&self, origin: Vec3, direction: Vec3) -> Intersect {
        spec_cube_intersect(*self, origin, direction)
    }

    fn ray_intersect(&self, ray_origin: &Vec3, ray_direction: &Vec3) -> (r: Intersect) {
        let t1 = fx_div(fx_sub(self.min.x, ray_origin.x), ray_direction.x);
        let t2 = fx_div(fx_sub(self.max.x, ray_origin.x), ray_direction.x);
        let t3 = fx_div(fx_sub(self.min.y, ray_origin.y), ray_direction.y);
        let t4 = fx_div(fx_sub(self.max.y, ray_origin.y), ray_direction.y);
        let t5 = fx_div(fx_sub(self.min.z, ray_origin.z), ray_direction.z);
        let t6 = fx_div(fx_sub(self.max.z, ray_origin.z), ray_direction.z);

        let t_min = fx_max(fx_max(fx_min(t1, t2), fx_min(t3, t4)), fx_min(t5, t6));
        let t_max = fx_min(fx_min(fx_max(t1, t2), fx_max(t3, t4)), fx_max(t5, t6));

        if t_max < 0 || t_min > t_max {
            return Intersect::empty();
        }

        let distance = if t_min >= 0 {
            t_min
        } else {
            t_max
        };

        let hit_point = ray_origin.add(&ray_direction.scale(distance));
        let normal = self.compute_normal(hit_point);
        let (u, v) = self.get_uv(hit_point, normal);
        Intersect::new(hit_point, normal, distance, u, v)
    }
}

} // verus!
