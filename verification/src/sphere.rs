//! Spheres and their ray intersection.

use vstd::prelude::*;
use crate::fixed::{
    fx_add, fx_mul, fx_neg, fx_sqrt, fx_sub, fx_div, lemma_fx_div_exact, lemma_fx_mul_exact,
    lemma_fx_sqrt_exact, spec_fx_add, spec_fx_div, spec_fx_mul, spec_fx_neg, spec_fx_sqrt,
    spec_fx_sub, FX_FOUR, FX_ONE, FX_TWO,
};
use crate::material::Material;
use crate::rayintersect::{spec_empty_intersect, Intersect, RayIntersect};
use crate::vec3::{
    spec_v3_add, spec_v3_dot, spec_v3_length, spec_v3_normalize, spec_v3_scale, spec_v3_sub, Vec3,
};

verus! {

pub struct Sphere {
    pub center: Vec3,
    /// Expected non-negative; the intersection test squares it either way.
    pub radius: i64,
    pub material: Material,
}

/// The quadratic `|O + tD - C|^2 = r^2` solved over the fixed-point model:
/// a negative discriminant or both roots behind the origin is a miss, else
/// the hit lies at the smaller non-negative root.
pub open spec fn spec_sphere_intersect(s: Sphere, origin: Vec3, direction: Vec3) -> Intersect {
    let oc = spec_v3_sub(origin, s.center);
    let a = spec_v3_dot(direction, direction);
    let b = spec_fx_mul(FX_TWO, spec_v3_dot(oc, direction));
    let c = spec_fx_sub(spec_v3_dot(oc, oc), spec_fx_mul(s.radius, s.radius));
    let discriminant = spec_fx_sub(spec_fx_mul(b, b), spec_fx_mul(spec_fx_mul(FX_FOUR, a), c));
    if discriminant < 0 {
        spec_empty_intersect()
    } else {
        let sq = spec_fx_sqrt(discriminant);
        let t1 = spec_fx_div(spec_fx_sub(spec_fx_neg(b), sq), spec_fx_mul(FX_TWO, a));
        let t2 = spec_fx_div(spec_fx_add(spec_fx_neg(b), sq), spec_fx_mul(FX_TWO, a));
        if t1 >= 0 || t2 >= 0 {
            let t = if t1 >= 0 {
                t1
            } else {
                t2
            };
            let point = spec_v3_add(origin, spec_v3_scale(direction, t));
            let normal = spec_v3_normalize(spec_v3_sub(point, s.center));
            Intersect { point, normal, distance: t, is_intersecting: true, u: 0, v: 0 }
        } else {
            spec_empty_intersect()
        }
    }
}

/// A reported sphere hit always lies at a non-negative distance.
pub proof fn lemma_sphere_hit_nonneg(s: Sphere, origin: Vec3, direction: Vec3)
    ensures
        spec_sphere_intersect(s, origin, direction).is_intersecting
            ==> spec_sphere_intersect(s, origin, direction).distance >= 0,
{
}

/// Zero times anything is zero in the fixed-point model.
proof fn lemma_fx_mul_zero(b: i64)
    ensures
        spec_fx_mul(0, b) == 0,
        spec_fx_mul(b, 0) == 0,
{
    lemma_fx_mul_exact(0, b, 0);
    lemma_fx_mul_exact(b, 0, 0);
}

/// A ray cast straight along -Z from outside a sphere whose center lies
/// `d` ahead on that line hits at distance exactly `d - r`, with the
/// normal pointing straight back along the ray. The distance and radius
/// are given in units of 2^-16 (`d == d0 / 2^16` world units), so every
/// intermediate fixed-point product of the quadratic is exact.
pub proof fn lemma_sphere_head_on_hit(o: Vec3, d0: i64, r0: i64, mat: Material)
    requires
        0 < r0 < d0,
        d0 <= 0x100_0000,
        -0x100_0000_0000 <= o.x <= 0x100_0000_0000,
        -0x100_0000_0000 <= o.y <= 0x100_0000_0000,
        -0x100_0000_0000 <= o.z <= 0x100_0000_0000,
    ensures
        ({
            let d: i64 = (d0 * 0x10000) as i64;
            let r: i64 = (r0 * 0x10000) as i64;
            let s = Sphere {
                center: Vec3 { x: o.x, y: o.y, z: (o.z - d) as i64 },
                radius: r,
                material: mat,
            };
            let direction = Vec3 { x: 0, y: 0, z: (-FX_ONE) as i64 };
            let hit = spec_sphere_intersect(s, o, direction);
            &&& hit.is_intersecting
            &&& hit.distance == d - r
            &&& hit.normal == (Vec3 { x: 0, y: 0, z: FX_ONE })
        }),
{
    let ss = FX_ONE as int;
    let d: i64 = (d0 * 0x10000) as i64;
    let r: i64 = (r0 * 0x10000) as i64;
    let s = Sphere {
        center: Vec3 { x: o.x, y: o.y, z: (o.z - d) as i64 },
        radius: r,
        material: mat,
    };
    let direction = Vec3 { x: 0, y: 0, z: (-FX_ONE) as i64 };
    let neg_one: i64 = (-FX_ONE) as i64;

    // Every nonlinear product fact the chain below needs, at once.
    assert((d as int) * (d as int) == (d0 * d0) * ss && (r as int) * (r as int) == (r0 * r0) * ss
        && (-(2 * (d as int))) * (-(2 * (d as int))) == (4 * (d0 * d0)) * ss && (2 * (r as int))
        * (2 * (r as int)) == (4 * (r0 * r0)) * ss && 0 < r0 * r0 && r0 * r0 < d0 * d0 && d0 * d0
        <= 0x1_0000_0000_0000 && (neg_one as int) * (neg_one as int) == ss * ss)
        by (nonlinear_arith)
        requires
            d == d0 * 0x10000 && r == r0 * 0x10000 && 0 < r0 < d0 && d0 <= 0x100_0000 && ss
                == 0x1_0000_0000 && neg_one == -0x1_0000_0000,
    ;

    // The offset from center to origin is (0, 0, d).
    let oc = spec_v3_sub(o, s.center);
    assert(oc == (Vec3 { x: 0, y: 0, z: d }));

    // a = direction . direction = 1.
    lemma_fx_mul_zero(0);
    lemma_fx_mul_exact(neg_one, neg_one, ss);
    let a = spec_v3_dot(direction, direction);
    assert(a == FX_ONE);

    // oc . direction = -d, so b = -2 d.
    lemma_fx_mul_exact(d, neg_one, -(d as int));
    let dz = spec_v3_dot(oc, direction);
    assert(dz == -d);
    lemma_fx_mul_exact(FX_TWO, (-(d as int)) as i64, -2 * (d as int));
    let b = spec_fx_mul(FX_TWO, dz);
    assert(b == -2 * (d as int));

    // oc . oc = d0^2 and r^2 = r0^2, in scaled units.
    lemma_fx_mul_exact(d, d, d0 * d0);
    lemma_fx_mul_exact(r, r, r0 * r0);
    let oc2 = spec_v3_dot(oc, oc);
    assert(oc2 == d0 * d0);
    let cterm = spec_fx_sub(oc2, spec_fx_mul(s.radius, s.radius));
    assert(cterm == d0 * d0 - r0 * r0);

    // discriminant = b^2 - 4 a c = 4 r0^2, in scaled units.
    lemma_fx_mul_exact(b, b, 4 * (d0 * d0));
    lemma_fx_mul_exact(FX_FOUR, FX_ONE, 4 * ss);
    lemma_fx_mul_exact((4 * ss) as i64, cterm, 4 * (d0 * d0 - r0 * r0));
    let discriminant = spec_fx_sub(
        spec_fx_mul(b, b),
        spec_fx_mul(spec_fx_mul(FX_FOUR, a), cterm),
    );
    assert(discriminant == 4 * (r0 * r0)) by {
        assert(4 * (d0 * d0) - 4 * (d0 * d0 - r0 * r0) == 4 * (r0 * r0));
    }
    assert(0 < 4 * (r0 * r0) <= 0x4_0000_0000_0000) by (nonlinear_arith)
        requires
            0 < r0 <= 0x100_0000,
    ;

    // sqrt(discriminant) = 2 r.
    assert(discriminant as int * ss == (2 * (r as int)) * (2 * (r as int))) by (nonlinear_arith)
        requires
            discriminant == 4 * (r0 * r0) && r == r0 * 0x10000 && ss == 0x1_0000_0000,
    ;
    lemma_fx_sqrt_exact(discriminant, 2 * (r as int));
    let sq = spec_fx_sqrt(discriminant);
    assert(sq == 2 * (r as int));

    // t1 = (2 d - 2 r) / (2) = d - r.
    lemma_fx_mul_exact(FX_TWO, FX_ONE, 2 * ss);
    let two_a = spec_fx_mul(FX_TWO, a);
    assert(two_a == 2 * ss);
    let numer = spec_fx_sub(spec_fx_neg(b), sq);
    assert(numer == 2 * (d as int) - 2 * (r as int));
    lemma_fx_div_exact(numer, two_a, d as int - r as int);
    let t1 = spec_fx_div(numer, two_a);
    assert(t1 == d - r);
    assert(t1 >= 0);

    // The hit point is r short of the center; the normal points back.
    lemma_fx_mul_exact(neg_one, t1, -(t1 as int));
    lemma_fx_mul_zero(t1);
    let step = spec_v3_scale(direction, t1);
    assert(step == (Vec3 { x: 0, y: 0, z: (-(t1 as int)) as i64 }));
    let point = spec_v3_add(o, step);
    assert(point == (Vec3 { x: o.x, y: o.y, z: (o.z - d + r) as i64 }));
    let pc = spec_v3_sub(point, s.center);
    assert(pc == (Vec3 { x: 0, y: 0, z: r }));
    lemma_fx_mul_zero(r);
    assert(spec_v3_dot(pc, pc) == r0 * r0);
    assert((r0 * r0) as i64 as int * ss == r as int * r as int) by (nonlinear_arith)
        requires
            r == r0 * 0x10000 && 0 < r0 <= 0x100_0000 && ss == 0x1_0000_0000,
    ;
    lemma_fx_sqrt_exact((r0 * r0) as i64, r as int);
    assert(spec_v3_length(pc) == r);
    lemma_fx_div_exact(0, r, 0);
    lemma_fx_div_exact(r, r, ss);
    assert(spec_v3_normalize(pc) == (Vec3 { x: 0, y: 0, z: FX_ONE }));
}

/// A ray cast straight along -Z past a sphere whose center sits `d` ahead
/// but `p > r` off to the side misses: the discriminant of the quadratic
/// is negative, so no hit is reported. Distances are in units of 2^-16,
/// as in `lemma_sphere_head_on_hit`.
pub proof fn lemma_sphere_offset_miss(o: Vec3, d0: i64, p0: i64, r0: i64, mat: Material)
    requires
        0 < r0 < p0,
        p0 <= 0x100_0000,
        0 < d0 <= 0x100_0000,
        -0x100_0000_0000 <= o.x <= 0x100_0000_0000,
        -0x100_0000_0000 <= o.y <= 0x100_0000_0000,
        -0x100_0000_0000 <= o.z <= 0x100_0000_0000,
    ensures
        ({
            let d: i64 = (d0 * 0x10000) as i64;
            let p: i64 = (p0 * 0x10000) as i64;
            let r: i64 = (r0 * 0x10000) as i64;
            let s = Sphere {
                center: Vec3 { x: (o.x + p) as i64, y: o.y, z: (o.z - d) as i64 },
                radius: r,
                material: mat,
            };
            let direction = Vec3 { x: 0, y: 0, z: (-FX_ONE) as i64 };
            !spec_sphere_intersect(s, o, direction).is_intersecting
        }),
{
    let ss = FX_ONE as int;
    let d: i64 = (d0 * 0x10000) as i64;
    let p: i64 = (p0 * 0x10000) as i64;
    let r: i64 = (r0 * 0x10000) as i64;
    let s = Sphere {
        center: Vec3 { x: (o.x + p) as i64, y: o.y, z: (o.z - d) as i64 },
        radius: r,
        material: mat,
    };
    let direction = Vec3 { x: 0, y: 0, z: (-FX_ONE) as i64 };
    let neg_one: i64 = (-FX_ONE) as i64;
    let np: i64 = (-(p as int)) as i64;

    assert((d as int) * (d as int) == (d0 * d0) * ss && (r as int) * (r as int) == (r0 * r0) * ss
        && (np as int) * (np as int) == (p0 * p0) * ss && (-(2 * (d as int))) * (-(2 * (d as int)))
        == (4 * (d0 * d0)) * ss && 0 < r0 * r0 && r0 * r0 < p0 * p0 && p0 * p0
        <= 0x1_0000_0000_0000 && d0 * d0 <= 0x1_0000_0000_0000 && (neg_one as int) * (
    neg_one as int) == ss * ss) by (nonlinear_arith)
        requires
            d == d0 * 0x10000 && r == r0 * 0x10000 && p == p0 * 0x10000 && np == -(p as int) && 0
                < r0 < p0 && p0 <= 0x100_0000 && 0 < d0 <= 0x100_0000 && ss == 0x1_0000_0000
                && neg_one == -0x1_0000_0000,
    ;

    // The offset from center to origin is (-p, 0, d).
    let oc = spec_v3_sub(o, s.center);
    assert(oc == (Vec3 { x: np, y: 0, z: d }));

    lemma_fx_mul_zero(0);
    lemma_fx_mul_zero(np);
    lemma_fx_mul_exact(neg_one, neg_one, ss);
    let a = spec_v3_dot(direction, direction);
    assert(a == FX_ONE);

    lemma_fx_mul_exact(d, neg_one, -(d as int));
    let dz = spec_v3_dot(oc, direction);
    assert(dz == -d);
    lemma_fx_mul_exact(FX_TWO, (-(d as int)) as i64, -2 * (d as int));
    let b = spec_fx_mul(FX_TWO, dz);
    assert(b == -2 * (d as int));

    // oc . oc = p0^2 + d0^2 in scaled units.
    lemma_fx_mul_exact(np, np, p0 * p0);
    lemma_fx_mul_exact(d, d, d0 * d0);
    lemma_fx_mul_exact(r, r, r0 * r0);
    let oc2 = spec_v3_dot(oc, oc);
    assert(oc2 == p0 * p0 + d0 * d0);
    let cterm = spec_fx_sub(oc2, spec_fx_mul(s.radius, s.radius));
    assert(cterm == p0 * p0 + d0 * d0 - r0 * r0);

    // discriminant = 4 (r0^2 - p0^2) < 0: a miss.
    lemma_fx_mul_exact(b, b, 4 * (d0 * d0));
    lemma_fx_mul_exact(FX_FOUR, FX_ONE, 4 * ss);
    lemma_fx_mul_exact((4 * ss) as i64, cterm, 4 * (p0 * p0 + d0 * d0 - r0 * r0));
    let discriminant = spec_fx_sub(
        spec_fx_mul(b, b),
        spec_fx_mul(spec_fx_mul(FX_FOUR, a), cterm),
    );
    assert(discriminant < 0);
}

impl RayIntersect for Sphere {
    open spec fn spec_ray_intersect(&self, origin: Vec3, direction: Vec3) -> Intersect {
        spec_sphere_intersect(*self, origin, direction)
    }

    fn ray_intersect(&self, ray_origin: &Vec3, ray_direction: &Vec3) -> (r: Intersect) {
        let oc = ray_origin.sub(&self.center);
        let a = ray_direction.dot(ray_direction);
        let b = fx_mul(FX_TWO, oc.dot(ray_direction));
        let c = fx_sub(oc.dot(&oc), fx_mul(self.radius, self.radius));

        let discriminant = fx_sub(fx_mul(b, b), fx_mul(fx_mul(FX_FOUR, a), c));

        if discriminant < 0 {
            return Intersect::empty();
        }

        let sq = fx_sqrt(discriminant);
        let t1 = fx_div(fx_sub(fx_neg(b), sq), fx_mul(FX_TWO, a));
        let t2 = fx_div(fx_add(fx_neg(b), sq), fx_mul(FX_TWO, a));

        let t = if t1 >= 0 {
            t1
        } else if t2 >= 0 {
            t2
        } else {
            return Intersect::empty();
        };

        let intersection_point = ray_origin.add(&ray_direction.scale(t));
        let normal = intersection_point.sub(&self.center).normalize();

        Intersect::new(intersection_point, normal, t, 0, 0)
    }
}

} // verus!
