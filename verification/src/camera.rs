//! The orbiting camera: eye position, look-at basis, orbit and zoom.
//!
//! Angles enter as precomputed (cosine, sine) pairs in fixed point, since
//! trigonometric evaluation is the caller's concern; every basis update is
//! specified exactly over the fixed-point model.

use vstd::prelude::*;
use crate::fixed::{
    fx_add, fx_mul, fx_sub, spec_fx_add, spec_fx_mul, spec_fx_sub, FX_ONE,
};
use crate::vec3::{
    spec_v3_add, spec_v3_cross, spec_v3_dot, spec_v3_normalize, spec_v3_scale, spec_v3_sub, Vec3,
};

verus! {

/// A rotation angle, given by its cosine and sine in fixed point.
#[derive(Clone, Copy, PartialEq, Eq, Structural, Debug)]
pub struct Rot2 {
    pub cos: i64,
    pub sin: i64,
}

/// A camera orbiting a look-at target.
pub struct Camera {
    pub eye: Vec3,
    /// The point the camera looks at and orbits around.
    pub center: Vec3,
    /// The world up direction the basis is rebuilt against.
    pub world_up: Vec3,
    pub forward: Vec3,
    pub right: Vec3,
    pub up: Vec3,
    /// Set by every orbit or zoom; cleared when a render consumes a frame.
    pub has_changed: bool,
}

/// The orthonormal look-at basis: forward toward the target, right the
/// normalized cross of forward and world up, up completing the frame.
pub open spec fn spec_basis(eye: Vec3, center: Vec3, world_up: Vec3) -> (Vec3, Vec3, Vec3) {
    let forward = spec_v3_normalize(spec_v3_sub(center, eye));
    let right = spec_v3_normalize(spec_v3_cross(forward, world_up));
    let up = spec_v3_cross(right, forward);
    (forward, right, up)
}

/// A camera-space direction expressed in world space: screen x along
/// right, screen y along up, and the camera looking down its negative z.
pub open spec fn spec_basis_change(c: Camera, v: Vec3) -> Vec3 {
    spec_v3_sub(
        spec_v3_add(spec_v3_scale(c.right, v.x), spec_v3_scale(c.up, v.y)),
        spec_v3_scale(c.forward, v.z),
    )
}

/// Rotation of a vector about the world Y axis by the angle (c, s).
pub open spec fn spec_rot_y(r: Rot2, v: Vec3) -> Vec3 {
    Vec3 {
        x: spec_fx_add(spec_fx_mul(v.x, r.cos), spec_fx_mul(v.z, r.sin)),
        y: v.y,
        z: spec_fx_sub(spec_fx_mul(v.z, r.cos), spec_fx_mul(v.x, r.sin)),
    }
}

/// Rotation of `v` about the unit axis `k` by the angle (c, s), by the
/// Rodrigues formula `v c + (k x v) s + k (k . v)(1 - c)`.
pub open spec fn spec_rot_axis(r: Rot2, k: Vec3, v: Vec3) -> Vec3 {
    spec_v3_add(
        spec_v3_add(
            spec_v3_scale(v, r.cos),
            spec_v3_scale(spec_v3_cross(k, v), r.sin),
        ),
        spec_v3_scale(k, spec_fx_mul(spec_v3_dot(k, v), spec_fx_sub(FX_ONE, r.cos))),
    )
}

/// The camera state after an orbit: the eye swung about the target by the
/// yaw angle around world Y, then by the pitch angle around the camera's
/// right axis, with the basis rebuilt from the new eye.
pub open spec fn spec_orbit(c: Camera, yaw: Rot2, pitch: Rot2) -> Camera {
    let rel0 = spec_v3_sub(c.eye, c.center);
    let rel1 = spec_rot_y(yaw, rel0);
    let rel2 = spec_rot_axis(pitch, c.right, rel1);
    let eye = spec_v3_add(c.center, rel2);
    let basis = spec_basis(eye, c.center, c.world_up);
    Camera {
        eye,
        center: c.center,
        world_up: c.world_up,
        forward: basis.0,
        right: basis.1,
        up: basis.2,
        has_changed: true,
    }
}

/// The camera state after a zoom: the eye moved along the forward axis,
/// with the basis rebuilt from the new eye.
pub open spec fn spec_zoom(c: Camera, delta: i64) -> Camera {
    let eye = spec_v3_add(c.eye, spec_v3_scale(c.forward, delta));
    let basis = spec_basis(eye, c.center, c.world_up);
    Camera {
        eye,
        center: c.center,
        world_up: c.world_up,
        forward: basis.0,
        right: basis.1,
        up: basis.2,
        has_changed: true,
    }
}

impl Camera {
    /// Build a camera from an eye, a look-at target and a world up
    /// direction; a fresh camera counts as changed so the first frame
    /// renders.
    pub fn new(eye: Vec3, center: Vec3, world_up: Vec3) -> (c: Camera)
        ensures
            c.eye == eye,
            c.center == center,
            c.world_up == world_up,
            (c.forward, c.right, c.up) == spec_basis(eye, center, world_up),
            c.has_changed,
    {
        let (forward, right, up) = basis(eye, center, world_up);
        Camera { eye, center, world_up, forward, right, up, has_changed: true }
    }

    /// Express a camera-space ray direction in world space.
    pub fn basis_change(&self, v: &Vec3) -> (r: Vec3)
        ensures
            r == spec_basis_change(*self, *v),
    {
        self.right.scale(v.x).add(&self.up.scale(v.y)).sub(&self.forward.scale(v.z))
    }

    /// Swing the eye about the target by a yaw around world Y and a pitch
    /// around the camera's right axis, and rebuild the basis.
    pub fn orbit(&mut self, yaw: Rot2, pitch: Rot2)
        ensures
            *final(self) == spec_orbit(*old(self), yaw, pitch),
    {
        let rel0 = self.eye.sub(&self.center);
        let rel1 = rot_y(yaw, &rel0);
        let rel2 = rot_axis(pitch, &self.right, &rel1);
        self.eye = self.center.add(&rel2);
        let (forward, right, up) = basis(self.eye, self.center, self.world_up);
        self.forward = forward;
        self.right = right;
        self.up = up;
        self.has_changed = true;
    }

    /// Move the eye along the forward axis and rebuild the basis.
    pub fn zoom(&mut self, delta: i64)
        ensures
            *final(self) == spec_zoom(*old(self), delta),
    {
        self.eye = self.eye.add(&self.forward.scale(delta));
        let (forward, right, up) = basis(self.eye, self.center, self.world_up);
        self.forward = forward;
        self.right = right;
        self.up = up;
        self.has_changed = true;
    }

    /// Record that a render has consumed the current camera state.
    pub fn mark_rendered(&mut self)
        ensures
            *final(self) == (Camera { has_changed: false, ..*old(self) }),
    {
        self.has_changed = false;
    }
}

/// Compute the look-at basis.
fn basis(eye: Vec3, center: Vec3, world_up: Vec3) -> (r: (Vec3, Vec3, Vec3))
    ensures
        r == spec_basis(eye, center, world_up),
{
    let forward = center.sub(&eye).normalize();
    let right = forward.cross(&world_up).normalize();
    let up = right.cross(&forward);
    (forward, right, up)
}

/// Rotate a vector about the world Y axis.
fn rot_y(r: Rot2, v: &Vec3) -> (w: Vec3)
    ensures
        w == spec_rot_y(r, *v),
{
    Vec3 {
        x: fx_add(fx_mul(v.x, r.cos), fx_mul(v.z, r.sin)),
        y: v.y,
        z: fx_sub(fx_mul(v.z, r.cos), fx_mul(v.x, r.sin)),
    }
}

/// Rotate a vector about a unit axis by the Rodrigues formula.
fn rot_axis(r: Rot2, k: &Vec3, v: &Vec3) -> (w: Vec3)
    ensures
        w == spec_rot_axis(r, *k, *v),
{
    v.scale(r.cos).add(&k.cross(v).scale(r.sin)).add(
        &k.scale(fx_mul(k.dot(v), fx_sub(FX_ONE, r.cos))),
    )
}

/// The planar rotation of exact integer coordinates by an exact angle
/// (c, s), without fixed-point rounding; results carry one factor of the
/// scale `s` and `c` are expressed in.
pub open spec fn rot_pair_exact(c: int, s: int, x: int, z: int) -> (int, int) {
    (x * c + z * s, z * c - x * s)
}

/// Rotating by an angle and then by its negation is the identity, up to
/// the squared scale factor, in the exact (unrounded) planar rotation
/// that `spec_rot_y` rounds — provided the angle's cosine and sine square
/// to the scale.
pub proof fn lemma_orbit_round_trip(c: int, s: int, x: int, z: int)
    requires
        c * c + s * s == (FX_ONE as int) * (FX_ONE as int),
    ensures
        rot_pair_exact(c, -s, rot_pair_exact(c, s, x, z).0, rot_pair_exact(c, s, x, z).1).0 == x
            * ((FX_ONE as int) * (FX_ONE as int)),
        rot_pair_exact(c, -s, rot_pair_exact(c, s, x, z).0, rot_pair_exact(c, s, x, z).1).1 == z
            * ((FX_ONE as int) * (FX_ONE as int)),
{
    assert((x * c + z * s) * c + (z * c - x * s) * (-s) == x * (c * c + s * s))
        by (nonlinear_arith);
    assert((z * c - x * s) * c - (x * c + z * s) * (-s) == z * (c * c + s * s))
        by (nonlinear_arith);
    assert(x * (c * c + s * s) == x * ((FX_ONE as int) * (FX_ONE as int)))
        by (nonlinear_arith)
        requires
            c * c + s * s == (FX_ONE as int) * (FX_ONE as int),
    ;
    assert(z * (c * c + s * s) == z * ((FX_ONE as int) * (FX_ONE as int)))
        by (nonlinear_arith)
        requires
            c * c + s * s == (FX_ONE as int) * (FX_ONE as int),
    ;
}

} // verus!
