//! The recursive light-transport engine: nearest-hit search, direct
//! lighting with binary shadows, reflection, refraction and emission,
//! capped at a fixed recursion depth.

use vstd::prelude::*;
use crate::color::{spec_color_add, spec_color_scale, Color};
use crate::cube::{spec_cube_intersect, Cube};
use crate::fixed::{
    fx_max, fx_mul, fx_powi, fx_sub, spec_fx_div, spec_fx_max, spec_fx_min, spec_fx_mul,
    spec_fx_neg, spec_fx_powi, spec_fx_sqrt, spec_fx_sub, fx_div, fx_min, fx_neg, fx_sqrt,
    FX_MAX, FX_ONE, FX_TWO,
};
use crate::light::Light;
use crate::material::{spec_get_diffuse, Material};
use crate::rayintersect::{spec_empty_intersect, Intersect, RayIntersect};
use crate::sphere::{spec_sphere_intersect, Sphere};
use crate::vec3::{
    spec_v3_add, spec_v3_dot, spec_v3_neg, spec_v3_normalize, spec_v3_scale, spec_v3_sub, Vec3,
};

verus! {

/// Deepest reflection/refraction bounce; the camera ray has depth 0.
pub const MAX_DEPTH: u32 = 3;

/// Daytime ambient factor (5.0): deliberately brighter than night.
pub const AMBIENT_DAY: i64 = 0x5_0000_0000;

/// Nighttime ambient factor (about 0.05).
pub const AMBIENT_NIGHT: i64 = 0xccc_cccc;

/// Offset along the normal for secondary ray origins (about 1.2e-4), so a
/// bounced ray does not immediately re-hit its own surface.
pub const SURFACE_BIAS: i64 = 0x8_0000;

/// A scene element: the closed set of primitive shapes.
pub enum Primitive {
    Cube(Cube),
    Sphere(Sphere),
}

impl Primitive {
    /// The hit record this primitive produces for the given ray.
    pub open spec fn spec_intersect(&self, origin: Vec3, direction: Vec3) -> Intersect {
        match self {
            Primitive::Cube(c) => spec_cube_intersect(*c, origin, direction),
            Primitive::Sphere(s) => spec_sphere_intersect(*s, origin, direction),
        }
    }

    pub open spec fn spec_material(&self) -> Material {
        match self {
            Primitive::Cube(c) => c.material,
            Primitive::Sphere(s) => s.material,
        }
    }

    pub open spec fn wf(&self) -> bool {
        self.spec_material().wf()
    }

    pub fn material_ref(&self) -> (m: &Material)
        ensures
            *m == self.spec_material(),
    {
        match self {
            Primitive::Cube(c) => &c.material,
            Primitive::Sphere(s) => &s.material,
        }
    }
}

impl RayIntersect for Primitive {
    open spec fn spec_ray_intersect(&self, origin: Vec3, direction: Vec3) -> Intersect {
        self.spec_intersect(origin, direction)
    }

    fn ray_intersect(&self, ray_origin: &Vec3, ray_direction: &Vec3) -> (r: Intersect) {
        match self {
            Primitive::Cube(c) => c.ray_intersect(ray_origin, ray_direction),
            Primitive::Sphere(s) => s.ray_intersect(ray_origin, ray_direction),
        }
    }
}

/// The flat background color for a miss or an exhausted recursion.
pub open spec fn spec_sky_color(is_day: bool) -> Color {
    if is_day {
        Color { r: 135, g: 206, b: 235 }
    } else {
        Color { r: 4, g: 12, b: 36 }
    }
}

pub fn sky_color(is_day: bool) -> (c: Color)
    ensures
        c == spec_sky_color(is_day),
{
    if is_day {
        Color::new(135, 206, 235)
    } else {
        Color::new(4, 12, 36)
    }
}

pub open spec fn spec_ambient_factor(is_day: bool) -> i64 {
    if is_day {
        AMBIENT_DAY
    } else {
        AMBIENT_NIGHT
    }
}

/// The mirror direction: `incident - 2 (incident . normal) normal`.
pub open spec fn spec_reflect(incident: Vec3, normal: Vec3) -> Vec3 {
    spec_v3_sub(
        incident,
        spec_v3_scale(normal, spec_fx_mul(FX_TWO, spec_v3_dot(incident, normal))),
    )
}

pub fn reflect(incident: &Vec3, normal: &Vec3) -> (r: Vec3)
    ensures
        r == spec_reflect(*incident, *normal),
{
    incident.sub(&normal.scale(fx_mul(FX_TWO, incident.dot(normal))))
}

/// Snell's-law refraction. The effective normal flips and the ratio of
/// indices inverts when the ray leaves rather than enters the surface;
/// total internal reflection falls back to the mirror direction off the
/// effective normal.
pub open spec fn spec_refract(incident: Vec3, normal: Vec3, eta_t: i64) -> Vec3 {
    let cosi0 = spec_fx_neg(
        spec_fx_max(spec_fx_neg(FX_ONE), spec_fx_min(FX_ONE, spec_v3_dot(incident, normal))),
    );
    let cosi = if cosi0 < 0 {
        spec_fx_neg(cosi0)
    } else {
        cosi0
    };
    let eta = if cosi0 < 0 {
        eta_t
    } else {
        spec_fx_div(FX_ONE, eta_t)
    };
    let n_eff = if cosi0 < 0 {
        spec_v3_neg(normal)
    } else {
        normal
    };
    let k = spec_fx_sub(
        FX_ONE,
        spec_fx_mul(spec_fx_mul(eta, eta), spec_fx_sub(FX_ONE, spec_fx_mul(cosi, cosi))),
    );
    if k < 0 {
        spec_reflect(incident, n_eff)
    } else {
        spec_v3_add(
            spec_v3_scale(incident, eta),
            spec_v3_scale(n_eff, spec_fx_sub(spec_fx_mul(eta, cosi), spec_fx_sqrt(k))),
        )
    }
}

pub fn refract(incident: &Vec3, normal: &Vec3, eta_t: i64) -> (r: Vec3)
    ensures
        r == spec_refract(*incident, *normal, eta_t),
{
    let cosi0 = fx_neg(fx_max(fx_neg(FX_ONE), fx_min(FX_ONE, incident.dot(normal))));
    let cosi = if cosi0 < 0 {
        fx_neg(cosi0)
    } else {
        cosi0
    };
    let eta = if cosi0 < 0 {
        eta_t
    } else {
        fx_div(FX_ONE, eta_t)
    };
    let n_eff = if cosi0 < 0 {
        normal.neg()
    } else {
        *normal
    };
    let k = fx_sub(FX_ONE, fx_mul(fx_mul(eta, eta), fx_sub(FX_ONE, fx_mul(cosi, cosi))));
    if k < 0 {
        reflect(incident, &n_eff)
    } else {
        incident.scale(eta).add(&n_eff.scale(fx_sub(fx_mul(eta, cosi), fx_sqrt(k))))
    }
}

/// Where a shadow ray starts: the hit point pushed out along the normal.
pub open spec fn spec_shadow_origin(it: Intersect) -> Vec3 {
    spec_v3_add(it.point, spec_v3_scale(it.normal, SURFACE_BIAS))
}

/// Where a shadow ray points: toward the light.
pub open spec fn spec_shadow_dir(it: Intersect, l: Light) -> Vec3 {
    spec_v3_normalize(spec_v3_sub(l.position, it.point))
}

/// Some primitive of the scene intersects the given ray.
pub open spec fn spec_any_hit(objects: Seq<Primitive>, o: Vec3, d: Vec3) -> bool {
    exists|i: int| 0 <= i < objects.len() && objects[i].spec_intersect(o, d).is_intersecting
}

/// The binary shadow factor: 1.0 when any primitive intersects the ray
/// from the hit point toward the light — with no distance cutoff, so an
/// occluder beyond the light still shadows — else 0.0.
pub open spec fn spec_cast_shadow(it: Intersect, l: Light, objects: Seq<Primitive>) -> i64 {
    if spec_any_hit(objects, spec_shadow_origin(it), spec_shadow_dir(it, l)) {
        FX_ONE
    } else {
        0
    }
}

/// Test whether anything occludes the light from a hit point; the scan
/// stops at the first occluder.
pub fn cast_shadow(intersect: &Intersect, light: &Light, objects: &[Primitive]) -> (s: i64)
    ensures
        s == spec_cast_shadow(*intersect, *light, objects@),
{
    let light_dir = light.position.sub(&intersect.point).normalize();
    let shadow_origin = intersect.point.add(&intersect.normal.scale(SURFACE_BIAS));
    let n = objects.len();
    let mut i: usize = 0;
    while i < n
        invariant
            i <= n,
            n == objects@.len(),
            light_dir == spec_shadow_dir(*intersect, *light),
            shadow_origin == spec_shadow_origin(*intersect),
            forall|j: int|
                0 <= j < i ==> !objects@[j].spec_intersect(
                    shadow_origin,
                    light_dir,
                ).is_intersecting,
        decreases n - i,
    {
        let hit = objects[i].ray_intersect(&shadow_origin, &light_dir);
        if hit.is_intersecting {
            assert(spec_any_hit(objects@, shadow_origin, light_dir));
            return FX_ONE;
        }
        i = i + 1;
    }
    0
}

/// The nearest-hit scan over the first `n` primitives: the winning record,
/// the distance to beat, and the index of the winner.
pub open spec fn spec_scan(objects: Seq<Primitive>, o: Vec3, d: Vec3, n: int) -> (
    Intersect,
    i64,
    int,
)
    decreases n,
{
    if n <= 0 {
        (spec_empty_intersect(), FX_MAX, 0int)
    } else {
        let prev = spec_scan(objects, o, d, n - 1);
        let it = objects[n - 1].spec_intersect(o, d);
        if it.is_intersecting && it.distance < prev.1 {
            (it, it.distance, n - 1)
        } else {
            prev
        }
    }
}

/// The nearest hit over the whole scene.
pub open spec fn spec_nearest(objects: Seq<Primitive>, o: Vec3, d: Vec3) -> (Intersect, i64, int) {
    spec_scan(objects, o, d, objects.len() as int)
}

/// What the scan result means: a winner is a real hit of some primitive at
/// its own distance; no winner leaves the sentinel untouched.
pub proof fn lemma_scan_props(objects: Seq<Primitive>, o: Vec3, d: Vec3, n: int)
    requires
        0 <= n <= objects.len(),
    ensures
        spec_scan(objects, o, d, n).0.is_intersecting ==> {
            let r = spec_scan(objects, o, d, n);
            &&& 0 <= r.2 < n
            &&& r.0 == objects[r.2].spec_intersect(o, d)
            &&& r.1 == r.0.distance
        },
        !spec_scan(objects, o, d, n).0.is_intersecting ==> spec_scan(objects, o, d, n) == (
            spec_empty_intersect(),
            FX_MAX,
            0int,
        ),
    decreases n,
{
    if n > 0 {
        lemma_scan_props(objects, o, d, n - 1);
    }
}

/// The diffuse contribution of one light at a hit.
pub open spec fn spec_light_dterm(
    objects: Seq<Primitive>,
    it: Intersect,
    m: Material,
    l: Light,
) -> Color {
    let light_dir = spec_shadow_dir(it, l);
    let diffuse_i = spec_fx_max(0, spec_v3_dot(it.normal, light_dir));
    let lit = spec_fx_sub(FX_ONE, spec_cast_shadow(it, l, objects));
    spec_color_scale(
        spec_get_diffuse(m, it.u, it.v),
        spec_fx_mul(spec_fx_mul(spec_fx_mul(diffuse_i, l.intensity), m.albedo[0]), lit),
    )
}

/// The specular contribution of one light at a hit, seen from the ray
/// origin.
pub open spec fn spec_light_sterm(
    objects: Seq<Primitive>,
    it: Intersect,
    m: Material,
    view_origin: Vec3,
    l: Light,
) -> Color {
    let light_dir = spec_shadow_dir(it, l);
    let view_dir = spec_v3_normalize(spec_v3_sub(view_origin, it.point));
    let reflect_dir = spec_reflect(spec_v3_neg(light_dir), it.normal);
    let spec_i = spec_fx_powi(spec_fx_max(0, spec_v3_dot(view_dir, reflect_dir)), m.specular);
    let lit = spec_fx_sub(FX_ONE, spec_cast_shadow(it, l, objects));
    spec_color_scale(
        l.color,
        spec_fx_mul(spec_fx_mul(spec_fx_mul(spec_i, l.intensity), m.albedo[1]), lit),
    )
}

/// The color accumulated over the first `n` lights, in scene order,
/// starting from the ambient-plus-emission base.
pub open spec fn spec_light_acc(
    objects: Seq<Primitive>,
    lights: Seq<Light>,
    it: Intersect,
    m: Material,
    view_origin: Vec3,
    acc0: Color,
    n: int,
) -> Color
    decreases n,
{
    if n <= 0 {
        acc0
    } else {
        let prev = spec_light_acc(objects, lights, it, m, view_origin, acc0, n - 1);
        spec_color_add(
            spec_color_add(prev, spec_light_dterm(objects, it, m, lights[n - 1])),
            spec_light_sterm(objects, it, m, view_origin, lights[n - 1]),
        )
    }
}

/// The full shading recursion for one ray. Past `MAX_DEPTH` the sky color
/// comes back at once; a miss also gives the sky. A hit accumulates the
/// ambient, emission, diffuse and specular terms, then blends in the
/// recursively traced reflection and refraction by the albedo weights;
/// the direct weight `1 - reflectivity - transparency` is deliberately
/// not clamped.
pub open spec fn spec_cast_ray(
    objects: Seq<Primitive>,
    lights: Seq<Light>,
    origin: Vec3,
    direction: Vec3,
    depth: u32,
    is_day: bool,
) -> Color
    decreases MAX_DEPTH + 1 - depth,
{
    if depth > MAX_DEPTH {
        spec_sky_color(is_day)
    } else {
        let nearest = spec_nearest(objects, origin, direction);
        let it = nearest.0;
        if !it.is_intersecting {
            spec_sky_color(is_day)
        } else {
            let m = objects[nearest.2].spec_material();
            let base = spec_get_diffuse(m, it.u, it.v);
            let ambient = spec_fx_mul(m.albedo[0], spec_ambient_factor(is_day));
            let acc0 = spec_color_add(
                spec_color_scale(base, ambient),
                spec_color_scale(m.emission, m.emission_strength),
            );
            let col = spec_light_acc(objects, lights, it, m, origin, acc0, lights.len() as int);
            let refl = if m.albedo[2] > 0 {
                spec_cast_ray(
                    objects,
                    lights,
                    spec_v3_add(it.point, spec_v3_scale(it.normal, SURFACE_BIAS)),
                    spec_reflect(direction, it.normal),
                    (depth + 1) as u32,
                    is_day,
                )
            } else {
                Color { r: 0, g: 0, b: 0 }
            };
            let refr = if m.albedo[3] > 0 {
                spec_cast_ray(
                    objects,
                    lights,
                    spec_v3_sub(it.point, spec_v3_scale(it.normal, SURFACE_BIAS)),
                    spec_refract(direction, it.normal, m.refractive_index),
                    (depth + 1) as u32,
                    is_day,
                )
            } else {
                Color { r: 0, g: 0, b: 0 }
            };
            let w = spec_fx_sub(spec_fx_sub(FX_ONE, m.albedo[2]), m.albedo[3]);
            spec_color_add(
                spec_color_add(spec_color_scale(col, w), spec_color_scale(refl, m.albedo[2])),
                spec_color_scale(refr, m.albedo[3]),
            )
        }
    }
}

/// The recursion cap and the empty scene both give back exactly the sky
/// color: past `MAX_DEPTH` the trace stops at once — even a perfectly
/// mirrored material cannot recurse further — and with no primitives a
/// ray of any depth hits nothing.
pub proof fn lemma_cast_ray_sky(
    objects: Seq<Primitive>,
    lights: Seq<Light>,
    origin: Vec3,
    direction: Vec3,
    depth: u32,
    is_day: bool,
)
    ensures
        depth > MAX_DEPTH ==> spec_cast_ray(objects, lights, origin, direction, depth, is_day)
            == spec_sky_color(is_day),
        objects.len() == 0 ==> spec_cast_ray(objects, lights, origin, direction, depth, is_day)
            == spec_sky_color(is_day),
{
}

/// Trace one ray through the scene and shade what it hits.
pub fn cast_ray(
    ray_origin: &Vec3,
    ray_direction: &Vec3,
    objects: &[Primitive],
    lights: &[Light],
    depth: u32,
    is_day: bool,
) -> (color: Color)
    requires
        forall|i: int| 0 <= i < objects@.len() ==> (#[trigger] objects@[i]).wf(),
    ensures
        color == spec_cast_ray(objects@, lights@, *ray_origin, *ray_direction, depth, is_day),
    decreases MAX_DEPTH + 1 - depth,
{
    if depth > MAX_DEPTH {
        return sky_color(is_day);
    }

    let mut closest = Intersect::empty();
    let mut zbuffer: i64 = FX_MAX;
    let mut hit_idx: usize = 0;
    let n = objects.len();
    let mut i: usize = 0;
    while i < n
        invariant
            i <= n,
            n == objects@.len(),
            closest == spec_scan(objects@, *ray_origin, *ray_direction, i as int).0,
            zbuffer == spec_scan(objects@, *ray_origin, *ray_direction, i as int).1,
            closest.is_intersecting ==> hit_idx as int == spec_scan(
                objects@,
                *ray_origin,
                *ray_direction,
                i as int,
            ).2,
        decreases n - i,
    {
        let it = objects[i].ray_intersect(ray_origin, ray_direction);
        if it.is_intersecting && it.distance < zbuffer {
            closest = it;
            zbuffer = it.distance;
            hit_idx = i;
        }
        i = i + 1;
    }

    if !closest.is_intersecting {
        return sky_color(is_day);
    }

    proof {
        lemma_scan_props(objects@, *ray_origin, *ray_direction, n as int);
    }
    let m = objects[hit_idx].material_ref();

    let diffuse_base = m.get_diffuse(closest.u, closest.v);
    let ambient = fx_mul(m.albedo[0], if is_day {
        AMBIENT_DAY
    } else {
        AMBIENT_NIGHT
    });
    let mut col = diffuse_base.scale(ambient).add(&m.emission.scale(m.emission_strength));
    let ghost acc0 = col;

    let n_lights = lights.len();
    let mut li: usize = 0;
    while li < n_lights
        invariant
            li <= n_lights,
            n_lights == lights@.len(),
            n == objects@.len(),
            forall|j: int| 0 <= j < objects@.len() ==> (#[trigger] objects@[j]).wf(),
            *m == objects@[hit_idx as int].spec_material(),
            m.wf(),
            diffuse_base == spec_get_diffuse(*m, closest.u, closest.v),
            col == spec_light_acc(
                objects@,
                lights@,
                closest,
                *m,
                *ray_origin,
                acc0,
                li as int,
            ),
        decreases n_lights - li,
    {
        let light = &lights[li];
        let light_dir = light.position.sub(&closest.point).normalize();
        let diffuse_i = fx_max(0, closest.normal.dot(&light_dir));
        let view_dir = ray_origin.sub(&closest.point).normalize();
        let reflect_dir = reflect(&light_dir.neg(), &closest.normal);
        let spec_base = fx_max(0, view_dir.dot(&reflect_dir));
        let spec_i = fx_powi(spec_base, m.specular);
        let shadow = cast_shadow(&closest, light, objects);
        let lit = fx_sub(FX_ONE, shadow);
        let dterm = diffuse_base.scale(
            fx_mul(fx_mul(fx_mul(diffuse_i, light.intensity), m.albedo[0]), lit),
        );
        let sterm = light.color.scale(
            fx_mul(fx_mul(fx_mul(spec_i, light.intensity), m.albedo[1]), lit),
        );
        col = col.add(&dterm).add(&sterm);
        li = li + 1;
    }

    let refl_color = if m.albedo[2] > 0 {
        let reflect_dir = reflect(ray_direction, &closest.normal);
        let reflect_origin = closest.point.add(&closest.normal.scale(SURFACE_BIAS));
        cast_ray(&reflect_origin, &reflect_dir, objects, lights, depth + 1, is_day)
    } else {
        Color::new(0, 0, 0)
    };

    let refr_color = if m.albedo[3] > 0 {
        let refract_dir = refract(ray_direction, &closest.normal, m.refractive_index);
        let refract_origin = closest.point.sub(&closest.normal.scale(SURFACE_BIAS));
        cast_ray(&refract_origin, &refract_dir, objects, lights, depth + 1, is_day)
    } else {
        Color::new(0, 0, 0)
    };

    let w = fx_sub(fx_sub(FX_ONE, m.albedo[2]), m.albedo[3]);
    col.scale(w).add(&refl_color.scale(m.albedo[2])).add(&refr_color.scale(m.albedo[3]))
}

} // verus!
