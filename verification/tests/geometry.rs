use ray_tracing::cube::Cube;
use ray_tracing::fixed::FX_ONE;
use ray_tracing::material::Material;
use ray_tracing::rayintersect::RayIntersect;
use ray_tracing::sphere::Sphere;
use ray_tracing::vec3::Vec3;

fn plain_material(r: u8, g: u8, b: u8) -> Material {
    Material::new(
        ray_tracing::color::Color::new(r, g, b),
        10,
        [FX_ONE / 2, FX_ONE / 10, 0, 0],
        FX_ONE,
        ray_tracing::color::Color::new(0, 0, 0),
        0,
    )
}

#[test]
fn sphere_head_on_hit_distance() {
    // A unit sphere at the origin, seen from 5 units out on +Z: d - r = 4.
    let s = Sphere {
        center: Vec3::zeros(),
        radius: FX_ONE,
        material: plain_material(255, 0, 0),
    };
    let origin = Vec3::new(0, 0, 5 * FX_ONE);
    let direction = Vec3::new(0, 0, -FX_ONE);
    let hit = s.ray_intersect(&origin, &direction);
    assert!(hit.is_intersecting);
    assert_eq!(hit.distance, 4 * FX_ONE);
    assert_eq!(hit.normal, Vec3::new(0, 0, FX_ONE));
    assert_eq!(hit.point, Vec3::new(0, 0, FX_ONE));
}

#[test]
fn sphere_perpendicular_offset_misses() {
    // Center 3 units to the side of the ray, radius 1: a clean miss.
    let s = Sphere {
        center: Vec3::new(3 * FX_ONE, 0, 0),
        radius: FX_ONE,
        material: plain_material(255, 0, 0),
    };
    let origin = Vec3::new(0, 0, 5 * FX_ONE);
    let direction = Vec3::new(0, 0, -FX_ONE);
    let hit = s.ray_intersect(&origin, &direction);
    assert!(!hit.is_intersecting);
    assert_eq!(hit.distance, 0);
}

#[test]
fn sphere_behind_origin_misses() {
    let s = Sphere {
        center: Vec3::new(0, 0, 10 * FX_ONE),
        radius: FX_ONE,
        material: plain_material(255, 0, 0),
    };
    let origin = Vec3::new(0, 0, 5 * FX_ONE);
    let direction = Vec3::new(0, 0, -FX_ONE);
    let hit = s.ray_intersect(&origin, &direction);
    assert!(!hit.is_intersecting);
}

#[test]
fn cube_hit_along_z() {
    // Box [-1,1]^3 seen from (0,0,-5) along +Z: distance 4, normal -Z.
    let c = Cube {
        min: Vec3::new(-FX_ONE, -FX_ONE, -FX_ONE),
        max: Vec3::new(FX_ONE, FX_ONE, FX_ONE),
        material: plain_material(0, 255, 0),
    };
    let origin = Vec3::new(0, 0, -5 * FX_ONE);
    let direction = Vec3::new(0, 0, FX_ONE);
    let hit = c.ray_intersect(&origin, &direction);
    assert!(hit.is_intersecting);
    assert_eq!(hit.distance, 4 * FX_ONE);
    assert_eq!(hit.normal, Vec3::new(0, 0, -FX_ONE));
    assert!(hit.distance >= 0);
}

#[test]
fn cube_miss_to_the_side() {
    let c = Cube {
        min: Vec3::new(-FX_ONE, -FX_ONE, -FX_ONE),
        max: Vec3::new(FX_ONE, FX_ONE, FX_ONE),
        material: plain_material(0, 255, 0),
    };
    let origin = Vec3::new(3 * FX_ONE, 0, -5 * FX_ONE);
    let direction = Vec3::new(0, 0, FX_ONE);
    let hit = c.ray_intersect(&origin, &direction);
    assert!(!hit.is_intersecting);
}

#[test]
fn cube_hit_from_inside_uses_exit_distance() {
    let c = Cube {
        min: Vec3::new(-FX_ONE, -FX_ONE, -FX_ONE),
        max: Vec3::new(FX_ONE, FX_ONE, FX_ONE),
        material: plain_material(0, 255, 0),
    };
    let origin = Vec3::zeros();
    let direction = Vec3::new(0, 0, FX_ONE);
    let hit = c.ray_intersect(&origin, &direction);
    assert!(hit.is_intersecting);
    assert_eq!(hit.distance, FX_ONE);
}

#[test]
fn cube_uv_center_of_top_face() {
    // Unit cube centered at the origin: the center of the +Y face maps to
    // u = v = 0.5.
    let c = Cube {
        min: Vec3::new(-FX_ONE / 2, -FX_ONE / 2, -FX_ONE / 2),
        max: Vec3::new(FX_ONE / 2, FX_ONE / 2, FX_ONE / 2),
        material: plain_material(0, 0, 255),
    };
    let hit_point = Vec3::new(0, FX_ONE / 2, 0);
    let normal = Vec3::new(0, FX_ONE, 0);
    let (u, v) = c.get_uv(hit_point, normal);
    assert_eq!(u, FX_ONE / 2);
    assert_eq!(v, FX_ONE / 2);
}

#[test]
fn cube_uv_corners_follow_face_table() {
    let c = Cube {
        min: Vec3::new(-FX_ONE, -FX_ONE, -FX_ONE),
        max: Vec3::new(FX_ONE, FX_ONE, FX_ONE),
        material: plain_material(0, 0, 255),
    };
    // -Z face keeps local x and y unflipped.
    let (u, v) = c.get_uv(Vec3::new(-FX_ONE, -FX_ONE, -FX_ONE), Vec3::new(0, 0, -FX_ONE));
    assert_eq!((u, v), (0, 0));
    // +Z face flips u.
    let (u, v) = c.get_uv(Vec3::new(-FX_ONE, -FX_ONE, FX_ONE), Vec3::new(0, 0, FX_ONE));
    assert_eq!((u, v), (FX_ONE, 0));
    // An unknown normal falls back to (0, 0).
    let (u, v) = c.get_uv(Vec3::new(0, 0, 0), Vec3::new(FX_ONE, FX_ONE, 0));
    assert_eq!((u, v), (0, 0));
}
