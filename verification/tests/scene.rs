use ray_tracing::camera::{Camera, Rot2};
use ray_tracing::color::Color;
use ray_tracing::fixed::{FX_ONE, FX_TWO};
use ray_tracing::framebuffer::FrameBuffer;
use ray_tracing::light::Light;
use ray_tracing::material::Material;
use ray_tracing::rayintersect::Intersect;
use ray_tracing::render::{commit_rows, render, render_pixel, render_rows, render_split};
use ray_tracing::shading::{cast_ray, cast_shadow, reflect, refract, sky_color, Primitive};
use ray_tracing::sphere::Sphere;
use ray_tracing::vec3::Vec3;

fn matte(r: u8, g: u8, b: u8) -> Material {
    Material::new(
        Color::new(r, g, b),
        10,
        [FX_ONE / 2, FX_ONE / 10, 0, 0],
        FX_ONE,
        Color::new(0, 0, 0),
        0,
    )
}

fn mirror() -> Material {
    Material::new(Color::new(255, 255, 255), 50, [0, 0, FX_ONE, 0], FX_ONE, Color::new(0, 0, 0), 0)
}

fn sphere_at(x: i64, y: i64, z: i64, radius: i64, material: Material) -> Primitive {
    Primitive::Sphere(Sphere { center: Vec3::new(x, y, z), radius, material })
}

#[test]
fn reflect_mirrors_across_normal() {
    let incident = Vec3::new(0, 0, -FX_ONE);
    let normal = Vec3::new(0, 0, FX_ONE);
    assert_eq!(reflect(&incident, &normal), Vec3::new(0, 0, FX_ONE));
}

#[test]
fn refract_with_unit_index_goes_straight_through() {
    let incident = Vec3::new(0, 0, -FX_ONE);
    let normal = Vec3::new(0, 0, FX_ONE);
    assert_eq!(refract(&incident, &normal, FX_ONE), incident);
}

#[test]
fn shadow_factor_is_binary() {
    let hit = Intersect::new(Vec3::zeros(), Vec3::new(0, FX_ONE, 0), FX_ONE, 0, 0);
    let light = Light::new(Vec3::new(0, 10 * FX_ONE, 0), Color::new(255, 255, 255), FX_ONE);
    let occluder = vec![sphere_at(0, 5 * FX_ONE, 0, FX_ONE, matte(9, 9, 9))];
    assert_eq!(cast_shadow(&hit, &light, &occluder), FX_ONE);
    let empty: Vec<Primitive> = Vec::new();
    assert_eq!(cast_shadow(&hit, &light, &empty), 0);
    let aside = vec![sphere_at(20 * FX_ONE, 0, 0, FX_ONE, matte(9, 9, 9))];
    assert_eq!(cast_shadow(&hit, &light, &aside), 0);
}

#[test]
fn recursion_past_depth_cap_returns_sky() {
    // Even a fully mirrored scene stops at the depth cap.
    let scene = vec![sphere_at(0, 0, 0, FX_ONE, mirror())];
    let lights = vec![Light::new(Vec3::new(0, 10 * FX_ONE, 0), Color::new(255, 255, 255), FX_ONE)];
    let origin = Vec3::new(0, 0, 5 * FX_ONE);
    let direction = Vec3::new(0, 0, -FX_ONE);
    assert_eq!(cast_ray(&origin, &direction, &scene, &lights, 4, true), sky_color(true));
    assert_eq!(cast_ray(&origin, &direction, &scene, &lights, 4, false), sky_color(false));
}

#[test]
fn miss_returns_sky() {
    let scene: Vec<Primitive> = Vec::new();
    let lights: Vec<Light> = Vec::new();
    let origin = Vec3::zeros();
    let direction = Vec3::new(0, 0, -FX_ONE);
    assert_eq!(cast_ray(&origin, &direction, &scene, &lights, 0, true), sky_color(true));
    assert_eq!(cast_ray(&origin, &direction, &scene, &lights, 0, false), sky_color(false));
}

#[test]
fn facing_mirrors_terminate() {
    // Two mirrored spheres facing each other: the bounce chain ends at the
    // depth cap instead of recursing forever.
    let scene = vec![
        sphere_at(0, 0, -3 * FX_ONE, FX_ONE, mirror()),
        sphere_at(0, 0, 3 * FX_ONE, FX_ONE, mirror()),
    ];
    let lights = vec![Light::new(Vec3::new(0, 10 * FX_ONE, 0), Color::new(255, 255, 255), FX_ONE)];
    let origin = Vec3::zeros();
    let direction = Vec3::new(0, 0, -FX_ONE);
    let _ = cast_ray(&origin, &direction, &scene, &lights, 0, false);
}

#[test]
fn emissive_material_glows_in_the_dark() {
    let glowing = Material::new(
        Color::new(10, 10, 10),
        1,
        [0, 0, 0, 0],
        FX_ONE,
        Color::new(200, 100, 0),
        FX_TWO,
    );
    let scene = vec![sphere_at(0, 0, 0, FX_ONE, glowing)];
    let lights: Vec<Light> = Vec::new();
    let origin = Vec3::new(0, 0, 5 * FX_ONE);
    let direction = Vec3::new(0, 0, -FX_ONE);
    // emission * 2, weighted fully: (200,100,0) scaled by 2, clamped.
    let c = cast_ray(&origin, &direction, &scene, &lights, 0, false);
    assert_eq!(c, Color::new(255, 200, 0));
}

fn test_camera() -> Camera {
    Camera::new(Vec3::new(0, 0, 5 * FX_ONE), Vec3::zeros(), Vec3::new(0, FX_ONE, 0))
}

fn test_scene() -> (Vec<Primitive>, Vec<Light>) {
    let scene = vec![
        sphere_at(0, 0, 0, FX_ONE, matte(180, 60, 40)),
        sphere_at(FX_ONE, FX_ONE, -FX_ONE, FX_ONE / 2, mirror()),
    ];
    let lights = vec![Light::new(
        Vec3::new(5 * FX_ONE, 8 * FX_ONE, 5 * FX_ONE),
        Color::new(255, 255, 255),
        FX_ONE,
    )];
    (scene, lights)
}

#[test]
fn sequential_and_split_renders_are_pixel_identical() {
    let (scene, lights) = test_scene();
    let mut fb1 = FrameBuffer::new(8, 6);
    let mut fb2 = FrameBuffer::new(8, 6);
    let mut cam1 = test_camera();
    let mut cam2 = test_camera();
    render(&mut fb1, &scene, &mut cam1, &lights, true);
    render_split(&mut fb2, &scene, &mut cam2, &lights, true, 3);
    assert_eq!(fb1.cast_buffer(), fb2.cast_buffer());
    assert!(!cam1.has_changed);
    assert!(!cam2.has_changed);
}

#[test]
fn row_blocks_commit_to_the_same_frame() {
    let (scene, lights) = test_scene();
    let mut fb1 = FrameBuffer::new(8, 6);
    let mut fb2 = FrameBuffer::new(8, 6);
    let mut cam1 = test_camera();
    let cam2 = test_camera();
    render(&mut fb1, &scene, &mut cam1, &lights, false);
    for y in 0..6 {
        let rows = render_rows(8, 6, &cam2, &scene, &lights, false, y, y + 1);
        commit_rows(&mut fb2, y, &rows);
    }
    assert_eq!(fb1.cast_buffer(), fb2.cast_buffer());
}

#[test]
fn render_matches_per_pixel_computation() {
    let (scene, lights) = test_scene();
    let mut fb = FrameBuffer::new(4, 4);
    let mut cam = test_camera();
    render(&mut fb, &scene, &mut cam, &lights, true);
    let cam2 = test_camera();
    for y in 0..4usize {
        for x in 0..4usize {
            let expected = render_pixel(4, 4, &cam2, &scene, &lights, true, x, y);
            assert_eq!(fb.get_color(x, y), expected);
        }
    }
}

#[test]
fn center_pixel_of_emissive_sphere_is_exactly_its_emission() {
    // The pixel (2, 2) of a 4x4 frame maps to screen (0, 0): its ray runs
    // straight down the camera axis into the glowing sphere, and with no
    // lights and zero albedo the shaded color is exactly the emission.
    let glowing = Material::new(
        Color::new(200, 100, 50),
        1,
        [0, 0, 0, 0],
        FX_ONE,
        Color::new(200, 100, 50),
        FX_ONE,
    );
    let scene = vec![sphere_at(0, 0, 0, 2 * FX_ONE, glowing)];
    let lights: Vec<Light> = Vec::new();
    let mut fb = FrameBuffer::new(4, 4);
    let mut cam = Camera::new(Vec3::new(0, 0, 5 * FX_ONE), Vec3::zeros(), Vec3::new(0, FX_ONE, 0));
    render(&mut fb, &scene, &mut cam, &lights, false);
    assert_eq!(fb.get_color(2, 2), Color::new(200, 100, 50));
}

fn rot2(theta: f64) -> Rot2 {
    Rot2 {
        cos: (theta.cos() * 4294967296.0).round() as i64,
        sin: (theta.sin() * 4294967296.0).round() as i64,
    }
}

fn assert_close(a: Vec3, b: Vec3, tol: i64) {
    assert!((a.x - b.x).abs() <= tol, "x: {} vs {}", a.x, b.x);
    assert!((a.y - b.y).abs() <= tol, "y: {} vs {}", a.y, b.y);
    assert!((a.z - b.z).abs() <= tol, "z: {} vs {}", a.z, b.z);
}

#[test]
fn orbit_and_counter_orbit_restore_the_basis() {
    let mut cam = test_camera();
    let eye0 = cam.eye;
    let fwd0 = cam.forward;
    let right0 = cam.right;
    let up0 = cam.up;
    let theta = 0.5f64;
    let no_pitch = Rot2 { cos: FX_ONE, sin: 0 };
    cam.orbit(rot2(theta), no_pitch);
    assert!(cam.has_changed);
    cam.orbit(rot2(-theta), no_pitch);
    // Within a small fixed-point rounding tolerance (about 1e-5).
    let tol = FX_ONE / 100_000;
    assert_close(cam.eye, eye0, tol);
    assert_close(cam.forward, fwd0, tol);
    assert_close(cam.right, right0, tol);
    assert_close(cam.up, up0, tol);
}

#[test]
fn zoom_moves_the_eye_forward() {
    let mut cam = test_camera();
    cam.zoom(FX_ONE);
    // Forward is -Z from (0,0,5) toward the origin.
    assert_close(cam.eye, Vec3::new(0, 0, 4 * FX_ONE), 2);
    assert!(cam.has_changed);
    cam.mark_rendered();
    assert!(!cam.has_changed);
}
