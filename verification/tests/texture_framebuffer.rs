use std::sync::Arc;
use ray_tracing::color::Color;
use ray_tracing::fixed::FX_ONE;
use ray_tracing::framebuffer::FrameBuffer;
use ray_tracing::material::Material;
use ray_tracing::texture::Texture;

fn checker() -> Texture {
    // 2x2: red, green / blue, white, row-major.
    Texture::new(
        2,
        2,
        vec![
            Color::new(255, 0, 0),
            Color::new(0, 255, 0),
            Color::new(0, 0, 255),
            Color::new(255, 255, 255),
        ],
    )
}

#[test]
fn texture_pixel_lookup_and_out_of_range() {
    let t = checker();
    assert_eq!(t.get_pixel_color(0, 0), Color::new(255, 0, 0));
    assert_eq!(t.get_pixel_color(1, 0), Color::new(0, 255, 0));
    assert_eq!(t.get_pixel_color(0, 1), Color::new(0, 0, 255));
    assert_eq!(t.get_pixel_color(1, 1), Color::new(255, 255, 255));
    // Out of range marks itself red.
    assert_eq!(t.get_pixel_color(2, 0), Color::new(255, 0, 0));
    assert_eq!(t.get_pixel_color(0, 2), Color::new(255, 0, 0));
}

#[test]
fn texture_uv_sampling_clamps() {
    let t = checker();
    assert_eq!(t.get_color(0, 0), Color::new(255, 0, 0));
    // u = 1.0 scales to pixel 2, clamped into column 1.
    assert_eq!(t.get_color(FX_ONE, 0), Color::new(0, 255, 0));
    assert_eq!(t.get_color(FX_ONE, FX_ONE), Color::new(255, 255, 255));
    // Negative coordinates clamp to 0.
    assert_eq!(t.get_color(-FX_ONE, -FX_ONE), Color::new(255, 0, 0));
}

#[test]
fn material_diffuse_uses_texture_when_present() {
    let t = Arc::new(checker());
    let m = Material::material_with_texture(
        Color::new(9, 9, 9),
        1,
        [FX_ONE, 0, 0, 0],
        Some(t.clone()),
        FX_ONE,
        Color::new(0, 0, 0),
        0,
    );
    // (0, 0) rounds to pixel (0, 0).
    assert_eq!(m.get_diffuse(0, 0), Color::new(255, 0, 0));
    // u = 0.5 scales to 1.0, which rounds to pixel 1.
    assert_eq!(m.get_diffuse(FX_ONE / 2, 0), Color::new(0, 255, 0));
    // u just below 0.25 rounds down to pixel 0.
    assert_eq!(m.get_diffuse(FX_ONE / 4 - 1, 0), Color::new(255, 0, 0));

    let flat = Material::new(Color::new(9, 9, 9), 1, [FX_ONE, 0, 0, 0], FX_ONE, Color::new(0, 0, 0), 0);
    assert_eq!(flat.get_diffuse(FX_ONE / 2, FX_ONE / 2), Color::new(9, 9, 9));

    // Two materials can share one texture instance.
    let m2 = Material::material_with_texture(
        Color::new(0, 0, 0),
        1,
        [FX_ONE, 0, 0, 0],
        Some(t),
        FX_ONE,
        Color::new(0, 0, 0),
        0,
    );
    assert_eq!(m2.get_diffuse(0, 0), Color::new(255, 0, 0));
}

#[test]
fn material_black_is_all_zero() {
    let m = Material::black();
    assert_eq!(m.get_diffuse(0, 0), Color::new(0, 0, 0));
    assert_eq!(m.specular, 0);
    assert_eq!(m.albedo, [0, 0, 0, 0]);
    assert_eq!(m.emission_strength, 0);
}

#[test]
fn framebuffer_starts_white_and_clears_to_background() {
    let mut fb = FrameBuffer::new(4, 3);
    assert_eq!(fb.get_color(0, 0), Color::new(255, 255, 255));
    fb.set_background_color(Color::new(1, 2, 3));
    fb.clear();
    assert_eq!(fb.get_color(3, 2), Color::new(1, 2, 3));
}

#[test]
fn framebuffer_point_paints_current_color() {
    let mut fb = FrameBuffer::new(4, 3);
    fb.set_current_color(Color::new(10, 20, 30));
    fb.point(2, 1);
    assert_eq!(fb.get_color(2, 1), Color::new(10, 20, 30));
    assert_eq!(fb.get_color(1, 1), Color::new(255, 255, 255));
}

#[test]
fn framebuffer_casts_to_packed_hex() {
    let mut fb = FrameBuffer::new(2, 1);
    fb.set_current_color(Color::new(0x12, 0x34, 0x56));
    fb.point(0, 0);
    fb.set_current_color(Color::new(0xab, 0xcd, 0xef));
    fb.point(1, 0);
    assert_eq!(fb.cast_buffer(), vec![0x123456u32, 0xabcdefu32]);
}
