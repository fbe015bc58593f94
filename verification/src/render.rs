//! The per-pixel render loop, sequential and in row blocks.
//!
//! Every pixel is a pure function of the scene, lights, camera and
//! day/night flag (`spec_render_pixel`); a whole frame is the sequence
//! `spec_frame`. The sequential loop and the row-block path are both
//! proved to produce exactly that sequence, so any scheduling of the
//! row-block computations — including across worker threads — yields a
//! frame identical to the sequential one.

use vstd::prelude::*;
use vstd::arithmetic::div_mod::lemma_fundamental_div_mod_converse;
use crate::camera::{spec_basis_change, Camera};
use crate::color::Color;
use crate::fixed::{
    fx_add, fx_div, fx_from_int, fx_mul, fx_neg, fx_sub, spec_fx_add, spec_fx_div,
    spec_fx_from_int, spec_fx_mul, spec_fx_neg, spec_fx_sub, FX_ONE, FX_TWO,
};
use crate::framebuffer::FrameBuffer;
use crate::light::Light;
use crate::shading::{cast_ray, spec_cast_ray, Primitive};
use crate::vec3::{spec_v3_normalize, Vec3};

verus! {

/// The world-space ray direction for the pixel (x, y): the pixel mapped
/// into screen space [-1, 1] with y up, corrected by the aspect ratio,
/// pointed down the camera's negative z at depth 1 (a fixed 90-degree
/// field of view, whose half-angle tangent is 1), normalized, and rotated
/// into world space.
pub open spec fn spec_pixel_dir(
    width: usize,
    height: usize,
    camera: Camera,
    x: usize,
    y: usize,
) -> Vec3 {
    let wf = spec_fx_from_int(width as i64);
    let hf = spec_fx_from_int(height as i64);
    let aspect = spec_fx_div(wf, hf);
    let sx = spec_fx_mul(
        spec_fx_sub(spec_fx_div(spec_fx_mul(FX_TWO, spec_fx_from_int(x as i64)), wf), FX_ONE),
        aspect,
    );
    let sy = spec_fx_add(
        spec_fx_neg(spec_fx_div(spec_fx_mul(FX_TWO, spec_fx_from_int(y as i64)), hf)),
        FX_ONE,
    );
    spec_basis_change(
        camera,
        spec_v3_normalize(Vec3 { x: sx, y: sy, z: (-FX_ONE) as i64 }),
    )
}

/// The color of the pixel (x, y): the camera ray for that pixel traced at
/// depth zero from the eye.
pub open spec fn spec_render_pixel(
    width: usize,
    height: usize,
    camera: Camera,
    objects: Seq<Primitive>,
    lights: Seq<Light>,
    is_day: bool,
    x: usize,
    y: usize,
) -> Color {
    spec_cast_ray(
        objects,
        lights,
        camera.eye,
        spec_pixel_dir(width, height, camera, x, y),
        0,
        is_day,
    )
}

/// The whole frame, row-major: pixel (x, y) at index `width * y + x`.
pub open spec fn spec_frame(
    width: usize,
    height: usize,
    camera: Camera,
    objects: Seq<Primitive>,
    lights: Seq<Light>,
    is_day: bool,
) -> Seq<Color> {
    Seq::new(
        (width * height) as nat,
        |k: int|
            spec_render_pixel(
                width,
                height,
                camera,
                objects,
                lights,
                is_day,
                (k % (width as int)) as usize,
                (k / (width as int)) as usize,
            ),
    )
}

/// Compute the color of one pixel.
pub fn render_pixel(
    width: usize,
    height: usize,
    camera: &Camera,
    objects: &[Primitive],
    lights: &[Light],
    is_day: bool,
    x: usize,
    y: usize,
) -> (color: Color)
    requires
        (width as int) < 0x8000_0000_0000_0000,
        (height as int) < 0x8000_0000_0000_0000,
        x < width,
        y < height,
        forall|i: int| 0 <= i < objects@.len() ==> (#[trigger] objects@[i]).wf(),
    ensures
        color == spec_render_pixel(width, height, *camera, objects@, lights@, is_day, x, y),
{
    let wf = fx_from_int(width as i64);
    let hf = fx_from_int(height as i64);
    let aspect = fx_div(wf, hf);
    let sx = fx_mul(fx_sub(fx_div(fx_mul(FX_TWO, fx_from_int(x as i64)), wf), FX_ONE), aspect);
    let sy = fx_add(fx_neg(fx_div(fx_mul(FX_TWO, fx_from_int(y as i64)), hf)), FX_ONE);
    let camera_dir = Vec3::new(sx, sy, -FX_ONE).normalize();
    let ray_direction = camera.basis_change(&camera_dir);
    cast_ray(&camera.eye, &ray_direction, objects, lights, 0, is_day)
}

/// A pixel's row-major index recovers its coordinates.
proof fn lemma_pixel_index(x: int, y: int, w: int, h: int)
    requires
        0 <= x < w,
        0 <= y < h,
    ensures
        0 <= w * y + x < w * h,
        (w * y + x) % w == x,
        (w * y + x) / w == y,
{
    assert(0 <= w * y + x < w * h && w * y == y * w) by (nonlinear_arith)
        requires
            0 <= x < w && 0 <= y < h,
    ;
    lemma_fundamental_div_mod_converse(w * y + x, w, y, x);
}

/// Render the whole frame, pixel by pixel, into the framebuffer, and mark
/// the camera state as consumed. Every pixel of the result is exactly the
/// pixel function of the inputs.
pub fn render(
    framebuffer: &mut FrameBuffer,
    objects: &[Primitive],
    camera: &mut Camera,
    lights: &[Light],
    is_day: bool,
)
    requires
        old(framebuffer).wf(),
        (old(framebuffer).width as int) < 0x8000_0000_0000_0000,
        (old(framebuffer).height as int) < 0x8000_0000_0000_0000,
        forall|i: int| 0 <= i < objects@.len() ==> (#[trigger] objects@[i]).wf(),
    ensures
        final(framebuffer).wf(),
        final(framebuffer).width == old(framebuffer).width,
        final(framebuffer).height == old(framebuffer).height,
        final(framebuffer).background_color == old(framebuffer).background_color,
        final(framebuffer).buffer@ == spec_frame(
            old(framebuffer).width,
            old(framebuffer).height,
            *old(camera),
            objects@,
            lights@,
            is_day,
        ),
        *final(camera) == (Camera { has_changed: false, ..*old(camera) }),
{
    let width = framebuffer.width;
    let height = framebuffer.height;
    let ghost frame = spec_frame(width, height, *camera, objects@, lights@, is_day);

    let mut y: usize = 0;
    while y < height
        invariant
            y <= height,
            framebuffer.wf(),
            framebuffer.width == width,
            framebuffer.height == height,
            framebuffer.background_color == old(framebuffer).background_color,
            (width as int) < 0x8000_0000_0000_0000,
            (height as int) < 0x8000_0000_0000_0000,
            *camera == *old(camera),
            forall|i: int| 0 <= i < objects@.len() ==> (#[trigger] objects@[i]).wf(),
            frame == spec_frame(width, height, *camera, objects@, lights@, is_day),
            frame.len() == framebuffer.buffer@.len(),
            forall|k: int|
                0 <= k < width as int * y as int ==> framebuffer.buffer@[k] == frame[k],
        decreases height - y,
    {
        let mut x: usize = 0;
        while x < width
            invariant
                x <= width,
                y < height,
                framebuffer.wf(),
                framebuffer.width == width,
                framebuffer.height == height,
                framebuffer.background_color == old(framebuffer).background_color,
                (width as int) < 0x8000_0000_0000_0000,
                (height as int) < 0x8000_0000_0000_0000,
                *camera == *old(camera),
                forall|i: int| 0 <= i < objects@.len() ==> (#[trigger] objects@[i]).wf(),
                frame == spec_frame(width, height, *camera, objects@, lights@, is_day),
                frame.len() == framebuffer.buffer@.len(),
                forall|k: int|
                    0 <= k < width as int * y as int + x as int ==> framebuffer.buffer@[k]
                        == frame[k],
            decreases width - x,
        {
            let pixel_color = render_pixel(
                width,
                height,
                camera,
                objects,
                lights,
                is_day,
                x,
                y,
            );
            proof {
                lemma_pixel_index(x as int, y as int, width as int, height as int);
            }
            framebuffer.set_current_color(pixel_color);
            framebuffer.point(x, y);
            x = x + 1;
        }
        proof {
            assert(width as int * (y + 1) as int == width as int * y as int + width as int)
                by (nonlinear_arith);
        }
        y = y + 1;
    }
    proof {
        assert(width as int * height as int == frame.len());
        assert(framebuffer.buffer@ =~= frame);
    }
    camera.mark_rendered();
}

/// Compute the pixels of the rows [y0, y1), in row-major order, without
/// touching any shared state: the slice of the frame those rows span.
pub fn render_rows(
    width: usize,
    height: usize,
    camera: &Camera,
    objects: &[Primitive],
    lights: &[Light],
    is_day: bool,
    y0: usize,
    y1: usize,
) -> (rows: Vec<Color>)
    requires
        y0 <= y1 <= height,
        width * height <= usize::MAX,
        (width as int) < 0x8000_0000_0000_0000,
        (height as int) < 0x8000_0000_0000_0000,
        forall|i: int| 0 <= i < objects@.len() ==> (#[trigger] objects@[i]).wf(),
    ensures
        rows@.len() == (y1 - y0) * width,
        forall|k: int|
            0 <= k < rows@.len() ==> rows@[k] == spec_frame(
                width,
                height,
                *camera,
                objects@,
                lights@,
                is_day,
            )[width as int * y0 as int + k],
{
    let ghost frame = spec_frame(width, height, *camera, objects@, lights@, is_day);
    let mut rows: Vec<Color> = Vec::new();
    let mut y: usize = y0;
    while y < y1
        invariant
            y0 <= y <= y1 <= height,
            width * height <= usize::MAX,
            (width as int) < 0x8000_0000_0000_0000,
            (height as int) < 0x8000_0000_0000_0000,
            forall|i: int| 0 <= i < objects@.len() ==> (#[trigger] objects@[i]).wf(),
            frame == spec_frame(width, height, *camera, objects@, lights@, is_day),
            rows@.len() == (y - y0) as int * width as int,
            forall|k: int|
                0 <= k < rows@.len() ==> rows@[k] == frame[width as int * y0 as int + k],
        decreases y1 - y,
    {
        let mut x: usize = 0;
        while x < width
            invariant
                x <= width,
                y0 <= y < y1 <= height,
                width * height <= usize::MAX,
                (width as int) < 0x8000_0000_0000_0000,
                (height as int) < 0x8000_0000_0000_0000,
                forall|i: int| 0 <= i < objects@.len() ==> (#[trigger] objects@[i]).wf(),
                frame == spec_frame(width, height, *camera, objects@, lights@, is_day),
                rows@.len() == (y - y0) as int * width as int + x as int,
                forall|k: int|
                    0 <= k < rows@.len() ==> rows@[k] == frame[width as int * y0 as int + k],
            decreases width - x,
        {
            let pixel_color = render_pixel(
                width,
                height,
                camera,
                objects,
                lights,
                is_day,
                x,
                y,
            );
            proof {
                lemma_pixel_index(x as int, y as int, width as int, height as int);
                assert(width as int * y as int + x as int == width as int * y0 as int + (
                rows@.len() as int)) by (nonlinear_arith)
                    requires
                        rows@.len() as int == (y - y0) as int * width as int + x as int,
                ;
            }
            rows.push(pixel_color);
            x = x + 1;
        }
        proof {
            assert((y + 1 - y0) as int * width as int == (y - y0) as int * width as int
                + width as int) by (nonlinear_arith);
        }
        y = y + 1;
    }
    rows
}

/// Write a block of row-major pixels into the framebuffer starting at row
/// `y0`; pixels outside the block keep their colors.
pub fn commit_rows(framebuffer: &mut FrameBuffer, y0: usize, rows: &Vec<Color>)
    requires
        old(framebuffer).wf(),
        old(framebuffer).width * y0 + rows@.len() <= old(framebuffer).buffer@.len(),
    ensures
        final(framebuffer).wf(),
        final(framebuffer).width == old(framebuffer).width,
        final(framebuffer).height == old(framebuffer).height,
        final(framebuffer).background_color == old(framebuffer).background_color,
        final(framebuffer).current_color == old(framebuffer).current_color,
        final(framebuffer).buffer@.len() == old(framebuffer).buffer@.len(),
        forall|k: int|
            0 <= k < final(framebuffer).buffer@.len() ==> final(framebuffer).buffer@[k] == {
                let base = old(framebuffer).width as int * y0 as int;
                if base <= k < base + rows@.len() {
                    rows@[k - base]
                } else {
                    old(framebuffer).buffer@[k]
                }
            },
{
    let total: usize = framebuffer.buffer.len();
    let n = rows.len();
    assert(framebuffer.width as int * y0 as int + n as int <= total as int);
    let base: usize = framebuffer.width * y0;
    let mut k: usize = 0;
    while k < n
        invariant
            k <= n,
            n == rows@.len(),
            framebuffer.wf(),
            framebuffer.width == old(framebuffer).width,
            framebuffer.height == old(framebuffer).height,
            framebuffer.background_color == old(framebuffer).background_color,
            framebuffer.current_color == old(framebuffer).current_color,
            framebuffer.buffer@.len() == old(framebuffer).buffer@.len(),
            base == old(framebuffer).width as int * y0 as int,
            base + n <= framebuffer.buffer@.len(),
            total == framebuffer.buffer@.len(),
            forall|j: int|
                0 <= j < framebuffer.buffer@.len() ==> framebuffer.buffer@[j] == if base as int
                    <= j < base as int + k as int {
                    rows@[j - base]
                } else {
                    old(framebuffer).buffer@[j]
                },
        decreases n - k,
    {
        let idx: usize = base + k;
        let c = rows[k];
        framebuffer.buffer[idx] = c;
        k = k + 1;
    }
}

/// Render the frame in two independently computed row blocks, split at
/// `split_y`, and commit them: the fan-out/fan-in shape of the parallel
/// render. The resulting buffer is exactly `spec_frame`, the same
/// sequence the sequential `render` produces.
#[verifier::rlimit(60)]
pub fn render_split(
    framebuffer: &mut FrameBuffer,
    objects: &[Primitive],
    camera: &mut Camera,
    lights: &[Light],
    is_day: bool,
    split_y: usize,
)
    requires
        old(framebuffer).wf(),
        split_y <= old(framebuffer).height,
        (old(framebuffer).width as int) < 0x8000_0000_0000_0000,
        (old(framebuffer).height as int) < 0x8000_0000_0000_0000,
        forall|i: int| 0 <= i < objects@.len() ==> (#[trigger] objects@[i]).wf(),
    ensures
        final(framebuffer).wf(),
        final(framebuffer).width == old(framebuffer).width,
        final(framebuffer).height == old(framebuffer).height,
        final(framebuffer).background_color == old(framebuffer).background_color,
        final(framebuffer).buffer@ == spec_frame(
            old(framebuffer).width,
            old(framebuffer).height,
            *old(camera),
            objects@,
            lights@,
            is_day,
        ),
        *final(camera) == (Camera { has_changed: false, ..*old(camera) }),
{
    let width = framebuffer.width;
    let height = framebuffer.height;
    let ghost frame = spec_frame(width, height, *camera, objects@, lights@, is_day);
    let n: usize = framebuffer.buffer.len();
    proof {
        lemma_block_bounds(width as int, height as int, split_y as int);
    }
    let top = render_rows(width, height, camera, objects, lights, is_day, 0, split_y);
    let bottom = render_rows(width, height, camera, objects, lights, is_day, split_y, height);
    commit_rows(framebuffer, 0, &top);
    commit_rows(framebuffer, split_y, &bottom);
    proof {
        let w = width as int;
        let s = split_y as int;
        assert forall|k: int| 0 <= k < framebuffer.buffer@.len() implies framebuffer.buffer@[k]
            == frame[k] by {
            if k < w * s {
                assert(framebuffer.buffer@[k] == top@[k]);
                assert(top@[k] == frame[k]);
            } else {
                assert(framebuffer.buffer@[k] == bottom@[k - w * s]);
                assert(bottom@[k - w * s] == frame[k]);
            }
        }
        assert(framebuffer.buffer@ =~= frame);
    }
    camera.mark_rendered();
}

/// Row blocks fit inside the frame.
proof fn lemma_block_bounds(w: int, h: int, s: int)
    by (nonlinear_arith)
    requires
        0 <= w,
        0 <= s <= h,
    ensures
        s * w <= h * w,
        w * s + (h - s) * w == w * h,
        (s - 0) * w == w * s,
{
}

/// Any two frames of the same scene, camera, lights and mode are pixel
/// for pixel identical: rendering is deterministic, so a parallel
/// schedule of the per-pixel work produces the same frame as the
/// sequential loop.
pub proof fn lemma_render_deterministic(
    b1: Seq<Color>,
    b2: Seq<Color>,
    width: usize,
    height: usize,
    camera: Camera,
    objects: Seq<Primitive>,
    lights: Seq<Light>,
    is_day: bool,
)
    requires
        b1 == spec_frame(width, height, camera, objects, lights, is_day),
        b2 == spec_frame(width, height, camera, objects, lights, is_day),
    ensures
        b1 == b2,
{
}

} // verus!
