//! The pixel grid a frame is rendered into.

use vstd::prelude::*;
use crate::color::{spec_color_to_hex, Color};

verus! {

pub struct FrameBuffer {
    pub width: usize,
    pub height: usize,
    /// Row-major pixels: the pixel at (x, y) lives at `width * y + x`.
    pub buffer: Vec<Color>,
    pub background_color: Color,
    pub current_color: Color,
}

impl FrameBuffer {
    /// The buffer holds exactly one color per pixel coordinate.
    pub open spec fn wf(&self) -> bool {
        self.buffer@.len() == self.width as int * self.height as int
    }

    /// A fresh buffer, every pixel and both scratch colors white.
    pub fn new(width: usize, height: usize) -> (fb: FrameBuffer)
        requires
            width * height <= usize::MAX,
        ensures
            fb.wf(),
            fb.width == width,
            fb.height == height,
            forall|i: int|
                0 <= i < fb.buffer@.len() ==> fb.buffer@[i] == (Color { r: 255, g: 255, b: 255 }),
            fb.background_color == (Color { r: 255, g: 255, b: 255 }),
            fb.current_color == (Color { r: 255, g: 255, b: 255 }),
    {
        let default_color = Color::new(255, 255, 255);
        let n: usize = width * height;
        let mut buffer: Vec<Color> = Vec::new();
        let mut i: usize = 0;
        while i < n
            invariant
                i <= n,
                buffer@.len() == i,
                default_color == (Color { r: 255, g: 255, b: 255 }),
                forall|j: int| 0 <= j < i ==> buffer@[j] == (Color { r: 255, g: 255, b: 255 }),
            decreases n - i,
        {
            buffer.push(default_color);
            i = i + 1;
        }
        FrameBuffer {
            width,
            height,
            buffer,
            background_color: default_color,
            current_color: default_color,
        }
    }

    /// Overwrite every pixel with the background color.
    pub fn clear(&mut self)
        ensures
            final(self).width == old(self).width,
            final(self).height == old(self).height,
            final(self).background_color == old(self).background_color,
            final(self).current_color == old(self).current_color,
            final(self).buffer@.len() == old(self).buffer@.len(),
            forall|i: int|
                0 <= i < final(self).buffer@.len()
                    ==> final(self).buffer@[i] == old(self).background_color,
    {
        let n: usize = self.buffer.len();
        let bg = self.background_color;
        let mut i: usize = 0;
        while i < n
            invariant
                i <= n,
                self.buffer@.len() == n,
                self.width == old(self).width,
                self.height == old(self).height,
                self.background_color == old(self).background_color,
                self.current_color == old(self).current_color,
                bg == old(self).background_color,
                forall|j: int| 0 <= j < i ==> self.buffer@[j] == bg,
            decreases n - i,
        {
            self.buffer[i] = bg;
            i = i + 1;
        }
    }

    /// Paint the pixel at (x, y) with the current color.
    pub fn point(&mut self, x: usize, y: usize)
        requires
            old(self).wf(),
            x < old(self).width,
            y < old(self).height,
        ensures
            final(self).wf(),
            final(self).width == old(self).width,
            final(self).height == old(self).height,
            final(self).background_color == old(self).background_color,
            final(self).current_color == old(self).current_color,
            final(self).buffer@ == old(self).buffer@.update(
                old(self).width as int * y as int + x as int,
                old(self).current_color,
            ),
    {
        proof {
            lemma_pixel_in_range(x as int, y as int, self.width as int, self.height as int);
        }
        let n: usize = self.buffer.len();
        assert((self.width as int) * (y as int) + (x as int) < (n as int));
        let idx: usize = self.width * y + x;
        let c = self.current_color;
        self.buffer[idx] = c;
    }

    pub fn set_background_color(&mut self, color: Color)
        ensures
            *final(self) == (FrameBuffer { background_color: color, ..*old(self) }),
    {
        self.background_color = color;
    }

    /// Read the pixel at (x, y).
    pub fn get_color(&mut self, x: usize, y: usize) -> (c: Color)
        requires
            old(self).wf(),
            x < old(self).width,
            y < old(self).height,
        ensures
            *final(self) == *old(self),
            c == final(self).buffer@[final(self).width as int * y as int + x as int],
    {
        proof {
            lemma_pixel_in_range(x as int, y as int, self.width as int, self.height as int);
        }
        let n: usize = self.buffer.len();
        assert((self.width as int) * (y as int) + (x as int) < (n as int));
        let idx: usize = self.width * y + x;
        self.buffer[idx]
    }

    pub fn set_current_color(&mut self, color: Color)
        ensures
            *final(self) == (FrameBuffer { current_color: color, ..*old(self) }),
    {
        self.current_color = color;
    }

    /// The frame as packed 0xRRGGBB words, in buffer order.
    pub fn cast_buffer(&self) -> (casted: Vec<u32>)
        ensures
            casted@.len() == self.buffer@.len(),
            forall|i: int|
                0 <= i < casted@.len() ==> casted@[i] == spec_color_to_hex(self.buffer@[i]),
    {
        let n: usize = self.buffer.len();
        let mut casted_vector: Vec<u32> = Vec::with_capacity(n);
        let mut i: usize = 0;
        while i < n
            invariant
                i <= n,
                n == self.buffer@.len(),
                casted_vector@.len() == i,
                forall|j: int|
                    0 <= j < i ==> casted_vector@[j] == spec_color_to_hex(self.buffer@[j]),
            decreases n - i,
        {
            let h = self.buffer[i].to_hex();
            casted_vector.push(h);
            i = i + 1;
        }
        casted_vector
    }
}

/// A pixel's row-major index lies inside the buffer.
proof fn lemma_pixel_in_range(x: int, y: int, w: int, h: int)
    by (nonlinear_arith)
    requires
        0 <= x < w,
        0 <= y < h,
    ensures
        0 <= w * y + x < w * h,
{
}

} // verus!
