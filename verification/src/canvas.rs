//! The in-memory pixel buffer that rendering writes into.

use vstd::prelude::*;
use crate::color::{Color, spec_black};

verus! {

pub struct Canvas {
    buffer: Vec<Color>,
    width: usize,
    height: usize,
}

impl Canvas {
    pub closed spec fn spec_width(&self) -> usize {
        self.width
    }

    pub closed spec fn spec_height(&self) -> usize {
        self.height
    }

    /// The pixels in row-major order.
    pub closed spec fn spec_pixels(&self) -> Seq<Color> {
        self.buffer@
    }

    /// The buffer holds exactly one color per pixel.
    pub open spec fn wf(&self) -> bool {
        self.spec_pixels().len() == self.spec_width() * self.spec_height()
    }

    /// A canvas of the given size with every pixel black.
    pub fn new(width: usize, height: usize) -> (r: Canvas)
        requires
            width * height <= usize::MAX,
        ensures
            r.wf(),
            r.spec_width() == width,
            r.spec_height() == height,
            forall|i: int|
                0 <= i < r.spec_pixels().len() ==> #[trigger] r.spec_pixels()[i] == spec_black(),
    {
        let n: usize = width * height;
        let mut buffer: Vec<Color> = Vec::new();
        let mut i: usize = 0;
        while i < n
            invariant
                i <= n,
                buffer@.len() == i,
                forall|k: int| 0 <= k < i ==> #[trigger] buffer@[k] == spec_black(),
            decreases n - i,
        {
            buffer.push(Color::black());
            i = i + 1;
        }
        Canvas { buffer, width, height }
    }

    pub fn width(&self) -> (r: usize)
        ensures
            r == self.spec_width(),
    {
        self.width
    }

    pub fn height(&self) -> (r: usize)
        ensures
            r == self.spec_height(),
    {
        self.height
    }

    pub fn pixel_at(&self, x: usize, y: usize) -> (r: Color)
        requires
            self.wf(),
            x < self.spec_width(),
            y < self.spec_height(),
        ensures
            r == self.spec_pixels()[y * self.spec_width() + x],
    {
        proof {
            vstd::std_specs::vec::axiom_spec_len(&self.buffer);
            lemma_pixel_index_bound(x as int, y as int, self.spec_width() as int,
                self.spec_height() as int);
        }
        self.buffer[(y * self.width) + x]
    }

    pub fn write_pixel(&mut self, x: usize, y: usize, c: Color)
        requires
            old(self).wf(),
            x < old(self).spec_width(),
            y < old(self).spec_height(),
        ensures
            final(self).wf(),
            final(self).spec_width() == old(self).spec_width(),
            final(self).spec_height() == old(self).spec_height(),
            final(self).spec_pixels() == old(self).spec_pixels().update(
                y * old(self).spec_width() + x,
                c,
            ),
    {
        proof {
            vstd::std_specs::vec::axiom_spec_len(&self.buffer);
            lemma_pixel_index_bound(x as int, y as int, self.spec_width() as int,
                self.spec_height() as int);
        }
        let idx: usize = (y * self.width) + x;
        self.buffer[idx] = c;
    }

    pub fn pixels(&self) -> (r: &Vec<Color>)
        ensures
            r@ == self.spec_pixels(),
    {
        &self.buffer
    }
}

proof fn lemma_pixel_index_bound(x: int, y: int, w: int, h: int)
    requires
        0 <= x < w,
        0 <= y < h,
    ensures
        0 <= y * w + x < w * h,
{
    assert(y * w + x < w * h) by (nonlinear_arith)
        requires
            0 <= x < w,
            0 <= y < h,
    ;
    assert(y * w >= 0) by (nonlinear_arith)
        requires
            y >= 0,
            w > 0,
    ;
}

} // verus!
