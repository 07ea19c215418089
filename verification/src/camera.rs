//! The virtual camera: maps pixel coordinates to world-space rays through
//! the inverse of its view transform, and drives the per-pixel render
//! loop.
//!
//! Since trigonometry is outside fixed-point arithmetic, the constructor
//! takes `half_view` — the tangent of half the field of view — instead of
//! the angle itself.

use vstd::prelude::*;
use crate::canvas::Canvas;
use crate::fx::{
    fx_mul, fx_add, fx_sub, fx_div, fx_neg, floor_units, units_to_fx, spec_floor_units, FX_ONE,
};
use crate::matrix::{mat4_invertible, spec_identity, spec_inverse, spec_tuple_mul};
use crate::ray::Ray;
use crate::transform::Transform;
use crate::tuple::{Tuple, spec_sub, spec_normalize};
use crate::world::{World, world_wf, WorldView, spec_color_at};
use crate::MAX_REFLECT_DEPTH;
use vstd::arithmetic::div_mod::lemma_fundamental_div_mod_converse_div;

verus! {

#[derive(Debug)]
pub struct Camera {
    pub hsize: i64,
    pub vsize: i64,
    pub half_width: i64,
    pub half_height: i64,
    pub half_view: i64,
    pub pixel_size: i64,
    pub transform: Transform,
}

pub ghost struct CameraView {
    pub hsize: i64,
    pub vsize: i64,
    pub half_width: i64,
    pub half_height: i64,
    pub half_view: i64,
    pub pixel_size: i64,
    pub transform: Seq<Seq<i64>>,
}

impl View for Camera {
    type V = CameraView;

    open spec fn view(&self) -> CameraView {
        CameraView {
            hsize: self.hsize,
            vsize: self.vsize,
            half_width: self.half_width,
            half_height: self.half_height,
            half_view: self.half_view,
            pixel_size: self.pixel_size,
            transform: self.transform.matrix@,
        }
    }
}

/// A camera whose view transform can be inverted.
pub open spec fn camera_wf(c: CameraView) -> bool {
    mat4_invertible(c.transform)
}

/// The derived camera fields: the half extents follow the aspect ratio,
/// and a pixel covers `2 * half_width / hsize` world units.
pub open spec fn spec_camera_new(hsize: i64, vsize: i64, half_view: i64) -> CameraView {
    let aspect = fx_div(hsize, vsize);
    let half_width = if aspect >= FX_ONE {
        half_view
    } else {
        fx_mul(half_view, aspect)
    };
    let half_height = if aspect >= FX_ONE {
        fx_div(half_view, aspect)
    } else {
        half_view
    };
    CameraView {
        hsize,
        vsize,
        half_width,
        half_height,
        half_view,
        pixel_size: fx_div(fx_mul(half_width, 200_000_000), hsize),
        transform: spec_identity(),
    }
}

/// The world-space ray through the center of pixel `(px, py)`: offsets
/// from the upper-left corner, carried through the inverse of the view
/// transform.
pub open spec fn spec_ray_for_pixel(c: CameraView, px: i64, py: i64) -> Ray {
    let xoffset = fx_mul(fx_add(px, 50_000_000), c.pixel_size);
    let yoffset = fx_mul(fx_add(py, 50_000_000), c.pixel_size);
    let world_x = fx_sub(c.half_width, xoffset);
    let world_y = fx_sub(c.half_height, yoffset);
    let inv = spec_inverse(c.transform);
    let pixel = spec_tuple_mul(inv, Tuple { x: world_x, y: world_y, z: fx_neg(FX_ONE), w: FX_ONE });
    let origin = spec_tuple_mul(inv, Tuple { x: 0i64, y: 0i64, z: 0i64, w: FX_ONE });
    Ray { origin, direction: spec_normalize(spec_sub(pixel, origin)) }
}

use crate::color::Color;

/// The color the render loop writes at pixel `(x, y)`: the world queried
/// along the pixel's ray with the standard recursion budget.
pub open spec fn spec_render_pixel(c: CameraView, w: WorldView, x: int, y: int) -> Color {
    spec_color_at(
        w,
        spec_ray_for_pixel(c, (x * (FX_ONE as int)) as i64, (y * (FX_ONE as int)) as i64),
        MAX_REFLECT_DEPTH as int,
    )
}

proof fn lemma_pixel_index_injective(a1: int, b1: int, a2: int, b2: int, w: int)
    requires
        0 <= a1 < w,
        0 <= a2 < w,
        0 <= b1,
        0 <= b2,
        b1 * w + a1 == b2 * w + a2,
    ensures
        a1 == a2 && b1 == b2,
{
    lemma_fundamental_div_mod_converse_div(b1 * w + a1, w, b1, a1);
    lemma_fundamental_div_mod_converse_div(b2 * w + a2, w, b2, a2);
    assert(b1 == (b1 * w + a1) / w && b2 == (b2 * w + a2) / w);
}

impl Camera {
    pub fn new(hsize: i64, vsize: i64, half_view: i64) -> (r: Camera)
        ensures
            r@ == spec_camera_new(hsize, vsize, half_view),
            camera_wf(r@),
    {
        let aspect: i64 = fx_div(hsize, vsize);
        let mut c = Camera {
            hsize,
            vsize,
            half_view,
            transform: Transform::new(),
            half_width: fx_mul(half_view, aspect),
            half_height: half_view,
            pixel_size: 0,
        };
        if aspect >= FX_ONE {
            c.half_width = half_view;
            c.half_height = fx_div(half_view, aspect);
        }
        c.pixel_size = fx_div(fx_mul(c.half_width, 200_000_000), c.hsize);
        proof {
            crate::matrix::lemma_identity_invertible();
        }
        c
    }

    pub fn ray_for_pixel(&self, px: i64, py: i64) -> (r: Ray)
        requires
            camera_wf(self@),
        ensures
            r == spec_ray_for_pixel(self@, px, py),
    {
        let xoffset: i64 = fx_mul(fx_add(px, 50_000_000), self.pixel_size);
        let yoffset: i64 = fx_mul(fx_add(py, 50_000_000), self.pixel_size);
        let world_x: i64 = fx_sub(self.half_width, xoffset);
        let world_y: i64 = fx_sub(self.half_height, yoffset);
        let t: Transform = self.transform.inverse();
        let pixel: Tuple = t.transform(&Tuple::point(world_x, world_y, fx_neg(FX_ONE)));
        let origin: Tuple = t.transform(&Tuple::point(0, 0, 0));
        let direction: Tuple = pixel.sub(&origin).normalize();
        Ray::new(origin, direction)
    }

    /// Render the world: one ray through each pixel center, colors written
    /// into a canvas of `floor(hsize) x floor(vsize)` pixels.
    #[verifier::rlimit(100)]
    pub fn render(&self, world: &World) -> (image: Canvas)
        requires
            camera_wf(self@),
            world_wf(world@),
            0 <= spec_floor_units(self.hsize),
            0 <= spec_floor_units(self.vsize),
            spec_floor_units(self.hsize) <= usize::MAX,
            spec_floor_units(self.vsize) <= usize::MAX,
            spec_floor_units(self.hsize) * spec_floor_units(self.vsize) <= usize::MAX,
        ensures
            image.wf(),
            image.spec_width() == spec_floor_units(self.hsize),
            image.spec_height() == spec_floor_units(self.vsize),
            forall|x: int, y: int|
                0 <= x < image.spec_width() && 0 <= y < image.spec_height()
                    ==> image.spec_pixels()[y * image.spec_width() + x] == spec_render_pixel(
                    self@,
                    world@,
                    x,
                    y,
                ),
    {
        let w_units: i64 = floor_units(self.hsize);
        let h_units: i64 = floor_units(self.vsize);
        let width: usize = w_units as usize;
        let height: usize = h_units as usize;
        let mut image = Canvas::new(width, height);
        let mut y: usize = 0;
        while y < height
            invariant
                camera_wf(self@),
                world_wf(world@),
                width == spec_floor_units(self.hsize),
                height == spec_floor_units(self.vsize),
                width * height <= usize::MAX,
                y <= height,
                image.wf(),
                image.spec_width() == width,
                image.spec_height() == height,
                forall|a: int, b: int|
                    0 <= a < width && 0 <= b < y ==> image.spec_pixels()[b * width + a]
                        == spec_render_pixel(self@, world@, a, b),
            decreases height - y,
        {
            let mut x: usize = 0;
            while x < width
                invariant
                    camera_wf(self@),
                    world_wf(world@),
                    width == spec_floor_units(self.hsize),
                    height == spec_floor_units(self.vsize),
                    width * height <= usize::MAX,
                    y < height,
                    x <= width,
                    image.wf(),
                    image.spec_width() == width,
                    image.spec_height() == height,
                    forall|a: int, b: int|
                        0 <= a < width && 0 <= b < y ==> image.spec_pixels()[b * width + a]
                            == spec_render_pixel(self@, world@, a, b),
                    forall|a: int|
                        0 <= a < x ==> image.spec_pixels()[y * width + a] == spec_render_pixel(
                            self@,
                            world@,
                            a,
                            y as int,
                        ),
                decreases width - x,
            {
                proof {
                    lemma_units_in_range(self.hsize, x as int);
                    lemma_units_in_range(self.vsize, y as int);
                }
                let r: Ray = self.ray_for_pixel(units_to_fx(x as i64), units_to_fx(y as i64));
                let color: Color = world.color_at(&r, MAX_REFLECT_DEPTH);
                let ghost before = image.spec_pixels();
                image.write_pixel(x, y, color);
                proof {
                    assert(color == spec_render_pixel(self@, world@, x as int, y as int));
                    lemma_pixel_index_bounds(x as int, y as int, width as int, height as int);
                    assert forall|a: int, b: int|
                        0 <= a < width && 0 <= b < y implies image.spec_pixels()[b * width + a]
                        == spec_render_pixel(self@, world@, a, b) by {
                        lemma_pixel_index_bounds(a, b, width as int, height as int);
                        assert(before[b * width + a] == spec_render_pixel(self@, world@, a, b));
                        if b * width + a == y * width + x {
                            lemma_pixel_index_injective(a, b, x as int, y as int, width as int);
                        } else {
                            assert(image.spec_pixels()[b * width + a] == before[b * width + a]);
                        }
                    }
                    assert forall|a: int| 0 <= a <= x implies image.spec_pixels()[y * width + a]
                        == spec_render_pixel(self@, world@, a, y as int) by {
                        lemma_pixel_index_bounds(a, y as int, width as int, height as int);
                        if a == x {
                            assert(image.spec_pixels()[y * width + x] == color);
                        } else {
                            assert(before[y * width + a] == spec_render_pixel(
                                self@,
                                world@,
                                a,
                                y as int,
                            ));
                            if y * width + a == y * width + x as int {
                                lemma_pixel_index_injective(a, y as int, x as int, y as int,
                                    width as int);
                            } else {
                                assert(image.spec_pixels()[y * width + a] == before[y * width
                                    + a]);
                            }
                        }
                    }
                }
                x = x + 1;
            }
            y = y + 1;
        }
        image
    }
}

proof fn lemma_pixel_index_bounds(x: int, y: int, w: int, h: int)
    requires
        0 <= x < w,
        0 <= y < h,
    ensures
        0 <= y * w + x < w * h,
{
    assert(0 <= y * w + x < w * h) by (nonlinear_arith)
        requires
            0 <= x < w,
            0 <= y < h,
    ;
}

/// A pixel index within the image stays a whole unit small enough to
/// scale exactly.
proof fn lemma_units_in_range(size: i64, u: int)
    requires
        0 <= u < spec_floor_units(size),
    ensures
        -92_233_720_368 <= u <= 92_233_720_368,
        (u * (FX_ONE as int)) as i64 as int == u * (FX_ONE as int),
{
    assert(spec_floor_units(size) <= 92_233_720_368) by {
        vstd::arithmetic::div_mod::lemma_fundamental_div_mod(size as int, FX_ONE as int);
        vstd::arithmetic::div_mod::lemma_mod_division_less_than_divisor(
            size as int,
            FX_ONE as int,
        );
        assert((size as int) / (FX_ONE as int) <= 92_233_720_368) by (nonlinear_arith)
            requires
                size as int == (FX_ONE as int) * ((size as int) / (FX_ONE as int)) + (size as int)
                    % (FX_ONE as int),
                0 <= (size as int) % (FX_ONE as int) < FX_ONE,
                size <= 0x7fff_ffff_ffff_ffff,
                FX_ONE == 100_000_000,
        ;
    }
    assert(-0x8000_0000_0000_0000 <= u * (FX_ONE as int) <= 0x7fff_ffff_ffff_ffff)
        by (nonlinear_arith)
        requires
            0 <= u <= 92_233_720_368,
    ;
}

} // verus!
