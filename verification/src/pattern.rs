//! Procedural surface patterns, evaluated in pattern-local space through
//! the pattern's own transform (and the owning shape's transform).

use vstd::prelude::*;
use crate::color::{Color, spec_color_add, spec_color_sub, spec_color_mul_scalar};
use crate::fx::{
    fx_mul, fx_add, fx_sqrt, fx_abs, floor_units, ceil_units, even, EPSILON, FX_ONE,
    spec_floor_units, spec_ceil_units, is_even, iabs,
};
use crate::matrix::{spec_identity, spec_inverse, spec_mat_mul, spec_tuple_mul};
use crate::shape::Shape;
use crate::transform::{
    Transform, transform_wf, transform_invertible, spec_translation, spec_scaling,
    spec_rotation_x, spec_rotation_y, spec_rotation_z, spec_shearing,
};
use crate::tuple::Tuple;
use vstd::arithmetic::div_mod::{lemma_fundamental_div_mod, lemma_mod_division_less_than_divisor};

verus! {

#[derive(Clone, Copy, Debug, PartialEq, Eq, Structural)]
pub enum PatternType {
    Stripes,
    Gradient,
    Rings,
    Checkered,
    /// Diagnostic pattern: the color is the pattern-space point itself.
    Test,
}

#[derive(Debug)]
pub struct Pattern {
    pub a: Color,
    pub b: Color,
    pub kind: PatternType,
    pub transform: Transform,
}

pub ghost struct PatternView {
    pub a: Color,
    pub b: Color,
    pub kind: PatternType,
    pub transform: Seq<Seq<i64>>,
}

impl View for Pattern {
    type V = PatternView;

    open spec fn view(&self) -> PatternView {
        PatternView { a: self.a, b: self.b, kind: self.kind, transform: self.transform.matrix@ }
    }
}

pub open spec fn pattern_wf(p: PatternView) -> bool {
    crate::matrix::mat_wf(p.transform) && p.transform.len() == 4 && crate::matrix::spec_det(
        p.transform,
    ) != 0
}

/// The fractional part of a scalar: `a` minus the greatest whole unit
/// below it, always in `[0, 1)`.
pub open spec fn spec_fract(a: i64) -> i64 {
    ((a as int) % (FX_ONE as int)) as i64
}

/// The whole-unit coordinate used by the checkerboard: the ceiling when
/// `a` lies within `EPSILON` below it, else the floor.
pub open spec fn spec_snap_units(a: i64) -> int {
    let c = spec_ceil_units(a);
    if iabs(c * (FX_ONE as int) - a) < EPSILON {
        c
    } else {
        spec_floor_units(a)
    }
}

/// The pattern color at a point already in pattern space.
pub open spec fn spec_pattern_color_at(p: PatternView, pos: Tuple) -> Color {
    match p.kind {
        PatternType::Stripes => if is_even(spec_floor_units(pos.x)) {
            p.a
        } else {
            p.b
        },
        PatternType::Gradient => {
            let distance = spec_color_sub(p.b, p.a);
            let fraction = spec_fract(pos.x);
            spec_color_add(p.a, spec_color_mul_scalar(distance, fraction))
        },
        PatternType::Rings => {
            let d = fx_sqrt(fx_add(fx_mul(pos.x, pos.x), fx_mul(pos.z, pos.z)));
            if is_even(spec_floor_units(d)) {
                p.a
            } else {
                p.b
            }
        },
        PatternType::Checkered => {
            let s = spec_snap_units(pos.x) + spec_snap_units(pos.y) + spec_snap_units(pos.z);
            if is_even(s) {
                p.a
            } else {
                p.b
            }
        },
        PatternType::Test => Color { red: pos.x, blue: pos.z, green: pos.y },
    }
}

/// The pattern color at a world-space point on a shape: the point passes
/// through the inverse of the shape's transform, then the inverse of the
/// pattern's own transform.
pub open spec fn spec_color_at_object(p: PatternView, obj_t: Seq<Seq<i64>>, pos: Tuple) -> Color {
    let object_point = spec_tuple_mul(spec_inverse(obj_t), pos);
    let pattern_point = spec_tuple_mul(spec_inverse(p.transform), object_point);
    spec_pattern_color_at(p, pattern_point)
}

fn fract(a: i64) -> (r: i64)
    ensures
        r == spec_fract(a),
        0 <= r < FX_ONE,
{
    let f: i64 = floor_units(a);
    proof {
        crate::fx::lemma_scale_mul_bound(f);
        lemma_fundamental_div_mod(a as int, FX_ONE as int);
        lemma_mod_division_less_than_divisor(a as int, FX_ONE as int);
    }
    let r128: i128 = a as i128 - (f as i128) * (FX_ONE as i128);
    r128 as i64
}

fn snap_units(a: i64) -> (u: i64)
    ensures
        u as int == spec_snap_units(a),
{
    let c: i64 = ceil_units(a);
    proof {
        crate::fx::lemma_scale_mul_bound(c);
    }
    let diff: i128 = (c as i128) * (FX_ONE as i128) - a as i128;
    let mag: i128 = if diff < 0 {
        -diff
    } else {
        diff
    };
    if mag < EPSILON as i128 {
        c
    } else {
        floor_units(a)
    }
}

impl Clone for Pattern {
    fn clone(&self) -> (r: Self)
        ensures
            r@ == self@,
    {
        Pattern {
            a: self.a,
            b: self.b,
            kind: self.kind,
            transform: Transform { matrix: self.transform.matrix.clone() },
        }
    }
}

impl Pattern {
    pub fn stripes(a: Color, b: Color) -> (r: Pattern)
        ensures
            r@ == (PatternView { a, b, kind: PatternType::Stripes, transform: spec_identity() }),
    {
        Pattern { a, b, kind: PatternType::Stripes, transform: Transform::new() }
    }

    pub fn gradient(a: Color, b: Color) -> (r: Pattern)
        ensures
            r@ == (PatternView { a, b, kind: PatternType::Gradient, transform: spec_identity() }),
    {
        Pattern { a, b, kind: PatternType::Gradient, transform: Transform::new() }
    }

    pub fn rings(a: Color, b: Color) -> (r: Pattern)
        ensures
            r@ == (PatternView { a, b, kind: PatternType::Rings, transform: spec_identity() }),
    {
        Pattern { a, b, kind: PatternType::Rings, transform: Transform::new() }
    }

    pub fn checkered(a: Color, b: Color) -> (r: Pattern)
        ensures
            r@ == (PatternView { a, b, kind: PatternType::Checkered, transform: spec_identity() }),
    {
        Pattern { a, b, kind: PatternType::Checkered, transform: Transform::new() }
    }

    pub fn test_pattern() -> (r: Pattern)
        ensures
            r@ == (PatternView {
                a: crate::color::spec_white(),
                b: crate::color::spec_black(),
                kind: PatternType::Test,
                transform: spec_identity(),
            }),
    {
        Pattern {
            a: Color::white(),
            b: Color::black(),
            kind: PatternType::Test,
            transform: Transform::new(),
        }
    }

    pub fn color_at(&self, pos: Tuple) -> (r: Color)
        ensures
            r == spec_pattern_color_at(self@, pos),
    {
        match self.kind {
            PatternType::Stripes => {
                let u: i64 = floor_units(pos.x);
                if even(u as i128) {
                    self.a
                } else {
                    self.b
                }
            },
            PatternType::Gradient => {
                let distance: Color = self.b.sub(&self.a);
                let fraction: i64 = fract(pos.x);
                self.a.add(&distance.mul_scalar(fraction))
            },
            PatternType::Rings => {
                let x_squared: i64 = fx_mul(pos.x, pos.x);
                let z_squared: i64 = fx_mul(pos.z, pos.z);
                let d: i64 = fx_sqrt(fx_add(x_squared, z_squared));
                let u: i64 = floor_units(d);
                if even(u as i128) {
                    self.a
                } else {
                    self.b
                }
            },
            PatternType::Checkered => {
                let sx: i64 = snap_units(pos.x);
                let sy: i64 = snap_units(pos.y);
                let sz: i64 = snap_units(pos.z);
                let sum: i128 = sx as i128 + sy as i128 + sz as i128;
                if even(sum) {
                    self.a
                } else {
                    self.b
                }
            },
            PatternType::Test => Color { red: pos.x, blue: pos.z, green: pos.y },
        }
    }

    pub fn color_at_object(&self, object: &Shape, pos: Tuple) -> (r: Color)
        requires
            transform_invertible(object.transform),
            transform_invertible(self.transform),
        ensures
            r == spec_color_at_object(self@, object.transform.matrix@, pos),
    {
        let obj_transform: Transform = object.transform().inverse();
        let object_point: Tuple = obj_transform.transform(&pos);
        let pattern_transform: Transform = self.transform.inverse();
        let pattern_point: Tuple = pattern_transform.transform(&object_point);
        self.color_at(pattern_point)
    }

    pub fn scale(&mut self, x: i64, y: i64, z: i64)
        requires
            transform_wf(old(self).transform),
        ensures
            final(self)@ == (PatternView {
                transform: spec_mat_mul(spec_scaling(x, y, z), old(self)@.transform),
                ..old(self)@
            }),
            transform_wf(final(self).transform),
    {
        let t: Transform = self.transform.scale(x, y, z);
        self.transform = t;
    }

    pub fn translate(&mut self, x: i64, y: i64, z: i64)
        requires
            transform_wf(old(self).transform),
        ensures
            final(self)@ == (PatternView {
                transform: spec_mat_mul(spec_translation(x, y, z), old(self)@.transform),
                ..old(self)@
            }),
            transform_wf(final(self).transform),
    {
        let t: Transform = self.transform.translate(x, y, z);
        self.transform = t;
    }

    pub fn rotate_x(&mut self, sin_r: i64, cos_r: i64)
        requires
            transform_wf(old(self).transform),
        ensures
            final(self)@ == (PatternView {
                transform: spec_mat_mul(spec_rotation_x(sin_r, cos_r), old(self)@.transform),
                ..old(self)@
            }),
            transform_wf(final(self).transform),
    {
        let t: Transform = self.transform.rotate_x(sin_r, cos_r);
        self.transform = t;
    }

    pub fn rotate_y(&mut self, sin_r: i64, cos_r: i64)
        requires
            transform_wf(old(self).transform),
        ensures
            final(self)@ == (PatternView {
                transform: spec_mat_mul(spec_rotation_y(sin_r, cos_r), old(self)@.transform),
                ..old(self)@
            }),
            transform_wf(final(self).transform),
    {
        let t: Transform = self.transform.rotate_y(sin_r, cos_r);
        self.transform = t;
    }

    pub fn rotate_z(&mut self, sin_r: i64, cos_r: i64)
        requires
            transform_wf(old(self).transform),
        ensures
            final(self)@ == (PatternView {
                transform: spec_mat_mul(spec_rotation_z(sin_r, cos_r), old(self)@.transform),
                ..old(self)@
            }),
            transform_wf(final(self).transform),
    {
        let t: Transform = self.transform.rotate_z(sin_r, cos_r);
        self.transform = t;
    }

    pub fn shear(&mut self, xy: i64, xz: i64, yx: i64, yz: i64, zx: i64, zy: i64)
        requires
            transform_wf(old(self).transform),
        ensures
            final(self)@ == (PatternView {
                transform: spec_mat_mul(
                    spec_shearing(xy, xz, yx, yz, zx, zy),
                    old(self)@.transform,
                ),
                ..old(self)@
            }),
            transform_wf(final(self).transform),
    {
        let t: Transform = self.transform.shear(xy, xz, yx, yz, zx, zy);
        self.transform = t;
    }
}

/// Stepping one whole unit along an axis moves the checkerboard
/// coordinate by exactly one.
proof fn lemma_snap_shift(a: i64)
    requires
        a <= crate::fx::FX_MAX - FX_ONE,
    ensures
        spec_snap_units((a + FX_ONE) as i64) == spec_snap_units(a) + 1,
{
    vstd::arithmetic::div_mod::lemma_div_minus_one(-(a as int), FX_ONE as int);
    vstd::arithmetic::div_mod::lemma_div_plus_one(a as int, FX_ONE as int);
}

/// The checkerboard alternates its two colors exactly at whole-unit
/// boundaries, on each of the three axes independently: moving a point by
/// one unit along any single axis swaps which of the pattern's two colors
/// it shows.
pub proof fn lemma_checkerboard_alternates(p: PatternView, pos: Tuple)
    requires
        p.kind == PatternType::Checkered,
        pos.x <= crate::fx::FX_MAX - FX_ONE,
        pos.y <= crate::fx::FX_MAX - FX_ONE,
        pos.z <= crate::fx::FX_MAX - FX_ONE,
    ensures
        (spec_pattern_color_at(p, Tuple { x: (pos.x + FX_ONE) as i64, ..pos }) == p.b)
            <==> (spec_pattern_color_at(p, pos) == p.a),
        (spec_pattern_color_at(p, Tuple { y: (pos.y + FX_ONE) as i64, ..pos }) == p.b)
            <==> (spec_pattern_color_at(p, pos) == p.a),
        (spec_pattern_color_at(p, Tuple { z: (pos.z + FX_ONE) as i64, ..pos }) == p.b)
            <==> (spec_pattern_color_at(p, pos) == p.a),
{
    lemma_snap_shift(pos.x);
    lemma_snap_shift(pos.y);
    lemma_snap_shift(pos.z);
    let s = spec_snap_units(pos.x) + spec_snap_units(pos.y) + spec_snap_units(pos.z);
    crate::fx::lemma_even_succ(s);
}

} // verus!
