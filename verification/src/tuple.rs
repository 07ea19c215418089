//! Homogeneous 4-component tuples: points (`w` = 1.0) and vectors (`w` = 0).

use vstd::prelude::*;
use crate::fx::{
    fx_add, fx_sub, fx_neg, fx_mul, fx_div, fx_sqrt, near_equal, spec_near, FX_ONE,
};

verus! {

#[derive(Clone, Copy, Debug, PartialEq, Eq, Structural)]
pub struct Tuple {
    pub x: i64,
    pub y: i64,
    pub z: i64,
    pub w: i64,
}

/// Componentwise approximate equality, the notion of tuple equality
/// used throughout: every component within `EPSILON`.
pub open spec fn spec_tuple_near(a: Tuple, b: Tuple) -> bool {
    spec_near(a.x, b.x) && spec_near(a.y, b.y) && spec_near(a.z, b.z) && spec_near(a.w, b.w)
}

pub open spec fn spec_add(a: Tuple, b: Tuple) -> Tuple {
    Tuple { x: fx_add(a.x, b.x), y: fx_add(a.y, b.y), z: fx_add(a.z, b.z), w: fx_add(a.w, b.w) }
}

pub open spec fn spec_sub(a: Tuple, b: Tuple) -> Tuple {
    Tuple { x: fx_sub(a.x, b.x), y: fx_sub(a.y, b.y), z: fx_sub(a.z, b.z), w: fx_sub(a.w, b.w) }
}

pub open spec fn spec_neg(a: Tuple) -> Tuple {
    Tuple { x: fx_neg(a.x), y: fx_neg(a.y), z: fx_neg(a.z), w: fx_neg(a.w) }
}

pub open spec fn spec_mul_scalar(a: Tuple, s: i64) -> Tuple {
    Tuple { x: fx_mul(a.x, s), y: fx_mul(a.y, s), z: fx_mul(a.z, s), w: fx_mul(a.w, s) }
}

pub open spec fn spec_div_scalar(a: Tuple, s: i64) -> Tuple {
    Tuple { x: fx_div(a.x, s), y: fx_div(a.y, s), z: fx_div(a.z, s), w: fx_div(a.w, s) }
}

pub open spec fn spec_dot(a: Tuple, b: Tuple) -> i64 {
    fx_add(
        fx_add(fx_add(fx_mul(a.x, b.x), fx_mul(a.y, b.y)), fx_mul(a.z, b.z)),
        fx_mul(a.w, b.w),
    )
}

pub open spec fn spec_cross(a: Tuple, b: Tuple) -> Tuple {
    Tuple {
        x: fx_sub(fx_mul(a.y, b.z), fx_mul(a.z, b.y)),
        y: fx_sub(fx_mul(a.z, b.x), fx_mul(a.x, b.z)),
        z: fx_sub(fx_mul(a.x, b.y), fx_mul(a.y, b.x)),
        w: 0,
    }
}

pub open spec fn spec_magnitude(a: Tuple) -> i64 {
    fx_sqrt(spec_dot(a, a))
}

/// Normalization; a tuple whose computed magnitude is zero has no
/// direction to keep and is returned unchanged.
pub open spec fn spec_normalize(a: Tuple) -> Tuple {
    let m = spec_magnitude(a);
    if m == 0 {
        a
    } else {
        spec_div_scalar(a, m)
    }
}

/// `a` reflected about the normal `n`: `a - n * 2 * dot(a, n)`.
pub open spec fn spec_reflect(a: Tuple, n: Tuple) -> Tuple {
    spec_sub(a, spec_mul_scalar(n, fx_mul(200_000_000, spec_dot(a, n))))
}

impl Tuple {
    pub fn new(x: i64, y: i64, z: i64, w: i64) -> (r: Tuple)
        ensures
            r == (Tuple { x, y, z, w }),
    {
        Tuple { x, y, z, w }
    }

    pub fn point(x: i64, y: i64, z: i64) -> (r: Tuple)
        ensures
            r == (Tuple { x, y, z, w: FX_ONE }),
    {
        Tuple { x, y, z, w: FX_ONE }
    }

    pub fn vector(x: i64, y: i64, z: i64) -> (r: Tuple)
        ensures
            r == (Tuple { x, y, z, w: 0i64 }),
    {
        Tuple { x, y, z, w: 0 }
    }

    /// The `w` component is (approximately) 1.0.
    pub fn is_point(&self) -> (r: bool)
        ensures
            r == spec_near(self.w, FX_ONE),
    {
        near_equal(self.w, FX_ONE)
    }

    /// The `w` component is (approximately) 0.
    pub fn is_vector(&self) -> (r: bool)
        ensures
            r == spec_near(self.w, 0),
    {
        near_equal(self.w, 0)
    }

    pub fn approx_eq(&self, other: &Tuple) -> (r: bool)
        ensures
            r == spec_tuple_near(*self, *other),
    {
        near_equal(self.x, other.x) && near_equal(self.y, other.y)
            && near_equal(self.z, other.z) && near_equal(self.w, other.w)
    }

    pub fn add(&self, other: &Tuple) -> (r: Tuple)
        ensures
            r == spec_add(*self, *other),
    {
        Tuple {
            x: fx_add(self.x, other.x),
            y: fx_add(self.y, other.y),
            z: fx_add(self.z, other.z),
            w: fx_add(self.w, other.w),
        }
    }

    pub fn sub(&self, other: &Tuple) -> (r: Tuple)
        ensures
            r == spec_sub(*self, *other),
    {
        Tuple {
            x: fx_sub(self.x, other.x),
            y: fx_sub(self.y, other.y),
            z: fx_sub(self.z, other.z),
            w: fx_sub(self.w, other.w),
        }
    }

    pub fn neg(&self) -> (r: Tuple)
        ensures
            r == spec_neg(*self),
    {
        Tuple {
            x: fx_neg(self.x),
            y: fx_neg(self.y),
            z: fx_neg(self.z),
            w: fx_neg(self.w),
        }
    }

    pub fn mul_scalar(&self, s: i64) -> (r: Tuple)
        ensures
            r == spec_mul_scalar(*self, s),
    {
        Tuple {
            x: fx_mul(self.x, s),
            y: fx_mul(self.y, s),
            z: fx_mul(self.z, s),
            w: fx_mul(self.w, s),
        }
    }

    pub fn div_scalar(&self, s: i64) -> (r: Tuple)
        ensures
            r == spec_div_scalar(*self, s),
    {
        Tuple {
            x: fx_div(self.x, s),
            y: fx_div(self.y, s),
            z: fx_div(self.z, s),
            w: fx_div(self.w, s),
        }
    }

    pub fn dot_product(&self, other: &Tuple) -> (r: i64)
        ensures
            r == spec_dot(*self, *other),
    {
        fx_add(
            fx_add(
                fx_add(fx_mul(self.x, other.x), fx_mul(self.y, other.y)),
                fx_mul(self.z, other.z),
            ),
            fx_mul(self.w, other.w),
        )
    }

    pub fn cross_product(&self, other: &Tuple) -> (r: Tuple)
        ensures
            r == spec_cross(*self, *other),
    {
        Tuple {
            x: fx_sub(fx_mul(self.y, other.z), fx_mul(self.z, other.y)),
            y: fx_sub(fx_mul(self.z, other.x), fx_mul(self.x, other.z)),
            z: fx_sub(fx_mul(self.x, other.y), fx_mul(self.y, other.x)),
            w: 0,
        }
    }

    pub fn magnitude(&self) -> (r: i64)
        ensures
            r == spec_magnitude(*self),
    {
        fx_sqrt(self.dot_product(self))
    }

    pub fn normalize(&self) -> (r: Tuple)
        ensures
            r == spec_normalize(*self),
    {
        let m: i64 = self.magnitude();
        if m == 0 {
            *self
        } else {
            self.div_scalar(m)
        }
    }

    pub fn reflect(&self, n: &Tuple) -> (r: Tuple)
        ensures
            r == spec_reflect(*self, *n),
    {
        let d: i64 = self.dot_product(n);
        self.sub(&n.mul_scalar(fx_mul(200_000_000, d)))
    }
}

} // verus!
