//! Rays: an origin point and a direction vector.

use vstd::prelude::*;
use crate::tuple::{Tuple, spec_add, spec_mul_scalar};

verus! {

#[derive(Clone, Copy, Debug, PartialEq, Eq, Structural)]
pub struct Ray {
    pub origin: Tuple,
    pub direction: Tuple,
}

/// The point `origin + direction * t`.
pub open spec fn spec_position(r: Ray, t: i64) -> Tuple {
    spec_add(r.origin, spec_mul_scalar(r.direction, t))
}

impl Ray {
    pub fn new(origin: Tuple, direction: Tuple) -> (r: Ray)
        ensures
            r == (Ray { origin, direction }),
    {
        Ray { origin, direction }
    }

    pub fn position(&self, t: i64) -> (r: Tuple)
        ensures
            r == spec_position(*self, t),
    {
        self.origin.add(&self.direction.mul_scalar(t))
    }
}

} // verus!
