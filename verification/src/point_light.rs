//! Point light sources.

use vstd::prelude::*;
use crate::color::Color;
use crate::tuple::Tuple;

verus! {

#[derive(Clone, Copy, Debug, PartialEq, Eq, Structural)]
pub struct PointLight {
    pub position: Tuple,
    pub intensity: Color,
    pub id: usize,
}

impl PointLight {
    /// A light at `position` with the given intensity; its id is assigned
    /// when it is registered with a world.
    pub fn new(position: Tuple, intensity: Color) -> (r: PointLight)
        ensures
            r == (PointLight { position, intensity, id: 0usize }),
    {
        PointLight { position, intensity, id: 0 }
    }
}

} // verus!
