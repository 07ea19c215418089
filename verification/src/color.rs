//! RGB colors over fixed-point channels.

use vstd::prelude::*;
use crate::fx::{fx_add, fx_sub, fx_mul, near_equal, spec_near, FX_ONE};

verus! {

#[derive(Clone, Copy, Debug, PartialEq, Eq, Structural)]
pub struct Color {
    pub red: i64,
    pub blue: i64,
    pub green: i64,
}

/// Channelwise approximate equality: every channel within `EPSILON`.
pub open spec fn spec_color_near(a: Color, b: Color) -> bool {
    spec_near(a.red, b.red) && spec_near(a.green, b.green) && spec_near(a.blue, b.blue)
}

pub open spec fn spec_color_add(a: Color, b: Color) -> Color {
    Color {
        red: fx_add(a.red, b.red),
        blue: fx_add(a.blue, b.blue),
        green: fx_add(a.green, b.green),
    }
}

pub open spec fn spec_color_sub(a: Color, b: Color) -> Color {
    Color {
        red: fx_sub(a.red, b.red),
        blue: fx_sub(a.blue, b.blue),
        green: fx_sub(a.green, b.green),
    }
}

pub open spec fn spec_color_mul_scalar(a: Color, s: i64) -> Color {
    Color {
        red: fx_mul(a.red, s),
        blue: fx_mul(a.blue, s),
        green: fx_mul(a.green, s),
    }
}

/// Channelwise (Hadamard) product of two colors.
pub open spec fn spec_color_mul(a: Color, b: Color) -> Color {
    Color {
        red: fx_mul(a.red, b.red),
        blue: fx_mul(a.blue, b.blue),
        green: fx_mul(a.green, b.green),
    }
}

pub open spec fn spec_black() -> Color {
    Color { red: 0, blue: 0, green: 0 }
}

pub open spec fn spec_white() -> Color {
    Color { red: FX_ONE, blue: FX_ONE, green: FX_ONE }
}

/// A channel scaled by 255, clamped to `[0, 255]` and rounded to the
/// nearest whole unit.
pub open spec fn spec_channel_to_int(v: i64) -> u8 {
    let m = fx_mul(v, 25_500_000_000i64);
    let c = if m < 0 {
        0
    } else if m > 25_500_000_000i64 {
        25_500_000_000int
    } else {
        m as int
    };
    ((c + 50_000_000) / (FX_ONE as int)) as u8
}

fn channel_to_int(v: i64) -> (r: u8)
    ensures
        r == spec_channel_to_int(v),
{
    let m: i64 = fx_mul(v, 25_500_000_000i64);
    let c: u64 = if m < 0 {
        0
    } else if m > 25_500_000_000i64 {
        25_500_000_000u64
    } else {
        m as u64
    };
    let u: u64 = (c + 50_000_000) / (FX_ONE as u64);
    u as u8
}

impl Color {
    pub fn new(red: i64, green: i64, blue: i64) -> (r: Color)
        ensures
            r == (Color { red, blue, green }),
    {
        Color { red, blue, green }
    }

    pub fn black() -> (r: Color)
        ensures
            r == spec_black(),
    {
        Color { red: 0, blue: 0, green: 0 }
    }

    pub fn white() -> (r: Color)
        ensures
            r == spec_white(),
    {
        Color { red: FX_ONE, blue: FX_ONE, green: FX_ONE }
    }

    pub fn approx_eq(&self, other: &Color) -> (r: bool)
        ensures
            r == spec_color_near(*self, *other),
    {
        near_equal(self.red, other.red) && near_equal(self.green, other.green)
            && near_equal(self.blue, other.blue)
    }

    pub fn add(&self, other: &Color) -> (r: Color)
        ensures
            r == spec_color_add(*self, *other),
    {
        Color {
            red: fx_add(self.red, other.red),
            blue: fx_add(self.blue, other.blue),
            green: fx_add(self.green, other.green),
        }
    }

    pub fn sub(&self, other: &Color) -> (r: Color)
        ensures
            r == spec_color_sub(*self, *other),
    {
        Color {
            red: fx_sub(self.red, other.red),
            blue: fx_sub(self.blue, other.blue),
            green: fx_sub(self.green, other.green),
        }
    }

    pub fn mul_scalar(&self, s: i64) -> (r: Color)
        ensures
            r == spec_color_mul_scalar(*self, s),
    {
        Color {
            red: fx_mul(self.red, s),
            blue: fx_mul(self.blue, s),
            green: fx_mul(self.green, s),
        }
    }

    pub fn mul_color(&self, other: &Color) -> (r: Color)
        ensures
            r == spec_color_mul(*self, *other),
    {
        Color {
            red: fx_mul(self.red, other.red),
            blue: fx_mul(self.blue, other.blue),
            green: fx_mul(self.green, other.green),
        }
    }

    pub fn red_to_int(&self) -> (r: u8)
        ensures
            r == spec_channel_to_int(self.red),
    {
        channel_to_int(self.red)
    }

    pub fn green_to_int(&self) -> (r: u8)
        ensures
            r == spec_channel_to_int(self.green),
    {
        channel_to_int(self.green)
    }

    pub fn blue_to_int(&self) -> (r: u8)
        ensures
            r == spec_channel_to_int(self.blue),
    {
        channel_to_int(self.blue)
    }
}

} // verus!
