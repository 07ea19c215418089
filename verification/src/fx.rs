//! Fixed-point scalars.
//!
//! A scalar is an `i64` holding a real value scaled by `FX_ONE`: the raw
//! value `150_000_000` stands for 1.5. Multiplication and division rescale
//! and round to the nearest representable value (ties away from zero);
//! every operation saturates at `FX_MAX` instead of overflowing, so all
//! scalar operations are total.

use vstd::prelude::*;
use vstd::arithmetic::div_mod::{
    lemma_fundamental_div_mod, lemma_fundamental_div_mod_converse_div,
};

verus! {

/// Raw representation of 1.0.
pub const FX_ONE: i64 = 100_000_000;

/// Comparison tolerance (and surface-offset distance): 0.00001.
pub const EPSILON: i64 = 1_000;

/// Saturation bound: raw values always stay in `[-FX_MAX, FX_MAX]`.
pub const FX_MAX: i64 = i64::MAX;

pub open spec fn iabs(x: int) -> int {
    if x < 0 {
        -x
    } else {
        x
    }
}

/// Saturate an unbounded result into the representable raw range.
pub open spec fn fx_clamp(x: int) -> i64 {
    if x > (FX_MAX as int) {
        FX_MAX
    } else if x < -(FX_MAX as int) {
        (-(FX_MAX as int)) as i64
    } else {
        x as i64
    }
}

/// Quotient of `n / d` rounded to the nearest integer, ties upward
/// (meant for `n >= 0`, `d > 0`, where it equals `floor(n/d + 1/2)`).
pub open spec fn rdiv_nearest(n: int, d: int) -> int {
    (2 * n + d) / (2 * d)
}

pub open spec fn spec_fx_add(a: i64, b: i64) -> i64 {
    fx_clamp(a + b)
}

pub open spec fn spec_fx_sub(a: i64, b: i64) -> i64 {
    fx_clamp(a - b)
}

pub open spec fn spec_fx_neg(a: i64) -> i64 {
    fx_clamp(-a)
}

pub open spec fn spec_fx_abs(a: i64) -> i64 {
    fx_clamp(iabs(a as int))
}

/// Product of two scalars, rescaled and rounded to nearest.
#[verifier::opaque]
pub open spec fn spec_fx_mul(a: i64, b: i64) -> i64 {
    let p = (a as int) * (b as int);
    let m = rdiv_nearest(iabs(p), FX_ONE as int);
    if p >= 0 {
        fx_clamp(m)
    } else {
        fx_clamp(-m)
    }
}

/// Quotient of two scalars, rescaled and rounded to nearest. Division by
/// zero saturates by the sign of the numerator (zero for a zero numerator).
#[verifier::opaque]
pub open spec fn spec_fx_div(a: i64, b: i64) -> i64 {
    if b == 0 {
        if a > 0 {
            FX_MAX
        } else if a < 0 {
            (-(FX_MAX as int)) as i64
        } else {
            0
        }
    } else {
        let n = (a as int) * (FX_ONE as int);
        let m = rdiv_nearest(iabs(n), iabs(b as int));
        if (a as int) * (b as int) >= 0 {
            fx_clamp(m)
        } else {
            fx_clamp(-m)
        }
    }
}

/// Two raw values within `EPSILON` of each other.
pub open spec fn spec_near(a: i64, b: i64) -> bool {
    iabs(a - b) < EPSILON
}

pub open spec fn is_isqrt(n: int, r: int) -> bool {
    0 <= r && r * r <= n && n < (r + 1) * (r + 1)
}

/// The integer square root of `n` (meaningful for `n >= 0`).
pub open spec fn spec_isqrt(n: int) -> int {
    choose|r: int| is_isqrt(n, r)
}

/// Square root of a scalar; nonpositive inputs give zero.
#[verifier::opaque]
pub open spec fn spec_fx_sqrt(a: i64) -> i64 {
    if a <= 0 {
        0
    } else {
        spec_isqrt((a as int) * (FX_ONE as int)) as i64
    }
}

/// `b` raised to the whole-number power `e`, one rounded multiply per step.
#[verifier::opaque]
pub open spec fn spec_fx_pow(b: i64, e: nat) -> i64
    decreases e,
{
    if e == 0 {
        FX_ONE
    } else {
        spec_fx_mul(b, spec_fx_pow(b, (e - 1) as nat))
    }
}

/// Number of whole units below or at `a`: `floor(a / FX_ONE)`.
pub open spec fn spec_floor_units(a: i64) -> int {
    (a as int) / (FX_ONE as int)
}

/// Number of whole units at or above `a`: `ceil(a / FX_ONE)`.
pub open spec fn spec_ceil_units(a: i64) -> int {
    -((-(a as int)) / (FX_ONE as int))
}

pub open spec fn is_even(n: int) -> bool {
    n % 2 == 0
}

/// Multiplying by 1.0 is exact: no rounding happens (for values in the
/// symmetric representable range, which every scalar operation produces).
pub proof fn lemma_fx_mul_one(x: i64)
    requires
        -FX_MAX <= x,
    ensures
        spec_fx_mul(FX_ONE, x) == x,
        spec_fx_mul(x, FX_ONE) == x,
{
    reveal(spec_fx_mul);
    let p = (FX_ONE as int) * (x as int);
    let q = iabs(x as int);
    assert(iabs(p) == 100_000_000 * q);
    let num = 2 * iabs(p) + (FX_ONE as int);
    assert(num == q * 200_000_000 + 100_000_000) by (nonlinear_arith)
        requires
            num == 2 * (100_000_000 * q) + 100_000_000,
    ;
    lemma_fundamental_div_mod_converse_div(num, 200_000_000, q, 100_000_000);
    assert(rdiv_nearest(iabs(p), FX_ONE as int) == q);
    assert((x as int) * (FX_ONE as int) == p) by (nonlinear_arith)
        requires
            p == (FX_ONE as int) * (x as int),
    ;
}

/// Dividing by 1.0 is exact: no rounding happens (for values in the
/// symmetric representable range).
pub proof fn lemma_fx_div_one(x: i64)
    requires
        -FX_MAX <= x,
    ensures
        spec_fx_div(x, FX_ONE) == x,
{
    reveal(spec_fx_div);
    let n = (x as int) * (FX_ONE as int);
    let q = iabs(x as int);
    assert(iabs(n) == q * 100_000_000) by (nonlinear_arith)
        requires
            n == (x as int) * (FX_ONE as int),
            q == iabs(x as int),
            FX_ONE == 100_000_000,
    ;
    let num = 2 * iabs(n) + iabs(FX_ONE as int);
    assert(num == q * 200_000_000 + 100_000_000) by (nonlinear_arith)
        requires
            num == 2 * (q * 100_000_000) + 100_000_000,
    ;
    lemma_fundamental_div_mod_converse_div(num, 200_000_000, q, 100_000_000);
    assert(rdiv_nearest(iabs(n), iabs(FX_ONE as int)) == q);
    assert((x as int) * (FX_ONE as int) >= 0 <==> x >= 0) by (nonlinear_arith);
}

/// Multiplying by zero gives zero.
pub proof fn lemma_fx_mul_zero(x: i64)
    ensures
        spec_fx_mul(0, x) == 0,
        spec_fx_mul(x, 0) == 0,
{
    reveal(spec_fx_mul);
    lemma_fundamental_div_mod_converse_div(100_000_000, 200_000_000, 0, 100_000_000);
    assert((x as int) * 0 == 0) by (nonlinear_arith);
    assert(0 * (x as int) == 0) by (nonlinear_arith);
}

/// Adding one flips parity.
pub proof fn lemma_even_succ(n: int)
    ensures
        is_even(n + 1) == !is_even(n),
{
    lemma_fundamental_div_mod(n, 2);
    vstd::arithmetic::div_mod::lemma_mod_division_less_than_divisor(n, 2);
    let q = n / 2;
    let r = n % 2;
    if r == 0 {
        vstd::arithmetic::div_mod::lemma_fundamental_div_mod_converse_mod(n + 1, 2, q, 1);
    } else {
        vstd::arithmetic::div_mod::lemma_fundamental_div_mod_converse_mod(n + 1, 2, q + 1, 0);
    }
}

/// Any `i64` scaled by `FX_ONE` stays far inside the `i128` range.
pub proof fn lemma_scale_mul_bound(f: i64)
    ensures
        -1_000_000_000_000_000_000_000_000_000 <= (f as int) * (FX_ONE as int)
            <= 1_000_000_000_000_000_000_000_000_000,
{
    assert(-1_000_000_000_000_000_000_000_000_000 <= (f as int) * (FX_ONE as int)
        <= 1_000_000_000_000_000_000_000_000_000) by (nonlinear_arith)
        requires
            -0x8000_0000_0000_0000 <= f as int <= 0x7fff_ffff_ffff_ffff,
    ;
}

fn clamp_i128(x: i128) -> (r: i64)
    ensures
        r == fx_clamp(x as int),
{
    if x > (FX_MAX as i128) {
        FX_MAX
    } else if x < -(FX_MAX as i128) {
        -FX_MAX
    } else {
        x as i64
    }
}

/// Nearest-rounded division on nonnegative magnitudes.
fn rdiv_exec(n: u128, d: u128) -> (q: u128)
    requires
        1 <= d <= 0x8000_0000_0000_0000u128,
        n <= 0x4000_0000_0000_0000_0000_0000_0000_0000u128,
    ensures
        q as int == rdiv_nearest(n as int, d as int),
        q as int <= n as int + 1,
{
    let num: u128 = 2 * n + d;
    let den: u128 = 2 * d;
    let q: u128 = num / den;
    proof {
        lemma_fundamental_div_mod(num as int, den as int);
        assert(num < (n as int + 2) * (den as int)) by (nonlinear_arith)
            requires
                num == 2 * (n as int) + d,
                den == 2 * (d as int),
                d >= 1,
                n >= 0,
        ;
        assert(q as int <= n as int + 1) by (nonlinear_arith)
            requires
                (q as int) * (den as int) <= num as int,
                num < (n as int + 2) * (den as int),
                den >= 2,
                q >= 0,
        ;
    }
    q
}

#[verifier::when_used_as_spec(spec_fx_add)]
pub fn fx_add(a: i64, b: i64) -> (r: i64)
    ensures
        r == spec_fx_add(a, b),
{
    clamp_i128(a as i128 + b as i128)
}

#[verifier::when_used_as_spec(spec_fx_sub)]
pub fn fx_sub(a: i64, b: i64) -> (r: i64)
    ensures
        r == spec_fx_sub(a, b),
{
    clamp_i128(a as i128 - b as i128)
}

#[verifier::when_used_as_spec(spec_fx_neg)]
pub fn fx_neg(a: i64) -> (r: i64)
    ensures
        r == spec_fx_neg(a),
{
    clamp_i128(-(a as i128))
}

#[verifier::when_used_as_spec(spec_fx_abs)]
pub fn fx_abs(a: i64) -> (r: i64)
    ensures
        r == spec_fx_abs(a),
{
    if a < 0 {
        clamp_i128(-(a as i128))
    } else {
        a
    }
}

#[verifier::when_used_as_spec(spec_fx_mul)]
pub fn fx_mul(a: i64, b: i64) -> (r: i64)
    ensures
        r == spec_fx_mul(a, b),
{
    proof {
        reveal(spec_fx_mul);
        assert(-0x4000_0000_0000_0000_0000_0000_0000_0000 <= (a as int) * (b as int)
            <= 0x4000_0000_0000_0000_0000_0000_0000_0000) by (nonlinear_arith)
            requires
                -0x8000_0000_0000_0000 <= a as int <= 0x7fff_ffff_ffff_ffff,
                -0x8000_0000_0000_0000 <= b as int <= 0x7fff_ffff_ffff_ffff,
        ;
    }
    let p: i128 = (a as i128) * (b as i128);
    let neg: bool = p < 0;
    let mag: u128 = if neg {
        (-p) as u128
    } else {
        p as u128
    };
    let q: u128 = rdiv_exec(mag, FX_ONE as u128);
    let m: i128 = q as i128;
    if neg {
        clamp_i128(-m)
    } else {
        clamp_i128(m)
    }
}

#[verifier::when_used_as_spec(spec_fx_div)]
pub fn fx_div(a: i64, b: i64) -> (r: i64)
    ensures
        r == spec_fx_div(a, b),
{
    proof {
        reveal(spec_fx_div);
    }
    if b == 0 {
        if a > 0 {
            FX_MAX
        } else if a < 0 {
            -FX_MAX
        } else {
            0
        }
    } else {
        proof {
            assert(-0x4000_0000_0000_0000_0000_0000_0000_0000 <= (a as int) * (FX_ONE as int)
                <= 0x4000_0000_0000_0000_0000_0000_0000_0000) by (nonlinear_arith)
                requires
                    -0x8000_0000_0000_0000 <= a as int <= 0x7fff_ffff_ffff_ffff,
            ;
        }
        let n: i128 = (a as i128) * (FX_ONE as i128);
        let nmag: u128 = if n < 0 {
            (-n) as u128
        } else {
            n as u128
        };
        let bmag: u128 = if b < 0 {
            (-(b as i128)) as u128
        } else {
            b as u128
        };
        let q: u128 = rdiv_exec(nmag, bmag);
        let m: i128 = q as i128;
        let neg: bool = (a < 0) != (b < 0);
        proof {
            let p = (a as int) * (b as int);
            if a == 0 {
                assert(q as int == rdiv_nearest(0, iabs(b as int)));
                assert((2 * 0 + iabs(b as int)) / (2 * iabs(b as int)) == 0) by {
                    vstd::arithmetic::div_mod::lemma_basic_div(
                        iabs(b as int),
                        2 * iabs(b as int),
                    );
                }
            } else {
                assert(neg <==> p < 0) by (nonlinear_arith)
                    requires
                        a != 0,
                        b != 0,
                        neg == ((a < 0) != (b < 0)),
                        p == (a as int) * (b as int),
                ;
            }
        }
        if neg {
            clamp_i128(-m)
        } else {
            clamp_i128(m)
        }
    }
}

/// `|a - b| < EPSILON`: approximate scalar equality.
#[verifier::when_used_as_spec(spec_near)]
pub fn near_equal(a: i64, b: i64) -> (r: bool)
    ensures
        r == spec_near(a, b),
{
    let d: i128 = a as i128 - b as i128;
    let m: i128 = if d < 0 {
        -d
    } else {
        d
    };
    m < EPSILON as i128
}

proof fn lemma_isqrt_exists(n: nat)
    ensures
        exists|r: int| is_isqrt(n as int, r),
    decreases n,
{
    if n == 0 {
        assert(is_isqrt(0, 0)) by (nonlinear_arith);
    } else {
        lemma_isqrt_exists((n - 1) as nat);
        let nm1: int = n as int - 1;
        let r = choose|r: int| is_isqrt(nm1, r);
        if (r + 1) * (r + 1) <= n {
            assert(n as int - 1 < (r + 1) * (r + 1));
            assert(n as int == (r + 1) * (r + 1));
            assert((r + 1 + 1) * (r + 1 + 1) > n as int) by (nonlinear_arith)
                requires
                    r >= 0,
                    n as int == (r + 1) * (r + 1),
            ;
            assert(is_isqrt(n as int, r + 1));
        } else {
            assert(is_isqrt(n as int, r));
        }
    }
}

proof fn lemma_isqrt_unique(n: int, r1: int, r2: int)
    requires
        is_isqrt(n, r1),
        is_isqrt(n, r2),
    ensures
        r1 == r2,
{
    assert(r1 == r2) by (nonlinear_arith)
        requires
            0 <= r1 && r1 * r1 <= n && n < (r1 + 1) * (r1 + 1),
            0 <= r2 && r2 * r2 <= n && n < (r2 + 1) * (r2 + 1),
    ;
}

/// `spec_isqrt` really is the integer square root of any nonnegative `n`.
pub proof fn lemma_isqrt(n: int)
    requires
        n >= 0,
    ensures
        is_isqrt(n, spec_isqrt(n)),
{
    lemma_isqrt_exists(n as nat);
}

#[verifier::when_used_as_spec(spec_fx_sqrt)]
pub fn fx_sqrt(a: i64) -> (r: i64)
    ensures
        r == spec_fx_sqrt(a),
{
    proof {
        reveal(spec_fx_sqrt);
    }
    if a <= 0 {
        return 0;
    }
    proof {
        assert(0 <= (a as int) * (FX_ONE as int)
            < 1_000_000_000_000_000_000_000_000_000) by (nonlinear_arith)
            requires
                0 < a <= 0x7fff_ffff_ffff_ffffi64,
        ;
    }
    let n: u128 = (a as u128) * (FX_ONE as u128);
    let mut lo: u128 = 0;
    let mut hi: u128 = 40_000_000_000_000u128;
    proof {
        assert((hi as int) * (hi as int) > n) by (nonlinear_arith)
            requires
                hi == 40_000_000_000_000u128,
                n < 1_000_000_000_000_000_000_000_000_000,
        ;
    }
    while hi - lo > 1
        invariant
            lo < hi <= 40_000_000_000_000u128,
            (lo as int) * (lo as int) <= n as int,
            (n as int) < (hi as int) * (hi as int),
        decreases hi - lo,
    {
        let mid: u128 = lo + (hi - lo) / 2;
        proof {
            assert((mid as int) * (mid as int) < 2_000_000_000_000_000_000_000_000_000)
                by (nonlinear_arith)
                requires
                    mid <= 40_000_000_000_000u128,
            ;
        }
        if mid * mid <= n {
            lo = mid;
        } else {
            hi = mid;
        }
    }
    proof {
        assert(hi == lo + 1);
        assert(is_isqrt(n as int, lo as int));
        lemma_isqrt(n as int);
        lemma_isqrt_unique(n as int, lo as int, spec_isqrt(n as int));
    }
    lo as i64
}

pub fn fx_pow(b: i64, e: u64) -> (r: i64)
    ensures
        r == spec_fx_pow(b, e as nat),
{
    proof {
        reveal(spec_fx_pow);
    }
    let mut r: i64 = FX_ONE;
    let mut i: u64 = 0;
    while i < e
        invariant
            i <= e,
            r == spec_fx_pow(b, i as nat),
        decreases e - i,
    {
        proof {
            reveal(spec_fx_pow);
        }
        r = fx_mul(b, r);
        i = i + 1;
    }
    r
}

pub fn floor_units(a: i64) -> (u: i64)
    ensures
        u as int == spec_floor_units(a),
{
    if a >= 0 {
        let q: u64 = (a as u64) / (FX_ONE as u64);
        q as i64
    } else {
        let m: u128 = (-(a as i128)) as u128;
        let q: u128 = m / (FX_ONE as u128);
        let r: u128 = m % (FX_ONE as u128);
        proof {
            lemma_fundamental_div_mod(m as int, FX_ONE as int);
            assert(q <= 92_233_720_368) by (nonlinear_arith)
                requires
                    (FX_ONE as int) * (q as int) <= m as int,
                    m <= 0x8000_0000_0000_0000u128,
                    q >= 0,
                    FX_ONE == 100_000_000,
            ;
            if r == 0 {
                lemma_fundamental_div_mod_converse_div(
                    a as int,
                    FX_ONE as int,
                    -(q as int),
                    0,
                );
            } else {
                lemma_fundamental_div_mod_converse_div(
                    a as int,
                    FX_ONE as int,
                    -(q as int) - 1,
                    FX_ONE as int - r as int,
                );
            }
        }
        if r == 0 {
            -(q as i64)
        } else {
            -(q as i64) - 1
        }
    }
}

pub fn ceil_units(a: i64) -> (u: i64)
    ensures
        u as int == spec_ceil_units(a),
{
    if a <= 0 {
        let m: u128 = (-(a as i128)) as u128;
        let q: u128 = m / (FX_ONE as u128);
        proof {
            lemma_fundamental_div_mod(m as int, FX_ONE as int);
            vstd::arithmetic::div_mod::lemma_mod_division_less_than_divisor(
                m as int,
                FX_ONE as int,
            );
            assert(q <= 92_233_720_368) by (nonlinear_arith)
                requires
                    (FX_ONE as int) * (q as int) == m as int - (m as int) % (FX_ONE as int),
                    0 <= (m as int) % (FX_ONE as int),
                    m <= 0x8000_0000_0000_0000u128,
                    q >= 0,
                    FX_ONE == 100_000_000,
            ;
        }
        -(q as i64)
    } else {
        let q: u64 = (a as u64) / (FX_ONE as u64);
        let r: u64 = (a as u64) % (FX_ONE as u64);
        proof {
            lemma_fundamental_div_mod(a as int, FX_ONE as int);
            if r == 0 {
                lemma_fundamental_div_mod_converse_div(
                    -(a as int),
                    FX_ONE as int,
                    -(q as int),
                    0,
                );
            } else {
                lemma_fundamental_div_mod_converse_div(
                    -(a as int),
                    FX_ONE as int,
                    -(q as int) - 1,
                    FX_ONE as int - r as int,
                );
            }
        }
        if r == 0 {
            q as i64
        } else {
            q as i64 + 1
        }
    }
}

/// A whole number of units as a scalar: `u * FX_ONE`, exact.
pub fn units_to_fx(u: i64) -> (r: i64)
    requires
        -92_233_720_368 <= u <= 92_233_720_368,
    ensures
        r as int == u * (FX_ONE as int),
{
    proof {
        assert(-0x7fff_ffff_ffff_ffff <= (u as int) * (FX_ONE as int) <= 0x7fff_ffff_ffff_ffff)
            by (nonlinear_arith)
            requires
                -92_233_720_368 <= u as int <= 92_233_720_368,
        ;
    }
    ((u as i128) * (FX_ONE as i128)) as i64
}

/// Parity of a bounded signed count.
pub fn even(n: i128) -> (b: bool)
    requires
        -0x1_0000_0000_0000_0000_0000i128 < n < 0x1_0000_0000_0000_0000_0000i128,
    ensures
        b == is_even(n as int),
{
    let m: i128 = if n < 0 {
        -n
    } else {
        n
    };
    let r: i128 = m % 2;
    proof {
        if n < 0 {
            lemma_fundamental_div_mod(m as int, 2);
            if r == 0 {
                vstd::arithmetic::div_mod::lemma_fundamental_div_mod_converse_mod(
                    n as int,
                    2,
                    -(m as int / 2),
                    0,
                );
            } else {
                vstd::arithmetic::div_mod::lemma_fundamental_div_mod_converse_mod(
                    n as int,
                    2,
                    -(m as int / 2) - 1,
                    1,
                );
            }
        }
    }
    r == 0
}

} // verus!
