//! Fixed-point scalars: an `i64` holds the real value times [`SCALE`].
//!
//! Division truncates toward zero (like Rust's `/` on primitives), which the
//! spec function [`tdiv`] captures; square roots round down ([`sqrt_floor`]).

use vstd::prelude::*;
use vstd::arithmetic::div_mod::{lemma_div_is_ordered, lemma_div_multiples_vanish};
use vstd::arithmetic::mul::lemma_mul_inequality;

verus! {

/// Number of fixed-point units in 1.0.
pub const SCALE: i64 = 1000;

/// Absolute bound on every scalar the simulation handles, in fixed-point
/// units; generous enough for world coordinates, speeds and health.
pub const FIX_MAX: i64 = 100_000_000;

pub open spec fn abs(a: int) -> int {
    if a >= 0 {
        a
    } else {
        -a
    }
}

/// Division truncating toward zero, the semantics of `/` on Rust integers.
pub open spec fn tdiv(a: int, b: int) -> int
    recommends
        b > 0,
{
    if a >= 0 {
        a / b
    } else {
        -((-a) / b)
    }
}

/// Truncating division never increases the magnitude when the divisor is at
/// least one, and keeps the dividend's sign.
pub proof fn lemma_tdiv_bounds(a: int, b: int)
    requires
        b >= 1,
    ensures
        abs(tdiv(a, b)) <= abs(a),
        a >= 0 ==> tdiv(a, b) >= 0,
        a <= 0 ==> tdiv(a, b) <= 0,
{
    if a >= 0 {
        lemma_div_is_ordered(0, a, b);
        vstd::arithmetic::div_mod::lemma_div_nonincreasing(a, b);
    } else {
        lemma_div_is_ordered(0, -a, b);
        vstd::arithmetic::div_mod::lemma_div_nonincreasing(-a, b);
    }
}

/// A quotient is bounded by any bound on the dividend divided out:
/// `|a| <= c * b` gives `|tdiv(a, b)| <= c`.
pub proof fn lemma_tdiv_scaled_bound(a: int, b: int, c: int)
    requires
        b >= 1,
        c >= 0,
        abs(a) <= c * b,
    ensures
        abs(tdiv(a, b)) <= c,
{
    let m = abs(a);
    vstd::arithmetic::mul::lemma_mul_is_commutative(c, b);
    lemma_div_is_ordered(m, b * c, b);
    lemma_div_multiples_vanish(c, b);
    vstd::arithmetic::div_mod::lemma_div_pos_is_pos(m, b);
}

/// Fixed-point division truncating toward zero: `a / b` in the semantics of
/// Rust's primitive division.
pub fn div_trunc(a: i64, b: i64) -> (r: i64)
    requires
        b >= 1,
        a > i64::MIN,
    ensures
        r == tdiv(a as int, b as int),
        abs(r as int) <= abs(a as int),
{
    proof {
        lemma_tdiv_bounds(a as int, b as int);
    }
    if a >= 0 {
        let q: u64 = (a as u64) / (b as u64);
        q as i64
    } else {
        let q: u64 = ((-a) as u64) / (b as u64);
        -(q as i64)
    }
}

/// Bounds on the factors bound the product.
pub proof fn lemma_abs_mul_bound(a: int, b: int, ab: int, bb: int)
    requires
        abs(a) <= ab,
        abs(b) <= bb,
    ensures
        abs(a * b) <= ab * bb,
{
    assert(abs(a * b) <= ab * bb) by (nonlinear_arith)
        requires
            abs(a) <= ab,
            abs(b) <= bb,
    {}
}

/// `a * b / d` in one step, the product taken at full width so that only the
/// quotient must fit in an `i64`.
pub fn mul_div_trunc(a: i64, b: i64, d: i64) -> (r: i64)
    requires
        d >= 1,
        abs(a as int * b as int) <= i64::MAX as int,
    ensures
        r == tdiv(a as int * b as int, d as int),
        abs(r as int) <= abs(a as int * b as int),
{
    proof {
        assert((a as i128) as int * (b as i128) as int == a as int * b as int);
        assert(abs((a as int) * (b as int)) <= 0x4000_0000_0000_0000_0000_0000_0000_0000int)
            by (nonlinear_arith)
            requires
                abs(a as int) <= 0x8000_0000_0000_0000int,
                abs(b as int) <= 0x8000_0000_0000_0000int,
        {}
        lemma_tdiv_bounds(a as int * b as int, d as int);
    }
    let p: i128 = (a as i128) * (b as i128);
    if p >= 0 {
        let q: u128 = (p as u128) / (d as u128);
        q as i64
    } else {
        let q: u128 = ((-p) as u128) / (d as u128);
        -(q as i64)
    }
}

/// Floor of the square root, defined by counting up; [`lemma_sqrt_floor`]
/// gives the usual bracketing characterisation.
pub open spec fn sqrt_floor(x: nat) -> nat
    decreases x,
{
    if x == 0 {
        0
    } else {
        let r = sqrt_floor((x - 1) as nat);
        if (r + 1) * (r + 1) <= x {
            r + 1
        } else {
            r
        }
    }
}

pub proof fn lemma_sqrt_floor(x: nat)
    ensures
        sqrt_floor(x) * sqrt_floor(x) <= x,
        x < (sqrt_floor(x) + 1) * (sqrt_floor(x) + 1),
        sqrt_floor(x) <= x,
    decreases x,
{
    let s = sqrt_floor(x) as int;
    if x == 0 {
        assert(s == 0);
        assert(x < (s + 1) * (s + 1)) by (nonlinear_arith)
            requires
                s == 0,
                x == 0,
        {}
    } else {
        let prev = (x - 1) as nat;
        lemma_sqrt_floor(prev);
        let r = sqrt_floor(prev) as int;
        if (r + 1) * (r + 1) <= x {
            assert(s == r + 1);
            assert(s * s <= x && x < (s + 1) * (s + 1)) by (nonlinear_arith)
                requires
                    s == r + 1,
                    (r + 1) * (r + 1) <= x,
                    x <= prev + 1,
                    prev < (r + 1) * (r + 1),
                    r >= 0,
            {}
        } else {
            assert(s == r);
            assert(s * s <= x && x < (s + 1) * (s + 1)) by (nonlinear_arith)
                requires
                    s == r,
                    r * r <= prev,
                    prev <= x,
                    x < (r + 1) * (r + 1),
                    r >= 0,
            {}
        }
    }
}

/// The bracketing `r * r <= x < (r + 1) * (r + 1)` pins the root down.
pub proof fn lemma_sqrt_floor_unique(x: nat, r: nat)
    requires
        r * r <= x,
        x < (r + 1) * (r + 1),
    ensures
        r == sqrt_floor(x),
{
    lemma_sqrt_floor(x);
    let s = sqrt_floor(x) as int;
    let ri = r as int;
    if ri < s {
        assert((ri + 1) * (ri + 1) <= s * s) by {
            lemma_mul_inequality(ri + 1, s, ri + 1);
            vstd::arithmetic::mul::lemma_mul_is_commutative(ri + 1, s);
            lemma_mul_inequality(ri + 1, s, s);
        }
    } else if s < ri {
        assert((s + 1) * (s + 1) <= ri * ri) by {
            lemma_mul_inequality(s + 1, ri, s + 1);
            vstd::arithmetic::mul::lemma_mul_is_commutative(s + 1, ri);
            lemma_mul_inequality(s + 1, ri, ri);
        }
    }
}

/// Floor of the square root, by binary search.
pub fn isqrt(x: u64) -> (r: u64)
    ensures
        r == sqrt_floor(x as nat),
        r * r <= x,
        x < (r + 1) * (r + 1),
{
    let mut lo: u64 = 0;
    let mut hi: u64 = 0x1_0000_0000;
    proof {
        assert((0x1_0000_0000u64 as int) * (0x1_0000_0000u64 as int) > x as int);
    }
    while lo + 1 < hi
        invariant
            lo < hi,
            hi <= 0x1_0000_0000,
            (lo as int) * (lo as int) <= x as int,
            (x as int) < (hi as int) * (hi as int),
        decreases hi - lo,
    {
        let mid = lo + (hi - lo) / 2;
        proof {
            lemma_mul_inequality(mid as int, 0x1_0000_0000, mid as int);
            vstd::arithmetic::mul::lemma_mul_is_commutative(0x1_0000_0000, mid as int);
            lemma_mul_inequality(mid as int, 0x1_0000_0000, 0x1_0000_0000);
        }
        let sq: u128 = (mid as u128) * (mid as u128);
        if sq <= x as u128 {
            lo = mid;
        } else {
            hi = mid;
        }
    }
    proof {
        lemma_sqrt_floor_unique(x as nat, lo as nat);
    }
    lo
}

/// Half a turn, in fixed-point radians.
pub const PI_FIX: i64 = 3_142;

/// A full turn, in fixed-point radians.
pub const TAU_FIX: i64 = 6_284;

/// A quarter turn, in fixed-point radians.
pub const HALF_PI_FIX: i64 = 1_571;

/// Bhaskara's rational approximation of the sine on `[0, PI_FIX]`, in
/// fixed-point: `16 x (pi - x) / (5 pi^2 - 4 x (pi - x))`.
pub open spec fn sin_half_spec(x: int) -> int
    recommends
        0 <= x <= PI_FIX,
{
    let u = x * (PI_FIX - x);
    tdiv(16 * u * SCALE, 5 * PI_FIX * PI_FIX - 4 * u)
}

/// Sine of a nonnegative fixed-point angle: the angle reduced modulo a full
/// turn, with the second half-turn the mirrored negative of the first.
pub open spec fn sin_fix_spec(x: int) -> int
    recommends
        x >= 0,
{
    let m = x % (TAU_FIX as int);
    if m < PI_FIX {
        sin_half_spec(m)
    } else {
        -sin_half_spec(m - PI_FIX)
    }
}

/// Cosine as the sine shifted by a quarter turn.
pub open spec fn cos_fix_spec(x: int) -> int
    recommends
        x >= 0,
{
    sin_fix_spec(x + HALF_PI_FIX)
}

/// On `[0, PI_FIX]` the approximation stays within `[0, SCALE]`.
pub proof fn lemma_sin_half_bounds(x: int)
    requires
        0 <= x <= PI_FIX,
    ensures
        0 <= sin_half_spec(x) <= SCALE,
{
    let u = x * (PI_FIX - x);
    assert(0 <= u && 4 * u <= PI_FIX * PI_FIX) by (nonlinear_arith)
        requires
            0 <= x <= PI_FIX,
            u == x * (PI_FIX - x),
    {}
    let den = 5 * PI_FIX * PI_FIX - 4 * u;
    assert(den >= 4 * PI_FIX * PI_FIX);
    lemma_tdiv_bounds(16 * u * SCALE, den);
    assert(abs(16 * u * SCALE) <= SCALE * den) by (nonlinear_arith)
        requires
            0 <= u,
            4 * u <= PI_FIX * PI_FIX,
            den == 5 * PI_FIX * PI_FIX - 4 * u,
    {}
    lemma_tdiv_scaled_bound(16 * u * SCALE, den, SCALE as int);
    vstd::arithmetic::div_mod::lemma_div_pos_is_pos(16 * u * SCALE, den);
}

/// Sine on the first half turn.
fn sin_half(x: i64) -> (r: i64)
    requires
        0 <= x <= PI_FIX,
    ensures
        r == sin_half_spec(x as int),
        0 <= r <= SCALE,
{
    proof {
        lemma_sin_half_bounds(x as int);
        assert(0 <= (x as int) * (PI_FIX - x as int) <= PI_FIX * PI_FIX) by (nonlinear_arith)
            requires
                0 <= x as int <= PI_FIX,
        {}
        assert(16 * ((x as int) * (PI_FIX - x as int)) * SCALE == (16 * ((x as int) * (PI_FIX
            - x as int))) * SCALE) by (nonlinear_arith)
        {}
    }
    let u = x * (PI_FIX - x);
    let den = 5 * PI_FIX * PI_FIX - 4 * u;
    div_trunc(16 * u * SCALE, den)
}

/// Sine of a nonnegative fixed-point angle.
pub fn sin_fix(x: i64) -> (r: i64)
    requires
        x >= 0,
    ensures
        r == sin_fix_spec(x as int),
        abs(r as int) <= SCALE,
{
    let m = ((x as u64) % (TAU_FIX as u64)) as i64;
    proof {
        vstd::arithmetic::div_mod::lemma_mod_bound(x as int, TAU_FIX as int);
        lemma_sin_half_bounds(
            if (x as int) % (TAU_FIX as int) < PI_FIX {
                (x as int) % (TAU_FIX as int)
            } else {
                (x as int) % (TAU_FIX as int) - PI_FIX
            },
        );
    }
    if m < PI_FIX {
        sin_half(m)
    } else {
        -sin_half(m - PI_FIX)
    }
}

/// Cosine of a nonnegative fixed-point angle.
pub fn cos_fix(x: i64) -> (r: i64)
    requires
        0 <= x <= i64::MAX - HALF_PI_FIX,
    ensures
        r == cos_fix_spec(x as int),
        abs(r as int) <= SCALE,
{
    sin_fix(x + HALF_PI_FIX)
}

/// `x` clamped into `[lo, hi]`.
pub open spec fn spec_clamp(x: int, lo: int, hi: int) -> int
    recommends
        lo <= hi,
{
    if x < lo {
        lo
    } else if x > hi {
        hi
    } else {
        x
    }
}

pub fn clamp_fix(x: i64, lo: i64, hi: i64) -> (r: i64)
    requires
        lo <= hi,
    ensures
        r == spec_clamp(x as int, lo as int, hi as int),
{
    if x < lo {
        lo
    } else if x > hi {
        hi
    } else {
        x
    }
}

} // verus!
