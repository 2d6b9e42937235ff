//! Two-dimensional fixed-point vectors and the geometry the simulation
//! needs: squared norms, rounded-down lengths and unit directions.

use vstd::prelude::*;
use vstd::arithmetic::mul::lemma_mul_inequality;
use crate::fixed::{
    abs, tdiv, sqrt_floor, lemma_sqrt_floor, lemma_sqrt_floor_unique, lemma_tdiv_scaled_bound,
    isqrt, mul_div_trunc, SCALE, FIX_MAX,
};

verus! {

/// Inputs to the length and unit-direction operations may be this large in
/// magnitude: enough for any sum of forces the simulation builds.
pub const VEC_MAX: i64 = 1_000_000_000;

/// A point or direction; each component is a fixed-point scalar.
#[derive(Clone, Copy, PartialEq, Eq, Structural, Debug)]
pub struct Vec2Fix {
    pub x: i64,
    pub y: i64,
}

impl Vec2Fix {
    pub fn new(x: i64, y: i64) -> (r: Vec2Fix)
        ensures
            r.x == x,
            r.y == y,
    {
        Vec2Fix { x, y }
    }
}

/// Both components no larger than `m` in magnitude.
pub open spec fn in_range(v: Vec2Fix, m: int) -> bool {
    abs(v.x as int) <= m && abs(v.y as int) <= m
}

/// Squared Euclidean norm, exact.
pub open spec fn norm2(x: int, y: int) -> int {
    x * x + y * y
}

/// Euclidean length rounded down, in fixed-point units.
pub open spec fn len_of(x: int, y: int) -> int {
    sqrt_floor(norm2(x, y) as nat) as int
}

/// Unit vector in the direction `(x, y)`, scaled by [`SCALE`]; zero for the
/// zero vector. Integer coordinates floor the length at one, so no division
/// by a vanishing distance can occur.
pub open spec fn unit_of(x: int, y: int) -> (int, int) {
    let d = len_of(x, y);
    if d == 0 {
        (0, 0)
    } else {
        (tdiv(x * SCALE, d), tdiv(y * SCALE, d))
    }
}

/// Squared Euclidean distance, exact.
pub open spec fn dist2(a: Vec2Fix, b: Vec2Fix) -> int {
    norm2(b.x - a.x, b.y - a.y)
}

/// Euclidean distance rounded down, in fixed-point units.
pub open spec fn dist_fix(a: Vec2Fix, b: Vec2Fix) -> int {
    len_of(b.x - a.x, b.y - a.y)
}

/// Unit vector from `from` toward `to`, scaled by [`SCALE`].
pub open spec fn unit_toward_spec(from: Vec2Fix, to: Vec2Fix) -> (int, int) {
    unit_of(to.x - from.x, to.y - from.y)
}

pub proof fn lemma_norm2_nonneg(x: int, y: int)
    ensures
        norm2(x, y) >= 0,
        norm2(x, y) == 0 <==> (x == 0 && y == 0),
{
    assert(x * x + y * y >= 0 && (x * x + y * y == 0 <==> (x == 0 && y == 0)))
        by (nonlinear_arith)
    {}
}

/// The rounded-down square root never decreases.
pub proof fn lemma_sqrt_floor_monotonic(x: nat, y: nat)
    requires
        x <= y,
    ensures
        sqrt_floor(x) <= sqrt_floor(y),
{
    lemma_sqrt_floor(x);
    lemma_sqrt_floor(y);
    let rx = sqrt_floor(x) as int;
    let ry = sqrt_floor(y) as int;
    if rx > ry {
        assert((ry + 1) * (ry + 1) <= rx * rx) by {
            lemma_mul_inequality(ry + 1, rx, ry + 1);
            vstd::arithmetic::mul::lemma_mul_is_commutative(ry + 1, rx);
            lemma_mul_inequality(ry + 1, rx, rx);
        }
    }
}

/// Squares round-trip through the square root.
pub proof fn lemma_sqrt_floor_square(n: nat)
    ensures
        sqrt_floor(n * n) == n,
{
    assert(n * n < (n + 1) * (n + 1)) by (nonlinear_arith)
    {}
    lemma_sqrt_floor_unique(n * n, n);
}

/// Scaling by a nonnegative factor scales the magnitude.
pub proof fn lemma_abs_mul_pos(a: int, c: int)
    requires
        c >= 0,
    ensures
        abs(a * c) == abs(a) * c,
{
    assert(abs(a * c) == abs(a) * c) by (nonlinear_arith)
        requires
            c >= 0,
    {}
}

/// A component is never longer than the whole vector.
pub proof fn lemma_component_le_len(x: int, y: int)
    ensures
        abs(x) <= len_of(x, y),
        abs(y) <= len_of(x, y),
        len_of(x, y) >= 0,
{
    let ax = abs(x);
    let ay = abs(y);
    lemma_norm2_nonneg(x, y);
    assert(ax * ax <= norm2(x, y) && ay * ay <= norm2(x, y)) by (nonlinear_arith)
        requires
            ax == abs(x),
            ay == abs(y),
            norm2(x, y) == x * x + y * y,
    {}
    lemma_sqrt_floor_square(ax as nat);
    lemma_sqrt_floor_square(ay as nat);
    lemma_sqrt_floor_monotonic((ax * ax) as nat, norm2(x, y) as nat);
    lemma_sqrt_floor_monotonic((ay * ay) as nat, norm2(x, y) as nat);
}

/// The scaled unit direction has components of magnitude at most [`SCALE`].
pub proof fn lemma_unit_of_bounds(x: int, y: int)
    ensures
        abs(unit_of(x, y).0) <= SCALE,
        abs(unit_of(x, y).1) <= SCALE,
{
    let d = len_of(x, y);
    lemma_component_le_len(x, y);
    if d != 0 {
        lemma_abs_mul_pos(x, SCALE as int);
        lemma_abs_mul_pos(y, SCALE as int);
        lemma_mul_inequality(abs(x), d, SCALE as int);
        lemma_mul_inequality(abs(y), d, SCALE as int);
        vstd::arithmetic::mul::lemma_mul_is_commutative(d, SCALE as int);
        lemma_tdiv_scaled_bound(x * SCALE, d, SCALE as int);
        lemma_tdiv_scaled_bound(y * SCALE, d, SCALE as int);
    }
}

/// Squared norm of an in-bounds vector, exact.
pub fn norm2_exec(x: i64, y: i64) -> (r: i64)
    requires
        abs(x as int) <= VEC_MAX,
        abs(y as int) <= VEC_MAX,
    ensures
        r == norm2(x as int, y as int),
        r >= 0,
{
    proof {
        crate::fixed::lemma_abs_mul_bound(x as int, x as int, VEC_MAX as int, VEC_MAX as int);
        crate::fixed::lemma_abs_mul_bound(y as int, y as int, VEC_MAX as int, VEC_MAX as int);
        lemma_norm2_nonneg(x as int, y as int);
        assert(x as int * x as int >= 0 && y as int * y as int >= 0) by (nonlinear_arith)
        {}
    }
    x * x + y * y
}

/// Length of an in-bounds vector, rounded down.
pub fn len_exec(x: i64, y: i64) -> (r: i64)
    requires
        abs(x as int) <= VEC_MAX,
        abs(y as int) <= VEC_MAX,
    ensures
        r == len_of(x as int, y as int),
        0 <= r <= 2_000_000_000,
{
    let n2 = norm2_exec(x, y);
    proof {
        crate::fixed::lemma_abs_mul_bound(x as int, x as int, VEC_MAX as int, VEC_MAX as int);
        crate::fixed::lemma_abs_mul_bound(y as int, y as int, VEC_MAX as int, VEC_MAX as int);
    }
    let r = isqrt(n2 as u64);
    proof {
        lemma_sqrt_floor(n2 as nat);
        lemma_sqrt_floor_monotonic(n2 as nat, (2_000_000_000 * 2_000_000_000) as nat);
        lemma_sqrt_floor_square(2_000_000_000);
    }
    r as i64
}

/// Unit vector in the direction `(x, y)`, scaled by [`SCALE`].
pub fn unit_exec(x: i64, y: i64) -> (r: Vec2Fix)
    requires
        abs(x as int) <= VEC_MAX,
        abs(y as int) <= VEC_MAX,
    ensures
        (r.x as int, r.y as int) == unit_of(x as int, y as int),
        in_range(r, SCALE as int),
{
    let d = len_exec(x, y);
    proof {
        lemma_unit_of_bounds(x as int, y as int);
        crate::fixed::lemma_abs_mul_bound(x as int, SCALE as int, VEC_MAX as int, SCALE as int);
        crate::fixed::lemma_abs_mul_bound(y as int, SCALE as int, VEC_MAX as int, SCALE as int);
    }
    if d == 0 {
        Vec2Fix { x: 0, y: 0 }
    } else {
        let ux = mul_div_trunc(x, SCALE, d);
        let uy = mul_div_trunc(y, SCALE, d);
        Vec2Fix { x: ux, y: uy }
    }
}


/// Euclidean length rounded up.
pub open spec fn len_ceil_of(x: int, y: int) -> int {
    let f = len_of(x, y);
    if f * f == norm2(x, y) {
        f
    } else {
        f + 1
    }
}

/// Unit vector in the direction `(x, y)`, scaled by [`SCALE`], dividing by
/// the length rounded up: unlike [`unit_of`] it never comes out longer
/// than one unit, so scaling it caps the Euclidean magnitude exactly.
pub open spec fn unit_capped_of(x: int, y: int) -> (int, int) {
    let d = len_ceil_of(x, y);
    if d == 0 {
        (0, 0)
    } else {
        (tdiv(x * SCALE, d), tdiv(y * SCALE, d))
    }
}

/// The quotient times the divisor never exceeds the dividend in magnitude.
pub proof fn lemma_tdiv_mul_le(a: int, b: int)
    requires
        b >= 1,
    ensures
        abs(tdiv(a, b)) * b <= abs(a),
{
    let m = abs(a);
    vstd::arithmetic::div_mod::lemma_fundamental_div_mod(m, b);
    vstd::arithmetic::div_mod::lemma_mod_division_less_than_divisor(m, b);
    vstd::arithmetic::div_mod::lemma_div_pos_is_pos(m, b);
    vstd::arithmetic::mul::lemma_mul_is_commutative(b, m / b);
}

/// The rounded-up length bounds the vector: its square covers the squared
/// norm and each component.
pub proof fn lemma_len_ceil_bounds(x: int, y: int)
    ensures
        len_ceil_of(x, y) >= 0,
        norm2(x, y) <= len_ceil_of(x, y) * len_ceil_of(x, y),
        abs(x) <= len_ceil_of(x, y),
        abs(y) <= len_ceil_of(x, y),
        len_ceil_of(x, y) == 0 <==> (x == 0 && y == 0),
{
    lemma_norm2_nonneg(x, y);
    lemma_component_le_len(x, y);
    lemma_sqrt_floor(norm2(x, y) as nat);
    let f = len_of(x, y);
    let lc = len_ceil_of(x, y);
    if f * f != norm2(x, y) {
        assert(lc == f + 1);
    }
}

/// Dividing both components by `d` divides the squared norm by at least
/// `d * d`.
pub proof fn lemma_div_pair_norm(x: int, y: int, d: int, c: int)
    requires
        d >= 1,
        c >= 0,
        norm2(x, y) <= c * (d * d),
    ensures
        norm2(tdiv(x, d), tdiv(y, d)) <= c,
{
    let a = tdiv(x, d);
    let b = tdiv(y, d);
    lemma_tdiv_mul_le(x, d);
    lemma_tdiv_mul_le(y, d);
    assert(a * a * (d * d) <= x * x) by (nonlinear_arith)
        requires
            abs(a) * d <= abs(x),
            d >= 1,
    {}
    assert(b * b * (d * d) <= y * y) by (nonlinear_arith)
        requires
            abs(b) * d <= abs(y),
            d >= 1,
    {}
    assert(a * a + b * b <= c) by (nonlinear_arith)
        requires
            a * a * (d * d) <= x * x,
            b * b * (d * d) <= y * y,
            x * x + y * y <= c * (d * d),
            d >= 1,
    {}
}

/// The capped unit direction is at most one unit long, in each component
/// and in Euclidean norm.
pub proof fn lemma_unit_capped_norm(x: int, y: int)
    ensures
        norm2(unit_capped_of(x, y).0, unit_capped_of(x, y).1) <= SCALE * SCALE,
        abs(unit_capped_of(x, y).0) <= SCALE,
        abs(unit_capped_of(x, y).1) <= SCALE,
{
    lemma_len_ceil_bounds(x, y);
    let lc = len_ceil_of(x, y);
    if lc != 0 {
        assert(norm2(x * SCALE, y * SCALE) <= (SCALE * SCALE) * (lc * lc)) by (nonlinear_arith)
            requires
                norm2(x, y) <= lc * lc,
                norm2(x, y) == x * x + y * y,
                norm2(x * SCALE, y * SCALE) == (x * SCALE) * (x * SCALE) + (y * SCALE) * (y
                    * SCALE),
        {}
        lemma_div_pair_norm(x * SCALE, y * SCALE, lc, SCALE * SCALE);
        lemma_tdiv_mul_le(x * SCALE, lc);
        lemma_tdiv_mul_le(y * SCALE, lc);
        assert(abs(tdiv(x * SCALE, lc)) <= SCALE && abs(tdiv(y * SCALE, lc)) <= SCALE)
            by (nonlinear_arith)
            requires
                abs(tdiv(x * SCALE, lc)) * lc <= abs(x * SCALE),
                abs(tdiv(y * SCALE, lc)) * lc <= abs(y * SCALE),
                abs(x * SCALE) == abs(x) * SCALE,
                abs(y * SCALE) == abs(y) * SCALE,
                abs(x) <= lc,
                abs(y) <= lc,
                lc >= 1,
        {}
        lemma_abs_mul_pos(x, SCALE as int);
        lemma_abs_mul_pos(y, SCALE as int);
    }
}

/// Unit vector in the direction `(x, y)`, scaled by [`SCALE`], never
/// longer than one unit.
pub fn unit_capped_exec(x: i64, y: i64) -> (r: Vec2Fix)
    requires
        abs(x as int) <= VEC_MAX,
        abs(y as int) <= VEC_MAX,
    ensures
        (r.x as int, r.y as int) == unit_capped_of(x as int, y as int),
        in_range(r, SCALE as int),
        norm2(r.x as int, r.y as int) <= SCALE * SCALE,
{
    let f = len_exec(x, y);
    proof {
        lemma_unit_capped_norm(x as int, y as int);
        lemma_len_ceil_bounds(x as int, y as int);
        crate::fixed::lemma_abs_mul_bound(f as int, f as int, 2_000_000_000, 2_000_000_000);
        crate::fixed::lemma_abs_mul_bound(x as int, SCALE as int, VEC_MAX as int, SCALE as int);
        crate::fixed::lemma_abs_mul_bound(y as int, SCALE as int, VEC_MAX as int, SCALE as int);
    }
    let n2 = norm2_exec(x, y);
    let lc = if f * f == n2 {
        f
    } else {
        f + 1
    };
    if lc == 0 {
        Vec2Fix { x: 0, y: 0 }
    } else {
        let ux = mul_div_trunc(x, SCALE, lc);
        let uy = mul_div_trunc(y, SCALE, lc);
        Vec2Fix { x: ux, y: uy }
    }
}

/// Squared distance between two in-range points, exact.
pub fn dist2_exec(a: Vec2Fix, b: Vec2Fix) -> (r: i64)
    requires
        in_range(a, FIX_MAX as int),
        in_range(b, FIX_MAX as int),
    ensures
        r == dist2(a, b),
        r >= 0,
{
    norm2_exec(b.x - a.x, b.y - a.y)
}

/// Distance between two in-range points, rounded down.
pub fn dist_exec(a: Vec2Fix, b: Vec2Fix) -> (r: i64)
    requires
        in_range(a, FIX_MAX as int),
        in_range(b, FIX_MAX as int),
    ensures
        r == dist_fix(a, b),
        0 <= r <= 2_000_000_000,
{
    len_exec(b.x - a.x, b.y - a.y)
}

/// Unit vector from `from` toward `to`, scaled by [`SCALE`].
pub fn unit_toward(from: Vec2Fix, to: Vec2Fix) -> (r: Vec2Fix)
    requires
        in_range(from, FIX_MAX as int),
        in_range(to, FIX_MAX as int),
    ensures
        (r.x as int, r.y as int) == unit_toward_spec(from, to),
        in_range(r, SCALE as int),
{
    unit_exec(to.x - from.x, to.y - from.y)
}

} // verus!
