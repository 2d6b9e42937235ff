//! The movement engine: pluggable steering strategies that compute an
//! enemy's next position from its surroundings. The flocking strategy is
//! the main one; the others are simpler chase patterns.

use vstd::prelude::*;
use crate::vecfix::{
    Vec2Fix, in_range, norm2, dist_fix, unit_of, unit_capped_of, unit_toward_spec, len_of,
    dist_exec, unit_exec, unit_capped_exec, unit_toward, lemma_unit_of_bounds,
    lemma_unit_capped_norm, lemma_div_pair_norm, lemma_component_le_len,
    lemma_sqrt_floor_monotonic, lemma_sqrt_floor_square,
};
use crate::fixed::{
    abs, tdiv, sqrt_floor, spec_clamp, sin_fix_spec, cos_fix_spec, div_trunc, mul_div_trunc,
    clamp_fix, isqrt, sin_fix, cos_fix, lemma_tdiv_bounds, lemma_tdiv_scaled_bound,
    lemma_abs_mul_bound, lemma_sqrt_floor, SCALE, FIX_MAX, HALF_PI_FIX,
};
use crate::enemy_view::{EnemyView, view_wf};
use crate::constants::{WORLD_WIDTH, WORLD_HEIGHT};
use vstd::arithmetic::mul::lemma_mul_inequality;

verus! {

/// The population cap the engine is dimensioned for.
pub const MAX_POPULATION: usize = 100_000;

/// Largest magnitude of the random noise the flocking strategy draws, in
/// fixed-point units (0.5).
pub const NOISE_BOUND: i64 = 500;

/// A position inside the world rectangle.
pub open spec fn in_world(v: Vec2Fix) -> bool {
    &&& 0 <= v.x <= WORLD_WIDTH
    &&& 0 <= v.y <= WORLD_HEIGHT
}

/// Every snapshot entry is well formed.
pub open spec fn views_wf(views: Seq<EnemyView>) -> bool {
    forall|k: int| 0 <= k < views.len() ==> view_wf(#[trigger] views[k])
}

/// Flocking: separation, alignment and cohesion among nearby live enemies,
/// attraction toward the player, and a little noise.
#[derive(Clone, Copy, PartialEq, Eq, Structural, Debug)]
pub struct BoidsMovement {
    pub visual_range: i64,
    pub separation_dist: i64,
    pub max_speed: i64,
    pub player_weight: i64,
    pub player_distance: i64,
    pub noise_strength: i64,
    pub separation_weight: i64,
    pub alignment_weight: i64,
    pub cohesion_weight: i64,
}

/// Straight chase toward the player.
#[derive(Clone, Copy, PartialEq, Eq, Structural, Debug)]
pub struct DirectMovement {
    pub speed: i64,
}

/// Chase with a sinusoidal wobble on both axes.
#[derive(Clone, Copy, PartialEq, Eq, Structural, Debug)]
pub struct SinusoidalMovement {
    pub speed: i64,
    pub amplitude: i64,
    pub frequency: i64,
}

/// Chase with a vertical zigzag, phase-shifted per enemy.
#[derive(Clone, Copy, PartialEq, Eq, Structural, Debug)]
pub struct ZigzagMovement {
    pub speed: i64,
    pub amplitude: i64,
    pub frequency: i64,
}

/// Circle around the player at a fixed radius.
#[derive(Clone, Copy, PartialEq, Eq, Structural, Debug)]
pub struct OrbitMovement {
    pub speed: i64,
    pub radius: i64,
    pub angular_speed: i64,
}

/// One movement strategy per enemy population, selected at assembly time.
#[derive(Clone, Copy, PartialEq, Eq, Structural, Debug)]
pub enum MovementStrategy {
    Boids(BoidsMovement),
    Direct(DirectMovement),
    Sinusoidal(SinusoidalMovement),
    Zigzag(ZigzagMovement),
    Orbit(OrbitMovement),
}

impl BoidsMovement {
    pub open spec fn wf(self) -> bool {
        &&& 0 <= self.visual_range <= FIX_MAX
        &&& 1 <= self.separation_dist <= FIX_MAX
        &&& 0 <= self.max_speed <= FIX_MAX
        &&& 0 <= self.player_weight <= FIX_MAX
        &&& 1 <= self.player_distance <= FIX_MAX
        &&& 0 <= self.noise_strength <= FIX_MAX
        &&& 0 <= self.separation_weight <= FIX_MAX
        &&& 0 <= self.alignment_weight <= FIX_MAX
        &&& 0 <= self.cohesion_weight <= FIX_MAX
    }
}

impl DirectMovement {
    pub open spec fn wf(self) -> bool {
        0 <= self.speed <= FIX_MAX
    }
}

impl SinusoidalMovement {
    pub open spec fn wf(self) -> bool {
        &&& 0 <= self.speed <= FIX_MAX
        &&& 0 <= self.amplitude <= FIX_MAX
        &&& 0 <= self.frequency <= FIX_MAX
    }
}

impl ZigzagMovement {
    pub open spec fn wf(self) -> bool {
        &&& 0 <= self.speed <= FIX_MAX
        &&& 0 <= self.amplitude <= FIX_MAX
        &&& 0 <= self.frequency <= FIX_MAX
    }
}

impl OrbitMovement {
    pub open spec fn wf(self) -> bool {
        &&& 0 <= self.speed <= FIX_MAX
        &&& 0 <= self.radius <= FIX_MAX
        &&& 0 <= self.angular_speed <= FIX_MAX
    }
}

/// Neighbor `j` takes part in enemy `i`'s flocking this pass: another
/// index, live, and within visual range of `me`.
pub open spec fn visible(
    views: Seq<EnemyView>,
    i: int,
    j: int,
    me: Vec2Fix,
    visual_range: int,
) -> bool {
    &&& 0 <= j < views.len()
    &&& j != i
    &&& views[j].alive
    &&& dist_fix(me, views[j].position) < visual_range
}

/// The squared separation magnitude `((1 - d / sep_dist) * SCALE)^2`,
/// before the final rescaling: exact up to the quantisation of the ratio.
pub open spec fn sep_strength_sq(d: int, sep_dist: int) -> int
    recommends
        sep_dist >= 1,
{
    let t = SCALE - tdiv(d * SCALE, sep_dist);
    t * t
}

/// The separation magnitude `(1 - d / sep_dist)^2` in fixed-point units.
pub open spec fn sep_strength(d: int, sep_dist: int) -> int
    recommends
        sep_dist >= 1,
{
    tdiv(sep_strength_sq(d, sep_dist), SCALE as int)
}

/// Separation monotonicity: within separation range the force magnitude
/// never increases with distance; it strictly increases as the distance
/// shrinks whenever the shrink exceeds one quantisation step of the ratio
/// (`sep_dist / SCALE`), which is where the exact squared magnitude is
/// compared.
pub proof fn lemma_separation_monotonic(d1: int, d2: int, sep_dist: int)
    requires
        sep_dist >= 1,
        0 <= d1 < d2 < sep_dist,
    ensures
        sep_strength(d1, sep_dist) >= sep_strength(d2, sep_dist),
        sep_strength_sq(d1, sep_dist) >= sep_strength_sq(d2, sep_dist),
        (d2 - d1) * SCALE >= sep_dist ==> sep_strength_sq(d1, sep_dist) > sep_strength_sq(
            d2,
            sep_dist,
        ),
{
    let r1 = tdiv(d1 * SCALE, sep_dist);
    let r2 = tdiv(d2 * SCALE, sep_dist);
    assert(0 <= d1 * SCALE <= d2 * SCALE) by (nonlinear_arith)
        requires
            0 <= d1 < d2,
    {}
    vstd::arithmetic::div_mod::lemma_div_is_ordered(d1 * SCALE, d2 * SCALE, sep_dist);
    vstd::arithmetic::div_mod::lemma_div_pos_is_pos(d1 * SCALE, sep_dist);
    // the ratio stays below one: d < sep_dist gives d * SCALE < SCALE * sep_dist
    assert(d2 * SCALE < SCALE * sep_dist) by (nonlinear_arith)
        requires
            d2 < sep_dist,
            SCALE > 0,
    {}
    vstd::arithmetic::div_mod::lemma_multiply_divide_lt(d2 * SCALE, sep_dist, SCALE as int);
    let t1 = SCALE - r1;
    let t2 = SCALE - r2;
    assert(1 <= t2 <= t1 <= SCALE);
    assert(t1 * t1 >= t2 * t2) by (nonlinear_arith)
        requires
            0 <= t2 <= t1,
    {}
    vstd::arithmetic::div_mod::lemma_div_is_ordered(t2 * t2, t1 * t1, SCALE as int);
    if (d2 - d1) * SCALE >= sep_dist {
        assert(d2 * SCALE >= d1 * SCALE + sep_dist) by (nonlinear_arith)
            requires
                (d2 - d1) * SCALE >= sep_dist,
        {}
        vstd::arithmetic::div_mod::lemma_div_is_ordered(
            d1 * SCALE + sep_dist,
            d2 * SCALE,
            sep_dist,
        );
        vstd::arithmetic::div_mod::lemma_div_plus_one(d1 * SCALE, sep_dist);
        assert(r2 >= r1 + 1);
        assert(t1 * t1 > t2 * t2) by (nonlinear_arith)
            requires
                1 <= t2,
                t2 < t1,
        {}
    }
}

/// Separation contribution of one neighbor: the direction away from it,
/// with magnitude `(1 - d / separation_dist)^2`, zero outside that range.
pub open spec fn sep_term(me: Vec2Fix, other: Vec2Fix, sep_dist: int) -> (int, int)
    recommends
        sep_dist >= 1,
{
    let d = dist_fix(me, other);
    if d < sep_dist {
        let strength = sep_strength(d, sep_dist);
        let u = unit_toward_spec(other, me);
        (tdiv(u.0 * strength, SCALE as int), tdiv(u.1 * strength, SCALE as int))
    } else {
        (0, 0)
    }
}

/// Sum of the separation contributions of the first `n` snapshot entries.
pub open spec fn sep_sum(
    views: Seq<EnemyView>,
    i: int,
    me: Vec2Fix,
    visual_range: int,
    sep_dist: int,
    n: int,
) -> (int, int)
    decreases n,
{
    if n <= 0 {
        (0, 0)
    } else {
        let rest = sep_sum(views, i, me, visual_range, sep_dist, n - 1);
        if visible(views, i, n - 1, me, visual_range) {
            let c = sep_term(me, views[n - 1].position, sep_dist);
            (rest.0 + c.0, rest.1 + c.1)
        } else {
            rest
        }
    }
}

/// Sum of the positions of the visible neighbors among the first `n`
/// snapshot entries: one accumulator serves alignment and cohesion.
pub open spec fn pos_sum(
    views: Seq<EnemyView>,
    i: int,
    me: Vec2Fix,
    visual_range: int,
    n: int,
) -> (int, int)
    decreases n,
{
    if n <= 0 {
        (0, 0)
    } else {
        let rest = pos_sum(views, i, me, visual_range, n - 1);
        if visible(views, i, n - 1, me, visual_range) {
            (rest.0 + views[n - 1].position.x, rest.1 + views[n - 1].position.y)
        } else {
            rest
        }
    }
}

/// How many of the first `n` snapshot entries are visible neighbors.
pub open spec fn neighbor_count(
    views: Seq<EnemyView>,
    i: int,
    me: Vec2Fix,
    visual_range: int,
    n: int,
) -> int
    decreases n,
{
    if n <= 0 {
        0
    } else {
        neighbor_count(views, i, me, visual_range, n - 1) + if visible(
            views,
            i,
            n - 1,
            me,
            visual_range,
        ) {
            1int
        } else {
            0int
        }
    }
}

/// Each separation contribution has components of magnitude at most
/// [`SCALE`].
pub proof fn lemma_sep_term_bounds(me: Vec2Fix, other: Vec2Fix, sep_dist: int)
    requires
        sep_dist >= 1,
    ensures
        abs(sep_term(me, other, sep_dist).0) <= SCALE,
        abs(sep_term(me, other, sep_dist).1) <= SCALE,
{
    let d = dist_fix(me, other);
    lemma_component_le_len(other.x - me.x, other.y - me.y);
    if d < sep_dist {
        lemma_tdiv_bounds(d * SCALE, sep_dist);
        let t = SCALE - tdiv(d * SCALE, sep_dist);
        assert(d * SCALE >= 0) by (nonlinear_arith)
            requires
                d >= 0,
        {}
        lemma_tdiv_scaled_bound(d * SCALE, sep_dist, SCALE as int);
        assert(abs(d * SCALE) <= SCALE * sep_dist) by (nonlinear_arith)
            requires
                0 <= d < sep_dist,
        {}
        assert(0 <= t <= SCALE);
        let strength = tdiv(t * t, SCALE as int);
        assert(abs(t * t) <= SCALE * SCALE) by (nonlinear_arith)
            requires
                0 <= t <= SCALE,
        {}
        assert(t * t >= 0) by (nonlinear_arith)
        {}
        lemma_tdiv_scaled_bound(t * t, SCALE as int, SCALE as int);
        lemma_tdiv_bounds(t * t, SCALE as int);
        assert(0 <= strength <= SCALE);
        let u = unit_toward_spec(other, me);
        lemma_unit_of_bounds(me.x - other.x, me.y - other.y);
        lemma_abs_mul_bound(u.0, strength, SCALE as int, SCALE as int);
        lemma_abs_mul_bound(u.1, strength, SCALE as int, SCALE as int);
        lemma_tdiv_scaled_bound(u.0 * strength, SCALE as int, SCALE as int);
        lemma_tdiv_scaled_bound(u.1 * strength, SCALE as int, SCALE as int);
    }
}

/// Bounds that grow with the prefix: the separation sum stays within
/// `n * SCALE` per component; the position sum and neighbor count stay
/// within the world times the count.
pub proof fn lemma_flock_sums_bounds(
    views: Seq<EnemyView>,
    i: int,
    me: Vec2Fix,
    visual_range: int,
    sep_dist: int,
    n: int,
)
    requires
        sep_dist >= 1,
        views_wf(views),
        0 <= n <= views.len(),
    ensures
        abs(sep_sum(views, i, me, visual_range, sep_dist, n).0) <= n * SCALE,
        abs(sep_sum(views, i, me, visual_range, sep_dist, n).1) <= n * SCALE,
        0 <= neighbor_count(views, i, me, visual_range, n) <= n,
        0 <= pos_sum(views, i, me, visual_range, n).0 <= neighbor_count(
            views,
            i,
            me,
            visual_range,
            n,
        ) * WORLD_WIDTH,
        0 <= pos_sum(views, i, me, visual_range, n).1 <= neighbor_count(
            views,
            i,
            me,
            visual_range,
            n,
        ) * WORLD_HEIGHT,
    decreases n,
{
    if n > 0 {
        lemma_flock_sums_bounds(views, i, me, visual_range, sep_dist, n - 1);
        lemma_sep_term_bounds(me, views[n - 1].position, sep_dist);
        let cnt = neighbor_count(views, i, me, visual_range, n - 1);
        assert((n - 1) * SCALE + SCALE == n * SCALE) by (nonlinear_arith)
        {}
        assert(cnt * WORLD_WIDTH + WORLD_WIDTH == (cnt + 1) * WORLD_WIDTH) by (nonlinear_arith)
        {}
        assert(cnt * WORLD_HEIGHT + WORLD_HEIGHT == (cnt + 1) * WORLD_HEIGHT) by (nonlinear_arith)
        {}
    }
}

/// Scale a unit-length direction by a weight: `u * w / SCALE`, bounded by
/// the weight itself.
pub open spec fn weigh(u: (int, int), w: int) -> (int, int) {
    (tdiv(u.0 * w, SCALE as int), tdiv(u.1 * w, SCALE as int))
}

pub proof fn lemma_weigh_bounds(u: (int, int), w: int)
    requires
        abs(u.0) <= SCALE,
        abs(u.1) <= SCALE,
        0 <= w,
    ensures
        abs(weigh(u, w).0) <= w,
        abs(weigh(u, w).1) <= w,
{
    lemma_abs_mul_bound(u.0, w, SCALE as int, w);
    lemma_abs_mul_bound(u.1, w, SCALE as int, w);
    assert(SCALE * w == w * SCALE) by (nonlinear_arith)
    {}
    lemma_tdiv_scaled_bound(u.0 * w, SCALE as int, w);
    lemma_tdiv_scaled_bound(u.1 * w, SCALE as int, w);
}

/// Weigh a unit direction, executably.
fn weigh_exec(u: Vec2Fix, w: i64) -> (r: Vec2Fix)
    requires
        in_range(u, SCALE as int),
        0 <= w <= FIX_MAX,
    ensures
        (r.x as int, r.y as int) == weigh((u.x as int, u.y as int), w as int),
        in_range(r, w as int),
{
    proof {
        lemma_abs_mul_bound(u.x as int, w as int, SCALE as int, FIX_MAX as int);
        lemma_abs_mul_bound(u.y as int, w as int, SCALE as int, FIX_MAX as int);
        lemma_weigh_bounds((u.x as int, u.y as int), w as int);
    }
    let x = mul_div_trunc(u.x, w, SCALE);
    let y = mul_div_trunc(u.y, w, SCALE);
    Vec2Fix { x, y }
}

/// Weighing a direction of at most one unit caps the Euclidean magnitude
/// at the weight.
pub proof fn lemma_weigh_norm(u: (int, int), w: int)
    requires
        norm2(u.0, u.1) <= SCALE * SCALE,
        0 <= w,
    ensures
        norm2(weigh(u, w).0, weigh(u, w).1) <= w * w,
{
    assert(norm2(u.0 * w, u.1 * w) <= (w * w) * (SCALE * SCALE)) by (nonlinear_arith)
        requires
            norm2(u.0, u.1) <= SCALE * SCALE,
            norm2(u.0, u.1) == u.0 * u.0 + u.1 * u.1,
            norm2(u.0 * w, u.1 * w) == (u.0 * w) * (u.0 * w) + (u.1 * w) * (u.1 * w),
            0 <= w,
    {}
    lemma_div_pair_norm(u.0 * w, u.1 * w, SCALE as int, w * w);
}

/// Clamping a position into the world never lengthens the step that led
/// to it.
pub proof fn lemma_clamp_step_bound(me: Vec2Fix, vx: int, vy: int, cap: int)
    requires
        in_world(me),
        norm2(vx, vy) <= cap,
    ensures
        norm2(
            spec_clamp(me.x + vx, 0, WORLD_WIDTH as int) - me.x,
            spec_clamp(me.y + vy, 0, WORLD_HEIGHT as int) - me.y,
        ) <= cap,
{
    let dx = spec_clamp(me.x + vx, 0, WORLD_WIDTH as int) - me.x;
    let dy = spec_clamp(me.y + vy, 0, WORLD_HEIGHT as int) - me.y;
    assert(abs(dx) <= abs(vx));
    assert(abs(dy) <= abs(vy));
    assert(dx * dx + dy * dy <= vx * vx + vy * vy) by (nonlinear_arith)
        requires
            abs(dx) <= abs(vx),
            abs(dy) <= abs(vy),
    {}
}

/// Speed cap of the flocking step: whatever the neighbors, the target and
/// the noise, the Euclidean displacement of one step never exceeds
/// `max_speed`.
pub proof fn lemma_boids_step_speed_cap(
    b: BoidsMovement,
    me: Vec2Fix,
    target: Vec2Fix,
    views: Seq<EnemyView>,
    i: int,
    nx: int,
    ny: int,
)
    requires
        b.wf(),
        in_world(me),
    ensures
        ({
            let r = boids_step_spec(b, me, target, views, i, nx, ny);
            norm2(r.0 - me.x, r.1 - me.y) <= b.max_speed * b.max_speed
        }),
{
    let n = views.len() as int;
    let cnt = neighbor_count(views, i, me, b.visual_range as int, n);
    let sep = sep_sum(views, i, me, b.visual_range as int, b.separation_dist as int, n);
    let sep_f = weigh(unit_of(sep.0, sep.1), b.separation_weight as int);
    let flock = if cnt > 0 {
        let ps = pos_sum(views, i, me, b.visual_range as int, n);
        let mean = (tdiv(ps.0, cnt), tdiv(ps.1, cnt));
        let dir = unit_of(mean.0 - me.x, mean.1 - me.y);
        let align_f = weigh(dir, b.alignment_weight as int);
        let coh_f = weigh(dir, b.cohesion_weight as int);
        (sep_f.0 + align_f.0 + coh_f.0, sep_f.1 + align_f.1 + coh_f.1)
    } else {
        sep_f
    };
    let pf = player_pull_spec(b, me, target);
    let noise_f = (
        tdiv(nx * b.noise_strength as int, SCALE as int),
        tdiv(ny * b.noise_strength as int, SCALE as int),
    );
    let steer = (flock.0 + pf.0 + noise_f.0, flock.1 + pf.1 + noise_f.1);
    let vu = unit_capped_of(steer.0, steer.1);
    lemma_unit_capped_norm(steer.0, steer.1);
    lemma_weigh_norm(vu, b.max_speed as int);
    let vel = weigh(vu, b.max_speed as int);
    lemma_clamp_step_bound(me, vel.0, vel.1, b.max_speed as int * b.max_speed as int);
}

/// Attraction toward the player: the unit direction to the target, scaled
/// by `player_weight` times a sub-linear falloff
/// `sqrt(1 - clamp(d / player_distance, 0, 1))`.
pub open spec fn player_pull_spec(b: BoidsMovement, me: Vec2Fix, target: Vec2Fix) -> (int, int) {
    let d = dist_fix(me, target);
    let ratio = spec_clamp(tdiv(d * SCALE, b.player_distance as int), 0, SCALE as int);
    let falloff = sqrt_floor(((SCALE - ratio) * SCALE) as nat) as int;
    let pw = tdiv(b.player_weight * falloff, SCALE as int);
    weigh(unit_toward_spec(me, target), pw)
}

/// One flocking step for the enemy at `index`, with the noise sample
/// `(nx, ny)` already drawn: all forces combined, normalised (dividing by
/// the steering sum's length rounded up, so the step is never longer than
/// one unit), scaled to `max_speed`, integrated and clamped to the world —
/// the Euclidean displacement never exceeds `max_speed`. Alignment and
/// cohesion share one accumulator — the sum of visible neighbor
/// positions — so both steer along the unit direction toward the mean
/// neighbor position, under their own weights; with no neighbors both
/// are skipped entirely rather than zero-filled.
pub open spec fn boids_step_spec(
    b: BoidsMovement,
    me: Vec2Fix,
    target: Vec2Fix,
    views: Seq<EnemyView>,
    i: int,
    nx: int,
    ny: int,
) -> (int, int) {
    let n = views.len() as int;
    let cnt = neighbor_count(views, i, me, b.visual_range as int, n);
    let sep = sep_sum(views, i, me, b.visual_range as int, b.separation_dist as int, n);
    let sep_f = weigh(unit_of(sep.0, sep.1), b.separation_weight as int);
    let flock = if cnt > 0 {
        let ps = pos_sum(views, i, me, b.visual_range as int, n);
        let mean = (tdiv(ps.0, cnt), tdiv(ps.1, cnt));
        let dir = unit_of(mean.0 - me.x, mean.1 - me.y);
        let align_f = weigh(dir, b.alignment_weight as int);
        let coh_f = weigh(dir, b.cohesion_weight as int);
        (sep_f.0 + align_f.0 + coh_f.0, sep_f.1 + align_f.1 + coh_f.1)
    } else {
        sep_f
    };
    let pf = player_pull_spec(b, me, target);
    let noise_f = (
        tdiv(nx * b.noise_strength, SCALE as int),
        tdiv(ny * b.noise_strength, SCALE as int),
    );
    let steer = (flock.0 + pf.0 + noise_f.0, flock.1 + pf.1 + noise_f.1);
    let vel = weigh(unit_capped_of(steer.0, steer.1), b.max_speed as int);
    (
        spec_clamp(me.x + vel.0, 0, WORLD_WIDTH as int),
        spec_clamp(me.y + vel.1, 0, WORLD_HEIGHT as int),
    )
}

impl BoidsMovement {
    /// One flocking step with an explicit noise sample; everything after
    /// the draw is deterministic and exactly the specified combination.
    pub fn step(
        &self,
        me: Vec2Fix,
        target: Vec2Fix,
        index: usize,
        views: &Vec<EnemyView>,
        nx: i64,
        ny: i64,
    ) -> (r: Vec2Fix)
        requires
            self.wf(),
            in_world(me),
            in_world(target),
            views_wf(views@),
            views@.len() <= MAX_POPULATION,
            abs(nx as int) <= NOISE_BOUND,
            abs(ny as int) <= NOISE_BOUND,
        ensures
            (r.x as int, r.y as int) == boids_step_spec(
                *self,
                me,
                target,
                views@,
                index as int,
                nx as int,
                ny as int,
            ),
            in_world(r),
            norm2(r.x - me.x, r.y - me.y) <= self.max_speed * self.max_speed,
    {
        proof {
            lemma_boids_step_speed_cap(
                *self,
                me,
                target,
                views@,
                index as int,
                nx as int,
                ny as int,
            );
        }
        let ghost i = index as int;
        let ghost vr = self.visual_range as int;
        let ghost sd = self.separation_dist as int;
        let mut sep_x: i64 = 0;
        let mut sep_y: i64 = 0;
        let mut ps_x: i64 = 0;
        let mut ps_y: i64 = 0;
        let mut cnt: i64 = 0;
        let mut j: usize = 0;
        while j < views.len()
            invariant
                self.wf(),
                in_world(me),
                views_wf(views@),
                views@.len() <= MAX_POPULATION,
                i == index as int,
                vr == self.visual_range as int,
                sd == self.separation_dist as int,
                0 <= j <= views@.len(),
                (sep_x as int, sep_y as int) == sep_sum(views@, i, me, vr, sd, j as int),
                (ps_x as int, ps_y as int) == pos_sum(views@, i, me, vr, j as int),
                cnt as int == neighbor_count(views@, i, me, vr, j as int),
            decreases views@.len() - j,
        {
            proof {
                lemma_flock_sums_bounds(views@, i, me, vr, sd, j as int);
                lemma_flock_sums_bounds(views@, i, me, vr, sd, j + 1);
            }
            let v = views[j];
            let d = dist_exec(me, v.position);
            if j != index && v.alive && d < self.visual_range {
                cnt = cnt + 1;
                ps_x = ps_x + v.position.x;
                ps_y = ps_y + v.position.y;
                if d < self.separation_dist {
                    proof {
                        lemma_sep_term_bounds(me, views@[j as int].position, sd);
                        lemma_abs_mul_bound(d as int, SCALE as int, 2_000_000_000, SCALE as int);
                        lemma_tdiv_bounds(d as int * SCALE as int, sd);
                        assert(d as int * SCALE >= 0) by (nonlinear_arith)
                            requires
                                d >= 0,
                        {}
                        lemma_tdiv_scaled_bound(d as int * SCALE, sd, SCALE as int);
                        assert(abs(d as int * SCALE) <= SCALE * sd) by (nonlinear_arith)
                            requires
                                0 <= d < sd,
                        {}
                    }
                    let t = SCALE - div_trunc(d * SCALE, self.separation_dist);
                    proof {
                        lemma_abs_mul_bound(t as int, t as int, SCALE as int, SCALE as int);
                        assert(t as int * t as int >= 0) by (nonlinear_arith)
                        {}
                        lemma_tdiv_scaled_bound(t as int * t as int, SCALE as int, SCALE as int);
                        lemma_tdiv_bounds(t as int * t as int, SCALE as int);
                    }
                    let strength = div_trunc(t * t, SCALE);
                    let u = unit_toward(v.position, me);
                    let c = weigh_exec(u, strength);
                    sep_x = sep_x + c.x;
                    sep_y = sep_y + c.y;
                }
            }
            j = j + 1;
        }
        proof {
            lemma_flock_sums_bounds(views@, i, me, vr, sd, views@.len() as int);
            assert(views@.len() as int * SCALE <= 100_000 * SCALE) by (nonlinear_arith)
                requires
                    views@.len() <= 100_000,
            {}
            assert(neighbor_count(views@, i, me, vr, views@.len() as int) * WORLD_WIDTH
                <= 100_000int * WORLD_WIDTH) by (nonlinear_arith)
                requires
                    neighbor_count(views@, i, me, vr, views@.len() as int) <= 100_000,
                    neighbor_count(views@, i, me, vr, views@.len() as int) >= 0,
            {}
            assert(neighbor_count(views@, i, me, vr, views@.len() as int) * WORLD_HEIGHT
                <= 100_000int * WORLD_HEIGHT) by (nonlinear_arith)
                requires
                    neighbor_count(views@, i, me, vr, views@.len() as int) <= 100_000,
                    neighbor_count(views@, i, me, vr, views@.len() as int) >= 0,
            {}
        }
        let sep_u = unit_exec(sep_x, sep_y);
        let sep_f = weigh_exec(sep_u, self.separation_weight);
        let mut flock_x: i64 = sep_f.x;
        let mut flock_y: i64 = sep_f.y;
        if cnt > 0 {
            proof {
                lemma_tdiv_scaled_bound(ps_x as int, cnt as int, WORLD_WIDTH as int);
                lemma_tdiv_scaled_bound(ps_y as int, cnt as int, WORLD_HEIGHT as int);
                lemma_tdiv_bounds(ps_x as int, cnt as int);
                lemma_tdiv_bounds(ps_y as int, cnt as int);
            }
            let mean_x = div_trunc(ps_x, cnt);
            let mean_y = div_trunc(ps_y, cnt);
            let dir = unit_exec(mean_x - me.x, mean_y - me.y);
            let align_f = weigh_exec(dir, self.alignment_weight);
            let coh_f = weigh_exec(dir, self.cohesion_weight);
            flock_x = flock_x + align_f.x + coh_f.x;
            flock_y = flock_y + align_f.y + coh_f.y;
        }
        let pf = self.player_pull(me, target);
        proof {
            lemma_abs_mul_bound(nx as int, self.noise_strength as int, NOISE_BOUND as int, FIX_MAX as int);
            lemma_abs_mul_bound(ny as int, self.noise_strength as int, NOISE_BOUND as int, FIX_MAX as int);
            lemma_tdiv_scaled_bound(nx as int * self.noise_strength as int, SCALE as int, FIX_MAX as int);
            lemma_tdiv_scaled_bound(ny as int * self.noise_strength as int, SCALE as int, FIX_MAX as int);
            assert(abs(nx as int * self.noise_strength as int) <= FIX_MAX as int * SCALE as int)
                by (nonlinear_arith)
                requires
                    abs(nx as int) <= 500,
                    0 <= self.noise_strength <= FIX_MAX,
            {}
            assert(abs(ny as int * self.noise_strength as int) <= FIX_MAX as int * SCALE as int)
                by (nonlinear_arith)
                requires
                    abs(ny as int) <= 500,
                    0 <= self.noise_strength <= FIX_MAX,
            {}
        }
        let noise_x = mul_div_trunc(nx, self.noise_strength, SCALE);
        let noise_y = mul_div_trunc(ny, self.noise_strength, SCALE);
        let steer_x = flock_x + pf.x + noise_x;
        let steer_y = flock_y + pf.y + noise_y;
        let vu = unit_capped_exec(steer_x, steer_y);
        let vel = weigh_exec(vu, self.max_speed);
        let rx = clamp_fix(me.x + vel.x, 0, WORLD_WIDTH);
        let ry = clamp_fix(me.y + vel.y, 0, WORLD_HEIGHT);
        Vec2Fix { x: rx, y: ry }
    }

    /// The attraction toward the player, sub-linear in the distance.
    fn player_pull(&self, me: Vec2Fix, target: Vec2Fix) -> (r: Vec2Fix)
        requires
            self.wf(),
            in_world(me),
            in_world(target),
        ensures
            (r.x as int, r.y as int) == player_pull_spec(*self, me, target),
            in_range(r, FIX_MAX as int),
    {
        let d = dist_exec(me, target);
        proof {
            lemma_abs_mul_bound(d as int, SCALE as int, 2_000_000_000, SCALE as int);
        }
        let ratio = clamp_fix(
            mul_div_trunc(d, SCALE, self.player_distance),
            0,
            SCALE,
        );
        let falloff = isqrt(((SCALE - ratio) * SCALE) as u64);
        proof {
            lemma_sqrt_floor(((SCALE - ratio) * SCALE) as nat);
            lemma_sqrt_floor_monotonic(
                ((SCALE - ratio) * SCALE) as nat,
                (SCALE * SCALE) as nat,
            );
            lemma_sqrt_floor_square(SCALE as nat);
            lemma_abs_mul_bound(
                self.player_weight as int,
                falloff as int,
                FIX_MAX as int,
                SCALE as int,
            );
            lemma_tdiv_scaled_bound(
                self.player_weight as int * falloff as int,
                SCALE as int,
                FIX_MAX as int,
            );
            assert(abs(self.player_weight as int * falloff as int) <= FIX_MAX as int * SCALE as int)
                by (nonlinear_arith)
                requires
                    0 <= self.player_weight <= FIX_MAX,
                    0 <= falloff <= SCALE,
            {}
            assert(self.player_weight as int * falloff as int >= 0) by (nonlinear_arith)
                requires
                    self.player_weight >= 0,
                    falloff >= 0,
            {}
            lemma_tdiv_bounds(self.player_weight as int * falloff as int, SCALE as int);
        }
        let pw = mul_div_trunc(self.player_weight, falloff as i64, SCALE);
        let u = unit_toward(me, target);
        weigh_exec(u, pw)
    }
}

/// One step of the straight chase: the unit direction toward the target,
/// scaled by the speed, integrated and clamped to the world.
pub open spec fn direct_step_spec(m: DirectMovement, me: Vec2Fix, target: Vec2Fix) -> (int, int) {
    let u = unit_toward_spec(me, target);
    (
        spec_clamp(me.x + tdiv(u.0 * m.speed, SCALE as int), 0, WORLD_WIDTH as int),
        spec_clamp(me.y + tdiv(u.1 * m.speed, SCALE as int), 0, WORLD_HEIGHT as int),
    )
}

/// One step of the sinusoidal chase: the straight chase plus a wobble of
/// magnitude `amplitude * frequency` driven by the elapsed time.
pub open spec fn sinusoidal_step_spec(
    m: SinusoidalMovement,
    me: Vec2Fix,
    target: Vec2Fix,
    time: int,
) -> (int, int) {
    let u = unit_toward_spec(me, target);
    let wob_x = tdiv(tdiv(sin_fix_spec(time) * m.amplitude, SCALE as int) * m.frequency, SCALE as int);
    let wob_y = tdiv(tdiv(cos_fix_spec(time) * m.amplitude, SCALE as int) * m.frequency, SCALE as int);
    (
        spec_clamp(me.x + tdiv(u.0 * m.speed, SCALE as int) + wob_x, 0, WORLD_WIDTH as int),
        spec_clamp(me.y + tdiv(u.1 * m.speed, SCALE as int) + wob_y, 0, WORLD_HEIGHT as int),
    )
}

/// One step of the zigzag chase: the straight chase plus a vertical
/// oscillation whose phase is shifted by 0.3 per enemy index.
pub open spec fn zigzag_step_spec(
    m: ZigzagMovement,
    me: Vec2Fix,
    target: Vec2Fix,
    time: int,
    i: int,
) -> (int, int) {
    let u = unit_toward_spec(me, target);
    let phase = tdiv(time * m.frequency, SCALE as int) + i * 300;
    let zig = tdiv(sin_fix_spec(phase) * m.amplitude, SCALE as int);
    (
        spec_clamp(me.x + tdiv(u.0 * m.speed, SCALE as int), 0, WORLD_WIDTH as int),
        spec_clamp(me.y + tdiv(u.1 * m.speed, SCALE as int) + zig, 0, WORLD_HEIGHT as int),
    )
}

/// One step of the orbit: a point on the circle of the configured radius
/// around the target, at an angle advancing with time and shifted by 0.1
/// per enemy index.
pub open spec fn orbit_step_spec(m: OrbitMovement, target: Vec2Fix, time: int, i: int) -> (
    int,
    int,
) {
    let angle = tdiv(time * m.angular_speed, SCALE as int) + i * 100;
    (
        spec_clamp(target.x + tdiv(cos_fix_spec(angle) * m.radius, SCALE as int), 0, WORLD_WIDTH as int),
        spec_clamp(target.y + tdiv(sin_fix_spec(angle) * m.radius, SCALE as int), 0, WORLD_HEIGHT as int),
    )
}

/// One movement step of whichever strategy is selected; only the flocking
/// strategy reads the noise sample.
pub open spec fn strategy_step_spec(
    s: MovementStrategy,
    me: Vec2Fix,
    target: Vec2Fix,
    time: int,
    i: int,
    views: Seq<EnemyView>,
    nx: int,
    ny: int,
) -> (int, int) {
    match s {
        MovementStrategy::Boids(b) => boids_step_spec(b, me, target, views, i, nx, ny),
        MovementStrategy::Direct(m) => direct_step_spec(m, me, target),
        MovementStrategy::Sinusoidal(m) => sinusoidal_step_spec(m, me, target, time),
        MovementStrategy::Zigzag(m) => zigzag_step_spec(m, me, target, time, i),
        MovementStrategy::Orbit(m) => orbit_step_spec(m, target, time, i),
    }
}

/// The facing an enemy keeps after a movement step: unchanged when it did
/// not move, else the unit direction of the movement.
pub open spec fn last_move_of(prev: Vec2Fix, np: Vec2Fix, old_lm: Vec2Fix) -> Vec2Fix {
    if np.x == prev.x && np.y == prev.y {
        old_lm
    } else {
        let u = unit_toward_spec(prev, np);
        Vec2Fix { x: u.0 as i64, y: u.1 as i64 }
    }
}

/// The enemy at `i` moved from `prev` to `newpos` by one strategy step for
/// some in-bounds noise sample, and its facing followed the movement.
pub open spec fn stepped_ok(
    s: MovementStrategy,
    prev: Vec2Fix,
    target: Vec2Fix,
    time: int,
    i: int,
    views: Seq<EnemyView>,
    newpos: Vec2Fix,
    old_lm: Vec2Fix,
    new_lm: Vec2Fix,
) -> bool {
    exists|nx: int, ny: int|
        {
            &&& abs(nx) <= NOISE_BOUND
            &&& abs(ny) <= NOISE_BOUND
            &&& (newpos.x as int, newpos.y as int) == #[trigger] strategy_step_spec(
                s,
                prev,
                target,
                time,
                i,
                views,
                nx,
                ny,
            )
            &&& new_lm == last_move_of(prev, newpos, old_lm)
        }
}

/// The chase displacement `unit_toward * speed / SCALE`.
fn chase_term(me: Vec2Fix, target: Vec2Fix, speed: i64) -> (r: Vec2Fix)
    requires
        in_world(me),
        in_world(target),
        0 <= speed <= FIX_MAX,
    ensures
        r.x as int == tdiv(unit_toward_spec(me, target).0 * speed, SCALE as int),
        r.y as int == tdiv(unit_toward_spec(me, target).1 * speed, SCALE as int),
        in_range(r, speed as int),
{
    let u = unit_toward(me, target);
    weigh_exec(u, speed)
}

/// `sin_fix_spec(time * f / SCALE + i * shift)` with its phase, executably.
fn phase_angle(time: i64, f: i64, index: usize, shift: i64) -> (r: i64)
    requires
        0 <= time <= FIX_MAX,
        0 <= f <= FIX_MAX,
        index <= MAX_POPULATION,
        0 <= shift <= 1_000,
    ensures
        r == tdiv(time as int * f as int, SCALE as int) + index as int * shift,
        0 <= r <= 100_000_000_000_000,
{
    proof {
        lemma_abs_mul_bound(time as int, f as int, FIX_MAX as int, FIX_MAX as int);
        lemma_tdiv_bounds(time as int * f as int, SCALE as int);
        assert(time as int * f as int >= 0) by (nonlinear_arith)
            requires
                time >= 0,
                f >= 0,
        {}
        lemma_abs_mul_bound(index as int, shift as int, MAX_POPULATION as int, 1_000);
        assert(index as int * shift >= 0) by (nonlinear_arith)
            requires
                index as int >= 0,
                shift >= 0,
        {}
    }
    let base = mul_div_trunc(time, f, SCALE);
    base + (index as i64) * shift
}

impl DirectMovement {
    pub fn step(&self, me: Vec2Fix, target: Vec2Fix) -> (r: Vec2Fix)
        requires
            self.wf(),
            in_world(me),
            in_world(target),
        ensures
            (r.x as int, r.y as int) == direct_step_spec(*self, me, target),
            in_world(r),
    {
        let c = chase_term(me, target, self.speed);
        Vec2Fix {
            x: clamp_fix(me.x + c.x, 0, WORLD_WIDTH),
            y: clamp_fix(me.y + c.y, 0, WORLD_HEIGHT),
        }
    }
}

impl SinusoidalMovement {
    pub fn step(&self, me: Vec2Fix, target: Vec2Fix, time: i64) -> (r: Vec2Fix)
        requires
            self.wf(),
            in_world(me),
            in_world(target),
            0 <= time <= FIX_MAX,
        ensures
            (r.x as int, r.y as int) == sinusoidal_step_spec(*self, me, target, time as int),
            in_world(r),
    {
        let c = chase_term(me, target, self.speed);
        let s = sin_fix(time);
        let co = cos_fix(time);
        proof {
            lemma_abs_mul_bound(s as int, self.amplitude as int, SCALE as int, FIX_MAX as int);
            lemma_abs_mul_bound(co as int, self.amplitude as int, SCALE as int, FIX_MAX as int);
            lemma_tdiv_scaled_bound(s as int * self.amplitude as int, SCALE as int, FIX_MAX as int);
            lemma_tdiv_scaled_bound(co as int * self.amplitude as int, SCALE as int, FIX_MAX as int);
        }
        let ax = mul_div_trunc(s, self.amplitude, SCALE);
        let ay = mul_div_trunc(co, self.amplitude, SCALE);
        proof {
            lemma_abs_mul_bound(ax as int, self.frequency as int, FIX_MAX as int, FIX_MAX as int);
            lemma_abs_mul_bound(ay as int, self.frequency as int, FIX_MAX as int, FIX_MAX as int);
            lemma_tdiv_scaled_bound(
                ax as int * self.frequency as int,
                SCALE as int,
                100_000_000_000_000,
            );
            lemma_tdiv_scaled_bound(
                ay as int * self.frequency as int,
                SCALE as int,
                100_000_000_000_000,
            );
        }
        let wob_x = mul_div_trunc(ax, self.frequency, SCALE);
        let wob_y = mul_div_trunc(ay, self.frequency, SCALE);
        Vec2Fix {
            x: clamp_fix(me.x + c.x + wob_x, 0, WORLD_WIDTH),
            y: clamp_fix(me.y + c.y + wob_y, 0, WORLD_HEIGHT),
        }
    }
}

impl ZigzagMovement {
    pub fn step(&self, me: Vec2Fix, target: Vec2Fix, time: i64, index: usize) -> (r: Vec2Fix)
        requires
            self.wf(),
            in_world(me),
            in_world(target),
            0 <= time <= FIX_MAX,
            index <= MAX_POPULATION,
        ensures
            (r.x as int, r.y as int) == zigzag_step_spec(
                *self,
                me,
                target,
                time as int,
                index as int,
            ),
            in_world(r),
    {
        let c = chase_term(me, target, self.speed);
        let phase = phase_angle(time, self.frequency, index, 300);
        let s = sin_fix(phase);
        proof {
            lemma_abs_mul_bound(s as int, self.amplitude as int, SCALE as int, FIX_MAX as int);
            lemma_tdiv_scaled_bound(s as int * self.amplitude as int, SCALE as int, FIX_MAX as int);
        }
        let zig = mul_div_trunc(s, self.amplitude, SCALE);
        Vec2Fix {
            x: clamp_fix(me.x + c.x, 0, WORLD_WIDTH),
            y: clamp_fix(me.y + c.y + zig, 0, WORLD_HEIGHT),
        }
    }
}

impl OrbitMovement {
    pub fn step(&self, target: Vec2Fix, time: i64, index: usize) -> (r: Vec2Fix)
        requires
            self.wf(),
            in_world(target),
            0 <= time <= FIX_MAX,
            index <= MAX_POPULATION,
        ensures
            (r.x as int, r.y as int) == orbit_step_spec(*self, target, time as int, index as int),
            in_world(r),
    {
        let angle = phase_angle(time, self.angular_speed, index, 100);
        let co = cos_fix(angle);
        let s = sin_fix(angle);
        proof {
            lemma_abs_mul_bound(co as int, self.radius as int, SCALE as int, FIX_MAX as int);
            lemma_abs_mul_bound(s as int, self.radius as int, SCALE as int, FIX_MAX as int);
            lemma_tdiv_scaled_bound(co as int * self.radius as int, SCALE as int, FIX_MAX as int);
            lemma_tdiv_scaled_bound(s as int * self.radius as int, SCALE as int, FIX_MAX as int);
        }
        let off_x = mul_div_trunc(co, self.radius, SCALE);
        let off_y = mul_div_trunc(s, self.radius, SCALE);
        Vec2Fix {
            x: clamp_fix(target.x + off_x, 0, WORLD_WIDTH),
            y: clamp_fix(target.y + off_y, 0, WORLD_HEIGHT),
        }
    }
}

impl MovementStrategy {
    pub open spec fn wf(self) -> bool {
        match self {
            MovementStrategy::Boids(b) => b.wf(),
            MovementStrategy::Direct(m) => m.wf(),
            MovementStrategy::Sinusoidal(m) => m.wf(),
            MovementStrategy::Zigzag(m) => m.wf(),
            MovementStrategy::Orbit(m) => m.wf(),
        }
    }

    /// Compute the enemy's next position. The flocking strategy draws a
    /// bounded noise sample first; whatever was drawn, the result is the
    /// specified step for some in-bounds sample, and stays in the world.
    pub fn move_enemy(
        &self,
        position: Vec2Fix,
        target: Vec2Fix,
        time: i64,
        index: usize,
        views: &Vec<EnemyView>,
    ) -> (r: Vec2Fix)
        requires
            self.wf(),
            in_world(position),
            in_world(target),
            0 <= time <= FIX_MAX,
            views_wf(views@),
            views@.len() <= MAX_POPULATION,
            index <= MAX_POPULATION,
        ensures
            in_world(r),
            exists|nx: int, ny: int|
                abs(nx) <= NOISE_BOUND && abs(ny) <= NOISE_BOUND && (r.x as int, r.y as int)
                    == #[trigger] strategy_step_spec(
                    *self,
                    position,
                    target,
                    time as int,
                    index as int,
                    views@,
                    nx,
                    ny,
                ),
    {
        match self {
            MovementStrategy::Boids(b) => {
                let nx = crate::rng::gen_range_fix(-NOISE_BOUND, NOISE_BOUND);
                let ny = crate::rng::gen_range_fix(-NOISE_BOUND, NOISE_BOUND);
                let r = b.step(position, target, index, views, nx, ny);
                proof {
                    assert(abs(nx as int) <= NOISE_BOUND && abs(ny as int) <= NOISE_BOUND && (
                    r.x as int,
                    r.y as int,
                    ) == strategy_step_spec(
                        *self,
                        position,
                        target,
                        time as int,
                        index as int,
                        views@,
                        nx as int,
                        ny as int,
                    ));
                }
                r
            },
            MovementStrategy::Direct(m) => {
                let r = m.step(position, target);
                proof {
                    assert((r.x as int, r.y as int) == strategy_step_spec(
                        *self,
                        position,
                        target,
                        time as int,
                        index as int,
                        views@,
                        0,
                        0,
                    ));
                }
                r
            },
            MovementStrategy::Sinusoidal(m) => {
                let r = m.step(position, target, time);
                proof {
                    assert((r.x as int, r.y as int) == strategy_step_spec(
                        *self,
                        position,
                        target,
                        time as int,
                        index as int,
                        views@,
                        0,
                        0,
                    ));
                }
                r
            },
            MovementStrategy::Zigzag(m) => {
                let r = m.step(position, target, time, index);
                proof {
                    assert((r.x as int, r.y as int) == strategy_step_spec(
                        *self,
                        position,
                        target,
                        time as int,
                        index as int,
                        views@,
                        0,
                        0,
                    ));
                }
                r
            },
            MovementStrategy::Orbit(m) => {
                let r = m.step(target, time, index);
                proof {
                    assert((r.x as int, r.y as int) == strategy_step_spec(
                        *self,
                        position,
                        target,
                        time as int,
                        index as int,
                        views@,
                        0,
                        0,
                    ));
                }
                r
            },
        }
    }
}

} // verus!
