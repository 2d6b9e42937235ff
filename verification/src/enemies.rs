//! The entity store: parallel arrays of enemy position, size and state,
//! their lifecycle (Pending, Live, Dead), chunked movement updates, damage
//! application and pickup-spawn requests. Dead rows are never compacted,
//! so indices captured in a snapshot stay valid for the whole frame.

use vstd::prelude::*;
use crate::vecfix::{Vec2Fix, in_range, unit_toward_spec, unit_toward};
use crate::fixed::{abs, tdiv, div_trunc, SCALE, FIX_MAX};
use crate::constants::{WORLD_WIDTH, WORLD_HEIGHT};
use crate::movement::{
    MovementStrategy, in_world, views_wf, strategy_step_spec, stepped_ok, last_move_of,
    MAX_POPULATION, NOISE_BOUND,
};
use crate::scheduler::{ChunkScheduler, chunk_start, chunk_end};
use crate::enemy_view::{EnemyView, view_wf};
use crate::rng::gen_range_fix;
use crate::player::Player;
use crate::event_bus::{EventBus, EventType};

verus! {

/// Bounding-box side of every enemy, in fixed-point units (64.0).
pub const ENEMY_SIZE: i64 = 64_000;

/// Health every enemy starts with (5.0).
pub const ENEMY_MAX_HEALTH: i64 = 5_000;

/// An enemy's pickup is worth its maximum health divided by this.
pub const ORB_VALUE_DIVISOR: i64 = 5;

#[derive(Clone, Copy, PartialEq, Eq, Structural, Debug)]
pub enum EnemyStatus {
    Pending,
    Live,
    Dead,
}

/// Which side of the player an enemy is drawn on.
#[derive(Clone, Copy, PartialEq, Eq, Structural, Debug)]
pub enum PositionOverlap {
    Behind,
    InFront,
}

#[derive(Clone, Copy, PartialEq, Eq, Structural, Debug)]
pub struct EnemyData {
    pub status: EnemyStatus,
    pub last_movement: Vec2Fix,
    pub max_health: i64,
    pub health: i64,
}

/// A pickup-spawn request: created exactly once when an enemy dies.
#[derive(Clone, Copy, PartialEq, Eq, Structural, Debug)]
pub struct ExperienceOrb {
    pub position: Vec2Fix,
    pub value: i64,
}

/// One enemy row is sound: health within bounds, and at or below zero
/// exactly for the Dead status (no resurrection, no live corpse).
pub open spec fn data_wf(d: EnemyData) -> bool {
    &&& 1 <= d.max_health <= FIX_MAX
    &&& -FIX_MAX <= d.health <= d.max_health
    &&& (d.health <= 0 <==> d.status is Dead)
    &&& in_range(d.last_movement, SCALE as int)
}

pub struct EnemySystem {
    pub positions: Vec<Vec2Fix>,
    pub sizes: Vec<Vec2Fix>,
    pub data: Vec<EnemyData>,
    pub movement_strategy: MovementStrategy,
    pub collision_strategy: crate::collision::CollisionStrategy,
    pub time: i64,
    pub scheduler: ChunkScheduler,
}

/// The read-only snapshot the skill pass works against.
pub open spec fn views_of(s: EnemySystem) -> Seq<EnemyView> {
    Seq::new(
        s.positions@.len(),
        |i: int|
            EnemyView {
                position: s.positions@[i],
                size: s.sizes@[i],
                alive: s.data@[i].status is Live,
            },
    )
}


/// How one frame of chunked movement relates the store before and after:
/// the scheduler advanced one chunk, only that chunk's Live rows moved —
/// each by one strategy step against the pre-pass snapshot — and every
/// other row, and all statuses, healths and sizes, are unchanged.
pub open spec fn moved_enemies_rel(
    e0: EnemySystem,
    e1: EnemySystem,
    target: Vec2Fix,
    dt: int,
) -> bool {
    &&& e1.wf()
    &&& e1.time == e0.time + dt
    &&& e1.scheduler.max_chunks == e0.scheduler.max_chunks
    &&& e1.scheduler.chunk_index == (e0.scheduler.chunk_index + 1) % (
    e0.scheduler.max_chunks as int)
    &&& e1.movement_strategy == e0.movement_strategy
    &&& e1.collision_strategy == e0.collision_strategy
    &&& e1.positions@.len() == e0.positions@.len()
    &&& e1.data@.len() == e0.data@.len()
    &&& e1.sizes@ == e0.sizes@
    &&& ({
        let pop = e0.positions@.len() as int;
        let mc = e0.scheduler.max_chunks as int;
        let c = (e0.scheduler.chunk_index + 1) % mc;
        let start = chunk_start(c, pop, mc);
        let end = chunk_end(c, pop, mc);
        &&& forall|i: int|
            0 <= i < pop && !(start <= i < end && e0.data@[i].status is Live) ==> (
            #[trigger] e1.positions@[i]) == e0.positions@[i]
        &&& forall|i: int|
            0 <= i < pop && !(start <= i < end && e0.data@[i].status is Live) ==> (
            #[trigger] e1.data@[i]) == e0.data@[i]
        &&& forall|i: int|
            0 <= i < pop ==> ((#[trigger] e1.data@[i]).status == e0.data@[i].status
                && e1.data@[i].health == e0.data@[i].health && e1.data@[i].max_health
                == e0.data@[i].max_health)
        &&& forall|i: int|
            start <= i < end && e0.data@[i].status is Live ==> stepped_ok(
                e0.movement_strategy,
                e0.positions@[i],
                target,
                e0.time + dt,
                i,
                views_of(e0),
                (#[trigger] e1.positions@[i]),
                e0.data@[i].last_movement,
                e1.data@[i].last_movement,
            )
    })
}

/// The enemy rows and the pickup requests after the first `n` hit events
/// are applied in order: each admissible event decrements its target's
/// health as `take_damage` does, a drop to or below zero kills the row
/// and appends exactly one pickup at the enemy's center.
pub open spec fn resolve_hits(
    positions: Seq<Vec2Fix>,
    sizes: Seq<Vec2Fix>,
    data: Seq<EnemyData>,
    hits: Seq<crate::skill_id::HitEvent>,
    n: int,
) -> (Seq<EnemyData>, Seq<ExperienceOrb>)
    decreases n,
{
    if n <= 0 {
        (data, Seq::empty())
    } else {
        let (d1, o1) = resolve_hits(positions, sizes, data, hits, n - 1);
        let ev = hits[n - 1];
        let idx = ev.enemy_index as int;
        if 0 <= ev.damage <= FIX_MAX && idx < d1.len() && !(d1[idx].status is Dead) {
            let row = d1[idx];
            let h = row.health - ev.damage;
            let d2 = d1.update(
                idx,
                EnemyData {
                    status: if h <= 0 {
                        EnemyStatus::Dead
                    } else {
                        row.status
                    },
                    last_movement: row.last_movement,
                    max_health: row.max_health,
                    health: h as i64,
                },
            );
            if h <= 0 {
                (
                    d2,
                    o1.push(
                        ExperienceOrb {
                            position: Vec2Fix {
                                x: (positions[idx].x + tdiv(sizes[idx].x as int, 2)) as i64,
                                y: (positions[idx].y + tdiv(sizes[idx].y as int, 2)) as i64,
                            },
                            value: tdiv(row.max_health as int, ORB_VALUE_DIVISOR as int) as i64,
                        },
                    ),
                )
            } else {
                (d2, o1)
            }
        } else {
            (d1, o1)
        }
    }
}

impl EnemySystem {
    pub open spec fn wf(self) -> bool {
        &&& self.positions@.len() == self.sizes@.len()
        &&& self.positions@.len() == self.data@.len()
        &&& self.positions@.len() <= MAX_POPULATION
        &&& forall|i: int| 0 <= i < self.positions@.len() ==> in_world(#[trigger] self.positions@[i])
        &&& forall|i: int|
            0 <= i < self.sizes@.len() ==> 0 < (#[trigger] self.sizes@[i]).x <= 1_000_000 && 0
                < self.sizes@[i].y <= 1_000_000
        &&& forall|i: int| 0 <= i < self.data@.len() ==> data_wf(#[trigger] self.data@[i])
        &&& self.movement_strategy.wf()
        &&& self.scheduler.wf()
        &&& 0 <= self.time <= FIX_MAX
    }

    /// Allocate `count` rows with status Pending, random positions within
    /// the world, uniform size and full health.
    pub fn new(
        count: usize,
        movement_strategy: MovementStrategy,
        collision_strategy: crate::collision::CollisionStrategy,
        max_chunks: usize,
    ) -> (s: EnemySystem)
        requires
            count <= MAX_POPULATION,
            max_chunks <= 1_000_000,
            movement_strategy.wf(),
        ensures
            s.wf(),
            s.positions@.len() == count,
            s.sizes@.len() == count,
            s.data@.len() == count,
            forall|i: int|
                0 <= i < count ==> (#[trigger] s.data@[i]) == (EnemyData {
                    status: EnemyStatus::Pending,
                    last_movement: Vec2Fix { x: SCALE, y: 0 },
                    max_health: ENEMY_MAX_HEALTH,
                    health: ENEMY_MAX_HEALTH,
                }),
            forall|i: int|
                0 <= i < count ==> (#[trigger] s.sizes@[i]) == (Vec2Fix {
                    x: ENEMY_SIZE,
                    y: ENEMY_SIZE,
                }),
            s.movement_strategy == movement_strategy,
            s.time == 0,
            s.scheduler.chunk_index == 0,
            s.scheduler.max_chunks == if max_chunks == 0 {
                1int
            } else {
                max_chunks as int
            },
    {
        let mut positions: Vec<Vec2Fix> = Vec::new();
        let mut sizes: Vec<Vec2Fix> = Vec::new();
        let mut data: Vec<EnemyData> = Vec::new();
        let mut i: usize = 0;
        while i < count
            invariant
                0 <= i <= count,
                positions@.len() == i,
                sizes@.len() == i,
                data@.len() == i,
                forall|k: int| 0 <= k < i ==> in_world(#[trigger] positions@[k]),
                forall|k: int|
                    0 <= k < i ==> (#[trigger] sizes@[k]) == (Vec2Fix {
                        x: ENEMY_SIZE,
                        y: ENEMY_SIZE,
                    }),
                forall|k: int|
                    0 <= k < i ==> (#[trigger] data@[k]) == (EnemyData {
                        status: EnemyStatus::Pending,
                        last_movement: Vec2Fix { x: SCALE, y: 0 },
                        max_health: ENEMY_MAX_HEALTH,
                        health: ENEMY_MAX_HEALTH,
                    }),
            decreases count - i,
        {
            let x = gen_range_fix(0, WORLD_WIDTH);
            let y = gen_range_fix(0, WORLD_HEIGHT);
            positions.push(Vec2Fix { x, y });
            sizes.push(Vec2Fix { x: ENEMY_SIZE, y: ENEMY_SIZE });
            data.push(
                EnemyData {
                    status: EnemyStatus::Pending,
                    last_movement: Vec2Fix { x: SCALE, y: 0 },
                    max_health: ENEMY_MAX_HEALTH,
                    health: ENEMY_MAX_HEALTH,
                },
            );
            i = i + 1;
        }
        EnemySystem {
            positions,
            sizes,
            data,
            movement_strategy,
            collision_strategy,
            time: 0,
            scheduler: ChunkScheduler::new(max_chunks),
        }
    }

    /// One-shot start of the scenario: every Pending row becomes Live.
    /// Dead stays Dead: the lifecycle has no way back.
    pub fn spawn_all(&mut self)
        requires
            old(self).wf(),
        ensures
            final(self).wf(),
            final(self).positions@ == old(self).positions@,
            final(self).sizes@ == old(self).sizes@,
            final(self).data@.len() == old(self).data@.len(),
            forall|i: int|
                0 <= i < old(self).data@.len() ==> {
                    let d = old(self).data@[i];
                    (#[trigger] final(self).data@[i]) == (EnemyData {
                        status: if d.status is Pending {
                            EnemyStatus::Live
                        } else {
                            d.status
                        },
                        last_movement: d.last_movement,
                        max_health: d.max_health,
                        health: d.health,
                    })
                },
            final(self).movement_strategy == old(self).movement_strategy,
            final(self).time == old(self).time,
            final(self).scheduler == old(self).scheduler,
    {
        let ghost orig = self.data@;
        let ghost orig_sys = *self;
        let mut i: usize = 0;
        while i < self.data.len()
            invariant
                orig_sys.wf(),
                orig == orig_sys.data@,
                self.positions@ == orig_sys.positions@,
                self.sizes@ == orig_sys.sizes@,
                self.movement_strategy == orig_sys.movement_strategy,
                self.collision_strategy == orig_sys.collision_strategy,
                self.time == orig_sys.time,
                self.scheduler == orig_sys.scheduler,
                self.data@.len() == orig.len(),
                forall|k: int| 0 <= k < orig.len() ==> data_wf(#[trigger] orig[k]),
                0 <= i <= orig.len(),
                forall|k: int|
                    i <= k < orig.len() ==> (#[trigger] self.data@[k]) == orig[k],
                forall|k: int|
                    0 <= k < i ==> (#[trigger] self.data@[k]) == (EnemyData {
                        status: if orig[k].status is Pending {
                            EnemyStatus::Live
                        } else {
                            orig[k].status
                        },
                        last_movement: orig[k].last_movement,
                        max_health: orig[k].max_health,
                        health: orig[k].health,
                    }),
            decreases orig.len() - i,
        {
            let mut d = self.data[i];
            if matches!(d.status, EnemyStatus::Pending) {
                d.status = EnemyStatus::Live;
            }
            self.data.set(i, d);
            i = i + 1;
        }
    }

    /// The read-only snapshot: position, size, and whether the row is Live.
    pub fn to_views(&self) -> (r: Vec<EnemyView>)
        requires
            self.wf(),
        ensures
            r@ == views_of(*self),
            r@.len() == self.positions@.len(),
            views_wf(r@),
    {
        let mut r: Vec<EnemyView> = Vec::new();
        let mut i: usize = 0;
        while i < self.positions.len()
            invariant
                self.wf(),
                0 <= i <= self.positions@.len(),
                r@.len() == i,
                forall|k: int| 0 <= k < i ==> (#[trigger] r@[k]) == views_of(*self)[k],
            decreases self.positions@.len() - i,
        {
            let alive = matches!(self.data[i].status, EnemyStatus::Live);
            r.push(EnemyView { position: self.positions[i], size: self.sizes[i], alive });
            i = i + 1;
        }
        proof {
            assert(r@ =~= views_of(*self));
        }
        r
    }

    /// One frame of movement: the scheduler advances to the next chunk and
    /// only the Live enemies of that chunk get new positions, computed by
    /// the movement strategy against a snapshot taken before the pass;
    /// everyone else keeps position and state. A moved enemy's facing
    /// follows its movement.
    #[verifier::rlimit(100)]
    #[verifier::spinoff_prover]
    pub fn update_movement(&mut self, target_pos: Vec2Fix, dt: i64)
        requires
            old(self).wf(),
            in_world(target_pos),
            0 <= dt,
            old(self).time + dt <= FIX_MAX,
        ensures
            final(self).wf(),
            final(self).time == old(self).time + dt,
            final(self).scheduler.max_chunks == old(self).scheduler.max_chunks,
            final(self).scheduler.chunk_index == (old(self).scheduler.chunk_index + 1) % (
            old(self).scheduler.max_chunks as int),
            final(self).movement_strategy == old(self).movement_strategy,
            final(self).collision_strategy == old(self).collision_strategy,
            final(self).positions@.len() == old(self).positions@.len(),
            final(self).data@.len() == old(self).data@.len(),
            final(self).sizes@ == old(self).sizes@,
            ({
                let pop = old(self).positions@.len() as int;
                let mc = old(self).scheduler.max_chunks as int;
                let c = (old(self).scheduler.chunk_index + 1) % mc;
                let start = chunk_start(c, pop, mc);
                let end = chunk_end(c, pop, mc);
                &&& forall|i: int|
                    0 <= i < pop && !(start <= i < end && old(self).data@[i].status is Live)
                        ==> (#[trigger] final(self).positions@[i]) == old(self).positions@[i]
                &&& forall|i: int|
                    0 <= i < pop && !(start <= i < end && old(self).data@[i].status is Live)
                        ==> (#[trigger] final(self).data@[i]) == old(self).data@[i]
                &&& forall|i: int|
                    0 <= i < pop ==> ((#[trigger] final(self).data@[i]).status == old(
                    self).data@[i].status && final(self).data@[i].health == old(
                    self).data@[i].health && final(self).data@[i].max_health == old(
                    self).data@[i].max_health)
                &&& forall|i: int|
                    start <= i < end && old(self).data@[i].status is Live ==> stepped_ok(
                        old(self).movement_strategy,
                        old(self).positions@[i],
                        target_pos,
                        old(self).time + dt,
                        i,
                        views_of(*old(self)),
                        (#[trigger] final(self).positions@[i]),
                        old(self).data@[i].last_movement,
                        final(self).data@[i].last_movement,
                    )
            }),
    {
        let ghost views0 = views_of(*old(self));
        self.time = self.time + dt;
        self.scheduler.advance();
        let (start, end) = self.scheduler.chunk_bounds(self.positions.len());
        let views = self.to_views();
        proof {
            assert(views@ =~= views0);
        }
        let ghost orig_sys = *old(self);
        let ghost g_pos = self.positions@;
        let ghost g_data = self.data@;
        let ghost g_time = self.time as int;
        let ghost g_sched = self.scheduler;
        let mut i: usize = start;
        while i < end
            invariant
                self.wf(),
                orig_sys.wf(),
                g_pos == orig_sys.positions@,
                g_data.len() == g_pos.len(),
                g_data == orig_sys.data@,
                views@ == views_of(orig_sys),
                views_wf(views@),
                views@.len() == g_pos.len(),
                self.movement_strategy == orig_sys.movement_strategy,
                self.movement_strategy.wf(),
                self.collision_strategy == orig_sys.collision_strategy,
                self.sizes@ == orig_sys.sizes@,
                self.time == g_time,
                0 <= g_time <= FIX_MAX,
                self.scheduler == g_sched,
                g_sched.wf(),
                in_world(target_pos),
                self.positions@.len() == g_pos.len(),
                self.data@.len() == g_data.len(),
                g_pos.len() <= MAX_POPULATION,
                start <= i <= end <= g_pos.len(),
                forall|k: int|
                    0 <= k < g_pos.len() && !(start <= k < i && g_data[k].status is Live)
                        ==> (#[trigger] self.positions@[k]) == g_pos[k],
                forall|k: int|
                    0 <= k < g_pos.len() && !(start <= k < i && g_data[k].status is Live)
                        ==> (#[trigger] self.data@[k]) == g_data[k],
                forall|k: int|
                    0 <= k < g_pos.len() ==> ((#[trigger] self.data@[k]).status
                        == g_data[k].status && self.data@[k].health == g_data[k].health
                        && self.data@[k].max_health == g_data[k].max_health),
                forall|k: int|
                    start <= k < i && g_data[k].status is Live ==> stepped_ok(
                        orig_sys.movement_strategy,
                        g_pos[k],
                        target_pos,
                        g_time,
                        k,
                        views@,
                        (#[trigger] self.positions@[k]),
                        g_data[k].last_movement,
                        self.data@[k].last_movement,
                    ),
            decreases end - i,
        {
            let ghost pos_in = self.positions@;
            let ghost data_in = self.data@;
            if matches!(self.data[i].status, EnemyStatus::Live) {
                self.step_enemy(i, target_pos, &views);
            }
            proof {
                assert forall|k: int|
                    0 <= k < g_pos.len() && !(start <= k < i + 1 && g_data[k].status is Live)
                        implies (#[trigger] self.positions@[k]) == g_pos[k] by {
                    assert(self.positions@[k] == pos_in[k]);
                    assert(pos_in[k] == g_pos[k]);
                }
                assert forall|k: int|
                    0 <= k < g_pos.len() && !(start <= k < i + 1 && g_data[k].status is Live)
                        implies (#[trigger] self.data@[k]) == g_data[k] by {
                    assert(self.data@[k] == data_in[k]);
                    assert(data_in[k] == g_data[k]);
                }
                assert forall|k: int|
                    0 <= k < g_pos.len() implies ((#[trigger] self.data@[k]).status
                        == g_data[k].status && self.data@[k].health == g_data[k].health
                        && self.data@[k].max_health == g_data[k].max_health) by {
                    if k != i {
                        assert(self.data@[k] == data_in[k]);
                    }
                }
            }
            i = i + 1;
        }
    }

    /// One full enemy frame, in the fixed order: chunked movement first,
    /// then collision against the player, which emits one damage event per
    /// overlapping live enemy into the bus. Enemy state is unchanged by
    /// the collision pass, and the player is only read.
    pub fn update(&mut self, target_pos: Vec2Fix, player: &Player, bus: &mut EventBus, dt: i64)
        requires
            old(self).wf(),
            in_world(target_pos),
            player.wf(),
            0 <= dt,
            old(self).time + dt <= FIX_MAX,
        ensures
            final(self).wf(),
            moved_enemies_rel(*old(self), *final(self), target_pos, dt as int),
            final(bus).subscriptions@ == old(bus).subscriptions@,
            final(bus).queue@ == old(bus).queue@ + Seq::new(
                (crate::collision::overlap_count(
                    final(self).positions@,
                    final(self).sizes@,
                    final(self).data@,
                    *player,
                    final(self).positions@.len() as int,
                ) * crate::event_bus::sub_count(
                    old(bus).subscriptions@,
                    EventType::Damage,
                )) as nat,
                |k: int| crate::collision::damage_record(),
            ),
    {
        self.update_movement(target_pos, dt);
        proof {
            assert(moved_enemies_rel(*old(self), *self, target_pos, dt as int));
        }
        let strat = &self.collision_strategy;
        strat.check_collisions(&self.positions, &self.sizes, &self.data, player, bus);
    }

    /// Recompute one live enemy's position by the movement strategy and
    /// update its facing; only row `i` changes.
    fn step_enemy(&mut self, i: usize, target_pos: Vec2Fix, views: &Vec<EnemyView>)
        requires
            old(self).wf(),
            in_world(target_pos),
            views_wf(views@),
            views@.len() <= MAX_POPULATION,
            i < old(self).positions@.len(),
        ensures
            final(self).wf(),
            final(self).positions@.len() == old(self).positions@.len(),
            final(self).data@.len() == old(self).data@.len(),
            final(self).sizes@ == old(self).sizes@,
            final(self).movement_strategy == old(self).movement_strategy,
            final(self).collision_strategy == old(self).collision_strategy,
            final(self).time == old(self).time,
            final(self).scheduler == old(self).scheduler,
            forall|k: int|
                0 <= k < old(self).positions@.len() && k != i ==> (#[trigger] final(self).positions@[k])
                    == old(self).positions@[k],
            forall|k: int|
                0 <= k < old(self).data@.len() && k != i ==> (#[trigger] final(self).data@[k])
                    == old(self).data@[k],
            final(self).data@[i as int].status == old(self).data@[i as int].status,
            final(self).data@[i as int].health == old(self).data@[i as int].health,
            final(self).data@[i as int].max_health == old(self).data@[i as int].max_health,
            stepped_ok(
                old(self).movement_strategy,
                old(self).positions@[i as int],
                target_pos,
                old(self).time as int,
                i as int,
                views@,
                final(self).positions@[i as int],
                old(self).data@[i as int].last_movement,
                final(self).data@[i as int].last_movement,
            ),
    {
        let prev = self.positions[i];
        let np = self.movement_strategy.move_enemy(prev, target_pos, self.time, i, &views);
        self.positions.set(i, np);
        if np.x != prev.x || np.y != prev.y {
            let u = unit_toward(prev, np);
            let mut d = self.data[i];
            d.last_movement = u;
            self.data.set(i, d);
        }
        proof {
            let (gnx, gny): (int, int) = choose|nx: int, ny: int|
                abs(nx) <= NOISE_BOUND && abs(ny) <= NOISE_BOUND && (
                np.x as int,
                np.y as int,
                ) == #[trigger] strategy_step_spec(
                    self.movement_strategy,
                    prev,
                    target_pos,
                    old(self).time as int,
                    i as int,
                    views@,
                    nx,
                    ny,
                );
            assert(abs(gnx) <= NOISE_BOUND && abs(gny) <= NOISE_BOUND && (
            self.positions@[i as int].x as int,
            self.positions@[i as int].y as int,
            ) == strategy_step_spec(
                old(self).movement_strategy,
                old(self).positions@[i as int],
                target_pos,
                old(self).time as int,
                i as int,
                views@,
                gnx,
                gny,
            ));
            assert(self.data@[i as int].last_movement == last_move_of(
                old(self).positions@[i as int],
                self.positions@[i as int],
                old(self).data@[i as int].last_movement,
            ));
            assert(stepped_ok(
                old(self).movement_strategy,
                old(self).positions@[i as int],
                target_pos,
                old(self).time as int,
                i as int,
                views@,
                self.positions@[i as int],
                old(self).data@[i as int].last_movement,
                self.data@[i as int].last_movement,
            ));
        }
    }

    /// Apply `damage` to the enemy at `index`. An out-of-range index and a
    /// Dead row are no-ops. A drop to or below zero health kills the row
    /// and returns exactly one pickup-spawn request, worth a fifth of the
    /// enemy's maximum health, at the enemy's center.
    pub fn take_damage(&mut self, index: usize, damage: i64) -> (orb: Option<ExperienceOrb>)
        requires
            old(self).wf(),
            0 <= damage <= FIX_MAX,
        ensures
            final(self).wf(),
            final(self).positions@ == old(self).positions@,
            final(self).sizes@ == old(self).sizes@,
            final(self).data@.len() == old(self).data@.len(),
            final(self).movement_strategy == old(self).movement_strategy,
            final(self).time == old(self).time,
            final(self).scheduler == old(self).scheduler,
            forall|j: int|
                0 <= j < old(self).data@.len() && j != index ==> (#[trigger] final(self).data@[j])
                    == old(self).data@[j],
            index >= old(self).data@.len() || old(self).data@[index as int].status is Dead ==> {
                &&& final(self).data@ == old(self).data@
                &&& orb is None
            },
            index < old(self).data@.len() && !(old(self).data@[index as int].status is Dead) ==> {
                let d = old(self).data@[index as int];
                let h = d.health - damage;
                &&& final(self).data@[index as int] == (EnemyData {
                    status: if h <= 0 {
                        EnemyStatus::Dead
                    } else {
                        d.status
                    },
                    last_movement: d.last_movement,
                    max_health: d.max_health,
                    health: h as i64,
                })
                &&& h <= 0 ==> orb == Some(
                    ExperienceOrb {
                        position: Vec2Fix {
                            x: (old(self).positions@[index as int].x + tdiv(
                                old(self).sizes@[index as int].x as int,
                                2,
                            )) as i64,
                            y: (old(self).positions@[index as int].y + tdiv(
                                old(self).sizes@[index as int].y as int,
                                2,
                            )) as i64,
                        },
                        value: tdiv(d.max_health as int, ORB_VALUE_DIVISOR as int) as i64,
                    },
                )
                &&& h > 0 ==> orb is None
            },
    {
        if index >= self.data.len() {
            return None;
        }
        let d = self.data[index];
        if matches!(d.status, EnemyStatus::Dead) {
            return None;
        }
        let h = d.health - damage;
        if h <= 0 {
            self.data.set(
                index,
                EnemyData {
                    status: EnemyStatus::Dead,
                    last_movement: d.last_movement,
                    max_health: d.max_health,
                    health: h,
                },
            );
            let half_x = div_trunc(self.sizes[index].x, 2);
            let half_y = div_trunc(self.sizes[index].y, 2);
            let value = div_trunc(d.max_health, ORB_VALUE_DIVISOR);
            Some(
                ExperienceOrb {
                    position: Vec2Fix {
                        x: self.positions[index].x + half_x,
                        y: self.positions[index].y + half_y,
                    },
                    value,
                },
            )
        } else {
            self.data.set(
                index,
                EnemyData {
                    status: d.status,
                    last_movement: d.last_movement,
                    max_health: d.max_health,
                    health: h,
                },
            );
            None
        }
    }
}

} // verus!
