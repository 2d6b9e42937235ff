//! The frame-stepped core: one synchronous update pass per frame, in a
//! fixed order — player movement, chunked enemy movement, enemy-player
//! collision, snapshot, skill spawn and update, hit resolution with
//! pickup spawning, pickup collection and the level check. The whole
//! frame is pinned by [`frame_rel`].

use vstd::prelude::*;
use crate::vecfix::{Vec2Fix, in_range};
use crate::fixed::{SCALE, FIX_MAX};
use crate::constants::{WORLD_WIDTH, WORLD_HEIGHT};
use crate::player::{Player, moved_spec};
use crate::enemies::{EnemySystem, moved_enemies_rel, resolve_hits, views_of};
use crate::movement::{MovementStrategy, BoidsMovement};
use crate::collision::{CollisionStrategy, AABBCollision, overlap_count, damage_record};
use crate::event_bus::{EventBus, EventType, EventPayload, sub_count};
use crate::skills_system::{SkillsSystem, SkillManager, mgr_spawned_rel, mgr_updated_rel};
use crate::skills_factory::SkillsFactory;
use crate::experience::{ExperienceSystem, surviving_orbs, exp_after};
use crate::skill_id::HitEvent;
use crate::enemy_view::EnemyView;
use crate::state::GameState;

verus! {

/// Enemies assembled at scenario start.
pub const STARTING_ENEMIES: usize = 50;

/// Chunks the enemy population is divided into for movement updates.
pub const MOVEMENT_CHUNKS: usize = 4;

/// The player's health after the first `n` queued delivery records are
/// applied in order: each damage payload, scaled to fixed point and
/// capped at the scalar bound, is subtracted with a floor at zero; other
/// payloads leave the health alone.
pub open spec fn health_after_damage(
    queue: Seq<(EventType, EventPayload)>,
    h: int,
    n: int,
) -> int
    decreases n,
{
    if n <= 0 {
        h
    } else {
        let prev = health_after_damage(queue, h, n - 1);
        match queue[n - 1].1 {
            EventPayload::Damage { amount } => {
                let dmg = if amount > 100_000 {
                    FIX_MAX as int
                } else {
                    amount * SCALE
                };
                if prev - dmg < 0 {
                    0
                } else {
                    prev - dmg
                }
            },
            _ => prev,
        }
    }
}

/// Each manager got its spawn opportunity and then its update pass, in
/// order, against the same player and snapshot; `parts[k]` is the block
/// of hit events manager `k` reported.
pub open spec fn spawned_then_updated(
    s0: Seq<SkillManager>,
    mids: Seq<SkillManager>,
    s1: Seq<SkillManager>,
    parts: Seq<Seq<HitEvent>>,
    p: Player,
    views: Seq<EnemyView>,
    dt: int,
) -> bool {
    &&& mids.len() == s0.len()
    &&& s1.len() == s0.len()
    &&& parts.len() == s0.len()
    &&& forall|k: int|
        0 <= k < s0.len() ==> mgr_spawned_rel(s0[k], #[trigger] mids[k], p, views)
    &&& forall|k: int|
        0 <= k < s0.len() ==> mgr_updated_rel(mids[k], #[trigger] s1[k], p, views, dt, parts[k])
}

/// The skill phase: spawn then update for every manager, the hit events
/// concatenated in manager order.
pub open spec fn skills_pass_rel(
    s0: Seq<SkillManager>,
    s1: Seq<SkillManager>,
    p: Player,
    views: Seq<EnemyView>,
    dt: int,
    hits: Seq<HitEvent>,
) -> bool {
    exists|mids: Seq<SkillManager>, parts: Seq<Seq<HitEvent>>|
        #[trigger] spawned_then_updated(s0, mids, s1, parts, p, views, dt) && hits
            == parts.flatten()
}

/// One whole frame, spelled out against the intermediate enemy state
/// `e1` (after the chunked movement) and the skill pass's hit events
/// `hits`: the player moves by the input direction; the enemies move;
/// the collision pass queues one damage record per overlapping live
/// enemy, and the drained queue reduces the player's health; the skills
/// spawn and update against the snapshot of `e1`; the hit events are
/// resolved into enemy damage, deaths and pickups; the pickups are
/// collected and the level check decides the result.
pub open spec fn frame_rel_with(
    g0: Game,
    g1: Game,
    dt: int,
    dir: Vec2Fix,
    r: Option<GameState>,
    e1: EnemySystem,
    hits: Seq<HitEvent>,
) -> bool {
    let mv = moved_spec(g0.player, dir);
    let p_moved = Player { x: mv.0 as i64, y: mv.1 as i64, ..g0.player };
    let records = Seq::new(
        (overlap_count(e1.positions@, e1.sizes@, e1.data@, p_moved, e1.positions@.len() as int)
            * sub_count(g0.event_bus.subscriptions@, EventType::Damage)) as nat,
        |k: int| damage_record(),
    );
    let q_all = g0.event_bus.queue@ + records;
    let h1 = health_after_damage(q_all, g0.player.health as int, q_all.len() as int);
    let p_mid = Player { x: mv.0 as i64, y: mv.1 as i64, health: h1 as i64, ..g0.player };
    let resolved = resolve_hits(e1.positions@, e1.sizes@, e1.data@, hits, hits.len() as int);
    let orbs_mid = g0.experience_system.experience_orbs@ + resolved.1;
    let exp_mid = exp_after(
        orbs_mid,
        p_mid,
        g0.player.current_experience as int,
        orbs_mid.len() as int,
    );
    &&& moved_enemies_rel(g0.enemies, e1, Vec2Fix { x: mv.0 as i64, y: mv.1 as i64 }, dt)
    &&& skills_pass_rel(
        g0.skills_system.skills@,
        g1.skills_system.skills@,
        p_mid,
        views_of(e1),
        dt,
        hits,
    )
    &&& g1.enemies.positions@ == e1.positions@
    &&& g1.enemies.sizes@ == e1.sizes@
    &&& g1.enemies.data@ == resolved.0
    &&& g1.enemies.movement_strategy == e1.movement_strategy
    &&& g1.enemies.time == e1.time
    &&& g1.enemies.scheduler == e1.scheduler
    &&& g1.experience_system.experience_orbs@ == surviving_orbs(
        orbs_mid,
        p_mid,
        orbs_mid.len() as int,
    )
    &&& g1.event_bus.queue@.len() == 0
    &&& g1.event_bus.subscriptions@ == g0.event_bus.subscriptions@
    &&& g1.player.x == mv.0
    &&& g1.player.y == mv.1
    &&& g1.player.health == h1
    &&& g1.player.max_health == g0.player.max_health
    &&& g1.player.speed == g0.player.speed
    &&& g1.player.size == g0.player.size
    &&& if exp_mid >= g0.player.experience_to_next_level {
        &&& r == Some(GameState::LevelUp)
        &&& g1.player.current_experience == 0
        &&& g1.player.level == if g0.player.level == u32::MAX {
            g0.player.level as int
        } else {
            g0.player.level + 1
        }
    } else {
        &&& g1.player.current_experience == exp_mid
        &&& g1.player.level == g0.player.level
        &&& g1.player.experience_to_next_level == g0.player.experience_to_next_level
        &&& if h1 <= 0 {
            r == Some(GameState::GameOver)
        } else {
            r is None
        }
    }
}

/// One whole frame, for some intermediate enemy state and hit list.
pub open spec fn frame_rel(
    g0: Game,
    g1: Game,
    dt: int,
    dir: Vec2Fix,
    r: Option<GameState>,
) -> bool {
    exists|e1: EnemySystem, hits: Seq<HitEvent>|
        #[trigger] frame_rel_with(g0, g1, dt, dir, r, e1, hits)
}

pub struct Game {
    pub player: Player,
    pub enemies: EnemySystem,
    pub skills_system: SkillsSystem,
    pub experience_system: ExperienceSystem,
    pub event_bus: EventBus,
}

impl Game {
    pub open spec fn wf(self) -> bool {
        &&& self.player.wf()
        &&& self.enemies.wf()
        &&& self.skills_system.wf()
        &&& self.experience_system.wf()
        &&& self.event_bus.subscriptions@.len() == 1
        &&& self.event_bus.subscriptions@[0] is Damage
    }

    /// Assemble the standard scenario: the flocking strategy and box
    /// collision over the starting population, the player at the world's
    /// center, the projectile skill, and the player subscribed to contact
    /// damage.
    pub fn new() -> (g: Game)
        ensures
            g.wf(),
            g.enemies.positions@.len() == STARTING_ENEMIES,
            g.enemies.scheduler.max_chunks == MOVEMENT_CHUNKS,
            g.event_bus.queue@.len() == 0,
    {
        let movement_strategy = MovementStrategy::Boids(
            BoidsMovement {
                visual_range: 32_000,
                separation_dist: 40_000,
                max_speed: 3_000,
                player_weight: 800,
                player_distance: 2_000_000,
                noise_strength: 50,
                separation_weight: 3_200,
                alignment_weight: 1_500,
                cohesion_weight: 300,
            },
        );
        let collision_strategy = CollisionStrategy::Aabb(AABBCollision {});
        let enemies = EnemySystem::new(
            STARTING_ENEMIES,
            movement_strategy,
            collision_strategy,
            MOVEMENT_CHUNKS,
        );
        let player = Player::new(WORLD_WIDTH / 2, WORLD_HEIGHT / 2);
        let mut skills_system = SkillsSystem::new();
        skills_system.add_skill(
            SkillManager::Projectile(SkillsFactory::create_simple_projectile_manager()),
        );
        let experience_system = ExperienceSystem::new();
        let mut event_bus = EventBus::new();
        event_bus.subscribe(EventType::Damage);
        Game { player, enemies, skills_system, experience_system, event_bus }
    }

    /// Scenario start: every Pending enemy goes Live, and nothing else
    /// changes.
    pub fn init(&mut self)
        requires
            old(self).wf(),
        ensures
            final(self).wf(),
            final(self).enemies.positions@ == old(self).enemies.positions@,
            final(self).enemies.sizes@ == old(self).enemies.sizes@,
            final(self).enemies.data@.len() == old(self).enemies.data@.len(),
            forall|i: int|
                0 <= i < old(self).enemies.data@.len() ==> {
                    let d = old(self).enemies.data@[i];
                    (#[trigger] final(self).enemies.data@[i]) == (crate::enemies::EnemyData {
                        status: if d.status is Pending {
                            crate::enemies::EnemyStatus::Live
                        } else {
                            d.status
                        },
                        last_movement: d.last_movement,
                        max_health: d.max_health,
                        health: d.health,
                    })
                },
            final(self).enemies.movement_strategy == old(self).enemies.movement_strategy,
            final(self).enemies.time == old(self).enemies.time,
            final(self).enemies.scheduler == old(self).enemies.scheduler,
            final(self).player == old(self).player,
            final(self).skills_system == old(self).skills_system,
            final(self).experience_system == old(self).experience_system,
            final(self).event_bus == old(self).event_bus,
    {
        self.enemies.spawn_all();
    }

    /// The player is dead once health reaches zero.
    pub fn is_game_over(&self) -> (r: bool)
        ensures
            r == (self.player.health <= 0),
    {
        self.player.health <= 0
    }

    /// Apply the queued contact-damage deliveries to the player, in
    /// order, and empty the queue; nothing else changes.
    fn resolve_damage_events(&mut self)
        requires
            old(self).wf(),
        ensures
            final(self).wf(),
            final(self).event_bus.queue@.len() == 0,
            final(self).event_bus.subscriptions@ == old(self).event_bus.subscriptions@,
            final(self).enemies == old(self).enemies,
            final(self).skills_system == old(self).skills_system,
            final(self).experience_system == old(self).experience_system,
            final(self).player.health == health_after_damage(
                old(self).event_bus.queue@,
                old(self).player.health as int,
                old(self).event_bus.queue@.len() as int,
            ),
            final(self).player.x == old(self).player.x,
            final(self).player.y == old(self).player.y,
            final(self).player.level == old(self).player.level,
            final(self).player.current_experience == old(self).player.current_experience,
            final(self).player.experience_to_next_level == old(
                self,
            ).player.experience_to_next_level,
            final(self).player.max_health == old(self).player.max_health,
            final(self).player.speed == old(self).player.speed,
            final(self).player.size == old(self).player.size,
    {
        let events = self.event_bus.take_events();
        let ghost g0 = *self;
        let ghost q = events@;
        let mut k: usize = 0;
        while k < events.len()
            invariant
                g0.player.wf(),
                q == events@,
                self.player.wf(),
                0 <= k <= q.len(),
                self.player.health == health_after_damage(q, g0.player.health as int, k as int),
                self.player.x == g0.player.x,
                self.player.y == g0.player.y,
                self.player.level == g0.player.level,
                self.player.current_experience == g0.player.current_experience,
                self.player.experience_to_next_level == g0.player.experience_to_next_level,
                self.player.max_health == g0.player.max_health,
                self.player.speed == g0.player.speed,
                self.player.size == g0.player.size,
                self.enemies == g0.enemies,
                self.skills_system == g0.skills_system,
                self.experience_system == g0.experience_system,
                self.event_bus.queue@.len() == 0,
                self.event_bus.subscriptions@ == g0.event_bus.subscriptions@,
            decreases q.len() - k,
        {
            let ev = &events[k];
            match &ev.1 {
                EventPayload::Damage { amount } => {
                    let dmg: i64 = if *amount > 100_000 {
                        FIX_MAX
                    } else {
                        (*amount as i64) * SCALE
                    };
                    self.player.take_damage(dmg);
                },
                _ => {},
            }
            k = k + 1;
        }
    }

    /// One frame of the simulation, in the fixed intra-frame order; the
    /// whole frame is pinned by [`frame_rel`]. The result asks for a
    /// scene change: the level-up scene the moment the experience bar
    /// fills, else the game-over scene the moment the player's health is
    /// gone.
    #[verifier::rlimit(100)]
    pub fn update(&mut self, dt: i64, move_dir: Vec2Fix) -> (r: Option<GameState>)
        requires
            old(self).wf(),
            0 <= dt,
            old(self).enemies.time + dt <= FIX_MAX,
            in_range(move_dir, FIX_MAX as int),
        ensures
            final(self).wf(),
            frame_rel(*old(self), *final(self), dt as int, move_dir, r),
            final(self).enemies.positions@.len() == old(self).enemies.positions@.len(),
            final(self).enemies.time == old(self).enemies.time + dt,
            r is None || r == Some(GameState::LevelUp) || r == Some(GameState::GameOver),
            r == Some(GameState::LevelUp) ==> final(self).player.current_experience == 0,
            r == Some(GameState::GameOver) ==> final(self).player.health == 0,
            r is None ==> final(self).player.health > 0,
            final(self).player.health <= 0 && r != Some(GameState::LevelUp) ==> r == Some(
                GameState::GameOver,
            ),
    {
        self.player.move_by_direction(move_dir);
        let target = self.player.position();
        self.enemies.update(target, &self.player, &mut self.event_bus, dt);
        let ghost g_e1 = self.enemies;
        proof {
            assert(moved_enemies_rel(old(self).enemies, g_e1, target, dt as int));
        }
        self.resolve_damage_events();
        let views = self.enemies.to_views();
        let ghost g_s0 = old(self).skills_system.skills@;
        self.skills_system.spawn(&self.player, &views);
        let ghost g_mids = self.skills_system.skills@;
        let hits = self.skills_system.update(dt, &self.player, &views);
        let ghost g_parts = choose|parts: Seq<Seq<HitEvent>>|
            {
                &&& parts.len() == g_mids.len()
                &&& (forall|k: int|
                    0 <= k < g_mids.len() ==> mgr_updated_rel(
                        g_mids[k],
                        #[trigger] self.skills_system.skills@[k],
                        self.player,
                        views@,
                        dt as int,
                        parts[k],
                    ))
                &&& hits@ == #[trigger] parts.flatten()
            };
        let ghost g_pmid = self.player;
        proof {
            assert(spawned_then_updated(
                g_s0,
                g_mids,
                self.skills_system.skills@,
                g_parts,
                g_pmid,
                views@,
                dt as int,
            ));
            assert(skills_pass_rel(
                g_s0,
                self.skills_system.skills@,
                g_pmid,
                views@,
                dt as int,
                hits@,
            ));
        }
        let ghost g_sk1 = self.skills_system.skills@;
        let ghost g_subs = self.event_bus.subscriptions@;
        let ghost g_orbs0 = self.experience_system.experience_orbs@;
        let mut k: usize = 0;
        while k < hits.len()
            invariant
                g_e1.wf(),
                self.enemies.wf(),
                self.experience_system.wf(),
                0 <= k <= hits@.len(),
                self.enemies.positions@ == g_e1.positions@,
                self.enemies.sizes@ == g_e1.sizes@,
                self.enemies.data@ == resolve_hits(
                    g_e1.positions@,
                    g_e1.sizes@,
                    g_e1.data@,
                    hits@,
                    k as int,
                ).0,
                self.experience_system.experience_orbs@ == g_orbs0 + resolve_hits(
                    g_e1.positions@,
                    g_e1.sizes@,
                    g_e1.data@,
                    hits@,
                    k as int,
                ).1,
                self.enemies.movement_strategy == g_e1.movement_strategy,
                self.enemies.time == g_e1.time,
                self.enemies.scheduler == g_e1.scheduler,
                self.player == g_pmid,
                self.player.wf(),
                self.skills_system.skills@ == g_sk1,
                self.skills_system.wf(),
                self.event_bus.queue@.len() == 0,
                self.event_bus.subscriptions@ == g_subs,
                g_subs.len() == 1,
                g_subs[0] is Damage,
            decreases hits@.len() - k,
        {
            let ghost data_in = self.enemies.data@;
            let ghost orbs_in = self.experience_system.experience_orbs@;
            let ev = &hits[k];
            if 0 <= ev.damage && ev.damage <= FIX_MAX {
                let orb = self.enemies.take_damage(ev.enemy_index, ev.damage);
                match orb {
                    Some(o) => {
                        proof {
                            crate::fixed::lemma_tdiv_bounds(
                                data_in[ev.enemy_index as int].max_health as int,
                                crate::enemies::ORB_VALUE_DIVISOR as int,
                            );
                            crate::fixed::lemma_tdiv_bounds(
                                g_e1.sizes@[ev.enemy_index as int].x as int,
                                2,
                            );
                            crate::fixed::lemma_tdiv_bounds(
                                g_e1.sizes@[ev.enemy_index as int].y as int,
                                2,
                            );
                        }
                        self.experience_system.spawn_experience_orb(o.position, o.value);
                    },
                    None => {},
                }
            }
            proof {
                assert(self.enemies.data@ =~= resolve_hits(
                    g_e1.positions@,
                    g_e1.sizes@,
                    g_e1.data@,
                    hits@,
                    k + 1,
                ).0);
                assert(self.experience_system.experience_orbs@ =~= g_orbs0 + resolve_hits(
                    g_e1.positions@,
                    g_e1.sizes@,
                    g_e1.data@,
                    hits@,
                    k + 1,
                ).1);
            }
            k = k + 1;
        }
        let next = self.experience_system.update(&mut self.player);
        let r = match next {
            Some(s) => Some(s),
            None => {
                if self.player.health <= 0 {
                    Some(GameState::GameOver)
                } else {
                    None
                }
            },
        };
        proof {
            let g0 = *old(self);
            let mv = moved_spec(g0.player, move_dir);
            let p_moved = Player { x: mv.0 as i64, y: mv.1 as i64, ..g0.player };
            let records = Seq::new(
                (overlap_count(
                    g_e1.positions@,
                    g_e1.sizes@,
                    g_e1.data@,
                    p_moved,
                    g_e1.positions@.len() as int,
                ) * sub_count(g0.event_bus.subscriptions@, EventType::Damage)) as nat,
                |k: int| damage_record(),
            );
            let q_all = g0.event_bus.queue@ + records;
            let h1 = health_after_damage(q_all, g0.player.health as int, q_all.len() as int);
            let p_mid = Player { x: mv.0 as i64, y: mv.1 as i64, health: h1 as i64, ..g0.player };
            assert(target == (Vec2Fix { x: mv.0 as i64, y: mv.1 as i64 }));
            assert(moved_enemies_rel(
                g0.enemies,
                g_e1,
                Vec2Fix { x: mv.0 as i64, y: mv.1 as i64 },
                dt as int,
            ));
            assert(p_moved == (Player { x: mv.0 as i64, y: mv.1 as i64, ..g0.player }));
            assert(g_pmid.health == h1);
            assert(g_pmid == p_mid);
            assert(views@ == views_of(g_e1));
            assert(skills_pass_rel(
                g0.skills_system.skills@,
                self.skills_system.skills@,
                p_mid,
                views_of(g_e1),
                dt as int,
                hits@,
            ));
            let resolved = resolve_hits(
                g_e1.positions@,
                g_e1.sizes@,
                g_e1.data@,
                hits@,
                hits@.len() as int,
            );
            assert(self.enemies.data@ == resolved.0);
            let orbs_mid = g0.experience_system.experience_orbs@ + resolved.1;
            assert(self.experience_system.experience_orbs@ == surviving_orbs(
                orbs_mid,
                p_mid,
                orbs_mid.len() as int,
            ));
            assert(self.player.x == mv.0 && self.player.y == mv.1);
            assert(self.player.health == h1);
            let exp_mid = exp_after(
                orbs_mid,
                p_mid,
                g0.player.current_experience as int,
                orbs_mid.len() as int,
            );
            assert(self.enemies.positions@ == g_e1.positions@);
            assert(self.enemies.sizes@ == g_e1.sizes@);
            assert(self.enemies.movement_strategy == g_e1.movement_strategy);
            assert(self.enemies.time == g_e1.time);
            assert(self.enemies.scheduler == g_e1.scheduler);
            assert(self.event_bus.queue@.len() == 0);
            assert(self.event_bus.subscriptions@ == g0.event_bus.subscriptions@);
            assert(self.player.max_health == g0.player.max_health);
            assert(self.player.speed == g0.player.speed);
            assert(self.player.size == g0.player.size);
            if exp_mid >= g0.player.experience_to_next_level {
                assert(r == Some(GameState::LevelUp));
                assert(self.player.current_experience == 0);
                assert(self.player.level == if g0.player.level == u32::MAX {
                    g0.player.level as int
                } else {
                    g0.player.level + 1
                });
            } else {
                assert(self.player.current_experience == exp_mid);
                assert(self.player.level == g0.player.level);
                assert(self.player.experience_to_next_level
                    == g0.player.experience_to_next_level);
                if h1 <= 0 {
                    assert(r == Some(GameState::GameOver));
                } else {
                    assert(r is None);
                }
            }
            assert(frame_rel_with(
                *old(self),
                *self,
                dt as int,
                move_dir,
                r,
                g_e1,
                hits@,
            ));
        }
        r
    }
}

} // verus!
