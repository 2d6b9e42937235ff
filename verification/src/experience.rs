//! Pickups and progression: experience orbs spawned on enemy death are
//! collected on first overlap with the player — destroyed atomically, no
//! partial consumption — and a full experience bar advances the level.

use vstd::prelude::*;
use crate::vecfix::{Vec2Fix, in_range};
use crate::fixed::{abs, FIX_MAX};
use crate::enemies::ExperienceOrb;
use crate::player::Player;
use crate::state::GameState;

verus! {

/// Side of an orb's pickup box, in fixed-point units (5.0).
pub const ORB_SIZE: i64 = 5_000;

pub open spec fn orb_wf(o: ExperienceOrb) -> bool {
    &&& in_range(o.position, FIX_MAX as int)
    &&& 0 <= o.value <= FIX_MAX
}

/// The player's box overlaps the orb's box.
pub open spec fn orb_overlaps(o: ExperienceOrb, p: Player) -> bool {
    &&& p.x < o.position.x + ORB_SIZE
    &&& p.x + p.size > o.position.x
    &&& p.y < o.position.y + ORB_SIZE
    &&& p.y + p.size > o.position.y
}

/// The orbs left after collection: those of the first `n` the player does
/// not overlap, in order.
pub open spec fn surviving_orbs(orbs: Seq<ExperienceOrb>, p: Player, n: int) -> Seq<ExperienceOrb>
    decreases n,
{
    if n <= 0 {
        Seq::empty()
    } else {
        let rest = surviving_orbs(orbs, p, n - 1);
        if orb_overlaps(orbs[n - 1], p) {
            rest
        } else {
            rest.push(orbs[n - 1])
        }
    }
}

/// The player's experience after collecting every overlapped orb among
/// the first `n`, in order, saturating at the scalar bound.
pub open spec fn exp_after(orbs: Seq<ExperienceOrb>, p: Player, exp: int, n: int) -> int
    decreases n,
{
    if n <= 0 {
        exp
    } else {
        let e = exp_after(orbs, p, exp, n - 1);
        if orb_overlaps(orbs[n - 1], p) {
            if e + orbs[n - 1].value > FIX_MAX {
                FIX_MAX as int
            } else {
                e + orbs[n - 1].value
            }
        } else {
            e
        }
    }
}

/// Owns the experience orbs on the ground.
pub struct ExperienceSystem {
    pub experience_orbs: Vec<ExperienceOrb>,
}

impl ExperienceSystem {
    pub open spec fn wf(self) -> bool {
        forall|k: int|
            0 <= k < self.experience_orbs@.len() ==> orb_wf(#[trigger] self.experience_orbs@[k])
    }

    pub fn new() -> (r: ExperienceSystem)
        ensures
            r.wf(),
            r.experience_orbs@.len() == 0,
    {
        ExperienceSystem { experience_orbs: Vec::new() }
    }

    /// One orb appears, exactly where and how the death that caused it
    /// asked for.
    pub fn spawn_experience_orb(&mut self, position: Vec2Fix, value: i64)
        requires
            old(self).wf(),
            in_range(position, FIX_MAX as int),
            0 <= value <= FIX_MAX,
        ensures
            final(self).wf(),
            final(self).experience_orbs@ == old(self).experience_orbs@.push(
                ExperienceOrb { position, value },
            ),
    {
        self.experience_orbs.push(ExperienceOrb { position, value });
    }

    /// Collect every orb the player overlaps: its whole value is granted
    /// and the orb is destroyed, in one step.
    pub fn check_experience_orbs_collisions(&mut self, player: &mut Player)
        requires
            old(self).wf(),
            old(player).wf(),
        ensures
            final(self).wf(),
            final(player).wf(),
            final(self).experience_orbs@ == surviving_orbs(
                old(self).experience_orbs@,
                *old(player),
                old(self).experience_orbs@.len() as int,
            ),
            final(player).current_experience == exp_after(
                old(self).experience_orbs@,
                *old(player),
                old(player).current_experience as int,
                old(self).experience_orbs@.len() as int,
            ),
            final(player).x == old(player).x,
            final(player).y == old(player).y,
            final(player).health == old(player).health,
            final(player).max_health == old(player).max_health,
            final(player).speed == old(player).speed,
            final(player).size == old(player).size,
            final(player).level == old(player).level,
            final(player).experience_to_next_level == old(player).experience_to_next_level,
    {
        let ghost orbs0 = self.experience_orbs@;
        let ghost p0 = *player;
        let mut kept: Vec<ExperienceOrb> = Vec::new();
        let mut k: usize = 0;
        let n = self.experience_orbs.len();
        while k < n
            invariant
                self.wf(),
                player.wf(),
                self.experience_orbs@ == orbs0,
                orbs0.len() == n,
                forall|t: int| 0 <= t < orbs0.len() ==> orb_wf(#[trigger] orbs0[t]),
                0 <= k <= n,
                kept@ == surviving_orbs(orbs0, p0, k as int),
                forall|t: int| 0 <= t < kept@.len() ==> orb_wf(#[trigger] kept@[t]),
                player.current_experience == exp_after(
                    orbs0,
                    p0,
                    p0.current_experience as int,
                    k as int,
                ),
                player.x == p0.x,
                player.y == p0.y,
                player.health == p0.health,
                player.max_health == p0.max_health,
                player.speed == p0.speed,
                player.size == p0.size,
                player.level == p0.level,
                player.experience_to_next_level == p0.experience_to_next_level,
            decreases n - k,
        {
            let o = self.experience_orbs[k];
            let overlap = player.x < o.position.x + ORB_SIZE && player.x + player.size
                > o.position.x && player.y < o.position.y + ORB_SIZE && player.y + player.size
                > o.position.y;
            if overlap {
                player.add_experience(o.value);
            } else {
                kept.push(o);
            }
            k = k + 1;
        }
        self.experience_orbs = kept;
    }

    /// Collect orbs, then check progression: a full experience bar means
    /// one level-up and hands the level-up scene back.
    pub fn update(&mut self, player: &mut Player) -> (r: Option<GameState>)
        requires
            old(self).wf(),
            old(player).wf(),
        ensures
            final(self).wf(),
            final(player).wf(),
            final(self).experience_orbs@ == surviving_orbs(
                old(self).experience_orbs@,
                *old(player),
                old(self).experience_orbs@.len() as int,
            ),
            ({
                let exp_mid = exp_after(
                    old(self).experience_orbs@,
                    *old(player),
                    old(player).current_experience as int,
                    old(self).experience_orbs@.len() as int,
                );
                if exp_mid >= old(player).experience_to_next_level {
                    &&& r == Some(GameState::LevelUp)
                    &&& final(player).current_experience == 0
                    &&& final(player).level == if old(player).level == u32::MAX {
                        old(player).level as int
                    } else {
                        old(player).level + 1
                    }
                } else {
                    &&& r is None
                    &&& final(player).current_experience == exp_mid
                    &&& final(player).level == old(player).level
                    &&& final(player).experience_to_next_level == old(
                        player,
                    ).experience_to_next_level
                }
            }),
            final(player).health == old(player).health,
            final(player).x == old(player).x,
            final(player).y == old(player).y,
            final(player).max_health == old(player).max_health,
            final(player).speed == old(player).speed,
            final(player).size == old(player).size,
    {
        self.check_experience_orbs_collisions(player);
        if player.current_experience >= player.experience_to_next_level {
            player.level_up();
            Some(GameState::LevelUp)
        } else {
            None
        }
    }
}

} // verus!
