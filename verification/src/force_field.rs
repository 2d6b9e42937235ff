//! The area skill: a field that re-centers on the player every frame and
//! reports one hit event per live enemy within its radius, every frame
//! the overlap lasts — continuous damage over time, deliberately unlike
//! the projectile's single hit.

use vstd::prelude::*;
use crate::vecfix::{Vec2Fix, in_range, dist2, dist2_exec};
use crate::fixed::{abs, tdiv, div_trunc, SCALE, FIX_MAX};
use crate::enemy_view::{EnemyView, view_wf};
use crate::movement::views_wf;
use crate::skill_id::{SkillId, HitEvent};
use crate::player::Player;

verus! {

#[derive(Clone, Copy, PartialEq, Eq, Structural, Debug)]
pub struct ForceFieldUnit {
    pub id: SkillId,
    pub position: Vec2Fix,
    pub radius: i64,
    pub active: bool,
}

pub open spec fn ff_unit_wf(u: ForceFieldUnit) -> bool {
    &&& in_range(u.position, FIX_MAX as int)
    &&& 0 <= u.radius <= FIX_MAX
}

/// The field at `center` covers the enemy: the enemy's anchor point lies
/// within the field's radius.
pub open spec fn in_field(center: Vec2Fix, radius: int, v: EnemyView) -> bool {
    dist2(center, v.position) <= radius * radius
}

/// The hit events one field unit reports against the first `n` snapshot
/// entries: one per live enemy within the radius, in index order.
pub open spec fn field_hits(
    views: Seq<EnemyView>,
    center: Vec2Fix,
    radius: int,
    id: SkillId,
    damage: i64,
    n: int,
) -> Seq<HitEvent>
    decreases n,
{
    if n <= 0 {
        Seq::empty()
    } else {
        let rest = field_hits(views, center, radius, id, damage, n - 1);
        if views[n - 1].alive && in_field(center, radius, views[n - 1]) {
            rest.push(HitEvent { skill_id: id, damage, enemy_index: (n - 1) as usize })
        } else {
            rest
        }
    }
}

/// The events all of the manager's units report, in unit order.
pub open spec fn ff_all_events(
    units: Seq<ForceFieldUnit>,
    views: Seq<EnemyView>,
    center: Vec2Fix,
    radius: int,
    damage: i64,
    n: int,
) -> Seq<HitEvent>
    decreases n,
{
    if n <= 0 {
        Seq::empty()
    } else {
        ff_all_events(units, views, center, radius, damage, n - 1) + field_hits(
            views,
            center,
            radius,
            units[n - 1].id,
            damage,
            views.len() as int,
        )
    }
}

/// How many of the events address enemy `j`.
pub open spec fn count_for(events: Seq<HitEvent>, j: int) -> int
    decreases events.len(),
{
    if events.len() == 0 {
        0
    } else {
        count_for(events.drop_last(), j) + if events.last().enemy_index == j {
            1int
        } else {
            0int
        }
    }
}

/// Continuous-hit contract of one field unit and one pass: a live enemy
/// within the radius gets exactly one hit event, every other enemy none.
pub proof fn lemma_field_one_hit_per_enemy(
    views: Seq<EnemyView>,
    center: Vec2Fix,
    radius: int,
    id: SkillId,
    damage: i64,
    n: int,
    j: int,
)
    requires
        0 <= n <= views.len(),
        n <= usize::MAX,
    ensures
        count_for(field_hits(views, center, radius, id, damage, n), j) == if 0 <= j < n
            && views[j].alive && in_field(center, radius, views[j]) {
            1int
        } else {
            0int
        },
    decreases n,
{
    if n > 0 {
        lemma_field_one_hit_per_enemy(views, center, radius, id, damage, n - 1, j);
        let rest = field_hits(views, center, radius, id, damage, n - 1);
        if views[n - 1].alive && in_field(center, radius, views[n - 1]) {
            let ev = HitEvent { skill_id: id, damage, enemy_index: (n - 1) as usize };
            assert(rest.push(ev).drop_last() =~= rest);
            assert(rest.push(ev).last() == ev);
            assert(count_for(rest.push(ev), j) == count_for(rest, j) + if ev.enemy_index == j {
                1int
            } else {
                0int
            });
        }
    }
}

/// Owns the field units, the damage per tick and the shared radius.
pub struct ForceFieldManager {
    pub projectiles: Vec<ForceFieldUnit>,
    pub damage: i64,
    pub radius: i64,
    pub is_active: bool,
    pub initialized: bool,
    pub next_id: u64,
}

/// The player's center, where fields are anchored.
pub open spec fn player_center(player: Player) -> Vec2Fix {
    Vec2Fix {
        x: (player.x + tdiv(player.size as int, 2)) as i64,
        y: (player.y + tdiv(player.size as int, 2)) as i64,
    }
}

/// How one spawn opportunity relates the manager before and after: the
/// one field is created the first time only, centered on the player.
pub open spec fn ff_spawned_rel(m: ForceFieldManager, m2: ForceFieldManager, player: Player) -> bool {
    &&& m2.damage == m.damage
    &&& m2.radius == m.radius
    &&& m2.is_active == m.is_active
    &&& if !m.is_active || m.initialized || m.next_id >= 0xffff_ffff_ffff_fffe {
        m2.projectiles@ == m.projectiles@ && m2.initialized == m.initialized && m2.next_id
            == m.next_id
    } else {
        &&& m2.initialized
        &&& m2.next_id == m.next_id + 1
        &&& m2.projectiles@ == m.projectiles@.push(
            ForceFieldUnit {
                id: SkillId(m.next_id),
                position: player_center(player),
                radius: m.radius,
                active: true,
            },
        )
    }
}

/// How one update pass relates the manager before and after, and the
/// events it reports: every unit re-centers on the player and reports one
/// hit per live enemy within the manager's radius.
pub open spec fn ff_updated_rel(
    m: ForceFieldManager,
    m2: ForceFieldManager,
    player: Player,
    views: Seq<EnemyView>,
    events: Seq<HitEvent>,
) -> bool {
    &&& m2.damage == m.damage
    &&& m2.radius == m.radius
    &&& m2.is_active == m.is_active
    &&& m2.initialized == m.initialized
    &&& m2.next_id == m.next_id
    &&& m2.projectiles@.len() == m.projectiles@.len()
    &&& forall|k: int|
        0 <= k < m.projectiles@.len() ==> (#[trigger] m2.projectiles@[k]) == (ForceFieldUnit {
            position: player_center(player),
            ..m.projectiles@[k]
        })
    &&& events == ff_all_events(
        m.projectiles@,
        views,
        player_center(player),
        m.radius as int,
        m.damage,
        m.projectiles@.len() as int,
    )
}

impl ForceFieldManager {
    pub open spec fn wf(self) -> bool {
        &&& 0 <= self.damage <= FIX_MAX
        &&& 0 <= self.radius <= FIX_MAX
        &&& self.next_id < 0xffff_ffff_ffff_ffff
        &&& forall|k: int|
            0 <= k < self.projectiles@.len() ==> ff_unit_wf(#[trigger] self.projectiles@[k])
    }

    /// One spawn opportunity, as [`ff_spawned_rel`] describes.
    pub fn spawn(&mut self, player: &Player, enemy_views: &Vec<EnemyView>)
        requires
            old(self).wf(),
            player.wf(),
        ensures
            final(self).wf(),
            ff_spawned_rel(*old(self), *final(self), *player),
    {
        if !self.is_active {
            return ;
        }
        if self.initialized {
            return ;
        }
        if self.next_id >= 0xffff_ffff_ffff_fffe {
            return ;
        }
        self.initialized = true;
        let half = div_trunc(player.size, 2);
        let unit = ForceFieldUnit {
            id: SkillId(self.next_id),
            position: Vec2Fix { x: player.x + half, y: player.y + half },
            radius: self.radius,
            active: true,
        };
        self.projectiles.push(unit);
        self.next_id = self.next_id + 1;
    }

    /// One update pass, as [`ff_updated_rel`] describes.
    pub fn update(&mut self, delta: i64, player: &Player, enemy_views: &Vec<EnemyView>) -> (events:
        Vec<HitEvent>)
        requires
            old(self).wf(),
            player.wf(),
            views_wf(enemy_views@),
        ensures
            final(self).wf(),
            ff_updated_rel(*old(self), *final(self), *player, enemy_views@, events@),
    {
        let ghost m0 = *old(self);
        let half = div_trunc(player.size, 2);
        let center = Vec2Fix { x: player.x + half, y: player.y + half };
        let mut events: Vec<HitEvent> = Vec::new();
        let mut k: usize = 0;
        while k < self.projectiles.len()
            invariant
                self.wf(),
                m0.wf(),
                player.wf(),
                views_wf(enemy_views@),
                center == player_center(*player),
                self.damage == m0.damage,
                self.radius == m0.radius,
                self.is_active == m0.is_active,
                self.initialized == m0.initialized,
                self.next_id == m0.next_id,
                self.projectiles@.len() == m0.projectiles@.len(),
                0 <= k <= m0.projectiles@.len(),
                forall|t: int|
                    0 <= t < k ==> (#[trigger] self.projectiles@[t]) == (ForceFieldUnit {
                        position: center,
                        ..m0.projectiles@[t]
                    }),
                forall|t: int|
                    k <= t < m0.projectiles@.len() ==> (#[trigger] self.projectiles@[t])
                        == m0.projectiles@[t],
                events@ == ff_all_events(
                    m0.projectiles@,
                    enemy_views@,
                    center,
                    m0.radius as int,
                    m0.damage,
                    k as int,
                ),
            decreases m0.projectiles@.len() - k,
        {
            let mut u = self.projectiles[k];
            u.position = center;
            self.projectiles.set(k, u);
            let ghost ev0 = events@;
            let mut j: usize = 0;
            while j < enemy_views.len()
                invariant
                    views_wf(enemy_views@),
                    0 <= j <= enemy_views@.len(),
                    in_range(center, FIX_MAX as int),
                    0 <= self.radius <= FIX_MAX,
                    self.radius == m0.radius,
                    self.damage == m0.damage,
                    u.id == m0.projectiles@[k as int].id,
                    k < m0.projectiles@.len(),
                    events@ == ev0 + field_hits(
                        enemy_views@,
                        center,
                        m0.radius as int,
                        m0.projectiles@[k as int].id,
                        m0.damage,
                        j as int,
                    ),
                decreases enemy_views@.len() - j,
            {
                let v = enemy_views[j];
                if v.alive {
                    let d2 = dist2_exec(center, v.position);
                    proof {
                        crate::fixed::lemma_abs_mul_bound(
                            self.radius as int,
                            self.radius as int,
                            FIX_MAX as int,
                            FIX_MAX as int,
                        );
                    }
                    if d2 <= self.radius * self.radius {
                        events.push(
                            HitEvent { skill_id: u.id, damage: self.damage, enemy_index: j },
                        );
                    }
                }
                proof {
                    assert(events@ =~= ev0 + field_hits(
                        enemy_views@,
                        center,
                        m0.radius as int,
                        m0.projectiles@[k as int].id,
                        m0.damage,
                        j + 1,
                    ));
                }
                j = j + 1;
            }
            k = k + 1;
        }
        events
    }
}

} // verus!
