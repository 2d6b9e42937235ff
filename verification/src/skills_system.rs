//! The skill orchestrator: it holds the skill managers and runs their
//! spawn and update passes in order against the frame's enemy snapshot,
//! collecting every hit event for the resolution phase. It never inspects
//! what a manager does beyond these passes.

use vstd::prelude::*;
use crate::enemy_view::EnemyView;
use crate::movement::views_wf;
use crate::skill_id::HitEvent;
use crate::player::Player;
use crate::simple_projectile::{SimpleProjectileManager, proj_spawned_rel, proj_updated_rel};
use crate::force_field::{ForceFieldManager, ff_spawned_rel, ff_updated_rel};

verus! {

/// One skill family, selected per manager at assembly time.
pub enum SkillManager {
    Projectile(SimpleProjectileManager),
    Field(ForceFieldManager),
}

impl SkillManager {
    pub open spec fn wf(self) -> bool {
        match self {
            SkillManager::Projectile(m) => m.wf(),
            SkillManager::Field(m) => m.wf(),
        }
    }
}

/// One spawn opportunity of whichever family the manager belongs to.
pub open spec fn mgr_spawned_rel(
    m: SkillManager,
    m2: SkillManager,
    player: Player,
    views: Seq<EnemyView>,
) -> bool {
    match m {
        SkillManager::Projectile(a) => m2 matches SkillManager::Projectile(b)
            && proj_spawned_rel(a, b, player, views),
        SkillManager::Field(a) => m2 matches SkillManager::Field(b) && ff_spawned_rel(
            a,
            b,
            player,
        ),
    }
}

/// One update pass of whichever family the manager belongs to, with the
/// events it reported.
pub open spec fn mgr_updated_rel(
    m: SkillManager,
    m2: SkillManager,
    player: Player,
    views: Seq<EnemyView>,
    dt: int,
    events: Seq<HitEvent>,
) -> bool {
    match m {
        SkillManager::Projectile(a) => m2 matches SkillManager::Projectile(b)
            && proj_updated_rel(a, b, views, dt, events),
        SkillManager::Field(a) => m2 matches SkillManager::Field(b) && ff_updated_rel(
            a,
            b,
            player,
            views,
            events,
        ),
    }
}

/// Holds the heterogeneous list of skill managers.
pub struct SkillsSystem {
    pub skills: Vec<SkillManager>,
}

impl SkillsSystem {
    pub open spec fn wf(self) -> bool {
        forall|k: int| 0 <= k < self.skills@.len() ==> (#[trigger] self.skills@[k]).wf()
    }

    pub fn new() -> (r: SkillsSystem)
        ensures
            r.wf(),
            r.skills@.len() == 0,
    {
        SkillsSystem { skills: Vec::new() }
    }

    pub fn add_skill(&mut self, skill: SkillManager)
        requires
            old(self).wf(),
            skill.wf(),
        ensures
            final(self).wf(),
            final(self).skills@.len() == old(self).skills@.len() + 1,
            forall|k: int|
                0 <= k < old(self).skills@.len() ==> (#[trigger] final(self).skills@[k])
                    == old(self).skills@[k],
    {
        self.skills.push(skill);
    }

    /// Give every manager its spawn opportunity, in order.
    pub fn spawn(&mut self, player: &Player, enemy_views: &Vec<EnemyView>)
        requires
            old(self).wf(),
            player.wf(),
            views_wf(enemy_views@),
        ensures
            final(self).wf(),
            final(self).skills@.len() == old(self).skills@.len(),
            forall|k: int|
                0 <= k < old(self).skills@.len() ==> mgr_spawned_rel(
                    old(self).skills@[k],
                    #[trigger] final(self).skills@[k],
                    *player,
                    enemy_views@,
                ),
    {
        let ghost orig = self.skills@;
        let mut rest: Vec<SkillManager> = Vec::new();
        core::mem::swap(&mut rest, &mut self.skills);
        let n = rest.len();
        let mut k: usize = 0;
        while k < n
            invariant
                player.wf(),
                views_wf(enemy_views@),
                orig.len() == n,
                forall|t: int| 0 <= t < orig.len() ==> (#[trigger] orig[t]).wf(),
                rest@.len() == n - k,
                forall|t: int| 0 <= t < rest@.len() ==> (#[trigger] rest@[t]) == orig[t + k],
                self.skills@.len() == k,
                forall|t: int| 0 <= t < k ==> (#[trigger] self.skills@[t]).wf(),
                forall|t: int|
                    0 <= t < k ==> mgr_spawned_rel(
                        orig[t],
                        #[trigger] self.skills@[t],
                        *player,
                        enemy_views@,
                    ),
            decreases n - k,
        {
            let m = rest.remove(0);
            let m2 = match m {
                SkillManager::Projectile(mut p) => {
                    p.spawn(player, enemy_views);
                    SkillManager::Projectile(p)
                },
                SkillManager::Field(mut f) => {
                    f.spawn(player, enemy_views);
                    SkillManager::Field(f)
                },
            };
            self.skills.push(m2);
            k = k + 1;
        }
    }

    /// Run every manager's update pass, in order, and hand back all the
    /// hit events in that order: one block of events per manager.
    pub fn update(&mut self, delta: i64, player: &Player, enemy_views: &Vec<EnemyView>) -> (events:
        Vec<HitEvent>)
        requires
            old(self).wf(),
            player.wf(),
            0 <= delta <= crate::fixed::FIX_MAX,
            views_wf(enemy_views@),
        ensures
            final(self).wf(),
            final(self).skills@.len() == old(self).skills@.len(),
            exists|parts: Seq<Seq<HitEvent>>|
                {
                    &&& parts.len() == old(self).skills@.len()
                    &&& (forall|k: int|
                        0 <= k < old(self).skills@.len() ==> mgr_updated_rel(
                            old(self).skills@[k],
                            #[trigger] final(self).skills@[k],
                            *player,
                            enemy_views@,
                            delta as int,
                            parts[k],
                        ))
                    &&& events@ == #[trigger] parts.flatten()
                },
    {
        let ghost orig = self.skills@;
        let mut rest: Vec<SkillManager> = Vec::new();
        core::mem::swap(&mut rest, &mut self.skills);
        let mut events: Vec<HitEvent> = Vec::new();
        let ghost mut parts: Seq<Seq<HitEvent>> = Seq::empty();
        let n = rest.len();
        let mut k: usize = 0;
        proof {
            assert(parts.flatten() =~= Seq::<HitEvent>::empty());
        }
        while k < n
            invariant
                player.wf(),
                views_wf(enemy_views@),
                0 <= delta <= crate::fixed::FIX_MAX,
                orig.len() == n,
                forall|t: int| 0 <= t < orig.len() ==> (#[trigger] orig[t]).wf(),
                rest@.len() == n - k,
                forall|t: int| 0 <= t < rest@.len() ==> (#[trigger] rest@[t]) == orig[t + k],
                self.skills@.len() == k,
                forall|t: int| 0 <= t < k ==> (#[trigger] self.skills@[t]).wf(),
                parts.len() == k,
                forall|t: int|
                    0 <= t < k ==> mgr_updated_rel(
                        orig[t],
                        #[trigger] self.skills@[t],
                        *player,
                        enemy_views@,
                        delta as int,
                        parts[t],
                    ),
                events@ == parts.flatten(),
            decreases n - k,
        {
            let m = rest.remove(0);
            let mut block: Vec<HitEvent>;
            let m2 = match m {
                SkillManager::Projectile(mut p) => {
                    block = p.update(delta, enemy_views);
                    SkillManager::Projectile(p)
                },
                SkillManager::Field(mut f) => {
                    block = f.update(delta, player, enemy_views);
                    SkillManager::Field(f)
                },
            };
            proof {
                parts.lemma_flatten_push(block@);
                parts = parts.push(block@);
            }
            events.append(&mut block);
            self.skills.push(m2);
            k = k + 1;
        }
        events
    }
}

} // verus!
