//! Presentation ordering: which live enemies stand behind or in front of
//! the player, sorted back-to-front for correct depth when drawn.

use vstd::prelude::*;
use crate::vecfix::Vec2Fix;
use crate::enemies::{EnemySystem, EnemyStatus, PositionOverlap};

verus! {

/// How many of the first `n` indices a drawing pass on the given side
/// keeps: live enemies on that side of the player.
pub open spec fn matching_count(
    s: EnemySystem,
    target_pos: Vec2Fix,
    overlap: PositionOverlap,
    n: int,
) -> int
    decreases n,
{
    if n <= 0 {
        0
    } else {
        matching_count(s, target_pos, overlap, n - 1) + if s.draw_filter(
            target_pos,
            overlap,
            n - 1,
        ) {
            1int
        } else {
            0int
        }
    }
}

impl EnemySystem {
    /// Drawing partitions the live enemies around the player: behind it
    /// or in front of it, by a position comparison.
    pub open spec fn draw_filter(self, target_pos: Vec2Fix, overlap: PositionOverlap, i: int) -> bool {
        &&& self.data@[i].status is Live
        &&& match overlap {
            PositionOverlap::Behind => self.positions@[i].y > target_pos.y,
            PositionOverlap::InFront => self.positions@[i].y < target_pos.y,
        }
    }

    /// The live enemies on the requested side of the player, ordered
    /// back-to-front for drawing: as many entries as matching indices,
    /// each matching and listed once, sorted by descending vertical
    /// position.
    pub fn draw_order_indices(&self, target_pos: Vec2Fix, overlap: PositionOverlap) -> (r: Vec<
        usize,
    >)
        requires
            self.wf(),
        ensures
            r@.len() == matching_count(
                *self,
                target_pos,
                overlap,
                self.positions@.len() as int,
            ),
            forall|k: int|
                0 <= k < r@.len() ==> (#[trigger] r@[k]) < self.positions@.len()
                    && self.draw_filter(target_pos, overlap, r@[k] as int),
            forall|k1: int, k2: int|
                0 <= k1 < k2 < r@.len() ==> self.positions@[r@[k1] as int].y
                    >= self.positions@[r@[k2] as int].y,
            forall|k1: int, k2: int| 0 <= k1 < k2 < r@.len() ==> r@[k1] != r@[k2],
    {
        let n = self.positions.len();
        let mut candidates: Vec<usize> = Vec::new();
        let mut i: usize = 0;
        while i < n
            invariant
                self.wf(),
                n == self.positions@.len(),
                0 <= i <= n,
                candidates@.len() == matching_count(*self, target_pos, overlap, i as int),
                forall|k: int|
                    0 <= k < candidates@.len() ==> (#[trigger] candidates@[k]) < i
                        && self.draw_filter(target_pos, overlap, candidates@[k] as int),
                forall|k1: int, k2: int|
                    0 <= k1 < k2 < candidates@.len() ==> candidates@[k1] < candidates@[k2],
            decreases n - i,
        {
            let live = matches!(self.data[i].status, EnemyStatus::Live);
            let side = match overlap {
                PositionOverlap::Behind => self.positions[i].y > target_pos.y,
                PositionOverlap::InFront => self.positions[i].y < target_pos.y,
            };
            if live && side {
                candidates.push(i);
            }
            i = i + 1;
        }
        let out = self.sort_indices_by_y(candidates, target_pos, overlap);
        out
    }

    /// Insertion sort of strictly ascending matching indices by
    /// descending vertical position; keeps the count, the filter and the
    /// absence of repeats.
    fn sort_indices_by_y(
        &self,
        candidates: Vec<usize>,
        target_pos: Vec2Fix,
        overlap: PositionOverlap,
    ) -> (out: Vec<usize>)
        requires
            self.wf(),
            forall|k: int|
                0 <= k < candidates@.len() ==> (#[trigger] candidates@[k])
                    < self.positions@.len() && self.draw_filter(
                    target_pos,
                    overlap,
                    candidates@[k] as int,
                ),
            forall|k1: int, k2: int|
                0 <= k1 < k2 < candidates@.len() ==> candidates@[k1] < candidates@[k2],
        ensures
            out@.len() == candidates@.len(),
            forall|k: int|
                0 <= k < out@.len() ==> (#[trigger] out@[k]) < self.positions@.len()
                    && self.draw_filter(target_pos, overlap, out@[k] as int),
            forall|k1: int, k2: int|
                0 <= k1 < k2 < out@.len() ==> self.positions@[out@[k1] as int].y
                    >= self.positions@[out@[k2] as int].y,
            forall|k1: int, k2: int| 0 <= k1 < k2 < out@.len() ==> out@[k1] != out@[k2],
    {
        let mut out: Vec<usize> = Vec::new();
        let mut t: usize = 0;
        while t < candidates.len()
            invariant
                self.wf(),
                forall|k: int|
                    0 <= k < candidates@.len() ==> (#[trigger] candidates@[k])
                        < self.positions@.len() && self.draw_filter(
                        target_pos,
                        overlap,
                        candidates@[k] as int,
                    ),
                0 <= t <= candidates@.len(),
                out@.len() == t,
                forall|k: int|
                    0 <= k < out@.len() ==> (#[trigger] out@[k]) < self.positions@.len()
                        && self.draw_filter(target_pos, overlap, out@[k] as int),
                forall|k1: int, k2: int|
                    0 <= k1 < k2 < out@.len() ==> self.positions@[out@[k1] as int].y
                        >= self.positions@[out@[k2] as int].y,
                forall|k1: int, k2: int|
                    0 <= k1 < k2 < candidates@.len() ==> candidates@[k1] < candidates@[k2],
                forall|k1: int, k2: int| 0 <= k1 < k2 < out@.len() ==> out@[k1] != out@[k2],
                t > 0 ==> forall|k: int|
                    0 <= k < out@.len() ==> (#[trigger] out@[k]) <= candidates@[t - 1],
            decreases candidates@.len() - t,
        {
            let c = candidates[t];
            proof {
                if t > 0 {
                    assert(candidates@[t - 1] < candidates@[t as int]);
                }
            }
            self.insert_sorted(&mut out, c, target_pos, overlap);
            t = t + 1;
        }
        out
    }

    /// Insert index `c` at its position in the block, keeping it sorted
    /// by descending vertical position; `c` exceeds every index already
    /// present, so no entry ever repeats.
    #[verifier::rlimit(50)]
    fn insert_sorted(
        &self,
        out: &mut Vec<usize>,
        c: usize,
        target_pos: Vec2Fix,
        overlap: PositionOverlap,
    )
        requires
            self.wf(),
            c < self.positions@.len(),
            self.draw_filter(target_pos, overlap, c as int),
            forall|k: int|
                0 <= k < old(out)@.len() ==> (#[trigger] old(out)@[k]) < self.positions@.len()
                    && self.draw_filter(target_pos, overlap, old(out)@[k] as int),
            forall|k1: int, k2: int|
                0 <= k1 < k2 < old(out)@.len() ==> self.positions@[old(out)@[k1] as int].y
                    >= self.positions@[old(out)@[k2] as int].y,
            forall|k: int| 0 <= k < old(out)@.len() ==> (#[trigger] old(out)@[k]) < c,
            forall|k1: int, k2: int|
                0 <= k1 < k2 < old(out)@.len() ==> old(out)@[k1] != old(out)@[k2],
        ensures
            final(out)@.len() == old(out)@.len() + 1,
            forall|k: int|
                0 <= k < final(out)@.len() ==> (#[trigger] final(out)@[k])
                    < self.positions@.len() && self.draw_filter(
                    target_pos,
                    overlap,
                    final(out)@[k] as int,
                ),
            forall|k1: int, k2: int|
                0 <= k1 < k2 < final(out)@.len() ==> self.positions@[final(out)@[k1] as int].y
                    >= self.positions@[final(out)@[k2] as int].y,
            forall|k: int| 0 <= k < final(out)@.len() ==> (#[trigger] final(out)@[k]) <= c,
            forall|k1: int, k2: int|
                0 <= k1 < k2 < final(out)@.len() ==> final(out)@[k1] != final(out)@[k2],
    {
        let y = self.positions[c].y;
        let mut p: usize = 0;
        while p < out.len() && self.positions[out[p]].y >= y
            invariant
                self.wf(),
                forall|k: int|
                    0 <= k < out@.len() ==> (#[trigger] out@[k]) < self.positions@.len(),
                c < self.positions@.len(),
                y == self.positions@[c as int].y,
                0 <= p <= out@.len(),
                forall|q: int| 0 <= q < p ==> self.positions@[(#[trigger] out@[q]) as int].y >= y,
                out@ == old(out)@,
            decreases out@.len() - p,
        {
            p = p + 1;
        }
        let ghost out0 = out@;
        out.insert(p, c);
        proof {
            out0.insert_ensures(p as int, c);
            assert forall|k1: int, k2: int|
                0 <= k1 < k2 < out@.len() implies self.positions@[out@[k1] as int].y
                >= self.positions@[out@[k2] as int].y by {
                if k1 < p && k2 < p {
                    assert(out@[k1] == out0[k1] && out@[k2] == out0[k2]);
                } else if k1 < p && k2 == p {
                    assert(out@[k1] == out0[k1]);
                    assert(self.positions@[out0[k1] as int].y >= y);
                } else if k1 < p && k2 > p {
                    assert(out@[k1] == out0[k1] && out@[k2] == out0[k2 - 1]);
                } else if k1 == p {
                    assert(out@[k2] == out0[k2 - 1]);
                    assert(k2 - 1 >= p);
                    assert(self.positions@[out0[p as int] as int].y < y);
                    if k2 - 1 > p {
                        assert(self.positions@[out0[k2 - 1] as int].y <= self.positions@[out0[p as int] as int].y);
                    }
                } else {
                    assert(out@[k1] == out0[k1 - 1] && out@[k2] == out0[k2 - 1]);
                }
            }
            assert forall|k1: int, k2: int| 0 <= k1 < k2 < out@.len() implies out@[k1]
                != out@[k2] by {
                if k1 < p && k2 < p {
                    assert(out@[k1] == out0[k1] && out@[k2] == out0[k2]);
                } else if k1 < p && k2 == p {
                    assert(out@[k1] == out0[k1] && out@[k2] == c);
                    assert(out0[k1] < c);
                } else if k1 < p && k2 > p {
                    assert(out@[k1] == out0[k1] && out@[k2] == out0[k2 - 1]);
                } else if k1 == p {
                    assert(out@[k1] == c && out@[k2] == out0[k2 - 1]);
                    assert(out0[k2 - 1] < c);
                } else {
                    assert(out@[k1] == out0[k1 - 1] && out@[k2] == out0[k2 - 1]);
                }
            }
        }
    }
}

} // verus!
