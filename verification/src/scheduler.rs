//! Bounds the per-frame movement cost: each frame only one chunk of the
//! population has its positions recomputed, and the chunk index rotates.

use vstd::prelude::*;
use vstd::arithmetic::div_mod::{
    lemma_fundamental_div_mod, lemma_mod_add_multiples_vanish, lemma_small_mod,
    lemma_mod_division_less_than_divisor, lemma_add_mod_noop,
};
use vstd::arithmetic::mul::lemma_mul_inequality;

verus! {

/// Rotates a chunk index through `[0, max_chunks)`, one step per frame.
#[derive(Clone, Copy, PartialEq, Eq, Structural, Debug)]
pub struct ChunkScheduler {
    pub chunk_index: usize,
    pub max_chunks: usize,
}

/// Size of every chunk but possibly the last: the population divided
/// evenly over the chunks, rounded down.
pub open spec fn chunk_size(pop: int, mc: int) -> int
    recommends
        mc >= 1,
{
    pop / mc
}

pub open spec fn chunk_start(c: int, pop: int, mc: int) -> int
    recommends
        mc >= 1,
        0 <= c < mc,
{
    c * chunk_size(pop, mc)
}

/// The final chunk also covers the trailing indices a division with
/// remainder leaves over.
pub open spec fn chunk_end(c: int, pop: int, mc: int) -> int
    recommends
        mc >= 1,
        0 <= c < mc,
{
    if c == mc - 1 {
        pop
    } else {
        (c + 1) * chunk_size(pop, mc)
    }
}

/// Index `i` has its movement recomputed while chunk `c` is the active one.
pub open spec fn in_chunk(i: int, c: int, pop: int, mc: int) -> bool {
    chunk_start(c, pop, mc) <= i < chunk_end(c, pop, mc)
}

/// The chunk that owns index `i`.
pub open spec fn chunk_of_index(i: int, pop: int, mc: int) -> int
    recommends
        mc >= 1,
        0 <= i < pop,
{
    let cs = chunk_size(pop, mc);
    if cs == 0 {
        mc - 1
    } else if i / cs < mc - 1 {
        i / cs
    } else {
        mc - 1
    }
}

/// The chunk active at frame `f` when the scheduler held `c0` at frame zero:
/// it advances by one each frame, wrapping.
pub open spec fn chunk_at_frame(c0: int, f: int, mc: int) -> int
    recommends
        mc >= 1,
{
    (c0 + f) % mc
}

/// Every index below the population belongs to its chunk, and to no other:
/// the chunks partition `[0, pop)`.
pub proof fn lemma_chunk_partition(i: int, pop: int, mc: int)
    requires
        mc >= 1,
        0 <= i < pop,
    ensures
        0 <= chunk_of_index(i, pop, mc) < mc,
        in_chunk(i, chunk_of_index(i, pop, mc), pop, mc),
        forall|c: int| 0 <= c < mc && in_chunk(i, c, pop, mc) ==> c == chunk_of_index(i, pop, mc),
{
    let cs = chunk_size(pop, mc);
    vstd::arithmetic::div_mod::lemma_div_pos_is_pos(pop, mc);
    lemma_fundamental_div_mod(pop, mc);
    vstd::arithmetic::div_mod::lemma_mod_division_less_than_divisor(pop, mc);
    let c0 = chunk_of_index(i, pop, mc);
    if cs == 0 {
        assert forall|c: int| 0 <= c < mc - 1 implies chunk_end(c, pop, mc) == chunk_start(c, pop, mc) by {
            assert((c + 1) * 0 == 0 && c * 0 == 0) by (nonlinear_arith)
            {}
        }
        assert(chunk_start(mc - 1, pop, mc) == (mc - 1) * 0);
        assert((mc - 1) * 0 == 0) by (nonlinear_arith)
        {}
    } else {
        vstd::arithmetic::div_mod::lemma_div_pos_is_pos(i, cs);
        lemma_fundamental_div_mod(i, cs);
        vstd::arithmetic::div_mod::lemma_mod_division_less_than_divisor(i, cs);
        // membership
        if i / cs < mc - 1 {
            assert(chunk_start(c0, pop, mc) == c0 * cs);
            assert(i < (c0 + 1) * cs) by {
                assert(i == cs * (i / cs) + i % cs);
                assert(cs * c0 == c0 * cs) by (nonlinear_arith)
                {}
                assert((c0 + 1) * cs == c0 * cs + cs) by (nonlinear_arith)
                {}
            }
            assert(c0 * cs <= i) by {
                assert(cs * c0 == c0 * cs) by (nonlinear_arith)
                {}
            }
        } else {
            assert(c0 == mc - 1);
            assert((mc - 1) * cs <= i) by {
                lemma_mul_inequality(mc - 1, i / cs, cs);
                assert(cs * (i / cs) == (i / cs) * cs) by (nonlinear_arith)
                {}
                assert(i == cs * (i / cs) + i % cs);
            }
        }
        // uniqueness: chunks are disjoint ordered intervals
        assert forall|c: int| 0 <= c < mc && in_chunk(i, c, pop, mc) implies c == c0 by {
            if c < c0 {
                assert(chunk_end(c, pop, mc) <= chunk_start(c0, pop, mc)) by {
                    assert(c < mc - 1);
                    lemma_mul_inequality(c + 1, c0, cs);
                }
                assert(chunk_start(c0, pop, mc) <= i);
            } else if c0 < c {
                assert(chunk_end(c0, pop, mc) <= chunk_start(c, pop, mc)) by {
                    assert(c0 < mc - 1);
                    lemma_mul_inequality(c0 + 1, c, cs);
                }
                assert(chunk_start(c, pop, mc) <= i);
                assert(i < chunk_end(c0, pop, mc));
            }
        }
    }
}

/// Advancing one frame advances the active chunk by one, wrapping.
pub proof fn lemma_chunk_at_frame_step(c0: int, f: int, mc: int)
    requires
        mc >= 1,
        0 <= c0 < mc,
        f >= 0,
    ensures
        chunk_at_frame(c0, f + 1, mc) == (chunk_at_frame(c0, f, mc) + 1) % (mc as int),
        0 <= chunk_at_frame(c0, f, mc) < mc,
{
    lemma_mod_division_less_than_divisor(c0 + f, mc);
    vstd::arithmetic::div_mod::lemma_mod_bound(c0 + f, mc);
    lemma_add_mod_noop(c0 + f, 1, mc);
    vstd::arithmetic::div_mod::lemma_mod_twice(c0 + f, mc);
    if mc == 1 {
        lemma_mod_division_less_than_divisor(c0 + f + 1, mc);
        lemma_mod_division_less_than_divisor((c0 + f) % mc + 1, mc);
    } else {
        lemma_small_mod(1nat, mc as nat);
    }
}

/// Cyclic fairness: an enemy whose movement is recomputed at frame `f`
/// is recomputed again at frame `f + max_chunks`, and at no frame between.
pub proof fn lemma_chunk_cycle_fairness(i: int, pop: int, mc: int, c0: int, f: int, g: int)
    requires
        mc >= 1,
        0 <= i < pop,
        0 <= c0 < mc,
        0 <= f,
        f < g < f + mc,
        in_chunk(i, chunk_at_frame(c0, f, mc), pop, mc),
    ensures
        in_chunk(i, chunk_at_frame(c0, f + mc, mc), pop, mc),
        !in_chunk(i, chunk_at_frame(c0, g, mc), pop, mc),
{
    lemma_mod_add_multiples_vanish(c0 + f, mc);
    assert(chunk_at_frame(c0, f + mc, mc) == chunk_at_frame(c0, f, mc));
    let d = g - f;
    let rf = (c0 + f) % mc;
    vstd::arithmetic::div_mod::lemma_mod_bound(c0 + f, mc);
    lemma_add_mod_noop(c0 + f, d, mc);
    vstd::arithmetic::div_mod::lemma_mod_twice(c0 + f, mc);
    lemma_small_mod(d as nat, mc as nat);
    assert((c0 + g) % mc == (rf + d) % mc);
    if rf + d < mc {
        lemma_small_mod((rf + d) as nat, mc as nat);
        assert((rf + d) % mc == rf + d);
    } else {
        lemma_mod_add_multiples_vanish(rf + d - mc, mc);
        lemma_small_mod((rf + d - mc) as nat, mc as nat);
        assert((rf + d) % mc == rf + d - mc);
    }
    assert((c0 + g) % mc != rf);
    lemma_chunk_partition(i, pop, mc);
}

impl ChunkScheduler {
    pub open spec fn wf(self) -> bool {
        &&& 1 <= self.max_chunks <= 1_000_000
        &&& self.chunk_index < self.max_chunks
    }

    /// A zero chunk count is clamped up to one, as the construction
    /// contract demands; larger counts are kept.
    pub fn new(max_chunks: usize) -> (s: ChunkScheduler)
        requires
            max_chunks <= 1_000_000,
        ensures
            s.wf(),
            s.chunk_index == 0,
            s.max_chunks == if max_chunks == 0 {
                1usize
            } else {
                max_chunks
            },
    {
        let mc = if max_chunks == 0 {
            1
        } else {
            max_chunks
        };
        ChunkScheduler { chunk_index: 0, max_chunks: mc }
    }

    /// One frame passes: the next chunk becomes the active one, wrapping.
    pub fn advance(&mut self)
        requires
            old(self).wf(),
        ensures
            final(self).wf(),
            final(self).max_chunks == old(self).max_chunks,
            final(self).chunk_index == (old(self).chunk_index + 1) % (old(self).max_chunks as int),
    {
        proof {
            if old(self).chunk_index + 1 < old(self).max_chunks {
                lemma_small_mod((old(self).chunk_index + 1) as nat, old(self).max_chunks as nat);
            } else {
                vstd::arithmetic::div_mod::lemma_mod_self_0(old(self).max_chunks as int);
            }
        }
        self.chunk_index = if self.chunk_index < self.max_chunks - 1 {
            self.chunk_index + 1
        } else {
            0
        };
    }

    /// The active chunk's index window over a population of `population`.
    pub fn chunk_bounds(&self, population: usize) -> (r: (usize, usize))
        requires
            self.wf(),
        ensures
            r.0 == chunk_start(self.chunk_index as int, population as int, self.max_chunks as int),
            r.1 == chunk_end(self.chunk_index as int, population as int, self.max_chunks as int),
            r.0 <= r.1 <= population,
    {
        let cs = population / self.max_chunks;
        proof {
            lemma_fundamental_div_mod(population as int, self.max_chunks as int);
            lemma_mod_division_less_than_divisor(population as int, self.max_chunks as int);
            vstd::arithmetic::div_mod::lemma_div_pos_is_pos(
                population as int,
                self.max_chunks as int,
            );
            lemma_mul_inequality(
                self.chunk_index as int,
                self.max_chunks as int - 1,
                cs as int,
            );
            lemma_mul_inequality(
                self.chunk_index as int + 1,
                self.max_chunks as int,
                cs as int,
            );
            assert((self.max_chunks as int) * (cs as int) == (cs as int) * (self.max_chunks as int))
                by (nonlinear_arith)
            {}
            assert((self.chunk_index as int) * (cs as int) + cs as int == (self.chunk_index as int
                + 1) * (cs as int)) by (nonlinear_arith)
            {}
            assert((self.max_chunks as int - 1) * (cs as int) + cs as int == (self.max_chunks
                as int) * (cs as int)) by (nonlinear_arith)
            {}
        }
        let start = self.chunk_index * cs;
        let end = if self.chunk_index == self.max_chunks - 1 {
            population
        } else {
            start + cs
        };
        (start, end)
    }
}

} // verus!
