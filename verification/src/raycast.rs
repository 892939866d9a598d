//! Ray-cast query assembly: filtering and ordering of leaf hits.
//!
//! The tree walk reports one candidate hit per leaf whose shape the ray
//! strikes. This module turns those reports into the query's result: a
//! degenerate ray (zero direction) returns nothing, otherwise the hits
//! within the time budget are returned sorted by ascending time of impact.
//! Times of impact are non-negative finite single-precision values, and on
//! those the unsigned order of the bit patterns is the order of the values,
//! so the sort compares patterns directly.

use vstd::prelude::*;

use crate::math::Vec3Bits;

verus! {

/// One ray hit: the body struck, the time of impact (a scalar bit
/// pattern), and the world-space hit point and surface normal.
#[derive(Clone, Copy, PartialEq, Eq, Structural, Debug)]
pub struct RayHit {
    pub body_id: u64,
    pub time_of_impact: u32,
    pub point: Vec3Bits,
    pub normal: Vec3Bits,
}

/// Hits in ascending order of time-of-impact pattern.
pub open spec fn sorted_by_toi(s: Seq<RayHit>) -> bool {
    forall|i: int, j: int|
        0 <= i < j < s.len() ==> (#[trigger] s[i]).time_of_impact <= (#[trigger] s[j]).time_of_impact
}

/// Reorders the hits into ascending time-of-impact order, keeping exactly
/// the same hits.
pub fn sort_hits(hits: &mut Vec<RayHit>)
    ensures
        sorted_by_toi(final(hits)@),
        final(hits)@.to_multiset() == old(hits)@.to_multiset(),
{
    broadcast use vstd::seq_lib::group_to_multiset_ensures;

    let mut out: Vec<RayHit> = Vec::new();
    let n = hits.len();
    for i in 0..n
        invariant
            n == hits@.len(),
            hits@ == old(hits)@,
            sorted_by_toi(out@),
            out@.to_multiset() == hits@.subrange(0, i as int).to_multiset(),
    {
        let h = hits[i];
        let ghost before = out@;
        let out_len = out.len();
        let mut p: usize = 0;
        while p < out_len && out[p].time_of_impact <= h.time_of_impact
            invariant
                out_len == out@.len(),
                out@ == before,
                p <= out@.len(),
                forall|k: int| 0 <= k < p ==> (#[trigger] out@[k]).time_of_impact
                    <= h.time_of_impact,
            decreases out@.len() - p,
        {
            p += 1;
        }
        out.insert(p, h);
        proof {
            assert(sorted_by_toi(out@)) by {
                assert forall|k: int, l: int| 0 <= k < l < out@.len() implies (#[trigger] out@[k]).time_of_impact
                    <= (#[trigger] out@[l]).time_of_impact by {
                    assert(forall|m: int| 0 <= m < p ==> out@[m] == before[m]);
                    assert(out@[p as int] == h);
                    assert(forall|m: int| p < m < out@.len() ==> out@[m] == before[m - 1]);
                    assert(forall|m: int|
                        p <= m < before.len() ==> h.time_of_impact < (#[trigger] before[m]).time_of_impact);
                }
            }
            assert(hits@.subrange(0, i + 1) =~= hits@.subrange(0, i as int).push(
                hits@[i as int],
            ));
            vstd::seq_lib::to_multiset_insert(before, p as int, h);
            vstd::seq_lib::to_multiset_build(hits@.subrange(0, i as int), hits@[i as int]);
            assert(out@.to_multiset() =~= hits@.subrange(0, i + 1).to_multiset());
        }
    }
    proof {
        assert(hits@.subrange(0, n as int) =~= hits@);
    }
    *hits = out;
}

/// Assembles a ray-cast result from the per-leaf candidate hits: a zero
/// direction yields no hits at all; otherwise exactly the candidates whose
/// time of impact is within `max_t` are returned, sorted ascending by time
/// of impact.
pub fn assemble_ray_hits(direction: Vec3Bits, candidates: &Vec<RayHit>, max_t: u32) -> (r: Vec<
    RayHit,
>)
    ensures
        direction.is_zero() ==> r@.len() == 0,
        !direction.is_zero() ==> sorted_by_toi(r@) && r@.to_multiset() == candidates@.filter(
            |h: RayHit| h.time_of_impact <= max_t,
        ).to_multiset(),
{
    broadcast use vstd::seq_lib::group_to_multiset_ensures;

    if direction.test_zero() {
        return Vec::new();
    }
    let ghost pred = |h: RayHit| h.time_of_impact <= max_t;
    let mut within: Vec<RayHit> = Vec::new();
    let n = candidates.len();
    for i in 0..n
        invariant
            n == candidates@.len(),
            within@ == candidates@.subrange(0, i as int).filter(
                |h: RayHit| h.time_of_impact <= max_t,
            ),
    {
        proof {
            assert(candidates@.subrange(0, i + 1).drop_last() =~= candidates@.subrange(
                0,
                i as int,
            ));
            assert(candidates@.subrange(0, i + 1).last() == candidates@[i as int]);
            // filter unfolds one step on a non-empty sequence
            reveal_with_fuel(Seq::filter, 2);
        }
        let h = candidates[i];
        if h.time_of_impact <= max_t {
            within.push(h);
        }
    }
    proof {
        assert(candidates@.subrange(0, n as int) =~= candidates@);
    }
    sort_hits(&mut within);
    within
}

} // verus!
