//! Canonical body ordering and end-of-tick write-back selection.
//!
//! Bodies are processed in ascending id order, whatever order the store
//! yields them in; only rows whose pose changed during the tick are
//! persisted.

use vstd::prelude::*;

use crate::body::RigidBody;

verus! {

/// Bodies in ascending id order.
pub open spec fn sorted_by_id(s: Seq<RigidBody>) -> bool {
    forall|i: int, j: int| 0 <= i < j < s.len() ==> (#[trigger] s[i]).id <= (#[trigger] s[j]).id
}

/// No two bodies share an id.
pub open spec fn unique_ids(s: Seq<RigidBody>) -> bool {
    forall|i: int, j: int|
        0 <= i < s.len() && 0 <= j < s.len() && i != j ==> (#[trigger] s[i]).id != (
        #[trigger] s[j]).id
}

/// Reorders the rows into ascending id order, keeping exactly the same
/// rows. Together with unique ids this makes the processing order
/// independent of the order the store yielded the rows in.
pub fn sort_bodies_by_id(bodies: &mut Vec<RigidBody>)
    ensures
        sorted_by_id(final(bodies)@),
        final(bodies)@.to_multiset() == old(bodies)@.to_multiset(),
{
    let mut out: Vec<RigidBody> = Vec::new();
    let n = bodies.len();
    proof {
        assert(bodies@.subrange(0, 0) =~= out@);
    }
    for i in 0..n
        invariant
            n == bodies@.len(),
            bodies@ == old(bodies)@,
            sorted_by_id(out@),
            out@.to_multiset() == bodies@.subrange(0, i as int).to_multiset(),
    {
        let b = bodies[i];
        let ghost before = out@;
        let out_len = out.len();
        let mut p: usize = 0;
        while p < out_len && out[p].id <= b.id
            invariant
                out_len == out@.len(),
                out@ == before,
                p <= out@.len(),
                forall|k: int| 0 <= k < p ==> (#[trigger] out@[k]).id <= b.id,
            decreases out@.len() - p,
        {
            p += 1;
        }
        out.insert(p, b);
        proof {
            assert(sorted_by_id(out@)) by {
                assert forall|k: int, l: int| 0 <= k < l < out@.len() implies (
                #[trigger] out@[k]).id <= (#[trigger] out@[l]).id by {
                    assert(forall|m: int| 0 <= m < p ==> out@[m] == before[m]);
                    assert(out@[p as int] == b);
                    assert(forall|m: int| p < m < out@.len() ==> out@[m] == before[m - 1]);
                    assert(forall|m: int|
                        p <= m < before.len() ==> b.id < (#[trigger] before[m]).id);
                }
            }
            assert(bodies@.subrange(0, i + 1) =~= bodies@.subrange(0, i as int).push(
                bodies@[i as int],
            ));
            vstd::seq_lib::to_multiset_insert(before, p as int, b);
            vstd::seq_lib::to_multiset_build(bodies@.subrange(0, i as int), bodies@[i as int]);
            assert(out@.to_multiset() =~= bodies@.subrange(0, i + 1).to_multiset());
        }
    }
    proof {
        assert(bodies@.subrange(0, n as int) =~= bodies@);
    }
    *bodies = out;
}

/// The rows to persist: the indices, in ascending order, of exactly the
/// bodies whose pose is no longer bit-identical to the pose loaded at tick
/// start.
pub fn dirty_indices(bodies: &Vec<RigidBody>) -> (r: Vec<usize>)
    ensures
        forall|j: int|
            0 <= j < r@.len() ==> (#[trigger] r@[j]) < bodies@.len() && !bodies@[r@[j] as int].spec_clean(),
        forall|j: int, k: int| 0 <= j < k < r@.len() ==> r@[j] < r@[k],
        forall|i: int|
            0 <= i < bodies@.len() && !(#[trigger] bodies@[i]).spec_clean() ==> r@.contains(
                i as usize,
            ),
{
    let n = bodies.len();
    let mut out: Vec<usize> = Vec::new();
    for i in 0..n
        invariant
            n == bodies@.len(),
            forall|j: int|
                0 <= j < out@.len() ==> (#[trigger] out@[j]) < i && !bodies@[out@[j] as int].spec_clean(),
            forall|j: int, k: int| 0 <= j < k < out@.len() ==> out@[j] < out@[k],
            forall|k: int|
                0 <= k < i && !(#[trigger] bodies@[k]).spec_clean() ==> out@.contains(k as usize),
    {
        let ghost before = out@;
        if bodies[i].is_dirty() {
            out.push(i);
        }
        proof {
            assert forall|k: int| 0 <= k < i + 1 && !(#[trigger] bodies@[k]).spec_clean() implies
                out@.contains(k as usize) by {
                if k < i {
                    assert(before.contains(k as usize));
                    let j = choose|j: int| 0 <= j < before.len() && before[j] == k as usize;
                    assert(out@[j] == k as usize);
                } else {
                    assert(out@[out@.len() - 1] == i as usize);
                }
            }
        }
    }
    out
}

} // verus!
