//! Broad-phase leaf keys and candidate-pair bookkeeping.
//!
//! Every body and trigger becomes one leaf of the bounding-volume tree,
//! keyed by a `Collidable`. The tree's self-traversal reports unordered
//! leaf pairs; this module canonicalises them (smaller leaf index first),
//! deduplicates them, and splits them into the body-body pairs the contact
//! pass consumes and the trigger-body pairs the overlap pass consumes.

use vstd::prelude::*;

verus! {

/// Composite key of one broad-phase leaf: who it is and where its row
/// lives. Exactly one of the two index fields is meaningful, selected by
/// `is_trigger`; `collidable_index` is the leaf's position in the tree and
/// is unique across all leaves of one rebuild.
#[derive(Clone, Copy, PartialEq, Eq, Structural, Hash, Debug)]
pub struct Collidable {
    pub id: u64,
    pub rigidbody_index: usize,
    pub trigger_index: usize,
    pub is_trigger: bool,
    pub collidable_index: usize,
}

/// A candidate pair in canonical order: the leaf with the smaller tree
/// index first.
pub type CandidatePair = (Collidable, Collidable);

/// The serialised bounding-volume tree of one world, kept between ticks so
/// a query outside a tick can reuse it instead of rebuilding.
#[derive(Debug)]
pub struct QbvhCache {
    pub world_id: u64,
    pub bytes: Vec<u8>,
}

/// The leaf key of body row `i`.
pub open spec fn spec_body_leaf(id: u64, i: int) -> Collidable {
    Collidable {
        id,
        rigidbody_index: i as usize,
        trigger_index: 0,
        is_trigger: false,
        collidable_index: i as usize,
    }
}

/// The leaf key of trigger row `i`, placed after all `n_bodies` body
/// leaves.
pub open spec fn spec_trigger_leaf(id: u64, i: int, n_bodies: int) -> Collidable {
    Collidable {
        id,
        rigidbody_index: 0,
        trigger_index: i as usize,
        is_trigger: true,
        collidable_index: (n_bodies + i) as usize,
    }
}

/// Builds the leaf keys for one tree rebuild: first one leaf per body row,
/// in row order, then one per trigger row. Leaf indexes are consecutive,
/// so they are unique across the rebuild.
pub fn make_collidables(body_ids: &Vec<u64>, trigger_ids: &Vec<u64>) -> (r: Vec<Collidable>)
    requires
        body_ids@.len() + trigger_ids@.len() <= usize::MAX,
    ensures
        r@.len() == body_ids@.len() + trigger_ids@.len(),
        forall|i: int|
            0 <= i < body_ids@.len() ==> #[trigger] r@[i] == spec_body_leaf(body_ids@[i], i),
        forall|i: int|
            0 <= i < trigger_ids@.len() ==> #[trigger] r@[body_ids@.len() + i]
                == spec_trigger_leaf(trigger_ids@[i], i, body_ids@.len() as int),
        forall|i: int| 0 <= i < r@.len() ==> #[trigger] r@[i].collidable_index == i,
{
    let nb = body_ids.len();
    let nt = trigger_ids.len();
    let mut out: Vec<Collidable> = Vec::new();
    for i in 0..nb
        invariant
            nb == body_ids@.len(),
            out@.len() == i,
            forall|k: int|
                0 <= k < i ==> #[trigger] out@[k] == spec_body_leaf(body_ids@[k], k),
    {
        out.push(
            Collidable {
                id: body_ids[i],
                rigidbody_index: i,
                trigger_index: 0,
                is_trigger: false,
                collidable_index: i,
            },
        );
    }
    for i in 0..nt
        invariant
            nb == body_ids@.len(),
            nt == trigger_ids@.len(),
            nb + nt <= usize::MAX,
            out@.len() == nb + i,
            forall|k: int|
                0 <= k < nb ==> #[trigger] out@[k] == spec_body_leaf(body_ids@[k], k),
            forall|k: int|
                0 <= k < i ==> #[trigger] out@[nb + k] == spec_trigger_leaf(
                    trigger_ids@[k],
                    k,
                    nb as int,
                ),
    {
        out.push(
            Collidable {
                id: trigger_ids[i],
                rigidbody_index: 0,
                trigger_index: i,
                is_trigger: true,
                collidable_index: nb + i,
            },
        );
    }
    proof {
        assert forall|i: int| 0 <= i < out@.len() implies #[trigger] out@[i].collidable_index
            == i by {
            if i < nb {
                assert(out@[i] == spec_body_leaf(body_ids@[i], i));
            } else {
                assert(out@[nb + (i - nb)] == spec_trigger_leaf(
                    trigger_ids@[i - nb],
                    i - nb,
                    nb as int,
                ));
            }
        }
    }
    out
}

/// Well-formed candidate set: every pair is in canonical order and no two
/// pairs share both leaf indexes.
pub open spec fn pairs_wf(pairs: Seq<CandidatePair>) -> bool {
    &&& forall|k: int|
        0 <= k < pairs.len() ==> (#[trigger] pairs[k]).0.collidable_index
            < pairs[k].1.collidable_index
    &&& forall|k: int, l: int|
        0 <= k < pairs.len() && 0 <= l < pairs.len() && k != l ==> !((#[trigger] pairs[k]).0
            == (#[trigger] pairs[l]).0 && pairs[k].1 == pairs[l].1)
}

/// Whether the candidate set already holds this exact pair.
fn contains_pair(pairs: &Vec<CandidatePair>, a: Collidable, b: Collidable) -> (r: bool)
    ensures
        r == pairs@.contains((a, b)),
{
    let n = pairs.len();
    for i in 0..n
        invariant
            n == pairs@.len(),
            forall|k: int| 0 <= k < i ==> #[trigger] pairs@[k] != (a, b),
    {
        let p = pairs[i];
        if p.0 == a && p.1 == b {
            proof {
                assert(pairs@[i as int] == (a, b));
            }
            return true;
        }
    }
    false
}

/// Records one traversal report: the pair is put in canonical order,
/// self-reports are dropped, and a pair already recorded is not recorded
/// twice. A new pair is appended — report order is kept, so the candidate
/// enumeration is deterministic.
pub fn insert_pair(pairs: &mut Vec<CandidatePair>, a: Collidable, b: Collidable)
    requires
        pairs_wf(old(pairs)@),
    ensures
        pairs_wf(final(pairs)@),
        a.collidable_index == b.collidable_index ==> final(pairs)@ == old(pairs)@,
        a.collidable_index != b.collidable_index ==> {
            let canon = if a.collidable_index < b.collidable_index {
                (a, b)
            } else {
                (b, a)
            };
            final(pairs)@ == if old(pairs)@.contains(canon) {
                old(pairs)@
            } else {
                old(pairs)@.push(canon)
            }
        },
{
    broadcast use vstd::seq_lib::group_seq_properties;

    if a.collidable_index == b.collidable_index {
        return ;
    }
    let (lo, hi) = if a.collidable_index < b.collidable_index {
        (a, b)
    } else {
        (b, a)
    };
    if !contains_pair(pairs, lo, hi) {
        proof {
            assert(forall|k: int| 0 <= k < pairs@.len() ==> #[trigger] pairs@[k] != (lo, hi));
        }
        pairs.push((lo, hi));
        proof {
            assert(pairs_wf(pairs@)) by {
                assert(forall|k: int|
                    0 <= k < pairs@.len() - 1 ==> #[trigger] pairs@[k] == old(pairs)@[k]);
                assert(pairs@[pairs@.len() - 1] == (lo, hi));
            }
        }
    }
}

/// The body-body pairs of a candidate set, as row-index pairs, in report
/// order: pairs touching a trigger are skipped.
pub open spec fn spec_body_pairs(pairs: Seq<CandidatePair>) -> Seq<(usize, usize)>
    decreases pairs.len(),
{
    if pairs.len() == 0 {
        Seq::empty()
    } else {
        let rest = spec_body_pairs(pairs.drop_last());
        let p = pairs.last();
        if !p.0.is_trigger && !p.1.is_trigger {
            rest.push((p.0.rigidbody_index, p.1.rigidbody_index))
        } else {
            rest
        }
    }
}

/// The trigger-body pairs of a candidate set, as (trigger row, body row)
/// index pairs, in report order: whichever side is the trigger comes
/// first, and pairs of two triggers or two bodies are skipped.
pub open spec fn spec_trigger_pairs(pairs: Seq<CandidatePair>) -> Seq<(usize, usize)>
    decreases pairs.len(),
{
    if pairs.len() == 0 {
        Seq::empty()
    } else {
        let rest = spec_trigger_pairs(pairs.drop_last());
        let p = pairs.last();
        if p.0.is_trigger && !p.1.is_trigger {
            rest.push((p.0.trigger_index, p.1.rigidbody_index))
        } else if !p.0.is_trigger && p.1.is_trigger {
            rest.push((p.1.trigger_index, p.0.rigidbody_index))
        } else {
            rest
        }
    }
}

/// Splits out the body-body candidate pairs for the contact pass.
pub fn body_pairs(pairs: &Vec<CandidatePair>) -> (r: Vec<(usize, usize)>)
    ensures
        r@ == spec_body_pairs(pairs@),
{
    let n = pairs.len();
    let mut out: Vec<(usize, usize)> = Vec::new();
    for i in 0..n
        invariant
            n == pairs@.len(),
            out@ == spec_body_pairs(pairs@.subrange(0, i as int)),
    {
        proof {
            assert(pairs@.subrange(0, i + 1).drop_last() =~= pairs@.subrange(0, i as int));
            assert(pairs@.subrange(0, i + 1).last() == pairs@[i as int]);
        }
        let p = pairs[i];
        if !p.0.is_trigger && !p.1.is_trigger {
            out.push((p.0.rigidbody_index, p.1.rigidbody_index));
        }
    }
    proof {
        assert(pairs@.subrange(0, n as int) =~= pairs@);
    }
    out
}

/// Splits out the trigger-body candidate pairs for the overlap pass.
pub fn trigger_pairs(pairs: &Vec<CandidatePair>) -> (r: Vec<(usize, usize)>)
    ensures
        r@ == spec_trigger_pairs(pairs@),
{
    let n = pairs.len();
    let mut out: Vec<(usize, usize)> = Vec::new();
    for i in 0..n
        invariant
            n == pairs@.len(),
            out@ == spec_trigger_pairs(pairs@.subrange(0, i as int)),
    {
        proof {
            assert(pairs@.subrange(0, i + 1).drop_last() =~= pairs@.subrange(0, i as int));
            assert(pairs@.subrange(0, i + 1).last() == pairs@[i as int]);
        }
        let p = pairs[i];
        if p.0.is_trigger && !p.1.is_trigger {
            out.push((p.0.trigger_index, p.1.rigidbody_index));
        } else if !p.0.is_trigger && p.1.is_trigger {
            out.push((p.1.trigger_index, p.0.rigidbody_index));
        }
    }
    proof {
        assert(pairs@.subrange(0, n as int) =~= pairs@);
    }
    out
}

} // verus!
