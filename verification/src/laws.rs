//! The engine's cross-function guarantees, stated and proved once.
//!
//! A tick, as the driver runs it, is the kinematic sync followed by a
//! chain of write-gate passes (integration, position solving, velocity
//! recomputation and solving — once per substep), then trigger diffing and
//! dirty-row selection. The lemmas here compose the contracts of those
//! functions over a whole tick.

use vstd::prelude::*;

use crate::body::RigidBody;
use crate::kinematic::{feed_lookup, spec_synced, KinematicBody};
use crate::math::{QuatBits, Vec3Bits};
use crate::tick::{motion_step, same_identity};
use crate::triggers::spec_record_overlaps;
use crate::writeback::{sorted_by_id, unique_ids};

verus! {

/// A chain of body-array states in which each step is one write-gate
/// pass.
pub open spec fn motion_chain(chain: Seq<Seq<RigidBody>>) -> bool {
    forall|j: int| 0 <= j < chain.len() - 1 ==> motion_step(#[trigger] chain[j], chain[j + 1])
}

/// Along any chain of write-gate passes, every row keeps its identity,
/// and a row that starts non-dynamic keeps its pose and loaded pose bit
/// for bit.
pub proof fn lemma_chain_preserves_non_dynamic(chain: Seq<Seq<RigidBody>>, i: int)
    requires
        chain.len() > 0,
        motion_chain(chain),
        0 <= i < chain[0].len(),
    ensures
        chain.last().len() == chain[0].len(),
        same_identity(chain[0][i], chain.last()[i]),
        !(chain[0][i].body_type is Dynamic) ==> chain.last()[i].position == chain[0][i].position
            && chain.last()[i].rotation == chain[0][i].rotation
            && chain.last()[i].previous_position == chain[0][i].previous_position
            && chain.last()[i].previous_rotation == chain[0][i].previous_rotation,
    decreases chain.len(),
{
    if chain.len() == 1 {
    } else {
        let prefix = chain.drop_last();
        assert(motion_chain(prefix)) by {
            assert(forall|j: int| 0 <= j < prefix.len() ==> prefix[j] == chain[j]);
        }
        lemma_chain_preserves_non_dynamic(prefix, i);
        assert(motion_step(chain[chain.len() - 2], chain[chain.len() - 1]));
        assert(prefix.last() == chain[chain.len() - 2]);
    }
}

/// The pose and loaded pose of a static body are bit-identical across a
/// whole tick: the kinematic sync does not touch it, and no write-gate
/// pass moves a non-dynamic body.
pub proof fn lemma_static_pose_fixed(
    start: Seq<RigidBody>,
    chain: Seq<Seq<RigidBody>>,
    feed: Seq<KinematicBody>,
    i: int,
)
    requires
        0 <= i < start.len(),
        chain.len() > 0,
        chain[0].len() == start.len(),
        forall|k: int| 0 <= k < start.len() ==> chain[0][k] == spec_synced(#[trigger] start[k], feed),
        motion_chain(chain),
        start[i].body_type is Static,
    ensures
        chain.last()[i].position == start[i].position,
        chain.last()[i].rotation == start[i].rotation,
        chain.last()[i].previous_position == start[i].previous_position,
        chain.last()[i].previous_rotation == start[i].previous_rotation,
        chain.last()[i].body_type is Static,
{
    assert(chain[0][i] == start[i]);
    lemma_chain_preserves_non_dynamic(chain, i);
}

/// A kinematic body ends the tick with exactly the pose the feed supplied
/// for it: the sync writes that pose, and no write-gate pass moves a
/// non-dynamic body afterwards.
pub proof fn lemma_kinematic_pose_matches_feed(
    start: Seq<RigidBody>,
    chain: Seq<Seq<RigidBody>>,
    feed: Seq<KinematicBody>,
    i: int,
    pose: (Vec3Bits, QuatBits),
)
    requires
        0 <= i < start.len(),
        chain.len() > 0,
        chain[0].len() == start.len(),
        forall|k: int| 0 <= k < start.len() ==> chain[0][k] == spec_synced(#[trigger] start[k], feed),
        motion_chain(chain),
        start[i].body_type is Kinematic,
        feed_lookup(feed, start[i].id) == Some(pose),
    ensures
        chain.last()[i].position == pose.0,
        chain.last()[i].rotation == pose.1,
{
    assert(chain[0][i].position == pose.0 && chain[0][i].rotation == pose.1);
    lemma_chain_preserves_non_dynamic(chain, i);
}

/// A tick over a world with no dynamic bodies and an empty feed leaves
/// every row clean, so the write-back selects nothing: the run is a no-op
/// on persisted body state.
pub proof fn lemma_no_dynamic_tick_stays_clean(
    start: Seq<RigidBody>,
    chain: Seq<Seq<RigidBody>>,
    feed: Seq<KinematicBody>,
    i: int,
)
    requires
        0 <= i < start.len(),
        chain.len() > 0,
        chain[0].len() == start.len(),
        forall|k: int| 0 <= k < start.len() ==> chain[0][k] == spec_synced(#[trigger] start[k], feed),
        motion_chain(chain),
        feed.len() == 0,
        forall|k: int| 0 <= k < start.len() ==> !((#[trigger] start[k]).body_type is Dynamic),
        start[i].spec_clean(),
    ensures
        chain.last()[i].spec_clean(),
{
    assert(chain[0][i] == start[i]);
    lemma_chain_preserves_non_dynamic(chain, i);
}

/// Two loadings of the same rows in different orders sort to the same
/// array: with unique ids, ascending id order and equal contents pin the
/// sequence down. This is why the tick's outcome does not depend on the
/// order the store yields the rows in.
pub proof fn lemma_sorted_unique_ids_equal(s1: Seq<RigidBody>, s2: Seq<RigidBody>)
    requires
        sorted_by_id(s1),
        sorted_by_id(s2),
        unique_ids(s1),
        s1.to_multiset() == s2.to_multiset(),
    ensures
        s1 == s2,
    decreases s1.len(),
{
    broadcast use vstd::seq_lib::group_to_multiset_ensures;

    s1.to_multiset_ensures();
    s2.to_multiset_ensures();
    if s1.len() == 0 {
        assert(s2.len() == 0);
        assert(s1 =~= s2);
    } else {
        // each sequence's head is in the other sequence
        assert(s2.to_multiset().count(s1[0]) > 0);
        assert(s2.contains(s1[0]));
        assert(s1.to_multiset().count(s2[0]) > 0);
        assert(s1.contains(s2[0]));
        let k = choose|k: int| 0 <= k < s2.len() && s2[k] == s1[0];
        let m = choose|m: int| 0 <= m < s1.len() && s1[m] == s2[0];
        // both heads carry the minimal id, so the ids agree
        assert(s1[0].id <= s1[m].id);
        assert(s2[0].id <= s2[k].id);
        assert(s1[0].id == s2[0].id);
        // unique ids: the row of s1 with that id is s1[0] itself
        assert(s1[m] == s1[0]) by {
            if m != 0 {
                assert(s1[m].id != s1[0].id);
            }
        }
        assert(s1[0] == s2[0]);
        // drop the equal heads and recurse
        let t1 = s1.remove(0);
        let t2 = s2.remove(0);
        assert(t1.to_multiset() == t2.to_multiset()) by {
            assert(t1.to_multiset() =~= s1.to_multiset().remove(s1[0]));
            assert(t2.to_multiset() =~= s2.to_multiset().remove(s2[0]));
        }
        assert(sorted_by_id(t1) && sorted_by_id(t2)) by {
            assert(forall|j: int| 0 <= j < t1.len() ==> t1[j] == s1[j + 1]);
            assert(forall|j: int| 0 <= j < t2.len() ==> t2[j] == s2[j + 1]);
        }
        assert(unique_ids(t1)) by {
            assert(forall|j: int| 0 <= j < t1.len() ==> t1[j] == s1[j + 1]);
        }
        lemma_sorted_unique_ids_equal(t1, t2);
        assert(s1.len() == s2.len());
        assert forall|j: int| 0 <= j < s1.len() implies s1[j] == s2[j] by {
            if j > 0 {
                assert(t1[j - 1] == s1[j]);
                assert(t2[j - 1] == s2[j]);
            }
        }
        assert(s1 =~= s2);
    }
}

/// When each body gets exactly one overlap report, the tentative set
/// built from an empty start is exactly the set of bodies reported
/// intersecting: trigger membership at tick end equals the intersection
/// state of that instant.
pub proof fn lemma_membership_matches_overlaps(vs: Seq<(u64, bool)>)
    requires
        forall|i: int, j: int|
            0 <= i < vs.len() && 0 <= j < vs.len() && i != j ==> (#[trigger] vs[i]).0 != (
            #[trigger] vs[j]).0,
    ensures
        forall|x: u64|
            spec_record_overlaps(Set::empty(), vs).contains(x) <==> exists|i: int|
                0 <= i < vs.len() && #[trigger] vs[i] == (x, true),
    decreases vs.len(),
{
    if vs.len() == 0 {
    } else {
        let prefix = vs.drop_last();
        let last = vs.last();
        lemma_membership_matches_overlaps(prefix);
        assert forall|x: u64| spec_record_overlaps(Set::empty(), vs).contains(x) implies exists|
            i: int,
        |
            0 <= i < vs.len() && #[trigger] vs[i] == (x, true) by {
            if x == last.0 {
                assert(vs[vs.len() - 1] == (x, true));
            } else {
                assert(spec_record_overlaps(Set::empty(), prefix).contains(x));
                let i = choose|i: int| 0 <= i < prefix.len() && #[trigger] prefix[i] == (x, true);
                assert(vs[i] == (x, true));
            }
        }
        assert forall|x: u64| (exists|i: int| 0 <= i < vs.len() && #[trigger] vs[i] == (x, true))
            implies spec_record_overlaps(Set::empty(), vs).contains(x) by {
            let i = choose|i: int| 0 <= i < vs.len() && #[trigger] vs[i] == (x, true);
            if i == vs.len() - 1 {
                assert(last == (x, true));
            } else {
                assert(prefix[i] == (x, true));
                assert(spec_record_overlaps(Set::empty(), prefix).contains(x));
                // the last report names a different body, so it neither
                // adds nor removes x
                assert(last.0 != x) by {
                    if last.0 == x {
                        assert(vs[i].0 == vs[vs.len() - 1].0);
                    }
                }
            }
        }
    }
}

} // verus!
