use spacetime_physics::pairs::{
    body_pairs, insert_pair, make_collidables, trigger_pairs, CandidatePair, Collidable,
};

fn leaf(id: u64, row_index: usize, collidable_index: usize, is_trigger: bool) -> Collidable {
    Collidable {
        id,
        rigidbody_index: if is_trigger { 0 } else { row_index },
        trigger_index: if is_trigger { row_index } else { 0 },
        is_trigger,
        collidable_index,
    }
}

#[test]
fn collidables_index_bodies_then_triggers() {
    let body_ids: Vec<u64> = vec![10, 20];
    let trigger_ids: Vec<u64> = vec![30];
    let leaves = make_collidables(&body_ids, &trigger_ids);
    assert_eq!(leaves.len(), 3);
    assert_eq!(leaves[0].id, 10);
    assert_eq!(leaves[0].rigidbody_index, 0);
    assert!(!leaves[0].is_trigger);
    assert_eq!(leaves[1].id, 20);
    assert_eq!(leaves[1].rigidbody_index, 1);
    assert_eq!(leaves[2].id, 30);
    assert!(leaves[2].is_trigger);
    assert_eq!(leaves[2].trigger_index, 0);
    assert_eq!(leaves[2].collidable_index, 2);
}

#[test]
fn insert_pair_canonicalises_and_deduplicates() {
    let a = leaf(10, 0, 0, false);
    let b = leaf(20, 1, 1, false);
    let mut pairs: Vec<CandidatePair> = Vec::new();
    insert_pair(&mut pairs, b, a);
    insert_pair(&mut pairs, a, b);
    assert_eq!(pairs.len(), 1);
    assert_eq!(pairs[0].0.collidable_index, 0);
    assert_eq!(pairs[0].1.collidable_index, 1);
}

#[test]
fn insert_pair_drops_self_reports() {
    let a = leaf(10, 0, 0, false);
    let mut pairs: Vec<CandidatePair> = Vec::new();
    insert_pair(&mut pairs, a, a);
    assert!(pairs.is_empty());
}

#[test]
fn pair_partition_routes_bodies_and_triggers() {
    let b0 = leaf(10, 0, 0, false);
    let b1 = leaf(20, 1, 1, false);
    let t0 = leaf(30, 0, 2, true);
    let t1 = leaf(40, 1, 3, true);
    let mut pairs: Vec<CandidatePair> = Vec::new();
    insert_pair(&mut pairs, b0, b1);
    insert_pair(&mut pairs, t0, b1);
    insert_pair(&mut pairs, b0, t0);
    insert_pair(&mut pairs, t0, t1);
    let bb = body_pairs(&pairs);
    assert_eq!(bb, vec![(0, 1)]);
    let tb = trigger_pairs(&pairs);
    // trigger row first, body row second, whatever side it was reported on;
    // the trigger-trigger pair is dropped
    assert_eq!(tb, vec![(0, 1), (0, 0)]);
}
