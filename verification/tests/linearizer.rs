use vine::linear::{finish_local, LocalState};
use vine::net::Tree;

fn var(s: &str) -> Tree {
    Tree::Var(s.to_string())
}

#[test]
fn two_gets_pair_each_consumer_with_erase() {
    let mut l = LocalState::new();
    l.get(var("A"));
    l.get(var("B"));
    let mut pairs = Vec::new();
    let mut labels: usize = 0;
    finish_local(l, &mut pairs, &mut labels).unwrap();
    assert_eq!(pairs, vec![(var("A"), Tree::Erase), (var("B"), Tree::Erase)]);
    assert_eq!(labels, 0);
}

#[test]
fn two_hedges_pair_each_producer_with_erase() {
    let mut l = LocalState::new();
    l.hedge(var("A"));
    l.hedge(var("B"));
    let mut pairs = Vec::new();
    let mut labels: usize = 0;
    finish_local(l, &mut pairs, &mut labels).unwrap();
    assert_eq!(pairs, vec![(Tree::Erase, var("A")), (Tree::Erase, var("B"))]);
    assert_eq!(labels, 0);
}

#[test]
fn assign_then_get_pairs_directly() {
    let mut l = LocalState::new();
    l.assign(var("A"));
    l.get(var("B"));
    let mut pairs = Vec::new();
    let mut labels: usize = 0;
    finish_local(l, &mut pairs, &mut labels).unwrap();
    assert_eq!(pairs, vec![(var("B"), var("A"))]);
}

#[test]
fn fan_in_of_two_producers_uses_one_fresh_label() {
    let mut l = LocalState::new();
    l.hedge(var("A"));
    l.hedge(var("B"));
    l.get(var("C"));
    let mut pairs = Vec::new();
    let mut labels: usize = 0;
    finish_local(l, &mut pairs, &mut labels).unwrap();
    let dup = Tree::Comb("dup0".to_string(), Box::new(var("A")), Box::new(var("B")));
    assert_eq!(pairs, vec![(var("C"), dup)]);
    assert_eq!(labels, 1);
}

#[test]
fn fan_out_of_one_producer_to_two_consumers() {
    let mut l = LocalState::new();
    l.get(var("A"));
    l.get(var("B"));
    l.hedge(var("V"));
    let mut pairs = Vec::new();
    let mut labels: usize = 3;
    finish_local(l, &mut pairs, &mut labels).unwrap();
    let dup = Tree::Comb("dup3".to_string(), Box::new(var("A")), Box::new(var("B")));
    assert_eq!(pairs, vec![(dup, var("V"))]);
    assert_eq!(labels, 4);
}

#[test]
fn untouched_erase_records_noop_epoch() {
    let mut l = LocalState::new();
    l.erase();
    let mut pairs = Vec::new();
    let mut labels: usize = 0;
    finish_local(l, &mut pairs, &mut labels).unwrap();
    assert!(pairs.is_empty());
    assert_eq!(labels, 0);
}

#[test]
fn take_equals_get_then_erase() {
    let mut a = LocalState::new();
    a.take(var("P"));
    a.hedge(var("V"));
    let mut b = LocalState::new();
    b.get(var("P"));
    b.erase();
    b.hedge(var("V"));
    let mut pa = Vec::new();
    let mut la: usize = 0;
    finish_local(a, &mut pa, &mut la).unwrap();
    let mut pb = Vec::new();
    let mut lb: usize = 0;
    finish_local(b, &mut pb, &mut lb).unwrap();
    assert_eq!(pa, pb);
    assert_eq!(la, lb);
}

#[test]
fn feedback_merges_open_epoch_into_first() {
    // A consumer registered before the epoch closes is satisfied by a
    // producer registered after it: the trailing open producer merges
    // into the first closed epoch.
    let mut l = LocalState::new();
    l.get(var("A"));
    l.erase();
    l.hedge(var("V"));
    let mut pairs = Vec::new();
    let mut labels: usize = 0;
    finish_local(l, &mut pairs, &mut labels).unwrap();
    assert_eq!(pairs, vec![(var("A"), var("V"))]);
}

#[test]
fn conflicting_epoch_is_a_fault() {
    let mut l = LocalState::new();
    l.get(var("A"));
    l.get(var("B"));
    l.hedge(var("X"));
    l.hedge(var("Y"));
    let mut pairs = Vec::new();
    let mut labels: usize = 0;
    let r = finish_local(l, &mut pairs, &mut labels);
    assert_eq!(r, Err(vine::net::Fault::EpochConflict));
}
