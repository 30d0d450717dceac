use trait_wrap::adapter::{Adapter, CallOutcome, Implementer};
use trait_wrap::discovery::{get_trait, try_get_trait, try_get_trait_rec};
use trait_wrap::names::factory_name;
use trait_wrap::tree::Tree;

fn mark_implementer(t: &mut Tree, n: usize, iface: &[u8]) {
    let fname = factory_name(&iface.to_vec());
    t.register_method(n, fname);
}

fn target_of(a: &Adapter) -> usize {
    match &a.owned {
        Implementer::NodeRef { node } => *node,
        other => panic!("expected a node handle, got {:?}", other),
    }
}

#[test]
fn direct_check_finds_exposed_factory() {
    let mut t = Tree::new();
    let n = t.add_node(None, 1);
    mark_implementer(&mut t, n, b"Speaker");
    let found = try_get_trait(&t, n, &b"Speaker".to_vec());
    assert_eq!(target_of(&found.unwrap()), n);
}

#[test]
fn direct_check_is_absent_without_factory() {
    let mut t = Tree::new();
    let n = t.add_node(None, 1);
    assert!(try_get_trait(&t, n, &b"Speaker".to_vec()).is_none());
}

#[test]
fn direct_check_distinguishes_interfaces() {
    let mut t = Tree::new();
    let n = t.add_node(None, 1);
    mark_implementer(&mut t, n, b"Speaker");
    assert!(try_get_trait(&t, n, &b"Mover".to_vec()).is_none());
    assert!(try_get_trait(&t, n, &b"Speaker".to_vec()).is_some());
}

#[test]
fn recursive_check_is_absent_without_any_implementer() {
    let mut t = Tree::new();
    let a = t.add_node(None, 0);
    let b = t.add_node(Some(a), 0);
    let _c = t.add_node(Some(b), 0);
    let _d = t.add_node(Some(a), 0);
    assert!(try_get_trait_rec(&t, a, &b"Speaker".to_vec()).is_none());
}

#[test]
fn recursive_check_on_leaf_is_absent() {
    let mut t = Tree::new();
    let a = t.add_node(None, 0);
    assert!(try_get_trait_rec(&t, a, &b"Speaker".to_vec()).is_none());
}

#[test]
fn recursive_check_returns_self_without_descending() {
    let mut t = Tree::new();
    let a = t.add_node(None, 0);
    let child = t.add_node(Some(a), 0);
    mark_implementer(&mut t, a, b"Speaker");
    mark_implementer(&mut t, child, b"Speaker");
    let found = try_get_trait_rec(&t, a, &b"Speaker".to_vec());
    assert_eq!(target_of(&found.unwrap()), a);
}

#[test]
fn recursive_check_prefers_shallower_implementer() {
    // a has child b (not implementing) with grandchild c (implementing),
    // and a direct child d (implementing): d is shallower and must win,
    // even though c's branch comes first in iteration order
    let mut t = Tree::new();
    let a = t.add_node(None, 0);
    let b = t.add_node(Some(a), 0);
    let c = t.add_node(Some(b), 0);
    let d = t.add_node(Some(a), 0);
    mark_implementer(&mut t, c, b"Speaker");
    mark_implementer(&mut t, d, b"Speaker");
    let found = try_get_trait_rec(&t, a, &b"Speaker".to_vec());
    assert_eq!(target_of(&found.unwrap()), d);
}

#[test]
fn recursive_check_prefers_earlier_sibling_at_equal_depth() {
    let mut t = Tree::new();
    let a = t.add_node(None, 0);
    let x = t.add_node(Some(a), 0);
    let y = t.add_node(Some(a), 0);
    mark_implementer(&mut t, x, b"Speaker");
    mark_implementer(&mut t, y, b"Speaker");
    let found = try_get_trait_rec(&t, a, &b"Speaker".to_vec());
    assert_eq!(target_of(&found.unwrap()), x);
}

#[test]
fn recursive_check_reaches_deep_descendants() {
    let mut t = Tree::new();
    let a = t.add_node(None, 0);
    let b = t.add_node(Some(a), 0);
    let c = t.add_node(Some(b), 0);
    let d = t.add_node(Some(c), 7);
    mark_implementer(&mut t, d, b"Speaker");
    let found = try_get_trait_rec(&t, a, &b"Speaker".to_vec()).unwrap();
    assert_eq!(target_of(&found), d);
    assert_eq!(found.call_shared(&t, &vec![]), CallOutcome::Returned(7));
}

#[test]
fn export_factory_produces_fresh_adapters_with_stable_target() {
    let mut t = Tree::new();
    let n = t.add_node(None, 3);
    mark_implementer(&mut t, n, b"Speaker");
    let mut first = get_trait(&t, n);
    let second = get_trait(&t, n);
    // distinct adapter values, same delegation target
    assert_eq!(target_of(&first), n);
    assert_eq!(target_of(&second), n);
    // a mutation through one adapter is visible through the other,
    // because both delegate to the same node
    assert_eq!(first.call_exclusive(&mut t, &vec![9]), CallOutcome::Returned(3));
    assert_eq!(second.call_shared(&t, &vec![]), CallOutcome::Returned(9));
}
