use trait_wrap::adapter::{construction_warning, Adapter, CallOutcome, Implementer};
use trait_wrap::decl::{FnDecl, ParamDecl};
use trait_wrap::tree::{AccessState, Tree};

fn sig(exclusive: bool) -> FnDecl {
    FnDecl {
        name: b"speak".to_vec(),
        params: vec![
            ParamDecl::Receiver { exclusive },
            ParamDecl::Typed { name: b"volume".to_vec(), ty: b"i64".to_vec() },
        ],
        ret: Some(b"i64".to_vec()),
    }
}

#[test]
fn adapter_forwards_shared_call_unchanged() {
    let t = Tree::new();
    let args: Vec<i64> = vec![];
    let direct = Implementer::DirectValue { value: 41 };
    let direct_result = direct.call_shared(&t, &args);
    let adapter = Adapter::real_init(Implementer::DirectValue { value: 41 });
    assert_eq!(adapter.call_shared(&t, &args), direct_result);
    assert_eq!(adapter.call_shared(&t, &args), CallOutcome::Returned(41));
}

#[test]
fn adapter_forwards_exclusive_call_unchanged() {
    let mut t = Tree::new();
    let args: Vec<i64> = vec![7];
    let mut direct = Implementer::DirectValue { value: 41 };
    let direct_result = direct.call_exclusive(&mut t, &args);
    let mut adapter = Adapter::real_init(Implementer::DirectValue { value: 41 });
    assert_eq!(adapter.call_exclusive(&mut t, &args), direct_result);
    // the owned implementer now holds the stored value
    assert_eq!(adapter.call_shared(&t, &vec![]), CallOutcome::Returned(7));
}

#[test]
fn default_adapter_is_fatal_on_every_call() {
    let mut t = Tree::new();
    let (mut adapter, warning) = Adapter::init(b"Speaker".to_vec());
    let expected = b"uninitialized adapter for 'Speaker': host default construction".to_vec();
    assert_eq!(warning, expected);
    match adapter.call_shared(&t, &vec![]) {
        CallOutcome::Fatal(msg) => assert_eq!(msg, expected),
        other => panic!("expected a fatal outcome, got {:?}", other),
    }
    match adapter.call_exclusive(&mut t, &vec![3]) {
        CallOutcome::Fatal(msg) => assert_eq!(msg, expected),
        other => panic!("expected a fatal outcome, got {:?}", other),
    }
}

#[test]
fn construction_warning_names_the_interface() {
    let msg = construction_warning(&b"Mover".to_vec());
    let text = String::from_utf8(msg).unwrap();
    assert!(text.contains("Mover"));
}

#[test]
fn node_forwarding_reads_through_shared_access() {
    let mut t = Tree::new();
    let n = t.add_node(None, 5);
    let adapter = Adapter::real_init(Implementer::NodeRef { node: n });
    assert_eq!(adapter.call_shared(&t, &vec![]), CallOutcome::Returned(5));
    // a shared call must not require exclusive access: it still succeeds
    // while the host holds a shared view
    t.set_access(n, AccessState::SharedHeld);
    assert_eq!(adapter.call_shared(&t, &vec![]), CallOutcome::Returned(5));
    t.set_access(n, AccessState::ExclusiveHeld);
    assert_eq!(adapter.call_shared(&t, &vec![]), CallOutcome::AccessDenied);
}

#[test]
fn node_forwarding_mutates_through_exclusive_access() {
    let mut t = Tree::new();
    let n = t.add_node(None, 5);
    let mut adapter = Adapter::real_init(Implementer::NodeRef { node: n });
    assert_eq!(adapter.call_exclusive(&mut t, &vec![9]), CallOutcome::Returned(5));
    assert_eq!(t.nodes[n].state, 9);
}

#[test]
fn node_forwarding_propagates_denied_exclusive_access() {
    let mut t = Tree::new();
    let n = t.add_node(None, 5);
    let mut adapter = Adapter::real_init(Implementer::NodeRef { node: n });
    t.set_access(n, AccessState::SharedHeld);
    assert_eq!(adapter.call_exclusive(&mut t, &vec![9]), CallOutcome::AccessDenied);
    assert_eq!(t.nodes[n].state, 5);
    t.set_access(n, AccessState::ExclusiveHeld);
    assert_eq!(adapter.call_exclusive(&mut t, &vec![9]), CallOutcome::AccessDenied);
    assert_eq!(t.nodes[n].state, 5);
}

#[test]
fn signature_driven_call_picks_declared_access_mode() {
    let mut t = Tree::new();
    let n = t.add_node(None, 5);
    let mut adapter = Adapter::real_init(Implementer::NodeRef { node: n });
    // a shared-read signature reads and never writes
    assert_eq!(adapter.call(&mut t, &sig(false), &vec![9]), CallOutcome::Returned(5));
    assert_eq!(t.nodes[n].state, 5);
    // an exclusive-mutation signature stores its argument
    assert_eq!(adapter.call(&mut t, &sig(true), &vec![9]), CallOutcome::Returned(5));
    assert_eq!(t.nodes[n].state, 9);
}
