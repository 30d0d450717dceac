//! The delegating adapter and its delegation paths.
//!
//! An adapter owns exactly one implementer of the interface and forwards
//! every call to it unchanged. Three kinds of implementer exist: the
//! placeholder installed by the host's default construction, which is fatal
//! on every call; a directly owned value; and a handle back to a node whose
//! native implementation is reached through the host's access guard with the
//! access mode the called function's receiver declares.

use vstd::prelude::*;

use crate::decl::{fn_mode_spec, fn_sig_error, receiver_mode, FnDecl, ReceiverMode};
use crate::names::append_bytes;
use crate::tree::{node_state_set, valid_node, AccessState, Tree};

verus! {

/// One implementer of the interface, owned by an adapter.
#[derive(Debug)]
pub enum Implementer {
    /// The placeholder: fatal on every call. Installed when the host
    /// default-constructs the adapter without a real backing object.
    Placeholder { interface_name: Vec<u8> },
    /// A directly owned value with the native semantics of the interface.
    DirectValue { value: i64 },
    /// A handle to a node whose native implementation is forwarded to.
    NodeRef { node: usize },
}

/// The mathematical shape of an implementer.
pub enum ImplementerView {
    Placeholder(Seq<u8>),
    DirectValue(i64),
    NodeRef(int),
}

impl View for Implementer {
    type V = ImplementerView;

    open spec fn view(&self) -> ImplementerView {
        match self {
            Implementer::Placeholder { interface_name } => ImplementerView::Placeholder(
                interface_name@,
            ),
            Implementer::DirectValue { value } => ImplementerView::DirectValue(*value),
            Implementer::NodeRef { node } => ImplementerView::NodeRef(*node as int),
        }
    }
}

/// The delegating adapter: owns exactly one implementer, whose lifetime it
/// shares, and forwards every interface call to it.
#[derive(Debug)]
pub struct Adapter {
    pub owned: Implementer,
}

impl View for Adapter {
    type V = ImplementerView;

    open spec fn view(&self) -> ImplementerView {
        self.owned@
    }
}

/// What one interface call came to.
#[derive(Debug, PartialEq, Eq)]
pub enum CallOutcome {
    /// The call went through and returned this value.
    Returned(i64),
    /// The call hit the placeholder: fatal in the host process, surfaced
    /// here as a diagnostic for the host shell to abort with.
    Fatal(Vec<u8>),
    /// The access guard refused the acquisition; the denial is propagated
    /// unchanged, with nothing retried and nothing altered.
    AccessDenied,
}

/// The mathematical shape of a call outcome.
pub enum OutcomeView {
    Returned(i64),
    Fatal(Seq<u8>),
    AccessDenied,
}

impl View for CallOutcome {
    type V = OutcomeView;

    open spec fn view(&self) -> OutcomeView {
        match self {
            CallOutcome::Returned(v) => OutcomeView::Returned(*v),
            CallOutcome::Fatal(m) => OutcomeView::Fatal(m@),
            CallOutcome::AccessDenied => OutcomeView::AccessDenied,
        }
    }
}

/// Text before the interface name in the construction warning.
pub open spec fn warn_prefix() -> Seq<u8> {
    // "uninitialized adapter for '"
    seq![
        117u8, 110u8, 105u8, 110u8, 105u8, 116u8, 105u8, 97u8, 108u8, 105u8, 122u8, 101u8, 100u8,
        32u8, 97u8, 100u8, 97u8, 112u8, 116u8, 101u8, 114u8, 32u8, 102u8, 111u8, 114u8, 32u8, 39u8,
    ]
}

/// Text after the interface name in the construction warning.
pub open spec fn warn_suffix() -> Seq<u8> {
    // "': host default construction"
    seq![
        39u8, 58u8, 32u8, 104u8, 111u8, 115u8, 116u8, 32u8, 100u8, 101u8, 102u8, 97u8, 117u8,
        108u8, 116u8, 32u8, 99u8, 111u8, 110u8, 115u8, 116u8, 114u8, 117u8, 99u8, 116u8, 105u8,
        111u8, 110u8,
    ]
}

/// The diagnostic for an adapter that was default-constructed by the host:
/// emitted once as a warning at construction, and fatally on every call that
/// reaches the placeholder. It names the interface.
pub open spec fn construction_warning_spec(name: Seq<u8>) -> Seq<u8> {
    warn_prefix() + name + warn_suffix()
}

/// Builds the construction diagnostic for the given interface name.
pub fn construction_warning(name: &Vec<u8>) -> (r: Vec<u8>)
    ensures
        r@ == construction_warning_spec(name@),
{
    let mut r: Vec<u8> = Vec::new();
    r.push(117);
    r.push(110);
    r.push(105);
    r.push(110);
    r.push(105);
    r.push(116);
    r.push(105);
    r.push(97);
    r.push(108);
    r.push(105);
    r.push(122);
    r.push(101);
    r.push(100);
    r.push(32);
    r.push(97);
    r.push(100);
    r.push(97);
    r.push(112);
    r.push(116);
    r.push(101);
    r.push(114);
    r.push(32);
    r.push(102);
    r.push(111);
    r.push(114);
    r.push(32);
    r.push(39);
    assert(r@ =~= warn_prefix());
    append_bytes(&mut r, name);
    r.push(39);
    r.push(58);
    r.push(32);
    r.push(104);
    r.push(111);
    r.push(115);
    r.push(116);
    r.push(32);
    r.push(100);
    r.push(101);
    r.push(102);
    r.push(97);
    r.push(117);
    r.push(108);
    r.push(116);
    r.push(32);
    r.push(99);
    r.push(111);
    r.push(110);
    r.push(115);
    r.push(116);
    r.push(114);
    r.push(117);
    r.push(99);
    r.push(116);
    r.push(105);
    r.push(111);
    r.push(110);
    proof {
        assert(r@ =~= construction_warning_spec(name@));
    }
    r
}

/// The construction diagnostic contains the interface name, right after the
/// fixed prefix.
pub proof fn lemma_warning_names_interface(name: Seq<u8>)
    ensures
        construction_warning_spec(name).subrange(
            warn_prefix().len() as int,
            (warn_prefix().len() + name.len()) as int,
        ) == name,
{
    assert(construction_warning_spec(name).subrange(
        warn_prefix().len() as int,
        (warn_prefix().len() + name.len()) as int,
    ) =~= name);
}

/// A node handle held by an implementer addresses a node of the tree.
pub open spec fn implementer_wf(v: ImplementerView, t: Tree) -> bool {
    match v {
        ImplementerView::NodeRef(n) => valid_node(t, n),
        _ => true,
    }
}

/// The first declared argument, or zero when there is none: the value a
/// mutation call stores.
pub open spec fn first_arg(args: Seq<i64>) -> i64 {
    if args.len() > 0 {
        args[0]
    } else {
        0
    }
}

/// What a shared-read call on an implementer comes to. A node handle
/// acquires shared access, which only an exclusively held guard refuses.
pub open spec fn shared_call_spec(v: ImplementerView, t: Tree) -> OutcomeView {
    match v {
        ImplementerView::Placeholder(nm) => OutcomeView::Fatal(construction_warning_spec(nm)),
        ImplementerView::DirectValue(x) => OutcomeView::Returned(x),
        ImplementerView::NodeRef(n) => {
            if t.nodes@[n].access is ExclusiveHeld {
                OutcomeView::AccessDenied
            } else {
                OutcomeView::Returned(t.nodes@[n].state)
            }
        },
    }
}

/// What an exclusive-mutation call on an implementer comes to: the previous
/// value is returned and the first argument is stored. A node handle
/// acquires exclusive access, which any held guard refuses.
pub open spec fn exclusive_call_spec(v: ImplementerView, t: Tree, arg: i64) -> OutcomeView {
    match v {
        ImplementerView::Placeholder(nm) => OutcomeView::Fatal(construction_warning_spec(nm)),
        ImplementerView::DirectValue(x) => OutcomeView::Returned(x),
        ImplementerView::NodeRef(n) => {
            if t.nodes@[n].access is Free {
                OutcomeView::Returned(t.nodes@[n].state)
            } else {
                OutcomeView::AccessDenied
            }
        },
    }
}

/// The implementer after an exclusive-mutation call: only a directly owned
/// value changes; a placeholder and a node handle are left as they are.
pub open spec fn exclusive_imp_after(v: ImplementerView, arg: i64) -> ImplementerView {
    match v {
        ImplementerView::DirectValue(_) => ImplementerView::DirectValue(arg),
        other => other,
    }
}

/// How the tree stands after an exclusive-mutation call: a node handle with
/// a free guard stores the argument into the node's state; everything else
/// leaves the tree untouched, a denied acquisition included.
pub open spec fn exclusive_tree_after(v: ImplementerView, t1: Tree, t2: Tree, arg: i64) -> bool {
    match v {
        ImplementerView::NodeRef(n) => {
            if t1.nodes@[n].access is Free {
                node_state_set(t1, t2, n, arg)
            } else {
                t2 == t1
            }
        },
        _ => t2 == t1,
    }
}

impl Implementer {
    /// A shared-read interface call on this implementer. The acquisition is
    /// scoped to this single call; nothing is held on return.
    pub fn call_shared(&self, tree: &Tree, args: &Vec<i64>) -> (r: CallOutcome)
        requires
            implementer_wf(self@, *tree),
        ensures
            r@ == shared_call_spec(self@, *tree),
    {
        match self {
            Implementer::Placeholder { interface_name } => CallOutcome::Fatal(
                construction_warning(interface_name),
            ),
            Implementer::DirectValue { value } => CallOutcome::Returned(*value),
            Implementer::NodeRef { node } => {
                match tree.nodes[*node].access {
                    AccessState::ExclusiveHeld => CallOutcome::AccessDenied,
                    _ => CallOutcome::Returned(tree.nodes[*node].state),
                }
            },
        }
    }

    /// An exclusive-mutation interface call on this implementer: stores the
    /// first argument, returns the previous value. The acquisition is scoped
    /// to this single call; a denial is propagated unchanged.
    pub fn call_exclusive(&mut self, tree: &mut Tree, args: &Vec<i64>) -> (r: CallOutcome)
        requires
            implementer_wf(old(self)@, *old(tree)),
        ensures
            r@ == exclusive_call_spec(old(self)@, *old(tree), first_arg(args@)),
            final(self)@ == exclusive_imp_after(old(self)@, first_arg(args@)),
            exclusive_tree_after(old(self)@, *old(tree), *final(tree), first_arg(args@)),
    {
        let arg: i64 = if args.len() > 0 {
            args[0]
        } else {
            0
        };
        match self {
            Implementer::Placeholder { interface_name } => CallOutcome::Fatal(
                construction_warning(interface_name),
            ),
            Implementer::DirectValue { value } => {
                let prev: i64 = *value;
                *value = arg;
                CallOutcome::Returned(prev)
            },
            Implementer::NodeRef { node } => {
                let n: usize = *node;
                match tree.nodes[n].access {
                    AccessState::Free => {
                        let prev: i64 = tree.nodes[n].state;
                        tree.nodes[n].state = arg;
                        CallOutcome::Returned(prev)
                    },
                    _ => CallOutcome::AccessDenied,
                }
            },
        }
    }
}

impl Adapter {
    /// The host's default construction path: installs the placeholder and
    /// hands back the one-time warning for the host to emit. Used only when
    /// the host materializes an instance without application data, as during
    /// a live-reload cycle.
    pub fn init(interface_name: Vec<u8>) -> (r: (Adapter, Vec<u8>))
        ensures
            r.0@ == ImplementerView::Placeholder(interface_name@),
            r.1@ == construction_warning_spec(interface_name@),
    {
        let warning = construction_warning(&interface_name);
        (Adapter { owned: Implementer::Placeholder { interface_name } }, warning)
    }

    /// The real construction path: takes ownership of the implementer and
    /// installs it directly, with no warning.
    pub fn real_init(other: Implementer) -> (a: Adapter)
        ensures
            a@ == other@,
    {
        Adapter { owned: other }
    }

    /// Forwards a shared-read call verbatim to the owned implementer.
    pub fn call_shared(&self, tree: &Tree, args: &Vec<i64>) -> (r: CallOutcome)
        requires
            implementer_wf(self@, *tree),
        ensures
            r@ == shared_call_spec(self@, *tree),
    {
        self.owned.call_shared(tree, args)
    }

    /// Forwards an exclusive-mutation call verbatim to the owned implementer.
    pub fn call_exclusive(&mut self, tree: &mut Tree, args: &Vec<i64>) -> (r: CallOutcome)
        requires
            implementer_wf(old(self)@, *old(tree)),
        ensures
            r@ == exclusive_call_spec(old(self)@, *old(tree), first_arg(args@)),
            final(self)@ == exclusive_imp_after(old(self)@, first_arg(args@)),
            exclusive_tree_after(old(self)@, *old(tree), *final(tree), first_arg(args@)),
    {
        self.owned.call_exclusive(tree, args)
    }

    /// One interface call, entered by its declared signature: the access
    /// mode acquired is the one the signature's receiver declares.
    pub fn call(&mut self, tree: &mut Tree, sig: &FnDecl, args: &Vec<i64>) -> (r: CallOutcome)
        requires
            fn_sig_error(*sig) is None,
            implementer_wf(old(self)@, *old(tree)),
        ensures
            fn_mode_spec(*sig) is SharedRead ==> {
                &&& r@ == shared_call_spec(old(self)@, *old(tree))
                &&& final(self)@ == old(self)@
                &&& *final(tree) == *old(tree)
            },
            fn_mode_spec(*sig) is ExclusiveMutation ==> {
                &&& r@ == exclusive_call_spec(old(self)@, *old(tree), first_arg(args@))
                &&& final(self)@ == exclusive_imp_after(old(self)@, first_arg(args@))
                &&& exclusive_tree_after(old(self)@, *old(tree), *final(tree), first_arg(args@))
            },
    {
        match receiver_mode(sig) {
            ReceiverMode::SharedRead => self.owned.call_shared(tree, args),
            ReceiverMode::ExclusiveMutation => self.owned.call_exclusive(tree, args),
        }
    }
}

/// Pure forwarding: an adapter built around an implementer answers every
/// interface call, shared and exclusive alike, exactly as the implementer
/// would answer it directly, and leaves the implementer and the tree exactly
/// as a direct call would.
pub proof fn lemma_adapter_pure_forwarding(imp: Implementer, a: Adapter, t: Tree, arg: i64)
    requires
        a.owned == imp,
    ensures
        shared_call_spec(a@, t) == shared_call_spec(imp@, t),
        exclusive_call_spec(a@, t, arg) == exclusive_call_spec(imp@, t, arg),
        exclusive_imp_after(a@, arg) == exclusive_imp_after(imp@, arg),
        forall|t2: Tree|
            exclusive_tree_after(a@, t, t2, arg) == exclusive_tree_after(imp@, t, t2, arg),
{
}

/// A host-default-constructed adapter is fatal on every interface call,
/// shared or exclusive: it never returns a value, never succeeds silently,
/// and never touches the implementer or any node; the diagnostic names the
/// interface.
pub proof fn lemma_default_adapter_always_fatal(name: Seq<u8>, t: Tree, arg: i64)
    ensures
        shared_call_spec(ImplementerView::Placeholder(name), t) == OutcomeView::Fatal(
            construction_warning_spec(name),
        ),
        exclusive_call_spec(ImplementerView::Placeholder(name), t, arg) == OutcomeView::Fatal(
            construction_warning_spec(name),
        ),
        exclusive_imp_after(ImplementerView::Placeholder(name), arg) == ImplementerView::Placeholder(
            name,
        ),
        forall|t2: Tree|
            exclusive_tree_after(ImplementerView::Placeholder(name), t, t2, arg) == (t2 == t),
        construction_warning_spec(name).subrange(
            warn_prefix().len() as int,
            (warn_prefix().len() + name.len()) as int,
        ) == name,
{
    lemma_warning_names_interface(name);
}

/// Borrow-mode-aware forwarding through a node handle: a shared-read call
/// succeeds whenever the guard is not exclusively held, so it never requires
/// exclusive access; an exclusive-mutation call succeeds exactly when the
/// guard is free, and a denial is propagated with the tree untouched.
pub proof fn lemma_node_forwarding_access_modes(n: int, t: Tree, arg: i64)
    requires
        valid_node(t, n),
    ensures
        !(t.nodes@[n].access is ExclusiveHeld) ==> shared_call_spec(ImplementerView::NodeRef(n), t)
            == OutcomeView::Returned(t.nodes@[n].state),
        t.nodes@[n].access is ExclusiveHeld ==> shared_call_spec(ImplementerView::NodeRef(n), t)
            == OutcomeView::AccessDenied,
        t.nodes@[n].access is Free ==> exclusive_call_spec(ImplementerView::NodeRef(n), t, arg)
            == OutcomeView::Returned(t.nodes@[n].state),
        !(t.nodes@[n].access is Free) ==> exclusive_call_spec(ImplementerView::NodeRef(n), t, arg)
            == OutcomeView::AccessDenied && (forall|t2: Tree|
            exclusive_tree_after(ImplementerView::NodeRef(n), t, t2, arg) == (t2 == t)),
{
}

} // verus!
