//! A model of the host's object tree.
//!
//! Nodes are addressed by handles (indices into an arena). Each node carries
//! the method names its reflection facility answers for, its ordered children,
//! its guarded internal state, and what kind of access the host currently holds
//! on that state. Children always have larger indices than their parent, so a
//! well-formed tree is acyclic by construction.

use vstd::prelude::*;

use crate::names::bytes_eq;

verus! {

/// What the host currently holds on a node's access guard.
#[derive(Clone, Copy, Debug, PartialEq, Eq, Structural)]
pub enum AccessState {
    /// No access held: both shared and exclusive acquisition succeed.
    Free,
    /// A shared view is held: shared acquisition succeeds, exclusive fails.
    SharedHeld,
    /// An exclusive view is held: every acquisition fails.
    ExclusiveHeld,
}

/// One node of the host tree.
#[derive(Debug)]
pub struct NodeInfo {
    /// The method names reflection answers for on this node.
    pub methods: Vec<Vec<u8>>,
    /// Handles of the children, in iteration order (hidden ones included).
    pub children: Vec<usize>,
    /// The node-internal state, reachable only through the access guard.
    pub state: i64,
    /// What the host currently holds on the access guard.
    pub access: AccessState,
}

/// The host tree: an arena of nodes addressed by handle.
#[derive(Debug)]
pub struct Tree {
    pub nodes: Vec<NodeInfo>,
}

/// A handle that addresses a node of the tree.
pub open spec fn valid_node(t: Tree, n: int) -> bool {
    0 <= n < t.nodes@.len()
}

/// Every child of node `i` is in range and has a larger handle than `i`.
pub open spec fn wf_node(t: Tree, i: int) -> bool {
    forall|j: int|
        0 <= j < t.nodes@[i].children@.len() ==> i < (#[trigger] t.nodes@[i].children@[j])
            && t.nodes@[i].children@[j] < t.nodes@.len()
}

/// A well-formed tree: child handles always exceed their parent's, which
/// rules out cycles, so every downward walk terminates.
pub open spec fn wf(t: Tree) -> bool {
    forall|i: int| 0 <= i < t.nodes@.len() ==> #[trigger] wf_node(t, i)
}

/// Whether reflection on node `n` answers for a method named `name`.
pub open spec fn has_method_spec(t: Tree, n: int, name: Seq<u8>) -> bool {
    exists|k: int|
        0 <= k < t.nodes@[n].methods@.len() && (#[trigger] t.nodes@[n].methods@[k])@ == name
}

/// The children of node `n`, in iteration order.
pub open spec fn children_of(t: Tree, n: int) -> Seq<usize> {
    t.nodes@[n].children@
}

/// The concatenation, in order, of the children of every node of `s`: the
/// next breadth-first frontier below the frontier `s`.
pub open spec fn expand(t: Tree, s: Seq<usize>) -> Seq<usize>
    decreases s.len(),
{
    if s.len() == 0 {
        Seq::empty()
    } else {
        children_of(t, s[0] as int) + expand(t, s.drop_first())
    }
}

/// The nodes exactly `d` levels below `n`, in breadth-first order.
pub open spec fn level(t: Tree, n: int, d: nat) -> Seq<usize>
    decreases d,
{
    if d == 0 {
        seq![n as usize]
    } else {
        expand(t, level(t, n, (d - 1) as nat))
    }
}

/// The first node of `s`, in order, on which reflection answers for `name`.
pub open spec fn first_match(t: Tree, s: Seq<usize>, name: Seq<u8>) -> Option<usize>
    decreases s.len(),
{
    if s.len() == 0 {
        None
    } else if has_method_spec(t, s[0] as int, name) {
        Some(s[0])
    } else {
        first_match(t, s.drop_first(), name)
    }
}

/// `t2` is `t1` with the state of node `n` replaced by `val`.
pub open spec fn node_state_set(t1: Tree, t2: Tree, n: int, val: i64) -> bool {
    &&& t2.nodes@.len() == t1.nodes@.len()
    &&& forall|m: int| 0 <= m < t1.nodes@.len() && m != n ==> t2.nodes@[m] == t1.nodes@[m]
    &&& t2.nodes@[n].methods == t1.nodes@[n].methods
    &&& t2.nodes@[n].children == t1.nodes@[n].children
    &&& t2.nodes@[n].access == t1.nodes@[n].access
    &&& t2.nodes@[n].state == val
}

/// Expanding a frontier with one more member appends that member's children.
pub proof fn lemma_expand_push(t: Tree, s: Seq<usize>, x: usize)
    ensures
        expand(t, s.push(x)) == expand(t, s) + children_of(t, x as int),
    decreases s.len(),
{
    if s.len() == 0 {
        assert(s.push(x).drop_first() =~= s);
        assert(expand(t, s.push(x)) =~= expand(t, s) + children_of(t, x as int));
    } else {
        assert(s.push(x)[0] == s[0]);
        assert(s.push(x).drop_first() =~= s.drop_first().push(x));
        lemma_expand_push(t, s.drop_first(), x);
        assert(expand(t, s.push(x)) =~= expand(t, s) + children_of(t, x as int));
    }
}

/// In a well-formed tree, expanding a frontier whose members all lie in
/// `[lo, len)` yields members that all lie in `[lo + 1, len)`.
pub proof fn lemma_expand_bounds(t: Tree, s: Seq<usize>, lo: int)
    requires
        wf(t),
        forall|i: int| 0 <= i < s.len() ==> lo <= (#[trigger] s[i]) && s[i] < t.nodes@.len(),
    ensures
        forall|i: int|
            0 <= i < expand(t, s).len() ==> lo + 1 <= (#[trigger] expand(t, s)[i]) && expand(
                t,
                s,
            )[i] < t.nodes@.len(),
    decreases s.len(),
{
    if s.len() > 0 {
        assert(wf_node(t, s[0] as int));
        lemma_expand_bounds(t, s.drop_first(), lo);
        assert forall|i: int|
            0 <= i < expand(t, s).len() implies lo + 1 <= (#[trigger] expand(t, s)[i]) && expand(
            t,
            s,
        )[i] < t.nodes@.len() by {
            let head = children_of(t, s[0] as int);
            if i < head.len() {
                assert(expand(t, s)[i] == head[i]);
            } else {
                assert(expand(t, s)[i] == expand(t, s.drop_first())[i - head.len()]);
            }
        }
    }
}

/// In a well-formed tree, every member of level `d` below a valid node `n`
/// is a valid handle no smaller than `n + d`.
pub proof fn lemma_level_bounds(t: Tree, n: int, d: nat)
    requires
        wf(t),
        valid_node(t, n),
    ensures
        forall|i: int|
            0 <= i < level(t, n, d).len() ==> n + d <= (#[trigger] level(t, n, d)[i]) && level(
                t,
                n,
                d,
            )[i] < t.nodes@.len(),
    decreases d,
{
    if d == 0 {
        assert(t.nodes.len() == t.nodes@.len());
        assert(level(t, n, 0)[0] == n as usize);
    } else {
        lemma_level_bounds(t, n, (d - 1) as nat);
        lemma_expand_bounds(t, level(t, n, (d - 1) as nat), n + d - 1);
        assert(level(t, n, d) == expand(t, level(t, n, (d - 1) as nat)));
    }
}

/// Once a level is empty, every deeper level is empty as well.
pub proof fn lemma_level_empty_after(t: Tree, n: int, d: nat, d2: nat)
    requires
        level(t, n, d).len() == 0,
        d <= d2,
    ensures
        level(t, n, d2).len() == 0,
    decreases d2 - d,
{
    if d2 > d {
        lemma_level_empty_after(t, n, d, (d2 - 1) as nat);
    }
}

/// Scanning a frontier whose first `i` members do not match reduces the
/// first match of the whole frontier to the first match of the rest.
pub proof fn lemma_first_match_prefix(t: Tree, s: Seq<usize>, name: Seq<u8>, i: int)
    requires
        0 <= i <= s.len(),
        forall|k: int| 0 <= k < i ==> !has_method_spec(t, (#[trigger] s[k]) as int, name),
    ensures
        first_match(t, s, name) == if i < s.len() {
            first_match(t, s.skip(i), name)
        } else {
            None::<usize>
        },
    decreases i,
{
    if i == 0 {
        assert(s.skip(0) =~= s);
    } else {
        lemma_first_match_prefix(t, s, name, i - 1);
        assert(s.skip(i - 1).len() > 0);
        assert(s.skip(i - 1)[0] == s[i - 1]);
        assert(s.skip(i - 1).drop_first() =~= s.skip(i));
    }
}

/// Whether reflection on node `n` answers for a method named `name`.
pub fn has_method(t: &Tree, n: usize, name: &Vec<u8>) -> (r: bool)
    requires
        valid_node(*t, n as int),
    ensures
        r == has_method_spec(*t, n as int, name@),
{
    let mut k: usize = 0;
    while k < t.nodes[n].methods.len()
        invariant
            k <= t.nodes@[n as int].methods@.len(),
            forall|j: int| 0 <= j < k ==> (#[trigger] t.nodes@[n as int].methods@[j])@ != name@,
        decreases t.nodes@[n as int].methods@.len() - k,
    {
        if bytes_eq(&t.nodes[n].methods[k], name) {
            return true;
        }
        k += 1;
    }
    false
}

/// Copies the child list of node `n`.
pub fn copy_children(t: &Tree, n: usize) -> (r: Vec<usize>)
    requires
        valid_node(*t, n as int),
    ensures
        r@ == children_of(*t, n as int),
{
    let mut r: Vec<usize> = Vec::new();
    let mut j: usize = 0;
    while j < t.nodes[n].children.len()
        invariant
            j <= t.nodes@[n as int].children@.len(),
            r@ == children_of(*t, n as int).subrange(0, j as int),
        decreases t.nodes@[n as int].children@.len() - j,
    {
        r.push(t.nodes[n].children[j]);
        proof {
            assert(r@ =~= children_of(*t, n as int).subrange(0, j + 1));
        }
        j += 1;
    }
    proof {
        assert(r@ =~= children_of(*t, n as int));
    }
    r
}

impl Tree {
    /// An empty tree.
    pub fn new() -> (t: Tree)
        ensures
            t.nodes@.len() == 0,
            wf(t),
    {
        Tree { nodes: Vec::new() }
    }

    /// Appends a fresh node with the given state, as a child of `parent` when
    /// one is given, and returns its handle. The fresh node has no methods,
    /// no children, and a free access guard.
    pub fn add_node(&mut self, parent: Option<usize>, state: i64) -> (id: usize)
        requires
            wf(*old(self)),
            old(self).nodes@.len() < usize::MAX,
            parent matches Some(p) ==> valid_node(*old(self), p as int),
        ensures
            wf(*final(self)),
            id == old(self).nodes@.len(),
            final(self).nodes@.len() == old(self).nodes@.len() + 1,
            final(self).nodes@[id as int].methods@.len() == 0,
            final(self).nodes@[id as int].children@.len() == 0,
            final(self).nodes@[id as int].state == state,
            final(self).nodes@[id as int].access == AccessState::Free,
            match parent {
                Some(p) => {
                    &&& final(self).nodes@[p as int].children@ == old(self).nodes@[
                        p as int
                    ].children@.push(id)
                    &&& final(self).nodes@[p as int].methods == old(self).nodes@[p as int].methods
                    &&& final(self).nodes@[p as int].state == old(self).nodes@[p as int].state
                    &&& final(self).nodes@[p as int].access == old(self).nodes@[p as int].access
                    &&& forall|m: int|
                        0 <= m < old(self).nodes@.len() && m != p ==> final(self).nodes@[m] == old(
                            self,
                        ).nodes@[m]
                },
                None => forall|m: int|
                    0 <= m < old(self).nodes@.len() ==> final(self).nodes@[m] == old(self).nodes@[m],
            },
    {
        let id: usize = self.nodes.len();
        self.nodes.push(
            NodeInfo {
                methods: Vec::new(),
                children: Vec::new(),
                state,
                access: AccessState::Free,
            },
        );
        match parent {
            Some(p) => {
                self.nodes[p].children.push(id);
            },
            None => {},
        }
        proof {
            assert forall|i: int| 0 <= i < self.nodes@.len() implies #[trigger] wf_node(
                *self,
                i,
            ) by {
                if i < old(self).nodes@.len() {
                    assert(wf_node(*old(self), i));
                }
            }
        }
        id
    }

    /// Registers a reflection-answerable method name on node `n`. The host
    /// does this at node construction time; registering the factory name of
    /// an interface is what makes the node discoverable as an implementer.
    pub fn register_method(&mut self, n: usize, name: Vec<u8>)
        requires
            wf(*old(self)),
            valid_node(*old(self), n as int),
        ensures
            wf(*final(self)),
            final(self).nodes@.len() == old(self).nodes@.len(),
            final(self).nodes@[n as int].methods@ == old(self).nodes@[n as int].methods@.push(name),
            final(self).nodes@[n as int].children == old(self).nodes@[n as int].children,
            final(self).nodes@[n as int].state == old(self).nodes@[n as int].state,
            final(self).nodes@[n as int].access == old(self).nodes@[n as int].access,
            forall|m: int|
                0 <= m < old(self).nodes@.len() && m != n ==> final(self).nodes@[m] == old(
                    self,
                ).nodes@[m],
    {
        self.nodes[n].methods.push(name);
        proof {
            assert forall|i: int| 0 <= i < self.nodes@.len() implies #[trigger] wf_node(
                *self,
                i,
            ) by {
                assert(wf_node(*old(self), i));
            }
        }
    }

    /// Sets what the host holds on the access guard of node `n`. The guard is
    /// the host's: this subsystem only ever reads it for the duration of one
    /// forwarded call.
    pub fn set_access(&mut self, n: usize, a: AccessState)
        requires
            wf(*old(self)),
            valid_node(*old(self), n as int),
        ensures
            wf(*final(self)),
            final(self).nodes@.len() == old(self).nodes@.len(),
            final(self).nodes@[n as int].access == a,
            final(self).nodes@[n as int].methods == old(self).nodes@[n as int].methods,
            final(self).nodes@[n as int].children == old(self).nodes@[n as int].children,
            final(self).nodes@[n as int].state == old(self).nodes@[n as int].state,
            forall|m: int|
                0 <= m < old(self).nodes@.len() && m != n ==> final(self).nodes@[m] == old(
                    self,
                ).nodes@[m],
    {
        self.nodes[n].access = a;
        proof {
            assert forall|i: int| 0 <= i < self.nodes@.len() implies #[trigger] wf_node(
                *self,
                i,
            ) by {
                assert(wf_node(*old(self), i));
            }
        }
    }
}

} // verus!
