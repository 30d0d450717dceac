//! The discovery protocol: a direct reflection probe and a breadth-first
//! subtree search for the nearest implementer of an interface.
//!
//! Both operations are pure reads over the tree. Absence of the capability
//! is not an error: both return an explicit absent result.

use vstd::prelude::*;

use crate::adapter::{
    exclusive_call_spec, exclusive_tree_after, implementer_wf, shared_call_spec, Adapter,
    Implementer, ImplementerView,
};
use crate::names::{factory_name, factory_name_spec};
use crate::tree::{
    children_of, copy_children, expand, first_match, has_method, has_method_spec, level,
    lemma_expand_push, lemma_first_match_prefix, lemma_level_bounds, lemma_level_empty_after,
    valid_node, wf, Tree,
};

verus! {

/// The first implementer, in breadth-first order, among the nodes exactly
/// `d` levels below `n`: the node the search at depth `d` would find.
pub open spec fn level_match(t: Tree, n: int, name: Seq<u8>, d: nat) -> Option<usize> {
    first_match(t, level(t, n, d), name)
}

/// The self-reference export: the reflection-callable, zero-argument factory
/// installed on a node that implements the interface natively. Each call
/// produces a fresh adapter whose owned implementer is a handle back to this
/// same node; nothing is cached or deduplicated.
pub fn get_trait(t: &Tree, node: usize) -> (a: Adapter)
    requires
        valid_node(*t, node as int),
    ensures
        a@ == ImplementerView::NodeRef(node as int),
{
    Adapter::real_init(Implementer::NodeRef { node })
}

/// Repeated factory calls produce fresh adapter values, but every adapter
/// the export produces for a node delegates to that same node: any two of
/// them answer every interface call alike and mutate the same node state.
pub proof fn lemma_export_target_stable(a1: Adapter, a2: Adapter, node: int, t: Tree)
    requires
        a1@ == ImplementerView::NodeRef(node),
        a2@ == ImplementerView::NodeRef(node),
    ensures
        shared_call_spec(a1@, t) == shared_call_spec(a2@, t),
        forall|arg: i64| exclusive_call_spec(a1@, t, arg) == exclusive_call_spec(a2@, t, arg),
        forall|t2: Tree, arg: i64|
            exclusive_tree_after(a1@, t, t2, arg) == exclusive_tree_after(a2@, t, t2, arg),
{
}

/// The direct check: asks reflection whether `n` exposes the factory method
/// named by the interface's naming convention, and if so obtains an adapter
/// through it. One reflection probe plus one call; absent otherwise.
pub fn try_get_trait(t: &Tree, n: usize, iface_name: &Vec<u8>) -> (r: Option<Adapter>)
    requires
        valid_node(*t, n as int),
    ensures
        r is Some <==> has_method_spec(*t, n as int, factory_name_spec(iface_name@)),
        r matches Some(a) ==> a@ == ImplementerView::NodeRef(n as int) && implementer_wf(a@, *t),
{
    let fname = factory_name(iface_name);
    if has_method(t, n, &fname) {
        Some(get_trait(t, n))
    } else {
        None
    }
}

/// The recursive check: the direct check on `n` itself and, failing that, a
/// breadth-first search of `n`'s descendants. The result is the first
/// implementer of the shallowest level that has one — strictly by depth,
/// and leftmost in iteration order within a level — or absent when no node
/// of the subtree implements the interface.
pub fn try_get_trait_rec(t: &Tree, n: usize, iface_name: &Vec<u8>) -> (r: Option<Adapter>)
    requires
        wf(*t),
        valid_node(*t, n as int),
    ensures
        r is None ==> forall|d: nat|
            level_match(*t, n as int, factory_name_spec(iface_name@), d) is None,
        r matches Some(a) ==> implementer_wf(a@, *t),
        r matches Some(a) ==> exists|d: nat|
            (#[trigger] level_match(*t, n as int, factory_name_spec(iface_name@), d)) matches Some(
                m,
            ) && a@ == ImplementerView::NodeRef(m as int) && has_method_spec(
                *t,
                m as int,
                factory_name_spec(iface_name@),
            ) && (forall|d2: nat|
                d2 < d ==> level_match(*t, n as int, factory_name_spec(iface_name@), d2) is None),
        has_method_spec(*t, n as int, factory_name_spec(iface_name@)) ==> (r matches Some(a)
            && a@ == ImplementerView::NodeRef(n as int)),
{
    let fname = factory_name(iface_name);
    if has_method(t, n, &fname) {
        proof {
            assert(level(*t, n as int, 0)[0] == n as usize);
            assert(level_match(*t, n as int, fname@, 0) == Some(n));
        }
        return Some(get_trait(t, n));
    }
    proof {
        assert(t.nodes.len() == t.nodes@.len());
        let s0 = level(*t, n as int, 0);
        assert(s0 =~= seq![n as usize]);
        assert(s0[0] == n as usize);
        assert(s0.drop_first() =~= Seq::<usize>::empty());
        assert(expand(*t, Seq::<usize>::empty()) =~= Seq::<usize>::empty());
        assert(expand(*t, s0) =~= children_of(*t, n as int) + expand(*t, s0.drop_first()));
        assert(expand(*t, s0) =~= children_of(*t, n as int));
        assert(first_match(*t, s0.drop_first(), fname@) is None);
        assert(first_match(*t, s0, fname@) is None);
        assert(level_match(*t, n as int, fname@, 0) is None);
    }
    let mut frontier: Vec<usize> = copy_children(t, n);
    let ghost mut depth: nat = 1;
    proof {
        assert(level(*t, n as int, 1) == expand(*t, level(*t, n as int, 0)));
        assert(frontier@ == level(*t, n as int, depth));
    }
    while frontier.len() > 0
        invariant
            1 <= depth <= t.nodes@.len(),
            frontier@ == level(*t, n as int, depth),
            forall|d: nat| d < depth ==> level_match(*t, n as int, fname@, d) is None,
        decreases t.nodes@.len() - depth,
    {
        proof {
            lemma_level_bounds(*t, n as int, depth);
            assert(n + depth <= frontier@[0] < t.nodes@.len());
            assert(depth < t.nodes@.len());
        }
        let mut i: usize = 0;
        while i < frontier.len()
            invariant
                i <= frontier@.len(),
                forall|j: int|
                    0 <= j < i ==> !has_method_spec(*t, (#[trigger] frontier@[j]) as int, fname@),
            decreases frontier@.len() - i,
        {
            if has_method(t, frontier[i], &fname) {
                proof {
                    lemma_first_match_prefix(*t, frontier@, fname@, i as int);
                    assert(frontier@.skip(i as int)[0] == frontier@[i as int]);
                    assert(level_match(*t, n as int, fname@, depth) == Some(frontier@[i as int]));
                }
                return Some(get_trait(t, frontier[i]));
            }
            i += 1;
        }
        proof {
            lemma_first_match_prefix(*t, frontier@, fname@, frontier@.len() as int);
            assert(level_match(*t, n as int, fname@, depth) is None);
        }
        let mut next: Vec<usize> = Vec::new();
        let mut b: usize = 0;
        while b < frontier.len()
            invariant
                b <= frontier@.len(),
                next@ == expand(*t, frontier@.subrange(0, b as int)),
            decreases frontier@.len() - b,
        {
            let mut ch = copy_children(t, frontier[b]);
            next.append(&mut ch);
            proof {
                lemma_expand_push(*t, frontier@.subrange(0, b as int), frontier@[b as int]);
                assert(frontier@.subrange(0, b + 1) =~= frontier@.subrange(0, b as int).push(
                    frontier@[b as int],
                ));
            }
            b += 1;
        }
        proof {
            assert(frontier@.subrange(0, frontier@.len() as int) =~= frontier@);
            assert(next@ == expand(*t, frontier@));
        }
        frontier = next;
        proof {
            depth = depth + 1;
        }
    }
    proof {
        assert forall|d: nat| level_match(*t, n as int, fname@, d) is None by {
            if d >= depth {
                lemma_level_empty_after(*t, n as int, depth, d);
            }
        }
    }
    None
}

} // verus!
