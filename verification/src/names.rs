//! The deterministic naming convention: every generated artifact's name is
//! derived from the interface name alone, so that the factory method can be
//! found by reflection across compiled-unit boundaries.

use vstd::prelude::*;

verus! {

/// The reflection key prefix for the factory method of an interface.
pub open spec fn factory_prefix() -> Seq<u8> {
    // "__get_trait_"
    seq![95u8, 95u8, 103u8, 101u8, 116u8, 95u8, 116u8, 114u8, 97u8, 105u8, 116u8, 95u8]
}

/// Factory method name for an interface: the fixed prefix followed by the
/// interface name. Deterministic: one factory name per interface, process-wide.
pub open spec fn factory_name_spec(name: Seq<u8>) -> Seq<u8> {
    factory_prefix() + name
}

/// The factory name determines the interface: two interfaces share a
/// factory name only when they share a name. Distinct interfaces with equal
/// names are not guarded against; their factory names collide.
pub proof fn lemma_factory_name_injective(a: Seq<u8>, b: Seq<u8>)
    requires
        factory_name_spec(a) == factory_name_spec(b),
    ensures
        a == b,
{
    assert(a =~= (factory_prefix() + a).skip(factory_prefix().len() as int));
    assert(b =~= (factory_prefix() + b).skip(factory_prefix().len() as int));
}

/// Suffix of the adapter struct's name.
pub open spec fn wrapper_suffix() -> Seq<u8> {
    // "_Wrapper"
    seq![95u8, 87u8, 114u8, 97u8, 112u8, 112u8, 101u8, 114u8]
}

/// Adapter struct name for an interface: the interface name followed by the
/// wrapper suffix.
pub open spec fn wrapper_name_spec(name: Seq<u8>) -> Seq<u8> {
    name + wrapper_suffix()
}

/// Suffix of the placeholder struct's name.
pub open spec fn dummy_suffix() -> Seq<u8> {
    // "_Dummy"
    seq![95u8, 68u8, 117u8, 109u8, 109u8, 121u8]
}

/// Placeholder struct name for an interface.
pub open spec fn dummy_name_spec(name: Seq<u8>) -> Seq<u8> {
    name + dummy_suffix()
}

/// Prefix of the free discovery functions' names.
pub open spec fn access_prefix() -> Seq<u8> {
    // "try_get_trait_"
    seq![
        116u8, 114u8, 121u8, 95u8, 103u8, 101u8, 116u8, 95u8, 116u8, 114u8, 97u8, 105u8, 116u8,
        95u8,
    ]
}

/// Name of the direct discovery function for an interface.
pub open spec fn access_name_spec(name: Seq<u8>) -> Seq<u8> {
    access_prefix() + name
}

/// Suffix of the recursive discovery function's name.
pub open spec fn rec_suffix() -> Seq<u8> {
    // "_rec"
    seq![95u8, 114u8, 101u8, 99u8]
}

/// Name of the recursive discovery function for an interface.
pub open spec fn access_rec_name_spec(name: Seq<u8>) -> Seq<u8> {
    access_prefix() + name + rec_suffix()
}

/// Byte-wise equality of two byte strings.
pub fn bytes_eq(a: &Vec<u8>, b: &Vec<u8>) -> (r: bool)
    ensures
        r == (a@ == b@),
{
    if a.len() != b.len() {
        assert(a@ != b@);
        return false;
    }
    let mut i: usize = 0;
    while i < a.len()
        invariant
            i <= a.len(),
            a@.len() == b@.len(),
            forall|j: int| 0 <= j < i ==> a@[j] == b@[j],
        decreases a.len() - i,
    {
        if a[i] != b[i] {
            return false;
        }
        i += 1;
    }
    proof {
        assert(a@ =~= b@);
    }
    true
}

/// Builds the factory method name for the given interface name.
pub fn factory_name(name: &Vec<u8>) -> (r: Vec<u8>)
    ensures
        r@ == factory_name_spec(name@),
{
    let mut r: Vec<u8> = Vec::new();
    r.push(95);
    r.push(95);
    r.push(103);
    r.push(101);
    r.push(116);
    r.push(95);
    r.push(116);
    r.push(114);
    r.push(97);
    r.push(105);
    r.push(116);
    r.push(95);
    assert(r@ =~= factory_prefix());
    append_bytes(&mut r, name);
    proof {
        assert(r@ =~= factory_name_spec(name@));
    }
    r
}

/// Copies a byte string.
pub fn clone_bytes(v: &Vec<u8>) -> (r: Vec<u8>)
    ensures
        r@ == v@,
{
    let mut r: Vec<u8> = Vec::new();
    append_bytes(&mut r, v);
    proof {
        assert(r@ =~= v@);
    }
    r
}

/// Builds the adapter struct name for the given interface name.
pub fn wrapper_name(name: &Vec<u8>) -> (r: Vec<u8>)
    ensures
        r@ == wrapper_name_spec(name@),
{
    let mut r: Vec<u8> = clone_bytes(name);
    r.push(95);
    r.push(87);
    r.push(114);
    r.push(97);
    r.push(112);
    r.push(112);
    r.push(101);
    r.push(114);
    proof {
        assert(r@ =~= wrapper_name_spec(name@));
    }
    r
}

/// Builds the placeholder struct name for the given interface name.
pub fn dummy_name(name: &Vec<u8>) -> (r: Vec<u8>)
    ensures
        r@ == dummy_name_spec(name@),
{
    let mut r: Vec<u8> = clone_bytes(name);
    r.push(95);
    r.push(68);
    r.push(117);
    r.push(109);
    r.push(109);
    r.push(121);
    proof {
        assert(r@ =~= dummy_name_spec(name@));
    }
    r
}

/// Builds the direct discovery function's name for the given interface name.
pub fn access_name(name: &Vec<u8>) -> (r: Vec<u8>)
    ensures
        r@ == access_name_spec(name@),
{
    let mut r: Vec<u8> = Vec::new();
    r.push(116);
    r.push(114);
    r.push(121);
    r.push(95);
    r.push(103);
    r.push(101);
    r.push(116);
    r.push(95);
    r.push(116);
    r.push(114);
    r.push(97);
    r.push(105);
    r.push(116);
    r.push(95);
    assert(r@ =~= access_prefix());
    append_bytes(&mut r, name);
    proof {
        assert(r@ =~= access_name_spec(name@));
    }
    r
}

/// Builds the recursive discovery function's name for the given interface name.
pub fn access_rec_name(name: &Vec<u8>) -> (r: Vec<u8>)
    ensures
        r@ == access_rec_name_spec(name@),
{
    let mut r: Vec<u8> = access_name(name);
    r.push(95);
    r.push(114);
    r.push(101);
    r.push(99);
    proof {
        assert(r@ =~= access_rec_name_spec(name@));
    }
    r
}

/// Appends `suffix` to `out`.
pub fn append_bytes(out: &mut Vec<u8>, suffix: &Vec<u8>)
    ensures
        final(out)@ == old(out)@ + suffix@,
{
    let mut i: usize = 0;
    while i < suffix.len()
        invariant
            i <= suffix.len(),
            out@ == old(out)@ + suffix@.subrange(0, i as int),
        decreases suffix.len() - i,
    {
        out.push(suffix[i]);
        i += 1;
        proof {
            assert(out@ =~= old(out)@ + suffix@.subrange(0, i as int));
        }
    }
    proof {
        assert(suffix@.subrange(0, suffix@.len() as int) =~= suffix@);
    }
}

} // verus!
