//! The declaration model and its generation-time checks.
//!
//! An interface is declared as a trait whose members are all callable
//! signatures; the checks here reject anything else before any artifact is
//! derived from the declaration, so that a contract violation surfaces at
//! generation time and never at run time.

use vstd::prelude::*;

verus! {

/// The access mode a function's receiver declares, which also dictates the
/// access mode acquired on a node when the call is forwarded to node state.
#[derive(Clone, Copy, Debug, PartialEq, Eq, Structural)]
pub enum ReceiverMode {
    SharedRead,
    ExclusiveMutation,
}

/// One parameter of a declared function: the receiver, or a named, typed
/// parameter. Names and types are carried as byte strings.
#[derive(Debug, Clone)]
pub enum ParamDecl {
    Receiver { exclusive: bool },
    Typed { name: Vec<u8>, ty: Vec<u8> },
}

/// One declared function signature. `ret` is absent for a unit return.
#[derive(Debug, Clone)]
pub struct FnDecl {
    pub name: Vec<u8>,
    pub params: Vec<ParamDecl>,
    pub ret: Option<Vec<u8>>,
}

/// One member of a declared trait.
#[derive(Debug, Clone)]
pub enum TraitMemberDecl {
    Function(FnDecl),
    Constant { name: Vec<u8> },
    TypeAlias { name: Vec<u8> },
}

/// A declared trait: the interface description handed to generation.
#[derive(Debug, Clone)]
pub struct TraitDecl {
    pub name: Vec<u8>,
    pub has_generics: bool,
    pub members: Vec<TraitMemberDecl>,
}

/// A declared trait implementation: the target of the dispatch registration.
#[derive(Debug, Clone)]
pub struct ImplDecl {
    pub has_generics: bool,
    pub self_path: Option<Vec<u8>>,
    pub trait_path: Option<Vec<Vec<u8>>>,
}

/// Any declaration either generation step may be handed.
#[derive(Debug, Clone)]
pub enum ItemDecl {
    TraitItem(TraitDecl),
    ImplItem(ImplDecl),
    OtherItem,
}

/// A generation-time failure, tied to the offending declaration.
#[derive(Debug, Clone, Copy, PartialEq, Eq, Structural)]
pub enum GenError {
    /// The interface step was applied to something other than a trait.
    NotATrait,
    /// A trait member is not a callable signature.
    MemberNotAFunction,
    /// A declared function has no receiver as its first parameter.
    MissingReceiver,
    /// A receiver appears after the first parameter position.
    UnexpectedReceiver,
    /// The declaration carries generic parameters.
    GenericsUnsupported,
    /// The dispatch step was applied to something other than an impl block.
    NotAnImpl,
    /// The impl's self type is not a plain path.
    InvalidSelfType,
    /// The impl block does not implement a trait.
    NotATraitImpl,
}

/// What is wrong with a single declared signature, if anything.
pub open spec fn fn_sig_error(f: FnDecl) -> Option<GenError> {
    if f.params@.len() == 0 {
        Some(GenError::MissingReceiver)
    } else if !(f.params@[0] is Receiver) {
        Some(GenError::MissingReceiver)
    } else if exists|j: int| 1 <= j < f.params@.len() && f.params@[j] is Receiver {
        Some(GenError::UnexpectedReceiver)
    } else {
        None
    }
}

/// What is wrong with a single trait member, if anything.
pub open spec fn member_error(m: TraitMemberDecl) -> Option<GenError> {
    match m {
        TraitMemberDecl::Function(f) => fn_sig_error(f),
        _ => Some(GenError::MemberNotAFunction),
    }
}

/// The first member failure in declaration order, if any.
pub open spec fn first_member_error(ms: Seq<TraitMemberDecl>) -> Option<GenError>
    decreases ms.len(),
{
    if ms.len() == 0 {
        None
    } else if member_error(ms[0]) is Some {
        member_error(ms[0])
    } else {
        first_member_error(ms.drop_first())
    }
}

/// A trait declaration that the interface step accepts: no generics, and
/// every member a callable signature with a leading receiver.
pub open spec fn trait_decl_valid(t: TraitDecl) -> bool {
    &&& !t.has_generics
    &&& first_member_error(t.members@) is None
}

/// The outcome the interface-side check owes for any declaration.
pub open spec fn wrap_check_spec(item: ItemDecl) -> Result<(), GenError> {
    match item {
        ItemDecl::TraitItem(t) => {
            if t.has_generics {
                Err(GenError::GenericsUnsupported)
            } else {
                match first_member_error(t.members@) {
                    Some(e) => Err(e),
                    None => Ok(()),
                }
            }
        },
        _ => Err(GenError::NotATrait),
    }
}

/// The outcome the dispatch-side check owes for any declaration.
pub open spec fn dispatch_check_spec(item: ItemDecl) -> Result<(), GenError> {
    match item {
        ItemDecl::ImplItem(d) => {
            if d.has_generics {
                Err(GenError::GenericsUnsupported)
            } else if d.self_path is None {
                Err(GenError::InvalidSelfType)
            } else if d.trait_path is None {
                Err(GenError::NotATraitImpl)
            } else if d.trait_path->0@.len() == 0 {
                Err(GenError::NotATraitImpl)
            } else {
                Ok(())
            }
        },
        _ => Err(GenError::NotAnImpl),
    }
}

/// Checks one declared signature.
fn check_fn_decl(f: &FnDecl) -> (r: Option<GenError>)
    ensures
        r == fn_sig_error(*f),
{
    if f.params.len() == 0 {
        return Some(GenError::MissingReceiver);
    }
    match &f.params[0] {
        ParamDecl::Typed { .. } => {
            return Some(GenError::MissingReceiver);
        },
        ParamDecl::Receiver { .. } => {},
    }
    let mut j: usize = 1;
    while j < f.params.len()
        invariant
            1 <= j <= f.params@.len(),
            forall|k: int| 1 <= k < j ==> !(f.params@[k] is Receiver),
        decreases f.params@.len() - j,
    {
        match &f.params[j] {
            ParamDecl::Receiver { .. } => {
                proof {
                    assert(1 <= j < f.params@.len() && f.params@[j as int] is Receiver);
                }
                return Some(GenError::UnexpectedReceiver);
            },
            ParamDecl::Typed { .. } => {},
        }
        j += 1;
    }
    None
}

/// Checks one trait member.
fn check_member(m: &TraitMemberDecl) -> (r: Option<GenError>)
    ensures
        r == member_error(*m),
{
    match m {
        TraitMemberDecl::Function(f) => check_fn_decl(f),
        TraitMemberDecl::Constant { .. } => Some(GenError::MemberNotAFunction),
        TraitMemberDecl::TypeAlias { .. } => Some(GenError::MemberNotAFunction),
    }
}

/// Holds exactly when every member of the prefix passes its check.
proof fn lemma_first_member_error_prefix(ms: Seq<TraitMemberDecl>, i: int)
    requires
        0 <= i <= ms.len(),
        forall|k: int| 0 <= k < i ==> member_error(#[trigger] ms[k]) is None,
    ensures
        first_member_error(ms) == if i < ms.len() {
            first_member_error(ms.skip(i))
        } else {
            None::<GenError>
        },
    decreases i,
{
    if i == 0 {
        assert(ms.skip(0) =~= ms);
    } else {
        lemma_first_member_error_prefix(ms, i - 1);
        assert(ms.skip(i - 1).len() > 0);
        assert(ms.skip(i - 1)[0] == ms[i - 1]);
        assert(ms.skip(i - 1).drop_first() =~= ms.skip(i));
    }
}

/// The generation-time check of an interface declaration: accepts exactly a
/// trait without generic parameters whose members are all callable signatures
/// with a leading receiver; the failure reported is the first one in
/// declaration order, after the trait-shape and generics checks.
pub fn wrap_trait_check(item: &ItemDecl) -> (r: Result<(), GenError>)
    ensures
        r == wrap_check_spec(*item),
        r is Ok <==> (*item matches ItemDecl::TraitItem(t) && trait_decl_valid(t)),
{
    match item {
        ItemDecl::TraitItem(t) => {
            if t.has_generics {
                return Err(GenError::GenericsUnsupported);
            }
            let mut i: usize = 0;
            while i < t.members.len()
                invariant
                    0 <= i <= t.members@.len(),
                    forall|k: int| 0 <= k < i ==> member_error(#[trigger] t.members@[k]) is None,
                decreases t.members@.len() - i,
            {
                match check_member(&t.members[i]) {
                    Some(e) => {
                        proof {
                            lemma_first_member_error_prefix(t.members@, i as int);
                            assert(t.members@.skip(i as int)[0] == t.members@[i as int]);
                            assert(first_member_error(t.members@.skip(i as int)) == member_error(
                                t.members@[i as int],
                            ));
                        }
                        return Err(e);
                    },
                    None => {},
                }
                i += 1;
            }
            proof {
                lemma_first_member_error_prefix(t.members@, t.members@.len() as int);
            }
            Ok(())
        },
        ItemDecl::ImplItem(_) => Err(GenError::NotATrait),
        ItemDecl::OtherItem => Err(GenError::NotATrait),
    }
}

/// The generation-time check of a dispatch registration target: accepts
/// exactly an impl block without generic parameters, with a plain-path self
/// type, implementing a trait named by a non-empty path.
pub fn dispatch_impl_check(item: &ItemDecl) -> (r: Result<(), GenError>)
    ensures
        r == dispatch_check_spec(*item),
{
    match item {
        ItemDecl::ImplItem(d) => {
            if d.has_generics {
                return Err(GenError::GenericsUnsupported);
            }
            match &d.self_path {
                None => {
                    return Err(GenError::InvalidSelfType);
                },
                Some(_) => {},
            }
            match &d.trait_path {
                None => Err(GenError::NotATraitImpl),
                Some(p) => {
                    if p.len() == 0 {
                        Err(GenError::NotATraitImpl)
                    } else {
                        Ok(())
                    }
                },
            }
        },
        ItemDecl::TraitItem(_) => Err(GenError::NotAnImpl),
        ItemDecl::OtherItem => Err(GenError::NotAnImpl),
    }
}

/// The receiver mode of a declared signature that passed its check.
pub fn receiver_mode(f: &FnDecl) -> (r: ReceiverMode)
    requires
        fn_sig_error(*f) is None,
    ensures
        r == fn_mode_spec(*f),
{
    match &f.params[0] {
        ParamDecl::Receiver { exclusive } => {
            if *exclusive {
                ReceiverMode::ExclusiveMutation
            } else {
                ReceiverMode::SharedRead
            }
        },
        ParamDecl::Typed { .. } => ReceiverMode::SharedRead,
    }
}

/// The receiver mode a valid signature declares.
pub open spec fn fn_mode_spec(f: FnDecl) -> ReceiverMode {
    match f.params@[0] {
        ParamDecl::Receiver { exclusive } => {
            if exclusive {
                ReceiverMode::ExclusiveMutation
            } else {
                ReceiverMode::SharedRead
            }
        },
        _ => ReceiverMode::SharedRead,
    }
}

} // verus!
