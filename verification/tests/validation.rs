use trait_wrap::decl::{
    dispatch_impl_check, receiver_mode, wrap_trait_check, FnDecl, GenError, ImplDecl, ItemDecl,
    ParamDecl, ReceiverMode, TraitDecl, TraitMemberDecl,
};

fn speak_fn(exclusive: bool) -> FnDecl {
    FnDecl {
        name: b"speak".to_vec(),
        params: vec![
            ParamDecl::Receiver { exclusive },
            ParamDecl::Typed { name: b"volume".to_vec(), ty: b"i64".to_vec() },
        ],
        ret: Some(b"i64".to_vec()),
    }
}

fn speaker_trait(members: Vec<TraitMemberDecl>) -> ItemDecl {
    ItemDecl::TraitItem(TraitDecl { name: b"Speaker".to_vec(), has_generics: false, members })
}

#[test]
fn accepts_trait_of_functions() {
    let item = speaker_trait(vec![
        TraitMemberDecl::Function(speak_fn(false)),
        TraitMemberDecl::Function(speak_fn(true)),
    ]);
    assert_eq!(wrap_trait_check(&item), Ok(()));
}

#[test]
fn accepts_function_with_receiver_only() {
    let f = FnDecl {
        name: b"poll".to_vec(),
        params: vec![ParamDecl::Receiver { exclusive: false }],
        ret: None,
    };
    let item = speaker_trait(vec![TraitMemberDecl::Function(f)]);
    assert_eq!(wrap_trait_check(&item), Ok(()));
}

#[test]
fn rejects_non_trait_target() {
    assert_eq!(wrap_trait_check(&ItemDecl::OtherItem), Err(GenError::NotATrait));
    let imp = ItemDecl::ImplItem(ImplDecl {
        has_generics: false,
        self_path: Some(b"Robot".to_vec()),
        trait_path: Some(vec![b"Speaker".to_vec()]),
    });
    assert_eq!(wrap_trait_check(&imp), Err(GenError::NotATrait));
}

#[test]
fn rejects_generic_trait() {
    let item = ItemDecl::TraitItem(TraitDecl {
        name: b"Speaker".to_vec(),
        has_generics: true,
        members: vec![TraitMemberDecl::Function(speak_fn(false))],
    });
    assert_eq!(wrap_trait_check(&item), Err(GenError::GenericsUnsupported));
}

#[test]
fn rejects_constant_member() {
    let item = speaker_trait(vec![
        TraitMemberDecl::Function(speak_fn(false)),
        TraitMemberDecl::Constant { name: b"LIMIT".to_vec() },
    ]);
    assert_eq!(wrap_trait_check(&item), Err(GenError::MemberNotAFunction));
}

#[test]
fn rejects_type_alias_member() {
    let item = speaker_trait(vec![TraitMemberDecl::TypeAlias { name: b"Out".to_vec() }]);
    assert_eq!(wrap_trait_check(&item), Err(GenError::MemberNotAFunction));
}

#[test]
fn rejects_function_without_receiver() {
    let f = FnDecl { name: b"speak".to_vec(), params: vec![], ret: None };
    let item = speaker_trait(vec![TraitMemberDecl::Function(f)]);
    assert_eq!(wrap_trait_check(&item), Err(GenError::MissingReceiver));

    let g = FnDecl {
        name: b"speak".to_vec(),
        params: vec![ParamDecl::Typed { name: b"volume".to_vec(), ty: b"i64".to_vec() }],
        ret: None,
    };
    let item2 = speaker_trait(vec![TraitMemberDecl::Function(g)]);
    assert_eq!(wrap_trait_check(&item2), Err(GenError::MissingReceiver));
}

#[test]
fn rejects_second_receiver() {
    let f = FnDecl {
        name: b"speak".to_vec(),
        params: vec![
            ParamDecl::Receiver { exclusive: false },
            ParamDecl::Receiver { exclusive: true },
        ],
        ret: None,
    };
    let item = speaker_trait(vec![TraitMemberDecl::Function(f)]);
    assert_eq!(wrap_trait_check(&item), Err(GenError::UnexpectedReceiver));
}

#[test]
fn reports_first_offending_member() {
    let bad_fn = FnDecl { name: b"speak".to_vec(), params: vec![], ret: None };
    let item = speaker_trait(vec![
        TraitMemberDecl::Constant { name: b"LIMIT".to_vec() },
        TraitMemberDecl::Function(bad_fn),
    ]);
    assert_eq!(wrap_trait_check(&item), Err(GenError::MemberNotAFunction));
}

#[test]
fn receiver_mode_follows_declaration() {
    assert_eq!(receiver_mode(&speak_fn(false)), ReceiverMode::SharedRead);
    assert_eq!(receiver_mode(&speak_fn(true)), ReceiverMode::ExclusiveMutation);
}

#[test]
fn dispatch_accepts_plain_trait_impl() {
    let item = ItemDecl::ImplItem(ImplDecl {
        has_generics: false,
        self_path: Some(b"Robot".to_vec()),
        trait_path: Some(vec![b"speech".to_vec(), b"Speaker".to_vec()]),
    });
    assert_eq!(dispatch_impl_check(&item), Ok(()));
}

#[test]
fn dispatch_rejects_non_impl_target() {
    assert_eq!(dispatch_impl_check(&ItemDecl::OtherItem), Err(GenError::NotAnImpl));
    let item = speaker_trait(vec![]);
    assert_eq!(dispatch_impl_check(&item), Err(GenError::NotAnImpl));
}

#[test]
fn dispatch_rejects_generic_impl() {
    let item = ItemDecl::ImplItem(ImplDecl {
        has_generics: true,
        self_path: Some(b"Robot".to_vec()),
        trait_path: Some(vec![b"Speaker".to_vec()]),
    });
    assert_eq!(dispatch_impl_check(&item), Err(GenError::GenericsUnsupported));
}

#[test]
fn dispatch_rejects_unnamed_self_type() {
    let item = ItemDecl::ImplItem(ImplDecl {
        has_generics: false,
        self_path: None,
        trait_path: Some(vec![b"Speaker".to_vec()]),
    });
    assert_eq!(dispatch_impl_check(&item), Err(GenError::InvalidSelfType));
}

#[test]
fn dispatch_rejects_inherent_impl() {
    let item = ItemDecl::ImplItem(ImplDecl {
        has_generics: false,
        self_path: Some(b"Robot".to_vec()),
        trait_path: None,
    });
    assert_eq!(dispatch_impl_check(&item), Err(GenError::NotATraitImpl));
    let empty = ItemDecl::ImplItem(ImplDecl {
        has_generics: false,
        self_path: Some(b"Robot".to_vec()),
        trait_path: Some(vec![]),
    });
    assert_eq!(dispatch_impl_check(&empty), Err(GenError::NotATraitImpl));
}
