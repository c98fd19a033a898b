use proc_macro2::Span;
use rewrite_impl_trait::{
    generic_name, into_generic, sig_into_generic, Bound, GenericParam, Item, Member, Param,
    Signature, Ty,
};

fn text(s: &str) -> String {
    s.to_string()
}

fn tr(s: &str) -> Bound {
    Bound::Trait(text(s))
}

fn lt(s: &str) -> Bound {
    Bound::Lifetime(text(s))
}

fn opaque(pat: &str, bounds: Vec<Bound>) -> Param {
    Param::Typed(text(pat), Ty::Opaque(bounds))
}

fn named(pat: &str, ty: &str) -> Param {
    Param::Typed(text(pat), Ty::Named(text(ty)))
}

fn generic(name: &str, bounds: Vec<Bound>) -> GenericParam {
    GenericParam { name: text(name), bounds }
}

fn ret(ty: &str) -> Option<Ty> {
    Some(Ty::Named(text(ty)))
}

#[test]
fn other_generic_keeps_declared_generic_first() {
    let sig = Signature {
        generics: vec![generic("T", vec![tr("Into<String>")])],
        params: vec![opaque("smash", vec![tr("ToString")]), named("with", "T")],
        output: ret("String"),
    };
    let expected = Signature {
        generics: vec![
            generic("T", vec![tr("Into<String>")]),
            generic("RewriteImplTrait0", vec![tr("ToString")]),
        ],
        params: vec![named("smash", "RewriteImplTrait0"), named("with", "T")],
        output: ret("String"),
    };
    assert_eq!(sig_into_generic(sig), expected);
}

#[test]
fn multiple_impls_get_indices_in_parameter_order() {
    let sig = Signature {
        generics: vec![],
        params: vec![
            opaque("smash", vec![tr("ToString")]),
            opaque("that", vec![tr("AsRef<str>")]),
        ],
        output: ret("String"),
    };
    let expected = Signature {
        generics: vec![
            generic("RewriteImplTrait0", vec![tr("ToString")]),
            generic("RewriteImplTrait1", vec![tr("AsRef<str>")]),
        ],
        params: vec![
            named("smash", "RewriteImplTrait0"),
            named("that", "RewriteImplTrait1"),
        ],
        output: ret("String"),
    };
    assert_eq!(sig_into_generic(sig), expected);
}

#[test]
fn lifetime_bound_is_carried_over() {
    let sig = Signature {
        generics: vec![generic("'a", vec![])],
        params: vec![
            named("string", "&'a mut String"),
            opaque("smash", vec![tr("ToString"), lt("'a")]),
        ],
        output: None,
    };
    let expected = Signature {
        generics: vec![
            generic("'a", vec![]),
            generic("RewriteImplTrait0", vec![tr("ToString"), lt("'a")]),
        ],
        params: vec![
            named("string", "&'a mut String"),
            named("smash", "RewriteImplTrait0"),
        ],
        output: None,
    };
    assert_eq!(sig_into_generic(sig), expected);
}

#[test]
fn return_position_impl_is_left_alone() {
    let sig = Signature {
        generics: vec![],
        params: vec![],
        output: Some(Ty::Opaque(vec![tr("ToString")])),
    };
    let expected = sig.clone();
    assert_eq!(sig_into_generic(sig), expected);
}

#[test]
fn signature_without_opaque_parameters_is_unchanged() {
    let sig = Signature {
        generics: vec![generic("T", vec![tr("Clone")]), generic("const N: usize", vec![])],
        params: vec![
            Param::Receiver(text("&self")),
            named("a", "T"),
            named("b", "[u8; N]"),
        ],
        output: Some(Ty::Opaque(vec![tr("Iterator<Item = T>")])),
    };
    let expected = sig.clone();
    assert_eq!(sig_into_generic(sig), expected);
}

#[test]
fn empty_signature_is_unchanged() {
    let sig = Signature { generics: vec![], params: vec![], output: None };
    let expected = sig.clone();
    assert_eq!(sig_into_generic(sig), expected);
}

#[test]
fn empty_bound_set_is_accepted() {
    let sig = Signature { generics: vec![], params: vec![opaque("x", vec![])], output: None };
    let r = sig_into_generic(sig);
    assert_eq!(r.generics, vec![generic("RewriteImplTrait0", vec![])]);
    assert_eq!(r.params, vec![named("x", "RewriteImplTrait0")]);
}

#[test]
fn receiver_and_mixed_parameters_keep_order_and_bindings() {
    let sig = Signature {
        generics: vec![generic("U", vec![])],
        params: vec![
            Param::Receiver(text("&mut self")),
            named("a", "u32"),
            opaque("b", vec![tr("Fn(u32) -> u32"), tr("Send")]),
            named("c", "&str"),
            opaque("(d, e)", vec![tr("Copy")]),
        ],
        output: ret("U"),
    };
    let r = sig_into_generic(sig);
    assert_eq!(
        r.params,
        vec![
            Param::Receiver(text("&mut self")),
            named("a", "u32"),
            named("b", "RewriteImplTrait0"),
            named("c", "&str"),
            named("(d, e)", "RewriteImplTrait1"),
        ]
    );
    assert_eq!(
        r.generics,
        vec![
            generic("U", vec![]),
            generic("RewriteImplTrait0", vec![tr("Fn(u32) -> u32"), tr("Send")]),
            generic("RewriteImplTrait1", vec![tr("Copy")]),
        ]
    );
    assert_eq!(r.output, ret("U"));
}

#[test]
fn one_generic_for_each_opaque_parameter() {
    let mut params = Vec::new();
    for i in 0..12 {
        params.push(opaque(&format!("p{}", i), vec![tr("Clone")]));
        params.push(named(&format!("q{}", i), "i64"));
    }
    let sig = Signature { generics: vec![generic("T", vec![])], params, output: None };
    let r = sig_into_generic(sig);
    assert_eq!(r.generics.len(), 13);
    assert_eq!(r.params.len(), 24);
    assert_eq!(r.generics[0], generic("T", vec![]));
    for i in 0..12 {
        let name = format!("RewriteImplTrait{}", i);
        assert_eq!(r.generics[i + 1], generic(&name, vec![tr("Clone")]));
        assert_eq!(r.params[2 * i], named(&format!("p{}", i), &name));
        assert_eq!(r.params[2 * i + 1], named(&format!("q{}", i), "i64"));
    }
}

#[test]
fn generic_names_are_prefix_and_decimal_index() {
    assert_eq!(generic_name(0), "RewriteImplTrait0");
    assert_eq!(generic_name(7), "RewriteImplTrait7");
    assert_eq!(generic_name(10), "RewriteImplTrait10");
    assert_eq!(generic_name(305), "RewriteImplTrait305");
    assert_eq!(generic_name(usize::MAX), format!("RewriteImplTrait{}", usize::MAX));
}

fn append_string_method() -> Signature {
    Signature {
        generics: vec![],
        params: vec![
            Param::Receiver(text("&mut self")),
            opaque("param", vec![tr("ToString")]),
        ],
        output: None,
    }
}

fn append_string_rewritten() -> Signature {
    Signature {
        generics: vec![generic("RewriteImplTrait0", vec![tr("ToString")])],
        params: vec![
            Param::Receiver(text("&mut self")),
            named("param", "RewriteImplTrait0"),
        ],
        output: None,
    }
}

#[test]
fn trait_and_impl_are_rewritten_each_on_its_own() {
    let t = into_generic(Item::Trait(vec![Member::Method(append_string_method())]));
    match t {
        Ok(Item::Trait(members)) => {
            assert_eq!(members, vec![Member::Method(append_string_rewritten())]);
        }
        other => panic!("unexpected result {:?}", other),
    }
    let i = into_generic(Item::Impl(vec![Member::Method(append_string_method())]));
    match i {
        Ok(Item::Impl(members)) => {
            assert_eq!(members, vec![Member::Method(append_string_rewritten())]);
        }
        other => panic!("unexpected result {:?}", other),
    }
}

#[test]
fn trait_members_other_than_methods_pass_through() {
    let second = Signature {
        generics: vec![],
        params: vec![opaque("a", vec![tr("Debug")]), opaque("b", vec![tr("Display")])],
        output: ret("bool"),
    };
    let item = Item::Trait(vec![
        Member::Other(text("type Output;")),
        Member::Method(append_string_method()),
        Member::Other(text("const LIMIT: usize = 3;")),
        Member::Method(second),
    ]);
    let expected_second = Signature {
        generics: vec![
            generic("RewriteImplTrait0", vec![tr("Debug")]),
            generic("RewriteImplTrait1", vec![tr("Display")]),
        ],
        params: vec![named("a", "RewriteImplTrait0"), named("b", "RewriteImplTrait1")],
        output: ret("bool"),
    };
    match into_generic(item) {
        Ok(Item::Trait(members)) => assert_eq!(
            members,
            vec![
                Member::Other(text("type Output;")),
                Member::Method(append_string_rewritten()),
                Member::Other(text("const LIMIT: usize = 3;")),
                Member::Method(expected_second),
            ]
        ),
        other => panic!("unexpected result {:?}", other),
    }
}

#[test]
fn empty_impl_is_accepted() {
    match into_generic(Item::Impl(vec![])) {
        Ok(Item::Impl(members)) => assert!(members.is_empty()),
        other => panic!("unexpected result {:?}", other),
    }
}

#[test]
fn function_item_is_rewritten() {
    let sig = Signature {
        generics: vec![],
        params: vec![opaque("smash", vec![tr("ToString")]), opaque("that", vec![tr("AsRef<str>")])],
        output: ret("String"),
    };
    match into_generic(Item::Function(sig)) {
        Ok(Item::Function(r)) => {
            assert_eq!(
                r.generics,
                vec![
                    generic("RewriteImplTrait0", vec![tr("ToString")]),
                    generic("RewriteImplTrait1", vec![tr("AsRef<str>")]),
                ]
            );
            assert_eq!(
                r.params,
                vec![named("smash", "RewriteImplTrait0"), named("that", "RewriteImplTrait1")]
            );
        }
        other => panic!("unexpected result {:?}", other),
    }
}

#[test]
fn other_item_is_refused_with_diagnostic() {
    match into_generic(Item::Other(Span::call_site())) {
        Err(d) => assert_eq!(
            d.message,
            "RewriteImplTrait must be used on a Trait, Impl, or Fn definition."
        ),
        Ok(item) => panic!("unexpected item {:?}", item),
    }
}
