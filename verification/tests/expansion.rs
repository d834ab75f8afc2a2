use trampoline_gen::bound::generate_extern_fn;
use trampoline_gen::directive::parse_count;
use trampoline_gen::directive::parse_suffix_args;
use trampoline_gen::directive::LitToken;
use trampoline_gen::directive::ParseError;
use trampoline_gen::methods::generate_struct_impl;
use trampoline_gen::methods::ImplDef;
use trampoline_gen::methods::MethodDef;
use trampoline_gen::record::generate_struct;
use trampoline_gen::record::FieldLayout;
use trampoline_gen::record::RecordDef;
use trampoline_gen::simple::generate_extern_fn_simple;
use trampoline_gen::simple::FnTemplate;
use trampoline_gen::singleton::OnceSlot;
use trampoline_gen::tree::Node;

fn str_args(suffixes: &[&str]) -> Vec<LitToken> {
    suffixes.iter().map(|s| LitToken::StrLit(s.as_bytes().to_vec())).collect()
}

fn foo_template() -> RecordDef {
    RecordDef {
        name: b"Foo".to_vec(),
        is_public: true,
        layout: FieldLayout::Named(vec![b"x".to_vec()]),
    }
}

#[test]
fn record_family_two_suffixes() {
    // a named-field record Foo { x } over ("a", "b") gives Foo_a and Foo_b,
    // each with the same single defaulted field and the same visibility
    let r = generate_struct(&str_args(&["a", "b"]), &foo_template());
    assert_eq!(r.original, foo_template());
    assert_eq!(r.variants.len(), 2);
    assert_eq!(r.variants[0].name, b"Foo_a".to_vec());
    assert_eq!(r.variants[1].name, b"Foo_b".to_vec());
    for v in &r.variants {
        assert!(v.is_public);
        assert_eq!(v.layout, FieldLayout::Named(vec![b"x".to_vec()]));
    }
}

#[test]
fn record_family_empty_and_duplicate_suffixes() {
    let none = generate_struct(&str_args(&[]), &foo_template());
    assert_eq!(none.variants.len(), 0);
    // duplicates pass through undeduplicated: same name twice
    let dup = generate_struct(&str_args(&["a", "a"]), &foo_template());
    assert_eq!(dup.variants.len(), 2);
    assert_eq!(dup.variants[0].name, dup.variants[1].name);
}

#[test]
fn record_family_positional_and_unit_layouts() {
    let pos = RecordDef {
        name: b"Pair".to_vec(),
        is_public: false,
        layout: FieldLayout::Positional(2),
    };
    let r = generate_struct(&str_args(&["v"]), &pos);
    assert_eq!(r.variants[0].name, b"Pair_v".to_vec());
    assert_eq!(r.variants[0].layout, FieldLayout::Positional(2));
    assert!(!r.variants[0].is_public);

    let unit = RecordDef { name: b"Marker".to_vec(), is_public: true, layout: FieldLayout::Unit };
    let r = generate_struct(&str_args(&["w"]), &unit);
    assert_eq!(r.variants[0].layout, FieldLayout::Unit);
}

#[test]
fn expansion_is_deterministic() {
    let args = str_args(&["a", "b", "a", ""]);
    let first = generate_struct(&args, &foo_template());
    let second = generate_struct(&args, &foo_template());
    assert_eq!(first.variants, second.variants);
    assert_eq!(first.original, second.original);
}

#[test]
fn suffix_parser_drops_non_strings() {
    let args = vec![
        LitToken::StrLit(b"a".to_vec()),
        LitToken::IntLit(7),
        LitToken::OtherLit,
        LitToken::StrLit(b"".to_vec()),
        LitToken::StrLit(b"a".to_vec()),
    ];
    let parsed = parse_suffix_args(&args);
    assert_eq!(parsed, vec![b"a".to_vec(), b"".to_vec(), b"a".to_vec()]);
}

#[test]
fn count_parser_accepts_one_integer() {
    assert_eq!(parse_count(&vec![LitToken::IntLit(3)]), Ok(3));
    assert_eq!(parse_count(&vec![LitToken::IntLit(0)]), Ok(0));
}

#[test]
fn count_parser_rejects_bad_directives() {
    assert_eq!(parse_count(&vec![]), Err(ParseError::MissingLiteral));
    assert_eq!(parse_count(&vec![LitToken::StrLit(b"3".to_vec())]), Err(ParseError::MalformedCount));
    assert_eq!(parse_count(&vec![LitToken::OtherLit]), Err(ParseError::MalformedCount));
    assert_eq!(
        parse_count(&vec![LitToken::IntLit(1), LitToken::IntLit(2)]),
        Err(ParseError::MalformedCount)
    );
}

fn counter_template() -> ImplDef {
    ImplDef {
        self_ty: b"Counter".to_vec(),
        methods: vec![
            MethodDef {
                name: b"bump".to_vec(),
                body: Node::Group(vec![
                    Node::Ident(b"Counter".to_vec()),
                    Node::Ident(b"value".to_vec()),
                    Node::Lit(b"Counter".to_vec()),
                ]),
            },
        ],
    }
}

#[test]
fn method_family_retargets_each_clone() {
    let r = generate_struct_impl(&str_args(&["a", "b"]), &counter_template());
    assert_eq!(r.original, counter_template());
    assert_eq!(r.variants.len(), 2);
    assert_eq!(r.variants[0].self_ty, b"Counter_a".to_vec());
    assert_eq!(r.variants[1].self_ty, b"Counter_b".to_vec());
    let body = &r.variants[0].methods[0].body;
    let expected = Node::Group(vec![
        Node::Ident(b"Counter_a".to_vec()),
        Node::Ident(b"value".to_vec()),
        Node::Lit(b"Counter".to_vec()),
    ]);
    assert_eq!(body, &expected);
    assert_eq!(r.variants[0].methods[0].name, b"bump".to_vec());
}

#[test]
fn method_family_flattens_compound_type_names() {
    // a compound target type is flattened by removing whitespace; no single
    // identifier equals the compound spelling, so bodies stay unchanged
    let t = ImplDef {
        self_ty: b"Foo < T >".to_vec(),
        methods: vec![
            MethodDef { name: b"get".to_vec(), body: Node::Ident(b"Foo".to_vec()) },
        ],
    };
    let r = generate_struct_impl(&str_args(&["a"]), &t);
    assert_eq!(r.variants[0].self_ty, b"Foo<T>_a".to_vec());
    assert_eq!(r.variants[0].methods[0].body, Node::Ident(b"Foo".to_vec()));
}

#[test]
fn bound_trampolines_need_an_on_msg_method() {
    let with_on_msg = ImplDef {
        self_ty: b"Foo".to_vec(),
        methods: vec![
            MethodDef { name: b"helper".to_vec(), body: Node::Group(vec![]) },
            MethodDef { name: b"on_msg".to_vec(), body: Node::Group(vec![]) },
        ],
    };
    let r = generate_extern_fn(&str_args(&["a", "b"]), &with_on_msg);
    assert_eq!(r.original, with_on_msg);
    assert_eq!(r.trampolines.len(), 2);
    assert_eq!(r.trampolines[0].c_name, b"extern_Foo_a_on_msg".to_vec());
    assert_eq!(r.trampolines[0].target_type, b"Foo_a".to_vec());
    assert_eq!(r.trampolines[1].c_name, b"extern_Foo_b_on_msg".to_vec());

    let without = ImplDef {
        self_ty: b"Foo".to_vec(),
        methods: vec![MethodDef { name: b"helper".to_vec(), body: Node::Group(vec![]) }],
    };
    let none = generate_extern_fn(&str_args(&["a", "b"]), &without);
    assert_eq!(none.trampolines.len(), 0);
}

#[test]
fn simple_shim_carries_body_through() {
    let t = FnTemplate {
        name: b"handle".to_vec(),
        body: Node::Group(vec![Node::Ident(b"log".to_vec()), Node::Lit(b"7".to_vec())]),
    };
    let r = generate_extern_fn_simple(&t);
    assert_eq!(r.shim_name, b"extern_handle".to_vec());
    assert_eq!(r.shim_body, t.body);
    assert_eq!(r.original, t);
}

#[test]
fn singleton_accessor_first_value_sticks() {
    let mut slot: OnceSlot<u32> = OnceSlot::new();
    slot.get_or_init(5);
    assert_eq!(*slot.get(), 5);
    // a later initialization attempt never replaces the instance
    slot.get_or_init(7);
    assert_eq!(*slot.get(), 5);
    slot.get_or_init(5);
    assert_eq!(*slot.get(), 5);
}

#[test]
fn singleton_accessors_are_independent_per_variant() {
    let mut a: OnceSlot<u32> = OnceSlot::new();
    let mut b: OnceSlot<u32> = OnceSlot::new();
    a.get_or_init(1);
    b.get_or_init(2);
    assert_eq!(*a.get(), 1);
    assert_eq!(*b.get(), 2);
}
