use trampoline_gen::name::bytes_eq;
use trampoline_gen::name::index_digits;
use trampoline_gen::name::remove_spaces;
use trampoline_gen::name::synth_indexed_name;
use trampoline_gen::name::synth_suffix_name;
use trampoline_gen::tree::rewrite_node;
use trampoline_gen::tree::Node;

#[test]
fn index_digits_examples() {
    assert_eq!(index_digits(0), b"0".to_vec());
    assert_eq!(index_digits(7), b"7".to_vec());
    assert_eq!(index_digits(10), b"10".to_vec());
    assert_eq!(index_digits(12345), b"12345".to_vec());
    assert_eq!(index_digits(1000), b"1000".to_vec());
}

#[test]
fn synth_suffix_examples() {
    assert_eq!(synth_suffix_name(&b"Foo".to_vec(), &b"a".to_vec()), b"Foo_a".to_vec());
    assert_eq!(synth_suffix_name(&b"Foo".to_vec(), &b"".to_vec()), b"Foo_".to_vec());
    // nesting a previously synthesized name is plain concatenation again
    let once = synth_suffix_name(&b"Foo".to_vec(), &b"a".to_vec());
    assert_eq!(synth_suffix_name(&once, &b"b".to_vec()), b"Foo_a_b".to_vec());
}

#[test]
fn synth_indexed_examples() {
    assert_eq!(synth_indexed_name(&b"on_msg_wrapper".to_vec(), 0), b"on_msg_wrapper_0".to_vec());
    assert_eq!(synth_indexed_name(&b"on_msg_wrapper".to_vec(), 11), b"on_msg_wrapper_11".to_vec());
}

#[test]
fn remove_spaces_examples() {
    assert_eq!(remove_spaces(&b"Foo < T >".to_vec()), b"Foo<T>".to_vec());
    assert_eq!(remove_spaces(&b"Plain".to_vec()), b"Plain".to_vec());
    assert_eq!(remove_spaces(&b"".to_vec()), b"".to_vec());
    assert_eq!(remove_spaces(&b"   ".to_vec()), b"".to_vec());
}

#[test]
fn bytes_eq_examples() {
    assert!(bytes_eq(&b"on_msg".to_vec(), &b"on_msg".to_vec()));
    assert!(!bytes_eq(&b"on_msg".to_vec(), &b"on_msG".to_vec()));
    assert!(!bytes_eq(&b"on_msg".to_vec(), &b"on_msg_".to_vec()));
}

#[test]
fn rewrite_replaces_exact_identifiers_only() {
    let body = Node::Group(vec![
        Node::Ident(b"Foo".to_vec()),
        Node::Ident(b"FooBar".to_vec()),
        Node::Lit(b"Foo".to_vec()),
        Node::Group(vec![Node::Ident(b"Foo".to_vec()), Node::Ident(b"other".to_vec())]),
    ]);
    let rewritten = rewrite_node(&body, &b"Foo".to_vec(), &b"Foo_a".to_vec());
    let expected = Node::Group(vec![
        Node::Ident(b"Foo_a".to_vec()),
        Node::Ident(b"FooBar".to_vec()),
        Node::Lit(b"Foo".to_vec()),
        Node::Group(vec![Node::Ident(b"Foo_a".to_vec()), Node::Ident(b"other".to_vec())]),
    ]);
    assert_eq!(rewritten, expected);
}

#[test]
fn rewrite_round_trip_restores_body() {
    // the body never mentions the new name, so old -> new -> old is exact
    let body = Node::Group(vec![
        Node::Ident(b"Counter".to_vec()),
        Node::Group(vec![Node::Ident(b"Counter".to_vec()), Node::Lit(b"42".to_vec())]),
        Node::Ident(b"unrelated".to_vec()),
    ]);
    let there = rewrite_node(&body, &b"Counter".to_vec(), &b"Counter_x".to_vec());
    let back = rewrite_node(&there, &b"Counter_x".to_vec(), &b"Counter".to_vec());
    assert_eq!(back, body);
}
