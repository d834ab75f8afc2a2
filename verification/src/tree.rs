//! The template body tree and the identifier rewriter.
//!
//! A template body is a tree of tokens: identifier leaves, literal leaves,
//! and groups of child trees. The rewriter walks a body and replaces every
//! identifier leaf exactly equal to an old name with a new name. Literal
//! leaves and identifiers that merely contain the old name as a substring are
//! left untouched: this is a tree traversal, not a textual substitution.

use crate::name::bytes_clone;
use crate::name::bytes_eq;
use vstd::prelude::*;

verus! {

/// One token tree of a template body. Identifier and literal leaves carry
/// their text as bytes; a group carries its children in order.
#[derive(Debug, PartialEq, Eq)]
pub enum Node {
    Ident(Vec<u8>),
    Lit(Vec<u8>),
    Group(Vec<Node>),
}

/// The mathematical shape of a token tree.
pub enum NodeView {
    Ident(Seq<u8>),
    Lit(Seq<u8>),
    Group(Seq<NodeView>),
}

/// The shape of a token tree.
pub open spec fn node_view(n: Node) -> NodeView
    decreases n,
{
    match n {
        Node::Ident(s) => NodeView::Ident(s@),
        Node::Lit(s) => NodeView::Lit(s@),
        Node::Group(children) => NodeView::Group(nodes_view(children@)),
    }
}

/// The shapes of a sequence of token trees, in order.
pub open spec fn nodes_view(s: Seq<Node>) -> Seq<NodeView>
    decreases s,
{
    if s.len() == 0 {
        Seq::empty()
    } else {
        nodes_view(s.drop_last()).push(node_view(s.last()))
    }
}

impl View for Node {
    type V = NodeView;

    open spec fn view(&self) -> NodeView {
        node_view(*self)
    }
}

/// `nodes_view` is the elementwise shape of the sequence.
pub proof fn lemma_nodes_view_index(s: Seq<Node>)
    ensures
        nodes_view(s).len() == s.len(),
        forall|i: int| 0 <= i < s.len() ==> #[trigger] nodes_view(s)[i] == node_view(s[i]),
    decreases s.len(),
{
    if s.len() > 0 {
        lemma_nodes_view_index(s.drop_last());
    }
}

/// What one rewriting pass produces: every identifier leaf equal to `old`
/// becomes `new`; everything else keeps its shape.
pub open spec fn rewrite_spec(n: NodeView, old: Seq<u8>, new: Seq<u8>) -> NodeView
    decreases n,
{
    match n {
        NodeView::Ident(s) => NodeView::Ident(
            if s == old {
                new
            } else {
                s
            },
        ),
        NodeView::Lit(s) => NodeView::Lit(s),
        NodeView::Group(children) => NodeView::Group(rewrite_seq(children, old, new)),
    }
}

/// One rewriting pass over each tree of a sequence, in order.
pub open spec fn rewrite_seq(s: Seq<NodeView>, old: Seq<u8>, new: Seq<u8>) -> Seq<NodeView>
    decreases s,
{
    if s.len() == 0 {
        Seq::empty()
    } else {
        rewrite_seq(s.drop_last(), old, new).push(rewrite_spec(s.last(), old, new))
    }
}

/// `rewrite_seq` is the elementwise rewrite of the sequence.
pub proof fn lemma_rewrite_seq_index(s: Seq<NodeView>, old: Seq<u8>, new: Seq<u8>)
    ensures
        rewrite_seq(s, old, new).len() == s.len(),
        forall|i: int|
            0 <= i < s.len() ==> #[trigger] rewrite_seq(s, old, new)[i] == rewrite_spec(
                s[i],
                old,
                new,
            ),
    decreases s.len(),
{
    if s.len() > 0 {
        lemma_rewrite_seq_index(s.drop_last(), old, new);
    }
}

/// Whether some identifier leaf of `n` is exactly `name`.
pub open spec fn contains_ident(n: NodeView, name: Seq<u8>) -> bool
    decreases n,
{
    match n {
        NodeView::Ident(s) => s == name,
        NodeView::Lit(_) => false,
        NodeView::Group(children) => contains_in_seq(children, name),
    }
}

/// Whether some identifier leaf somewhere in the sequence is exactly `name`.
pub open spec fn contains_in_seq(s: Seq<NodeView>, name: Seq<u8>) -> bool
    decreases s,
{
    if s.len() == 0 {
        false
    } else {
        contains_in_seq(s.drop_last(), name) || contains_ident(s.last(), name)
    }
}

/// The sequence mentions a name exactly when one of its trees does.
pub proof fn lemma_contains_in_seq(s: Seq<NodeView>, name: Seq<u8>)
    ensures
        contains_in_seq(s, name) <==> exists|i: int|
            0 <= i < s.len() && contains_ident(#[trigger] s[i], name),
    decreases s.len(),
{
    if s.len() > 0 {
        lemma_contains_in_seq(s.drop_last(), name);
        if contains_in_seq(s, name) {
            if contains_ident(s.last(), name) {
                assert(contains_ident(s[s.len() - 1], name));
            } else {
                let i = choose|i: int|
                    0 <= i < s.drop_last().len() && contains_ident(
                        #[trigger] s.drop_last()[i],
                        name,
                    );
                assert(contains_ident(s[i], name));
            }
        }
        if exists|i: int| 0 <= i < s.len() && contains_ident(#[trigger] s[i], name) {
            let i = choose|i: int| 0 <= i < s.len() && contains_ident(#[trigger] s[i], name);
            if i < s.len() - 1 {
                assert(s.drop_last()[i] == s[i]);
                assert(contains_ident(s.drop_last()[i], name));
            } else {
                assert(contains_ident(s.last(), name));
            }
        }
    }
}

/// A structurally identical copy of a token tree.
pub fn clone_node(n: &Node) -> (r: Node)
    ensures
        r@ == n@,
    decreases *n,
{
    match n {
        Node::Ident(s) => Node::Ident(bytes_clone(s)),
        Node::Lit(s) => Node::Lit(bytes_clone(s)),
        Node::Group(children) => {
            let mut out: Vec<Node> = Vec::new();
            let mut i: usize = 0;
            while i < children.len()
                invariant
                    *n == Node::Group(*children),
                    i <= children.len(),
                    out@.len() == i,
                    forall|k: int| 0 <= k < i ==> out@[k]@ == node_view(#[trigger] children@[k]),
                decreases children.len() - i,
            {
                proof {
                    assert(*children == (*n)->Group_0);
                    assert(decreases_to!(*n => (*n)->Group_0));
                    assert(decreases_to!(*children => children@));
                    assert(decreases_to!(children@ => children@[i as int]));
                    assert(decreases_to!(*n => children@[i as int]));
                }
                let c = clone_node(&children[i]);
                out.push(c);
                i += 1;
            }
            let r = Node::Group(out);
            proof {
                lemma_nodes_view_index(out@);
                lemma_nodes_view_index(children@);
                assert(nodes_view(out@) =~= nodes_view(children@));
            }
            r
        },
    }
}

/// Walks a copy of the body and replaces every identifier leaf exactly equal
/// to `old_name` with `new_name`.
pub fn rewrite_node(n: &Node, old_name: &Vec<u8>, new_name: &Vec<u8>) -> (r: Node)
    ensures
        r@ == rewrite_spec(n@, old_name@, new_name@),
    decreases *n,
{
    match n {
        Node::Ident(s) => {
            if bytes_eq(s, old_name) {
                Node::Ident(bytes_clone(new_name))
            } else {
                Node::Ident(bytes_clone(s))
            }
        },
        Node::Lit(s) => Node::Lit(bytes_clone(s)),
        Node::Group(children) => {
            let mut out: Vec<Node> = Vec::new();
            let mut i: usize = 0;
            while i < children.len()
                invariant
                    *n == Node::Group(*children),
                    i <= children.len(),
                    out@.len() == i,
                    forall|k: int|
                        0 <= k < i ==> out@[k]@ == rewrite_spec(
                            node_view(#[trigger] children@[k]),
                            old_name@,
                            new_name@,
                        ),
                decreases children.len() - i,
            {
                proof {
                    assert(*children == (*n)->Group_0);
                    assert(decreases_to!(*n => (*n)->Group_0));
                    assert(decreases_to!(*children => children@));
                    assert(decreases_to!(children@ => children@[i as int]));
                    assert(decreases_to!(*n => children@[i as int]));
                }
                let c = rewrite_node(&children[i], old_name, new_name);
                out.push(c);
                i += 1;
            }
            let r = Node::Group(out);
            proof {
                lemma_nodes_view_index(out@);
                lemma_nodes_view_index(children@);
                lemma_rewrite_seq_index(nodes_view(children@), old_name@, new_name@);
                assert(nodes_view(out@) =~= rewrite_seq(
                    nodes_view(children@),
                    old_name@,
                    new_name@,
                ));
            }
            r
        },
    }
}

/// Rewriting old to new, then new back to old, reproduces the original body
/// exactly, on any body that does not already mention the new name.
pub proof fn lemma_rewrite_round_trip(n: NodeView, old: Seq<u8>, new: Seq<u8>)
    requires
        !contains_ident(n, new),
    ensures
        rewrite_spec(rewrite_spec(n, old, new), new, old) == n,
    decreases n,
{
    match n {
        NodeView::Ident(s) => {
            if s != old {
                assert(s != new);
            }
        },
        NodeView::Lit(_) => {},
        NodeView::Group(children) => {
            lemma_contains_in_seq(children, new);
            lemma_rewrite_seq_index(children, old, new);
            lemma_rewrite_seq_index(rewrite_seq(children, old, new), new, old);
            assert forall|i: int| 0 <= i < children.len() implies rewrite_spec(
                rewrite_spec(#[trigger] children[i], old, new),
                new,
                old,
            ) == children[i] by {
                assert(!contains_ident(children[i], new));
                lemma_rewrite_round_trip(children[i], old, new);
            }
            assert(rewrite_seq(rewrite_seq(children, old, new), new, old) =~= children);
        },
    }
}

/// A rewrite is the identity on a body that never mentions the old name.
pub proof fn lemma_rewrite_absent(n: NodeView, old: Seq<u8>, new: Seq<u8>)
    requires
        !contains_ident(n, old),
    ensures
        rewrite_spec(n, old, new) == n,
    decreases n,
{
    match n {
        NodeView::Ident(_) => {},
        NodeView::Lit(_) => {},
        NodeView::Group(children) => {
            lemma_contains_in_seq(children, old);
            lemma_rewrite_seq_index(children, old, new);
            assert forall|i: int| 0 <= i < children.len() implies rewrite_spec(
                #[trigger] children[i],
                old,
                new,
            ) == children[i] by {
                assert(!contains_ident(children[i], old));
                lemma_rewrite_absent(children[i], old, new);
            }
            assert(rewrite_seq(children, old, new) =~= children);
        },
    }
}

} // verus!
