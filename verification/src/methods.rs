//! The method-family generator.
//!
//! A method-set template, bound to a target type, is deep-cloned once per
//! suffix. Each clone is retargeted by the identifier rewriter: every
//! identifier token exactly equal to the template's target type name becomes
//! the synthesized variant name, so the variant's methods operate on the
//! variant's own type. A compound target type name, which is not a single
//! identifier, is flattened by removing whitespace before the suffix is
//! appended; the rewriter then finds no identifier equal to the compound
//! spelling and leaves the bodies unchanged, as the uniform tree walk
//! prescribes.

use crate::directive::kept_suffixes;
use crate::directive::parse_suffix_args;
use crate::directive::LitToken;
use crate::name::bytes_clone;
use crate::name::bytes_eq;
use crate::name::remove_spaces;
use crate::name::strip_spaces;
use crate::name::synth_name;
use crate::name::synth_suffix_name;
use crate::tree::clone_node;
use crate::tree::node_view;
use crate::tree::rewrite_node;
use crate::tree::rewrite_spec;
use crate::tree::Node;
use crate::tree::NodeView;
use vstd::prelude::*;

verus! {

/// One method of a method set: its name and its body tree.
#[derive(Debug, PartialEq, Eq)]
pub struct MethodDef {
    pub name: Vec<u8>,
    pub body: Node,
}

/// The mathematical shape of a method.
pub struct MethodDefView {
    pub name: Seq<u8>,
    pub body: NodeView,
}

impl DeepView for MethodDef {
    type V = MethodDefView;

    open spec fn deep_view(&self) -> MethodDefView {
        MethodDefView { name: self.name@, body: node_view(self.body) }
    }
}

/// One method set bound to a target type: the template read in, and likewise
/// each generated variant. The target type name is carried as its spelled
/// text, which for a compound type may contain spaces.
#[derive(Debug, PartialEq, Eq)]
pub struct ImplDef {
    pub self_ty: Vec<u8>,
    pub methods: Vec<MethodDef>,
}

/// The mathematical shape of a method set.
pub struct ImplDefView {
    pub self_ty: Seq<u8>,
    pub methods: Seq<MethodDefView>,
}

impl DeepView for ImplDef {
    type V = ImplDefView;

    open spec fn deep_view(&self) -> ImplDefView {
        ImplDefView { self_ty: self.self_ty@, methods: self.methods.deep_view() }
    }
}

/// One identifier under rewriting: it becomes `new` exactly when it equals
/// `old`.
pub open spec fn rewrite_ident(s: Seq<u8>, old: Seq<u8>, new: Seq<u8>) -> Seq<u8> {
    if s == old {
        new
    } else {
        s
    }
}

/// One method under rewriting: name and body walked uniformly.
pub open spec fn rewrite_method(m: MethodDefView, old: Seq<u8>, new: Seq<u8>) -> MethodDefView {
    MethodDefView { name: rewrite_ident(m.name, old, new), body: rewrite_spec(m.body, old, new) }
}

/// A method list under rewriting, in order.
pub open spec fn rewrite_methods(
    ms: Seq<MethodDefView>,
    old: Seq<u8>,
    new: Seq<u8>,
) -> Seq<MethodDefView>
    decreases ms.len(),
{
    if ms.len() == 0 {
        Seq::empty()
    } else {
        rewrite_methods(ms.drop_last(), old, new).push(rewrite_method(ms.last(), old, new))
    }
}

/// `rewrite_methods` elementwise.
pub proof fn lemma_rewrite_methods_index(ms: Seq<MethodDefView>, old: Seq<u8>, new: Seq<u8>)
    ensures
        rewrite_methods(ms, old, new).len() == ms.len(),
        forall|i: int|
            0 <= i < ms.len() ==> #[trigger] rewrite_methods(ms, old, new)[i] == rewrite_method(
                ms[i],
                old,
                new,
            ),
    decreases ms.len(),
{
    if ms.len() > 0 {
        lemma_rewrite_methods_index(ms.drop_last(), old, new);
    }
}

/// The variant type name for one suffix: the target type name, flattened by
/// removing whitespace, then the suffix appended.
pub open spec fn variant_type_name(self_ty: Seq<u8>, suffix: Seq<u8>) -> Seq<u8> {
    synth_name(strip_spaces(self_ty), suffix)
}

/// What method-family generation produces: one method set per suffix, in
/// directive order, bound to the synthesized variant type, with every
/// identifier equal to the template's target type name rewritten to it.
pub open spec fn impl_family(t: ImplDefView, suffixes: Seq<Seq<u8>>) -> Seq<ImplDefView>
    decreases suffixes.len(),
{
    if suffixes.len() == 0 {
        Seq::empty()
    } else {
        impl_family(t, suffixes.drop_last()).push(
            ImplDefView {
                self_ty: variant_type_name(t.self_ty, suffixes.last()),
                methods: rewrite_methods(
                    t.methods,
                    t.self_ty,
                    variant_type_name(t.self_ty, suffixes.last()),
                ),
            },
        )
    }
}

/// `impl_family` elementwise: the i-th variant comes from the i-th suffix.
pub proof fn lemma_impl_family_index(t: ImplDefView, suffixes: Seq<Seq<u8>>)
    ensures
        impl_family(t, suffixes).len() == suffixes.len(),
        forall|i: int|
            0 <= i < suffixes.len() ==> #[trigger] impl_family(t, suffixes)[i] == (ImplDefView {
                self_ty: variant_type_name(t.self_ty, suffixes[i]),
                methods: rewrite_methods(
                    t.methods,
                    t.self_ty,
                    variant_type_name(t.self_ty, suffixes[i]),
                ),
            }),
    decreases suffixes.len(),
{
    if suffixes.len() > 0 {
        lemma_impl_family_index(t, suffixes.drop_last());
    }
}

/// A copy of one method.
pub fn clone_method(m: &MethodDef) -> (r: MethodDef)
    ensures
        r.deep_view() == m.deep_view(),
{
    MethodDef { name: bytes_clone(&m.name), body: clone_node(&m.body) }
}

/// A copy of one method set.
pub fn clone_impl_def(t: &ImplDef) -> (r: ImplDef)
    ensures
        r.deep_view() == t.deep_view(),
{
    let mut methods: Vec<MethodDef> = Vec::new();
    let mut i: usize = 0;
    while i < t.methods.len()
        invariant
            i <= t.methods.len(),
            methods@.len() == i,
            forall|k: int|
                0 <= k < i ==> methods@[k].deep_view() == #[trigger] t.methods@[k].deep_view(),
        decreases t.methods.len() - i,
    {
        methods.push(clone_method(&t.methods[i]));
        i += 1;
    }
    let r = ImplDef { self_ty: bytes_clone(&t.self_ty), methods };
    proof {
        assert(r.deep_view().methods =~~= t.deep_view().methods);
    }
    r
}

/// One method under the rewriter: name and body walked uniformly, every
/// identifier equal to `old_name` replaced by `new_name`.
pub fn rewrite_method_def(m: &MethodDef, old_name: &Vec<u8>, new_name: &Vec<u8>) -> (r: MethodDef)
    ensures
        r.deep_view() == rewrite_method(m.deep_view(), old_name@, new_name@),
{
    let name = if bytes_eq(&m.name, old_name) {
        bytes_clone(new_name)
    } else {
        bytes_clone(&m.name)
    };
    MethodDef { name, body: rewrite_node(&m.body, old_name, new_name) }
}

/// A method-family expansion: the original method set, followed by the
/// generated variants, in directive order.
pub struct ImplExpansion {
    pub original: ImplDef,
    pub variants: Vec<ImplDef>,
}

/// Expands a method-set template over a suffix-list directive: the original
/// method set passes through unchanged, and one retargeted method set is
/// emitted per kept suffix, in order.
pub fn generate_struct_impl(args: &Vec<LitToken>, template: &ImplDef) -> (r: ImplExpansion)
    ensures
        r.original.deep_view() == template.deep_view(),
        r.variants.deep_view() == impl_family(template.deep_view(), kept_suffixes(args@)),
{
    let suffixes = parse_suffix_args(args);
    let ghost sv = kept_suffixes(args@);
    let flat = remove_spaces(&template.self_ty);
    let mut variants: Vec<ImplDef> = Vec::new();
    let mut i: usize = 0;
    proof {
        assert(variants.deep_view() =~~= impl_family(template.deep_view(), sv.take(0)));
    }
    while i < suffixes.len()
        invariant
            i <= suffixes.len(),
            suffixes.deep_view() == sv,
            flat@ == strip_spaces(template.self_ty@),
            variants.deep_view() == impl_family(template.deep_view(), sv.take(i as int)),
        decreases suffixes.len() - i,
    {
        let new_name = synth_suffix_name(&flat, &suffixes[i]);
        let mut methods: Vec<MethodDef> = Vec::new();
        let mut j: usize = 0;
        while j < template.methods.len()
            invariant
                j <= template.methods.len(),
                new_name@ == variant_type_name(template.self_ty@, suffixes@[i as int]@),
                i < suffixes@.len(),
                methods@.len() == j,
                forall|k: int|
                    0 <= k < j ==> methods@[k].deep_view() == rewrite_method(
                        #[trigger] template.methods@[k].deep_view(),
                        template.self_ty@,
                        new_name@,
                    ),
            decreases template.methods.len() - j,
        {
            methods.push(rewrite_method_def(&template.methods[j], &template.self_ty, &new_name));
            j += 1;
        }
        let variant = ImplDef { self_ty: new_name, methods };
        proof {
            lemma_rewrite_methods_index(
                template.deep_view().methods,
                template.self_ty@,
                variant.self_ty@,
            );
            assert(variant.deep_view().methods =~~= rewrite_methods(
                template.deep_view().methods,
                template.self_ty@,
                variant.self_ty@,
            ));
        }
        variants.push(variant);
        proof {
            assert(sv.take(i + 1 as int).drop_last() =~= sv.take(i as int));
            assert(sv.take(i + 1 as int).last() == suffixes@[i as int]@);
            assert(variants.deep_view() =~~= impl_family(
                template.deep_view(),
                sv.take(i + 1 as int),
            ));
        }
        i += 1;
    }
    proof {
        assert(sv.take(sv.len() as int) =~= sv);
    }
    ImplExpansion { original: clone_impl_def(template), variants }
}

/// Expansion is deterministic: any two results of expanding the same
/// method-set template over the same directive, each as
/// `generate_struct_impl`'s contract states it, are identical.
pub proof fn lemma_impl_expansion_deterministic(
    t: ImplDefView,
    suffixes: Seq<Seq<u8>>,
    r1: Seq<ImplDefView>,
    r2: Seq<ImplDefView>,
)
    requires
        r1 == impl_family(t, suffixes),
        r2 == impl_family(t, suffixes),
    ensures
        r1 == r2,
{
}

} // verus!
