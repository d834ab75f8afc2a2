//! The registry-bound trampoline generator.
//!
//! For each (variant type, suffix) pair of a paired record and method
//! family, one C-callable entry point is emitted, named
//! `extern_{type}_on_msg`, but only where the method set under expansion
//! defines a method literally named `on_msg`. When called, the generated
//! entry synchronously drives one asynchronous `on_msg` invocation on the
//! variant's singleton instance to completion before returning: the host
//! glue builds a fresh single-worker execution context per call and blocks
//! on it, so this path is for callers that may legitimately block. Each
//! emission is paired with a default `on_msg` handler implementation for the
//! variant that merely observes the delivered parameter, a stand-in meant to
//! be overridden by real listener logic.

use crate::directive::kept_suffixes;
use crate::directive::parse_suffix_args;
use crate::directive::LitToken;
use crate::methods::clone_impl_def;
use crate::methods::variant_type_name;
use crate::methods::ImplDef;
use crate::methods::ImplDefView;
use crate::methods::MethodDefView;
use crate::name::bytes_clone;
use crate::name::bytes_eq;
use crate::name::c_entry_base;
use crate::name::c_entry_base_bytes;
use crate::name::remove_spaces;
use crate::name::strip_spaces;
use crate::name::synth_name;
use crate::name::synth_suffix_name;
use vstd::prelude::*;

verus! {

/// The method name that makes a method set eligible: `on_msg`.
pub open spec fn on_msg_name() -> Seq<u8> {
    seq![111, 110, 95, 109, 115, 103]
}

/// The eligible method name as a byte string.
pub fn on_msg_name_bytes() -> (r: Vec<u8>)
    ensures
        r@ == on_msg_name(),
{
    let mut v: Vec<u8> = Vec::new();
    v.push(111);
    v.push(110);
    v.push(95);
    v.push(109);
    v.push(115);
    v.push(103);
    proof {
        assert(v@ =~= on_msg_name());
    }
    v
}

/// The entry-point name for one variant type: `extern_{type}_on_msg`.
pub open spec fn bound_entry_name(ty: Seq<u8>) -> Seq<u8> {
    synth_name(synth_name(c_entry_base(), ty), on_msg_name())
}

/// One registry-bound trampoline: the C-callable entry point's name and the
/// variant type whose singleton instance it drives. Its emission carries the
/// variant's default `on_msg` handler implementation with it.
#[derive(Debug, Clone, PartialEq, Eq)]
pub struct BoundTrampoline {
    pub c_name: Vec<u8>,
    pub target_type: Vec<u8>,
}

/// The mathematical shape of a registry-bound trampoline.
pub struct BoundTrampolineView {
    pub c_name: Seq<u8>,
    pub target_type: Seq<u8>,
}

impl DeepView for BoundTrampoline {
    type V = BoundTrampolineView;

    open spec fn deep_view(&self) -> BoundTrampolineView {
        BoundTrampolineView { c_name: self.c_name@, target_type: self.target_type@ }
    }
}

/// What one variant type gets: one trampoline per method of the template
/// literally named `on_msg`, in method order; none when no method is.
pub open spec fn bound_for_type(methods: Seq<MethodDefView>, ty: Seq<u8>) -> Seq<
    BoundTrampolineView,
>
    decreases methods.len(),
{
    if methods.len() == 0 {
        Seq::empty()
    } else {
        bound_for_type(methods.drop_last(), ty) + (if methods.last().name == on_msg_name() {
            seq![BoundTrampolineView { c_name: bound_entry_name(ty), target_type: ty }]
        } else {
            Seq::empty()
        })
    }
}

/// What registry-bound generation produces: the trampolines of every suffix's
/// variant type, in directive order.
pub open spec fn bound_family(t: ImplDefView, suffixes: Seq<Seq<u8>>) -> Seq<BoundTrampolineView>
    decreases suffixes.len(),
{
    if suffixes.len() == 0 {
        Seq::empty()
    } else {
        bound_family(t, suffixes.drop_last()) + bound_for_type(
            t.methods,
            variant_type_name(t.self_ty, suffixes.last()),
        )
    }
}

/// A registry-bound expansion: the original method set, followed by the
/// emitted trampolines.
pub struct BoundExpansion {
    pub original: ImplDef,
    pub trampolines: Vec<BoundTrampoline>,
}

/// Expands a method-set template over a suffix-list directive into
/// registry-bound trampolines: the original method set passes through
/// unchanged, and for each kept suffix, each method literally named `on_msg`
/// yields one `extern_{type}_on_msg` entry for the suffix's variant type.
pub fn generate_extern_fn(args: &Vec<LitToken>, template: &ImplDef) -> (r: BoundExpansion)
    ensures
        r.original.deep_view() == template.deep_view(),
        r.trampolines.deep_view() == bound_family(template.deep_view(), kept_suffixes(args@)),
{
    let suffixes = parse_suffix_args(args);
    let ghost sv = kept_suffixes(args@);
    let flat = remove_spaces(&template.self_ty);
    let base = c_entry_base_bytes();
    let target_method = on_msg_name_bytes();
    let mut out: Vec<BoundTrampoline> = Vec::new();
    let mut i: usize = 0;
    proof {
        assert(out.deep_view() =~~= bound_family(template.deep_view(), sv.take(0)));
    }
    while i < suffixes.len()
        invariant
            i <= suffixes.len(),
            suffixes.deep_view() == sv,
            flat@ == strip_spaces(template.self_ty@),
            base@ == c_entry_base(),
            target_method@ == on_msg_name(),
            out.deep_view() == bound_family(template.deep_view(), sv.take(i as int)),
        decreases suffixes.len() - i,
    {
        let struct_name = synth_suffix_name(&flat, &suffixes[i]);
        let with_type = synth_suffix_name(&base, &struct_name);
        let entry_name = synth_suffix_name(&with_type, &target_method);
        let ghost ty = struct_name@;
        let ghost ms = template.deep_view().methods;
        proof {
            assert(sv[i as int] == suffixes@[i as int]@);
            assert(ty == variant_type_name(template.self_ty@, sv[i as int]));
            assert(out.deep_view() =~~= bound_family(template.deep_view(), sv.take(i as int))
                + bound_for_type(ms.take(0), ty));
        }
        let mut j: usize = 0;
        while j < template.methods.len()
            invariant
                j <= template.methods.len(),
                i < suffixes@.len(),
                ms == template.deep_view().methods,
                struct_name@ == ty,
                entry_name@ == bound_entry_name(ty),
                target_method@ == on_msg_name(),
                out.deep_view() == bound_family(template.deep_view(), sv.take(i as int))
                    + bound_for_type(template.deep_view().methods.take(j as int), ty),
            decreases template.methods.len() - j,
        {
            proof {
                assert(ms.take(j + 1 as int).drop_last() =~= ms.take(j as int));
                assert(ms.take(j + 1 as int).last() == ms[j as int]);
                assert(ms[j as int] == template.methods@[j as int].deep_view());
            }
            if bytes_eq(&template.methods[j].name, &target_method) {
                let ghost pre = out.deep_view();
                out.push(
                    BoundTrampoline {
                        c_name: bytes_clone(&entry_name),
                        target_type: bytes_clone(&struct_name),
                    },
                );
                proof {
                    assert(ms.take(j + 1 as int).last().name == on_msg_name());
                    assert(bound_for_type(ms.take(j + 1 as int), ty) =~~= bound_for_type(
                        ms.take(j as int),
                        ty,
                    ) + seq![
                        (BoundTrampolineView { c_name: bound_entry_name(ty), target_type: ty }),
                    ]);
                    assert(out.deep_view() =~~= pre.push(
                        (BoundTrampolineView { c_name: bound_entry_name(ty), target_type: ty }),
                    ));
                    assert(out.deep_view() =~~= bound_family(template.deep_view(), sv.take(i as int))
                        + bound_for_type(ms.take(j + 1 as int), ty));
                }
            } else {
                proof {
                    assert(out.deep_view() =~~= bound_family(template.deep_view(), sv.take(i as int))
                        + bound_for_type(ms.take(j + 1 as int), ty));
                }
            }
            j += 1;
        }
        proof {
            let ms = template.deep_view().methods;
            assert(ms.take(ms.len() as int) =~= ms);
            assert(sv.take(i + 1 as int).drop_last() =~= sv.take(i as int));
            assert(sv.take(i + 1 as int).last() == sv[i as int]);
            assert(out.deep_view() =~~= bound_family(template.deep_view(), sv.take(i + 1 as int)));
        }
        i += 1;
    }
    proof {
        assert(sv.take(sv.len() as int) =~= sv);
    }
    BoundExpansion { original: clone_impl_def(template), trampolines: out }
}

/// Expansion is deterministic: any two results of registry-bound generation
/// for the same method-set template and directive, each as
/// `generate_extern_fn`'s contract states it, are identical.
pub proof fn lemma_bound_expansion_deterministic(
    t: ImplDefView,
    suffixes: Seq<Seq<u8>>,
    r1: Seq<BoundTrampolineView>,
    r2: Seq<BoundTrampolineView>,
)
    requires
        r1 == bound_family(t, suffixes),
        r2 == bound_family(t, suffixes),
    ensures
        r1 == r2,
{
}

} // verus!
