//! The record-family generator.
//!
//! A record template is cloned once per suffix: each clone is a new type
//! definition with a synthesized name, the template's visibility and the
//! template's field layout, unchanged. Each emitted variant also carries a
//! singleton accessor that builds one default-initialized instance on first
//! use; the run-time behavior of that accessor is the one-time
//! initialization model in [`crate::singleton`].

use crate::directive::kept_suffixes;
use crate::directive::parse_suffix_args;
use crate::directive::LitToken;
use crate::name::bytes_clone;
use crate::name::synth_name;
use crate::name::synth_suffix_name;
use vstd::prelude::*;

verus! {

/// A record definition: the template read in, and likewise each generated
/// variant. Fields are named, positional (counted), or absent.
#[derive(Debug, Clone, PartialEq, Eq)]
pub enum FieldLayout {
    Named(Vec<Vec<u8>>),
    Positional(usize),
    Unit,
}

/// The mathematical shape of a field layout.
pub enum LayoutView {
    Named(Seq<Seq<u8>>),
    Positional(nat),
    Unit,
}

impl DeepView for FieldLayout {
    type V = LayoutView;

    open spec fn deep_view(&self) -> LayoutView {
        match self {
            FieldLayout::Named(names) => LayoutView::Named(names.deep_view()),
            FieldLayout::Positional(count) => LayoutView::Positional(*count as nat),
            FieldLayout::Unit => LayoutView::Unit,
        }
    }
}

/// One record definition: its name, its visibility marker, its fields.
#[derive(Debug, Clone, PartialEq, Eq)]
pub struct RecordDef {
    pub name: Vec<u8>,
    pub is_public: bool,
    pub layout: FieldLayout,
}

/// The mathematical shape of a record definition.
pub struct RecordDefView {
    pub name: Seq<u8>,
    pub is_public: bool,
    pub layout: LayoutView,
}

impl DeepView for RecordDef {
    type V = RecordDefView;

    open spec fn deep_view(&self) -> RecordDefView {
        RecordDefView {
            name: self.name@,
            is_public: self.is_public,
            layout: self.layout.deep_view(),
        }
    }
}

/// What record-family generation produces: one definition per suffix, in
/// directive order, named `{template}_{suffix}`, visibility and field layout
/// taken from the template unchanged.
pub open spec fn record_family(def: RecordDefView, suffixes: Seq<Seq<u8>>) -> Seq<RecordDefView>
    decreases suffixes.len(),
{
    if suffixes.len() == 0 {
        Seq::empty()
    } else {
        record_family(def, suffixes.drop_last()).push(
            RecordDefView {
                name: synth_name(def.name, suffixes.last()),
                is_public: def.is_public,
                layout: def.layout,
            },
        )
    }
}

/// `record_family` elementwise: the i-th variant comes from the i-th suffix.
pub proof fn lemma_record_family_index(def: RecordDefView, suffixes: Seq<Seq<u8>>)
    ensures
        record_family(def, suffixes).len() == suffixes.len(),
        forall|i: int|
            0 <= i < suffixes.len() ==> #[trigger] record_family(def, suffixes)[i]
                == (RecordDefView {
                name: synth_name(def.name, suffixes[i]),
                is_public: def.is_public,
                layout: def.layout,
            }),
    decreases suffixes.len(),
{
    if suffixes.len() > 0 {
        lemma_record_family_index(def, suffixes.drop_last());
    }
}

/// A copy of a list of field names.
fn clone_names(names: &Vec<Vec<u8>>) -> (r: Vec<Vec<u8>>)
    ensures
        r.deep_view() == names.deep_view(),
{
    let mut out: Vec<Vec<u8>> = Vec::new();
    let mut i: usize = 0;
    while i < names.len()
        invariant
            i <= names.len(),
            out@.len() == i,
            forall|k: int| 0 <= k < i ==> out@[k]@ == #[trigger] names@[k]@,
        decreases names.len() - i,
    {
        out.push(bytes_clone(&names[i]));
        i += 1;
    }
    proof {
        assert(out.deep_view() =~~= names.deep_view());
    }
    out
}

/// A copy of a field layout.
pub fn clone_layout(layout: &FieldLayout) -> (r: FieldLayout)
    ensures
        r.deep_view() == layout.deep_view(),
{
    match layout {
        FieldLayout::Named(names) => FieldLayout::Named(clone_names(names)),
        FieldLayout::Positional(count) => FieldLayout::Positional(*count),
        FieldLayout::Unit => FieldLayout::Unit,
    }
}

/// A copy of a record definition.
pub fn clone_record_def(def: &RecordDef) -> (r: RecordDef)
    ensures
        r.deep_view() == def.deep_view(),
{
    RecordDef {
        name: bytes_clone(&def.name),
        is_public: def.is_public,
        layout: clone_layout(&def.layout),
    }
}

/// A record-family expansion: the original template definition, followed by
/// the generated variants, in directive order.
pub struct RecordExpansion {
    pub original: RecordDef,
    pub variants: Vec<RecordDef>,
}

/// Expands a record template over a suffix-list directive: the original
/// definition passes through unchanged, and one variant is emitted per kept
/// suffix, in order, with the synthesized name and the template's visibility
/// and field layout. Duplicate suffixes are passed through, not deduplicated;
/// the resulting redefinition conflict is the host compiler's to report.
pub fn generate_struct(args: &Vec<LitToken>, template: &RecordDef) -> (r: RecordExpansion)
    ensures
        r.original.deep_view() == template.deep_view(),
        r.variants.deep_view() == record_family(template.deep_view(), kept_suffixes(args@)),
{
    let suffixes = parse_suffix_args(args);
    let ghost sv = kept_suffixes(args@);
    let mut variants: Vec<RecordDef> = Vec::new();
    let mut i: usize = 0;
    proof {
        assert(variants.deep_view() =~~= record_family(template.deep_view(), sv.take(0)));
    }
    while i < suffixes.len()
        invariant
            i <= suffixes.len(),
            suffixes.deep_view() == sv,
            variants.deep_view() == record_family(template.deep_view(), sv.take(i as int)),
        decreases suffixes.len() - i,
    {
        let name = synth_suffix_name(&template.name, &suffixes[i]);
        let variant = RecordDef {
            name,
            is_public: template.is_public,
            layout: clone_layout(&template.layout),
        };
        variants.push(variant);
        proof {
            assert(sv.take(i + 1 as int).drop_last() =~= sv.take(i as int));
            assert(sv.take(i + 1 as int).last() == suffixes@[i as int]@);
            assert(variants.deep_view() =~~= record_family(
                template.deep_view(),
                sv.take(i + 1 as int),
            ));
        }
        i += 1;
    }
    proof {
        assert(sv.take(sv.len() as int) =~= sv);
    }
    RecordExpansion { original: clone_record_def(template), variants }
}

/// Within one expansion, variants made from distinct suffixes have distinct
/// names; duplicate suffixes give the same name, surfaced downstream as a
/// redefinition conflict.
pub proof fn lemma_record_family_distinct(
    def: RecordDefView,
    suffixes: Seq<Seq<u8>>,
    i: int,
    j: int,
)
    requires
        0 <= i < suffixes.len(),
        0 <= j < suffixes.len(),
    ensures
        record_family(def, suffixes)[i].name == record_family(def, suffixes)[j].name
            <==> suffixes[i] == suffixes[j],
{
    lemma_record_family_index(def, suffixes);
    crate::name::lemma_synth_name_injective(def.name, suffixes[i], suffixes[j]);
}

/// Expansion is deterministic: any two results of expanding the same record
/// template over the same directive, each as `generate_struct`'s contract
/// states it, are identical.
pub proof fn lemma_record_expansion_deterministic(
    def: RecordDefView,
    suffixes: Seq<Seq<u8>>,
    r1: Seq<RecordDefView>,
    r2: Seq<RecordDefView>,
)
    requires
        r1 == record_family(def, suffixes),
        r2 == record_family(def, suffixes),
    ensures
        r1 == r2,
{
}

} // verus!
