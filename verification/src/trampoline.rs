//! The bulk trampoline generator and its dispatch table.
//!
//! A count directive N produces N uniquely named C-callable entry points,
//! `extern_on_msg_wrapper_{i}` for each index i below N, each paired with a
//! helper `on_msg_wrapper_{i}` that performs the asynchronous handler
//! invocation. The companion dispatch lookup maps an index back to its
//! generated trampoline for exactly the indices below N; any other index is
//! a programming error, never answered with a default entry.

use crate::directive::directive_count;
use crate::directive::is_count_directive;
use crate::directive::parse_count;
use crate::directive::LitToken;
use crate::directive::ParseError;
use crate::name::c_entry_base;
use crate::name::c_entry_base_bytes;
use crate::name::indexed_name;
use crate::name::lemma_indexed_name_injective;
use crate::name::synth_indexed_name;
use crate::name::synth_name;
use crate::name::synth_suffix_name;
use vstd::prelude::*;

verus! {

/// The prefix count-driven helper names are synthesized from:
/// `on_msg_wrapper`.
pub open spec fn wrapper_prefix() -> Seq<u8> {
    seq![111, 110, 95, 109, 115, 103, 95, 119, 114, 97, 112, 112, 101, 114]
}

/// The wrapper prefix as a byte string.
pub fn wrapper_prefix_bytes() -> (r: Vec<u8>)
    ensures
        r@ == wrapper_prefix(),
{
    let mut v: Vec<u8> = Vec::new();
    v.push(111);
    v.push(110);
    v.push(95);
    v.push(109);
    v.push(115);
    v.push(103);
    v.push(95);
    v.push(119);
    v.push(114);
    v.push(97);
    v.push(112);
    v.push(112);
    v.push(101);
    v.push(114);
    proof {
        assert(v@ =~= wrapper_prefix());
    }
    v
}

/// One generated trampoline: the C-callable entry point's name, the name of
/// the asynchronous helper it forwards to, and the registry index it is
/// wired to.
#[derive(Debug, Clone, PartialEq, Eq)]
pub struct Trampoline {
    pub c_name: Vec<u8>,
    pub helper_name: Vec<u8>,
    pub index: usize,
}

/// The mathematical shape of a trampoline.
pub struct TrampolineView {
    pub c_name: Seq<u8>,
    pub helper_name: Seq<u8>,
    pub index: nat,
}

impl DeepView for Trampoline {
    type V = TrampolineView;

    open spec fn deep_view(&self) -> TrampolineView {
        TrampolineView {
            c_name: self.c_name@,
            helper_name: self.helper_name@,
            index: self.index as nat,
        }
    }
}

/// The trampoline generated for index `i`: helper `on_msg_wrapper_{i}`,
/// C entry `extern_on_msg_wrapper_{i}`.
pub open spec fn trampoline_at(i: nat) -> TrampolineView {
    TrampolineView {
        c_name: synth_name(c_entry_base(), indexed_name(wrapper_prefix(), i)),
        helper_name: indexed_name(wrapper_prefix(), i),
        index: i,
    }
}

/// What bulk generation produces for a count: one trampoline per index below
/// the count, in index order.
pub open spec fn trampoline_family(count: nat) -> Seq<TrampolineView>
    decreases count,
{
    if count == 0 {
        Seq::empty()
    } else {
        trampoline_family((count - 1) as nat).push(trampoline_at((count - 1) as nat))
    }
}

/// `trampoline_family` elementwise: the i-th trampoline is wired to index i.
pub proof fn lemma_trampoline_family_index(count: nat)
    ensures
        trampoline_family(count).len() == count,
        forall|i: int|
            0 <= i < count ==> #[trigger] trampoline_family(count)[i] == trampoline_at(i as nat),
    decreases count,
{
    if count > 0 {
        lemma_trampoline_family_index((count - 1) as nat);
    }
}

/// Bulk generation for a known count: exactly `count` trampolines, one per
/// index in order.
pub fn expand_extern_fns(count: usize) -> (r: Vec<Trampoline>)
    ensures
        r.deep_view() == trampoline_family(count as nat),
{
    let base = c_entry_base_bytes();
    let prefix = wrapper_prefix_bytes();
    let mut out: Vec<Trampoline> = Vec::new();
    let mut i: usize = 0;
    proof {
        assert(out.deep_view() =~~= trampoline_family(0));
    }
    while i < count
        invariant
            i <= count,
            base@ == c_entry_base(),
            prefix@ == wrapper_prefix(),
            out.deep_view() == trampoline_family(i as nat),
        decreases count - i,
    {
        let helper_name = synth_indexed_name(&prefix, i);
        let c_name = synth_suffix_name(&base, &helper_name);
        out.push(Trampoline { c_name, helper_name, index: i });
        proof {
            assert(out.deep_view() =~~= trampoline_family((i + 1) as nat));
        }
        i += 1;
    }
    out
}

/// Expands a count directive into its trampoline family. A missing or
/// malformed count is a hard parse error: generation is abandoned for the
/// directive and nothing is produced.
pub fn generate_extern_fns(args: &Vec<LitToken>) -> (r: Result<Vec<Trampoline>, ParseError>)
    ensures
        match r {
            Ok(fns) => is_count_directive(args@) && fns.deep_view() == trampoline_family(
                directive_count(args@) as nat,
            ),
            Err(ParseError::MissingLiteral) => args@.len() == 0,
            Err(ParseError::MalformedCount) => args@.len() != 0 && !is_count_directive(args@),
        },
{
    match parse_count(args) {
        Ok(count) => Ok(expand_extern_fns(count)),
        Err(e) => Err(e),
    }
}

/// Maps an index back to its generated trampoline. The index space is fixed
/// at generation time: asking for an index that was never generated is a
/// programming error, fatal in the generated code, and is ruled out here
/// rather than answered with a default entry; `try_get_extern_fn` is the
/// checked face of the same table.
pub fn get_extern_fn(fns: &Vec<Trampoline>, index: usize) -> (r: &Trampoline)
    requires
        index < fns@.len(),
    ensures
        *r == fns@[index as int],
{
    &fns[index]
}

/// The dispatch table covers exactly the generated indices: a trampoline for
/// every index below the family's size, and nothing for any other index. For
/// an empty family this fails on every input.
pub fn try_get_extern_fn(fns: &Vec<Trampoline>, index: usize) -> (r: Option<&Trampoline>)
    ensures
        match r {
            Some(t) => index < fns@.len() && *t == fns@[index as int],
            None => index >= fns@.len(),
        },
{
    if index < fns.len() {
        Some(get_extern_fn(fns, index))
    } else {
        None
    }
}

/// Bulk generation for a count N yields exactly N trampolines with pairwise
/// distinct C-entry names and pairwise distinct helper names.
pub proof fn lemma_trampoline_names_distinct(count: nat, i: int, j: int)
    requires
        0 <= i < count,
        0 <= j < count,
        i != j,
    ensures
        trampoline_family(count).len() == count,
        trampoline_family(count)[i].c_name != trampoline_family(count)[j].c_name,
        trampoline_family(count)[i].helper_name != trampoline_family(count)[j].helper_name,
{
    lemma_trampoline_family_index(count);
    lemma_indexed_name_injective(wrapper_prefix(), i as nat, j as nat);
    crate::name::lemma_synth_name_injective(
        c_entry_base(),
        indexed_name(wrapper_prefix(), i as nat),
        indexed_name(wrapper_prefix(), j as nat),
    );
}

/// Bulk generation is deterministic: any two results for the same count,
/// each as `expand_extern_fns`'s contract states it, are identical.
pub proof fn lemma_trampoline_family_deterministic(
    count: nat,
    r1: Seq<TrampolineView>,
    r2: Seq<TrampolineView>,
)
    requires
        r1 == trampoline_family(count),
        r2 == trampoline_family(count),
    ensures
        r1 == r2,
{
}

} // verus!
