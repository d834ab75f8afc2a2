//! The simple shim generator.
//!
//! A single callable template, a name and a body, yields one C-callable
//! entry point named `extern_{name}`, taking one unsigned 32-bit parameter
//! and carrying the template's body unchanged; the original callable passes
//! through beside it.

use crate::name::bytes_clone;
use crate::name::c_entry_base;
use crate::name::c_entry_base_bytes;
use crate::name::synth_name;
use crate::name::synth_suffix_name;
use crate::tree::clone_node;
use crate::tree::Node;
use vstd::prelude::*;

verus! {

/// One callable template: its name and its body tree.
#[derive(Debug, PartialEq, Eq)]
pub struct FnTemplate {
    pub name: Vec<u8>,
    pub body: Node,
}

/// A simple-shim expansion: the generated C-callable entry point's name and
/// body, and the original callable passed through unchanged.
pub struct SimpleExpansion {
    pub shim_name: Vec<u8>,
    pub shim_body: Node,
    pub original: FnTemplate,
}

/// Expands one callable into its C-callable shim: the shim is named
/// `extern_{name}`, its body is the template's body unchanged, and the
/// original callable is kept beside it.
pub fn generate_extern_fn_simple(template: &FnTemplate) -> (r: SimpleExpansion)
    ensures
        r.shim_name@ == synth_name(c_entry_base(), template.name@),
        r.shim_body@ == template.body@,
        r.original.name@ == template.name@,
        r.original.body@ == template.body@,
{
    let base = c_entry_base_bytes();
    SimpleExpansion {
        shim_name: synth_suffix_name(&base, &template.name),
        shim_body: clone_node(&template.body),
        original: FnTemplate { name: bytes_clone(&template.name), body: clone_node(&template.body) },
    }
}

} // verus!
