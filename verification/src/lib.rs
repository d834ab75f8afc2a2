//! Build-time code generator core: template expansion and trampoline
//! generation.
//!
//! Given a small declarative directive (a count, or a list of name suffixes)
//! and a template (a callable, a record, or a method set), the library
//! synthesizes a family of uniquely named artifacts: C-callable entry points
//! wired to a shared dispatch table, record variants with one-time-initialized
//! singleton accessors, and method-set variants retargeted by identifier
//! rewriting. Expansion is a pure function of directive and template; every
//! function here states exactly what it produces.
//!
//! Identifier text is carried as ASCII bytes (`Vec<u8>`); parsing raw source
//! text into directives and templates, and rendering the produced artifacts
//! back out, are left to the host build pipeline.

pub mod bound;
pub mod directive;
pub mod methods;
pub mod name;
pub mod record;
pub mod registry;
pub mod simple;
pub mod singleton;
pub mod trampoline;
pub mod tree;

pub use bound::generate_extern_fn;
pub use methods::generate_struct_impl;
pub use record::generate_struct;
pub use simple::generate_extern_fn_simple;
pub use trampoline::generate_extern_fns;
