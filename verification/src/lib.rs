//! Type-elaboration core of a TypeScript-style type checker.
//!
//! The crate turns surface type syntax (annotations, alias and interface
//! declarations, generic parameter lists, conditional and mapped types)
//! into a canonical, structurally comparable semantic type model, and
//! states the sequencing contract under which per-module type data is
//! assembled across module boundaries, including import cycles.

pub mod ast;
pub mod base;
pub mod decl;
pub mod diag;
pub mod elab;
pub mod laws;
pub mod loader;
pub mod pat_default;
pub mod scope;
pub mod types;

use vstd::prelude::*;

verus! {

} // verus!
