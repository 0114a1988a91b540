//! The demand-driven front-end of a compiler for an embeddable scripting language.
//!
//! Declarations are indexed by path in one pass, in any order. A declaration is resolved into a
//! semantic descriptor only when something asks for its path; the descriptor is then recorded in
//! the registry, and an executable item is queued once for code generation. Declarations that
//! nothing asks for are never resolved.
use vstd::prelude::*;

pub mod ast;
pub mod collections;
pub mod docs;
pub mod hash;
pub mod item;
pub mod lemmas;
pub mod meta;
pub mod query;
pub mod source;
pub mod span;
pub mod unit;

verus! {

} // verus!
