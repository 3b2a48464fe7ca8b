//! The closed set of primitive type names that may annotate a `let` binding.
//!
//! An annotation is an optional hint carried on the declaration node; this
//! crate never checks it against the kind of the bound value (that is left to
//! the consumer of the tree).

use vstd::prelude::*;

verus! {

/// A declared primitive type, as written after a colon in a `let` binding.
#[derive(Debug, Clone, Copy, PartialEq, Eq, Structural)]
pub enum Types {
    I32,
    I64,
    Bool,
    F32,
    F64,
    String,
}

} // verus!
