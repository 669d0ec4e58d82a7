//! Derive-style bridge generator between native record types and the table
//! values of an embedded scripting VM.
//!
//! The crate has two halves:
//! - the macro core: a declaration parser ([`decl`], [`parse`]) and two code
//!   emitters ([`emit`]) that turn a record declaration into the source text
//!   of a conversion implementation, or into a compile-time diagnostic;
//! - a runtime model ([`script`], [`bridge`]) of the code the emitters
//!   produce, against which the behavioral contract of the generated
//!   implementations (shape check, field order, first-failure propagation,
//!   round-tripping) is stated and proved.

use vstd::prelude::*;

pub mod bridge;
pub mod decl;
pub mod emit;
pub mod parse;
pub mod script;

verus! {

/// The fixed text of the shape-mismatch message that a generated reader
/// reports when its input is not a table.
pub open spec fn not_a_table_msg() -> Seq<char> {
    "Lua value must be a table!"@
}

} // verus!
