//! Generation of staged "builder" companions for flat named-field records.
//!
//! Given the schema of a record — its name and an ordered list of fields,
//! each with a name, a declared type shape, and raw attribute entries — the
//! crate classifies every field as plain, optional, or repeated, parses the
//! optional per-field accumulator directive, and emits a plan describing the
//! builder companion: its field layout, its zero-value initializer, one
//! mutator method per field, and a fallible assembly method. The runtime
//! behavior of the planned builder is modeled and verified as well.

pub mod classify;
pub mod directive;
pub mod emit;
pub mod laws;
pub mod schema;
pub mod state;

use vstd::prelude::*;
use vstd::string::StringExecFns;

verus! {

/// Compares the contents of an owned text value with a borrowed one.
pub fn text_eq(a: &String, b: &str) -> (r: bool)
    ensures
        r == (a@ == b@),
{
    let other = String::from_str(b);
    *a == other
}

} // verus!
