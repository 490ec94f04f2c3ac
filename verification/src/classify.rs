//! The field classifier.
//!
//! Every field falls into exactly one of three shapes, decided per field and
//! independently of all other fields:
//!   1. a field with a well-formed directive whose declared type is the
//!      sequence container applied to one argument is repeated;
//!   2. otherwise, a field whose declared type is the optional container
//!      applied to one argument is optional;
//!   3. otherwise, the field is plain (required, no wrapper).
//!
//! The order is load-bearing: a directive makes a field repeated and thereby
//! exempt from the required-field check, even though its declared type is a
//! container; without the directive taking precedence, nothing else would.

use vstd::prelude::*;
use crate::directive::{
    directive_malformed, directive_outcome, parse_directive, FieldDirective,
};
use crate::schema::{FieldSchema, TypeExpr};

verus! {

/// The name of the optional container: a one-argument wrapper whose value
/// may be absent.
pub open spec fn spec_optional_wrapper() -> Seq<char> {
    "Option"@
}

/// The name of the sequence container: a one-argument wrapper holding any
/// number of values in order.
pub open spec fn spec_repeated_wrapper() -> Seq<char> {
    "Vec"@
}

/// The shape of one field, driving every generated artifact.
pub enum FieldClassification {
    /// Required, no wrapper: the declared type itself.
    Plain { declared: TypeExpr },
    /// An already-optional value of the inner type.
    Optional { inner: String },
    /// A sequence of the inner type, filled one value at a time by a
    /// mutator named `accumulator`.
    Repeated { inner: String, accumulator: String },
}

/// The classification of a field, given the outcome of its directive parse.
pub open spec fn spec_classify(f: FieldSchema, d: Option<FieldDirective>) -> FieldClassification {
    if d is Some && f.declared_type.spec_wrapper_arg(spec_repeated_wrapper()) is Some {
        FieldClassification::Repeated {
            inner: f.declared_type->Wrapper_inner,
            accumulator: d->0.accumulator_name,
        }
    } else if f.declared_type.spec_wrapper_arg(spec_optional_wrapper()) is Some {
        FieldClassification::Optional { inner: f.declared_type->Wrapper_inner }
    } else {
        FieldClassification::Plain { declared: f.declared_type }
    }
}

/// Classifies one field, given its already-parsed directive.
pub fn classify_with(f: &FieldSchema, d: &Option<FieldDirective>) -> (c: FieldClassification)
    ensures
        c == spec_classify(*f, *d),
{
    if d.is_some() {
        if let Some(inner) = f.declared_type.wrapper_arg("Vec") {
            let each = match d {
                Some(fd) => fd.accumulator_name.clone(),
                None => String::new(),
            };
            return FieldClassification::Repeated { inner: inner.clone(), accumulator: each };
        }
    }
    if let Some(inner) = f.declared_type.wrapper_arg("Option") {
        FieldClassification::Optional { inner: inner.clone() }
    } else {
        FieldClassification::Plain { declared: f.declared_type.clone() }
    }
}

/// Classifies one field from its schema alone, re-deriving the directive.
///
/// Total over every field whose attribute entries respect the directive
/// grammar; malformed directives are rejected before classification runs.
pub fn classify(f: &FieldSchema) -> (c: FieldClassification)
    requires
        !directive_malformed(f.raw_attributes@),
    ensures
        exists|d: Option<FieldDirective>|
            #[trigger] directive_outcome(f.raw_attributes@, d) && c == spec_classify(*f, d),
{
    match parse_directive(&f.raw_attributes) {
        Ok(d) => {
            let c = classify_with(f, &d);
            proof {
                assert(directive_outcome(f.raw_attributes@, d) && c == spec_classify(*f, d));
            }
            c
        },
        Err(_) => vstd::pervasive::unreached(),
    }
}

} // verus!
