//! The per-field directive parser.
//!
//! A field may carry at most one directive addressed to the generator. Its
//! grammar admits exactly one recognized key, `each`, bound to exactly one
//! string-literal value, which names the accumulator method of a repeated
//! field. Any other key, any non-string value, any other argument shape, or
//! more than one directive entry on the same field is malformed.

use vstd::prelude::*;
use crate::schema::{AttrArg, RawAttribute};

verus! {

/// The name of the tool path that directive entries are addressed to.
pub open spec fn spec_tool_name() -> Seq<char> {
    "builder"@
}

/// The one recognized directive key.
pub open spec fn spec_each_key() -> Seq<char> {
    "each"@
}

/// Whether an attribute entry is addressed to the generator.
pub open spec fn is_directive_entry(a: RawAttribute) -> bool {
    a.tool@ == spec_tool_name()
}

/// Whether an attribute entry is a well-formed directive:
/// the recognized key bound to a string-literal value.
pub open spec fn entry_well_formed(a: RawAttribute) -> bool {
    a.arg matches AttrArg::StrAssign { key, .. } && key@ == spec_each_key()
}

/// The accumulator name that a well-formed directive entry carries.
pub open spec fn entry_name(a: RawAttribute) -> Seq<char> {
    match a.arg {
        AttrArg::StrAssign { value, .. } => value@,
        _ => Seq::empty(),
    }
}

/// No attribute entry of the field is addressed to the generator.
pub open spec fn directive_absent(attrs: Seq<RawAttribute>) -> bool {
    forall|i: int| 0 <= i < attrs.len() ==> !is_directive_entry(#[trigger] attrs[i])
}

/// The entry at `i` is the only one addressed to the generator.
pub open spec fn sole_directive_entry(attrs: Seq<RawAttribute>, i: int) -> bool {
    &&& 0 <= i < attrs.len()
    &&& is_directive_entry(attrs[i])
    &&& forall|j: int| 0 <= j < attrs.len() && j != i ==> !is_directive_entry(#[trigger] attrs[j])
}

/// Exactly one directive entry is present, it is well formed, and it binds
/// the accumulator name `name`.
pub open spec fn directive_found(attrs: Seq<RawAttribute>, name: Seq<char>) -> bool {
    exists|i: int|
        #[trigger] sole_directive_entry(attrs, i) && entry_well_formed(attrs[i]) && entry_name(
            attrs[i],
        ) == name
}

/// A directive is present but breaks the grammar: either more than one entry
/// is addressed to the generator, or the single entry is not the recognized
/// key bound to a string-literal value.
pub open spec fn directive_malformed(attrs: Seq<RawAttribute>) -> bool {
    &&& !directive_absent(attrs)
    &&& forall|i: int| #[trigger]
        sole_directive_entry(attrs, i) ==> !entry_well_formed(attrs[i])
}

/// The outcome that the parser reports for a field's attribute entries:
/// either no directive, or the one well-formed directive it carries.
pub open spec fn directive_outcome(attrs: Seq<RawAttribute>, d: Option<FieldDirective>) -> bool {
    match d {
        None => directive_absent(attrs),
        Some(fd) => directive_found(attrs, fd.accumulator_name@),
    }
}

/// A parsed per-field directive: the name under which the field's builder
/// accumulates values one at a time.
pub struct FieldDirective {
    pub accumulator_name: String,
}

impl Clone for FieldDirective {
    fn clone(&self) -> (r: Self)
        ensures
            r == *self,
    {
        FieldDirective { accumulator_name: self.accumulator_name.clone() }
    }
}

/// The diagnostic for a directive that breaks the grammar.
pub struct MalformedDirective;

/// A single directive entry that is not well formed makes the whole
/// attribute set malformed.
proof fn lemma_sole_entry_malformed(attrs: Seq<RawAttribute>, i: int)
    requires
        sole_directive_entry(attrs, i),
        !entry_well_formed(attrs[i]),
    ensures
        directive_malformed(attrs),
{
    assert(is_directive_entry(attrs[i]));
    assert(!directive_absent(attrs));
    assert forall|m: int| #[trigger] sole_directive_entry(attrs, m) implies !entry_well_formed(
        attrs[m],
    ) by {
        if m != i {
            assert(!is_directive_entry(attrs[i]));
        }
    }
}

/// Parses the directive of one field from its raw attribute entries.
///
/// Returns `Ok(None)` if no entry is addressed to the generator,
/// `Ok(Some(..))` if exactly one is and it is well formed, and
/// `Err(MalformedDirective)` otherwise.
pub fn parse_directive(attrs: &Vec<RawAttribute>) -> (r: Result<
    Option<FieldDirective>,
    MalformedDirective,
>)
    ensures
        match r {
            Ok(None) => directive_absent(attrs@),
            Ok(Some(fd)) => directive_found(attrs@, fd.accumulator_name@),
            Err(_) => directive_malformed(attrs@),
        },
{
    let n = attrs.len();
    let mut found: Option<usize> = None;
    let mut k: usize = 0;
    while k < n
        invariant
            n == attrs@.len(),
            k <= n,
            match found {
                None => forall|j: int| 0 <= j < k ==> !is_directive_entry(#[trigger] attrs@[j]),
                Some(i) => {
                    &&& 0 <= i < k
                    &&& is_directive_entry(attrs@[i as int])
                    &&& forall|j: int|
                        0 <= j < k && j != i ==> !is_directive_entry(#[trigger] attrs@[j])
                },
            },
        decreases n - k,
    {
        if crate::text_eq(&attrs[k].tool, "builder") {
            match found {
                None => {
                    found = Some(k);
                },
                Some(i) => {
                    proof {
                        assert(is_directive_entry(attrs@[i as int]));
                        assert(is_directive_entry(attrs@[k as int]));
                        assert(!directive_absent(attrs@));
                        assert forall|m: int| #[trigger]
                            sole_directive_entry(attrs@, m) implies !entry_well_formed(
                            attrs@[m],
                        ) by {
                            if m == i as int {
                                assert(!is_directive_entry(attrs@[k as int]));
                            } else {
                                assert(!is_directive_entry(attrs@[i as int]));
                            }
                        }
                    }
                    return Err(MalformedDirective);
                },
            }
        }
        k += 1;
    }
    match found {
        None => Ok(None),
        Some(i) => {
            proof {
                assert(sole_directive_entry(attrs@, i as int));
            }
            match &attrs[i].arg {
                AttrArg::StrAssign { key, value } => {
                    if crate::text_eq(key, "each") {
                        let name = value.clone();
                        proof {
                            assert(entry_well_formed(attrs@[i as int]));
                            assert(entry_name(attrs@[i as int]) == name@);
                        }
                        Ok(Some(FieldDirective { accumulator_name: name }))
                    } else {
                        proof {
                            lemma_sole_entry_malformed(attrs@, i as int);
                        }
                        Err(MalformedDirective)
                    }
                },
                AttrArg::NonStrAssign { .. } => {
                    proof {
                        lemma_sole_entry_malformed(attrs@, i as int);
                    }
                    Err(MalformedDirective)
                },
                AttrArg::Unstructured => {
                    proof {
                        lemma_sole_entry_malformed(attrs@, i as int);
                    }
                    Err(MalformedDirective)
                },
            }
        },
    }
}

/// A malformed set of entries never also counts as absent or as carrying a
/// well-formed directive: the three parser outcomes exclude one another.
pub proof fn lemma_directive_outcomes_exclusive(attrs: Seq<RawAttribute>)
    ensures
        directive_malformed(attrs) ==> !directive_absent(attrs),
        directive_malformed(attrs) ==> forall|name: Seq<char>| !directive_found(attrs, name),
        directive_absent(attrs) ==> forall|name: Seq<char>| !directive_found(attrs, name),
{
    assert forall|name: Seq<char>| directive_malformed(attrs) implies !directive_found(
        attrs,
        name,
    ) by {
        if directive_found(attrs, name) {
            let i = choose|i: int|
                #[trigger] sole_directive_entry(attrs, i) && entry_well_formed(attrs[i])
                    && entry_name(attrs[i]) == name;
            assert(!entry_well_formed(attrs[i]));
        }
    }
    assert forall|name: Seq<char>| directive_absent(attrs) implies !directive_found(
        attrs,
        name,
    ) by {
        if directive_found(attrs, name) {
            let i = choose|i: int|
                #[trigger] sole_directive_entry(attrs, i) && entry_well_formed(attrs[i])
                    && entry_name(attrs[i]) == name;
            assert(!is_directive_entry(attrs[i]));
        }
    }
}

} // verus!
