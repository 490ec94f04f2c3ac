//! The emitter.
//!
//! From the classified field list it produces a plan for the builder
//! companion: the builder's field layout, its zero-value initializer, one
//! mutator method per field, and the steps of the fallible assembly method.
//! Every part of the plan keeps the record's declaration order.

use vstd::prelude::*;
use vstd::string::StringExecFns;
use crate::classify::{classify, spec_classify, FieldClassification};
use crate::directive::{
    directive_malformed, directive_outcome, parse_directive, FieldDirective,
};
use crate::schema::{FieldSchema, RecordBody, RecordDef};

verus! {

/// How the builder stores one field.
pub enum SlotKind {
    /// Behind an optional wrapper around the declared type: a plain field,
    /// absent until its mutator runs.
    WrapOption,
    /// As the declared type itself: the field is already an optional or a
    /// sequence container.
    Keep,
}

/// The starting value of one builder field.
pub enum SlotInit {
    /// The absent optional value.
    Absent,
    /// The empty sequence.
    Empty,
}

/// What the mutator method of one field does.
pub enum MutatorKind {
    /// Overwrites the slot with the present optional of its argument;
    /// the last write wins.
    Overwrite,
    /// Appends its argument to the slot's sequence.
    Append,
}

/// The mutator method of one field: its name, the source text of its one
/// parameter's type, and its behavior.
pub struct MethodPlan {
    pub name: String,
    pub param: String,
    pub kind: MutatorKind,
}

/// What the assembly method does for one field.
pub enum AssembleStep {
    /// The slot must hold a value; an absent slot fails the assembly,
    /// naming this field.
    Require,
    /// The slot's value is used as it stands; absent or empty is a valid
    /// final value.
    UseAsIs,
}

/// Everything the builder companion generates for one field.
pub struct FieldPlan {
    /// The record field's name.
    pub field: String,
    /// The source text of the record field's declared type.
    pub declared: String,
    pub slot: SlotKind,
    pub init: SlotInit,
    pub mutator: MethodPlan,
    pub assemble: AssembleStep,
}

/// The full plan of one builder companion, in declaration order.
pub struct BuilderPlan {
    /// The record type's name.
    pub record: String,
    /// The builder type's name: the record's name followed by `Builder`.
    pub builder: String,
    pub fields: Vec<FieldPlan>,
}

/// A generation-time failure. Both are fatal to the whole pass: no partial
/// plan is ever produced.
#[derive(Debug, PartialEq, Eq)]
pub enum GenerateError {
    /// The input is not a flat named-field record.
    UnsupportedShape,
    /// The named field's attribute entries break the directive grammar.
    MalformedDirective { field: String },
}

/// The parts of a field plan that follow from one classification.
pub open spec fn plan_matches_classification(c: FieldClassification, fp: FieldPlan) -> bool {
    match c {
        FieldClassification::Plain { declared } => {
            &&& fp.slot is WrapOption
            &&& fp.init is Absent
            &&& fp.mutator.name@ == fp.field@
            &&& fp.mutator.param@ == declared.spec_text()
            &&& fp.mutator.kind is Overwrite
            &&& fp.assemble is Require
        },
        FieldClassification::Optional { inner } => {
            &&& fp.slot is Keep
            &&& fp.init is Absent
            &&& fp.mutator.name@ == fp.field@
            &&& fp.mutator.param@ == inner@
            &&& fp.mutator.kind is Overwrite
            &&& fp.assemble is UseAsIs
        },
        FieldClassification::Repeated { inner, accumulator } => {
            &&& fp.slot is Keep
            &&& fp.init is Empty
            &&& fp.mutator.name@ == accumulator@
            &&& fp.mutator.param@ == inner@
            &&& fp.mutator.kind is Append
            &&& fp.assemble is UseAsIs
        },
    }
}

/// The plan emitted for one field: named after it, typed after it, and
/// shaped by its classification under some directive outcome.
pub open spec fn field_plan_matches(f: FieldSchema, fp: FieldPlan) -> bool {
    &&& fp.field@ == f.name@
    &&& fp.declared@ == f.declared_type.spec_text()
    &&& exists|d: Option<FieldDirective>|
        #[trigger] directive_outcome(f.raw_attributes@, d) && plan_matches_classification(
            spec_classify(f, d),
            fp,
        )
}

/// `field` names the first field, in declaration order, whose attribute
/// entries break the directive grammar.
pub open spec fn first_malformed_field(fields: Seq<FieldSchema>, field: Seq<char>) -> bool {
    exists|i: int|
        {
            &&& 0 <= i < fields.len()
            &&& directive_malformed((#[trigger] fields[i]).raw_attributes@)
            &&& forall|j: int|
                0 <= j < i ==> !directive_malformed((#[trigger] fields[j]).raw_attributes@)
            &&& field == fields[i].name@
        }
}

/// The whole contract of a successful generation pass over a named-field
/// record: no field breaks the directive grammar, and the plan carries the
/// record's name, the derived builder name, and one matching field plan per
/// field, in declaration order.
pub open spec fn generated(fields: Seq<FieldSchema>, name: Seq<char>, plan: BuilderPlan) -> bool {
    &&& forall|i: int| 0 <= i < fields.len() ==> !directive_malformed(
        (#[trigger] fields[i]).raw_attributes@,
    )
    &&& plan.record@ == name
    &&& plan.builder@ == name + "Builder"@
    &&& plan.fields@.len() == fields.len()
    &&& forall|i: int| 0 <= i < fields.len() ==> field_plan_matches(
        fields[i],
        #[trigger] plan.fields@[i],
    )
}

/// Emits the plan of one field from its classification.
fn plan_field(f: &FieldSchema, c: &FieldClassification) -> (fp: FieldPlan)
    ensures
        fp.field@ == f.name@,
        fp.declared@ == f.declared_type.spec_text(),
        plan_matches_classification(*c, fp),
{
    let declared = f.declared_type.text();
    match c {
        FieldClassification::Plain { declared: ty } => FieldPlan {
            field: f.name.clone(),
            declared,
            slot: SlotKind::WrapOption,
            init: SlotInit::Absent,
            mutator: MethodPlan { name: f.name.clone(), param: ty.text(), kind: MutatorKind::Overwrite },
            assemble: AssembleStep::Require,
        },
        FieldClassification::Optional { inner } => FieldPlan {
            field: f.name.clone(),
            declared,
            slot: SlotKind::Keep,
            init: SlotInit::Absent,
            mutator: MethodPlan {
                name: f.name.clone(),
                param: inner.clone(),
                kind: MutatorKind::Overwrite,
            },
            assemble: AssembleStep::UseAsIs,
        },
        FieldClassification::Repeated { inner, accumulator } => FieldPlan {
            field: f.name.clone(),
            declared,
            slot: SlotKind::Keep,
            init: SlotInit::Empty,
            mutator: MethodPlan {
                name: accumulator.clone(),
                param: inner.clone(),
                kind: MutatorKind::Append,
            },
            assemble: AssembleStep::UseAsIs,
        },
    }
}

/// Runs one whole generation pass.
///
/// Rejects anything but a flat named-field record; validates every field's
/// directive before any emission, reporting the first field in declaration
/// order whose entries break the grammar; then classifies each field and
/// emits the plan, in declaration order.
#[verifier::loop_isolation(false)]
pub fn generate(def: &RecordDef) -> (r: Result<BuilderPlan, GenerateError>)
    ensures
        match r {
            Ok(plan) => def.body matches RecordBody::Named { fields } && generated(
                fields@,
                def.name@,
                plan,
            ),
            Err(GenerateError::UnsupportedShape) => !(def.body is Named),
            Err(GenerateError::MalformedDirective { field }) => {
                &&& def.body matches RecordBody::Named { fields }
                &&& first_malformed_field(fields@, field@)
            },
        },
{
    let fields = match crate::schema::extract(def) {
        Ok(fields) => fields,
        Err(_) => {
            return Err(GenerateError::UnsupportedShape);
        },
    };
    let n = fields.len();

    // Whole-unit validation: every field's directive grammar is checked
    // before any plan is emitted, so one bad field blocks the whole record.
    let mut k: usize = 0;
    while k < n
        invariant
            n == fields@.len(),
            k <= n,
            forall|j: int| 0 <= j < k ==> !directive_malformed(
                (#[trigger] fields@[j]).raw_attributes@,
            ),
        decreases n - k,
    {
        let parsed = parse_directive(&fields[k].raw_attributes);
        if parsed.is_err() {
            let field = fields[k].name.clone();
            proof {
                assert(first_malformed_field(fields@, field@)) by {
                    assert(directive_malformed(fields@[k as int].raw_attributes@));
                    assert(field@ == fields@[k as int].name@);
                }
            }
            return Err(GenerateError::MalformedDirective { field });
        }
        proof {
            crate::directive::lemma_directive_outcomes_exclusive(
                fields@[k as int].raw_attributes@,
            );
        }
        k += 1;
    }

    let mut plan_fields: Vec<FieldPlan> = Vec::new();
    let mut k: usize = 0;
    while k < n
        invariant
            n == fields@.len(),
            k <= n,
            forall|j: int| 0 <= j < n ==> !directive_malformed(
                (#[trigger] fields@[j]).raw_attributes@,
            ),
            plan_fields@.len() == k,
            forall|j: int| 0 <= j < k ==> field_plan_matches(
                fields@[j],
                #[trigger] plan_fields@[j],
            ),
        decreases n - k,
    {
        let c = classify(&fields[k]);
        let fp = plan_field(&fields[k], &c);
        plan_fields.push(fp);
        k += 1;
    }

    let mut builder = def.name.clone();
    builder.append("Builder");
    Ok(BuilderPlan { record: def.name.clone(), builder, fields: plan_fields })
}

} // verus!
