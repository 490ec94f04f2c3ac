//! The laws of the generated builder, stated and proved over the plan and
//! the modeled runtime behavior.

use vstd::prelude::*;
use crate::classify::{spec_classify, FieldClassification};
use crate::directive::{
    directive_absent, directive_outcome, lemma_directive_outcomes_exclusive, FieldDirective,
};
use crate::emit::{
    field_plan_matches, generated, plan_matches_classification, BuilderPlan, FieldPlan,
};
use crate::schema::{FieldSchema, RecordDef};
use crate::state::{
    assemble_post, field_plan_wf, field_value_matches, first_missing, fresh_state, last_set_view,
    many_views, missing_at, plan_wf, pushed_views, slot_after, AssembleError, BuilderState,
    FieldValue, MutatorCall, RecordValue, SlotContent,
};

verus! {

/// A field plan shaped by any classification is internally consistent.
proof fn lemma_classification_wf(c: FieldClassification, fp: FieldPlan)
    requires
        plan_matches_classification(c, fp),
    ensures
        field_plan_wf(fp),
{
    match c {
        FieldClassification::Plain { .. } => {},
        FieldClassification::Optional { .. } => {},
        FieldClassification::Repeated { .. } => {},
    }
}

/// Every plan that a generation pass emits is internally consistent.
pub proof fn lemma_generated_plan_wf(fields: Seq<FieldSchema>, name: Seq<char>, plan: BuilderPlan)
    requires
        generated(fields, name, plan),
    ensures
        plan_wf(plan),
{
    assert forall|i: int| 0 <= i < plan.fields@.len() implies field_plan_wf(
        #[trigger] plan.fields@[i],
    ) by {
        assert(field_plan_matches(fields[i], plan.fields@[i]));
        let d = choose|d: Option<FieldDirective>|
            #[trigger] directive_outcome(fields[i].raw_attributes@, d)
                && plan_matches_classification(spec_classify(fields[i], d), plan.fields@[i]);
        lemma_classification_wf(spec_classify(fields[i], d), plan.fields@[i]);
    }
}

/// The field at `i` is classified plain when no directive is present.
pub open spec fn plain_at(fields: Seq<FieldSchema>, i: int) -> bool {
    0 <= i < fields.len() && spec_classify(fields[i], None) is Plain
}

/// `i` is the first field, in declaration order, that is classified plain.
pub open spec fn first_plain(fields: Seq<FieldSchema>, i: int) -> bool {
    plain_at(fields, i) && forall|j: int| 0 <= j < i ==> !plain_at(fields, j)
}

/// For every record definition with no directives — so with only plain and
/// optional fields — assembling the freshly initialized builder fails,
/// naming the first declared plain field, if any plain field exists; and
/// succeeds, with the absent value for every optional field, otherwise.
pub proof fn lemma_fresh_assembly(
    def: RecordDef,
    plan: BuilderPlan,
    st: BuilderState,
    r: Result<RecordValue, AssembleError>,
)
    requires
        def.body is Named,
        generated(def.body->Named_fields@, def.name@, plan),
        forall|i: int|
            0 <= i < def.body->Named_fields@.len() ==> directive_absent(
                (#[trigger] def.body->Named_fields@[i]).raw_attributes@,
            ),
        fresh_state(plan, st),
        assemble_post(plan, st, r),
    ensures
        (exists|i: int| #[trigger] plain_at(def.body->Named_fields@, i)) ==> (r matches Err(
            AssembleError::MissingRequiredField { field },
        ) && exists|i: int|
            #[trigger] first_plain(def.body->Named_fields@, i) && field@
                == def.body->Named_fields@[i].name@),
        !(exists|i: int| #[trigger] plain_at(def.body->Named_fields@, i)) ==> (r matches Ok(rv) && {
            &&& rv.fields@.len() == def.body->Named_fields@.len()
            &&& forall|i: int|
                0 <= i < rv.fields@.len() ==> #[trigger] rv.fields@[i] == FieldValue::Maybe {
                    value: None::<String>,
                }
        }),
{
    let fields = def.body->Named_fields@;
    assert forall|i: int| 0 <= i < fields.len() implies {
        &&& (missing_at(plan, st, i) <==> plain_at(fields, i))
        &&& plan.fields@[i].field@ == fields[i].name@
        &&& (!plain_at(fields, i) ==> plan.fields@[i].assemble is UseAsIs && st.slots@[i]
            == SlotContent::Single { value: None::<String> })
    } by {
        assert(field_plan_matches(fields[i], plan.fields@[i]));
        let d = choose|d: Option<FieldDirective>|
            #[trigger] directive_outcome(fields[i].raw_attributes@, d)
                && plan_matches_classification(spec_classify(fields[i], d), plan.fields@[i]);
        if d is Some {
            lemma_directive_outcomes_exclusive(fields[i].raw_attributes@);
            assert(false);
        }
        let c = spec_classify(fields[i], d);
        assert(fresh_state(plan, st));
        match c {
            FieldClassification::Plain { .. } => {
                assert(plan.fields@[i].assemble is Require);
                assert(plan.fields@[i].init is Absent);
                assert(st.slots@[i] == SlotContent::Single { value: None::<String> });
                assert(missing_at(plan, st, i));
            },
            FieldClassification::Optional { .. } => {
                assert(plan.fields@[i].assemble is UseAsIs);
                assert(plan.fields@[i].init is Absent);
                assert(st.slots@[i] == SlotContent::Single { value: None::<String> });
                assert(!missing_at(plan, st, i));
            },
            FieldClassification::Repeated { .. } => {
                assert(false);
            },
        }
    }
    if exists|i: int| #[trigger] plain_at(fields, i) {
        let i0 = choose|i: int| #[trigger] plain_at(fields, i);
        assert(missing_at(plan, st, i0));
        match r {
            Result::Ok(_) => {
                assert(!missing_at(plan, st, i0));
                assert(false);
            },
            Result::Err(e) => {
                let i1 = choose|i: int|
                    #[trigger] first_missing(plan, st, i) && e->field == plan.fields@[i].field;
                assert(plain_at(fields, i1));
                assert forall|j: int| 0 <= j < i1 implies !plain_at(fields, j) by {
                    assert(!missing_at(plan, st, j));
                }
                assert(first_plain(fields, i1) && e->field@ == fields[i1].name@);
            },
        }
    } else {
        match r {
            Result::Err(e) => {
                let i1 = choose|i: int|
                    #[trigger] first_missing(plan, st, i) && e->field == plan.fields@[i].field;
                assert(plain_at(fields, i1));
                assert(false);
            },
            Result::Ok(rv) => {
                assert forall|i: int| 0 <= i < rv.fields@.len() implies #[trigger] rv.fields@[i]
                    == FieldValue::Maybe { value: None::<String> } by {
                    assert(field_value_matches(plan.fields@[i], st.slots@[i], rv.fields@[i]));
                    assert(!plain_at(fields, i));
                }
            },
        }
    }
}

/// The view of an optional text value.
pub open spec fn opt_view(o: Option<String>) -> Option<Seq<char>> {
    match o {
        Some(s) => Some(s@),
        None => None,
    }
}

/// For every sequence of mutator calls over a freshly initialized builder
/// that sets each required field at least once, assembly succeeds, and:
/// each required field holds the last value set at it; each optional field
/// holds the last value set at it, or stays absent if never set; and each
/// repeated field holds exactly the values pushed at it, in call order —
/// empty if its accumulator was never called, which is not an error.
pub proof fn lemma_mutation_then_assembly(
    plan: BuilderPlan,
    st0: BuilderState,
    calls: Seq<MutatorCall>,
    st: BuilderState,
    r: Result<RecordValue, AssembleError>,
)
    requires
        plan_wf(plan),
        fresh_state(plan, st0),
        st.slots@.len() == plan.fields@.len(),
        forall|i: int|
            0 <= i < plan.fields@.len() ==> slot_after(
                plan.fields@[i],
                st0.slots@[i],
                calls,
                i,
                #[trigger] st.slots@[i],
            ),
        forall|i: int|
            0 <= i < plan.fields@.len() && (#[trigger] plan.fields@[i]).assemble is Require
                ==> last_set_view(calls, i) is Some,
        assemble_post(plan, st, r),
    ensures
        r is Ok,
        r matches Ok(rv) ==> {
            &&& rv.fields@.len() == plan.fields@.len()
            &&& forall|i: int|
                0 <= i < plan.fields@.len() && (#[trigger] plan.fields@[i]).assemble is Require
                    ==> (rv.fields@[i] matches FieldValue::One { value } && Some(value@)
                    == last_set_view(calls, i))
            &&& forall|i: int|
                0 <= i < plan.fields@.len() && (#[trigger] plan.fields@[i]).assemble is UseAsIs
                    && plan.fields@[i].mutator.kind is Overwrite ==> (rv.fields@[i] matches
                FieldValue::Maybe { value } && opt_view(value) == last_set_view(calls, i))
            &&& forall|i: int|
                0 <= i < plan.fields@.len() && (#[trigger] plan.fields@[i]).mutator.kind is Append
                    ==> (rv.fields@[i] matches FieldValue::List { values } && values.deep_view()
                    == pushed_views(calls, i))
        },
{
    assert forall|i: int| 0 <= i < plan.fields@.len() implies !#[trigger] missing_at(
        plan,
        st,
        i,
    ) by {
        if plan.fields@[i].assemble is Require {
            assert(field_plan_wf(plan.fields@[i]));
            assert(plan.fields@[i].mutator.kind is Overwrite);
            assert(slot_after(plan.fields@[i], st0.slots@[i], calls, i, st.slots@[i]));
            assert(last_set_view(calls, i) is Some);
        }
    }
    match r {
        Result::Err(e) => {
            let i1 = choose|i: int|
                #[trigger] first_missing(plan, st, i) && e->field == plan.fields@[i].field;
            assert(missing_at(plan, st, i1));
            assert(false);
        },
        Result::Ok(rv) => {
            assert forall|i: int|
                0 <= i < plan.fields@.len() && (#[trigger] plan.fields@[i]).mutator.kind
                    is Append implies (rv.fields@[i] matches FieldValue::List { values }
                && values.deep_view() == pushed_views(calls, i)) by {
                assert(field_plan_wf(plan.fields@[i]));
                assert(plan.fields@[i].assemble is UseAsIs);
                assert(slot_after(plan.fields@[i], st0.slots@[i], calls, i, st.slots@[i]));
                assert(field_value_matches(plan.fields@[i], st.slots@[i], rv.fields@[i]));
                assert(st.slots@[i] is Many);
                let stored = st.slots@[i]->Many_values;
                assert(many_views(st0.slots@[i]).len() == 0);
                assert(stored.deep_view() =~= pushed_views(calls, i));
                assert(rv.fields@[i] is List);
                let out = rv.fields@[i]->List_values;
                assert(out@ == stored@);
                assert(out.deep_view() =~= stored.deep_view());
            }
            assert forall|i: int|
                0 <= i < plan.fields@.len() && (#[trigger] plan.fields@[i]).assemble
                    is Require implies (rv.fields@[i] matches FieldValue::One { value } && Some(
                value@,
            ) == last_set_view(calls, i)) by {
                assert(field_plan_wf(plan.fields@[i]));
                assert(plan.fields@[i].mutator.kind is Overwrite);
                assert(slot_after(plan.fields@[i], st0.slots@[i], calls, i, st.slots@[i]));
                assert(field_value_matches(plan.fields@[i], st.slots@[i], rv.fields@[i]));
            }
            assert forall|i: int|
                0 <= i < plan.fields@.len() && (#[trigger] plan.fields@[i]).assemble is UseAsIs
                    && plan.fields@[i].mutator.kind is Overwrite implies (rv.fields@[i] matches
                FieldValue::Maybe { value } && opt_view(value) == last_set_view(calls, i)) by {
                assert(slot_after(plan.fields@[i], st0.slots@[i], calls, i, st.slots@[i]));
                assert(field_value_matches(plan.fields@[i], st.slots@[i], rv.fields@[i]));
                if last_set_view(calls, i) is None {
                    assert(st.slots@[i] == st0.slots@[i]);
                    assert(st0.slots@[i] == SlotContent::Single { value: None::<String> });
                }
            }
        },
    }
}

/// A call sequence that never targets field `i` leaves nothing pushed and
/// nothing set at it.
pub proof fn lemma_untargeted_field(calls: Seq<MutatorCall>, i: int)
    requires
        forall|k: int| 0 <= k < calls.len() ==> (#[trigger] calls[k]).field != i,
    ensures
        pushed_views(calls, i).len() == 0,
        last_set_view(calls, i) is None,
    decreases calls.len(),
{
    if calls.len() > 0 {
        lemma_untargeted_field(calls.drop_last(), i);
    }
}

/// A call sequence that always targets field `i`'s accumulator pushes
/// exactly its argument values, in call order.
pub proof fn lemma_all_targeted_field(calls: Seq<MutatorCall>, i: int)
    requires
        forall|k: int| 0 <= k < calls.len() ==> (#[trigger] calls[k]).field == i,
    ensures
        pushed_views(calls, i) =~= calls.map_values(|c: MutatorCall| c.value@),
    decreases calls.len(),
{
    if calls.len() > 0 {
        lemma_all_targeted_field(calls.drop_last(), i);
        assert(calls.drop_last().map_values(|c: MutatorCall| c.value@) =~= calls.map_values(
            |c: MutatorCall| c.value@,
        ).drop_last());
    }
}

/// The contents of two record field values agree: same shape, same text.
pub open spec fn field_values_agree(a: FieldValue, b: FieldValue) -> bool {
    match (a, b) {
        (FieldValue::One { value: x }, FieldValue::One { value: y }) => x@ == y@,
        (FieldValue::Maybe { value: x }, FieldValue::Maybe { value: y }) => opt_view(x)
            == opt_view(y),
        (FieldValue::List { values: x }, FieldValue::List { values: y }) => x.deep_view()
            == y.deep_view(),
        _ => false,
    }
}

/// Assembly is idempotent: two assembly attempts on the same builder with
/// no mutation in between yield records whose fields agree, or fail with
/// the same diagnostic.
pub proof fn lemma_assembly_deterministic(
    plan: BuilderPlan,
    st: BuilderState,
    r1: Result<RecordValue, AssembleError>,
    r2: Result<RecordValue, AssembleError>,
)
    requires
        assemble_post(plan, st, r1),
        assemble_post(plan, st, r2),
    ensures
        match (r1, r2) {
            (Result::Ok(a), Result::Ok(b)) => a.fields@.len() == b.fields@.len() && forall|i: int|
                0 <= i < a.fields@.len() ==> field_values_agree(
                    #[trigger] a.fields@[i],
                    b.fields@[i],
                ),
            (Result::Err(a), Result::Err(b)) => a == b,
            _ => false,
        },
{
    match (r1, r2) {
        (Result::Ok(a), Result::Ok(b)) => {
            assert forall|i: int| 0 <= i < a.fields@.len() implies field_values_agree(
                #[trigger] a.fields@[i],
                b.fields@[i],
            ) by {
                assert(field_value_matches(plan.fields@[i], st.slots@[i], a.fields@[i]));
                assert(field_value_matches(plan.fields@[i], st.slots@[i], b.fields@[i]));
                if !(plan.fields@[i].assemble is Require) && st.slots@[i] is Many {
                    let x = a.fields@[i]->List_values;
                    let y = b.fields@[i]->List_values;
                    assert(x@ == y@);
                    assert(x.deep_view() =~= y.deep_view());
                }
            }
        },
        (Result::Ok(a), Result::Err(e)) => {
            let i1 = choose|i: int|
                #[trigger] first_missing(plan, st, i) && e->field == plan.fields@[i].field;
            assert(!missing_at(plan, st, i1));
            assert(false);
        },
        (Result::Err(e), Result::Ok(b)) => {
            let i1 = choose|i: int|
                #[trigger] first_missing(plan, st, i) && e->field == plan.fields@[i].field;
            assert(!missing_at(plan, st, i1));
            assert(false);
        },
        (Result::Err(e1), Result::Err(e2)) => {
            let i1 = choose|i: int|
                #[trigger] first_missing(plan, st, i) && e1->field == plan.fields@[i].field;
            let i2 = choose|i: int|
                #[trigger] first_missing(plan, st, i) && e2->field == plan.fields@[i].field;
            if i1 < i2 {
                assert(!missing_at(plan, st, i1));
                assert(false);
            }
            if i2 < i1 {
                assert(!missing_at(plan, st, i2));
                assert(false);
            }
        },
    }
}

} // verus!
