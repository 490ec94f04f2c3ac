//! The runtime behavior of a planned builder.
//!
//! A plan describes the builder companion that is spliced into the program;
//! this module gives that companion's behavior a model over text values and
//! verifies it: the zero-value initializer, the per-field mutators, and the
//! fallible assembly method that checks every required field in declaration
//! order and constructs the final record.

use vstd::prelude::*;
use crate::emit::{BuilderPlan, FieldPlan, MutatorKind, SlotInit};

verus! {

/// The contents of one builder storage slot.
pub enum SlotContent {
    /// One optional value: the slot of a plain or an optional field,
    /// absent until its mutator runs.
    Single { value: Option<String> },
    /// An ordered sequence, one value per accumulator call: the slot of a
    /// repeated field, never "unset".
    Many { values: Vec<String> },
}

/// One builder instance: its slots, parallel to the plan's fields.
pub struct BuilderState {
    pub slots: Vec<SlotContent>,
}

/// The value that one field of the assembled record receives.
#[derive(Debug, PartialEq, Eq)]
pub enum FieldValue {
    /// A required value, present by the time assembly succeeded.
    One { value: String },
    /// An optional value, used as it stands; absent is a valid outcome.
    Maybe { value: Option<String> },
    /// An accumulated sequence, used as it stands; empty is a valid outcome.
    List { values: Vec<String> },
}

/// The assembled record: one value per field, in declaration order.
#[derive(Debug, PartialEq, Eq)]
pub struct RecordValue {
    pub fields: Vec<FieldValue>,
}

/// The runtime failure of the assembly method.
#[derive(Debug, PartialEq, Eq)]
pub enum AssembleError {
    /// The named field is plain and its slot was never set. The name is that
    /// of the first such field in declaration order.
    MissingRequiredField { field: String },
}

/// The optional value of a single-value slot.
pub open spec fn single_value(s: SlotContent) -> Option<String> {
    match s {
        SlotContent::Single { value } => value,
        SlotContent::Many { .. } => None,
    }
}

/// The contents of a sequence slot, as a sequence of text views.
pub open spec fn many_views(s: SlotContent) -> Seq<Seq<char>> {
    match s {
        SlotContent::Many { values } => values.deep_view(),
        SlotContent::Single { .. } => Seq::empty(),
    }
}

/// Internal consistency of one field plan, as the emitter produces it:
/// a slot starts empty exactly when its mutator accumulates, and a required
/// slot is a single-value slot.
pub open spec fn field_plan_wf(fp: FieldPlan) -> bool {
    &&& fp.init is Empty <==> fp.mutator.kind is Append
    &&& fp.assemble is Require ==> fp.init is Absent
}

/// Internal consistency of a whole plan.
pub open spec fn plan_wf(plan: BuilderPlan) -> bool {
    forall|i: int| 0 <= i < plan.fields@.len() ==> field_plan_wf(#[trigger] plan.fields@[i])
}

/// A builder state shaped by its plan: one slot per field, a sequence slot
/// exactly where the mutator accumulates.
pub open spec fn state_wf(plan: BuilderPlan, st: BuilderState) -> bool {
    &&& st.slots@.len() == plan.fields@.len()
    &&& forall|i: int|
        0 <= i < plan.fields@.len() ==> ((#[trigger] st.slots@[i]) is Many
            <==> plan.fields@[i].mutator.kind is Append)
}

/// The starting value of one slot: the absent optional, or the empty
/// sequence for a repeated field.
pub open spec fn fresh_slot(fp: FieldPlan, s: SlotContent) -> bool {
    if fp.init is Empty {
        s is Many && many_views(s).len() == 0
    } else {
        s == SlotContent::Single { value: None::<String> }
    }
}

/// The builder's starting state: every slot fresh.
pub open spec fn fresh_state(plan: BuilderPlan, st: BuilderState) -> bool {
    &&& st.slots@.len() == plan.fields@.len()
    &&& forall|i: int|
        0 <= i < plan.fields@.len() ==> fresh_slot(plan.fields@[i], #[trigger] st.slots@[i])
}

/// Builds the builder's starting value. No field needs outside input:
/// every single-value slot starts absent, every sequence slot empty.
#[verifier::loop_isolation(false)]
pub fn init_builder(plan: &BuilderPlan) -> (st: BuilderState)
    requires
        plan_wf(*plan),
    ensures
        fresh_state(*plan, st),
        state_wf(*plan, st),
{
    let n = plan.fields.len();
    let mut slots: Vec<SlotContent> = Vec::new();
    let mut k: usize = 0;
    while k < n
        invariant
            k <= n,
            slots@.len() == k,
            forall|i: int| 0 <= i < k ==> fresh_slot(plan.fields@[i], #[trigger] slots@[i]),
        decreases n - k,
    {
        let s = match plan.fields[k].init {
            SlotInit::Absent => SlotContent::Single { value: None },
            SlotInit::Empty => SlotContent::Many { values: Vec::new() },
        };
        slots.push(s);
        k += 1;
    }
    BuilderState { slots }
}

/// The mutator of a plain or an optional field: overwrites the slot with
/// the present optional of its argument. The last write wins.
pub fn set_slot(st: &mut BuilderState, i: usize, value: String)
    requires
        i < old(st).slots@.len(),
        old(st).slots@[i as int] is Single,
    ensures
        final(st).slots@ == old(st).slots@.update(
            i as int,
            SlotContent::Single { value: Some(value) },
        ),
{
    let _ = st.slots.remove(i);
    st.slots.insert(i, SlotContent::Single { value: Some(value) });
    proof {
        assert(st.slots@ =~= old(st).slots@.update(
            i as int,
            SlotContent::Single { value: Some(value) },
        ));
    }
}

/// The accumulator mutator of a repeated field: appends its argument to the
/// slot's sequence. There is deliberately no bulk overwrite.
pub fn push_slot(st: &mut BuilderState, i: usize, value: String)
    requires
        i < old(st).slots@.len(),
        old(st).slots@[i as int] is Many,
    ensures
        final(st).slots@.len() == old(st).slots@.len(),
        final(st).slots@[i as int] is Many,
        many_views(final(st).slots@[i as int]) == many_views(old(st).slots@[i as int]).push(
            value@,
        ),
        forall|j: int|
            0 <= j < old(st).slots@.len() && j != i ==> final(st).slots@[j] == old(st).slots@[j],
{
    let slot = st.slots.remove(i);
    match slot {
        SlotContent::Many { mut values } => {
            let ghost before = values.deep_view();
            values.push(value);
            proof {
                assert(values.deep_view() =~= before.push(value@));
            }
            st.slots.insert(i, SlotContent::Many { values });
            proof {
                assert(forall|j: int|
                    0 <= j < old(st).slots@.len() && j != i ==> st.slots@[j] == old(st).slots@[j]);
            }
        },
        SlotContent::Single { .. } => {
            proof {
                assert(false);
            }
        },
    }
}

/// The named field is required and its slot holds no value.
pub open spec fn missing_at(plan: BuilderPlan, st: BuilderState, i: int) -> bool {
    &&& 0 <= i < plan.fields@.len()
    &&& plan.fields@[i].assemble is Require
    &&& single_value(st.slots@[i]) is None
}

/// `i` is the first field, in declaration order, that is required and unset.
pub open spec fn first_missing(plan: BuilderPlan, st: BuilderState, i: int) -> bool {
    &&& missing_at(plan, st, i)
    &&& forall|j: int| 0 <= j < i ==> !missing_at(plan, st, j)
}

/// The record value that one field receives from its slot: the unwrapped
/// required value, the optional as it stands, or the sequence as it stands.
pub open spec fn field_value_matches(fp: FieldPlan, s: SlotContent, fv: FieldValue) -> bool {
    if fp.assemble is Require {
        s matches SlotContent::Single { value: Some(v) } && fv == FieldValue::One { value: v }
    } else {
        match s {
            SlotContent::Single { value } => fv == FieldValue::Maybe { value },
            SlotContent::Many { values } => fv matches FieldValue::List { values: out } && out@
                == values@,
        }
    }
}

/// The whole contract of one assembly attempt: success exactly when no
/// required field is unset, with every field's value drawn from its slot;
/// failure naming the first required field, in declaration order, whose
/// slot is unset.
pub open spec fn assemble_post(
    plan: BuilderPlan,
    st: BuilderState,
    r: Result<RecordValue, AssembleError>,
) -> bool {
    match r {
        Ok(rv) => {
            &&& forall|i: int| 0 <= i < plan.fields@.len() ==> !#[trigger] missing_at(plan, st, i)
            &&& rv.fields@.len() == plan.fields@.len()
            &&& forall|i: int|
                0 <= i < plan.fields@.len() ==> field_value_matches(
                    plan.fields@[i],
                    st.slots@[i],
                    #[trigger] rv.fields@[i],
                )
        },
        Err(e) => {
            &&& e matches AssembleError::MissingRequiredField { field }
            &&& exists|i: int| #[trigger] first_missing(plan, st, i) && field == plan.fields@[i].field
        },
    }
}

/// Copies the optional value of a slot.
fn clone_opt(v: &Option<String>) -> (r: Option<String>)
    ensures
        r == *v,
{
    match v {
        Some(s) => Some(s.clone()),
        None => None,
    }
}

/// Copies the accumulated values of a slot.
fn clone_texts(v: &Vec<String>) -> (r: Vec<String>)
    ensures
        r@ == v@,
{
    let mut r: Vec<String> = Vec::new();
    let mut k: usize = 0;
    while k < v.len()
        invariant
            k <= v@.len(),
            r@.len() == k,
            forall|j: int| 0 <= j < k ==> r@[j] == v@[j],
        decreases v@.len() - k,
    {
        r.push(v[k].clone());
        k += 1;
    }
    proof {
        assert(r@ =~= v@);
    }
    r
}

/// One mutator invocation in a call sequence: the field whose mutator is
/// called, by its position in the plan, and the argument passed.
pub struct MutatorCall {
    pub field: usize,
    pub value: String,
}

/// The view of the last value passed to field `i`'s overwrite mutator over
/// a call sequence, if any call targeted it: the last write wins.
pub open spec fn last_set_view(calls: Seq<MutatorCall>, i: int) -> Option<Seq<char>>
    decreases calls.len(),
{
    if calls.len() == 0 {
        None
    } else if calls.last().field == i {
        Some(calls.last().value@)
    } else {
        last_set_view(calls.drop_last(), i)
    }
}

/// The views of the values passed to field `i`'s accumulator over a call
/// sequence, in call order.
pub open spec fn pushed_views(calls: Seq<MutatorCall>, i: int) -> Seq<Seq<char>>
    decreases calls.len(),
{
    if calls.len() == 0 {
        Seq::empty()
    } else if calls.last().field == i {
        pushed_views(calls.drop_last(), i).push(calls.last().value@)
    } else {
        pushed_views(calls.drop_last(), i)
    }
}

/// Where a call sequence leaves one slot: an accumulator slot grows by the
/// values pushed at it, in call order; an overwrite slot holds the last
/// value set at it, or stays as it was if no call targeted it.
pub open spec fn slot_after(
    fp: FieldPlan,
    before: SlotContent,
    calls: Seq<MutatorCall>,
    i: int,
    after: SlotContent,
) -> bool {
    if fp.mutator.kind is Append {
        after is Many && many_views(after) == many_views(before) + pushed_views(calls, i)
    } else {
        match last_set_view(calls, i) {
            Some(v) => after matches SlotContent::Single { value: Some(s) } && s@ == v,
            None => after == before,
        }
    }
}

/// Runs a sequence of mutator calls against a builder, dispatching each to
/// the targeted field's mutator: overwrite for a single-value slot, append
/// for a sequence slot.
#[verifier::loop_isolation(false)]
pub fn apply_calls(plan: &BuilderPlan, st: &mut BuilderState, calls: &Vec<MutatorCall>)
    requires
        plan_wf(*plan),
        state_wf(*plan, *old(st)),
        forall|k: int| 0 <= k < calls@.len() ==> (#[trigger] calls@[k]).field < plan.fields@.len(),
    ensures
        state_wf(*plan, *final(st)),
        forall|i: int|
            0 <= i < plan.fields@.len() ==> slot_after(
                plan.fields@[i],
                old(st).slots@[i],
                calls@,
                i,
                #[trigger] final(st).slots@[i],
            ),
{
    let n = calls.len();
    let mut k: usize = 0;
    while k < n
        invariant
            k <= n,
            state_wf(*plan, *st),
            forall|i: int|
                0 <= i < plan.fields@.len() ==> slot_after(
                    plan.fields@[i],
                    old(st).slots@[i],
                    calls@.take(k as int),
                    i,
                    #[trigger] st.slots@[i],
                ),
        decreases n - k,
    {
        let target = calls[k].field;
        let value = calls[k].value.clone();
        let ghost pre = st.slots@;
        proof {
            assert(calls@.take(k as int + 1).drop_last() =~= calls@.take(k as int));
            assert(calls@.take(k as int + 1).last() == calls@[k as int]);
        }
        let goes_many = match &st.slots[target] {
            SlotContent::Many { .. } => true,
            SlotContent::Single { .. } => false,
        };
        if goes_many {
            push_slot(st, target, value);
        } else {
            set_slot(st, target, value);
        }
        proof {
            assert forall|i: int| 0 <= i < plan.fields@.len() implies slot_after(
                plan.fields@[i],
                old(st).slots@[i],
                calls@.take(k as int + 1),
                i,
                st.slots@[i],
            ) by {
                assert(slot_after(
                    plan.fields@[i],
                    old(st).slots@[i],
                    calls@.take(k as int),
                    i,
                    pre[i],
                ));
                if i == target as int {
                    if plan.fields@[i].mutator.kind is Append {
                        assert(many_views(st.slots@[i]) == many_views(pre[i]).push(
                            calls@[k as int].value@,
                        ));
                        assert(many_views(old(st).slots@[i]) + pushed_views(
                            calls@.take(k as int + 1),
                            i,
                        ) =~= (many_views(old(st).slots@[i]) + pushed_views(
                            calls@.take(k as int),
                            i,
                        )).push(calls@[k as int].value@));
                    }
                } else {
                    assert(st.slots@[i] == pre[i]);
                    assert(pushed_views(calls@.take(k as int + 1), i) == pushed_views(
                        calls@.take(k as int),
                        i,
                    ));
                    assert(last_set_view(calls@.take(k as int + 1), i) == last_set_view(
                        calls@.take(k as int),
                        i,
                    ));
                }
            }
        }
        k += 1;
    }
    proof {
        assert(calls@.take(n as int) =~= calls@);
    }
}

/// The position of the field whose mutator bears the given name: the first
/// such field in declaration order, if any.
pub fn mutator_index(plan: &BuilderPlan, name: &str) -> (r: Option<usize>)
    ensures
        match r {
            Some(i) => {
                &&& i < plan.fields@.len()
                &&& plan.fields@[i as int].mutator.name@ == name@
                &&& forall|j: int|
                    0 <= j < i ==> (#[trigger] plan.fields@[j]).mutator.name@ != name@
            },
            None => forall|j: int|
                0 <= j < plan.fields@.len() ==> (#[trigger] plan.fields@[j]).mutator.name@
                    != name@,
        },
{
    let n = plan.fields.len();
    let mut k: usize = 0;
    while k < n
        invariant
            k <= n,
            n == plan.fields@.len(),
            forall|j: int| 0 <= j < k ==> (#[trigger] plan.fields@[j]).mutator.name@ != name@,
        decreases n - k,
    {
        if crate::text_eq(&plan.fields[k].mutator.name, name) {
            return Some(k);
        }
        k += 1;
    }
    None
}

/// The assembly method: reads the builder and attempts to produce the final
/// record. Each field is checked in declaration order; the first required
/// field whose slot is unset fails the attempt, naming that field. The
/// builder is only read: re-invoking assembly after further mutation
/// re-evaluates every check freshly.
#[verifier::loop_isolation(false)]
pub fn assemble(plan: &BuilderPlan, st: &BuilderState) -> (r: Result<RecordValue, AssembleError>)
    requires
        plan_wf(*plan),
        state_wf(*plan, *st),
    ensures
        assemble_post(*plan, *st, r),
{
    let n = plan.fields.len();
    let mut out: Vec<FieldValue> = Vec::new();
    let mut k: usize = 0;
    while k < n
        invariant
            k <= n,
            out@.len() == k,
            forall|j: int| 0 <= j < k ==> !#[trigger] missing_at(*plan, *st, j),
            forall|j: int|
                0 <= j < k ==> field_value_matches(
                    plan.fields@[j],
                    st.slots@[j],
                    #[trigger] out@[j],
                ),
        decreases n - k,
    {
        let fp = &plan.fields[k];
        let required = match fp.assemble {
            crate::emit::AssembleStep::Require => true,
            crate::emit::AssembleStep::UseAsIs => false,
        };
        match &st.slots[k] {
            SlotContent::Single { value } => {
                if required {
                    match value {
                        Some(v) => {
                            out.push(FieldValue::One { value: v.clone() });
                        },
                        None => {
                            let field = fp.field.clone();
                            proof {
                                assert(first_missing(*plan, *st, k as int));
                            }
                            return Err(AssembleError::MissingRequiredField { field });
                        },
                    }
                } else {
                    out.push(FieldValue::Maybe { value: clone_opt(value) });
                }
            },
            SlotContent::Many { values } => {
                proof {
                    assert(plan.fields@[k as int].mutator.kind is Append);
                    assert(!required);
                }
                out.push(FieldValue::List { values: clone_texts(values) });
            },
        }
        k += 1;
    }
    Ok(RecordValue { fields: out })
}

} // verus!

