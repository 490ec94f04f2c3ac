//! Tests of the planned builder's modeled runtime behavior: initialization,
//! mutation, and assembly.

use builder::emit::{generate, BuilderPlan};
use builder::schema::{FieldSchema, RawAttribute, RecordBody, RecordDef, TypeExpr};
use builder::schema::AttrArg;
use builder::state::{
    apply_calls, assemble, init_builder, mutator_index, AssembleError, BuilderState, FieldValue,
    MutatorCall, RecordValue,
};

fn plain_field(name: &str, ty: &str) -> FieldSchema {
    FieldSchema {
        name: name.to_string(),
        declared_type: TypeExpr::Other { text: ty.to_string() },
        raw_attributes: Vec::new(),
    }
}

fn optional_field(name: &str, inner: &str) -> FieldSchema {
    FieldSchema {
        name: name.to_string(),
        declared_type: TypeExpr::Wrapper { name: "Option".to_string(), inner: inner.to_string() },
        raw_attributes: Vec::new(),
    }
}

fn repeated_field(name: &str, inner: &str, each: &str) -> FieldSchema {
    FieldSchema {
        name: name.to_string(),
        declared_type: TypeExpr::Wrapper { name: "Vec".to_string(), inner: inner.to_string() },
        raw_attributes: vec![RawAttribute {
            tool: "builder".to_string(),
            arg: AttrArg::StrAssign { key: "each".to_string(), value: each.to_string() },
        }],
    }
}

/// The worked example: a command record with a required executable, an
/// accumulated argument list, and an optional working directory.
fn command_plan() -> BuilderPlan {
    let def = RecordDef {
        name: "Command".to_string(),
        body: RecordBody::Named {
            fields: vec![
                plain_field("executable", "String"),
                repeated_field("args", "String", "arg"),
                optional_field("current_dir", "String"),
            ],
        },
    };
    generate(&def).expect("generation should succeed")
}

fn invoke(plan: &BuilderPlan, st: &mut BuilderState, name: &str, value: &str) {
    let i = mutator_index(plan, name).expect("the mutator should exist");
    let calls = vec![MutatorCall { field: i, value: value.to_string() }];
    apply_calls(plan, st, &calls);
}

fn expect_record(r: Result<RecordValue, AssembleError>) -> RecordValue {
    match r {
        Ok(rv) => rv,
        Err(AssembleError::MissingRequiredField { field }) => {
            panic!("assembly should succeed, but {} was missing", field)
        },
    }
}

#[test]
fn end_to_end_command() {
    let plan = command_plan();
    let mut st = init_builder(&plan);
    invoke(&plan, &mut st, "executable", "ls");
    invoke(&plan, &mut st, "arg", "-l");
    invoke(&plan, &mut st, "arg", "-a");
    let rv = expect_record(assemble(&plan, &st));
    assert_eq!(rv.fields.len(), 3);
    assert_eq!(rv.fields[0], FieldValue::One { value: "ls".to_string() });
    assert_eq!(
        rv.fields[1],
        FieldValue::List { values: vec!["-l".to_string(), "-a".to_string()] }
    );
    assert_eq!(rv.fields[2], FieldValue::Maybe { value: None });
}

#[test]
fn missing_executable_fails_assembly() {
    let plan = command_plan();
    let mut st = init_builder(&plan);
    invoke(&plan, &mut st, "arg", "-l");
    match assemble(&plan, &st) {
        Err(AssembleError::MissingRequiredField { field }) => assert_eq!(field, "executable"),
        Ok(_) => panic!("assembly should fail without the executable"),
    }
}

#[test]
fn fresh_assembly_names_first_plain_field() {
    let def = RecordDef {
        name: "Pair".to_string(),
        body: RecordBody::Named {
            fields: vec![
                optional_field("note", "String"),
                plain_field("left", "String"),
                plain_field("right", "String"),
            ],
        },
    };
    let plan = generate(&def).expect("generation should succeed");
    let st = init_builder(&plan);
    match assemble(&plan, &st) {
        Err(AssembleError::MissingRequiredField { field }) => assert_eq!(field, "left"),
        Ok(_) => panic!("assembly should fail with unset plain fields"),
    }
}

#[test]
fn fresh_assembly_succeeds_without_plain_fields() {
    let def = RecordDef {
        name: "Prefs".to_string(),
        body: RecordBody::Named {
            fields: vec![optional_field("color", "String"), optional_field("shell", "String")],
        },
    };
    let plan = generate(&def).expect("generation should succeed");
    let st = init_builder(&plan);
    let rv = expect_record(assemble(&plan, &st));
    assert_eq!(rv.fields.len(), 2);
    assert_eq!(rv.fields[0], FieldValue::Maybe { value: None });
    assert_eq!(rv.fields[1], FieldValue::Maybe { value: None });
}

#[test]
fn last_write_wins_and_set_optionals_appear() {
    let plan = command_plan();
    let mut st = init_builder(&plan);
    invoke(&plan, &mut st, "executable", "cat");
    invoke(&plan, &mut st, "executable", "ls");
    invoke(&plan, &mut st, "current_dir", "/tmp");
    let rv = expect_record(assemble(&plan, &st));
    assert_eq!(rv.fields[0], FieldValue::One { value: "ls".to_string() });
    assert_eq!(rv.fields[2], FieldValue::Maybe { value: Some("/tmp".to_string()) });
}

#[test]
fn untouched_accumulator_yields_empty_sequence() {
    let plan = command_plan();
    let mut st = init_builder(&plan);
    invoke(&plan, &mut st, "executable", "ls");
    let rv = expect_record(assemble(&plan, &st));
    assert_eq!(rv.fields[1], FieldValue::List { values: Vec::new() });
}

#[test]
fn accumulator_keeps_call_order() {
    let plan = command_plan();
    let mut st = init_builder(&plan);
    invoke(&plan, &mut st, "executable", "ls");
    for v in ["one", "two", "three", "four"] {
        invoke(&plan, &mut st, "arg", v);
    }
    let rv = expect_record(assemble(&plan, &st));
    assert_eq!(
        rv.fields[1],
        FieldValue::List {
            values: vec![
                "one".to_string(),
                "two".to_string(),
                "three".to_string(),
                "four".to_string(),
            ]
        }
    );
}

#[test]
fn assembly_is_idempotent_on_success() {
    let plan = command_plan();
    let mut st = init_builder(&plan);
    invoke(&plan, &mut st, "executable", "ls");
    invoke(&plan, &mut st, "arg", "-l");
    let first = assemble(&plan, &st);
    let second = assemble(&plan, &st);
    assert_eq!(first, second);
    assert!(first.is_ok());
}

#[test]
fn assembly_is_idempotent_on_failure() {
    let plan = command_plan();
    let st = init_builder(&plan);
    let first = assemble(&plan, &st);
    let second = assemble(&plan, &st);
    assert_eq!(first, second);
    assert!(first.is_err());
}

#[test]
fn assembly_reflects_further_mutation() {
    let plan = command_plan();
    let mut st = init_builder(&plan);
    invoke(&plan, &mut st, "executable", "ls");
    let before = expect_record(assemble(&plan, &st));
    invoke(&plan, &mut st, "arg", "-l");
    let after = expect_record(assemble(&plan, &st));
    assert_eq!(before.fields[1], FieldValue::List { values: Vec::new() });
    assert_eq!(after.fields[1], FieldValue::List { values: vec!["-l".to_string()] });
}

#[test]
fn mutator_lookup_finds_first_match_only() {
    let plan = command_plan();
    assert_eq!(mutator_index(&plan, "executable"), Some(0));
    assert_eq!(mutator_index(&plan, "arg"), Some(1));
    assert_eq!(mutator_index(&plan, "current_dir"), Some(2));
    assert_eq!(mutator_index(&plan, "args"), None);
}
