//! Tests of the generation pass: directive parsing, classification, and the
//! emitted plan.

use builder::directive::parse_directive;
use builder::emit::{
    generate, AssembleStep, BuilderPlan, GenerateError, MutatorKind, SlotInit, SlotKind,
};
use builder::schema::{AttrArg, FieldSchema, RawAttribute, RecordBody, RecordDef, TypeExpr};

fn plain_field(name: &str, ty: &str) -> FieldSchema {
    FieldSchema {
        name: name.to_string(),
        declared_type: TypeExpr::Other { text: ty.to_string() },
        raw_attributes: Vec::new(),
    }
}

fn wrapped_field(name: &str, wrapper: &str, inner: &str) -> FieldSchema {
    FieldSchema {
        name: name.to_string(),
        declared_type: TypeExpr::Wrapper { name: wrapper.to_string(), inner: inner.to_string() },
        raw_attributes: Vec::new(),
    }
}

fn each_attr(value: &str) -> RawAttribute {
    RawAttribute {
        tool: "builder".to_string(),
        arg: AttrArg::StrAssign { key: "each".to_string(), value: value.to_string() },
    }
}

fn named_record(name: &str, fields: Vec<FieldSchema>) -> RecordDef {
    RecordDef { name: name.to_string(), body: RecordBody::Named { fields } }
}

fn expect_plan(def: &RecordDef) -> BuilderPlan {
    match generate(def) {
        Ok(plan) => plan,
        Err(_) => panic!("generation should succeed"),
    }
}

#[test]
fn directive_well_formed_parses() {
    let attrs = vec![each_attr("push")];
    let parsed = parse_directive(&attrs);
    match parsed {
        Ok(Some(fd)) => assert_eq!(fd.accumulator_name, "push"),
        _ => panic!("expected one well-formed directive"),
    }
}

#[test]
fn directive_wrong_key_is_malformed() {
    let attrs = vec![RawAttribute {
        tool: "builder".to_string(),
        arg: AttrArg::StrAssign { key: "eac".to_string(), value: "push".to_string() },
    }];
    assert!(parse_directive(&attrs).is_err());
}

#[test]
fn directive_non_string_value_is_malformed() {
    let attrs = vec![RawAttribute {
        tool: "builder".to_string(),
        arg: AttrArg::NonStrAssign { key: "each".to_string() },
    }];
    assert!(parse_directive(&attrs).is_err());
}

#[test]
fn directive_unstructured_is_malformed() {
    let attrs = vec![RawAttribute { tool: "builder".to_string(), arg: AttrArg::Unstructured }];
    assert!(parse_directive(&attrs).is_err());
}

#[test]
fn directive_duplicate_entries_are_malformed() {
    let attrs = vec![each_attr("push"), each_attr("push")];
    assert!(parse_directive(&attrs).is_err());
}

#[test]
fn directive_absent_when_no_entry_addresses_the_generator() {
    let attrs = vec![RawAttribute {
        tool: "serde".to_string(),
        arg: AttrArg::StrAssign { key: "each".to_string(), value: "x".to_string() },
    }];
    match parse_directive(&attrs) {
        Ok(None) => {},
        _ => panic!("foreign attributes are not directives"),
    }
}

#[test]
fn wrong_key_directive_fails_generation() {
    let mut f = wrapped_field("args", "Vec", "String");
    f.raw_attributes.push(RawAttribute {
        tool: "builder".to_string(),
        arg: AttrArg::StrAssign { key: "eac".to_string(), value: "push".to_string() },
    });
    let def = named_record("Command", vec![f]);
    match generate(&def) {
        Err(GenerateError::MalformedDirective { field }) => assert_eq!(field, "args"),
        _ => panic!("expected a malformed-directive failure"),
    }
}

#[test]
fn malformed_directive_blocks_the_whole_record() {
    // The well-formed first field does not rescue the record: the first
    // field in declaration order whose entries break the grammar is named.
    let good = plain_field("executable", "String");
    let mut bad = wrapped_field("args", "Vec", "String");
    bad.raw_attributes.push(RawAttribute {
        tool: "builder".to_string(),
        arg: AttrArg::NonStrAssign { key: "each".to_string() },
    });
    let mut also_bad = plain_field("dir", "String");
    also_bad.raw_attributes.push(RawAttribute {
        tool: "builder".to_string(),
        arg: AttrArg::Unstructured,
    });
    let def = named_record("Command", vec![good, bad, also_bad]);
    match generate(&def) {
        Err(GenerateError::MalformedDirective { field }) => assert_eq!(field, "args"),
        _ => panic!("expected a malformed-directive failure"),
    }
}

#[test]
fn unsupported_shapes_are_rejected() {
    for body in [RecordBody::Positional, RecordBody::Unit, RecordBody::Variants] {
        let def = RecordDef { name: "T".to_string(), body };
        match generate(&def) {
            Err(GenerateError::UnsupportedShape) => {},
            _ => panic!("expected an unsupported-shape failure"),
        }
    }
}

#[test]
fn plain_field_plan() {
    let def = named_record("Command", vec![plain_field("executable", "String")]);
    let plan = expect_plan(&def);
    assert_eq!(plan.record, "Command");
    assert_eq!(plan.builder, "CommandBuilder");
    assert_eq!(plan.fields.len(), 1);
    let fp = &plan.fields[0];
    assert_eq!(fp.field, "executable");
    assert_eq!(fp.declared, "String");
    assert!(matches!(fp.slot, SlotKind::WrapOption));
    assert!(matches!(fp.init, SlotInit::Absent));
    assert_eq!(fp.mutator.name, "executable");
    assert_eq!(fp.mutator.param, "String");
    assert!(matches!(fp.mutator.kind, MutatorKind::Overwrite));
    assert!(matches!(fp.assemble, AssembleStep::Require));
}

#[test]
fn optional_field_plan() {
    let def = named_record("Command", vec![wrapped_field("current_dir", "Option", "String")]);
    let plan = expect_plan(&def);
    let fp = &plan.fields[0];
    assert_eq!(fp.declared, "Option<String>");
    assert!(matches!(fp.slot, SlotKind::Keep));
    assert!(matches!(fp.init, SlotInit::Absent));
    assert_eq!(fp.mutator.name, "current_dir");
    assert_eq!(fp.mutator.param, "String");
    assert!(matches!(fp.mutator.kind, MutatorKind::Overwrite));
    assert!(matches!(fp.assemble, AssembleStep::UseAsIs));
}

#[test]
fn repeated_field_plan() {
    let mut f = wrapped_field("args", "Vec", "String");
    f.raw_attributes.push(each_attr("arg"));
    let def = named_record("Command", vec![f]);
    let plan = expect_plan(&def);
    let fp = &plan.fields[0];
    assert_eq!(fp.declared, "Vec<String>");
    assert!(matches!(fp.slot, SlotKind::Keep));
    assert!(matches!(fp.init, SlotInit::Empty));
    assert_eq!(fp.mutator.name, "arg");
    assert_eq!(fp.mutator.param, "String");
    assert!(matches!(fp.mutator.kind, MutatorKind::Append));
    assert!(matches!(fp.assemble, AssembleStep::UseAsIs));
}

#[test]
fn container_without_directive_is_plain() {
    // A sequence container alone does not make a field repeated: without
    // the directive it is a plain required field of the declared type.
    let def = named_record("Command", vec![wrapped_field("args", "Vec", "String")]);
    let plan = expect_plan(&def);
    let fp = &plan.fields[0];
    assert!(matches!(fp.slot, SlotKind::WrapOption));
    assert_eq!(fp.mutator.param, "Vec<String>");
    assert!(matches!(fp.mutator.kind, MutatorKind::Overwrite));
    assert!(matches!(fp.assemble, AssembleStep::Require));
}

#[test]
fn directive_on_non_container_produces_no_accumulator() {
    // The documented ambiguity: a directive on a field whose declared type
    // is not the sequence container is accepted and silently produces no
    // accumulator method; the optional shape still decides.
    let mut f = wrapped_field("maybe", "Option", "String");
    f.raw_attributes.push(each_attr("push"));
    let def = named_record("Command", vec![f]);
    let plan = expect_plan(&def);
    let fp = &plan.fields[0];
    assert_eq!(fp.mutator.name, "maybe");
    assert!(matches!(fp.mutator.kind, MutatorKind::Overwrite));
    assert!(matches!(fp.assemble, AssembleStep::UseAsIs));
}

#[test]
fn directive_takes_precedence_over_optional_detection() {
    // An optional-shaped inner type inside the sequence container: the
    // directive still wins and the field accumulates.
    let mut f = wrapped_field("entries", "Vec", "Option<String>");
    f.raw_attributes.push(each_attr("entry"));
    let def = named_record("Command", vec![f]);
    let plan = expect_plan(&def);
    let fp = &plan.fields[0];
    assert_eq!(fp.mutator.name, "entry");
    assert_eq!(fp.mutator.param, "Option<String>");
    assert!(matches!(fp.mutator.kind, MutatorKind::Append));
}

#[test]
fn field_order_is_preserved() {
    let def = named_record(
        "Command",
        vec![
            plain_field("executable", "String"),
            wrapped_field("current_dir", "Option", "String"),
            plain_field("timeout", "u64"),
        ],
    );
    let plan = expect_plan(&def);
    let names: Vec<&str> = plan.fields.iter().map(|fp| fp.field.as_str()).collect();
    assert_eq!(names, ["executable", "current_dir", "timeout"]);
}

#[test]
fn extractor_returns_fields_in_order() {
    let def = named_record("Command", vec![plain_field("a", "String"), plain_field("b", "u32")]);
    match builder::schema::extract(&def) {
        Ok(fields) => {
            assert_eq!(fields.len(), 2);
            assert_eq!(fields[0].name, "a");
            assert_eq!(fields[1].name, "b");
        }
        Err(_) => panic!("a named-field record extracts"),
    }
}

#[test]
fn extractor_rejects_variant_shapes() {
    let def = RecordDef { name: "T".to_string(), body: RecordBody::Variants };
    assert!(builder::schema::extract(&def).is_err());
}

#[test]
fn wrapper_query_matches_shape_only() {
    let ty = TypeExpr::Wrapper { name: "Option".to_string(), inner: "u32".to_string() };
    assert_eq!(ty.wrapper_arg("Option"), Some(&"u32".to_string()));
    assert_eq!(ty.wrapper_arg("Vec"), None);
    let other = TypeExpr::Other { text: "String".to_string() };
    assert_eq!(other.wrapper_arg("Option"), None);
}

#[test]
fn type_text_renders_wrappers() {
    let ty = TypeExpr::Wrapper { name: "Vec".to_string(), inner: "String".to_string() };
    assert_eq!(ty.text(), "Vec<String>");
    let other = TypeExpr::Other { text: "std::path::PathBuf".to_string() };
    assert_eq!(other.text(), "std::path::PathBuf");
}
