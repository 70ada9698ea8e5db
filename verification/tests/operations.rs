use tensorflow_op_codegen::attr_type::{AttrType, AttrTypePrimitive};
use tensorflow_op_codegen::model::{ArgDef, AttrDef, OpDef};
use tensorflow_op_codegen::operation::Operation;

fn arg(name: &str, number_attr: &str) -> ArgDef {
    ArgDef { name: name.to_string(), number_attr: number_attr.to_string() }
}

fn attr(name: &str, field_type: &str) -> AttrDef {
    AttrDef { name: name.to_string(), field_type: field_type.to_string() }
}

fn concat() -> OpDef {
    OpDef {
        name: "ConcatV2".to_string(),
        input_arg: vec![arg("values", "N"), arg("axis", "")],
        output_arg: vec![arg("output", "")],
        attr: vec![attr("N", "int"), attr("T", "type"), attr("Tidx", "type")],
    }
}

#[test]
fn operation_name() {
    let op = concat();
    assert_eq!(Operation(&op).c_name(), "ConcatV2");
}

#[test]
fn independent_attributes_skip_length_attributes() {
    let op = concat();
    let attrs = Operation(&op).independent_attrs();
    assert_eq!(attrs.name(), vec!["T", "Tidx"]);
    assert_eq!(attrs.c_name(), vec!["T", "Tidx"]);
    let names: Vec<&str> = attrs.filtered().iter().map(|a| a.name.as_str()).collect();
    assert_eq!(names, vec!["T", "Tidx"]);
}

#[test]
fn independent_attributes_skip_output_length_attributes() {
    let op = OpDef {
        name: "Split".to_string(),
        input_arg: vec![arg("value", "")],
        output_arg: vec![arg("output", "num_split")],
        attr: vec![attr("num_split", "int"), attr("T", "type")],
    };
    assert_eq!(Operation(&op).independent_attrs().name(), vec!["T"]);
}

#[test]
fn input_aliases_are_numbered() {
    let op = concat();
    assert_eq!(Operation(&op).input_aliases(), vec!["O0", "O1"]);
    let many = OpDef {
        name: "AddN".to_string(),
        input_arg: (0..12).map(|i| arg(&format!("x{}", i), "")).collect(),
        output_arg: vec![],
        attr: vec![],
    };
    let aliases = Operation(&many).input_aliases();
    assert_eq!(aliases[10], "O10");
    assert_eq!(aliases[11], "O11");
}

#[test]
fn inputs_and_outputs() {
    let op = concat();
    assert_eq!(Operation(&op).input().0.len(), 2);
    assert_eq!(Operation(&op).output().0.len(), 1);
    assert_eq!(Operation(&op).output().rust_field(), vec!["output"]);
}

#[test]
fn attribute_types_of_independent_attributes() {
    let op = concat();
    assert_eq!(
        Operation(&op).independent_attrs().types(),
        vec![AttrType::Primitive(AttrTypePrimitive::Type), AttrType::Primitive(AttrTypePrimitive::Type)]
    );
}
