use proc_macro2::TokenStream;
use tensorflow_op_codegen::arguments::Arguments;
use tensorflow_op_codegen::attr_type::{AttrType, AttrTypePrimitive};
use tensorflow_op_codegen::codegen::{buildfn_set_attr, inst_edge_method};
use tensorflow_op_codegen::model::{ArgDef, AttrDef, OpDef};
use tensorflow_op_codegen::operation::Operation;
use tensorflow_op_codegen::ops::{generate, is_selected_name, op_is_valid, per_op_code, CodegenError};
use tensorflow_op_codegen::tokens::{is_valid_ident, is_valid_raw_ident, render};

fn text_of(code: &str) -> String {
    code.parse::<TokenStream>().unwrap().to_string()
}

fn arg(name: &str, number_attr: &str) -> ArgDef {
    ArgDef { name: name.to_string(), number_attr: number_attr.to_string() }
}

fn attr(name: &str, field_type: &str) -> AttrDef {
    AttrDef { name: name.to_string(), field_type: field_type.to_string() }
}

fn add_op() -> OpDef {
    OpDef {
        name: "Add".to_string(),
        input_arg: vec![arg("x", ""), arg("y", "")],
        output_arg: vec![arg("z", "")],
        attr: vec![attr("T", "type")],
    }
}

const ADD_CODE: &str = r##"
#[doc = "Builder for the `"]
#[doc = "Add"]
#[doc = " operation."]
#[derive(::std::fmt::Debug, ::std::default::Default)]
pub struct r#Add {
    control_inputs: ::std::vec::Vec<crate::Operation> ,
    r#T: ::std::option::Option<crate::DataType> ,
}
impl r#Add {
    #[doc = r" just no docs"]
    pub fn new() -> Self {
        Self::default()
    }
    #[doc = "Sets the `"]
    #[doc = "Add"]
    #[doc = "` attribute."]
    pub fn r#T<T: std::convert::Into<crate::DataType>>(mut self, value: T) -> Self {
        self.r#T = ::std::option::Option::Some(value.into());
        self
    }
    #[doc = r" Adds a control input."]
    pub fn add_control_input(mut self, op: crate::Operation) -> Self {
        self.control_inputs.push(op);
        self
    }
    #[doc = "Builds the `"]
    #[doc = "Add"]
    #[doc = "` operation."]
    pub fn build<O0: ::std::convert::Into<crate::Output> , O1: ::std::convert::Into<crate::Output> >(&self, r#x: O0, r#y: O1, scope: &mut crate::Scope) -> crate::Result<crate::Operation> {
        self.build_impl(r#x.into(), r#y.into(), scope)
    }
    fn build_impl(&self, r#x: crate::Output, r#y: crate::Output, scope: &mut crate::Scope) -> crate::Result<crate::Operation> {
        scope.new_operation("Add", |builder| {
            builder.add_input(&r#x);
            builder.add_input(&r#y);
            for op in &self.control_inputs {
                builder.add_control_input(op);
            }
            if let ::std::option::Option::Some(value) = &self.r#T {
                builder.set_attr_type("T", *value)? ;
            }
            ::std::result::Result::Ok(())
        })
    }
    #[doc = "Builds a new instance of '"]
    #[doc = "Add"]
    #[doc = "' Operation with it's Outputs and Inputs exposed as methods."]
    pub fn build_instance(&self, r#x: crate::Output, r#y: crate::Output, scope: &mut crate::Scope) -> crate::Result<AddInst> {
        let op = scope.new_operation("Add", |builder| {
            builder.add_input(&r#x);
            builder.add_input(&r#y);
            for op in &self.control_inputs {
                builder.add_control_input(op);
            }
            if let ::std::option::Option::Some(value) = &self.r#T {
                builder.set_attr_type("T", *value)? ;
            }
            Ok(())
        })? ;
        Ok(AddInst { op })
    }
}
#[doc = "Shorthand for `"]
#[doc = stringify!(r#Add)]
#[doc = "::new().build("]
#[doc = stringify!(r#x)]
#[doc = ","]
#[doc = stringify!(r#y)]
#[doc = ","]
#[doc = stringify!(scope)]
#[doc = ")`."]
pub fn r#add<O0: ::std::convert::Into<crate::Output> , O1: ::std::convert::Into<crate::Output> >(r#x: O0, r#y: O1, scope: &mut crate::Scope) -> crate::Result<crate::Operation> {
    r#Add::new().build(r#x.into(), r#y.into(), scope)
}
#[doc = "An instance of'"]
#[doc = "Add"]
#[doc = "' Operation with it's Outputs and Inputs exposed as methods."]
#[derive(Debug, Clone)]
pub struct AddInst<O> {
    #[doc = "An instance of a fully built "]
    #[doc = "Add"]
    #[doc = " Operation in a Tensorflow graph."]
    pub op: O
}
impl<O: Clone> AddInst<O> {
    #[doc = "Returns the '"]
    #[doc = stringify!(r#z)]
    #[doc = "' "]
    #[doc = stringify!(Output)]
    #[doc = " of this "]
    #[doc = "Add"]
    #[doc = " operation."]
    pub fn r#z(&self) -> crate::Result<crate::Output> {
        let offset = ((0usize as i32)) as i32;
        Ok(O::Output(&self.op, offset))
    }
    #[doc = "Returns the '"]
    #[doc = stringify!(r#x)]
    #[doc = "' "]
    #[doc = stringify!(Input)]
    #[doc = " of this "]
    #[doc = "Add"]
    #[doc = " operation."]
    pub fn r#x(&self) -> crate::Result<crate::Input> {
        let offset = ((0usize as i32)) as i32;
        Ok(O::Input(&self.op, offset))
    }
    #[doc = "Returns the '"]
    #[doc = stringify!(r#y)]
    #[doc = "' "]
    #[doc = stringify!(Input)]
    #[doc = " of this "]
    #[doc = "Add"]
    #[doc = " operation."]
    pub fn r#y(&self) -> crate::Result<crate::Input> {
        let offset = ((1usize as i32)) as i32;
        Ok(O::Input(&self.op, offset))
    }
}
impl<O> From<AddInst<O>> for O {
    fn from(inst: AddInst) -> crate::Operation {
        inst.op
    }
}
"##;

#[test]
fn code_of_add() {
    let op = add_op();
    assert!(op_is_valid(&op));
    let code = per_op_code(&Operation(&op));
    assert_eq!(render(&code), text_of(ADD_CODE));
}

#[test]
fn set_attr_code_by_type() {
    let cases = [
        (AttrType::Primitive(AttrTypePrimitive::Type), "set_attr_type", true),
        (AttrType::Primitive(AttrTypePrimitive::Bool), "set_attr_bool", true),
        (AttrType::Primitive(AttrTypePrimitive::Float), "set_attr_float", true),
        (AttrType::Primitive(AttrTypePrimitive::Integer), "set_attr_int", true),
        (AttrType::Primitive(AttrTypePrimitive::String), "set_attr_string", false),
        (AttrType::Primitive(AttrTypePrimitive::Shape), "set_attr_shape", false),
        (AttrType::List(AttrTypePrimitive::String), "set_attr_string_list", false),
        (AttrType::List(AttrTypePrimitive::Float), "set_attr_float_list", false),
        (AttrType::List(AttrTypePrimitive::Integer), "set_attr_int_list", false),
        (AttrType::List(AttrTypePrimitive::Type), "set_attr_type_list", false),
        (AttrType::List(AttrTypePrimitive::Shape), "set_attr_shape_list", false),
        (AttrType::Tensor, "set_attr_any_tensor", false),
    ];
    for (t, method, deref) in cases {
        let value = if deref { "*value" } else { "value" };
        let expected = format!(
            r#"if let ::std::option::Option::Some(value) = &self.r#dtype {{ builder.{}("dtype", {})? ; }}"#,
            method, value
        );
        let code = buildfn_set_attr("dtype", true, &t, "dtype", "builder", false);
        assert_eq!(render(&code), text_of(&expected));
    }
}

#[test]
fn set_attr_code_with_plain_names() {
    let cases = [
        ("dtype", AttrType::Primitive(AttrTypePrimitive::Type), "T", "builder",
            r#"if let ::std::option::Option::Some(value) = &self.dtype { builder.set_attr_type("T", *value)? ; }"#),
        ("container", AttrType::Primitive(AttrTypePrimitive::String), "container", "nd",
            r#"if let ::std::option::Option::Some(value) = &self.container { nd.set_attr_string("container", value)? ; }"#),
        ("ksize", AttrType::List(AttrTypePrimitive::Integer), "ksize", "builder",
            r#"if let ::std::option::Option::Some(value) = &self.ksize { builder.set_attr_int_list("ksize", value)? ; }"#),
        ("t", AttrType::Tensor, "value", "builder",
            r#"if let ::std::option::Option::Some(value) = &self.t { builder.set_attr_any_tensor("value", value)? ; }"#),
    ];
    for (name, t, c_name, node, expected) in cases {
        let code = buildfn_set_attr(name, false, &t, c_name, node, false);
        assert_eq!(render(&code), text_of(expected));
    }
    let code = buildfn_set_attr("T", true, &AttrType::Primitive(AttrTypePrimitive::Bool), "T", "fn", true);
    assert_eq!(
        render(&code),
        text_of(r#"if let ::std::option::Option::Some(value) = &self.r#T { r#fn.set_attr_bool("T", *value)? ; }"#)
    );
}

#[test]
fn list_edge_method() {
    let args = vec![arg("a", ""), arg("values", "N")];
    let previous = Arguments(&args).previous_arguments();
    let code = inst_edge_method("values", true, &previous[1], Some("N"), "Output", false, "Pack");
    let expected = r##"
        #[doc = "Returns a Vector of "]
        #[doc = stringify!(r#values)]
        #[doc = " for '"]
        #[doc = stringify!(r#values)]
        #[doc = "' "]
        #[doc = stringify!(Output)]
        #[doc = " of this "]
        #[doc = "Pack"]
        #[doc = " operation."]
        pub fn r#values(&self) -> crate::Result<Vec<crate::Output>>{
            let dynamic_offset = ((1usize as i32)) as i32;
            let mut ret = vec![];
            for i in 0..self.op.get_attr_int("N")? as i32 {
                ret.push(O::Output(&self.op, dynamic_offset + i));
            }
            Ok(ret)
        }
    "##;
    assert_eq!(render(&code), text_of(expected));
}

#[test]
fn single_edge_method_with_plain_name() {
    let previous = tensorflow_op_codegen::arguments::PreviousArguments::default();
    let code = inst_edge_method("z", false, &previous, None, "Output", false, "Add");
    let expected = r##"
        #[doc = "Returns the '"]
        #[doc = stringify!(z)]
        #[doc = "' "]
        #[doc = stringify!(Output)]
        #[doc = " of this "]
        #[doc = "Add"]
        #[doc = " operation."]
        pub fn z(&self) -> crate::Result<crate::Output> {
            let offset = ((0usize as i32)) as i32;
            Ok(O::Output(&self.op, offset))
        }
    "##;
    assert_eq!(render(&code), text_of(expected));
}

#[test]
fn list_edge_method_with_raw_edge_type() {
    let args = vec![arg("a", "N")];
    let previous = Arguments(&args).previous_arguments();
    let code = inst_edge_method("a", false, &previous[0], Some("N"), "Edge", true, "Op");
    let expected = r##"
        #[doc = "Returns a Vector of "]
        #[doc = stringify!(a)]
        #[doc = " for '"]
        #[doc = stringify!(a)]
        #[doc = "' "]
        #[doc = stringify!(r#Edge)]
        #[doc = " of this "]
        #[doc = "Op"]
        #[doc = " operation."]
        pub fn a(&self) -> crate::Result<Vec<crate::r#Edge>>{
            let dynamic_offset = ((0usize as i32)) as i32;
            let mut ret = vec![];
            for i in 0..self.op.get_attr_int("N")? as i32 {
                ret.push(O::r#Edge(&self.op, dynamic_offset + i));
            }
            Ok(ret)
        }
    "##;
    assert_eq!(render(&code), text_of(expected));
}

#[test]
fn generate_only_selected_operations() {
    let mut other = add_op();
    other.name = "Foo".to_string();
    let ops = vec![other, add_op()];
    let text = generate(&ops).unwrap();
    let header = "// DO NOT EDIT. Generated by tensorflow-op-codegen/src/main.rs.\n\n";
    assert_eq!(text, format!("{}{}\n", header, render(&per_op_code(&Operation(&ops[1])))));
}

#[test]
fn generate_with_no_selected_operation() {
    let mut other = add_op();
    other.name = "Foo".to_string();
    let text = generate(&vec![other]).unwrap();
    assert_eq!(text, "// DO NOT EDIT. Generated by tensorflow-op-codegen/src/main.rs.\n\n");
}

#[test]
fn generate_rejects_invalid_selected_operation() {
    let mut bad = add_op();
    bad.attr = vec![attr("T", "list(bool)")];
    match generate(&vec![bad]) {
        Err(CodegenError::InvalidOperation(name)) => assert_eq!(name, "Add"),
        Ok(_) => panic!("expected an error"),
    }
    let mut unknown = add_op();
    unknown.attr = vec![attr("T", "mystery")];
    assert!(!op_is_valid(&unknown));
    let mut reserved = add_op();
    reserved.input_arg = vec![arg("Self", "")];
    assert!(!op_is_valid(&reserved));
}

#[test]
fn generate_ignores_invalid_unselected_operation() {
    let mut bad = add_op();
    bad.name = "Bad Name".to_string();
    assert!(!op_is_valid(&bad));
    assert!(generate(&vec![bad, add_op()]).is_ok());
}

#[test]
fn length_attributes_need_no_setter() {
    let op = OpDef {
        name: "ConcatV2".to_string(),
        input_arg: vec![arg("values", "N"), arg("axis", "")],
        output_arg: vec![arg("output", "")],
        attr: vec![attr("N", "list(bool)"), attr("T", "type")],
    };
    assert!(op_is_valid(&op));
    let code = render(&per_op_code(&Operation(&op)));
    assert!(code.contains(&text_of(r#"builder.set_attr_int("N", r#values.len() as i64)? ;"#)));
    assert!(code.contains(&text_of("builder.add_input_list(&r#values);")));
}

#[test]
fn selected_operation_names() {
    for name in ["Placeholder", "Add", "Sub", "Mul", "Assign", "NoOp", "ApplyGradientDescent",
        "RandomStandardNormal", "Tanh", "MatMul", "ZerosLike", "ApplyAdadelta", "ConcatV2"] {
        assert!(is_selected_name(name));
    }
    assert!(!is_selected_name("Conv2D"));
    assert!(!is_selected_name("add"));
}

#[test]
fn identifier_names() {
    assert!(is_valid_ident("builder"));
    assert!(is_valid_ident("_x1"));
    assert!(is_valid_ident("self"));
    assert!(is_valid_ident("ä"));
    assert!(!is_valid_ident(""));
    assert!(!is_valid_ident("1x"));
    assert!(!is_valid_ident("a-b"));
    assert!(is_valid_raw_ident("fn"));
    assert!(!is_valid_raw_ident("self"));
    assert!(!is_valid_raw_ident("Self"));
    assert!(!is_valid_raw_ident("super"));
    assert!(!is_valid_raw_ident("crate"));
    assert!(!is_valid_raw_ident("_"));
    assert!(is_valid_raw_ident("_a"));
}

#[test]
fn unselected_operations_do_not_change_the_code() {
    let mut other = add_op();
    other.name = "Foo".to_string();
    let with_other = generate(&vec![add_op(), other]).unwrap();
    let without = generate(&vec![add_op()]).unwrap();
    assert_eq!(with_other, without);
}

#[test]
fn code_of_two_lists_is_joined() {
    let header = "// DO NOT EDIT. Generated by tensorflow-op-codegen/src/main.rs.\n\n";
    let mut mul = add_op();
    mul.name = "Mul".to_string();
    let first = generate(&vec![add_op()]).unwrap();
    let second = generate(&vec![mul]).unwrap();
    let mut mul_again = add_op();
    mul_again.name = "Mul".to_string();
    let both = generate(&vec![add_op(), mul_again]).unwrap();
    assert_eq!(both, format!("{}{}", first, &second[header.len()..]));
}

#[test]
fn argument_identifiers_are_unique() {
    let mut clash = add_op();
    clash.input_arg = vec![arg("fooBar", ""), arg("foo_bar", "")];
    assert!(!op_is_valid(&clash));
    match generate(&vec![clash]) {
        Err(CodegenError::InvalidOperation(name)) => assert_eq!(name, "Add"),
        Ok(_) => panic!("expected an error"),
    }
    let mut outputs = add_op();
    outputs.output_arg = vec![arg("Z", ""), arg("z", "")];
    assert!(!op_is_valid(&outputs));
    // An input and an output may share a name.
    let mut shared = add_op();
    shared.output_arg = vec![arg("x", "")];
    assert!(op_is_valid(&shared));
}
