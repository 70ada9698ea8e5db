use proc_macro2::TokenStream;
use tensorflow_op_codegen::attr_type::{AttrType, AttrTypePrimitive};
use tensorflow_op_codegen::tokens::{new_stream, render};

fn text_of(code: &str) -> String {
    code.parse::<TokenStream>().unwrap().to_string()
}

#[test]
fn parse_known_attribute_types() {
    let cases = [
        ("string", AttrType::Primitive(AttrTypePrimitive::String)),
        ("int", AttrType::Primitive(AttrTypePrimitive::Integer)),
        ("float", AttrType::Primitive(AttrTypePrimitive::Float)),
        ("bool", AttrType::Primitive(AttrTypePrimitive::Bool)),
        ("type", AttrType::Primitive(AttrTypePrimitive::Type)),
        ("shape", AttrType::Primitive(AttrTypePrimitive::Shape)),
        ("tensor", AttrType::Tensor),
        ("func", AttrType::Primitive(AttrTypePrimitive::String)),
        ("list(string)", AttrType::List(AttrTypePrimitive::String)),
        ("list(int)", AttrType::List(AttrTypePrimitive::Integer)),
        ("list(float)", AttrType::List(AttrTypePrimitive::Float)),
        ("list(bool)", AttrType::List(AttrTypePrimitive::Bool)),
        ("list(type)", AttrType::List(AttrTypePrimitive::Type)),
        ("list(shape)", AttrType::List(AttrTypePrimitive::Shape)),
        ("list(func)", AttrType::List(AttrTypePrimitive::String)),
    ];
    for (name, expected) in cases {
        assert_eq!(AttrType::parse(name), Some(expected));
        assert_eq!(AttrType::from_str(name), expected);
    }
}

#[test]
fn parse_unknown_attribute_type() {
    assert_eq!(AttrType::parse("list(tensor)"), None);
    assert_eq!(AttrType::parse(""), None);
    assert_eq!(AttrType::parse("Int"), None);
}

#[test]
fn attribute_type_tokens() {
    let cases = [
        (AttrType::Primitive(AttrTypePrimitive::String), "::std::string::String"),
        (AttrType::Primitive(AttrTypePrimitive::Float), "f32"),
        (AttrType::Primitive(AttrTypePrimitive::Integer), "i64"),
        (AttrType::Primitive(AttrTypePrimitive::Shape), "crate::Shape"),
        (AttrType::Primitive(AttrTypePrimitive::Type), "crate::DataType"),
        (AttrType::Primitive(AttrTypePrimitive::Bool), "bool"),
        (AttrType::List(AttrTypePrimitive::Integer), "::std::vec::Vec<i64>"),
        (AttrType::List(AttrTypePrimitive::String), "::std::vec::Vec< ::std::string::String>"),
        (AttrType::Tensor, "::std::boxed::Box<dyn crate::AnyTensor>"),
    ];
    for (t, expected) in cases {
        let mut ts = new_stream();
        t.to_tokens(&mut ts);
        assert_eq!(render(&ts), text_of(expected));
    }
}
