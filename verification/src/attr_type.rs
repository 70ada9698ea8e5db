//! The types that an operation's attributes can have, and the Rust types
//! that stand for them in generated code.
use vstd::prelude::*;
use proc_macro2::TokenStream;
use crate::text::str_eq;
use crate::tokens::{
    crate_path, ident, punct, push_crate_path, push_ident, push_punct, push_std_path, std_path,
    stream_tokens, Tok,
};

verus! {

/// The kinds of single attribute values.
#[derive(Clone, Copy, Debug, PartialEq, Eq, Structural)]
pub enum AttrTypePrimitive {
    String,
    Float,
    Integer,
    Shape,
    Type,
    Bool,
}

/// An attribute type: a tensor, a list of values, or a single value.
#[derive(Clone, Copy, Debug, PartialEq, Eq, Structural)]
pub enum AttrType {
    Tensor,
    List(AttrTypePrimitive),
    Primitive(AttrTypePrimitive),
}

/// The attribute type that a type name in an operation definition stands
/// for; `None` for a name that is not known.
pub open spec fn spec_attr_type(name: Seq<char>) -> Option<AttrType> {
    if name == "string"@ {
        Some(AttrType::Primitive(AttrTypePrimitive::String))
    } else if name == "int"@ {
        Some(AttrType::Primitive(AttrTypePrimitive::Integer))
    } else if name == "float"@ {
        Some(AttrType::Primitive(AttrTypePrimitive::Float))
    } else if name == "bool"@ {
        Some(AttrType::Primitive(AttrTypePrimitive::Bool))
    } else if name == "type"@ {
        Some(AttrType::Primitive(AttrTypePrimitive::Type))
    } else if name == "shape"@ {
        Some(AttrType::Primitive(AttrTypePrimitive::Shape))
    } else if name == "tensor"@ {
        Some(AttrType::Tensor)
    } else if name == "func"@ {
        Some(AttrType::Primitive(AttrTypePrimitive::String))
    } else if name == "list(string)"@ {
        Some(AttrType::List(AttrTypePrimitive::String))
    } else if name == "list(int)"@ {
        Some(AttrType::List(AttrTypePrimitive::Integer))
    } else if name == "list(float)"@ {
        Some(AttrType::List(AttrTypePrimitive::Float))
    } else if name == "list(bool)"@ {
        Some(AttrType::List(AttrTypePrimitive::Bool))
    } else if name == "list(type)"@ {
        Some(AttrType::List(AttrTypePrimitive::Type))
    } else if name == "list(shape)"@ {
        Some(AttrType::List(AttrTypePrimitive::Shape))
    } else if name == "list(func)"@ {
        Some(AttrType::List(AttrTypePrimitive::String))
    } else {
        None
    }
}

/// The tokens of the Rust type that stands for a single attribute value.
pub open spec fn primitive_tokens(p: AttrTypePrimitive) -> Seq<Tok> {
    match p {
        AttrTypePrimitive::String => std_path("string"@, "String"@),
        AttrTypePrimitive::Float => seq![ident("f32"@)],
        AttrTypePrimitive::Integer => seq![ident("i64"@)],
        AttrTypePrimitive::Shape => crate_path("Shape"@),
        AttrTypePrimitive::Type => crate_path("DataType"@),
        AttrTypePrimitive::Bool => seq![ident("bool"@)],
    }
}

/// The tokens of the Rust type that stands for an attribute value.
pub open spec fn attr_type_tokens(t: AttrType) -> Seq<Tok> {
    match t {
        AttrType::List(p) => std_path("vec"@, "Vec"@) + seq![punct('<')] + primitive_tokens(p) + seq![
            punct('>'),
        ],
        AttrType::Primitive(p) => primitive_tokens(p),
        AttrType::Tensor => std_path("boxed"@, "Box"@) + seq![punct('<'), ident("dyn"@)] + crate_path(
            "AnyTensor"@,
        ) + seq![punct('>')],
    }
}

impl AttrTypePrimitive {
    /// Appends the Rust type that stands for a value of this kind.
    pub fn to_tokens(&self, tokens: &mut TokenStream)
        ensures
            stream_tokens(*final(tokens)) == stream_tokens(*old(tokens)) + primitive_tokens(*self),
    {
        proof {
            reveal_strlit("string");
            reveal_strlit("String");
            reveal_strlit("f32");
            reveal_strlit("i64");
            reveal_strlit("Shape");
            reveal_strlit("DataType");
            reveal_strlit("bool");
        }
        match self {
            AttrTypePrimitive::String => push_std_path(tokens, "string", "String"),
            AttrTypePrimitive::Float => push_ident(tokens, "f32"),
            AttrTypePrimitive::Integer => push_ident(tokens, "i64"),
            AttrTypePrimitive::Shape => push_crate_path(tokens, "Shape"),
            AttrTypePrimitive::Type => push_crate_path(tokens, "DataType"),
            AttrTypePrimitive::Bool => push_ident(tokens, "bool"),
        }
    }
}

impl AttrType {
    /// The attribute type that `attr` names, or `None` for a name that is
    /// not known.
    pub fn parse(attr: &str) -> (r: Option<AttrType>)
        ensures
            r == spec_attr_type(attr@),
    {
        if str_eq(attr, "string") {
            Some(AttrType::Primitive(AttrTypePrimitive::String))
        } else if str_eq(attr, "int") {
            Some(AttrType::Primitive(AttrTypePrimitive::Integer))
        } else if str_eq(attr, "float") {
            Some(AttrType::Primitive(AttrTypePrimitive::Float))
        } else if str_eq(attr, "bool") {
            Some(AttrType::Primitive(AttrTypePrimitive::Bool))
        } else if str_eq(attr, "type") {
            Some(AttrType::Primitive(AttrTypePrimitive::Type))
        } else if str_eq(attr, "shape") {
            Some(AttrType::Primitive(AttrTypePrimitive::Shape))
        } else if str_eq(attr, "tensor") {
            Some(AttrType::Tensor)
        } else if str_eq(attr, "func") {
            Some(AttrType::Primitive(AttrTypePrimitive::String))
        } else if str_eq(attr, "list(string)") {
            Some(AttrType::List(AttrTypePrimitive::String))
        } else if str_eq(attr, "list(int)") {
            Some(AttrType::List(AttrTypePrimitive::Integer))
        } else if str_eq(attr, "list(float)") {
            Some(AttrType::List(AttrTypePrimitive::Float))
        } else if str_eq(attr, "list(bool)") {
            Some(AttrType::List(AttrTypePrimitive::Bool))
        } else if str_eq(attr, "list(type)") {
            Some(AttrType::List(AttrTypePrimitive::Type))
        } else if str_eq(attr, "list(shape)") {
            Some(AttrType::List(AttrTypePrimitive::Shape))
        } else if str_eq(attr, "list(func)") {
            Some(AttrType::List(AttrTypePrimitive::String))
        } else {
            None
        }
    }

    /// The attribute type that `attr` names; the name must be a known one.
    pub fn from_str(attr: &str) -> (r: AttrType)
        requires
            spec_attr_type(attr@) is Some,
        ensures
            Some(r) == spec_attr_type(attr@),
    {
        AttrType::parse(attr).unwrap()
    }

    /// Appends the Rust type that stands for a value of this type.
    pub fn to_tokens(&self, tokens: &mut TokenStream)
        ensures
            stream_tokens(*final(tokens)) == stream_tokens(*old(tokens)) + attr_type_tokens(*self),
    {
        proof {
            reveal_strlit("vec");
            reveal_strlit("Vec");
            reveal_strlit("boxed");
            reveal_strlit("Box");
            reveal_strlit("dyn");
            reveal_strlit("AnyTensor");
        }
        match self {
            AttrType::List(p) => {
                push_std_path(tokens, "vec", "Vec");
                push_punct(tokens, '<', false);
                p.to_tokens(tokens);
                push_punct(tokens, '>', false);
            },
            AttrType::Primitive(p) => p.to_tokens(tokens),
            AttrType::Tensor => {
                push_std_path(tokens, "boxed", "Box");
                push_punct(tokens, '<', false);
                push_ident(tokens, "dyn");
                push_crate_path(tokens, "AnyTensor");
                push_punct(tokens, '>', false);
            },
        }
    }
}

/// The Rust type of a list attribute is `::std::vec::Vec` of the Rust type
/// of a single value of its kind.
pub proof fn law_list_type_is_vec_of_element(p: AttrTypePrimitive)
    ensures
        attr_type_tokens(AttrType::List(p)) == std_path("vec"@, "Vec"@) + seq![punct('<')]
            + attr_type_tokens(AttrType::Primitive(p)) + seq![punct('>')],
{
}

proof fn lemma_primitive_tokens_injective(p: AttrTypePrimitive, q: AttrTypePrimitive)
    requires
        primitive_tokens(p) == primitive_tokens(q),
    ensures
        p == q,
{
    reveal_strlit("string");
    reveal_strlit("String");
    reveal_strlit("f32");
    reveal_strlit("i64");
    reveal_strlit("Shape");
    reveal_strlit("DataType");
    reveal_strlit("bool");
    let tp = primitive_tokens(p);
    let tq = primitive_tokens(q);
    assert(tp.len() == tq.len());
    if tp.len() == 1 {
        assert(tp[0]->name[0] == tq[0]->name[0]);
    }
    if tp.len() == 4 {
        assert(tp[3]->name[0] == tq[3]->name[0]);
    }
}

/// Different attribute types get different Rust types.
pub proof fn law_attr_type_tokens_injective(a: AttrType, b: AttrType)
    requires
        attr_type_tokens(a) == attr_type_tokens(b),
    ensures
        a == b,
{
    reveal_strlit("vec");
    reveal_strlit("boxed");
    let ta = attr_type_tokens(a);
    let tb = attr_type_tokens(b);
    assert(ta.len() == tb.len());
    if ta.len() >= 12 {
        assert(ta[5]->name[0] == tb[5]->name[0]);
    }
    match (a, b) {
        (AttrType::List(p), AttrType::List(q)) => {
            assert(primitive_tokens(p) =~= ta.subrange(10, ta.len() - 1));
            assert(primitive_tokens(q) =~= tb.subrange(10, tb.len() - 1));
            lemma_primitive_tokens_injective(p, q);
        },
        (AttrType::Primitive(p), AttrType::Primitive(q)) => {
            lemma_primitive_tokens_injective(p, q);
        },
        (AttrType::Tensor, AttrType::Tensor) => {},
        (AttrType::Primitive(p), _) => {
            assert(primitive_tokens(p).len() <= 9);
        },
        (_, AttrType::Primitive(q)) => {
            assert(primitive_tokens(q).len() <= 9);
        },
        _ => {},
    }
}

} // verus!
