//! The parts of a TensorFlow operation definition that code generation reads.
use vstd::prelude::*;

verus! {

/// An input or output argument of an operation.
#[derive(Debug)]
pub struct ArgDef {
    /// The argument's name.
    pub name: String,
    /// For a list argument, the attribute that holds its length; empty for a
    /// single tensor.
    pub number_attr: String,
}

/// An attribute of an operation.
#[derive(Debug)]
pub struct AttrDef {
    /// The attribute's name.
    pub name: String,
    /// The attribute's type, such as `int` or `list(type)`.
    pub field_type: String,
}

/// An operation definition.
#[derive(Debug)]
pub struct OpDef {
    /// The operation's name, as TensorFlow knows it.
    pub name: String,
    /// The input arguments, in the order that TensorFlow numbers them.
    pub input_arg: Vec<ArgDef>,
    /// The output arguments, in the order that TensorFlow numbers them.
    pub output_arg: Vec<ArgDef>,
    /// The attributes.
    pub attr: Vec<AttrDef>,
}

} // verus!
