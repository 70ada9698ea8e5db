//! Generates Rust bindings for TensorFlow operations from their definitions.
pub mod arguments;
pub mod attr_type;
pub mod codegen;
pub mod model;
pub mod operation;
pub mod ops;
pub mod text;
pub mod tokens;
