[package]
name = "tensorflow_op_codegen"
version = "0.1.0"
edition = "2021"
publish = false

[dependencies]
proc-macro2 = "=1.0.107"
quote = "=1.0.47"
protobuf = "=2.28.0"
protoc-rust = "=2.28.0"
unicode-ident = "=1.0.27"
