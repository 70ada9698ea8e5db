# tensorflow_op_codegen

Generates the Rust builders for TensorFlow operations: for each selected
operation definition, a builder struct with a setter per attribute, a
shorthand function, and an instance type whose methods give the operation's
input and output edges. The code is built as a `proc_macro2::TokenStream`,
and every step is verified with Verus against a specification of the tokens
it produces. The library is meant to run outside a procedural macro (in a
program or a build script), where `proc_macro2` uses its own token streams,
whose behaviour the contracts describe.

Layout:

- `src/tokens.rs`: the token model (`Tok`), identifier rules, and the calls
  into `proc_macro2` and `unicode-ident`.
- `src/text.rs`: snake case, decimal digits, string helpers.
- `src/model.rs`: the parts of an operation definition that are read.
- `src/attr_type.rs`: attribute types and their Rust types.
- `src/arguments.rs`: arguments, their length attributes and edge positions.
- `src/operation.rs`: independent attributes and input type parameters.
- `src/codegen.rs`: attribute setters and edge methods.
- `src/ops.rs`: the code of one operation, and the generated file.
- `app/`: the program that runs `protoc`, and the writer of generated code.
