//! Code for the methods that set an attribute and that give an edge.
use vstd::prelude::*;
use proc_macro2::TokenStream;
use crate::arguments::{edge_index_tokens, PreviousArguments};
use crate::attr_type::{AttrType, AttrTypePrimitive};
use crate::tokens::{
    colon2, crate_path, doc_attr, doc_stringify, dot2, group, ident, name_tok, new_stream, punct,
    push_colon2, push_crate_path, push_doc, push_doc_stringify, push_dot2, push_group,
    push_ident, push_name, push_punct, push_rarrow, push_shr, push_std_path, push_str_lit,
    push_unsuffixed_lit, rarrow, shr, std_path, str_lit, stream_tokens, unsuffixed_lit,
    valid_ident, valid_name, Delim, Tok,
};

verus! {

/// The builder method that sets an attribute of a type, and whether the
/// value is passed by dereference; `None` for a list of booleans, which has
/// no setter.
pub open spec fn setter_method(t: AttrType) -> Option<(Seq<char>, bool)> {
    match t {
        AttrType::Primitive(AttrTypePrimitive::String) => Some(("set_attr_string"@, false)),
        AttrType::Primitive(AttrTypePrimitive::Type) => Some(("set_attr_type"@, true)),
        AttrType::Primitive(AttrTypePrimitive::Bool) => Some(("set_attr_bool"@, true)),
        AttrType::Primitive(AttrTypePrimitive::Float) => Some(("set_attr_float"@, true)),
        AttrType::Primitive(AttrTypePrimitive::Integer) => Some(("set_attr_int"@, true)),
        AttrType::Primitive(AttrTypePrimitive::Shape) => Some(("set_attr_shape"@, false)),
        AttrType::List(AttrTypePrimitive::String) => Some(("set_attr_string_list"@, false)),
        AttrType::List(AttrTypePrimitive::Float) => Some(("set_attr_float_list"@, false)),
        AttrType::List(AttrTypePrimitive::Integer) => Some(("set_attr_int_list"@, false)),
        AttrType::List(AttrTypePrimitive::Type) => Some(("set_attr_type_list"@, false)),
        AttrType::List(AttrTypePrimitive::Shape) => Some(("set_attr_shape_list"@, false)),
        AttrType::Tensor => Some(("set_attr_any_tensor"@, false)),
        AttrType::List(AttrTypePrimitive::Bool) => None,
    }
}

/// `node.method("c_name", value)?;`, with `*value` when the setter takes the
/// value by dereference; `node` is the identifier token of the description.
pub open spec fn setter_call(method: Seq<char>, deref: bool, c_name: Seq<char>, node: Tok) -> Seq<Tok> {
    let value = if deref {
        seq![punct('*'), ident("value"@)]
    } else {
        seq![ident("value"@)]
    };
    seq![
        node,
        punct('.'),
        ident(method),
        group(Delim::Parenthesis, seq![str_lit(c_name), punct(',')] + value),
        punct('?'),
        punct(';'),
    ]
}

/// `if let ::std::option::Option::Some(value) = &self.name { setter }`:
/// sets the attribute when the builder holds a value for it; `name` and
/// `node` are identifier tokens, each raw or not.
pub open spec fn set_attr_tokens(name: Tok, t: AttrType, c_name: Seq<char>, node: Tok) -> Seq<Tok> {
    let (method, deref) = setter_method(t).unwrap();
    seq![ident("if"@), ident("let"@)] + std_path("option"@, "Option"@) + colon2() + seq![
        ident("Some"@),
        group(Delim::Parenthesis, seq![ident("value"@)]),
        punct('='),
        punct('&'),
        ident("self"@),
        punct('.'),
        name,
        group(Delim::Brace, setter_call(method, deref, c_name, node)),
    ]
}

/// The setter of an attribute type, as in `setter_method`.
pub fn setter_of(attr_type: &AttrType) -> (r: Option<(&'static str, bool)>)
    ensures
        match r {
            Some((m, d)) => setter_method(*attr_type) == Some((m@, d)),
            None => setter_method(*attr_type) is None,
        },
{
    match attr_type {
        AttrType::Primitive(AttrTypePrimitive::String) => Some(("set_attr_string", false)),
        AttrType::Primitive(AttrTypePrimitive::Type) => Some(("set_attr_type", true)),
        AttrType::Primitive(AttrTypePrimitive::Bool) => Some(("set_attr_bool", true)),
        AttrType::Primitive(AttrTypePrimitive::Float) => Some(("set_attr_float", true)),
        AttrType::Primitive(AttrTypePrimitive::Integer) => Some(("set_attr_int", true)),
        AttrType::Primitive(AttrTypePrimitive::Shape) => Some(("set_attr_shape", false)),
        AttrType::List(AttrTypePrimitive::String) => Some(("set_attr_string_list", false)),
        AttrType::List(AttrTypePrimitive::Float) => Some(("set_attr_float_list", false)),
        AttrType::List(AttrTypePrimitive::Integer) => Some(("set_attr_int_list", false)),
        AttrType::List(AttrTypePrimitive::Type) => Some(("set_attr_type_list", false)),
        AttrType::List(AttrTypePrimitive::Shape) => Some(("set_attr_shape_list", false)),
        AttrType::Tensor => Some(("set_attr_any_tensor", false)),
        AttrType::List(AttrTypePrimitive::Bool) => None,
    }
}

/// Whether every method name that `setter` gives is a valid identifier.
proof fn lemma_setter_names_valid(t: AttrType)
    ensures
        setter_method(t) matches Some((m, d)) ==> valid_ident(m),
{
    reveal_strlit("set_attr_string");
    reveal_strlit("set_attr_type");
    reveal_strlit("set_attr_bool");
    reveal_strlit("set_attr_float");
    reveal_strlit("set_attr_int");
    reveal_strlit("set_attr_shape");
    reveal_strlit("set_attr_string_list");
    reveal_strlit("set_attr_float_list");
    reveal_strlit("set_attr_int_list");
    reveal_strlit("set_attr_type_list");
    reveal_strlit("set_attr_shape_list");
    reveal_strlit("set_attr_any_tensor");
}

/// The code that copies the attribute `rust_name` of the builder, when it is
/// set, into the operation description `node_var`; each of the two names is
/// written as a raw identifier when its flag says so. An attribute type with
/// no setter (a list of booleans) is left out by `requires`.
pub fn buildfn_set_attr(
    rust_name: &str,
    rust_raw: bool,
    attr_type: &AttrType,
    c_name: &str,
    node_var: &str,
    node_raw: bool,
) -> (r: TokenStream)
    requires
        valid_name(rust_name@, rust_raw),
        valid_name(node_var@, node_raw),
        setter_method(*attr_type) is Some,
    ensures
        stream_tokens(r) == set_attr_tokens(
            name_tok(rust_name@, rust_raw),
            *attr_type,
            c_name@,
            name_tok(node_var@, node_raw),
        ),
{
    proof {
        reveal_strlit("value");
        reveal_strlit("if");
        reveal_strlit("let");
        reveal_strlit("option");
        reveal_strlit("Option");
        reveal_strlit("Some");
        reveal_strlit("self");
        lemma_setter_names_valid(*attr_type);
    }
    let (method, deref) = setter_of(attr_type).unwrap();
    let mut args = new_stream();
    push_str_lit(&mut args, c_name);
    push_punct(&mut args, ',', false);
    if deref {
        push_punct(&mut args, '*', false);
    }
    push_ident(&mut args, "value");
    let mut setter_tokens = new_stream();
    push_name(&mut setter_tokens, node_var, node_raw);
    push_punct(&mut setter_tokens, '.', false);
    push_ident(&mut setter_tokens, method);
    let ghost value = if deref {
        seq![punct('*'), ident("value"@)]
    } else {
        seq![ident("value"@)]
    };
    assert(stream_tokens(args) =~= seq![str_lit(c_name@), punct(',')] + value);
    push_group(&mut setter_tokens, Delim::Parenthesis, args);
    push_punct(&mut setter_tokens, '?', false);
    push_punct(&mut setter_tokens, ';', false);
    let ghost node = name_tok(node_var@, node_raw);
    assert(stream_tokens(setter_tokens) =~= setter_call(method@, deref, c_name@, node));

    let mut r = new_stream();
    push_ident(&mut r, "if");
    push_ident(&mut r, "let");
    push_std_path(&mut r, "option", "Option");
    push_colon2(&mut r);
    push_ident(&mut r, "Some");
    let mut bound = new_stream();
    push_ident(&mut bound, "value");
    assert(stream_tokens(bound) =~= seq![ident("value"@)]);
    push_group(&mut r, Delim::Parenthesis, bound);
    push_punct(&mut r, '=', false);
    push_punct(&mut r, '&', false);
    push_ident(&mut r, "self");
    push_punct(&mut r, '.', false);
    push_name(&mut r, rust_name, rust_raw);
    push_group(&mut r, Delim::Brace, setter_tokens);
    assert(stream_tokens(r) =~= set_attr_tokens(
        name_tok(rust_name@, rust_raw),
        *attr_type,
        c_name@,
        node,
    ));
    r
}

/// The documentation of an edge method: what it returns, for which argument
/// of which operation.
pub open spec fn edge_docs(list: bool, rust_name: Tok, edge_type: Tok, name: Seq<char>) -> Seq<Tok> {
    if list {
        doc_attr("Returns a Vector of "@) + doc_stringify(rust_name) + doc_attr(" for '"@)
            + doc_stringify(rust_name) + doc_attr("' "@) + doc_stringify(edge_type) + doc_attr(
            " of this "@,
        ) + doc_attr(name) + doc_attr(" operation."@)
    } else {
        doc_attr("Returns the '"@) + doc_stringify(rust_name) + doc_attr("' "@) + doc_stringify(
            edge_type,
        ) + doc_attr(" of this "@) + doc_attr(name) + doc_attr(" operation."@)
    }
}

/// The body of the method for a list argument whose length is the attribute
/// `number_attr`: the edges at `offset + i` for each `i` below the
/// attribute's value, where `offset` is the argument's position.
pub open spec fn list_edge_body(index: Seq<Tok>, number_attr: Seq<char>, edge_type: Tok) -> Seq<Tok> {
    seq![
        ident("let"@),
        ident("dynamic_offset"@),
        punct('='),
        group(Delim::Parenthesis, index),
        ident("as"@),
        ident("i32"@),
        punct(';'),
        ident("let"@),
        ident("mut"@),
        ident("ret"@),
        punct('='),
        ident("vec"@),
        punct('!'),
        group(Delim::Bracket, Seq::empty()),
        punct(';'),
        ident("for"@),
        ident("i"@),
        ident("in"@),
        unsuffixed_lit(0),
    ] + dot2() + seq![
        ident("self"@),
        punct('.'),
        ident("op"@),
        punct('.'),
        ident("get_attr_int"@),
        group(Delim::Parenthesis, seq![str_lit(number_attr)]),
        punct('?'),
        ident("as"@),
        ident("i32"@),
        group(
            Delim::Brace,
            seq![
                ident("ret"@),
                punct('.'),
                ident("push"@),
                group(
                    Delim::Parenthesis,
                    seq![ident("O"@)] + colon2() + seq![
                        edge_type,
                        group(
                            Delim::Parenthesis,
                            seq![
                                punct('&'),
                                ident("self"@),
                                punct('.'),
                                ident("op"@),
                                punct(','),
                                ident("dynamic_offset"@),
                                punct('+'),
                                ident("i"@),
                            ],
                        ),
                    ],
                ),
                punct(';'),
            ],
        ),
        ident("Ok"@),
        group(Delim::Parenthesis, seq![ident("ret"@)]),
    ]
}

/// The body of the method for a single-tensor argument: the edge at the
/// argument's position.
pub open spec fn single_edge_body(index: Seq<Tok>, edge_type: Tok) -> Seq<Tok> {
    seq![
        ident("let"@),
        ident("offset"@),
        punct('='),
        group(Delim::Parenthesis, index),
        ident("as"@),
        ident("i32"@),
        punct(';'),
        ident("Ok"@),
        group(
            Delim::Parenthesis,
            seq![ident("O"@)] + colon2() + seq![
                edge_type,
                group(
                    Delim::Parenthesis,
                    seq![
                        punct('&'),
                        ident("self"@),
                        punct('.'),
                        ident("op"@),
                        punct(','),
                        ident("offset"@),
                    ],
                ),
            ],
        ),
    ]
}

/// `crate::name` for the identifier token `name`.
pub open spec fn crate_item(name: Tok) -> Seq<Tok> {
    seq![ident("crate"@)] + colon2() + seq![name]
}

fn push_crate_item(ts: &mut TokenStream, name: &str, raw: bool)
    requires
        valid_name(name@, raw),
    ensures
        stream_tokens(*final(ts)) == stream_tokens(*old(ts)) + crate_item(name_tok(name@, raw)),
{
    proof {
        reveal_strlit("crate");
    }
    let ghost start = stream_tokens(*ts);
    push_ident(ts, "crate");
    push_colon2(ts);
    push_name(ts, name, raw);
    assert(stream_tokens(*ts) =~= start + crate_item(name_tok(name@, raw)));
}

/// The method of an operation instance that gives the edge (or, for a list
/// argument, the edges) of one argument.
pub open spec fn edge_method_tokens(
    rust_name: Tok,
    index: Seq<Tok>,
    number_attr: Option<Seq<char>>,
    edge_type: Tok,
    name: Seq<char>,
) -> Seq<Tok> {
    let head = seq![
        ident("pub"@),
        ident("fn"@),
        rust_name,
        group(Delim::Parenthesis, seq![punct('&'), ident("self"@)]),
    ] + rarrow() + crate_path("Result"@) + seq![punct('<')];
    match number_attr {
        Some(number_attr) => edge_docs(true, rust_name, edge_type, name) + head + seq![
            ident("Vec"@),
            punct('<'),
        ] + crate_item(edge_type) + shr() + seq![
            group(Delim::Brace, list_edge_body(index, number_attr, edge_type)),
        ],
        None => edge_docs(false, rust_name, edge_type, name) + head + crate_item(edge_type) + seq![
            punct('>'),
            group(Delim::Brace, single_edge_body(index, edge_type)),
        ],
    }
}

fn edge_docs_exec(
    ts: &mut TokenStream,
    list: bool,
    rust_name: &str,
    rust_raw: bool,
    edge_type: &str,
    edge_raw: bool,
    name: &str,
)
    requires
        valid_name(rust_name@, rust_raw),
        valid_name(edge_type@, edge_raw),
    ensures
        stream_tokens(*final(ts)) == stream_tokens(*old(ts)) + edge_docs(
            list,
            name_tok(rust_name@, rust_raw),
            name_tok(edge_type@, edge_raw),
            name@,
        ),
{
    let ghost start = stream_tokens(*ts);
    if list {
        push_doc(ts, "Returns a Vector of ");
        push_doc_stringify(ts, rust_name, rust_raw);
        push_doc(ts, " for '");
        push_doc_stringify(ts, rust_name, rust_raw);
        push_doc(ts, "' ");
    } else {
        push_doc(ts, "Returns the '");
        push_doc_stringify(ts, rust_name, rust_raw);
        push_doc(ts, "' ");
    }
    push_doc_stringify(ts, edge_type, edge_raw);
    push_doc(ts, " of this ");
    push_doc(ts, name);
    push_doc(ts, " operation.");
    assert(stream_tokens(*ts) =~= start + edge_docs(
        list,
        name_tok(rust_name@, rust_raw),
        name_tok(edge_type@, edge_raw),
        name@,
    ));
}

fn list_edge_body_exec(index: TokenStream, number_attr: &str, edge_type: &str, edge_raw: bool) -> (r:
    TokenStream)
    requires
        valid_name(edge_type@, edge_raw),
    ensures
        stream_tokens(r) == list_edge_body(
            stream_tokens(index),
            number_attr@,
            name_tok(edge_type@, edge_raw),
        ),
{
    proof {
        reveal_strlit("let");
        reveal_strlit("dynamic_offset");
        reveal_strlit("as");
        reveal_strlit("i32");
        reveal_strlit("mut");
        reveal_strlit("ret");
        reveal_strlit("vec");
        reveal_strlit("for");
        reveal_strlit("i");
        reveal_strlit("in");
        reveal_strlit("self");
        reveal_strlit("op");
        reveal_strlit("get_attr_int");
        reveal_strlit("push");
        reveal_strlit("O");
        reveal_strlit("Ok");
    }
    let ghost index_tokens = stream_tokens(index);
    let mut r = new_stream();
    push_ident(&mut r, "let");
    push_ident(&mut r, "dynamic_offset");
    push_punct(&mut r, '=', false);
    push_group(&mut r, Delim::Parenthesis, index);
    push_ident(&mut r, "as");
    push_ident(&mut r, "i32");
    push_punct(&mut r, ';', false);
    push_ident(&mut r, "let");
    push_ident(&mut r, "mut");
    push_ident(&mut r, "ret");
    push_punct(&mut r, '=', false);
    push_ident(&mut r, "vec");
    push_punct(&mut r, '!', false);
    push_group(&mut r, Delim::Bracket, new_stream());
    push_punct(&mut r, ';', false);
    push_ident(&mut r, "for");
    push_ident(&mut r, "i");
    push_ident(&mut r, "in");
    push_unsuffixed_lit(&mut r, 0);
    push_dot2(&mut r);
    push_ident(&mut r, "self");
    push_punct(&mut r, '.', false);
    push_ident(&mut r, "op");
    push_punct(&mut r, '.', false);
    push_ident(&mut r, "get_attr_int");
    let mut key = new_stream();
    push_str_lit(&mut key, number_attr);
    assert(stream_tokens(key) =~= seq![str_lit(number_attr@)]);
    push_group(&mut r, Delim::Parenthesis, key);
    push_punct(&mut r, '?', false);
    push_ident(&mut r, "as");
    push_ident(&mut r, "i32");

    let mut edge_args = new_stream();
    push_punct(&mut edge_args, '&', false);
    push_ident(&mut edge_args, "self");
    push_punct(&mut edge_args, '.', false);
    push_ident(&mut edge_args, "op");
    push_punct(&mut edge_args, ',', false);
    push_ident(&mut edge_args, "dynamic_offset");
    push_punct(&mut edge_args, '+', false);
    push_ident(&mut edge_args, "i");
    let ghost edge_args_tokens = seq![
        punct('&'),
        ident("self"@),
        punct('.'),
        ident("op"@),
        punct(','),
        ident("dynamic_offset"@),
        punct('+'),
        ident("i"@),
    ];
    assert(stream_tokens(edge_args) =~= edge_args_tokens);
    let mut edge = new_stream();
    push_ident(&mut edge, "O");
    push_colon2(&mut edge);
    push_name(&mut edge, edge_type, edge_raw);
    push_group(&mut edge, Delim::Parenthesis, edge_args);
    let ghost edge_tokens = seq![ident("O"@)] + colon2() + seq![
        name_tok(edge_type@, edge_raw),
        group(Delim::Parenthesis, edge_args_tokens),
    ];
    assert(stream_tokens(edge) =~= edge_tokens);
    let mut push_call = new_stream();
    push_ident(&mut push_call, "ret");
    push_punct(&mut push_call, '.', false);
    push_ident(&mut push_call, "push");
    push_group(&mut push_call, Delim::Parenthesis, edge);
    push_punct(&mut push_call, ';', false);
    assert(stream_tokens(push_call) =~= seq![
        ident("ret"@),
        punct('.'),
        ident("push"@),
        group(Delim::Parenthesis, edge_tokens),
        punct(';'),
    ]);
    push_group(&mut r, Delim::Brace, push_call);
    push_ident(&mut r, "Ok");
    let mut ret = new_stream();
    push_ident(&mut ret, "ret");
    assert(stream_tokens(ret) =~= seq![ident("ret"@)]);
    push_group(&mut r, Delim::Parenthesis, ret);
    assert(stream_tokens(r) =~= list_edge_body(index_tokens, number_attr@, name_tok(edge_type@, edge_raw)));
    r
}

fn single_edge_body_exec(index: TokenStream, edge_type: &str, edge_raw: bool) -> (r: TokenStream)
    requires
        valid_name(edge_type@, edge_raw),
    ensures
        stream_tokens(r) == single_edge_body(stream_tokens(index), name_tok(edge_type@, edge_raw)),
{
    proof {
        reveal_strlit("let");
        reveal_strlit("offset");
        reveal_strlit("as");
        reveal_strlit("i32");
        reveal_strlit("self");
        reveal_strlit("op");
        reveal_strlit("O");
        reveal_strlit("Ok");
    }
    let ghost index_tokens = stream_tokens(index);
    let mut r = new_stream();
    push_ident(&mut r, "let");
    push_ident(&mut r, "offset");
    push_punct(&mut r, '=', false);
    push_group(&mut r, Delim::Parenthesis, index);
    push_ident(&mut r, "as");
    push_ident(&mut r, "i32");
    push_punct(&mut r, ';', false);
    push_ident(&mut r, "Ok");
    let mut edge_args = new_stream();
    push_punct(&mut edge_args, '&', false);
    push_ident(&mut edge_args, "self");
    push_punct(&mut edge_args, '.', false);
    push_ident(&mut edge_args, "op");
    push_punct(&mut edge_args, ',', false);
    push_ident(&mut edge_args, "offset");
    let ghost edge_args_tokens = seq![
        punct('&'),
        ident("self"@),
        punct('.'),
        ident("op"@),
        punct(','),
        ident("offset"@),
    ];
    assert(stream_tokens(edge_args) =~= edge_args_tokens);
    let mut edge = new_stream();
    push_ident(&mut edge, "O");
    push_colon2(&mut edge);
    push_name(&mut edge, edge_type, edge_raw);
    push_group(&mut edge, Delim::Parenthesis, edge_args);
    assert(stream_tokens(edge) =~= seq![ident("O"@)] + colon2() + seq![
        name_tok(edge_type@, edge_raw),
        group(Delim::Parenthesis, edge_args_tokens),
    ]);
    push_group(&mut r, Delim::Parenthesis, edge);
    assert(stream_tokens(r) =~= single_edge_body(index_tokens, name_tok(edge_type@, edge_raw)));
    r
}

/// The method of an operation instance that gives the edge of argument
/// `rust_name`, or its edges when `number_attr` names the attribute that
/// holds its length; `offsets` are the arguments before it.
#[verifier::rlimit(50)]
pub fn inst_edge_method(
    rust_name: &str,
    rust_raw: bool,
    offsets: &PreviousArguments,
    number_attr: Option<&str>,
    edge_type: &str,
    edge_raw: bool,
    name: &str,
) -> (r: TokenStream)
    requires
        valid_name(rust_name@, rust_raw),
        valid_name(edge_type@, edge_raw),
    ensures
        stream_tokens(r) == edge_method_tokens(
            name_tok(rust_name@, rust_raw),
            edge_index_tokens(offsets@.0, offsets@.1),
            crate::arguments::opt_str_view(number_attr),
            name_tok(edge_type@, edge_raw),
            name@,
        ),
{
    proof {
        reveal_strlit("pub");
        reveal_strlit("fn");
        reveal_strlit("self");
        reveal_strlit("Result");
        reveal_strlit("Vec");
    }
    let edge_index = offsets.edge_index();
    let ghost index = stream_tokens(edge_index);
    let mut r = new_stream();
    edge_docs_exec(&mut r, number_attr.is_some(), rust_name, rust_raw, edge_type, edge_raw, name);
    let ghost docs = stream_tokens(r);
    push_ident(&mut r, "pub");
    push_ident(&mut r, "fn");
    push_name(&mut r, rust_name, rust_raw);
    let mut params = new_stream();
    push_punct(&mut params, '&', false);
    push_ident(&mut params, "self");
    assert(stream_tokens(params) =~= seq![punct('&'), ident("self"@)]);
    push_group(&mut r, Delim::Parenthesis, params);
    push_rarrow(&mut r);
    push_crate_path(&mut r, "Result");
    push_punct(&mut r, '<', false);
    let ghost head = seq![
        ident("pub"@),
        ident("fn"@),
        name_tok(rust_name@, rust_raw),
        group(Delim::Parenthesis, seq![punct('&'), ident("self"@)]),
    ] + rarrow() + crate_path("Result"@) + seq![punct('<')];
    assert(stream_tokens(r) =~= docs + head);
    match number_attr {
        Some(number_attr) => {
            push_ident(&mut r, "Vec");
            push_punct(&mut r, '<', false);
            push_crate_item(&mut r, edge_type, edge_raw);
            push_shr(&mut r);
            let body = list_edge_body_exec(edge_index, number_attr, edge_type, edge_raw);
            push_group(&mut r, Delim::Brace, body);
        },
        None => {
            push_crate_item(&mut r, edge_type, edge_raw);
            push_punct(&mut r, '>', false);
            let body = single_edge_body_exec(edge_index, edge_type, edge_raw);
            push_group(&mut r, Delim::Brace, body);
        },
    }
    assert(stream_tokens(r) =~= edge_method_tokens(
        name_tok(rust_name@, rust_raw),
        index,
        crate::arguments::opt_str_view(number_attr),
        name_tok(edge_type@, edge_raw),
        name@,
    ));
    r
}

} // verus!
