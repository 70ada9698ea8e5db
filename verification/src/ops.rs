//! The code generated for one operation: a builder, a shorthand function,
//! and an instance type whose methods give the operation's edges.
use vstd::prelude::*;
use proc_macro2::TokenStream;
use crate::arguments::{edge_index_tokens, fields_distinct, spec_number_attr, spec_previous};
use crate::attr_type::{attr_type_tokens, spec_attr_type, AttrType};
use crate::codegen::{edge_method_tokens, set_attr_tokens, setter_method};
use crate::model::{ArgDef, AttrDef, OpDef};
use crate::operation::{alias_name, independent_attr_defs};
use crate::text::spec_snake_name;
use crate::tokens::{
    append_stream, colon2, contains_run, crate_path, doc_attr, doc_comment, doc_stringify, group,
    ident, joint, lemma_contains_here, lemma_contains_in_group, lemma_run_at_prefix,
    lemma_run_at_suffix, new_stream, punct, push_colon2, push_crate_path, push_doc,
    push_doc_comment, push_doc_stringify, push_group, push_ident, push_punct, push_raw_ident,
    push_rarrow, push_shr, push_std_path, push_str_lit, raw_ident, rarrow, run_at, shr, std_path,
    str_lit, stream_tokens, valid_ident, valid_raw_ident, Delim, Tok,
};

verus! {

/// `# [derive (:: std :: fmt :: Debug , :: std :: default :: Default)]`
pub open spec fn derive_debug_default() -> Seq<Tok> {
    seq![
        punct('#'),
        group(
            Delim::Bracket,
            seq![
                ident("derive"@),
                group(
                    Delim::Parenthesis,
                    std_path("fmt"@, "Debug"@) + seq![punct(',')] + std_path(
                        "default"@,
                        "Default"@,
                    ),
                ),
            ],
        ),
    ]
}

/// `name: ::std::option::Option<type>,` for each of the first `n` attributes.
pub open spec fn attr_fields(names: Seq<Seq<char>>, types: Seq<AttrType>, n: int) -> Seq<Tok>
    decreases n,
{
    if n <= 0 {
        Seq::empty()
    } else {
        attr_fields(names, types, n - 1) + seq![raw_ident(names[n - 1]), punct(':')] + std_path(
            "option"@,
            "Option"@,
        ) + seq![punct('<')] + attr_type_tokens(types[n - 1]) + seq![punct('>'), punct(',')]
    }
}

/// The builder struct: the control inputs, and an optional value for each
/// independent attribute.
pub open spec fn builder_struct(c: Seq<char>, names: Seq<Seq<char>>, types: Seq<AttrType>) -> Seq<
    Tok,
> {
    doc_attr("Builder for the `"@) + doc_attr(c) + doc_attr(" operation."@) + derive_debug_default()
        + seq![
        ident("pub"@),
        ident("struct"@),
        raw_ident(c),
        group(
            Delim::Brace,
            seq![ident("control_inputs"@), punct(':')] + std_path("vec"@, "Vec"@) + seq![
                punct('<'),
            ] + crate_path("Operation"@) + seq![punct('>'), punct(',')] + attr_fields(
                names,
                types,
                names.len() as int,
            ),
        ),
    ]
}

/// The builder's `new` function.
pub open spec fn new_fn() -> Seq<Tok> {
    doc_comment(" just no docs"@) + seq![
        ident("pub"@),
        ident("fn"@),
        ident("new"@),
        group(Delim::Parenthesis, Seq::empty()),
    ] + rarrow() + seq![
        ident("Self"@),
        group(
            Delim::Brace,
            seq![ident("Self"@)] + colon2() + seq![
                ident("default"@),
                group(Delim::Parenthesis, Seq::empty()),
            ],
        ),
    ]
}

/// The builder method that sets the attribute `name` of type `t`.
pub open spec fn setter_fn(c: Seq<char>, name: Seq<char>, t: AttrType) -> Seq<Tok> {
    doc_attr("Sets the `"@) + doc_attr(c) + doc_attr("` attribute."@) + seq![
        ident("pub"@),
        ident("fn"@),
        raw_ident(name),
        punct('<'),
        ident("T"@),
        punct(':'),
        ident("std"@),
    ] + colon2() + seq![ident("convert"@)] + colon2() + seq![ident("Into"@), punct('<')]
        + attr_type_tokens(t) + shr() + seq![
        group(
            Delim::Parenthesis,
            seq![
                ident("mut"@),
                ident("self"@),
                punct(','),
                ident("value"@),
                punct(':'),
                ident("T"@),
            ],
        ),
    ] + rarrow() + seq![
        ident("Self"@),
        group(
            Delim::Brace,
            seq![ident("self"@), punct('.'), raw_ident(name), punct('=')] + std_path(
                "option"@,
                "Option"@,
            ) + colon2() + seq![
                ident("Some"@),
                group(
                    Delim::Parenthesis,
                    seq![
                        ident("value"@),
                        punct('.'),
                        ident("into"@),
                        group(Delim::Parenthesis, Seq::empty()),
                    ],
                ),
                punct(';'),
                ident("self"@),
            ],
        ),
    ]
}

/// The setters of the first `n` attributes.
pub open spec fn setter_fns(c: Seq<char>, names: Seq<Seq<char>>, types: Seq<AttrType>, n: int) -> Seq<
    Tok,
>
    decreases n,
{
    if n <= 0 {
        Seq::empty()
    } else {
        setter_fns(c, names, types, n - 1) + setter_fn(c, names[n - 1], types[n - 1])
    }
}

/// The builder method that adds a control input.
pub open spec fn add_control_fn() -> Seq<Tok> {
    doc_comment(" Adds a control input."@) + seq![
        ident("pub"@),
        ident("fn"@),
        ident("add_control_input"@),
        group(
            Delim::Parenthesis,
            seq![ident("mut"@), ident("self"@), punct(','), ident("op"@), punct(':')]
                + crate_path("Operation"@),
        ),
    ] + rarrow() + seq![
        ident("Self"@),
        group(
            Delim::Brace,
            seq![
                ident("self"@),
                punct('.'),
                ident("control_inputs"@),
                punct('.'),
                ident("push"@),
                group(Delim::Parenthesis, seq![ident("op"@)]),
                punct(';'),
                ident("self"@),
            ],
        ),
    ]
}

/// The chars of each string.
pub open spec fn str_views(v: Seq<String>) -> Seq<Seq<char>> {
    v.map_values(|s: String| s@)
}

/// The chars of each optional string slice.
pub open spec fn opt_views(v: Seq<Option<&str>>) -> Seq<Option<Seq<char>>> {
    v.map_values(|o: Option<&str>| crate::arguments::opt_str_view(o))
}

/// The type of an input argument in `build_impl`: a list of outputs for a
/// list argument, else one output.
pub open spec fn arg_type(number: Option<Seq<char>>) -> Seq<Tok> {
    match number {
        Some(_) => seq![ident("Vec"@), punct('<')] + crate_path("Output"@) + seq![punct('>')],
        None => crate_path("Output"@),
    }
}

/// The builder method that adds an input argument.
pub open spec fn add_input_method(number: Option<Seq<char>>) -> Seq<char> {
    match number {
        Some(_) => "add_input_list"@,
        None => "add_input"@,
    }
}

/// `O{i}: ::std::convert::Into<type>`
pub open spec fn generic_param(number: Option<Seq<char>>, i: int) -> Seq<Tok> {
    seq![ident(alias_name(i as nat)), punct(':')] + std_path("convert"@, "Into"@) + seq![punct('<')]
        + arg_type(number) + seq![punct('>')]
}

/// The type parameters of the first `n` inputs, separated by commas.
pub open spec fn generic_params(numbers: Seq<Option<Seq<char>>>, n: int) -> Seq<Tok>
    decreases n,
{
    if n <= 0 {
        Seq::empty()
    } else if n == 1 {
        generic_param(numbers[0], 0)
    } else {
        generic_params(numbers, n - 1) + seq![punct(',')] + generic_param(numbers[n - 1], n - 1)
    }
}

/// `field: O{i},` for each of the first `n` inputs.
pub open spec fn alias_params(fields: Seq<Seq<char>>, n: int) -> Seq<Tok>
    decreases n,
{
    if n <= 0 {
        Seq::empty()
    } else {
        alias_params(fields, n - 1) + seq![
            raw_ident(fields[n - 1]),
            punct(':'),
            ident(alias_name((n - 1) as nat)),
            punct(','),
        ]
    }
}

/// `field: type,` for each of the first `n` inputs.
pub open spec fn typed_params(fields: Seq<Seq<char>>, numbers: Seq<Option<Seq<char>>>, n: int) -> Seq<
    Tok,
>
    decreases n,
{
    if n <= 0 {
        Seq::empty()
    } else {
        typed_params(fields, numbers, n - 1) + seq![raw_ident(fields[n - 1]), punct(':')] + arg_type(
            numbers[n - 1],
        ) + seq![punct(',')]
    }
}

/// `field.into(),` for each of the first `n` inputs.
pub open spec fn into_args(fields: Seq<Seq<char>>, n: int) -> Seq<Tok>
    decreases n,
{
    if n <= 0 {
        Seq::empty()
    } else {
        into_args(fields, n - 1) + seq![
            raw_ident(fields[n - 1]),
            punct('.'),
            ident("into"@),
            group(Delim::Parenthesis, Seq::empty()),
            punct(','),
        ]
    }
}

/// `builder.add_input(&field);` (or `add_input_list`) for each of the first
/// `n` inputs.
pub open spec fn add_inputs(fields: Seq<Seq<char>>, numbers: Seq<Option<Seq<char>>>, n: int) -> Seq<
    Tok,
>
    decreases n,
{
    if n <= 0 {
        Seq::empty()
    } else {
        add_inputs(fields, numbers, n - 1) + seq![
            ident("builder"@),
            punct('.'),
            ident(add_input_method(numbers[n - 1])),
            group(Delim::Parenthesis, seq![punct('&'), raw_ident(fields[n - 1])]),
            punct(';'),
        ]
    }
}

/// `builder.set_attr_int("number_attr", field.len() as i64)?;` for each list
/// input among the first `n`: the length attribute is set from the list.
pub open spec fn set_lengths(fields: Seq<Seq<char>>, numbers: Seq<Option<Seq<char>>>, n: int) -> Seq<
    Tok,
>
    decreases n,
{
    if n <= 0 {
        Seq::empty()
    } else {
        set_lengths(fields, numbers, n - 1) + match numbers[n - 1] {
            Some(number) => seq![
                ident("builder"@),
                punct('.'),
                ident("set_attr_int"@),
                group(
                    Delim::Parenthesis,
                    seq![
                        str_lit(number),
                        punct(','),
                        raw_ident(fields[n - 1]),
                        punct('.'),
                        ident("len"@),
                        group(Delim::Parenthesis, Seq::empty()),
                        ident("as"@),
                        ident("i64"@),
                    ],
                ),
                punct('?'),
                punct(';'),
            ],
            None => Seq::empty(),
        }
    }
}

/// The code that sets each of the first `n` attributes on the builder.
pub open spec fn set_attrs(names: Seq<Seq<char>>, types: Seq<AttrType>, n: int) -> Seq<Tok>
    decreases n,
{
    if n <= 0 {
        Seq::empty()
    } else {
        set_attrs(names, types, n - 1) + set_attr_tokens(
            raw_ident(names[n - 1]),
            types[n - 1],
            names[n - 1],
            ident("builder"@),
        )
    }
}

/// `#[doc = stringify!(field)] #[doc = ","]` for each of the first `n` inputs.
pub open spec fn field_docs(fields: Seq<Seq<char>>, n: int) -> Seq<Tok>
    decreases n,
{
    if n <= 0 {
        Seq::empty()
    } else {
        field_docs(fields, n - 1) + doc_stringify(raw_ident(fields[n - 1])) + doc_attr(","@)
    }
}

/// The edge methods of the first `n` arguments.
pub open spec fn edge_methods(
    fields: Seq<Seq<char>>,
    prevs: Seq<(nat, Seq<(Seq<char>, nat)>)>,
    numbers: Seq<Option<Seq<char>>>,
    edge_type: Seq<char>,
    c: Seq<char>,
    n: int,
) -> Seq<Tok>
    decreases n,
{
    if n <= 0 {
        Seq::empty()
    } else {
        edge_methods(fields, prevs, numbers, edge_type, c, n - 1) + edge_method_tokens(
            raw_ident(fields[n - 1]),
            edge_index_tokens(prevs[n - 1].0, prevs[n - 1].1),
            numbers[n - 1],
            ident(edge_type),
            c,
        )
    }
}

/// `O{i}` is a valid identifier.
proof fn lemma_alias_valid(i: nat)
    ensures
        valid_ident(alias_name(i)),
{
    crate::text::lemma_decimal_digits(i);
    let s = alias_name(i);
    assert forall|j: int| 1 <= j < s.len() implies #[trigger] crate::tokens::xid_continue(s[j]) by {
        assert(s[j] == crate::text::decimal(i)[j - 1]);
    }
}

fn push_derive_debug_default(ts: &mut TokenStream)
    ensures
        stream_tokens(*final(ts)) == stream_tokens(*old(ts)) + derive_debug_default(),
{
    proof {
        reveal_strlit("derive");
        reveal_strlit("fmt");
        reveal_strlit("Debug");
        reveal_strlit("default");
        reveal_strlit("Default");
    }
    let ghost start = stream_tokens(*ts);
    push_punct(ts, '#', false);
    let mut traits = new_stream();
    push_std_path(&mut traits, "fmt", "Debug");
    push_punct(&mut traits, ',', false);
    push_std_path(&mut traits, "default", "Default");
    let ghost traits_tokens = std_path("fmt"@, "Debug"@) + seq![punct(',')] + std_path(
        "default"@,
        "Default"@,
    );
    assert(stream_tokens(traits) =~= traits_tokens);
    let mut attr = new_stream();
    push_ident(&mut attr, "derive");
    push_group(&mut attr, Delim::Parenthesis, traits);
    assert(stream_tokens(attr) =~= seq![
        ident("derive"@),
        group(Delim::Parenthesis, traits_tokens),
    ]);
    push_group(ts, Delim::Bracket, attr);
    assert(stream_tokens(*ts) =~= start + derive_debug_default());
}

#[verifier::rlimit(40)]
fn push_attr_fields(ts: &mut TokenStream, names: &Vec<String>, types: &Vec<AttrType>)
    requires
        names@.len() == types@.len(),
        forall|i: int| 0 <= i < names@.len() ==> valid_raw_ident((#[trigger] names@[i])@),
    ensures
        stream_tokens(*final(ts)) == stream_tokens(*old(ts)) + attr_fields(
            names@.map_values(|s: String| s@),
            types@,
            names@.len() as int,
        ),
{
    let ghost start = stream_tokens(*ts);
    let ghost name_views = names@.map_values(|s: String| s@);
    for i in 0..names.len()
        invariant
            names@.len() == types@.len(),
            name_views == names@.map_values(|s: String| s@),
            forall|j: int| 0 <= j < names@.len() ==> valid_raw_ident((#[trigger] names@[j])@),
            stream_tokens(*ts) == start + attr_fields(name_views, types@, i as int),
    {
        proof {
            reveal_strlit("option");
            reveal_strlit("Option");
        }
        let ghost before = stream_tokens(*ts);
        push_raw_ident(ts, names[i].as_str());
        push_punct(ts, ':', false);
        push_std_path(ts, "option", "Option");
        push_punct(ts, '<', false);
        types[i].to_tokens(ts);
        push_punct(ts, '>', false);
        push_punct(ts, ',', false);
        assert(stream_tokens(*ts) =~= before + seq![raw_ident(name_views[i as int]), punct(':')]
            + std_path("option"@, "Option"@) + seq![punct('<')] + attr_type_tokens(types@[i as int])
            + seq![punct('>'), punct(',')]);
    }
}

fn push_builder_struct(ts: &mut TokenStream, c_name: &str, names: &Vec<String>, types: &Vec<AttrType>)
    requires
        valid_raw_ident(c_name@),
        names@.len() == types@.len(),
        forall|i: int| 0 <= i < names@.len() ==> valid_raw_ident((#[trigger] names@[i])@),
    ensures
        stream_tokens(*final(ts)) == stream_tokens(*old(ts)) + builder_struct(
            c_name@,
            names@.map_values(|s: String| s@),
            types@,
        ),
{
    proof {
        reveal_strlit("pub");
        reveal_strlit("struct");
        reveal_strlit("control_inputs");
        reveal_strlit("vec");
        reveal_strlit("Vec");
        reveal_strlit("Operation");
    }
    let ghost start = stream_tokens(*ts);
    let ghost name_views = names@.map_values(|s: String| s@);
    push_doc(ts, "Builder for the `");
    push_doc(ts, c_name);
    push_doc(ts, " operation.");
    push_derive_debug_default(ts);
    push_ident(ts, "pub");
    push_ident(ts, "struct");
    push_raw_ident(ts, c_name);
    let mut fields = new_stream();
    push_ident(&mut fields, "control_inputs");
    push_punct(&mut fields, ':', false);
    push_std_path(&mut fields, "vec", "Vec");
    push_punct(&mut fields, '<', false);
    push_crate_path(&mut fields, "Operation");
    push_punct(&mut fields, '>', false);
    push_punct(&mut fields, ',', false);
    push_attr_fields(&mut fields, names, types);
    assert(stream_tokens(fields) =~= seq![ident("control_inputs"@), punct(':')] + std_path(
        "vec"@,
        "Vec"@,
    ) + seq![punct('<')] + crate_path("Operation"@) + seq![punct('>'), punct(',')] + attr_fields(
        name_views,
        types@,
        names@.len() as int,
    ));
    push_group(ts, Delim::Brace, fields);
    assert(stream_tokens(*ts) =~= start + builder_struct(c_name@, name_views, types@));
}

fn push_new_fn(ts: &mut TokenStream)
    ensures
        stream_tokens(*final(ts)) == stream_tokens(*old(ts)) + new_fn(),
{
    proof {
        reveal_strlit("pub");
        reveal_strlit("fn");
        reveal_strlit("new");
        reveal_strlit("Self");
        reveal_strlit("default");
        reveal_strlit(" just no docs");
    }
    let ghost start = stream_tokens(*ts);
    push_doc_comment(ts, " just no docs");
    push_ident(ts, "pub");
    push_ident(ts, "fn");
    push_ident(ts, "new");
    push_group(ts, Delim::Parenthesis, new_stream());
    push_rarrow(ts);
    push_ident(ts, "Self");
    let mut body = new_stream();
    push_ident(&mut body, "Self");
    push_colon2(&mut body);
    push_ident(&mut body, "default");
    push_group(&mut body, Delim::Parenthesis, new_stream());
    assert(stream_tokens(body) =~= seq![ident("Self"@)] + colon2() + seq![
        ident("default"@),
        group(Delim::Parenthesis, Seq::empty()),
    ]);
    push_group(ts, Delim::Brace, body);
    assert(stream_tokens(*ts) =~= start + new_fn());
}

#[verifier::rlimit(40)]
fn push_setter_fn(ts: &mut TokenStream, c_name: &str, name: &str, t: &AttrType)
    requires
        valid_raw_ident(name@),
    ensures
        stream_tokens(*final(ts)) == stream_tokens(*old(ts)) + setter_fn(c_name@, name@, *t),
{
    proof {
        reveal_strlit("pub");
        reveal_strlit("fn");
        reveal_strlit("T");
        reveal_strlit("std");
        reveal_strlit("convert");
        reveal_strlit("Into");
        reveal_strlit("mut");
        reveal_strlit("self");
        reveal_strlit("value");
        reveal_strlit("Self");
        reveal_strlit("option");
        reveal_strlit("Option");
        reveal_strlit("Some");
        reveal_strlit("into");
    }
    let ghost start = stream_tokens(*ts);
    push_doc(ts, "Sets the `");
    push_doc(ts, c_name);
    push_doc(ts, "` attribute.");
    push_ident(ts, "pub");
    push_ident(ts, "fn");
    push_raw_ident(ts, name);
    push_punct(ts, '<', false);
    push_ident(ts, "T");
    push_punct(ts, ':', false);
    push_ident(ts, "std");
    push_colon2(ts);
    push_ident(ts, "convert");
    push_colon2(ts);
    push_ident(ts, "Into");
    push_punct(ts, '<', false);
    t.to_tokens(ts);
    push_shr(ts);
    let mut params = new_stream();
    push_ident(&mut params, "mut");
    push_ident(&mut params, "self");
    push_punct(&mut params, ',', false);
    push_ident(&mut params, "value");
    push_punct(&mut params, ':', false);
    push_ident(&mut params, "T");
    assert(stream_tokens(params) =~= seq![
        ident("mut"@),
        ident("self"@),
        punct(','),
        ident("value"@),
        punct(':'),
        ident("T"@),
    ]);
    push_group(ts, Delim::Parenthesis, params);
    push_rarrow(ts);
    push_ident(ts, "Self");
    let mut into = new_stream();
    push_ident(&mut into, "value");
    push_punct(&mut into, '.', false);
    push_ident(&mut into, "into");
    push_group(&mut into, Delim::Parenthesis, new_stream());
    let ghost into_tokens = seq![
        ident("value"@),
        punct('.'),
        ident("into"@),
        group(Delim::Parenthesis, Seq::empty()),
    ];
    assert(stream_tokens(into) =~= into_tokens);
    let mut body = new_stream();
    push_ident(&mut body, "self");
    push_punct(&mut body, '.', false);
    push_raw_ident(&mut body, name);
    push_punct(&mut body, '=', false);
    push_std_path(&mut body, "option", "Option");
    push_colon2(&mut body);
    push_ident(&mut body, "Some");
    push_group(&mut body, Delim::Parenthesis, into);
    push_punct(&mut body, ';', false);
    push_ident(&mut body, "self");
    assert(stream_tokens(body) =~= seq![ident("self"@), punct('.'), raw_ident(name@), punct('=')]
        + std_path("option"@, "Option"@) + colon2() + seq![
        ident("Some"@),
        group(Delim::Parenthesis, into_tokens),
        punct(';'),
        ident("self"@),
    ]);
    push_group(ts, Delim::Brace, body);
    assert(stream_tokens(*ts) =~= start + setter_fn(c_name@, name@, *t));
}

fn push_setter_fns(ts: &mut TokenStream, c_name: &str, names: &Vec<String>, types: &Vec<AttrType>)
    requires
        names@.len() == types@.len(),
        forall|i: int| 0 <= i < names@.len() ==> valid_raw_ident((#[trigger] names@[i])@),
    ensures
        stream_tokens(*final(ts)) == stream_tokens(*old(ts)) + setter_fns(
            c_name@,
            names@.map_values(|s: String| s@),
            types@,
            names@.len() as int,
        ),
{
    let ghost start = stream_tokens(*ts);
    let ghost name_views = names@.map_values(|s: String| s@);
    for i in 0..names.len()
        invariant
            names@.len() == types@.len(),
            name_views == names@.map_values(|s: String| s@),
            forall|j: int| 0 <= j < names@.len() ==> valid_raw_ident((#[trigger] names@[j])@),
            stream_tokens(*ts) == start + setter_fns(c_name@, name_views, types@, i as int),
    {
        push_setter_fn(ts, c_name, names[i].as_str(), &types[i]);
        assert(name_views[i as int] == names@[i as int]@);
    }
}

fn push_add_control_fn(ts: &mut TokenStream)
    ensures
        stream_tokens(*final(ts)) == stream_tokens(*old(ts)) + add_control_fn(),
{
    proof {
        reveal_strlit("pub");
        reveal_strlit("fn");
        reveal_strlit("add_control_input");
        reveal_strlit("mut");
        reveal_strlit("self");
        reveal_strlit("op");
        reveal_strlit("Operation");
        reveal_strlit("Self");
        reveal_strlit("control_inputs");
        reveal_strlit("push");
        reveal_strlit(" Adds a control input.");
    }
    let ghost start = stream_tokens(*ts);
    push_doc_comment(ts, " Adds a control input.");
    push_ident(ts, "pub");
    push_ident(ts, "fn");
    push_ident(ts, "add_control_input");
    let mut params = new_stream();
    push_ident(&mut params, "mut");
    push_ident(&mut params, "self");
    push_punct(&mut params, ',', false);
    push_ident(&mut params, "op");
    push_punct(&mut params, ':', false);
    push_crate_path(&mut params, "Operation");
    assert(stream_tokens(params) =~= seq![
        ident("mut"@),
        ident("self"@),
        punct(','),
        ident("op"@),
        punct(':'),
    ] + crate_path("Operation"@));
    push_group(ts, Delim::Parenthesis, params);
    push_rarrow(ts);
    push_ident(ts, "Self");
    let mut op = new_stream();
    push_ident(&mut op, "op");
    assert(stream_tokens(op) =~= seq![ident("op"@)]);
    let mut body = new_stream();
    push_ident(&mut body, "self");
    push_punct(&mut body, '.', false);
    push_ident(&mut body, "control_inputs");
    push_punct(&mut body, '.', false);
    push_ident(&mut body, "push");
    push_group(&mut body, Delim::Parenthesis, op);
    push_punct(&mut body, ';', false);
    push_ident(&mut body, "self");
    assert(stream_tokens(body) =~= seq![
        ident("self"@),
        punct('.'),
        ident("control_inputs"@),
        punct('.'),
        ident("push"@),
        group(Delim::Parenthesis, seq![ident("op"@)]),
        punct(';'),
        ident("self"@),
    ]);
    push_group(ts, Delim::Brace, body);
    assert(stream_tokens(*ts) =~= start + add_control_fn());
}


fn push_arg_type(ts: &mut TokenStream, number: Option<&str>)
    ensures
        stream_tokens(*final(ts)) == stream_tokens(*old(ts)) + arg_type(
            crate::arguments::opt_str_view(number),
        ),
{
    proof {
        reveal_strlit("Vec");
        reveal_strlit("Output");
    }
    let ghost start = stream_tokens(*ts);
    if number.is_some() {
        push_ident(ts, "Vec");
        push_punct(ts, '<', false);
        push_crate_path(ts, "Output");
        push_punct(ts, '>', false);
    } else {
        push_crate_path(ts, "Output");
    }
    assert(stream_tokens(*ts) =~= start + arg_type(crate::arguments::opt_str_view(number)));
}

fn push_generic_param(ts: &mut TokenStream, number: Option<&str>, alias: &str, Ghost(i): Ghost<int>)
    requires
        alias@ == alias_name(i as nat),
        i >= 0,
    ensures
        stream_tokens(*final(ts)) == stream_tokens(*old(ts)) + generic_param(
            crate::arguments::opt_str_view(number),
            i,
        ),
{
    proof {
        reveal_strlit("convert");
        reveal_strlit("Into");
        lemma_alias_valid(i as nat);
    }
    let ghost start = stream_tokens(*ts);
    push_ident(ts, alias);
    push_punct(ts, ':', false);
    push_std_path(ts, "convert", "Into");
    push_punct(ts, '<', false);
    push_arg_type(ts, number);
    push_punct(ts, '>', false);
    assert(stream_tokens(*ts) =~= start + generic_param(crate::arguments::opt_str_view(number), i));
}

fn push_generic_params(ts: &mut TokenStream, numbers: &Vec<Option<&str>>, aliases: &Vec<String>)
    requires
        numbers@.len() == aliases@.len(),
        forall|i: int| 0 <= i < aliases@.len() ==> (#[trigger] aliases@[i])@ == alias_name(i as nat),
    ensures
        stream_tokens(*final(ts)) == stream_tokens(*old(ts)) + generic_params(
            opt_views(numbers@),
            numbers@.len() as int,
        ),
{
    let ghost start = stream_tokens(*ts);
    let ghost nv = opt_views(numbers@);
    for i in 0..numbers.len()
        invariant
            numbers@.len() == aliases@.len(),
            forall|j: int| 0 <= j < aliases@.len() ==> (#[trigger] aliases@[j])@ == alias_name(j as nat),
            nv == opt_views(numbers@),
            stream_tokens(*ts) == start + generic_params(nv, i as int),
    {
        let ghost before = stream_tokens(*ts);
        if i > 0 {
            push_punct(ts, ',', false);
        }
        push_generic_param(ts, numbers[i], aliases[i].as_str(), Ghost(i as int));
        assert(nv[i as int] == crate::arguments::opt_str_view(numbers@[i as int]));
        if i > 0 {
            assert(stream_tokens(*ts) =~= before + seq![punct(',')] + generic_param(nv[i as int], i as int));
        } else {
            assert(stream_tokens(*ts) =~= before + generic_param(nv[i as int], i as int));
        }
    }
}

fn push_alias_params(ts: &mut TokenStream, fields: &Vec<String>, aliases: &Vec<String>)
    requires
        fields@.len() == aliases@.len(),
        forall|i: int| 0 <= i < aliases@.len() ==> (#[trigger] aliases@[i])@ == alias_name(i as nat),
        forall|i: int| 0 <= i < fields@.len() ==> valid_raw_ident((#[trigger] fields@[i])@),
    ensures
        stream_tokens(*final(ts)) == stream_tokens(*old(ts)) + alias_params(
            str_views(fields@),
            fields@.len() as int,
        ),
{
    let ghost start = stream_tokens(*ts);
    let ghost fv = str_views(fields@);
    for i in 0..fields.len()
        invariant
            fields@.len() == aliases@.len(),
            forall|j: int| 0 <= j < aliases@.len() ==> (#[trigger] aliases@[j])@ == alias_name(j as nat),
            forall|j: int| 0 <= j < fields@.len() ==> valid_raw_ident((#[trigger] fields@[j])@),
            fv == str_views(fields@),
            stream_tokens(*ts) == start + alias_params(fv, i as int),
    {
        proof {
            lemma_alias_valid(i as nat);
        }
        let ghost before = stream_tokens(*ts);
        push_raw_ident(ts, fields[i].as_str());
        push_punct(ts, ':', false);
        push_ident(ts, aliases[i].as_str());
        push_punct(ts, ',', false);
        assert(stream_tokens(*ts) =~= before + seq![
            raw_ident(fv[i as int]),
            punct(':'),
            ident(alias_name(i as nat)),
            punct(','),
        ]);
    }
}

fn push_typed_params(ts: &mut TokenStream, fields: &Vec<String>, numbers: &Vec<Option<&str>>)
    requires
        fields@.len() == numbers@.len(),
        forall|i: int| 0 <= i < fields@.len() ==> valid_raw_ident((#[trigger] fields@[i])@),
    ensures
        stream_tokens(*final(ts)) == stream_tokens(*old(ts)) + typed_params(
            str_views(fields@),
            opt_views(numbers@),
            fields@.len() as int,
        ),
{
    let ghost start = stream_tokens(*ts);
    let ghost fv = str_views(fields@);
    let ghost nv = opt_views(numbers@);
    for i in 0..fields.len()
        invariant
            fields@.len() == numbers@.len(),
            forall|j: int| 0 <= j < fields@.len() ==> valid_raw_ident((#[trigger] fields@[j])@),
            fv == str_views(fields@),
            nv == opt_views(numbers@),
            stream_tokens(*ts) == start + typed_params(fv, nv, i as int),
    {
        let ghost before = stream_tokens(*ts);
        push_raw_ident(ts, fields[i].as_str());
        push_punct(ts, ':', false);
        push_arg_type(ts, numbers[i]);
        push_punct(ts, ',', false);
        assert(stream_tokens(*ts) =~= before + seq![raw_ident(fv[i as int]), punct(':')]
            + arg_type(nv[i as int]) + seq![punct(',')]);
    }
}

fn push_into_args(ts: &mut TokenStream, fields: &Vec<String>)
    requires
        forall|i: int| 0 <= i < fields@.len() ==> valid_raw_ident((#[trigger] fields@[i])@),
    ensures
        stream_tokens(*final(ts)) == stream_tokens(*old(ts)) + into_args(
            str_views(fields@),
            fields@.len() as int,
        ),
{
    let ghost start = stream_tokens(*ts);
    let ghost fv = str_views(fields@);
    for i in 0..fields.len()
        invariant
            forall|j: int| 0 <= j < fields@.len() ==> valid_raw_ident((#[trigger] fields@[j])@),
            fv == str_views(fields@),
            stream_tokens(*ts) == start + into_args(fv, i as int),
    {
        proof {
            reveal_strlit("into");
        }
        let ghost before = stream_tokens(*ts);
        push_raw_ident(ts, fields[i].as_str());
        push_punct(ts, '.', false);
        push_ident(ts, "into");
        push_group(ts, Delim::Parenthesis, new_stream());
        push_punct(ts, ',', false);
        assert(stream_tokens(*ts) =~= before + seq![
            raw_ident(fv[i as int]),
            punct('.'),
            ident("into"@),
            group(Delim::Parenthesis, Seq::empty()),
            punct(','),
        ]);
    }
}

fn push_add_input(ts: &mut TokenStream, field: &str, number: Option<&str>)
    requires
        valid_raw_ident(field@),
    ensures
        stream_tokens(*final(ts)) == stream_tokens(*old(ts)) + seq![
            ident("builder"@),
            punct('.'),
            ident(add_input_method(crate::arguments::opt_str_view(number))),
            group(Delim::Parenthesis, seq![punct('&'), raw_ident(field@)]),
            punct(';'),
        ],
{
    proof {
        reveal_strlit("builder");
        reveal_strlit("add_input");
        reveal_strlit("add_input_list");
    }
    push_ident(ts, "builder");
    push_punct(ts, '.', false);
    if number.is_some() {
        push_ident(ts, "add_input_list");
    } else {
        push_ident(ts, "add_input");
    }
    let mut arg = new_stream();
    push_punct(&mut arg, '&', false);
    push_raw_ident(&mut arg, field);
    assert(stream_tokens(arg) =~= seq![punct('&'), raw_ident(field@)]);
    push_group(ts, Delim::Parenthesis, arg);
    push_punct(ts, ';', false);
}

fn push_add_inputs(ts: &mut TokenStream, fields: &Vec<String>, numbers: &Vec<Option<&str>>)
    requires
        fields@.len() == numbers@.len(),
        forall|i: int| 0 <= i < fields@.len() ==> valid_raw_ident((#[trigger] fields@[i])@),
    ensures
        stream_tokens(*final(ts)) == stream_tokens(*old(ts)) + add_inputs(
            str_views(fields@),
            opt_views(numbers@),
            fields@.len() as int,
        ),
{
    let ghost start = stream_tokens(*ts);
    let ghost fv = str_views(fields@);
    let ghost nv = opt_views(numbers@);
    for i in 0..fields.len()
        invariant
            fields@.len() == numbers@.len(),
            forall|j: int| 0 <= j < fields@.len() ==> valid_raw_ident((#[trigger] fields@[j])@),
            fv == str_views(fields@),
            nv == opt_views(numbers@),
            stream_tokens(*ts) == start + add_inputs(fv, nv, i as int),
    {
        let ghost before = stream_tokens(*ts);
        push_add_input(ts, fields[i].as_str(), numbers[i]);
        assert(fv[i as int] == fields@[i as int]@);
        assert(nv[i as int] == crate::arguments::opt_str_view(numbers@[i as int]));
    }
}

fn push_set_length(ts: &mut TokenStream, field: &str, number: &str)
    requires
        valid_raw_ident(field@),
    ensures
        stream_tokens(*final(ts)) == stream_tokens(*old(ts)) + seq![
            ident("builder"@),
            punct('.'),
            ident("set_attr_int"@),
            group(
                Delim::Parenthesis,
                seq![
                    str_lit(number@),
                    punct(','),
                    raw_ident(field@),
                    punct('.'),
                    ident("len"@),
                    group(Delim::Parenthesis, Seq::empty()),
                    ident("as"@),
                    ident("i64"@),
                ],
            ),
            punct('?'),
            punct(';'),
        ],
{
    proof {
        reveal_strlit("builder");
        reveal_strlit("set_attr_int");
        reveal_strlit("len");
        reveal_strlit("as");
        reveal_strlit("i64");
    }
    push_ident(ts, "builder");
    push_punct(ts, '.', false);
    push_ident(ts, "set_attr_int");
    let mut args = new_stream();
    push_str_lit(&mut args, number);
    push_punct(&mut args, ',', false);
    push_raw_ident(&mut args, field);
    push_punct(&mut args, '.', false);
    push_ident(&mut args, "len");
    push_group(&mut args, Delim::Parenthesis, new_stream());
    push_ident(&mut args, "as");
    push_ident(&mut args, "i64");
    assert(stream_tokens(args) =~= seq![
        str_lit(number@),
        punct(','),
        raw_ident(field@),
        punct('.'),
        ident("len"@),
        group(Delim::Parenthesis, Seq::empty()),
        ident("as"@),
        ident("i64"@),
    ]);
    push_group(ts, Delim::Parenthesis, args);
    push_punct(ts, '?', false);
    push_punct(ts, ';', false);
}

fn push_set_lengths(ts: &mut TokenStream, fields: &Vec<String>, numbers: &Vec<Option<&str>>)
    requires
        fields@.len() == numbers@.len(),
        forall|i: int| 0 <= i < fields@.len() ==> valid_raw_ident((#[trigger] fields@[i])@),
    ensures
        stream_tokens(*final(ts)) == stream_tokens(*old(ts)) + set_lengths(
            str_views(fields@),
            opt_views(numbers@),
            fields@.len() as int,
        ),
{
    let ghost start = stream_tokens(*ts);
    let ghost fv = str_views(fields@);
    let ghost nv = opt_views(numbers@);
    for i in 0..fields.len()
        invariant
            fields@.len() == numbers@.len(),
            forall|j: int| 0 <= j < fields@.len() ==> valid_raw_ident((#[trigger] fields@[j])@),
            fv == str_views(fields@),
            nv == opt_views(numbers@),
            stream_tokens(*ts) == start + set_lengths(fv, nv, i as int),
    {
        let ghost before = stream_tokens(*ts);
        assert(fv[i as int] == fields@[i as int]@);
        assert(nv[i as int] == crate::arguments::opt_str_view(numbers@[i as int]));
        match numbers[i] {
            Some(number) => {
                push_set_length(ts, fields[i].as_str(), number);
            },
            None => {
                assert(stream_tokens(*ts) =~= before + Seq::<Tok>::empty());
            },
        }
    }
}

fn push_field_docs(ts: &mut TokenStream, fields: &Vec<String>)
    requires
        forall|i: int| 0 <= i < fields@.len() ==> valid_raw_ident((#[trigger] fields@[i])@),
    ensures
        stream_tokens(*final(ts)) == stream_tokens(*old(ts)) + field_docs(
            str_views(fields@),
            fields@.len() as int,
        ),
{
    let ghost start = stream_tokens(*ts);
    let ghost fv = str_views(fields@);
    for i in 0..fields.len()
        invariant
            forall|j: int| 0 <= j < fields@.len() ==> valid_raw_ident((#[trigger] fields@[j])@),
            fv == str_views(fields@),
            stream_tokens(*ts) == start + field_docs(fv, i as int),
    {
        let ghost before = stream_tokens(*ts);
        push_doc_stringify(ts, fields[i].as_str(), true);
        push_doc(ts, ",");
        assert(fv[i as int] == fields@[i as int]@);
        assert(stream_tokens(*ts) =~= before + doc_stringify(raw_ident(fv[i as int])) + doc_attr(","@));
    }
}

/// Appends each of a list of token streams.
fn push_all(ts: &mut TokenStream, parts: &Vec<TokenStream>)
    ensures
        stream_tokens(*final(ts)) == stream_tokens(*old(ts)) + concat_tokens(
            parts@.map_values(|p: TokenStream| stream_tokens(p)),
            parts@.len() as int,
        ),
{
    let ghost start = stream_tokens(*ts);
    let ghost pv = parts@.map_values(|p: TokenStream| stream_tokens(p));
    for i in 0..parts.len()
        invariant
            pv == parts@.map_values(|p: TokenStream| stream_tokens(p)),
            stream_tokens(*ts) == start + concat_tokens(pv, i as int),
    {
        append_stream(ts, &parts[i]);
        assert(stream_tokens(*ts) =~= start + concat_tokens(pv, i + 1));
    }
}

/// The first `n` token sequences, joined.
pub open spec fn concat_tokens(parts: Seq<Seq<Tok>>, n: int) -> Seq<Tok>
    decreases n,
{
    if n <= 0 {
        Seq::empty()
    } else {
        concat_tokens(parts, n - 1) + parts[n - 1]
    }
}


/// `scope: &mut crate::Scope`
pub open spec fn scope_param() -> Seq<Tok> {
    seq![ident("scope"@), punct(':'), punct('&'), ident("mut"@)] + crate_path("Scope"@)
}

/// `crate::Result<crate::Operation>`
pub open spec fn result_op() -> Seq<Tok> {
    crate_path("Result"@) + seq![punct('<')] + crate_path("Operation"@) + seq![punct('>')]
}

/// The builder's `build` method: converts its inputs and calls `build_impl`.
pub open spec fn build_fn(c: Seq<char>, fields: Seq<Seq<char>>, numbers: Seq<Option<Seq<char>>>) -> Seq<Tok> {
    let n = fields.len() as int;
    doc_attr("Builds the `"@) + doc_attr(c) + doc_attr("` operation."@) + seq![
        ident("pub"@),
        ident("fn"@),
        ident("build"@),
        punct('<'),
    ] + generic_params(numbers, n) + seq![
        punct('>'),
        group(
            Delim::Parenthesis,
            seq![punct('&'), ident("self"@), punct(',')] + alias_params(fields, n) + scope_param(),
        ),
    ] + rarrow() + result_op() + seq![
        group(
            Delim::Brace,
            seq![
                ident("self"@),
                punct('.'),
                ident("build_impl"@),
                group(Delim::Parenthesis, into_args(fields, n) + seq![ident("scope"@)]),
            ],
        ),
    ]
}

/// The loop that adds the builder's control inputs.
pub open spec fn control_loop() -> Seq<Tok> {
    seq![
        ident("for"@),
        ident("op"@),
        ident("in"@),
        punct('&'),
        ident("self"@),
        punct('.'),
        ident("control_inputs"@),
        group(
            Delim::Brace,
            seq![
                ident("builder"@),
                punct('.'),
                ident("add_control_input"@),
                group(Delim::Parenthesis, seq![ident("op"@)]),
                punct(';'),
            ],
        ),
    ]
}

/// `Ok(())`
pub open spec fn ok_unit() -> Seq<Tok> {
    seq![ident("Ok"@), group(Delim::Parenthesis, seq![group(Delim::Parenthesis, Seq::empty())])]
}

/// `scope.new_operation("c", |builder| { body })`
pub open spec fn new_operation_call(c: Seq<char>, body: Seq<Tok>) -> Seq<Tok> {
    seq![
        ident("scope"@),
        punct('.'),
        ident("new_operation"@),
        group(
            Delim::Parenthesis,
            seq![
                str_lit(c),
                punct(','),
                punct('|'),
                ident("builder"@),
                punct('|'),
                group(Delim::Brace, body),
            ],
        ),
    ]
}

/// The builder's `build_impl` method: creates the operation in the scope
/// with its inputs, control inputs, list lengths and attributes.
pub open spec fn build_impl_fn(
    c: Seq<char>,
    fields: Seq<Seq<char>>,
    numbers: Seq<Option<Seq<char>>>,
    attr_code: Seq<Tok>,
) -> Seq<Tok> {
    let n = fields.len() as int;
    seq![
        ident("fn"@),
        ident("build_impl"@),
        group(
            Delim::Parenthesis,
            seq![punct('&'), ident("self"@), punct(',')] + typed_params(fields, numbers, n)
                + scope_param(),
        ),
    ] + rarrow() + result_op() + seq![
        group(
            Delim::Brace,
            new_operation_call(
                c,
                add_inputs(fields, numbers, n) + control_loop() + set_lengths(fields, numbers, n)
                    + attr_code + std_path("result"@, "Result"@) + colon2() + ok_unit(),
            ),
        ),
    ]
}

/// The builder's `build_instance` method: creates the operation like
/// `build_impl`, control inputs included, and wraps it in an instance.
pub open spec fn build_instance_fn(
    c: Seq<char>,
    inst: Seq<char>,
    fields: Seq<Seq<char>>,
    numbers: Seq<Option<Seq<char>>>,
    attr_code: Seq<Tok>,
) -> Seq<Tok> {
    let n = fields.len() as int;
    doc_attr("Builds a new instance of '"@) + doc_attr(c) + doc_attr(
        "' Operation with it's Outputs and Inputs exposed as methods."@,
    ) + seq![
        ident("pub"@),
        ident("fn"@),
        ident("build_instance"@),
        group(
            Delim::Parenthesis,
            seq![punct('&'), ident("self"@), punct(',')] + typed_params(fields, numbers, n)
                + scope_param(),
        ),
    ] + rarrow() + crate_path("Result"@) + seq![punct('<'), ident(inst), punct('>')] + seq![
        group(
            Delim::Brace,
            seq![ident("let"@), ident("op"@), punct('=')] + new_operation_call(
                c,
                add_inputs(fields, numbers, n) + control_loop() + set_lengths(fields, numbers, n)
                    + attr_code + ok_unit(),
            ) + seq![
                punct('?'),
                punct(';'),
                ident("Ok"@),
                group(Delim::Parenthesis, seq![ident(inst), group(Delim::Brace, seq![ident("op"@)])]),
            ],
        ),
    ]
}

fn push_scope_param(ts: &mut TokenStream)
    ensures
        stream_tokens(*final(ts)) == stream_tokens(*old(ts)) + scope_param(),
{
    proof {
        reveal_strlit("scope");
        reveal_strlit("mut");
        reveal_strlit("Scope");
    }
    let ghost start = stream_tokens(*ts);
    push_ident(ts, "scope");
    push_punct(ts, ':', false);
    push_punct(ts, '&', false);
    push_ident(ts, "mut");
    push_crate_path(ts, "Scope");
    assert(stream_tokens(*ts) =~= start + scope_param());
}

fn push_result_op(ts: &mut TokenStream)
    ensures
        stream_tokens(*final(ts)) == stream_tokens(*old(ts)) + result_op(),
{
    proof {
        reveal_strlit("Result");
        reveal_strlit("Operation");
    }
    let ghost start = stream_tokens(*ts);
    push_crate_path(ts, "Result");
    push_punct(ts, '<', false);
    push_crate_path(ts, "Operation");
    push_punct(ts, '>', false);
    assert(stream_tokens(*ts) =~= start + result_op());
}

fn push_self_param(ts: &mut TokenStream)
    ensures
        stream_tokens(*final(ts)) == stream_tokens(*old(ts)) + seq![
            punct('&'),
            ident("self"@),
            punct(','),
        ],
{
    proof {
        reveal_strlit("self");
    }
    push_punct(ts, '&', false);
    push_ident(ts, "self");
    push_punct(ts, ',', false);
}

fn push_ok_unit(ts: &mut TokenStream)
    ensures
        stream_tokens(*final(ts)) == stream_tokens(*old(ts)) + ok_unit(),
{
    proof {
        reveal_strlit("Ok");
    }
    let ghost start = stream_tokens(*ts);
    push_ident(ts, "Ok");
    let mut unit = new_stream();
    push_group(&mut unit, Delim::Parenthesis, new_stream());
    assert(stream_tokens(unit) =~= seq![group(Delim::Parenthesis, Seq::<Tok>::empty())]);
    push_group(ts, Delim::Parenthesis, unit);
    assert(stream_tokens(*ts) =~= start + ok_unit());
}

fn push_control_loop(ts: &mut TokenStream)
    ensures
        stream_tokens(*final(ts)) == stream_tokens(*old(ts)) + control_loop(),
{
    proof {
        reveal_strlit("for");
        reveal_strlit("op");
        reveal_strlit("in");
        reveal_strlit("self");
        reveal_strlit("control_inputs");
        reveal_strlit("builder");
        reveal_strlit("add_control_input");
    }
    let ghost start = stream_tokens(*ts);
    push_ident(ts, "for");
    push_ident(ts, "op");
    push_ident(ts, "in");
    push_punct(ts, '&', false);
    push_ident(ts, "self");
    push_punct(ts, '.', false);
    push_ident(ts, "control_inputs");
    let mut op = new_stream();
    push_ident(&mut op, "op");
    assert(stream_tokens(op) =~= seq![ident("op"@)]);
    let mut body = new_stream();
    push_ident(&mut body, "builder");
    push_punct(&mut body, '.', false);
    push_ident(&mut body, "add_control_input");
    push_group(&mut body, Delim::Parenthesis, op);
    push_punct(&mut body, ';', false);
    assert(stream_tokens(body) =~= seq![
        ident("builder"@),
        punct('.'),
        ident("add_control_input"@),
        group(Delim::Parenthesis, seq![ident("op"@)]),
        punct(';'),
    ]);
    push_group(ts, Delim::Brace, body);
    assert(stream_tokens(*ts) =~= start + control_loop());
}

fn push_new_operation_call(ts: &mut TokenStream, c_name: &str, body: TokenStream)
    ensures
        stream_tokens(*final(ts)) == stream_tokens(*old(ts)) + new_operation_call(
            c_name@,
            stream_tokens(body),
        ),
{
    proof {
        reveal_strlit("scope");
        reveal_strlit("new_operation");
        reveal_strlit("builder");
    }
    let ghost start = stream_tokens(*ts);
    let ghost body_tokens = stream_tokens(body);
    push_ident(ts, "scope");
    push_punct(ts, '.', false);
    push_ident(ts, "new_operation");
    let mut args = new_stream();
    push_str_lit(&mut args, c_name);
    push_punct(&mut args, ',', false);
    push_punct(&mut args, '|', false);
    push_ident(&mut args, "builder");
    push_punct(&mut args, '|', false);
    push_group(&mut args, Delim::Brace, body);
    assert(stream_tokens(args) =~= seq![
        str_lit(c_name@),
        punct(','),
        punct('|'),
        ident("builder"@),
        punct('|'),
        group(Delim::Brace, body_tokens),
    ]);
    push_group(ts, Delim::Parenthesis, args);
    assert(stream_tokens(*ts) =~= start + new_operation_call(c_name@, body_tokens));
}

#[verifier::rlimit(40)]
fn push_build_fn(
    ts: &mut TokenStream,
    c_name: &str,
    fields: &Vec<String>,
    numbers: &Vec<Option<&str>>,
    aliases: &Vec<String>,
)
    requires
        fields@.len() == numbers@.len(),
        fields@.len() == aliases@.len(),
        forall|i: int| 0 <= i < aliases@.len() ==> (#[trigger] aliases@[i])@ == alias_name(i as nat),
        forall|i: int| 0 <= i < fields@.len() ==> valid_raw_ident((#[trigger] fields@[i])@),
    ensures
        stream_tokens(*final(ts)) == stream_tokens(*old(ts)) + build_fn(
            c_name@,
            str_views(fields@),
            opt_views(numbers@),
        ),
{
    proof {
        reveal_strlit("pub");
        reveal_strlit("fn");
        reveal_strlit("build");
        reveal_strlit("self");
        reveal_strlit("build_impl");
        reveal_strlit("scope");
    }
    let ghost start = stream_tokens(*ts);
    let ghost fv = str_views(fields@);
    let ghost nv = opt_views(numbers@);
    let ghost n = fields@.len() as int;
    push_doc(ts, "Builds the `");
    push_doc(ts, c_name);
    push_doc(ts, "` operation.");
    push_ident(ts, "pub");
    push_ident(ts, "fn");
    push_ident(ts, "build");
    push_punct(ts, '<', false);
    push_generic_params(ts, numbers, aliases);
    push_punct(ts, '>', false);
    let mut params = new_stream();
    push_self_param(&mut params);
    push_alias_params(&mut params, fields, aliases);
    push_scope_param(&mut params);
    assert(stream_tokens(params) =~= seq![punct('&'), ident("self"@), punct(',')] + alias_params(
        fv,
        n,
    ) + scope_param());
    push_group(ts, Delim::Parenthesis, params);
    push_rarrow(ts);
    push_result_op(ts);
    let mut args = new_stream();
    push_into_args(&mut args, fields);
    push_ident(&mut args, "scope");
    assert(stream_tokens(args) =~= into_args(fv, n) + seq![ident("scope"@)]);
    let mut body = new_stream();
    push_ident(&mut body, "self");
    push_punct(&mut body, '.', false);
    push_ident(&mut body, "build_impl");
    push_group(&mut body, Delim::Parenthesis, args);
    assert(stream_tokens(body) =~= seq![
        ident("self"@),
        punct('.'),
        ident("build_impl"@),
        group(Delim::Parenthesis, into_args(fv, n) + seq![ident("scope"@)]),
    ]);
    push_group(ts, Delim::Brace, body);
    assert(stream_tokens(*ts) =~= start + build_fn(c_name@, fv, nv));
}

#[verifier::rlimit(40)]
fn push_build_impl_fn(
    ts: &mut TokenStream,
    c_name: &str,
    fields: &Vec<String>,
    numbers: &Vec<Option<&str>>,
    set_attrs: &Vec<TokenStream>,
)
    requires
        fields@.len() == numbers@.len(),
        forall|i: int| 0 <= i < fields@.len() ==> valid_raw_ident((#[trigger] fields@[i])@),
    ensures
        stream_tokens(*final(ts)) == stream_tokens(*old(ts)) + build_impl_fn(
            c_name@,
            str_views(fields@),
            opt_views(numbers@),
            concat_tokens(set_attrs@.map_values(|p: TokenStream| stream_tokens(p)), set_attrs@.len() as int),
        ),
{
    proof {
        reveal_strlit("fn");
        reveal_strlit("build_impl");
        reveal_strlit("result");
        reveal_strlit("Result");
    }
    let ghost start = stream_tokens(*ts);
    let ghost fv = str_views(fields@);
    let ghost nv = opt_views(numbers@);
    let ghost n = fields@.len() as int;
    let ghost attr_code = concat_tokens(
        set_attrs@.map_values(|p: TokenStream| stream_tokens(p)),
        set_attrs@.len() as int,
    );
    push_ident(ts, "fn");
    push_ident(ts, "build_impl");
    let mut params = new_stream();
    push_self_param(&mut params);
    push_typed_params(&mut params, fields, numbers);
    push_scope_param(&mut params);
    assert(stream_tokens(params) =~= seq![punct('&'), ident("self"@), punct(',')] + typed_params(
        fv,
        nv,
        n,
    ) + scope_param());
    push_group(ts, Delim::Parenthesis, params);
    push_rarrow(ts);
    push_result_op(ts);
    let mut closure = new_stream();
    push_add_inputs(&mut closure, fields, numbers);
    push_control_loop(&mut closure);
    push_set_lengths(&mut closure, fields, numbers);
    push_all(&mut closure, set_attrs);
    push_std_path(&mut closure, "result", "Result");
    push_colon2(&mut closure);
    push_ok_unit(&mut closure);
    let ghost closure_tokens = add_inputs(fv, nv, n) + control_loop() + set_lengths(fv, nv, n)
        + attr_code + std_path("result"@, "Result"@) + colon2() + ok_unit();
    assert(stream_tokens(closure) =~= closure_tokens);
    let mut body = new_stream();
    push_new_operation_call(&mut body, c_name, closure);
    assert(stream_tokens(body) =~= new_operation_call(c_name@, closure_tokens));
    push_group(ts, Delim::Brace, body);
    assert(stream_tokens(*ts) =~= start + build_impl_fn(c_name@, fv, nv, attr_code));
}

#[verifier::rlimit(40)]
fn push_build_instance_fn(
    ts: &mut TokenStream,
    c_name: &str,
    inst_name: &str,
    fields: &Vec<String>,
    numbers: &Vec<Option<&str>>,
    set_attrs: &Vec<TokenStream>,
)
    requires
        valid_ident(inst_name@),
        fields@.len() == numbers@.len(),
        forall|i: int| 0 <= i < fields@.len() ==> valid_raw_ident((#[trigger] fields@[i])@),
    ensures
        stream_tokens(*final(ts)) == stream_tokens(*old(ts)) + build_instance_fn(
            c_name@,
            inst_name@,
            str_views(fields@),
            opt_views(numbers@),
            concat_tokens(set_attrs@.map_values(|p: TokenStream| stream_tokens(p)), set_attrs@.len() as int),
        ),
{
    proof {
        reveal_strlit("pub");
        reveal_strlit("fn");
        reveal_strlit("build_instance");
        reveal_strlit("Result");
        reveal_strlit("let");
        reveal_strlit("op");
        reveal_strlit("Ok");
    }
    let ghost start = stream_tokens(*ts);
    let ghost fv = str_views(fields@);
    let ghost nv = opt_views(numbers@);
    let ghost n = fields@.len() as int;
    let ghost attr_code = concat_tokens(
        set_attrs@.map_values(|p: TokenStream| stream_tokens(p)),
        set_attrs@.len() as int,
    );
    push_doc(ts, "Builds a new instance of '");
    push_doc(ts, c_name);
    push_doc(ts, "' Operation with it's Outputs and Inputs exposed as methods.");
    push_ident(ts, "pub");
    push_ident(ts, "fn");
    push_ident(ts, "build_instance");
    let mut params = new_stream();
    push_self_param(&mut params);
    push_typed_params(&mut params, fields, numbers);
    push_scope_param(&mut params);
    assert(stream_tokens(params) =~= seq![punct('&'), ident("self"@), punct(',')] + typed_params(
        fv,
        nv,
        n,
    ) + scope_param());
    push_group(ts, Delim::Parenthesis, params);
    push_rarrow(ts);
    push_crate_path(ts, "Result");
    push_punct(ts, '<', false);
    push_ident(ts, inst_name);
    push_punct(ts, '>', false);
    let mut closure = new_stream();
    push_add_inputs(&mut closure, fields, numbers);
    push_control_loop(&mut closure);
    push_set_lengths(&mut closure, fields, numbers);
    push_all(&mut closure, set_attrs);
    push_ok_unit(&mut closure);
    let ghost closure_tokens = add_inputs(fv, nv, n) + control_loop() + set_lengths(fv, nv, n)
        + attr_code + ok_unit();
    assert(stream_tokens(closure) =~= closure_tokens);
    let mut op = new_stream();
    push_ident(&mut op, "op");
    assert(stream_tokens(op) =~= seq![ident("op"@)]);
    let mut value = new_stream();
    push_ident(&mut value, inst_name);
    push_group(&mut value, Delim::Brace, op);
    assert(stream_tokens(value) =~= seq![ident(inst_name@), group(Delim::Brace, seq![ident("op"@)])]);
    let mut body = new_stream();
    push_ident(&mut body, "let");
    push_ident(&mut body, "op");
    push_punct(&mut body, '=', false);
    push_new_operation_call(&mut body, c_name, closure);
    push_punct(&mut body, '?', false);
    push_punct(&mut body, ';', false);
    push_ident(&mut body, "Ok");
    push_group(&mut body, Delim::Parenthesis, value);
    assert(stream_tokens(body) =~= seq![ident("let"@), ident("op"@), punct('=')] + new_operation_call(
        c_name@,
        closure_tokens,
    ) + seq![
        punct('?'),
        punct(';'),
        ident("Ok"@),
        group(Delim::Parenthesis, seq![ident(inst_name@), group(Delim::Brace, seq![ident("op"@)])]),
    ]);
    push_group(ts, Delim::Brace, body);
    assert(stream_tokens(*ts) =~= start + build_instance_fn(c_name@, inst_name@, fv, nv, attr_code));
}


/// The builder's methods.
pub open spec fn impl_builder(
    c: Seq<char>,
    inst: Seq<char>,
    fields: Seq<Seq<char>>,
    numbers: Seq<Option<Seq<char>>>,
    names: Seq<Seq<char>>,
    types: Seq<AttrType>,
    attr_code: Seq<Tok>,
) -> Seq<Tok> {
    seq![
        ident("impl"@),
        raw_ident(c),
        group(
            Delim::Brace,
            new_fn() + setter_fns(c, names, types, names.len() as int) + add_control_fn()
                + build_fn(c, fields, numbers) + build_impl_fn(c, fields, numbers, attr_code)
                + build_instance_fn(c, inst, fields, numbers, attr_code),
        ),
    ]
}

/// The shorthand function: `Builder::new().build(inputs..., scope)`.
pub open spec fn shorthand_fn(c: Seq<char>, fields: Seq<Seq<char>>, numbers: Seq<Option<Seq<char>>>) -> Seq<Tok> {
    let n = fields.len() as int;
    doc_attr("Shorthand for `"@) + doc_stringify(raw_ident(c)) + doc_attr("::new().build("@)
        + field_docs(fields, n) + doc_stringify(ident("scope"@)) + doc_attr(")`."@) + seq![
        ident("pub"@),
        ident("fn"@),
        raw_ident(spec_snake_name(c)),
        punct('<'),
    ] + generic_params(numbers, n) + seq![
        punct('>'),
        group(Delim::Parenthesis, alias_params(fields, n) + scope_param()),
    ] + rarrow() + result_op() + seq![
        group(
            Delim::Brace,
            seq![raw_ident(c)] + colon2() + seq![
                ident("new"@),
                group(Delim::Parenthesis, Seq::empty()),
                punct('.'),
                ident("build"@),
                group(Delim::Parenthesis, into_args(fields, n) + seq![ident("scope"@)]),
            ],
        ),
    ]
}

/// The instance struct, holding a built operation.
pub open spec fn inst_struct(c: Seq<char>, inst: Seq<char>) -> Seq<Tok> {
    doc_attr("An instance of'"@) + doc_attr(c) + doc_attr(
        "' Operation with it's Outputs and Inputs exposed as methods."@,
    ) + seq![
        punct('#'),
        group(
            Delim::Bracket,
            seq![
                ident("derive"@),
                group(Delim::Parenthesis, seq![ident("Debug"@), punct(','), ident("Clone"@)]),
            ],
        ),
        ident("pub"@),
        ident("struct"@),
        ident(inst),
        punct('<'),
        ident("O"@),
        punct('>'),
        group(
            Delim::Brace,
            doc_attr("An instance of a fully built "@) + doc_attr(c) + doc_attr(
                " Operation in a Tensorflow graph."@,
            ) + seq![ident("pub"@), ident("op"@), punct(':'), ident("O"@)],
        ),
    ]
}

/// The instance's edge methods: outputs, then inputs.
pub open spec fn impl_inst(inst: Seq<char>, output_code: Seq<Tok>, input_code: Seq<Tok>) -> Seq<Tok> {
    seq![
        ident("impl"@),
        punct('<'),
        ident("O"@),
        punct(':'),
        ident("Clone"@),
        punct('>'),
        ident(inst),
        punct('<'),
        ident("O"@),
        punct('>'),
        group(Delim::Brace, output_code + input_code),
    ]
}

/// The conversion from an instance to its operation.
pub open spec fn impl_from(inst: Seq<char>) -> Seq<Tok> {
    seq![
        ident("impl"@),
        punct('<'),
        ident("O"@),
        punct('>'),
        ident("From"@),
        punct('<'),
        ident(inst),
        punct('<'),
        ident("O"@),
    ] + shr() + seq![
        ident("for"@),
        ident("O"@),
        group(
            Delim::Brace,
            seq![
                ident("fn"@),
                ident("from"@),
                group(Delim::Parenthesis, seq![ident("inst"@), punct(':'), ident(inst)]),
            ] + rarrow() + crate_path("Operation"@) + seq![
                group(Delim::Brace, seq![ident("inst"@), punct('.'), ident("op"@)]),
            ],
        ),
    ]
}

fn push_impl_builder(
    ts: &mut TokenStream,
    c_name: &str,
    inst_name: &str,
    fields: &Vec<String>,
    numbers: &Vec<Option<&str>>,
    aliases: &Vec<String>,
    names: &Vec<String>,
    types: &Vec<AttrType>,
    set_attrs: &Vec<TokenStream>,
)
    requires
        valid_raw_ident(c_name@),
        valid_ident(inst_name@),
        fields@.len() == numbers@.len(),
        fields@.len() == aliases@.len(),
        forall|i: int| 0 <= i < aliases@.len() ==> (#[trigger] aliases@[i])@ == alias_name(i as nat),
        forall|i: int| 0 <= i < fields@.len() ==> valid_raw_ident((#[trigger] fields@[i])@),
        names@.len() == types@.len(),
        forall|i: int| 0 <= i < names@.len() ==> valid_raw_ident((#[trigger] names@[i])@),
    ensures
        stream_tokens(*final(ts)) == stream_tokens(*old(ts)) + impl_builder(
            c_name@,
            inst_name@,
            str_views(fields@),
            opt_views(numbers@),
            str_views(names@),
            types@,
            concat_tokens(set_attrs@.map_values(|p: TokenStream| stream_tokens(p)), set_attrs@.len() as int),
        ),
{
    proof {
        reveal_strlit("impl");
    }
    let ghost start = stream_tokens(*ts);
    let ghost fv = str_views(fields@);
    let ghost nv = opt_views(numbers@);
    let ghost attr_code = concat_tokens(
        set_attrs@.map_values(|p: TokenStream| stream_tokens(p)),
        set_attrs@.len() as int,
    );
    push_ident(ts, "impl");
    push_raw_ident(ts, c_name);
    let mut body = new_stream();
    push_new_fn(&mut body);
    push_setter_fns(&mut body, c_name, names, types);
    push_add_control_fn(&mut body);
    push_build_fn(&mut body, c_name, fields, numbers, aliases);
    push_build_impl_fn(&mut body, c_name, fields, numbers, set_attrs);
    push_build_instance_fn(&mut body, c_name, inst_name, fields, numbers, set_attrs);
    assert(str_views(names@) == names@.map_values(|s: String| s@));
    assert(stream_tokens(body) =~= new_fn() + setter_fns(c_name@, str_views(names@), types@, names@.len() as int)
        + add_control_fn() + build_fn(c_name@, fv, nv) + build_impl_fn(c_name@, fv, nv, attr_code)
        + build_instance_fn(c_name@, inst_name@, fv, nv, attr_code));
    push_group(ts, Delim::Brace, body);
    assert(stream_tokens(*ts) =~= start + impl_builder(
        c_name@,
        inst_name@,
        fv,
        nv,
        str_views(names@),
        types@,
        attr_code,
    ));
}

#[verifier::rlimit(40)]
fn push_shorthand_fn(
    ts: &mut TokenStream,
    c_name: &str,
    short_name: &str,
    fields: &Vec<String>,
    numbers: &Vec<Option<&str>>,
    aliases: &Vec<String>,
)
    requires
        valid_raw_ident(c_name@),
        short_name@ == spec_snake_name(c_name@),
        valid_raw_ident(short_name@),
        fields@.len() == numbers@.len(),
        fields@.len() == aliases@.len(),
        forall|i: int| 0 <= i < aliases@.len() ==> (#[trigger] aliases@[i])@ == alias_name(i as nat),
        forall|i: int| 0 <= i < fields@.len() ==> valid_raw_ident((#[trigger] fields@[i])@),
    ensures
        stream_tokens(*final(ts)) == stream_tokens(*old(ts)) + shorthand_fn(
            c_name@,
            str_views(fields@),
            opt_views(numbers@),
        ),
{
    proof {
        reveal_strlit("scope");
        reveal_strlit("pub");
        reveal_strlit("fn");
        reveal_strlit("new");
        reveal_strlit("build");
    }
    let ghost start = stream_tokens(*ts);
    let ghost fv = str_views(fields@);
    let ghost nv = opt_views(numbers@);
    let ghost n = fields@.len() as int;
    push_doc(ts, "Shorthand for `");
    push_doc_stringify(ts, c_name, true);
    push_doc(ts, "::new().build(");
    push_field_docs(ts, fields);
    push_doc_stringify(ts, "scope", false);
    push_doc(ts, ")`.");
    push_ident(ts, "pub");
    push_ident(ts, "fn");
    push_raw_ident(ts, short_name);
    push_punct(ts, '<', false);
    push_generic_params(ts, numbers, aliases);
    push_punct(ts, '>', false);
    let mut params = new_stream();
    push_alias_params(&mut params, fields, aliases);
    push_scope_param(&mut params);
    assert(stream_tokens(params) =~= alias_params(fv, n) + scope_param());
    push_group(ts, Delim::Parenthesis, params);
    push_rarrow(ts);
    push_result_op(ts);
    let mut args = new_stream();
    push_into_args(&mut args, fields);
    push_ident(&mut args, "scope");
    assert(stream_tokens(args) =~= into_args(fv, n) + seq![ident("scope"@)]);
    let mut body = new_stream();
    push_raw_ident(&mut body, c_name);
    push_colon2(&mut body);
    push_ident(&mut body, "new");
    push_group(&mut body, Delim::Parenthesis, new_stream());
    push_punct(&mut body, '.', false);
    push_ident(&mut body, "build");
    push_group(&mut body, Delim::Parenthesis, args);
    assert(stream_tokens(body) =~= seq![raw_ident(c_name@)] + colon2() + seq![
        ident("new"@),
        group(Delim::Parenthesis, Seq::empty()),
        punct('.'),
        ident("build"@),
        group(Delim::Parenthesis, into_args(fv, n) + seq![ident("scope"@)]),
    ]);
    push_group(ts, Delim::Brace, body);
    assert(stream_tokens(*ts) =~= start + shorthand_fn(c_name@, fv, nv));
}

fn push_inst_struct(ts: &mut TokenStream, c_name: &str, inst_name: &str)
    requires
        valid_ident(inst_name@),
    ensures
        stream_tokens(*final(ts)) == stream_tokens(*old(ts)) + inst_struct(c_name@, inst_name@),
{
    proof {
        reveal_strlit("derive");
        reveal_strlit("Debug");
        reveal_strlit("Clone");
        reveal_strlit("pub");
        reveal_strlit("struct");
        reveal_strlit("O");
        reveal_strlit("op");
    }
    let ghost start = stream_tokens(*ts);
    push_doc(ts, "An instance of'");
    push_doc(ts, c_name);
    push_doc(ts, "' Operation with it's Outputs and Inputs exposed as methods.");
    push_punct(ts, '#', false);
    let mut traits = new_stream();
    push_ident(&mut traits, "Debug");
    push_punct(&mut traits, ',', false);
    push_ident(&mut traits, "Clone");
    assert(stream_tokens(traits) =~= seq![ident("Debug"@), punct(','), ident("Clone"@)]);
    let mut attr = new_stream();
    push_ident(&mut attr, "derive");
    push_group(&mut attr, Delim::Parenthesis, traits);
    assert(stream_tokens(attr) =~= seq![
        ident("derive"@),
        group(Delim::Parenthesis, seq![ident("Debug"@), punct(','), ident("Clone"@)]),
    ]);
    push_group(ts, Delim::Bracket, attr);
    push_ident(ts, "pub");
    push_ident(ts, "struct");
    push_ident(ts, inst_name);
    push_punct(ts, '<', false);
    push_ident(ts, "O");
    push_punct(ts, '>', false);
    let mut fields = new_stream();
    push_doc(&mut fields, "An instance of a fully built ");
    push_doc(&mut fields, c_name);
    push_doc(&mut fields, " Operation in a Tensorflow graph.");
    push_ident(&mut fields, "pub");
    push_ident(&mut fields, "op");
    push_punct(&mut fields, ':', false);
    push_ident(&mut fields, "O");
    assert(stream_tokens(fields) =~= doc_attr("An instance of a fully built "@) + doc_attr(c_name@)
        + doc_attr(" Operation in a Tensorflow graph."@) + seq![
        ident("pub"@),
        ident("op"@),
        punct(':'),
        ident("O"@),
    ]);
    push_group(ts, Delim::Brace, fields);
    assert(stream_tokens(*ts) =~= start + inst_struct(c_name@, inst_name@));
}

fn push_impl_inst(
    ts: &mut TokenStream,
    inst_name: &str,
    output_getter: &Vec<TokenStream>,
    input_getter: &Vec<TokenStream>,
)
    requires
        valid_ident(inst_name@),
    ensures
        stream_tokens(*final(ts)) == stream_tokens(*old(ts)) + impl_inst(
            inst_name@,
            concat_tokens(output_getter@.map_values(|p: TokenStream| stream_tokens(p)), output_getter@.len() as int),
            concat_tokens(input_getter@.map_values(|p: TokenStream| stream_tokens(p)), input_getter@.len() as int),
        ),
{
    proof {
        reveal_strlit("impl");
        reveal_strlit("O");
        reveal_strlit("Clone");
    }
    let ghost start = stream_tokens(*ts);
    push_ident(ts, "impl");
    push_punct(ts, '<', false);
    push_ident(ts, "O");
    push_punct(ts, ':', false);
    push_ident(ts, "Clone");
    push_punct(ts, '>', false);
    push_ident(ts, inst_name);
    push_punct(ts, '<', false);
    push_ident(ts, "O");
    push_punct(ts, '>', false);
    let mut body = new_stream();
    push_all(&mut body, output_getter);
    push_all(&mut body, input_getter);
    push_group(ts, Delim::Brace, body);
    assert(stream_tokens(*ts) =~= start + impl_inst(
        inst_name@,
        concat_tokens(output_getter@.map_values(|p: TokenStream| stream_tokens(p)), output_getter@.len() as int),
        concat_tokens(input_getter@.map_values(|p: TokenStream| stream_tokens(p)), input_getter@.len() as int),
    ));
}

fn push_impl_from(ts: &mut TokenStream, inst_name: &str)
    requires
        valid_ident(inst_name@),
    ensures
        stream_tokens(*final(ts)) == stream_tokens(*old(ts)) + impl_from(inst_name@),
{
    proof {
        reveal_strlit("impl");
        reveal_strlit("O");
        reveal_strlit("From");
        reveal_strlit("for");
        reveal_strlit("fn");
        reveal_strlit("from");
        reveal_strlit("inst");
        reveal_strlit("Operation");
        reveal_strlit("op");
    }
    let ghost start = stream_tokens(*ts);
    push_ident(ts, "impl");
    push_punct(ts, '<', false);
    push_ident(ts, "O");
    push_punct(ts, '>', false);
    push_ident(ts, "From");
    push_punct(ts, '<', false);
    push_ident(ts, inst_name);
    push_punct(ts, '<', false);
    push_ident(ts, "O");
    push_shr(ts);
    push_ident(ts, "for");
    push_ident(ts, "O");
    let mut param = new_stream();
    push_ident(&mut param, "inst");
    push_punct(&mut param, ':', false);
    push_ident(&mut param, inst_name);
    assert(stream_tokens(param) =~= seq![ident("inst"@), punct(':'), ident(inst_name@)]);
    let mut value = new_stream();
    push_ident(&mut value, "inst");
    push_punct(&mut value, '.', false);
    push_ident(&mut value, "op");
    assert(stream_tokens(value) =~= seq![ident("inst"@), punct('.'), ident("op"@)]);
    let mut body = new_stream();
    push_ident(&mut body, "fn");
    push_ident(&mut body, "from");
    push_group(&mut body, Delim::Parenthesis, param);
    push_rarrow(&mut body);
    push_crate_path(&mut body, "Operation");
    push_group(&mut body, Delim::Brace, value);
    assert(stream_tokens(body) =~= seq![
        ident("fn"@),
        ident("from"@),
        group(Delim::Parenthesis, seq![ident("inst"@), punct(':'), ident(inst_name@)]),
    ] + rarrow() + crate_path("Operation"@) + seq![
        group(Delim::Brace, seq![ident("inst"@), punct('.'), ident("op"@)]),
    ]);
    push_group(ts, Delim::Brace, body);
    assert(stream_tokens(*ts) =~= start + impl_from(inst_name@));
}


/// The snake-case name of each argument.
pub open spec fn arg_fields(args: Seq<ArgDef>) -> Seq<Seq<char>> {
    args.map_values(|a: ArgDef| spec_snake_name(a.name@))
}

/// The length attribute of each argument.
pub open spec fn arg_numbers(args: Seq<ArgDef>) -> Seq<Option<Seq<char>>> {
    args.map_values(|a: ArgDef| spec_number_attr(a))
}

/// The arguments before each argument.
pub open spec fn arg_prevs(args: Seq<ArgDef>) -> Seq<(nat, Seq<(Seq<char>, nat)>)> {
    Seq::new(args.len(), |i: int| spec_previous(args, i))
}

/// The name of each attribute.
pub open spec fn attr_names(attrs: Seq<AttrDef>) -> Seq<Seq<char>> {
    attrs.map_values(|a: AttrDef| a.name@)
}

/// The type of each attribute.
pub open spec fn attr_types(attrs: Seq<AttrDef>) -> Seq<AttrType> {
    attrs.map_values(|a: AttrDef| spec_attr_type(a.field_type@).unwrap())
}

/// The name of an operation's instance type.
pub open spec fn inst_name(c: Seq<char>) -> Seq<char> {
    c + "Inst"@
}

/// The operations whose code can be generated: every name that becomes an
/// identifier can be one, and every independent attribute has a known type
/// that has a setter.
#[verifier::opaque]
pub open spec fn op_ok(op: OpDef) -> bool {
    let attrs = independent_attr_defs(op);
    &&& valid_raw_ident(op.name@)
    &&& valid_raw_ident(spec_snake_name(op.name@))
    &&& forall|i: int|
        0 <= i < op.input_arg@.len() ==> valid_raw_ident(
            spec_snake_name((#[trigger] op.input_arg@[i]).name@),
        )
    &&& forall|i: int|
        0 <= i < op.output_arg@.len() ==> valid_raw_ident(
            spec_snake_name((#[trigger] op.output_arg@[i]).name@),
        )
    &&& fields_distinct(op.input_arg@)
    &&& fields_distinct(op.output_arg@)
    &&& forall|i: int|
        0 <= i < attrs.len() ==> {
            &&& valid_raw_ident((#[trigger] attrs[i]).name@)
            &&& spec_attr_type(attrs[i].field_type@) is Some
            &&& setter_method(spec_attr_type(attrs[i].field_type@).unwrap()) is Some
        }
}

/// The code generated for an operation: the builder struct and its methods,
/// the shorthand function, the instance struct with its edge methods, and
/// the conversion from an instance to its operation.
#[verifier::opaque]
pub open spec fn op_tokens(op: OpDef) -> Seq<Tok> {
    let c = op.name@;
    let inst = inst_name(c);
    let fi = arg_fields(op.input_arg@);
    let ni = arg_numbers(op.input_arg@);
    let fo = arg_fields(op.output_arg@);
    let no = arg_numbers(op.output_arg@);
    let attrs = independent_attr_defs(op);
    let names = attr_names(attrs);
    let types = attr_types(attrs);
    let attr_code = set_attrs(names, types, names.len() as int);
    builder_struct(c, names, types) + impl_builder(c, inst, fi, ni, names, types, attr_code)
        + shorthand_fn(c, fi, ni) + inst_struct(c, inst) + impl_inst(
        inst,
        edge_methods(fo, arg_prevs(op.output_arg@), no, "Output"@, c, fo.len() as int),
        edge_methods(fi, arg_prevs(op.input_arg@), ni, "Input"@, c, fi.len() as int),
    ) + impl_from(inst)
}

proof fn lemma_inst_valid(c: Seq<char>)
    requires
        valid_ident(c),
    ensures
        valid_ident(inst_name(c)),
{
    reveal_strlit("Inst");
    let s = inst_name(c);
    assert forall|j: int| 1 <= j < s.len() implies #[trigger] crate::tokens::xid_continue(s[j]) by {
        if j < c.len() {
            assert(s[j] == c[j]);
        } else {
            assert(s[j] == "Inst"@[j - c.len()]);
        }
    }
}

proof fn lemma_concat_set_attrs(parts: Seq<Seq<Tok>>, names: Seq<Seq<char>>, types: Seq<AttrType>, n: int)
    requires
        0 <= n <= parts.len(),
        n <= names.len(),
        n <= types.len(),
        forall|i: int|
            0 <= i < n ==> #[trigger] parts[i] == set_attr_tokens(
                raw_ident(names[i]),
                types[i],
                names[i],
                ident("builder"@),
            ),
    ensures
        concat_tokens(parts, n) == set_attrs(names, types, n),
    decreases n,
{
    if n > 0 {
        lemma_concat_set_attrs(parts, names, types, n - 1);
    }
}

proof fn lemma_concat_edge_methods(
    parts: Seq<Seq<Tok>>,
    fields: Seq<Seq<char>>,
    prevs: Seq<(nat, Seq<(Seq<char>, nat)>)>,
    numbers: Seq<Option<Seq<char>>>,
    edge_type: Seq<char>,
    c: Seq<char>,
    n: int,
)
    requires
        0 <= n <= parts.len(),
        forall|i: int|
            0 <= i < n ==> #[trigger] parts[i] == edge_method_tokens(
                raw_ident(fields[i]),
                edge_index_tokens(prevs[i].0, prevs[i].1),
                numbers[i],
                ident(edge_type),
                c,
            ),
    ensures
        concat_tokens(parts, n) == edge_methods(fields, prevs, numbers, edge_type, c, n),
    decreases n,
{
    if n > 0 {
        lemma_concat_edge_methods(parts, fields, prevs, numbers, edge_type, c, n - 1);
    }
}

/// The edge methods of a list of arguments.
fn edge_getters(
    fields: &Vec<String>,
    prevs: &Vec<crate::arguments::PreviousArguments>,
    numbers: &Vec<Option<&str>>,
    edge_type: &str,
    c_name: &str,
) -> (r: Vec<TokenStream>)
    requires
        fields@.len() == prevs@.len(),
        fields@.len() == numbers@.len(),
        forall|i: int| 0 <= i < fields@.len() ==> valid_raw_ident((#[trigger] fields@[i])@),
        valid_ident(edge_type@),
    ensures
        r@.len() == fields@.len(),
        forall|i: int|
            0 <= i < r@.len() ==> stream_tokens(#[trigger] r@[i]) == edge_method_tokens(
                raw_ident(fields@[i]@),
                edge_index_tokens(prevs@[i]@.0, prevs@[i]@.1),
                crate::arguments::opt_str_view(numbers@[i]),
                ident(edge_type@),
                c_name@,
            ),
{
    let mut r: Vec<TokenStream> = Vec::new();
    for i in 0..fields.len()
        invariant
            fields@.len() == prevs@.len(),
            fields@.len() == numbers@.len(),
            forall|j: int| 0 <= j < fields@.len() ==> valid_raw_ident((#[trigger] fields@[j])@),
            valid_ident(edge_type@),
            r@.len() == i,
            forall|j: int|
                0 <= j < i ==> stream_tokens(#[trigger] r@[j]) == edge_method_tokens(
                    raw_ident(fields@[j]@),
                    edge_index_tokens(prevs@[j]@.0, prevs@[j]@.1),
                    crate::arguments::opt_str_view(numbers@[j]),
                    ident(edge_type@),
                    c_name@,
                ),
    {
        r.push(
            crate::codegen::inst_edge_method(
                fields[i].as_str(),
                true,
                &prevs[i],
                numbers[i],
                edge_type,
                false,
                c_name,
            ),
        );
    }
    r
}

/// The code generated for one operation. Operations with a name that cannot
/// become an identifier, or with an attribute type that is unknown or has no
/// setter, are left out by `requires`.
#[verifier::rlimit(60)]
pub fn per_op_code(op: &crate::operation::Operation) -> (r: TokenStream)
    requires
        op_ok(*op.0),
    ensures
        stream_tokens(r) == op_tokens(*op.0),
{
    proof {
        reveal(op_ok);
        reveal(op_tokens);
        reveal_strlit("builder");
        reveal_strlit("Output");
        reveal_strlit("Input");
    }
    let ghost o = *op.0;
    let c_name = op.c_name();
    let mut inst_name = c_name.to_owned();
    inst_name.append("Inst");
    proof {
        lemma_inst_valid(c_name@);
    }
    let short_build_name = crate::text::snake_name(c_name);
    let rust_field_output = op.output().rust_field();
    let rust_field_input = op.input().rust_field();
    let previous_edges_output = op.output().previous_arguments();
    let previous_edges_input = op.input().previous_arguments();
    let c_number_attr_output = op.output().c_number_attr();
    let c_number_attr_input = op.input().c_number_attr();
    let in_type_alias = op.input_aliases();
    let attrs = op.independent_attrs();
    let ghost defs = independent_attr_defs(o);
    assert(attrs.spec_filtered() == defs);
    assert forall|i: int| 0 <= i < defs.len() implies spec_attr_type(
        (#[trigger] defs[i]).field_type@,
    ) is Some by {
        assert(valid_raw_ident(defs[i].name@));
    }
    let attr_name = attrs.name();
    let attr_type = attrs.types();
    let attr_c_name = attrs.c_name();

    let mut set_attrs: Vec<TokenStream> = Vec::new();
    for i in 0..attr_name.len()
        invariant
            op_ok(o),
            defs == independent_attr_defs(o),
            attr_name@.len() == defs.len(),
            attr_type@.len() == defs.len(),
            attr_c_name@.len() == defs.len(),
            forall|j: int| 0 <= j < attr_name@.len() ==> (#[trigger] attr_name@[j])@ == defs[j].name@,
            forall|j: int| 0 <= j < attr_c_name@.len() ==> (#[trigger] attr_c_name@[j])@ == defs[j].name@,
            forall|j: int|
                0 <= j < attr_type@.len() ==> Some(#[trigger] attr_type@[j]) == spec_attr_type(
                    defs[j].field_type@,
                ),
            set_attrs@.len() == i,
            forall|j: int|
                0 <= j < i ==> stream_tokens(#[trigger] set_attrs@[j]) == set_attr_tokens(
                    raw_ident(defs[j].name@),
                    attr_type@[j],
                    defs[j].name@,
                    ident("builder"@),
                ),
    {
        proof {
            reveal(op_ok);
            reveal_strlit("builder");
        }
        assert(valid_raw_ident(defs[i as int].name@));
        set_attrs.push(
            crate::codegen::buildfn_set_attr(
                attr_name[i].as_str(),
                true,
                &attr_type[i],
                attr_c_name[i],
                "builder",
                false,
            ),
        );
    }

    let output_getter = edge_getters(
        &rust_field_output,
        &previous_edges_output,
        &c_number_attr_output,
        "Output",
        c_name,
    );
    let input_getter = edge_getters(
        &rust_field_input,
        &previous_edges_input,
        &c_number_attr_input,
        "Input",
        c_name,
    );

    let mut ts = new_stream();
    push_builder_struct(&mut ts, c_name, &attr_name, &attr_type);
    push_impl_builder(
        &mut ts,
        c_name,
        inst_name.as_str(),
        &rust_field_input,
        &c_number_attr_input,
        &in_type_alias,
        &attr_name,
        &attr_type,
        &set_attrs,
    );
    push_shorthand_fn(
        &mut ts,
        c_name,
        short_build_name.as_str(),
        &rust_field_input,
        &c_number_attr_input,
        &in_type_alias,
    );
    push_inst_struct(&mut ts, c_name, inst_name.as_str());
    push_impl_inst(&mut ts, inst_name.as_str(), &output_getter, &input_getter);
    push_impl_from(&mut ts, inst_name.as_str());

    proof {
        let names = attr_names(defs);
        let types = attr_types(defs);
        assert(str_views(attr_name@) =~= names);
        assert(attr_type@ =~= types);
        let fi = arg_fields(o.input_arg@);
        let ni = arg_numbers(o.input_arg@);
        let fo = arg_fields(o.output_arg@);
        let no = arg_numbers(o.output_arg@);
        assert(str_views(rust_field_input@) =~= fi);
        assert(str_views(rust_field_output@) =~= fo);
        assert(opt_views(c_number_attr_input@) =~= ni);
        assert(opt_views(c_number_attr_output@) =~= no);
        lemma_concat_set_attrs(
            set_attrs@.map_values(|p: TokenStream| stream_tokens(p)),
            names,
            types,
            names.len() as int,
        );
        lemma_concat_edge_methods(
            output_getter@.map_values(|p: TokenStream| stream_tokens(p)),
            fo,
            arg_prevs(o.output_arg@),
            no,
            "Output"@,
            o.name@,
            fo.len() as int,
        );
        lemma_concat_edge_methods(
            input_getter@.map_values(|p: TokenStream| stream_tokens(p)),
            fi,
            arg_prevs(o.input_arg@),
            ni,
            "Input"@,
            o.name@,
            fi.len() as int,
        );
    }
    assert(stream_tokens(ts) =~= op_tokens(o));
    ts
}


/// Whether the snake-case name of every argument can be a raw identifier.
fn fields_valid(args: &Vec<ArgDef>) -> (r: bool)
    ensures
        r == (fields_distinct(args@) && forall|i: int|
            0 <= i < args@.len() ==> valid_raw_ident(spec_snake_name((#[trigger] args@[i]).name@))),
{
    let fields = crate::arguments::Arguments(args).rust_field();
    for i in 0..fields.len()
        invariant
            fields@.len() == args@.len(),
            forall|j: int|
                0 <= j < fields@.len() ==> (#[trigger] fields@[j])@ == spec_snake_name(
                    args@[j].name@,
                ),
            fields_distinct(args@) <==> forall|a: int, b: int|
                0 <= a < b < fields@.len() ==> (#[trigger] fields@[a])@ != (#[trigger] fields@[b])@,
            forall|j: int|
                0 <= j < i ==> valid_raw_ident(spec_snake_name((#[trigger] args@[j]).name@)),
            forall|a: int, b: int| 0 <= a < b < i ==> (#[trigger] fields@[a])@ != (#[trigger] fields@[b])@,
    {
        if !crate::tokens::is_valid_raw_ident(fields[i].as_str()) {
            assert(!valid_raw_ident(spec_snake_name(args@[i as int].name@)));
            return false;
        }
        for j in 0..i
            invariant
                0 <= i < fields@.len(),
                fields@.len() == args@.len(),
                forall|k: int|
                    0 <= k < fields@.len() ==> (#[trigger] fields@[k])@ == spec_snake_name(
                        args@[k].name@,
                    ),
                forall|a: int, b: int|
                    0 <= a < b < i ==> (#[trigger] fields@[a])@ != (#[trigger] fields@[b])@,
                forall|a: int| 0 <= a < j ==> (#[trigger] fields@[a])@ != fields@[i as int]@,
        {
            if crate::text::str_eq(fields[j].as_str(), fields[i].as_str()) {
                assert(fields@[j as int]@ == fields@[i as int]@);
                assert(!fields_distinct(args@)) by {
                    assert(spec_snake_name(args@[j as int].name@) == spec_snake_name(
                        args@[i as int].name@,
                    ));
                }
                return false;
            }
        }
        assert forall|a: int, b: int| 0 <= a < b < i + 1 implies (#[trigger] fields@[a])@
            != (#[trigger] fields@[b])@ by {
            if b == i {
                assert(fields@[a]@ != fields@[i as int]@);
            }
        }
    }
    true
}

/// Whether every independent attribute has a name that can be a raw
/// identifier and a known type with a setter.
fn attrs_valid(op: &OpDef) -> (r: bool)
    ensures
        r == forall|i: int|
            0 <= i < independent_attr_defs(*op).len() ==> {
                &&& valid_raw_ident((#[trigger] independent_attr_defs(*op)[i]).name@)
                &&& spec_attr_type(independent_attr_defs(*op)[i].field_type@) is Some
                &&& setter_method(spec_attr_type(independent_attr_defs(*op)[i].field_type@).unwrap()) is Some
            },
{
    let attrs = crate::operation::Operation(op).independent_attrs().filtered();
    let ghost defs = independent_attr_defs(*op);
    for i in 0..attrs.len()
        invariant
            defs == independent_attr_defs(*op),
            attrs@.len() == defs.len(),
            forall|j: int| 0 <= j < attrs@.len() ==> *(#[trigger] attrs@[j]) == defs[j],
            forall|j: int|
                0 <= j < i ==> {
                    &&& valid_raw_ident((#[trigger] defs[j]).name@)
                    &&& spec_attr_type(defs[j].field_type@) is Some
                    &&& setter_method(spec_attr_type(defs[j].field_type@).unwrap()) is Some
                },
    {
        let attr = attrs[i];
        assert(*attr == defs[i as int]);
        if !crate::tokens::is_valid_raw_ident(attr.name.as_str()) {
            assert(!valid_raw_ident(defs[i as int].name@));
            return false;
        }
        match AttrType::parse(attr.field_type.as_str()) {
            Some(t) => {
                if crate::codegen::setter_of(&t).is_none() {
                    assert(setter_method(spec_attr_type(defs[i as int].field_type@).unwrap()) is None);
                    return false;
                }
            },
            None => {
                assert(spec_attr_type(defs[i as int].field_type@) is None);
                return false;
            },
        }
    }
    true
}

/// Whether the code of an operation can be generated (see `op_ok`).
pub fn op_is_valid(op: &OpDef) -> (r: bool)
    ensures
        r == op_ok(*op),
{
    proof {
        reveal(op_ok);
    }
    if !crate::tokens::is_valid_raw_ident(op.name.as_str()) {
        return false;
    }
    let short_name = crate::text::snake_name(op.name.as_str());
    if !crate::tokens::is_valid_raw_ident(short_name.as_str()) {
        return false;
    }
    fields_valid(&op.input_arg) && fields_valid(&op.output_arg) && attrs_valid(op)
}

/// Appends the code of one operation and a line break.
fn push_op_code(output: &mut String, op: &OpDef)
    requires
        op_ok(*op),
    ensures
        final(output)@ == old(output)@ + crate::tokens::rendered(op_tokens(*op)) + seq!['\n'],
{
    let code = per_op_code(&crate::operation::Operation(op));
    let text = crate::tokens::render(&code);
    output.append(text.as_str());
    crate::text::push_char(output, '\n');
}

/// The operations that bindings are generated for.
pub open spec fn is_selected(name: Seq<char>) -> bool {
    ||| name == "Placeholder"@
    ||| name == "Add"@
    ||| name == "Sub"@
    ||| name == "Mul"@
    ||| name == "Assign"@
    ||| name == "NoOp"@
    ||| name == "ApplyGradientDescent"@
    ||| name == "RandomStandardNormal"@
    ||| name == "Tanh"@
    ||| name == "MatMul"@
    ||| name == "ZerosLike"@
    ||| name == "ApplyAdadelta"@
    ||| name == "ConcatV2"@
}

/// Whether bindings are generated for the operation named `name`.
pub fn is_selected_name(name: &str) -> (r: bool)
    ensures
        r == is_selected(name@),
{
    let names = [
        "Placeholder",
        "Add",
        "Sub",
        "Mul",
        "Assign",
        "NoOp",
        "ApplyGradientDescent",
        "RandomStandardNormal",
        "Tanh",
        "MatMul",
        "ZerosLike",
        "ApplyAdadelta",
        "ConcatV2",
    ];
    let mut k: usize = 0;
    while k < 13
        invariant
            names@ == seq![
                "Placeholder",
                "Add",
                "Sub",
                "Mul",
                "Assign",
                "NoOp",
                "ApplyGradientDescent",
                "RandomStandardNormal",
                "Tanh",
                "MatMul",
                "ZerosLike",
                "ApplyAdadelta",
                "ConcatV2",
            ],
            0 <= k <= 13,
            forall|j: int| 0 <= j < k ==> name@ != (#[trigger] names@[j])@,
        decreases 13 - k,
    {
        if crate::text::str_eq(name, names[k]) {
            return true;
        }
        k = k + 1;
    }
    false
}

/// The first line of the generated file.
pub open spec fn header() -> Seq<char> {
    "// DO NOT EDIT. Generated by tensorflow-op-codegen/src/main.rs.\n\n"@
}

/// The code of the selected operations among the first `n`, each followed
/// by a line break, in order.
pub open spec fn selected_code(ops: Seq<OpDef>, n: int) -> Seq<char>
    decreases n,
{
    if n <= 0 {
        Seq::empty()
    } else if is_selected(ops[n - 1].name@) {
        selected_code(ops, n - 1) + crate::tokens::rendered(op_tokens(ops[n - 1])) + seq!['\n']
    } else {
        selected_code(ops, n - 1)
    }
}

/// Whether every selected operation among the first `n` can be generated.
pub open spec fn selected_ok(ops: Seq<OpDef>, n: int) -> bool {
    forall|i: int| 0 <= i < n && is_selected((#[trigger] ops[i]).name@) ==> op_ok(ops[i])
}

/// Why code generation failed.
#[derive(Debug)]
pub enum CodegenError {
    /// The selected operation with this name cannot be generated.
    InvalidOperation(String),
}

/// The generated file: a header, then the code of each selected operation
/// in order. Fails on the first selected operation whose code cannot be
/// generated, naming it.
pub fn generate(ops: &Vec<OpDef>) -> (r: Result<String, CodegenError>)
    ensures
        match r {
            Ok(text) => selected_ok(ops@, ops@.len() as int) && text@ == header() + selected_code(
                ops@,
                ops@.len() as int,
            ),
            Err(CodegenError::InvalidOperation(name)) => exists|i: int|
                0 <= i < ops@.len() && is_selected((#[trigger] ops@[i]).name@) && !op_ok(ops@[i])
                    && selected_ok(ops@, i) && name@ == ops@[i].name@,
        },
{
    let mut output = String::new();
    output.append("// DO NOT EDIT. Generated by tensorflow-op-codegen/src/main.rs.\n\n");
    for i in 0..ops.len()
        invariant
            selected_ok(ops@, i as int),
            output@ == header() + selected_code(ops@, i as int),
    {
        let op = &ops[i];
        let ghost before = output@;
        if is_selected_name(op.name.as_str()) {
            if !op_is_valid(op) {
                return Err(CodegenError::InvalidOperation(op.name.clone()));
            }
            push_op_code(&mut output, op);
            assert(output@ =~= header() + selected_code(ops@, i + 1));
        }
    }
    Ok(output)
}


/// Generating for two lists of operations one after the other gives the
/// code of the first list followed by the code of the second: the code of an
/// operation does not depend on the operations around it.
pub proof fn law_selected_code_concat(ops1: Seq<OpDef>, ops2: Seq<OpDef>)
    ensures
        selected_code(ops1 + ops2, (ops1 + ops2).len() as int) == selected_code(
            ops1,
            ops1.len() as int,
        ) + selected_code(ops2, ops2.len() as int),
{
    lemma_selected_code_concat(ops1, ops2, ops2.len() as int);
}

proof fn lemma_selected_code_concat(ops1: Seq<OpDef>, ops2: Seq<OpDef>, n: int)
    requires
        0 <= n <= ops2.len(),
    ensures
        selected_code(ops1 + ops2, ops1.len() + n) == selected_code(ops1, ops1.len() as int)
            + selected_code(ops2, n),
    decreases n,
{
    if n == 0 {
        lemma_selected_code_prefix(ops1, ops1 + ops2, ops1.len() as int);
        assert(selected_code(ops1, ops1.len() as int) + selected_code(ops2, 0) =~= selected_code(
            ops1,
            ops1.len() as int,
        ));
    } else {
        lemma_selected_code_concat(ops1, ops2, n - 1);
        assert((ops1 + ops2)[ops1.len() + n - 1] == ops2[n - 1]);
    }
}

proof fn lemma_selected_code_prefix(a: Seq<OpDef>, b: Seq<OpDef>, n: int)
    requires
        0 <= n <= a.len(),
        n <= b.len(),
        forall|i: int| 0 <= i < n ==> a[i] == b[i],
    ensures
        selected_code(a, n) == selected_code(b, n),
    decreases n,
{
    if n > 0 {
        lemma_selected_code_prefix(a, b, n - 1);
    }
}

/// Argument identifiers are unique: in an operation that can be generated,
/// no two inputs and no two outputs have the same snake-case name, so the
/// identifiers that `Arguments::rust_field` gives for each list differ.
pub proof fn law_rust_field_unique(op: OpDef)
    requires
        op_ok(op),
    ensures
        forall|i: int, j: int|
            0 <= i < j < op.input_arg@.len() ==> #[trigger] spec_snake_name(op.input_arg@[i].name@)
                != #[trigger] spec_snake_name(op.input_arg@[j].name@),
        forall|i: int, j: int|
            0 <= i < j < op.output_arg@.len() ==> #[trigger] spec_snake_name(
                op.output_arg@[i].name@,
            ) != #[trigger] spec_snake_name(op.output_arg@[j].name@),
{
    reveal(op_ok);
}

/// The selected operations among the first `n`, in order.
pub open spec fn selected_ops(ops: Seq<OpDef>, n: int) -> Seq<OpDef>
    decreases n,
{
    if n <= 0 {
        Seq::empty()
    } else if is_selected(ops[n - 1].name@) {
        selected_ops(ops, n - 1).push(ops[n - 1])
    } else {
        selected_ops(ops, n - 1)
    }
}

/// Whether every operation of a list can be generated.
pub open spec fn all_ok(ops: Seq<OpDef>) -> bool {
    forall|i: int| 0 <= i < ops.len() ==> op_ok(#[trigger] ops[i])
}

/// The generated code depends only on the selected operations: two lists
/// with the same selected operations, in the same order, give the same code,
/// and either both can be generated or neither can.
pub proof fn law_code_depends_on_selected(a: Seq<OpDef>, b: Seq<OpDef>)
    requires
        selected_ops(a, a.len() as int) == selected_ops(b, b.len() as int),
    ensures
        selected_code(a, a.len() as int) == selected_code(b, b.len() as int),
        selected_ok(a, a.len() as int) == selected_ok(b, b.len() as int),
{
    lemma_selected_code_of_selected(a, a.len() as int);
    lemma_selected_code_of_selected(b, b.len() as int);
    lemma_selected_ok_of_selected(a, a.len() as int);
    lemma_selected_ok_of_selected(b, b.len() as int);
}

proof fn lemma_selected_code_of_selected(ops: Seq<OpDef>, n: int)
    requires
        0 <= n <= ops.len(),
    ensures
        selected_code(ops, n) == selected_code(
            selected_ops(ops, n),
            selected_ops(ops, n).len() as int,
        ),
    decreases n,
{
    if n > 0 {
        lemma_selected_code_of_selected(ops, n - 1);
        let prev = selected_ops(ops, n - 1);
        if is_selected(ops[n - 1].name@) {
            let cur = prev.push(ops[n - 1]);
            lemma_selected_code_prefix(prev, cur, prev.len() as int);
            assert(cur[prev.len() as int] == ops[n - 1]);
        }
    }
}

proof fn lemma_selected_ok_of_selected(ops: Seq<OpDef>, n: int)
    requires
        0 <= n <= ops.len(),
    ensures
        selected_ok(ops, n) == all_ok(selected_ops(ops, n)),
    decreases n,
{
    if n > 0 {
        lemma_selected_ok_of_selected(ops, n - 1);
        let prev = selected_ops(ops, n - 1);
        let o = ops[n - 1];
        assert(selected_ok(ops, n) == (selected_ok(ops, n - 1) && (is_selected(o.name@) ==> op_ok(
            o,
        )))) by {
            if selected_ok(ops, n - 1) && (is_selected(o.name@) ==> op_ok(o)) {
                assert forall|i: int| 0 <= i < n && is_selected((#[trigger] ops[i]).name@) implies op_ok(
                    ops[i],
                ) by {
                    if i < n - 1 {
                        assert(0 <= i < n - 1 && is_selected(ops[i].name@));
                    }
                }
            }
            if selected_ok(ops, n) {
                assert forall|i: int| 0 <= i < n - 1 && is_selected((#[trigger] ops[i]).name@) implies op_ok(
                    ops[i],
                ) by {
                    assert(0 <= i < n && is_selected(ops[i].name@));
                }
            }
        }
        if is_selected(o.name@) {
            let cur = prev.push(o);
            assert(all_ok(cur) == (all_ok(prev) && op_ok(o))) by {
                if all_ok(prev) && op_ok(o) {
                    assert forall|i: int| 0 <= i < cur.len() implies op_ok(#[trigger] cur[i]) by {
                        if i < prev.len() {
                            assert(cur[i] == prev[i]);
                        }
                    }
                }
                if all_ok(cur) {
                    assert(cur[prev.len() as int] == o);
                    assert forall|i: int| 0 <= i < prev.len() implies op_ok(#[trigger] prev[i]) by {
                        assert(cur[i] == prev[i]);
                    }
                }
            }
        }
    }
}

/// Only the selected operations get code: operations that are not selected
/// can be removed from the list without changing the generated code.
pub proof fn law_unselected_ignored(ops: Seq<OpDef>, i: int)
    requires
        0 <= i < ops.len(),
        !is_selected(ops[i].name@),
    ensures
        selected_code(ops.remove(i), ops.len() - 1) == selected_code(ops, ops.len() as int),
{
    let a = ops.take(i);
    let b = ops.skip(i + 1);
    assert(ops.remove(i) =~= a + b);
    assert(ops =~= (a + seq![ops[i]]) + b);
    law_selected_code_concat(a, b);
    law_selected_code_concat(a + seq![ops[i]], b);
    law_selected_code_concat(a, seq![ops[i]]);
    let single = seq![ops[i]];
    assert(single[0] == ops[i]);
    assert(selected_code(single, 1) == selected_code(single, 0));
    assert(selected_code(single, 1) =~= Seq::<char>::empty());
}

/// `builder.set_attr_int("a", r#f.len() as i64)?;`: sets the length
/// attribute `a` from the list input `f`.
pub open spec fn list_length_setter(a: Seq<char>, f: Seq<char>) -> Seq<Tok> {
    seq![
        ident("builder"@),
        punct('.'),
        ident("set_attr_int"@),
        group(
            Delim::Parenthesis,
            seq![
                str_lit(a),
                punct(','),
                raw_ident(f),
                punct('.'),
                ident("len"@),
                group(Delim::Parenthesis, Seq::empty()),
                ident("as"@),
                ident("i64"@),
            ],
        ),
        punct('?'),
        punct(';'),
    ]
}

/// The parameter of input `f` in the build methods: `r#f: Vec<crate::Output>`
/// for a list input, `r#f: crate::Output,` for a single tensor.
pub open spec fn input_param(f: Seq<char>, list: bool) -> Seq<Tok> {
    if list {
        seq![
            raw_ident(f),
            punct(':'),
            ident("Vec"@),
            punct('<'),
            ident("crate"@),
            joint(':'),
            punct(':'),
            ident("Output"@),
            punct('>'),
        ]
    } else {
        seq![
            raw_ident(f),
            punct(':'),
            ident("crate"@),
            joint(':'),
            punct(':'),
            ident("Output"@),
            punct(','),
        ]
    }
}

proof fn lemma_set_lengths_run(
    fields: Seq<Seq<char>>,
    numbers: Seq<Option<Seq<char>>>,
    n: int,
    i: int,
) -> (k: int)
    requires
        0 <= i < n <= fields.len(),
        n <= numbers.len(),
        numbers[i] is Some,
    ensures
        run_at(set_lengths(fields, numbers, n), list_length_setter(numbers[i]->0, fields[i]), k),
    decreases n,
{
    let run = list_length_setter(numbers[i]->0, fields[i]);
    let prev = set_lengths(fields, numbers, n - 1);
    let piece = set_lengths(fields, numbers, n).subrange(prev.len() as int, set_lengths(fields, numbers, n).len() as int);
    if i == n - 1 {
        let p = match numbers[n - 1] {
            Some(number) => seq![
                ident("builder"@),
                punct('.'),
                ident("set_attr_int"@),
                group(
                    Delim::Parenthesis,
                    seq![
                        str_lit(number),
                        punct(','),
                        raw_ident(fields[n - 1]),
                        punct('.'),
                        ident("len"@),
                        group(Delim::Parenthesis, Seq::empty()),
                        ident("as"@),
                        ident("i64"@),
                    ],
                ),
                punct('?'),
                punct(';'),
            ],
            None => Seq::empty(),
        };
        assert(set_lengths(fields, numbers, n) == prev + p);
        assert(p =~= run);
        assert(p.subrange(0, run.len() as int) =~= run);
        lemma_run_at_suffix(prev, p, run, 0);
        prev.len() as int
    } else {
        let k = lemma_set_lengths_run(fields, numbers, n - 1, i);
        lemma_run_at_prefix(prev, piece, run, k);
        assert(prev + piece =~= set_lengths(fields, numbers, n));
        k
    }
}

proof fn lemma_typed_params_run(
    fields: Seq<Seq<char>>,
    numbers: Seq<Option<Seq<char>>>,
    n: int,
    i: int,
) -> (k: int)
    requires
        0 <= i < n <= fields.len(),
        n <= numbers.len(),
    ensures
        run_at(typed_params(fields, numbers, n), input_param(fields[i], numbers[i] is Some), k),
    decreases n,
{
    let run = input_param(fields[i], numbers[i] is Some);
    let prev = typed_params(fields, numbers, n - 1);
    let whole = typed_params(fields, numbers, n);
    let p = seq![raw_ident(fields[n - 1]), punct(':')] + arg_type(numbers[n - 1]) + seq![punct(',')];
    assert(whole == prev + p);
    if i == n - 1 {
        assert(p.subrange(0, run.len() as int) =~= run);
        lemma_run_at_suffix(prev, p, run, 0);
        prev.len() as int
    } else {
        let k = lemma_typed_params_run(fields, numbers, n - 1, i);
        lemma_run_at_prefix(prev, p, run, k);
        k
    }
}

/// Both build methods set the length attribute of every list input from the
/// list: for an input `f` whose length is the attribute `a`, the closure that
/// `build_impl` and `build_instance` hand to `new_operation` holds
/// `builder.set_attr_int("a", r#f.len() as i64)?;`.
#[verifier::rlimit(50)]
#[verifier::spinoff_prover]
pub proof fn law_build_sets_list_lengths(
    c: Seq<char>,
    inst: Seq<char>,
    fields: Seq<Seq<char>>,
    numbers: Seq<Option<Seq<char>>>,
    attr_code: Seq<Tok>,
    i: int,
)
    requires
        fields.len() == numbers.len(),
        0 <= i < fields.len(),
        numbers[i] is Some,
    ensures
        contains_run(
            build_impl_fn(c, fields, numbers, attr_code),
            list_length_setter(numbers[i]->0, fields[i]),
            3,
        ),
        contains_run(
            build_instance_fn(c, inst, fields, numbers, attr_code),
            list_length_setter(numbers[i]->0, fields[i]),
            3,
        ),
{
    let n = fields.len() as int;
    let run = list_length_setter(numbers[i]->0, fields[i]);
    let k = lemma_set_lengths_run(fields, numbers, n, i);
    let front = add_inputs(fields, numbers, n) + control_loop();
    let sl = set_lengths(fields, numbers, n);
    lemma_run_at_suffix(front, sl, run, k);
    let kk = front.len() + k;
    // build_impl
    let c1 = front + sl + attr_code;
    let c2 = c1 + std_path("result"@, "Result"@);
    let c3 = c2 + colon2();
    let closure = c3 + ok_unit();
    lemma_run_at_prefix(front + sl, attr_code, run, kk);
    lemma_run_at_prefix(c1, std_path("result"@, "Result"@), run, kk);
    lemma_run_at_prefix(c2, colon2(), run, kk);
    lemma_run_at_prefix(c3, ok_unit(), run, kk);
    lemma_contains_here(closure, run, kk, 0);
    let y = seq![
        str_lit(c),
        punct(','),
        punct('|'),
        ident("builder"@),
        punct('|'),
        group(Delim::Brace, closure),
    ];
    lemma_contains_in_group(y, 5, Delim::Brace, closure, run, 0);
    let x = new_operation_call(c, closure);
    lemma_contains_in_group(x, 3, Delim::Parenthesis, y, run, 1);
    let top = build_impl_fn(c, fields, numbers, attr_code);
    lemma_contains_in_group(top, top.len() - 1, Delim::Brace, x, run, 2);
    // build_instance
    let closure2 = c1 + ok_unit();
    lemma_run_at_prefix(c1, ok_unit(), run, kk);
    lemma_contains_here(closure2, run, kk, 0);
    let y2 = seq![
        str_lit(c),
        punct(','),
        punct('|'),
        ident("builder"@),
        punct('|'),
        group(Delim::Brace, closure2),
    ];
    lemma_contains_in_group(y2, 5, Delim::Brace, closure2, run, 0);
    let x2 = new_operation_call(c, closure2);
    let body = seq![ident("let"@), ident("op"@), punct('=')] + x2 + seq![
        punct('?'),
        punct(';'),
        ident("Ok"@),
        group(Delim::Parenthesis, seq![ident(inst), group(Delim::Brace, seq![ident("op"@)])]),
    ];
    assert(body[6] == group(Delim::Parenthesis, y2));
    lemma_contains_in_group(body, 6, Delim::Parenthesis, y2, run, 1);
    let top2 = build_instance_fn(c, inst, fields, numbers, attr_code);
    assert(top2[top2.len() - 1] == group(Delim::Brace, body));
    lemma_contains_in_group(top2, top2.len() - 1, Delim::Brace, body, run, 2);
}

/// The build methods take a list input as a list of outputs and a single
/// input as one output: their parameters hold `r#f: Vec<crate::Output>` for
/// an input `f` with a length attribute, and `r#f: crate::Output,` for one
/// without.
#[verifier::rlimit(50)]
#[verifier::spinoff_prover]
pub proof fn law_input_param_types(
    c: Seq<char>,
    inst: Seq<char>,
    fields: Seq<Seq<char>>,
    numbers: Seq<Option<Seq<char>>>,
    attr_code: Seq<Tok>,
    i: int,
)
    requires
        fields.len() == numbers.len(),
        0 <= i < fields.len(),
    ensures
        contains_run(
            build_impl_fn(c, fields, numbers, attr_code),
            input_param(fields[i], numbers[i] is Some),
            1,
        ),
        contains_run(
            build_instance_fn(c, inst, fields, numbers, attr_code),
            input_param(fields[i], numbers[i] is Some),
            1,
        ),
{
    let n = fields.len() as int;
    let run = input_param(fields[i], numbers[i] is Some);
    let k = lemma_typed_params_run(fields, numbers, n, i);
    let front = seq![punct('&'), ident("self"@), punct(',')];
    let tp = typed_params(fields, numbers, n);
    lemma_run_at_suffix(front, tp, run, k);
    lemma_run_at_prefix(front + tp, scope_param(), run, front.len() + k);
    let params = front + tp + scope_param();
    lemma_contains_here(params, run, front.len() + k, 0);
    let top = build_impl_fn(c, fields, numbers, attr_code);
    assert(top[2] == group(Delim::Parenthesis, params));
    lemma_contains_in_group(top, 2, Delim::Parenthesis, params, run, 0);
    let top2 = build_instance_fn(c, inst, fields, numbers, attr_code);
    assert(top2[9] == group(Delim::Parenthesis, params));
    lemma_contains_in_group(top2, 9, Delim::Parenthesis, params, run, 0);
}

/// Operations are selected by their exact name: a selected name with more
/// chars after it is not selected (`AddN` or `AddV2` do not come with `Add`).
pub proof fn law_selected_by_exact_name(name: Seq<char>, more: Seq<char>)
    requires
        is_selected(name),
        more.len() > 0,
    ensures
        !is_selected(name + more),
{
    reveal_strlit("Placeholder");
    reveal_strlit("Add");
    reveal_strlit("Sub");
    reveal_strlit("Mul");
    reveal_strlit("Assign");
    reveal_strlit("NoOp");
    reveal_strlit("ApplyGradientDescent");
    reveal_strlit("RandomStandardNormal");
    reveal_strlit("Tanh");
    reveal_strlit("MatMul");
    reveal_strlit("ZerosLike");
    reveal_strlit("ApplyAdadelta");
    reveal_strlit("ConcatV2");
    let longer = name + more;
    assert(longer.len() > name.len());
    assert forall|k: int| 0 <= k < name.len() implies #[trigger] longer[k] == name[k] by {}
    assert(longer[0] == name[0]);
    assert(longer[1] == name[1]);
    assert(longer[5] == name[5] || name.len() <= 5);
}

} // verus!
