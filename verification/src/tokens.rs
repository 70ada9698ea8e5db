//! Token streams of generated Rust code.
//!
//! Generated code is built as a `proc_macro2::TokenStream`. Verus cannot look
//! inside such a stream, so its contents are named by `stream_tokens`, a
//! sequence of `Tok` values, and every operation that builds a stream states
//! what it does to that sequence.
//!
//! The library must run outside a procedural macro (in a program or a build
//! script). There `proc_macro2` uses its own implementation of token streams,
//! and the contracts below state what that implementation does; inside a
//! procedural macro it hands its work to the compiler, which normalizes
//! identifiers and prints streams in its own way.
use vstd::prelude::*;
use proc_macro2::{Delimiter, Group, Ident, Literal, Punct, Spacing, Span, TokenStream, TokenTree};

verus! {

#[verifier::external_type_specification]
#[verifier::external_body]
pub struct ExTokenStream(TokenStream);

/// The delimiters of a token group.
#[derive(Clone, Copy, Debug, PartialEq, Eq, Structural)]
pub enum Delim {
    Parenthesis,
    Brace,
    Bracket,
}

/// One token tree, as plain values.
pub enum Tok {
    /// An identifier; `raw` marks a raw identifier (`r#name`).
    Ident { name: Seq<char>, raw: bool },
    /// A punctuation character; `joint` when it is glued to the next one.
    Punct { ch: char, joint: bool },
    /// A string literal holding `text`.
    Str { text: Seq<char> },
    /// A raw string literal, `r"text"`.
    RawStr { text: Seq<char> },
    /// A `usize`-suffixed integer literal.
    Usize { value: nat },
    /// An integer literal with no suffix.
    Unsuffixed { value: nat },
    /// A delimited group of tokens.
    Group { delim: Delim, inner: Seq<Tok> },
}

/// The token trees that a token stream holds, in order.
pub uninterp spec fn stream_tokens(ts: TokenStream) -> Seq<Tok>;

/// The text that a token stream with these token trees displays as.
pub uninterp spec fn rendered(tokens: Seq<Tok>) -> Seq<char>;

/// Whether a non-ASCII char has the Unicode `XID_Start` property.
pub uninterp spec fn unicode_xid_start(c: char) -> bool;

/// Whether a non-ASCII char has the Unicode `XID_Continue` property.
pub uninterp spec fn unicode_xid_continue(c: char) -> bool;

pub open spec fn ident(name: Seq<char>) -> Tok {
    Tok::Ident { name, raw: false }
}

pub open spec fn raw_ident(name: Seq<char>) -> Tok {
    Tok::Ident { name, raw: true }
}

pub open spec fn punct(ch: char) -> Tok {
    Tok::Punct { ch, joint: false }
}

pub open spec fn joint(ch: char) -> Tok {
    Tok::Punct { ch, joint: true }
}

pub open spec fn str_lit(text: Seq<char>) -> Tok {
    Tok::Str { text }
}

pub open spec fn raw_str_lit(text: Seq<char>) -> Tok {
    Tok::RawStr { text }
}

/// Text that can stand between the quotes of `r"..."`: no `"` to end it
/// early, and no carriage return.
pub open spec fn raw_str_text(text: Seq<char>) -> bool {
    forall|i: int| 0 <= i < text.len() ==> #[trigger] text[i] != '"' && text[i] != '\r'
}

pub open spec fn usize_lit(value: nat) -> Tok {
    Tok::Usize { value }
}

pub open spec fn unsuffixed_lit(value: nat) -> Tok {
    Tok::Unsuffixed { value }
}

pub open spec fn group(delim: Delim, inner: Seq<Tok>) -> Tok {
    Tok::Group { delim, inner }
}

pub open spec fn is_ascii_letter(c: char) -> bool {
    ||| ('a' as u32) <= (c as u32) <= ('z' as u32)
    ||| ('A' as u32) <= (c as u32) <= ('Z' as u32)
}

pub open spec fn is_ascii_digit(c: char) -> bool {
    ('0' as u32) <= (c as u32) <= ('9' as u32)
}

/// `XID_Start`: for ASCII exactly the letters.
pub open spec fn xid_start(c: char) -> bool {
    if (c as u32) < 128 {
        is_ascii_letter(c)
    } else {
        unicode_xid_start(c)
    }
}

/// `XID_Continue`: for ASCII exactly the letters, the digits and `_`.
pub open spec fn xid_continue(c: char) -> bool {
    if (c as u32) < 128 {
        is_ascii_letter(c) || is_ascii_digit(c) || c == '_'
    } else {
        unicode_xid_continue(c)
    }
}

/// A name that `Ident::new` accepts: it starts with `_` or an `XID_Start`
/// char and goes on with `XID_Continue` chars.
pub open spec fn valid_ident(s: Seq<char>) -> bool {
    &&& s.len() > 0
    &&& (s[0] == '_' || xid_start(s[0]))
    &&& forall|i: int| 1 <= i < s.len() ==> #[trigger] xid_continue(s[i])
}

/// The names that may not be written as raw identifiers.
pub open spec fn reserved_for_raw(s: Seq<char>) -> bool {
    ||| s == seq!['_']
    ||| s == seq!['s', 'u', 'p', 'e', 'r']
    ||| s == seq!['s', 'e', 'l', 'f']
    ||| s == seq!['S', 'e', 'l', 'f']
    ||| s == seq!['c', 'r', 'a', 't', 'e']
}

/// A name that `Ident::new_raw` accepts.
pub open spec fn valid_raw_ident(s: Seq<char>) -> bool {
    valid_ident(s) && !reserved_for_raw(s)
}

/// The chars that `Punct::new` accepts.
pub open spec fn valid_punct(c: char) -> bool {
    ||| c == '!' || c == '#' || c == '$' || c == '%' || c == '&' || c == '\''
    ||| c == '*' || c == '+' || c == ',' || c == '-' || c == '.' || c == '/'
    ||| c == ':' || c == ';' || c == '<' || c == '=' || c == '>' || c == '?'
    ||| c == '@' || c == '^' || c == '|' || c == '~'
}

/// `unicode_ident::is_xid_start`. Its source answers ASCII chars from a
/// fixed table, which sets exactly the letters; for other chars the result
/// is left unsaid here (the name `unicode_xid_start`).
#[verifier::external_body]
fn unicode_is_xid_start(c: char) -> (r: bool)
    ensures
        r == (if (c as u32) < 128 {
            is_ascii_letter(c)
        } else {
            unicode_xid_start(c)
        }),
{
    unicode_ident::is_xid_start(c)
}

/// `unicode_ident::is_xid_continue`. Its source answers ASCII chars from a
/// fixed table, which sets exactly the letters, the digits and `_`; for
/// other chars the result is left unsaid here (`unicode_xid_continue`).
#[verifier::external_body]
fn unicode_is_xid_continue(c: char) -> (r: bool)
    ensures
        r == (if (c as u32) < 128 {
            is_ascii_letter(c) || is_ascii_digit(c) || c == '_'
        } else {
            unicode_xid_continue(c)
        }),
{
    unicode_ident::is_xid_continue(c)
}

/// Whether `s` is a name that can become an identifier.
pub fn is_valid_ident(s: &str) -> (r: bool)
    ensures
        r == valid_ident(s@),
{
    let chars = crate::text::chars_of(s);
    if chars.len() == 0 {
        return false;
    }
    let first = chars[0];
    if !(first == '_' || unicode_is_xid_start(first)) {
        return false;
    }
    let mut i: usize = 1;
    while i < chars.len()
        invariant
            chars@ == s@,
            1 <= i <= chars.len(),
            forall|j: int| 1 <= j < i ==> #[trigger] xid_continue(s@[j]),
        decreases chars.len() - i,
    {
        if !unicode_is_xid_continue(chars[i]) {
            assert(!xid_continue(s@[i as int]));
            return false;
        }
        i = i + 1;
    }
    true
}

/// Whether `s` is a name that can become a raw identifier.
pub fn is_valid_raw_ident(s: &str) -> (r: bool)
    ensures
        r == valid_raw_ident(s@),
{
    proof {
        reveal_strlit("_");
        reveal_strlit("super");
        reveal_strlit("self");
        reveal_strlit("Self");
        reveal_strlit("crate");
    }
    if !is_valid_ident(s) {
        return false;
    }
    let reserved = crate::text::str_eq(s, "_") || crate::text::str_eq(s, "super")
        || crate::text::str_eq(s, "self") || crate::text::str_eq(s, "Self")
        || crate::text::str_eq(s, "crate");
    assert("_"@ =~= seq!['_']);
    assert("super"@ =~= seq!['s', 'u', 'p', 'e', 'r']);
    assert("self"@ =~= seq!['s', 'e', 'l', 'f']);
    assert("Self"@ =~= seq!['S', 'e', 'l', 'f']);
    assert("crate"@ =~= seq!['c', 'r', 'a', 't', 'e']);
    !reserved
}

/// `TokenStream::new`: a stream with no tokens.
#[verifier::external_body]
pub fn new_stream() -> (ts: TokenStream)
    ensures
        stream_tokens(ts) == Seq::<Tok>::empty(),
{
    TokenStream::new()
}

/// `Ident::new` on `name`, appended to `ts` with `Extend`.
/// `Ident::new` panics unless `name` is a valid identifier.
#[verifier::external_body]
pub fn push_ident(ts: &mut TokenStream, name: &str)
    requires
        valid_ident(name@),
    ensures
        stream_tokens(*final(ts)) == stream_tokens(*old(ts)).push(ident(name@)),
{
    ts.extend(std::iter::once(TokenTree::Ident(Ident::new(name, Span::call_site()))));
}

/// `Ident::new_raw` on `name`, appended to `ts` with `Extend`.
/// `Ident::new_raw` panics unless `name` is a valid raw identifier.
#[verifier::external_body]
pub fn push_raw_ident(ts: &mut TokenStream, name: &str)
    requires
        valid_raw_ident(name@),
    ensures
        stream_tokens(*final(ts)) == stream_tokens(*old(ts)).push(raw_ident(name@)),
{
    ts.extend(std::iter::once(TokenTree::Ident(Ident::new_raw(name, Span::call_site()))));
}

/// `Punct::new` on `ch`, appended to `ts` with `Extend`; `Spacing::Joint`
/// when `is_joint`, else `Spacing::Alone`. `Punct::new` panics on a char
/// outside its list.
#[verifier::external_body]
pub fn push_punct(ts: &mut TokenStream, ch: char, is_joint: bool)
    requires
        valid_punct(ch),
    ensures
        stream_tokens(*final(ts)) == stream_tokens(*old(ts)).push(Tok::Punct { ch, joint: is_joint }),
{
    let spacing = if is_joint {
        Spacing::Joint
    } else {
        Spacing::Alone
    };
    ts.extend(std::iter::once(TokenTree::Punct(Punct::new(ch, spacing))));
}

/// `Literal::string` on `value`, appended to `ts` with `Extend`.
#[verifier::external_body]
pub fn push_str_lit(ts: &mut TokenStream, value: &str)
    ensures
        stream_tokens(*final(ts)) == stream_tokens(*old(ts)).push(str_lit(value@)),
{
    ts.extend(std::iter::once(TokenTree::Literal(Literal::string(value))));
}

/// `Literal::from_str` on the text `r"value"`, appended to `ts` with
/// `Extend`. Outside a procedural macro the source lexes that text as one raw
/// string literal whenever `value` holds no `"` and no carriage return, so the
/// parse succeeds on every input that `requires` admits.
#[verifier::external_body]
pub fn push_raw_str_lit(ts: &mut TokenStream, value: &str)
    requires
        raw_str_text(value@),
    ensures
        stream_tokens(*final(ts)) == stream_tokens(*old(ts)).push(raw_str_lit(value@)),
{
    let literal = format!("r\"{}\"", value).parse::<Literal>().unwrap();
    ts.extend(std::iter::once(TokenTree::Literal(literal)));
}

/// `Literal::usize_suffixed` on `value`, appended to `ts` with `Extend`.
#[verifier::external_body]
pub fn push_usize_lit(ts: &mut TokenStream, value: usize)
    ensures
        stream_tokens(*final(ts)) == stream_tokens(*old(ts)).push(usize_lit(value as nat)),
{
    ts.extend(std::iter::once(TokenTree::Literal(Literal::usize_suffixed(value))));
}

/// `Literal::usize_unsuffixed` on `value`, appended to `ts` with `Extend`.
#[verifier::external_body]
pub fn push_unsuffixed_lit(ts: &mut TokenStream, value: usize)
    ensures
        stream_tokens(*final(ts)) == stream_tokens(*old(ts)).push(unsuffixed_lit(value as nat)),
{
    ts.extend(std::iter::once(TokenTree::Literal(Literal::usize_unsuffixed(value))));
}

/// `Group::new` with the delimiter `delim` around `inner`, appended to `ts`
/// with `Extend`.
#[verifier::external_body]
pub fn push_group(ts: &mut TokenStream, delim: Delim, inner: TokenStream)
    ensures
        stream_tokens(*final(ts)) == stream_tokens(*old(ts)).push(
            group(delim, stream_tokens(inner)),
        ),
{
    let delimiter = match delim {
        Delim::Parenthesis => Delimiter::Parenthesis,
        Delim::Brace => Delimiter::Brace,
        Delim::Bracket => Delimiter::Bracket,
    };
    ts.extend(std::iter::once(TokenTree::Group(Group::new(delimiter, inner))));
}

/// `Extend<TokenStream>` with a clone of `other`: its token trees are
/// appended to those of `ts`.
#[verifier::external_body]
pub fn append_stream(ts: &mut TokenStream, other: &TokenStream)
    ensures
        stream_tokens(*final(ts)) == stream_tokens(*old(ts)) + stream_tokens(*other),
{
    ts.extend(std::iter::once(other.clone()));
}

/// `TokenStream`'s `Display`: the text of the stream.
#[verifier::external_body]
pub fn render(ts: &TokenStream) -> (text: String)
    ensures
        text@ == rendered(stream_tokens(*ts)),
{
    ts.to_string()
}

} // verus!

verus! {

/// `::`
pub open spec fn colon2() -> Seq<Tok> {
    seq![joint(':'), punct(':')]
}

/// `->`
pub open spec fn rarrow() -> Seq<Tok> {
    seq![joint('-'), punct('>')]
}

/// `>>`
pub open spec fn shr() -> Seq<Tok> {
    seq![joint('>'), punct('>')]
}

/// `..`
pub open spec fn dot2() -> Seq<Tok> {
    seq![joint('.'), punct('.')]
}

/// `::std::module::name`
pub open spec fn std_path(module: Seq<char>, name: Seq<char>) -> Seq<Tok> {
    colon2() + seq![ident("std"@)] + colon2() + seq![ident(module)] + colon2() + seq![ident(name)]
}

/// `crate::name`
pub open spec fn crate_path(name: Seq<char>) -> Seq<Tok> {
    seq![ident("crate"@)] + colon2() + seq![ident(name)]
}

/// `#[doc = "text"]`
pub open spec fn doc_attr(text: Seq<char>) -> Seq<Tok> {
    seq![punct('#'), group(Delim::Bracket, seq![ident("doc"@), punct('='), str_lit(text)])]
}

/// `#[doc = r"text"]`, the attribute that a `///` comment stands for.
pub open spec fn doc_comment(text: Seq<char>) -> Seq<Tok> {
    seq![punct('#'), group(Delim::Bracket, seq![ident("doc"@), punct('='), raw_str_lit(text)])]
}

/// `#[doc = stringify!(name)]` for the identifier token `name`.
pub open spec fn doc_stringify(name: Tok) -> Seq<Tok> {
    seq![
        punct('#'),
        group(
            Delim::Bracket,
            seq![
                ident("doc"@),
                punct('='),
                ident("stringify"@),
                punct('!'),
                group(Delim::Parenthesis, seq![name]),
            ],
        ),
    ]
}

pub fn push_colon2(ts: &mut TokenStream)
    ensures
        stream_tokens(*final(ts)) == stream_tokens(*old(ts)) + colon2(),
{
    push_punct(ts, ':', true);
    push_punct(ts, ':', false);
}

pub fn push_rarrow(ts: &mut TokenStream)
    ensures
        stream_tokens(*final(ts)) == stream_tokens(*old(ts)) + rarrow(),
{
    push_punct(ts, '-', true);
    push_punct(ts, '>', false);
}

pub fn push_shr(ts: &mut TokenStream)
    ensures
        stream_tokens(*final(ts)) == stream_tokens(*old(ts)) + shr(),
{
    push_punct(ts, '>', true);
    push_punct(ts, '>', false);
}

pub fn push_dot2(ts: &mut TokenStream)
    ensures
        stream_tokens(*final(ts)) == stream_tokens(*old(ts)) + dot2(),
{
    push_punct(ts, '.', true);
    push_punct(ts, '.', false);
}

pub fn push_std_path(ts: &mut TokenStream, module: &str, name: &str)
    requires
        valid_ident(module@),
        valid_ident(name@),
    ensures
        stream_tokens(*final(ts)) == stream_tokens(*old(ts)) + std_path(module@, name@),
{
    proof {
        reveal_strlit("std");
    }
    push_colon2(ts);
    push_ident(ts, "std");
    push_colon2(ts);
    push_ident(ts, module);
    push_colon2(ts);
    push_ident(ts, name);
}

pub fn push_crate_path(ts: &mut TokenStream, name: &str)
    requires
        valid_ident(name@),
    ensures
        stream_tokens(*final(ts)) == stream_tokens(*old(ts)) + crate_path(name@),
{
    proof {
        reveal_strlit("crate");
    }
    push_ident(ts, "crate");
    push_colon2(ts);
    push_ident(ts, name);
}

pub fn push_doc(ts: &mut TokenStream, text: &str)
    ensures
        stream_tokens(*final(ts)) == stream_tokens(*old(ts)) + doc_attr(text@),
{
    proof {
        reveal_strlit("doc");
    }
    push_punct(ts, '#', false);
    let mut inner = new_stream();
    push_ident(&mut inner, "doc");
    push_punct(&mut inner, '=', false);
    push_str_lit(&mut inner, text);
    assert(stream_tokens(inner) =~= seq![ident("doc"@), punct('='), str_lit(text@)]);
    push_group(ts, Delim::Bracket, inner);
}

pub fn push_doc_comment(ts: &mut TokenStream, text: &str)
    requires
        raw_str_text(text@),
    ensures
        stream_tokens(*final(ts)) == stream_tokens(*old(ts)) + doc_comment(text@),
{
    proof {
        reveal_strlit("doc");
    }
    push_punct(ts, '#', false);
    let mut inner = new_stream();
    push_ident(&mut inner, "doc");
    push_punct(&mut inner, '=', false);
    push_raw_str_lit(&mut inner, text);
    assert(stream_tokens(inner) =~= seq![ident("doc"@), punct('='), raw_str_lit(text@)]);
    push_group(ts, Delim::Bracket, inner);
}

/// `run` stands in `s` from position `k` on.
pub open spec fn run_at(s: Seq<Tok>, run: Seq<Tok>, k: int) -> bool {
    &&& 0 <= k
    &&& k + run.len() <= s.len()
    &&& s.subrange(k, k + run.len()) == run
}

/// `run` stands in `s`, or inside a group of `s` nested at most `depth`
/// groups deep.
pub open spec fn contains_run(s: Seq<Tok>, run: Seq<Tok>, depth: nat) -> bool
    decreases depth,
{
    ||| exists|k: int| #[trigger] run_at(s, run, k)
    ||| depth > 0 && exists|j: int|
        #![trigger s[j]]
        0 <= j < s.len() && (s[j] matches Tok::Group { inner, .. } && contains_run(
            inner,
            run,
            (depth - 1) as nat,
        ))
}

/// A run in the first part of a sequence stays there after appending.
pub proof fn lemma_run_at_prefix(a: Seq<Tok>, b: Seq<Tok>, run: Seq<Tok>, k: int)
    requires
        run_at(a, run, k),
    ensures
        run_at(a + b, run, k),
{
    assert((a + b).subrange(k, k + run.len()) =~= a.subrange(k, k + run.len()));
}

/// A run in the second part of a sequence moves by the first part's length.
pub proof fn lemma_run_at_suffix(a: Seq<Tok>, b: Seq<Tok>, run: Seq<Tok>, k: int)
    requires
        run_at(b, run, k),
    ensures
        run_at(a + b, run, a.len() + k),
{
    assert((a + b).subrange(a.len() + k, a.len() + k + run.len()) =~= b.subrange(k, k + run.len()));
}

/// A run found directly in `s` is contained in it.
pub proof fn lemma_contains_here(s: Seq<Tok>, run: Seq<Tok>, k: int, depth: nat)
    requires
        run_at(s, run, k),
    ensures
        contains_run(s, run, depth),
{
    assert(run_at(s, run, k));
}

/// A run contained in a group of `s` is contained in `s`, one level deeper.
pub proof fn lemma_contains_in_group(
    s: Seq<Tok>,
    j: int,
    delim: Delim,
    inner: Seq<Tok>,
    run: Seq<Tok>,
    depth: nat,
)
    requires
        0 <= j < s.len(),
        s[j] == group(delim, inner),
        contains_run(inner, run, depth),
    ensures
        contains_run(s, run, depth + 1),
{
    assert(s[j] matches Tok::Group { inner: i, .. } && contains_run(i, run, depth));
}

/// The identifier token for `name`: raw or not.
pub open spec fn name_tok(name: Seq<char>, raw: bool) -> Tok {
    Tok::Ident { name, raw }
}

/// A name that can become an identifier, raw when `raw`.
pub open spec fn valid_name(name: Seq<char>, raw: bool) -> bool {
    if raw {
        valid_raw_ident(name)
    } else {
        valid_ident(name)
    }
}

/// Appends an identifier, raw when `raw`.
pub fn push_name(ts: &mut TokenStream, name: &str, raw: bool)
    requires
        valid_name(name@, raw),
    ensures
        stream_tokens(*final(ts)) == stream_tokens(*old(ts)).push(name_tok(name@, raw)),
{
    if raw {
        push_raw_ident(ts, name);
    } else {
        push_ident(ts, name);
    }
}

pub fn push_doc_stringify(ts: &mut TokenStream, name: &str, raw: bool)
    requires
        valid_name(name@, raw),
    ensures
        stream_tokens(*final(ts)) == stream_tokens(*old(ts)) + doc_stringify(name_tok(name@, raw)),
{
    proof {
        reveal_strlit("doc");
        reveal_strlit("stringify");
    }
    push_punct(ts, '#', false);
    let mut inner = new_stream();
    push_ident(&mut inner, "doc");
    push_punct(&mut inner, '=', false);
    push_ident(&mut inner, "stringify");
    push_punct(&mut inner, '!', false);
    let mut arg = new_stream();
    push_name(&mut arg, name, raw);
    assert(stream_tokens(arg) =~= seq![name_tok(name@, raw)]);
    push_group(&mut inner, Delim::Parenthesis, arg);
    assert(stream_tokens(inner) =~= seq![
        ident("doc"@),
        punct('='),
        ident("stringify"@),
        punct('!'),
        group(Delim::Parenthesis, seq![name_tok(name@, raw)]),
    ]);
    push_group(ts, Delim::Bracket, inner);
}

} // verus!
