//! The input or output arguments of an operation, and the position of each
//! argument among the tensors that the operation takes or gives.
use vstd::prelude::*;
use proc_macro2::TokenStream;
use crate::model::ArgDef;
use crate::text::{snake_name, spec_snake_name, str_eq};
use crate::tokens::{
    group, ident, new_stream, punct, push_group, push_ident, push_punct, push_str_lit,
    push_usize_lit, stream_tokens, str_lit, usize_lit, Delim, Tok,
};

verus! {

/// The attribute that holds the length of a list argument; `None` for an
/// argument that is a single tensor.
pub open spec fn spec_number_attr(a: ArgDef) -> Option<Seq<char>> {
    if a.number_attr@.len() == 0 {
        None
    } else {
        Some(a.number_attr@)
    }
}

/// The chars of an optional string slice.
pub open spec fn opt_str_view(o: Option<&str>) -> Option<Seq<char>> {
    match o {
        Some(s) => Some(s@),
        None => None,
    }
}

/// Entries (attribute name, count) with no name twice.
pub open spec fn keys_distinct(e: Seq<(Seq<char>, nat)>) -> bool {
    forall|i: int, j: int| 0 <= i < j < e.len() ==> #[trigger] e[i].0 != #[trigger] e[j].0
}

/// Whether some entry has the name `k`.
pub open spec fn has_key(e: Seq<(Seq<char>, nat)>, k: Seq<char>) -> bool {
    exists|j: int| 0 <= j < e.len() && #[trigger] e[j].0 == k
}

/// The position of the entry named `k`.
pub open spec fn key_index(e: Seq<(Seq<char>, nat)>, k: Seq<char>) -> int {
    choose|j: int| 0 <= j < e.len() && #[trigger] e[j].0 == k
}

/// Counts one more use of `k`: its entry grows by one, or a new entry
/// `(k, 1)` goes at the end.
pub open spec fn bump(e: Seq<(Seq<char>, nat)>, k: Seq<char>) -> Seq<(Seq<char>, nat)> {
    if has_key(e, k) {
        let j = key_index(e, k);
        e.update(j, (k, e[j].1 + 1))
    } else {
        e.push((k, 1))
    }
}

/// What the first `n` arguments leave behind: how many of them are single
/// tensors, and for each length attribute in order of first use, how many
/// list arguments use it.
pub open spec fn spec_previous(args: Seq<ArgDef>, n: int) -> (nat, Seq<(Seq<char>, nat)>)
    decreases n,
{
    if n <= 0 {
        (0, Seq::empty())
    } else {
        let prev = spec_previous(args, n - 1);
        match spec_number_attr(args[n - 1]) {
            None => ((prev.0 + 1) as nat, prev.1),
            Some(k) => (prev.0, bump(prev.1, k)),
        }
    }
}

/// The sum of the counts.
pub open spec fn sum_counts(e: Seq<(Seq<char>, nat)>) -> nat
    decreases e.len(),
{
    if e.len() == 0 {
        0
    } else {
        sum_counts(e.drop_last()) + e.last().1
    }
}

/// How many of the first `n` arguments are single tensors.
pub open spec fn count_scalar(args: Seq<ArgDef>, n: int) -> nat
    decreases n,
{
    if n <= 0 {
        0
    } else {
        count_scalar(args, n - 1) + if args[n - 1].number_attr@.len() == 0 {
            1nat
        } else {
            0nat
        }
    }
}

/// How many of the first `n` arguments are lists whose length is `k`.
pub open spec fn count_with_attr(args: Seq<ArgDef>, n: int, k: Seq<char>) -> nat
    decreases n,
{
    if n <= 0 {
        0
    } else {
        count_with_attr(args, n - 1, k) + if args[n - 1].number_attr@.len() > 0
            && args[n - 1].number_attr@ == k {
            1nat
        } else {
            0nat
        }
    }
}

/// The count that the entries hold for `k`, 0 when there is none.
pub open spec fn entry_count(e: Seq<(Seq<char>, nat)>, k: Seq<char>) -> nat {
    if has_key(e, k) {
        e[key_index(e, k)].1
    } else {
        0
    }
}

/// The tensors that an argument stands for, when each length attribute `a`
/// has the value `attr_value(a)`.
pub open spec fn arg_width(a: ArgDef, attr_value: spec_fn(Seq<char>) -> int) -> int {
    if a.number_attr@.len() == 0 {
        1
    } else {
        attr_value(a.number_attr@)
    }
}

/// The position of the first tensor of argument `n`: the tensors that the
/// arguments before it stand for.
pub open spec fn tensor_offset(
    args: Seq<ArgDef>,
    n: int,
    attr_value: spec_fn(Seq<char>) -> int,
) -> int
    decreases n,
{
    if n <= 0 {
        0
    } else {
        tensor_offset(args, n - 1, attr_value) + arg_width(args[n - 1], attr_value)
    }
}

/// The value of the entries: each attribute's value times its count.
pub open spec fn entries_value(
    e: Seq<(Seq<char>, nat)>,
    attr_value: spec_fn(Seq<char>) -> int,
) -> int
    decreases e.len(),
{
    if e.len() == 0 {
        0
    } else {
        entries_value(e.drop_last(), attr_value) + attr_value(e.last().0) * e.last().1
    }
}

/// `+ self.op.get_attr_int("k")? as i32 * (c as i32)`
pub open spec fn edge_term(k: Seq<char>, c: nat) -> Seq<Tok> {
    seq![
        punct('+'),
        ident("self"@),
        punct('.'),
        ident("op"@),
        punct('.'),
        ident("get_attr_int"@),
        group(Delim::Parenthesis, seq![str_lit(k)]),
        punct('?'),
        ident("as"@),
        ident("i32"@),
        punct('*'),
        group(Delim::Parenthesis, seq![usize_lit(c), ident("as"@), ident("i32"@)]),
    ]
}

/// The expression for the position of an argument's first tensor: the
/// single tensors before it, plus each length attribute's value times the
/// lists before it that use it.
pub open spec fn edge_index_tokens(scalar: nat, e: Seq<(Seq<char>, nat)>) -> Seq<Tok>
    decreases e.len(),
{
    if e.len() == 0 {
        seq![group(Delim::Parenthesis, seq![usize_lit(scalar), ident("as"@), ident("i32"@)])]
    } else {
        edge_index_tokens(scalar, e.drop_last()) + edge_term(e.last().0, e.last().1)
    }
}

/// The arguments that come before a given argument.
#[derive(Debug, Clone)]
pub struct PreviousArguments {
    /// Number of preceeding scalar arguments.
    previous_scalar_count: usize,
    /// Previous arguments with dynamic (non-scalar) length: for each
    /// attribute that gives such a length, in order of first use, how many
    /// of the previous arguments use it.
    previous_nonscalar_attributes_count: Vec<(String, usize)>,
}

impl View for PreviousArguments {
    type V = (nat, Seq<(Seq<char>, nat)>);

    closed spec fn view(&self) -> (nat, Seq<(Seq<char>, nat)>) {
        (
            self.previous_scalar_count as nat,
            self.previous_nonscalar_attributes_count@.map_values(
                |e: (String, usize)| (e.0@, e.1 as nat),
            ),
        )
    }
}

impl Default for PreviousArguments {
    fn default() -> (r: Self)
        ensures
            r@ == (0nat, Seq::<(Seq<char>, nat)>::empty()),
    {
        let r = PreviousArguments {
            previous_scalar_count: 0,
            previous_nonscalar_attributes_count: Vec::new(),
        };
        assert(r@.1 =~= Seq::<(Seq<char>, nat)>::empty());
        r
    }
}

impl PreviousArguments {
    /// A copy of these counts.
    fn snapshot(&self) -> (r: Self)
        ensures
            r@ == self@,
    {
        let mut entries: Vec<(String, usize)> = Vec::new();
        let n = self.previous_nonscalar_attributes_count.len();
        for i in 0..n
            invariant
                n == self.previous_nonscalar_attributes_count@.len(),
                entries@.len() == i,
                forall|j: int|
                    0 <= j < i ==> (#[trigger] entries@[j]).0@
                        == self.previous_nonscalar_attributes_count@[j].0@ && entries@[j].1
                        == self.previous_nonscalar_attributes_count@[j].1,
        {
            let e = &self.previous_nonscalar_attributes_count[i];
            entries.push((e.0.clone(), e.1));
        }
        let r = PreviousArguments {
            previous_scalar_count: self.previous_scalar_count,
            previous_nonscalar_attributes_count: entries,
        };
        assert(r@.1 =~= self@.1);
        r
    }

    /// Counts one more list argument whose length is the attribute `key`.
    fn bump(&mut self, key: &str)
        requires
            keys_distinct(old(self)@.1),
            sum_counts(old(self)@.1) < usize::MAX,
        ensures
            final(self)@ == (old(self)@.0, bump(old(self)@.1, key@)),
    {
        let ghost e = self@.1;
        let n = self.previous_nonscalar_attributes_count.len();
        let mut i: usize = 0;
        while i < n
            invariant
                n == self.previous_nonscalar_attributes_count@.len(),
                e == self@.1,
                self == old(self),
                keys_distinct(e),
                sum_counts(e) < usize::MAX,
                0 <= i <= n,
                forall|j: int| 0 <= j < i ==> e[j].0 != key@,
            decreases n - i,
        {
            if str_eq(self.previous_nonscalar_attributes_count[i].0.as_str(), key) {
                assert(e[i as int].0 == key@);
                assert(has_key(e, key@));
                let ghost j = key_index(e, key@);
                assert(e[j].0 == key@);
                proof {
                    if j < i as int {
                        assert(e[j].0 != e[i as int].0);
                    } else if j > i as int {
                        assert(e[i as int].0 != e[j].0);
                    }
                }
                assert(j == i as int);
                proof {
                    lemma_count_le_sum(e, i as int);
                }
                let name = self.previous_nonscalar_attributes_count[i].0.clone();
                let count = self.previous_nonscalar_attributes_count[i].1;
                assert(count == e[i as int].1);
                self.previous_nonscalar_attributes_count.set(i, (name, count + 1));
                assert(self@.1 =~= bump(e, key@));
                return;
            }
            i = i + 1;
        }
        assert(!has_key(e, key@));
        self.previous_nonscalar_attributes_count.push((key.to_owned(), 1));
        assert(self@.1 =~= bump(e, key@));
    }

    /// Scalar offset of the next edge: the expression for the position of
    /// the next argument's first tensor.
    pub fn edge_index(&self) -> (r: TokenStream)
        ensures
            stream_tokens(r) == edge_index_tokens(self@.0, self@.1),
    {
        proof {
            reveal_strlit("as");
            reveal_strlit("i32");
            reveal_strlit("self");
            reveal_strlit("op");
            reveal_strlit("get_attr_int");
        }
        let mut start = new_stream();
        push_usize_lit(&mut start, self.previous_scalar_count);
        push_ident(&mut start, "as");
        push_ident(&mut start, "i32");
        assert(stream_tokens(start) =~= seq![usize_lit(self@.0), ident("as"@), ident("i32"@)]);
        let mut r = new_stream();
        push_group(&mut r, Delim::Parenthesis, start);
        let n = self.previous_nonscalar_attributes_count.len();
        assert(self@.1.take(0) =~= Seq::<(Seq<char>, nat)>::empty());
        for i in 0..n
            invariant
                n == self.previous_nonscalar_attributes_count@.len(),
                n == self@.1.len(),
                stream_tokens(r) == edge_index_tokens(self@.0, self@.1.take(i as int)),
        {
            proof {
                reveal_strlit("as");
                reveal_strlit("i32");
                reveal_strlit("self");
                reveal_strlit("op");
                reveal_strlit("get_attr_int");
            }
            let e = &self.previous_nonscalar_attributes_count[i];
            push_punct(&mut r, '+', false);
            push_ident(&mut r, "self");
            push_punct(&mut r, '.', false);
            push_ident(&mut r, "op");
            push_punct(&mut r, '.', false);
            push_ident(&mut r, "get_attr_int");
            let mut key = new_stream();
            push_str_lit(&mut key, e.0.as_str());
            push_group(&mut r, Delim::Parenthesis, key);
            push_punct(&mut r, '?', false);
            push_ident(&mut r, "as");
            push_ident(&mut r, "i32");
            push_punct(&mut r, '*', false);
            let mut count = new_stream();
            push_usize_lit(&mut count, e.1);
            push_ident(&mut count, "as");
            push_ident(&mut count, "i32");
            assert(stream_tokens(key) =~= seq![str_lit(self@.1[i as int].0)]);
            assert(stream_tokens(count) =~= seq![usize_lit(self@.1[i as int].1), ident("as"@), ident("i32"@)]);
            push_group(&mut r, Delim::Parenthesis, count);
            assert(self@.1.take(i + 1).drop_last() =~= self@.1.take(i as int));
        }
        assert(self@.1.take(n as int) =~= self@.1);
        r
    }
}

/// A count is at most the sum of all counts.
proof fn lemma_count_le_sum(e: Seq<(Seq<char>, nat)>, i: int)
    requires
        0 <= i < e.len(),
    ensures
        e[i].1 <= sum_counts(e),
    decreases e.len(),
{
    if i < e.len() - 1 {
        lemma_count_le_sum(e.drop_last(), i);
    }
}

/// Bumping a key adds one to the sum of the counts.
proof fn lemma_sum_bump(e: Seq<(Seq<char>, nat)>, k: Seq<char>)
    ensures
        sum_counts(bump(e, k)) == sum_counts(e) + 1,
{
    if has_key(e, k) {
        let j = key_index(e, k);
        lemma_sum_update(e, j, (k, e[j].1 + 1));
    } else {
        assert(e.push((k, 1)).drop_last() =~= e);
    }
}

/// Replacing an entry changes the sum by the difference of the counts.
proof fn lemma_sum_update(e: Seq<(Seq<char>, nat)>, j: int, x: (Seq<char>, nat))
    requires
        0 <= j < e.len(),
    ensures
        sum_counts(e.update(j, x)) == sum_counts(e) - e[j].1 + x.1,
    decreases e.len(),
{
    if j < e.len() - 1 {
        assert(e.update(j, x).drop_last() =~= e.drop_last().update(j, x));
        lemma_sum_update(e.drop_last(), j, x);
    } else {
        assert(e.update(j, x).drop_last() =~= e.drop_last());
    }
}

/// Names that are not empty.
pub open spec fn keys_nonempty(e: Seq<(Seq<char>, nat)>) -> bool {
    forall|i: int| 0 <= i < e.len() ==> (#[trigger] e[i]).0.len() > 0
}

/// Bumping a key adds one to its count and leaves every other count alone.
proof fn lemma_entry_count_bump(e: Seq<(Seq<char>, nat)>, a: Seq<char>, k: Seq<char>)
    requires
        keys_distinct(e),
    ensures
        entry_count(bump(e, a), k) == entry_count(e, k) + if k == a {
            1nat
        } else {
            0nat
        },
{
    let b = bump(e, a);
    lemma_bump_distinct(e, a);
    if has_key(e, a) {
        let j = key_index(e, a);
        assert(b[j].0 == a);
        if k == a {
            assert(has_key(b, k));
            let jb = key_index(b, k);
            if jb != j {
                if jb < j {
                    assert(b[jb].0 != b[j].0);
                } else {
                    assert(b[j].0 != b[jb].0);
                }
            }
        } else {
            if has_key(e, k) {
                let je = key_index(e, k);
                assert(je != j);
                assert(b[je].0 == k);
                assert(has_key(b, k));
                let jb = key_index(b, k);
                if jb != je {
                    if jb < je {
                        assert(b[jb].0 != b[je].0);
                    } else {
                        assert(b[je].0 != b[jb].0);
                    }
                }
            } else {
                if has_key(b, k) {
                    let jb = key_index(b, k);
                    assert(jb != j);
                    assert(e[jb].0 == k);
                }
            }
        }
    } else {
        if k == a {
            assert(b[e.len() as int].0 == k);
            assert(has_key(b, k));
            let jb = key_index(b, k);
            if jb != e.len() {
                assert(e[jb].0 == a);
            }
        } else {
            if has_key(e, k) {
                let je = key_index(e, k);
                assert(b[je].0 == k);
                assert(has_key(b, k));
                let jb = key_index(b, k);
                if jb != je {
                    if jb < je {
                        assert(b[jb].0 != b[je].0);
                    } else {
                        assert(b[je].0 != b[jb].0);
                    }
                }
            } else {
                if has_key(b, k) {
                    let jb = key_index(b, k);
                    assert(jb != e.len());
                    assert(e[jb].0 == k);
                }
            }
        }
    }
}

/// Replacing an entry changes the value by the difference of the two
/// entries' products.
proof fn lemma_value_update(
    e: Seq<(Seq<char>, nat)>,
    j: int,
    x: (Seq<char>, nat),
    attr_value: spec_fn(Seq<char>) -> int,
)
    requires
        0 <= j < e.len(),
    ensures
        entries_value(e.update(j, x), attr_value) == entries_value(e, attr_value) - attr_value(
            e[j].0,
        ) * e[j].1 + attr_value(x.0) * x.1,
    decreases e.len(),
{
    if j < e.len() - 1 {
        assert(e.update(j, x).drop_last() =~= e.drop_last().update(j, x));
        lemma_value_update(e.drop_last(), j, x, attr_value);
    } else {
        assert(e.update(j, x).drop_last() =~= e.drop_last());
    }
}

/// Bumping `a` adds the value of `a` once.
proof fn lemma_value_bump(
    e: Seq<(Seq<char>, nat)>,
    a: Seq<char>,
    attr_value: spec_fn(Seq<char>) -> int,
)
    ensures
        entries_value(bump(e, a), attr_value) == entries_value(e, attr_value) + attr_value(a),
{
    if has_key(e, a) {
        let j = key_index(e, a);
        let c = e[j].1;
        lemma_value_update(e, j, (a, c + 1), attr_value);
        let v = attr_value(a);
        assert(v * (c + 1) == v * c + v) by (nonlinear_arith);
    } else {
        assert(e.push((a, 1)).drop_last() =~= e);
    }
}

/// What the counts mean: after the first `n` arguments, the scalar count is
/// the number of single-tensor arguments among them, each length attribute
/// appears once, under a non-empty name, and its count is the number of
/// list arguments among them whose length it gives.
pub proof fn law_previous_counts(args: Seq<ArgDef>, n: int)
    requires
        0 <= n <= args.len(),
    ensures
        spec_previous(args, n).0 == count_scalar(args, n),
        keys_distinct(spec_previous(args, n).1),
        keys_nonempty(spec_previous(args, n).1),
        forall|k: Seq<char>|
            #[trigger] entry_count(spec_previous(args, n).1, k) == if k.len() > 0 {
                count_with_attr(args, n, k)
            } else {
                0
            },
    decreases n,
{
    if n > 0 {
        law_previous_counts(args, n - 1);
        let prev = spec_previous(args, n - 1);
        match spec_number_attr(args[n - 1]) {
            None => {
                assert forall|k: Seq<char>| #[trigger]
                    entry_count(spec_previous(args, n).1, k) == if k.len() > 0 {
                        count_with_attr(args, n, k)
                    } else {
                        0
                    } by {
                    assert(entry_count(prev.1, k) == if k.len() > 0 {
                        count_with_attr(args, n - 1, k)
                    } else {
                        0
                    });
                }
            },
            Some(a) => {
                lemma_bump_distinct(prev.1, a);
                let b = bump(prev.1, a);
                assert forall|i: int| 0 <= i < b.len() implies (#[trigger] b[i]).0.len() > 0 by {
                    if has_key(prev.1, a) {
                        if i != key_index(prev.1, a) {
                            assert(b[i] == prev.1[i]);
                        }
                    } else if i < prev.1.len() {
                        assert(b[i] == prev.1[i]);
                    }
                }
                assert forall|k: Seq<char>| #[trigger]
                    entry_count(spec_previous(args, n).1, k) == if k.len() > 0 {
                        count_with_attr(args, n, k)
                    } else {
                        0
                    } by {
                    lemma_entry_count_bump(prev.1, a, k);
                    assert(entry_count(prev.1, k) == if k.len() > 0 {
                        count_with_attr(args, n - 1, k)
                    } else {
                        0
                    });
                }
            },
        }
    }
}

/// What the edge index computes: the single tensors before an argument plus
/// each length attribute's value times the list arguments before it that use
/// it is the position of the argument's first tensor, for any values of the
/// length attributes.
pub proof fn law_edge_offset(args: Seq<ArgDef>, n: int, attr_value: spec_fn(Seq<char>) -> int)
    requires
        0 <= n <= args.len(),
    ensures
        spec_previous(args, n).0 + entries_value(spec_previous(args, n).1, attr_value)
            == tensor_offset(args, n, attr_value),
    decreases n,
{
    if n > 0 {
        law_edge_offset(args, n - 1, attr_value);
        let prev = spec_previous(args, n - 1);
        match spec_number_attr(args[n - 1]) {
            None => {},
            Some(a) => {
                lemma_value_bump(prev.1, a, attr_value);
            },
        }
    }
}

/// No two of the arguments have the same snake-case name.
pub open spec fn fields_distinct(args: Seq<ArgDef>) -> bool {
    forall|i: int, j: int|
        0 <= i < j < args.len() ==> #[trigger] spec_snake_name(args[i].name@) != #[trigger] spec_snake_name(
            args[j].name@,
        )
}

/// The arguments of an operation, in the order in which TensorFlow numbers
/// them.
pub struct Arguments<'a>(pub &'a Vec<ArgDef>);

impl<'a> Arguments<'a> {
    /// Snake case identifier of each argument; the identifiers are unique
    /// exactly when no two arguments have the same snake-case name
    /// (`fields_distinct`), which operations that can be generated ensure.
    pub fn rust_field(&self) -> (r: Vec<String>)
        ensures
            r@.len() == self.0@.len(),
            forall|i: int|
                0 <= i < r@.len() ==> (#[trigger] r@[i])@ == spec_snake_name(self.0@[i].name@),
            fields_distinct(self.0@) <==> forall|i: int, j: int|
                0 <= i < j < r@.len() ==> (#[trigger] r@[i])@ != (#[trigger] r@[j])@,
    {
        let mut r: Vec<String> = Vec::new();
        for i in 0..self.0.len()
            invariant
                r@.len() == i,
                forall|j: int|
                    0 <= j < i ==> (#[trigger] r@[j])@ == spec_snake_name(self.0@[j].name@),
        {
            r.push(snake_name(self.0[i].name.as_str()));
        }
        proof {
            if fields_distinct(self.0@) {
                assert forall|i: int, j: int| 0 <= i < j < r@.len() implies (#[trigger] r@[i])@
                    != (#[trigger] r@[j])@ by {
                    assert(spec_snake_name(self.0@[i].name@) != spec_snake_name(self.0@[j].name@));
                }
            }
            if forall|i: int, j: int| 0 <= i < j < r@.len() ==> (#[trigger] r@[i])@ != (
            #[trigger] r@[j])@ {
                assert forall|i: int, j: int| 0 <= i < j < self.0@.len() implies #[trigger] spec_snake_name(
                    self.0@[i].name@,
                ) != #[trigger] spec_snake_name(self.0@[j].name@) by {
                    assert(r@[i]@ != r@[j]@);
                }
            }
        }
        r
    }

    /// When non-scalar this will reference the attribute defining the length
    /// of the argument.
    pub fn number_attr(&self) -> (r: Vec<Option<&'a str>>)
        ensures
            r@.len() == self.0@.len(),
            forall|i: int|
                0 <= i < r@.len() ==> opt_str_view(#[trigger] r@[i]) == spec_number_attr(
                    self.0@[i],
                ),
    {
        let args: &'a Vec<ArgDef> = self.0;
        let mut r: Vec<Option<&'a str>> = Vec::new();
        for i in 0..args.len()
            invariant
                r@.len() == i,
                forall|j: int|
                    0 <= j < i ==> opt_str_view(#[trigger] r@[j]) == spec_number_attr(args@[j]),
        {
            let attr: &'a str = args[i].number_attr.as_str();
            if attr.is_empty() {
                r.push(None);
            } else {
                r.push(Some(attr));
            }
        }
        r
    }

    /// For each argument specifies previous arguments.
    pub fn previous_arguments(&self) -> (r: Vec<PreviousArguments>)
        ensures
            r@.len() == self.0@.len(),
            forall|i: int|
                0 <= i < r@.len() ==> (#[trigger] r@[i])@ == spec_previous(self.0@, i),
    {
        let args = self.c_number_attr();
        let mut seen_edges = PreviousArguments::default();
        let mut r: Vec<PreviousArguments> = Vec::new();
        let n = args.len();
        for i in 0..n
            invariant
                n == args@.len(),
                n == self.0@.len(),
                forall|j: int|
                    0 <= j < n ==> opt_str_view(#[trigger] args@[j]) == spec_number_attr(
                        self.0@[j],
                    ),
                seen_edges@ == spec_previous(self.0@, i as int),
                r@.len() == i,
                forall|j: int| 0 <= j < i ==> (#[trigger] r@[j])@ == spec_previous(self.0@, j),
        {
            proof {
                law_previous_count_sum(self.0@, i as int);
            }
            let current = seen_edges.snapshot();
            match args[i] {
                Some(number_attr) => {
                    assert(opt_str_view(args@[i as int]) == Some(number_attr@));
                    seen_edges.bump(number_attr);
                },
                None => {
                    seen_edges.previous_scalar_count = seen_edges.previous_scalar_count + 1;
                    assert(seen_edges@.1 == spec_previous(self.0@, i as int).1);
                },
            }
            r.push(current);
        }
        r
    }

    /// Identifies the attribute to the tensorflow API.
    pub fn c_number_attr(&self) -> (r: Vec<Option<&'a str>>)
        ensures
            r@.len() == self.0@.len(),
            forall|i: int|
                0 <= i < r@.len() ==> opt_str_view(#[trigger] r@[i]) == spec_number_attr(
                    self.0@[i],
                ),
    {
        let args: &'a Vec<ArgDef> = self.0;
        let mut r: Vec<Option<&'a str>> = Vec::new();
        for i in 0..args.len()
            invariant
                r@.len() == i,
                forall|j: int|
                    0 <= j < i ==> opt_str_view(#[trigger] r@[j]) == spec_number_attr(args@[j]),
        {
            let edge: &'a str = args[i].number_attr.as_str();
            if edge.is_empty() {
                r.push(None);
            } else {
                r.push(Some(edge));
            }
        }
        r
    }
}

/// Every argument is counted once: after the first `n` arguments, the scalar
/// count plus the counts of the length attributes is `n`, and no length
/// attribute has two entries.
pub proof fn law_previous_count_sum(args: Seq<ArgDef>, n: int)
    requires
        0 <= n <= args.len(),
    ensures
        keys_distinct(spec_previous(args, n).1),
        spec_previous(args, n).0 + sum_counts(spec_previous(args, n).1) == n,
    decreases n,
{
    if n > 0 {
        law_previous_count_sum(args, n - 1);
        let prev = spec_previous(args, n - 1);
        match spec_number_attr(args[n - 1]) {
            None => {},
            Some(k) => {
                lemma_sum_bump(prev.1, k);
                lemma_bump_distinct(prev.1, k);
            },
        }
    }
}

/// From one argument to the next the counts only grow: the scalar count and
/// every attribute's count never go down, exactly one of them goes up by
/// one, and the attributes seen so far keep their places in the order of
/// first use.
pub proof fn law_previous_counts_grow(args: Seq<ArgDef>, n: int)
    requires
        0 <= n < args.len(),
    ensures
        spec_previous(args, n).0 <= spec_previous(args, n + 1).0,
        forall|k: Seq<char>|
            entry_count(spec_previous(args, n).1, k) <= #[trigger] entry_count(
                spec_previous(args, n + 1).1,
                k,
            ),
        spec_previous(args, n + 1).0 + sum_counts(spec_previous(args, n + 1).1) == spec_previous(
            args,
            n,
        ).0 + sum_counts(spec_previous(args, n).1) + 1,
        spec_previous(args, n).1.len() <= spec_previous(args, n + 1).1.len(),
        forall|i: int|
            0 <= i < spec_previous(args, n).1.len() ==> (#[trigger] spec_previous(args, n + 1).1[i]).0
                == spec_previous(args, n).1[i].0,
{
    law_previous_count_sum(args, n);
    law_previous_count_sum(args, n + 1);
    let prev = spec_previous(args, n);
    assert(spec_previous(args, n + 1) == match spec_number_attr(args[n]) {
        None => ((prev.0 + 1) as nat, prev.1),
        Some(k) => (prev.0, bump(prev.1, k)),
    });
    match spec_number_attr(args[n]) {
        None => {},
        Some(a) => {
            assert forall|k: Seq<char>|
                entry_count(prev.1, k) <= #[trigger] entry_count(spec_previous(args, n + 1).1, k) by {
                lemma_entry_count_bump(prev.1, a, k);
            }
        },
    }
}

/// Bumping keeps the names distinct.
proof fn lemma_bump_distinct(e: Seq<(Seq<char>, nat)>, k: Seq<char>)
    requires
        keys_distinct(e),
    ensures
        keys_distinct(bump(e, k)),
{
    if has_key(e, k) {
        let j = key_index(e, k);
        let b = bump(e, k);
        assert forall|x: int, y: int| 0 <= x < y < b.len() implies #[trigger] b[x].0
            != #[trigger] b[y].0 by {
            assert(e[x].0 != e[y].0);
        }
    } else {
        let b = bump(e, k);
        assert forall|x: int, y: int| 0 <= x < y < b.len() implies #[trigger] b[x].0
            != #[trigger] b[y].0 by {
            if y == e.len() {
                assert(e[x].0 != k);
            } else {
                assert(e[x].0 != e[y].0);
            }
        }
    }
}

} // verus!
