//! Text helpers: comparing and building strings, snake case, decimal digits.
use vstd::prelude::*;

verus! {

/// Whether a non-ASCII char has the Unicode `Uppercase` property.
pub uninterp spec fn unicode_uppercase(c: char) -> bool;

/// The Unicode lowercase mapping of a non-ASCII char.
pub uninterp spec fn unicode_lowercase(c: char) -> Seq<char>;

pub open spec fn is_ascii(c: char) -> bool {
    (c as u32) < 128
}

pub open spec fn is_ascii_upper(c: char) -> bool {
    ('A' as u32) <= (c as u32) <= ('Z' as u32)
}

/// The Unicode `Uppercase` property: among ASCII chars it holds exactly of
/// `A` to `Z`.
pub open spec fn char_is_uppercase(c: char) -> bool {
    if is_ascii(c) {
        is_ascii_upper(c)
    } else {
        unicode_uppercase(c)
    }
}

/// The lowercase mapping of a char: an ASCII char maps to itself, but `A` to
/// `Z`, which map to `a` to `z`.
pub open spec fn char_to_lowercase(c: char) -> Seq<char> {
    if is_ascii(c) {
        if is_ascii_upper(c) {
            seq![((c as u32) + 32) as char]
        } else {
            seq![c]
        }
    } else {
        unicode_lowercase(c)
    }
}

/// `char::is_uppercase`: whether `c` has the Unicode `Uppercase` property,
/// which among ASCII chars holds exactly of `A` to `Z`; for other chars the
/// answer is left to the name `unicode_uppercase`.
#[verifier::external_body]
fn is_uppercase(c: char) -> (r: bool)
    ensures
        is_ascii(c) ==> r == is_ascii_upper(c),
        !is_ascii(c) ==> r == unicode_uppercase(c),
{
    c.is_uppercase()
}

/// `char::to_lowercase`, collected: the lowercase mapping of `c`, one or more
/// chars. For an ASCII char it is that char, with `A` to `Z` mapped to `a` to
/// `z`; for other chars which chars come (a Unicode table) is left to the
/// name `unicode_lowercase`.
#[verifier::external_body]
fn to_lowercase(c: char) -> (r: Vec<char>)
    ensures
        is_ascii(c) && is_ascii_upper(c) ==> r@ == seq![((c as u32) + 32) as char],
        is_ascii(c) && !is_ascii_upper(c) ==> r@ == seq![c],
        !is_ascii(c) ==> r@ == unicode_lowercase(c),
        r@.len() >= 1,
{
    c.to_lowercase().collect()
}

/// `String::push`: appends one char.
#[verifier::external_body]
pub fn push_char(s: &mut String, c: char)
    ensures
        final(s)@ == old(s)@.push(c),
{
    s.push(c);
}

/// The chars of a string slice.
pub fn chars_of(s: &str) -> (v: Vec<char>)
    ensures
        v@ == s@,
{
    let mut v: Vec<char> = Vec::new();
    for c in it: s.chars()
        invariant
            v@ == it.seq().take(it.index() as int),
            it.seq() == s@,
    {
        v.push(c);
    }
    v
}

/// Whether two string slices hold the same chars.
pub fn str_eq(a: &str, b: &str) -> (r: bool)
    ensures
        r == (a@ == b@),
{
    a.to_owned() == b.to_owned()
}

/// The snake-case piece that the char at `i` of `s` becomes: its lowercase
/// mapping, after an `_` when it is uppercase and follows a char that is not.
pub open spec fn snake_piece(s: Seq<char>, i: int) -> Seq<char> {
    let sep = if char_is_uppercase(s[i]) && i > 0 && !char_is_uppercase(s[i - 1]) {
        seq!['_']
    } else {
        Seq::<char>::empty()
    };
    sep + char_to_lowercase(s[i])
}

/// The pieces of the first `n` chars of `s`, joined.
pub open spec fn snake_prefix(s: Seq<char>, n: int) -> Seq<char>
    decreases n,
{
    if n <= 0 {
        Seq::<char>::empty()
    } else {
        snake_prefix(s, n - 1) + snake_piece(s, n - 1)
    }
}

/// The snake-case form of a name.
pub open spec fn spec_snake_name(s: Seq<char>) -> Seq<char> {
    snake_prefix(s, s.len() as int)
}

/// Converts a camel-case name to snake case: each char becomes its
/// lowercase mapping, and an `_` goes before each uppercase char whose
/// predecessor is not uppercase.
pub fn snake_name(name: &str) -> (s: String)
    ensures
        s@ == spec_snake_name(name@),
{
    let mut s = String::new();
    let mut was_lower = false;
    for c in it: name.chars()
        invariant
            it.seq() == name@,
            s@ == snake_prefix(name@, it.index() as int),
            was_lower == (it.index() > 0 && !char_is_uppercase(name@[it.index() - 1])),
    {
        let ghost i = it.index() as int;
        assert(c == name@[i]);
        let ghost before = s@;
        if is_uppercase(c) {
            if was_lower {
                push_char(&mut s, '_');
            }
            was_lower = false;
        } else {
            was_lower = true;
        }
        let lower = to_lowercase(c);
        let ghost mid = s@;
        let mut k: usize = 0;
        while k < lower.len()
            invariant
                0 <= k <= lower.len(),
                s@ == mid + lower@.take(k as int),
            decreases lower.len() - k,
        {
            push_char(&mut s, lower[k]);
            k = k + 1;
            assert(lower@.take(k as int) == lower@.take(k - 1).push(lower@[k - 1]));
        }
        assert(lower@.take(lower.len() as int) == lower@);
        assert(s@ == before + snake_piece(name@, i));
    }
    s
}

/// The decimal digit char for `d`.
pub open spec fn digit_char(d: nat) -> char {
    if d == 0 {
        '0'
    } else if d == 1 {
        '1'
    } else if d == 2 {
        '2'
    } else if d == 3 {
        '3'
    } else if d == 4 {
        '4'
    } else if d == 5 {
        '5'
    } else if d == 6 {
        '6'
    } else if d == 7 {
        '7'
    } else if d == 8 {
        '8'
    } else {
        '9'
    }
}

/// The decimal digits of `n`, most significant first, with no leading zero.
pub open spec fn decimal(n: nat) -> Seq<char>
    decreases n,
{
    if n < 10 {
        seq![digit_char(n)]
    } else {
        decimal(n / 10).push(digit_char(n % 10))
    }
}

/// Every char of `decimal(n)` is an ASCII digit, and there is at least one.
pub proof fn lemma_decimal_digits(n: nat)
    ensures
        decimal(n).len() >= 1,
        forall|i: int|
            0 <= i < decimal(n).len() ==> ('0' as u32) <= (#[trigger] decimal(n)[i] as u32) <= (
            '9' as u32),
    decreases n,
{
    if n >= 10 {
        lemma_decimal_digits(n / 10);
    }
}

fn digit(d: usize) -> (c: char)
    requires
        d < 10,
    ensures
        c == digit_char(d as nat),
{
    if d == 0 {
        '0'
    } else if d == 1 {
        '1'
    } else if d == 2 {
        '2'
    } else if d == 3 {
        '3'
    } else if d == 4 {
        '4'
    } else if d == 5 {
        '5'
    } else if d == 6 {
        '6'
    } else if d == 7 {
        '7'
    } else if d == 8 {
        '8'
    } else {
        '9'
    }
}

/// Appends the decimal digits of `n` to `s`.
pub fn push_decimal(s: &mut String, n: usize)
    ensures
        final(s)@ == old(s)@ + decimal(n as nat),
    decreases n,
{
    if n >= 10 {
        push_decimal(s, n / 10);
    }
    push_char(s, digit(n % 10));
    assert(s@ =~= old(s)@ + decimal(n as nat)) by {
        if n >= 10 {
            assert(decimal(n as nat) == decimal((n / 10) as nat).push(digit_char((n % 10) as nat)));
        }
    }
}


/// Snake case leaves a name alone when none of its chars is uppercase and
/// each char's lowercase mapping is the char itself.
pub proof fn law_snake_name_keeps_lowercase(s: Seq<char>)
    requires
        forall|i: int|
            0 <= i < s.len() ==> !char_is_uppercase(#[trigger] s[i]) && char_to_lowercase(s[i])
                == seq![s[i]],
    ensures
        spec_snake_name(s) == s,
{
    lemma_snake_prefix_keeps_lowercase(s, s.len() as int);
    assert(s.take(s.len() as int) =~= s);
}

proof fn lemma_snake_prefix_keeps_lowercase(s: Seq<char>, n: int)
    requires
        0 <= n <= s.len(),
        forall|i: int|
            0 <= i < s.len() ==> !char_is_uppercase(#[trigger] s[i]) && char_to_lowercase(s[i])
                == seq![s[i]],
    ensures
        snake_prefix(s, n) == s.take(n),
    decreases n,
{
    if n > 0 {
        lemma_snake_prefix_keeps_lowercase(s, n - 1);
        assert(snake_piece(s, n - 1) =~= seq![s[n - 1]]);
        assert(s.take(n) =~= s.take(n - 1).push(s[n - 1]));
    }
}

/// Snake case one char at a time: appending a char to a name appends its
/// lowercase mapping to the snake-case form, after an `_` exactly when the
/// char is uppercase and the name so far ends in a char that is not.
pub proof fn law_snake_name_push(s: Seq<char>, c: char)
    ensures
        !char_is_uppercase(c) ==> spec_snake_name(s.push(c)) == spec_snake_name(s)
            + char_to_lowercase(c),
        char_is_uppercase(c) && s.len() > 0 && !char_is_uppercase(s.last()) ==> spec_snake_name(
            s.push(c),
        ) == spec_snake_name(s) + seq!['_'] + char_to_lowercase(c),
        char_is_uppercase(c) && (s.len() == 0 || char_is_uppercase(s.last())) ==> spec_snake_name(
            s.push(c),
        ) == spec_snake_name(s) + char_to_lowercase(c),
{
    let t = s.push(c);
    lemma_snake_prefix_agrees(s, t, s.len() as int);
    assert(t[s.len() as int] == c);
    if s.len() > 0 {
        assert(t[s.len() - 1] == s.last());
    }
    assert(seq!['_'] + char_to_lowercase(c) =~= seq!['_'] + char_to_lowercase(c));
    assert(spec_snake_name(s) + seq!['_'] + char_to_lowercase(c) =~= spec_snake_name(s) + (seq![
        '_',
    ] + char_to_lowercase(c)));
    assert(Seq::<char>::empty() + char_to_lowercase(c) =~= char_to_lowercase(c));
}

/// Text of ASCII chars none of which is uppercase.
pub open spec fn ascii_without_upper(s: Seq<char>) -> bool {
    forall|i: int| 0 <= i < s.len() ==> is_ascii(#[trigger] s[i]) && !is_ascii_upper(s[i])
}

/// The snake-case form of an ASCII name is ASCII and holds no uppercase char.
pub proof fn law_snake_name_ascii_lowercase(s: Seq<char>)
    requires
        forall|i: int| 0 <= i < s.len() ==> is_ascii(#[trigger] s[i]),
    ensures
        ascii_without_upper(spec_snake_name(s)),
{
    lemma_snake_prefix_ascii(s, s.len() as int);
}

proof fn lemma_snake_prefix_ascii(s: Seq<char>, n: int)
    requires
        0 <= n <= s.len(),
        forall|i: int| 0 <= i < s.len() ==> is_ascii(#[trigger] s[i]),
    ensures
        ascii_without_upper(snake_prefix(s, n)),
    decreases n,
{
    if n > 0 {
        lemma_snake_prefix_ascii(s, n - 1);
        let a = snake_prefix(s, n - 1);
        let b = snake_piece(s, n - 1);
        let c = s[n - 1];
        assert(is_ascii(c));
        if is_ascii_upper(c) {
            let l = ((c as u32) + 32) as char;
            assert((l as u32) == (c as u32) + 32);
        }
        assert(ascii_without_upper(b));
        assert forall|i: int| 0 <= i < (a + b).len() implies is_ascii(#[trigger] (a + b)[i])
            && !is_ascii_upper((a + b)[i]) by {
            if i < a.len() {
                assert((a + b)[i] == a[i]);
            } else {
                assert((a + b)[i] == b[i - a.len()]);
            }
        }
    }
}

/// Snake case is idempotent on ASCII names: a second application changes
/// nothing, since the first leaves no uppercase char.
pub proof fn law_snake_name_idempotent(s: Seq<char>)
    requires
        forall|i: int| 0 <= i < s.len() ==> is_ascii(#[trigger] s[i]),
    ensures
        spec_snake_name(spec_snake_name(s)) == spec_snake_name(s),
{
    law_snake_name_ascii_lowercase(s);
    let t = spec_snake_name(s);
    assert forall|i: int| 0 <= i < t.len() implies !char_is_uppercase(#[trigger] t[i])
        && char_to_lowercase(t[i]) == seq![t[i]] by {
        assert(is_ascii(t[i]) && !is_ascii_upper(t[i]));
    }
    law_snake_name_keeps_lowercase(t);
}

/// An underscore goes in exactly at each step from a char that is not
/// uppercase to one that is: the snake-case form of `s + t` is that of `s`,
/// then the pieces of `t`, where the first char of `t` gets an `_` when it is
/// uppercase and the last char of `s` is not.
pub proof fn law_snake_name_concat(s: Seq<char>, t: Seq<char>)
    ensures
        spec_snake_name(s + t) == spec_snake_name(s) + snake_prefix_from(s + t, s.len() as int, (s + t).len() as int),
{
    lemma_snake_prefix_split(s + t, s.len() as int, (s + t).len() as int);
    lemma_snake_prefix_agrees(s, s + t, s.len() as int);
}

/// The pieces of the chars of `s` from `m` to `n`, joined.
pub open spec fn snake_prefix_from(s: Seq<char>, m: int, n: int) -> Seq<char>
    decreases n - m,
{
    if n <= m {
        Seq::<char>::empty()
    } else {
        snake_prefix_from(s, m, n - 1) + snake_piece(s, n - 1)
    }
}

proof fn lemma_snake_prefix_split(s: Seq<char>, m: int, n: int)
    requires
        0 <= m <= n,
    ensures
        snake_prefix(s, n) == snake_prefix(s, m) + snake_prefix_from(s, m, n),
    decreases n - m,
{
    if n > m {
        lemma_snake_prefix_split(s, m, n - 1);
    } else {
        assert(snake_prefix(s, m) + Seq::<char>::empty() =~= snake_prefix(s, m));
    }
}

proof fn lemma_snake_prefix_agrees(s: Seq<char>, u: Seq<char>, n: int)
    requires
        0 <= n <= s.len(),
        n <= u.len(),
        forall|i: int| 0 <= i < n ==> s[i] == u[i],
    ensures
        snake_prefix(s, n) == snake_prefix(u, n),
    decreases n,
{
    if n > 0 {
        lemma_snake_prefix_agrees(s, u, n - 1);
        assert(snake_piece(s, n - 1) == snake_piece(u, n - 1));
    }
}

proof fn lemma_decimal_len(n: nat)
    ensures
        n < 10 <==> decimal(n).len() == 1,
    decreases n,
{
    if n >= 10 {
        lemma_decimal_digits(n / 10);
    }
}

/// Different numbers have different decimal digits.
pub proof fn law_decimal_injective(a: nat, b: nat)
    requires
        decimal(a) == decimal(b),
    ensures
        a == b,
    decreases a,
{
    lemma_decimal_len(a);
    lemma_decimal_len(b);
    if a >= 10 && b >= 10 {
        assert(decimal(a / 10) =~= decimal(a).drop_last());
        assert(decimal(b / 10) =~= decimal(b).drop_last());
        law_decimal_injective(a / 10, b / 10);
        assert(decimal(a).last() == digit_char(a % 10));
        assert(decimal(b).last() == digit_char(b % 10));
        lemma_digit_injective(a % 10, b % 10);
    } else if a < 10 && b < 10 {
        assert(decimal(a) == seq![digit_char(a)]);
        assert(decimal(b) == seq![digit_char(b)]);
        assert(decimal(a)[0] == decimal(b)[0]);
        assert(digit_char(a) == decimal(a)[0]);
        assert(digit_char(b) == decimal(b)[0]);
        lemma_digit_injective(a, b);
    }
}

proof fn lemma_digit_injective(x: nat, y: nat)
    requires
        x < 10,
        y < 10,
        digit_char(x) == digit_char(y),
    ensures
        x == y,
{
    assert(digit_char(x) as u32 == 48 + x);
    assert(digit_char(y) as u32 == 48 + y);
}

} // verus!
