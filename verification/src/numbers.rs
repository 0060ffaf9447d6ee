use vstd::prelude::*;

verus! {

/// An ASCII decimal digit.
pub open spec fn is_digit(c: char) -> bool {
    '0' <= c && c <= '9'
}

pub open spec fn all_digits(s: Seq<char>) -> bool {
    forall|i: int| 0 <= i < s.len() ==> is_digit(#[trigger] s[i])
}

pub open spec fn digit_value(c: char) -> nat {
    (c as int - '0' as int) as nat
}

/// The number that a string of decimal digits denotes.
pub open spec fn decimal_value(s: Seq<char>) -> nat
    decreases s.len(),
{
    if s.len() == 0 {
        0
    } else {
        decimal_value(s.drop_last()) * 10 + digit_value(s.last())
    }
}

/// The digits that `u32::from_str` reads: the text without one leading `+`.
pub open spec fn unsigned_digits(s: Seq<char>) -> Seq<char> {
    if s.len() > 0 && s[0] == '+' {
        s.skip(1)
    } else {
        s
    }
}

/// What `str::parse::<u32>` gives for a text: an optional `+`, then one or more
/// decimal digits whose value fits in a `u32`.
pub open spec fn u32_text_value(s: Seq<char>) -> Option<u32> {
    let d = unsigned_digits(s);
    if d.len() > 0 && all_digits(d) && decimal_value(d) <= u32::MAX {
        Some(decimal_value(d) as u32)
    } else {
        None
    }
}

proof fn lemma_decimal_prefix_le(s: Seq<char>, k: int)
    requires
        0 <= k <= s.len(),
    ensures
        decimal_value(s.take(k)) <= decimal_value(s),
    decreases s.len(),
{
    if k < s.len() {
        assert(s.drop_last().take(k) =~= s.take(k));
        lemma_decimal_prefix_le(s.drop_last(), k);
    } else {
        assert(s.take(k) =~= s);
    }
}

/// Reads a `u32` written in decimal, as `str::parse::<u32>` does.
pub fn parse_u32(s: &str) -> (r: Option<u32>)
    ensures
        r == u32_text_value(s@),
{
    let n = s.unicode_len();
    let mut start: usize = 0;
    if n > 0 && s.get_char(0) == '+' {
        start = 1;
    }
    let ghost d = unsigned_digits(s@);
    assert(d =~= s@.subrange(start as int, n as int));
    if start == n {
        return None;
    }
    let mut i: usize = start;
    let mut acc: u64 = 0;
    while i < n
        invariant
            start <= i <= n,
            n == s@.len(),
            d == s@.subrange(start as int, n as int),
            d == unsigned_digits(s@),
            all_digits(s@.subrange(start as int, i as int)),
            acc == decimal_value(s@.subrange(start as int, i as int)),
            acc <= u32::MAX,
        decreases n - i,
    {
        let c = s.get_char(i);
        if !('0' <= c && c <= '9') {
            assert(d[i - start] == c);
            return None;
        }
        let ghost prev = s@.subrange(start as int, i as int);
        let ghost next = s@.subrange(start as int, i + 1);
        assert(next.drop_last() =~= prev);
        assert(next.last() == c);
        let v = (c as u32 - '0' as u32) as u64;
        acc = acc * 10 + v;
        assert(acc == decimal_value(next));
        if acc > u32::MAX as u64 {
            proof {
                assert(d.take(i + 1 - start) =~= next);
                lemma_decimal_prefix_le(d, i + 1 - start);
            }
            return None;
        }
        i = i + 1;
    }
    Some(acc as u32)
}


/// The code of a character with ASCII upper-case letters taken to lower case.
pub open spec fn ascii_lower(c: char) -> u32 {
    if 'A' <= c && c <= 'Z' {
        (c as u32 + 32) as u32
    } else {
        c as u32
    }
}

/// `t` spells `word` (given in lower case), ignoring ASCII case.
pub open spec fn spells(t: Seq<char>, word: Seq<char>) -> bool {
    &&& t.len() == word.len()
    &&& forall|i: int| 0 <= i < t.len() ==> ascii_lower(#[trigger] t[i]) == word[i] as u32
}

pub open spec fn is_sign(c: char) -> bool {
    c == '+' || c == '-'
}

/// A text without one leading sign.
pub open spec fn unsigned_part(s: Seq<char>) -> Seq<char> {
    if s.len() > 0 && is_sign(s[0]) {
        s.skip(1)
    } else {
        s
    }
}

/// `Digit+ | Digit+ '.' Digit* | Digit* '.' Digit+`
pub open spec fn is_mantissa(m: Seq<char>) -> bool {
    ||| m.len() > 0 && all_digits(m)
    ||| m.len() >= 2 && exists|k: int|
        0 <= k < m.len() && #[trigger] m[k] == '.' && all_digits(m.take(k)) && all_digits(
            m.skip(k + 1),
        )
}

/// `Sign? Digit+`
pub open spec fn is_exponent(x: Seq<char>) -> bool {
    let d = unsigned_part(x);
    d.len() > 0 && all_digits(d)
}

/// `Mantissa ('e' Exponent)?`, the letter in either case.
pub open spec fn is_number(t: Seq<char>) -> bool {
    ||| is_mantissa(t)
    ||| exists|k: int|
        0 <= k < t.len() && ascii_lower(#[trigger] t[k]) == 'e' as u32 && is_mantissa(t.take(k))
            && is_exponent(t.skip(k + 1))
}

/// The texts that `str::parse::<f64>` accepts, by the grammar its documentation gives:
/// `Sign? ('inf' | 'infinity' | 'nan' | Number)`, ignoring ASCII case.
pub open spec fn is_float_text(s: Seq<char>) -> bool {
    let t = unsigned_part(s);
    ||| spells(t, "inf"@)
    ||| spells(t, "infinity"@)
    ||| spells(t, "nan"@)
    ||| is_number(t)
}

proof fn lemma_two_dots_not_mantissa(m: Seq<char>, p: int, q: int)
    requires
        0 <= p < q < m.len(),
        m[p] == '.',
        m[q] == '.',
    ensures
        !is_mantissa(m),
{
    assert(!is_digit(m[p]));
    assert forall|k: int| 0 <= k < m.len() && #[trigger] m[k] == '.' implies !(all_digits(
        m.take(k),
    ) && all_digits(m.skip(k + 1))) by {
        if k < q {
            assert(m.skip(k + 1)[q - k - 1] == '.');
        } else {
            assert(m.take(k)[p] == '.');
        }
    }
}

proof fn lemma_stray_char_not_mantissa(m: Seq<char>, q: int)
    requires
        0 <= q < m.len(),
        !is_digit(m[q]),
        m[q] != '.',
    ensures
        !is_mantissa(m),
{
    assert forall|k: int| 0 <= k < m.len() && #[trigger] m[k] == '.' implies !(all_digits(
        m.take(k),
    ) && all_digits(m.skip(k + 1))) by {
        if k < q {
            assert(m.skip(k + 1)[q - k - 1] == m[q]);
        } else {
            assert(m.take(k)[q] == m[q]);
        }
    }
}

fn lower_code(c: char) -> (r: u32)
    ensures
        r == ascii_lower(c),
{
    if 'A' <= c && c <= 'Z' {
        c as u32 + 32
    } else {
        c as u32
    }
}

/// Whether `s[a..b]` holds only decimal digits.
fn digits_only(s: &str, a: usize, b: usize) -> (r: bool)
    requires
        a <= b <= s@.len(),
    ensures
        r == all_digits(s@.subrange(a as int, b as int)),
{
    let ghost t = s@.subrange(a as int, b as int);
    let mut i = a;
    while i < b
        invariant
            a <= i <= b <= s@.len(),
            t == s@.subrange(a as int, b as int),
            forall|j: int| a <= j < i ==> is_digit(#[trigger] s@[j]),
        decreases b - i,
    {
        let c = s.get_char(i);
        if !('0' <= c && c <= '9') {
            assert(!is_digit(t[i - a]));
            return false;
        }
        i = i + 1;
    }
    assert forall|j: int| 0 <= j < t.len() implies is_digit(#[trigger] t[j]) by {
        assert(t[j] == s@[a + j]);
    }
    true
}

/// Whether `s[a..b]` spells `word` (given in lower case), ignoring ASCII case.
fn spells_at(s: &str, a: usize, b: usize, word: &str) -> (r: bool)
    requires
        a <= b <= s@.len(),
    ensures
        r == spells(s@.subrange(a as int, b as int), word@),
{
    let ghost t = s@.subrange(a as int, b as int);
    let n = word.unicode_len();
    if b - a != n {
        return false;
    }
    let mut i: usize = 0;
    while i < n
        invariant
            i <= n,
            n == word@.len(),
            b - a == n,
            a <= b <= s@.len(),
            t == s@.subrange(a as int, b as int),
            forall|j: int| 0 <= j < i ==> ascii_lower(#[trigger] t[j]) == word@[j] as u32,
        decreases n - i,
    {
        let c = s.get_char(a + i);
        let w = word.get_char(i);
        assert(t[i as int] == c);
        if lower_code(c) != w as u32 {
            return false;
        }
        i = i + 1;
    }
    true
}

/// Whether `s[a..b]` is a mantissa: digits with at most one '.', and at least one digit.
fn mantissa_at(s: &str, a: usize, b: usize) -> (r: bool)
    requires
        a <= b <= s@.len(),
    ensures
        r == is_mantissa(s@.subrange(a as int, b as int)),
{
    let ghost m = s@.subrange(a as int, b as int);
    let mut i = a;
    let mut has_dot = false;
    let mut dot: usize = a;
    while i < b
        invariant
            a <= i <= b <= s@.len(),
            m == s@.subrange(a as int, b as int),
            a <= dot,
            has_dot ==> dot < i && s@[dot as int] == '.',
            forall|j: int| a <= j < i && !(has_dot && j == dot) ==> is_digit(#[trigger] s@[j]),
        decreases b - i,
    {
        let c = s.get_char(i);
        if c == '.' {
            if has_dot {
                proof {
                    lemma_two_dots_not_mantissa(m, dot - a, i - a);
                }
                return false;
            }
            has_dot = true;
            dot = i;
        } else if !('0' <= c && c <= '9') {
            proof {
                lemma_stray_char_not_mantissa(m, i - a);
            }
            return false;
        }
        i = i + 1;
    }
    if !has_dot {
        assert forall|j: int| 0 <= j < m.len() implies is_digit(#[trigger] m[j]) by {
            assert(m[j] == s@[a + j]);
        }
        assert forall|k: int| 0 <= k < m.len() implies #[trigger] m[k] != '.' by {
            assert(is_digit(m[k]));
        }
        b > a
    } else {
        let ghost k = dot - a;
        assert(m[k] == '.');
        assert(!is_digit(m[k]));
        assert forall|j: int| 0 <= j < m.take(k).len() implies is_digit(#[trigger] m.take(k)[j]) by {
            assert(m.take(k)[j] == s@[a + j]);
        }
        assert forall|j: int| 0 <= j < m.skip(k + 1).len() implies is_digit(
            #[trigger] m.skip(k + 1)[j],
        ) by {
            assert(m.skip(k + 1)[j] == s@[a + k + 1 + j]);
        }
        b - a >= 2
    }
}

/// Whether `s[a..b]` is an exponent: an optional sign, then one or more digits.
fn exponent_at(s: &str, a: usize, b: usize) -> (r: bool)
    requires
        a <= b <= s@.len(),
    ensures
        r == is_exponent(s@.subrange(a as int, b as int)),
{
    let ghost x = s@.subrange(a as int, b as int);
    let mut start = a;
    if a < b {
        let c = s.get_char(a);
        if c == '+' || c == '-' {
            start = a + 1;
        }
    }
    assert(unsigned_part(x) =~= s@.subrange(start as int, b as int));
    start < b && digits_only(s, start, b)
}

/// Whether `s[a..b]` is a number: a mantissa, then optionally `e` and an exponent.
fn number_at(s: &str, a: usize, b: usize) -> (r: bool)
    requires
        a <= b <= s@.len(),
    ensures
        r == is_number(s@.subrange(a as int, b as int)),
{
    let ghost t = s@.subrange(a as int, b as int);
    let mut p = a;
    while p < b
        invariant
            a <= p <= b <= s@.len(),
            t == s@.subrange(a as int, b as int),
            forall|j: int| a <= j < p ==> ascii_lower(#[trigger] s@[j]) != 'e' as u32,
        ensures
            a <= p <= b,
            forall|j: int| a <= j < p ==> ascii_lower(#[trigger] s@[j]) != 'e' as u32,
            p < b ==> ascii_lower(s@[p as int]) == 'e' as u32,
        decreases b - p,
    {
        if lower_code(s.get_char(p)) == 'e' as u32 {
            break;
        }
        p = p + 1;
    }
    if p == b {
        assert forall|k: int| 0 <= k < t.len() implies ascii_lower(#[trigger] t[k]) != 'e' as u32 by {
            assert(t[k] == s@[a + k]);
        }
        mantissa_at(s, a, b)
    } else {
        let ghost q = p - a;
        assert(t[q] == s@[p as int]);
        assert(ascii_lower(t[q]) == 'e' as u32);
        assert(t[q] != '.' && !is_digit(t[q]));
        proof {
            lemma_stray_char_not_mantissa(t, q);
        }
        assert(t.take(q) =~= s@.subrange(a as int, p as int));
        assert(t.skip(q + 1) =~= s@.subrange(p + 1, b as int));
        assert forall|k: int|
            0 <= k < t.len() && ascii_lower(#[trigger] t[k]) == 'e' as u32 && k != q implies !is_mantissa(
            t.take(k),
        ) by {
            if k < q {
                assert(t[k] == s@[a + k]);
            } else {
                assert(t.take(k)[q] == t[q]);
                assert(t.take(k)[q] != '.' && !is_digit(t.take(k)[q]));
                lemma_stray_char_not_mantissa(t.take(k), q);
            }
        }
        mantissa_at(s, a, p) && exponent_at(s, p + 1, b)
    }
}

/// Whether `str::parse::<f64>` accepts the text.
pub fn is_float_literal(s: &str) -> (r: bool)
    ensures
        r == is_float_text(s@),
{
    let n = s.unicode_len();
    let mut a: usize = 0;
    if n > 0 {
        let c = s.get_char(0);
        if c == '+' || c == '-' {
            a = 1;
        }
    }
    assert(unsigned_part(s@) =~= s@.subrange(a as int, n as int));
    spells_at(s, a, n, "inf") || spells_at(s, a, n, "infinity") || spells_at(s, a, n, "nan")
        || number_at(s, a, n)
}

/// How a decimal text's value grows: appending a digit multiplies it by ten and adds the
/// digit; a single digit is its own value.
pub proof fn lemma_decimal_value_digits(d: Seq<char>, c: char)
    requires
        is_digit(c),
    ensures
        decimal_value(d.push(c)) == decimal_value(d) * 10 + (c as int - '0' as int),
        decimal_value(seq![c]) == c as int - '0' as int,
{
    assert(d.push(c).drop_last() =~= d);
    assert(seq![c].drop_last() =~= Seq::<char>::empty());
    assert(decimal_value(Seq::<char>::empty()) == 0);
}

/// The texts that read as a `u32`: any non-empty decimal text whose value fits, with or
/// without one leading `+`, reads as its value; with a leading `-`, or with no digit at
/// all, the text is refused.
pub proof fn lemma_u32_texts(d: Seq<char>)
    requires
        d.len() > 0,
        all_digits(d),
        decimal_value(d) <= u32::MAX,
    ensures
        u32_text_value(d) == Some(decimal_value(d) as u32),
        u32_text_value(seq!['+'] + d) == Some(decimal_value(d) as u32),
        u32_text_value(seq!['-'] + d) is None,
        u32_text_value(Seq::empty()) is None,
        u32_text_value(seq!['+']) is None,
{
    assert(is_digit(d[0]));
    assert((seq!['+'] + d).skip(1) =~= d);
    assert(!is_digit((seq!['-'] + d)[0]));
    assert(seq!['+'].skip(1) =~= Seq::<char>::empty());
}

/// A decimal text whose value a `u32` cannot hold is refused.
pub proof fn lemma_u32_overflow(d: Seq<char>)
    requires
        all_digits(d),
        decimal_value(d) > u32::MAX,
    ensures
        u32_text_value(d) is None,
{
    if d.len() > 0 {
        assert(is_digit(d[0]));
    }
}

/// Texts that `f64` accepts and refuses: digits alone, signed, with a fraction or with an
/// exponent are accepted; the empty text and a lone point are refused.
pub proof fn lemma_float_texts(d: Seq<char>, e: Seq<char>)
    requires
        d.len() > 0,
        all_digits(d),
        e.len() > 0,
        all_digits(e),
    ensures
        is_float_text(d),
        is_float_text(seq!['-'] + d),
        is_float_text(d + seq!['.'] + e),
        is_float_text(d + seq!['e'] + e),
        !is_float_text(Seq::empty()),
        !is_float_text(seq!['.']),
{
    reveal_strlit("inf");
    reveal_strlit("infinity");
    reveal_strlit("nan");
    assert(!is_sign(d[0]));
    assert(unsigned_part(d) == d);
    assert((seq!['-'] + d).skip(1) =~= d);
    assert(unsigned_part(seq!['-'] + d) == d);
    let m = d + seq!['.'] + e;
    assert(!is_sign(m[0]));
    assert(m.take(d.len() as int) =~= d);
    assert(m.skip(d.len() as int + 1) =~= e);
    assert(m[d.len() as int] == '.');
    assert(is_mantissa(m));
    let x = d + seq!['e'] + e;
    assert(!is_sign(x[0]));
    assert(x.take(d.len() as int) =~= d);
    assert(x.skip(d.len() as int + 1) =~= e);
    assert(ascii_lower(x[d.len() as int]) == 'e' as u32);
    assert(!is_sign(e[0]));
    assert(unsigned_part(e) == e);
    assert(is_number(x));
    assert(!is_digit(seq!['.'][0]));
    assert(!is_mantissa(seq!['.']));
    assert(!is_sign(seq!['.'][0]));
    assert(unsigned_part(seq!['.']) == seq!['.']);
    assert forall|k: int| 0 <= k < 1 implies ascii_lower(#[trigger] seq!['.'][k]) != 'e' as u32 by {
    }
}

} // verus!
