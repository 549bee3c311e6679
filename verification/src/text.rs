//! Character-level helpers on strings: building, comparing and decimal text.

use vstd::prelude::*;
use vstd::string::StringExecFns;

verus! {

/// Appends one character to a string (`String::push`).
#[verifier::external_body]
pub(crate) fn push_char(s: &mut String, c: char)
    ensures
        final(s)@ == old(s)@.push(c),
{
    s.push(c);
}

/// Equality of two string slices (`str == str`).
#[verifier::external_body]
pub(crate) fn str_eq(a: &str, b: &str) -> (r: bool)
    ensures
        r == (a@ == b@),
{
    a == b
}

/// A new string holding the characters of `t`.
pub fn string_of(t: &str) -> (r: String)
    ensures
        r@ == t@,
{
    let mut s = String::new();
    s.append(t);
    assert(s@ =~= t@);
    s
}

/// The characters of a string slice, in order.
pub fn chars_of(s: &str) -> (r: Vec<char>)
    ensures
        r@ == s@,
{
    let mut out: Vec<char> = Vec::new();
    for c in it: s.chars()
        invariant
            out@ == it.seq().take(it.index() as int),
    {
        out.push(c);
    }
    out
}

/// A string made of the characters `v[from..to]`.
pub fn string_from_chars(v: &Vec<char>, from: usize, to: usize) -> (r: String)
    requires
        from <= to <= v.len(),
    ensures
        r@ == v@.subrange(from as int, to as int),
{
    let mut s = String::new();
    let mut i = from;
    while i < to
        invariant
            from <= i <= to <= v.len(),
            s@ == v@.subrange(from as int, i as int),
        decreases to - i,
    {
        push_char(&mut s, v[i]);
        assert(v@.subrange(from as int, i + 1) =~= v@.subrange(from as int, i as int).push(v@[i as int]));
        i = i + 1;
    }
    s
}

/// The ASCII digit for `d < 10`.
pub open spec fn digit_char(d: nat) -> char {
    if d == 0 { '0' }
    else if d == 1 { '1' }
    else if d == 2 { '2' }
    else if d == 3 { '3' }
    else if d == 4 { '4' }
    else if d == 5 { '5' }
    else if d == 6 { '6' }
    else if d == 7 { '7' }
    else if d == 8 { '8' }
    else { '9' }
}

/// Whether `c` is an ASCII decimal digit.
pub open spec fn is_digit(c: char) -> bool {
    '0' <= c <= '9'
}

/// The value of an ASCII decimal digit.
pub open spec fn digit_value(c: char) -> nat {
    (c as int - '0' as int) as nat
}

/// The decimal representation of `n`, without leading zeros.
pub open spec fn decimal(n: nat) -> Seq<char>
    decreases n,
{
    if n < 10 {
        seq![digit_char(n)]
    } else {
        decimal(n / 10).push(digit_char(n % 10))
    }
}

/// The decimal representation of a signed integer.
pub open spec fn signed_decimal(i: int) -> Seq<char> {
    if i < 0 {
        seq!['-'] + decimal((-i) as nat)
    } else {
        decimal(i as nat)
    }
}

/// Whether `s` is a non-empty run of ASCII digits.
pub open spec fn all_digits(s: Seq<char>) -> bool {
    s.len() > 0 && forall|i: int| 0 <= i < s.len() ==> is_digit(#[trigger] s[i])
}

/// The value of a run of decimal digits, read left to right.
pub open spec fn digits_value(s: Seq<char>) -> nat
    decreases s.len(),
{
    if s.len() == 0 {
        0
    } else {
        digits_value(s.drop_last()) * 10 + digit_value(s.last())
    }
}

/// The integer written by `s`: an optional `-` followed by decimal digits.
pub open spec fn int_of_text(s: Seq<char>) -> Option<int> {
    if s.len() > 0 && s[0] == '-' {
        if all_digits(s.drop_first()) {
            Some(-(digits_value(s.drop_first()) as int))
        } else {
            None
        }
    } else if all_digits(s) {
        Some(digits_value(s) as int)
    } else {
        None
    }
}

fn digit_of(d: u64) -> (c: char)
    requires
        d < 10,
    ensures
        c == digit_char(d as nat),
{
    if d == 0 { '0' }
    else if d == 1 { '1' }
    else if d == 2 { '2' }
    else if d == 3 { '3' }
    else if d == 4 { '4' }
    else if d == 5 { '5' }
    else if d == 6 { '6' }
    else if d == 7 { '7' }
    else if d == 8 { '8' }
    else { '9' }
}

/// Appends the decimal representation of `n`.
pub fn push_decimal(s: &mut String, n: u64)
    ensures
        final(s)@ == old(s)@ + decimal(n as nat),
    decreases n,
{
    if n >= 10 {
        push_decimal(s, n / 10);
    }
    push_char(s, digit_of(n % 10));
    assert(final(s)@ =~= old(s)@ + decimal(n as nat)) by {
        if n < 10 {
        } else {
            assert(decimal(n as nat) == decimal((n / 10) as nat).push(digit_char((n % 10) as nat)));
        }
    }
}

/// Appends the decimal representation of a signed integer.
pub fn push_signed_decimal(s: &mut String, i: i64)
    ensures
        final(s)@ == old(s)@ + signed_decimal(i as int),
{
    if i < 0 {
        push_char(s, '-');
        let mag: u64 = (0i128 - i as i128) as u64;
        push_decimal(s, mag);
        assert(final(s)@ =~= old(s)@ + signed_decimal(i as int));
    } else {
        push_decimal(s, i as u64);
    }
}

/// Reads a run of decimal digits; `None` when `s` is not such a run or its
/// value exceeds `u64::MAX`.
pub fn parse_digits(s: &Vec<char>, from: usize) -> (r: Option<u64>)
    requires
        from <= s.len(),
    ensures
        match r {
            Some(v) => all_digits(s@.skip(from as int)) && v == digits_value(s@.skip(from as int)),
            None => !all_digits(s@.skip(from as int)) || digits_value(s@.skip(from as int)) > u64::MAX,
        },
{
    let ghost t = s@.skip(from as int);
    if from == s.len() {
        return None;
    }
    let mut acc: u64 = 0;
    let mut i = from;
    let mut overflow = false;
    while i < s.len()
        invariant
            from <= i <= s.len(),
            t == s@.skip(from as int),
            forall|k: int| 0 <= k < i - from ==> is_digit(#[trigger] t[k]),
            !overflow ==> acc == digits_value(t.take(i - from)),
            overflow ==> digits_value(t.take(i - from)) > u64::MAX,
        decreases s.len() - i,
    {
        let c = s[i];
        if !('0' <= c && c <= '9') {
            assert(!is_digit(t[i - from]));
            return None;
        }
        let d: u64 = (c as u32 - '0' as u32) as u64;
        assert(t.take(i + 1 - from).drop_last() =~= t.take(i - from));
        assert(t.take(i + 1 - from).last() == c);
        if !overflow {
            if acc > (u64::MAX - d) / 10 {
                overflow = true;
                assert(digits_value(t.take(i + 1 - from)) == acc * 10 + d);
                assert(acc * 10 + d > u64::MAX) by (nonlinear_arith)
                    requires acc > (u64::MAX - d) / 10, d < 10;
            } else {
                assert(acc * 10 + d <= u64::MAX) by (nonlinear_arith)
                    requires acc <= (u64::MAX - d) / 10, d < 10;
                acc = acc * 10 + d;
            }
        } else {
            assert(digits_value(t.take(i + 1 - from)) == digits_value(t.take(i - from)) * 10 + d);
        }
        i = i + 1;
    }
    assert(t.take(i - from) =~= t);
    if overflow {
        None
    } else {
        Some(acc)
    }
}

} // verus!

verus! {

/// Whether `c` has the Unicode `White_Space` property (what
/// `char::is_whitespace` tests).
pub open spec fn is_ws(c: char) -> bool {
    ('\u{9}' <= c <= '\u{d}') || c == ' ' || c == '\u{85}' || c == '\u{a0}' || c == '\u{1680}'
        || ('\u{2000}' <= c <= '\u{200a}') || c == '\u{2028}' || c == '\u{2029}' || c == '\u{202f}'
        || c == '\u{205f}' || c == '\u{3000}'
}

/// Whether `c` has the Unicode `White_Space` property.
pub fn is_whitespace(c: char) -> (r: bool)
    ensures
        r == is_ws(c),
{
    ('\u{9}' <= c && c <= '\u{d}') || c == ' ' || c == '\u{85}' || c == '\u{a0}' || c == '\u{1680}'
        || ('\u{2000}' <= c && c <= '\u{200a}') || c == '\u{2028}' || c == '\u{2029}' || c == '\u{202f}'
        || c == '\u{205f}' || c == '\u{3000}'
}

/// `s` without its leading whitespace.
pub open spec fn trim_start(s: Seq<char>) -> Seq<char>
    decreases s.len(),
{
    if s.len() > 0 && is_ws(s[0]) {
        trim_start(s.drop_first())
    } else {
        s
    }
}

/// `s` without its trailing whitespace.
pub open spec fn trim_end(s: Seq<char>) -> Seq<char>
    decreases s.len(),
{
    if s.len() > 0 && is_ws(s.last()) {
        trim_end(s.drop_last())
    } else {
        s
    }
}

/// `s` without leading and trailing whitespace (what `str::trim` gives).
pub open spec fn trim(s: Seq<char>) -> Seq<char> {
    trim_end(trim_start(s))
}

/// The characters of `v[from..to]` without leading and trailing whitespace,
/// as bounds into `v`.
pub fn trim_bounds(v: &Vec<char>, from: usize, to: usize) -> (r: (usize, usize))
    requires
        from <= to <= v.len(),
    ensures
        from <= r.0 <= r.1 <= to,
        v@.subrange(r.0 as int, r.1 as int) == trim(v@.subrange(from as int, to as int)),
{
    let ghost s = v@.subrange(from as int, to as int);
    let mut i = from;
    while i < to && is_whitespace(v[i])
        invariant
            from <= i <= to <= v.len(),
            s == v@.subrange(from as int, to as int),
            trim_start(s) == trim_start(v@.subrange(i as int, to as int)),
        decreases to - i,
    {
        assert(v@.subrange(i as int, to as int).drop_first() =~= v@.subrange(i + 1, to as int));
        i = i + 1;
    }
    assert(trim_start(v@.subrange(i as int, to as int)) == v@.subrange(i as int, to as int));
    let mut j = to;
    while j > i && is_whitespace(v[j - 1])
        invariant
            from <= i <= j <= to <= v.len(),
            trim(s) == trim_end(v@.subrange(i as int, j as int)),
        decreases j,
    {
        assert(v@.subrange(i as int, j as int).drop_last() =~= v@.subrange(i as int, j - 1));
        j = j - 1;
    }
    (i, j)
}

/// The part of `s` before its first `.` (all of `s` when it has none).
pub open spec fn before_dot(s: Seq<char>) -> Seq<char>
    decreases s.len(),
{
    if s.len() == 0 {
        s
    } else if s[0] == '.' {
        Seq::empty()
    } else {
        seq![s[0]] + before_dot(s.drop_first())
    }
}

/// The end of the part of `v[from..to]` before its first `.`.
pub fn dot_bound(v: &Vec<char>, from: usize, to: usize) -> (r: usize)
    requires
        from <= to <= v.len(),
    ensures
        from <= r <= to,
        v@.subrange(from as int, r as int) == before_dot(v@.subrange(from as int, to as int)),
{
    let mut i = from;
    while i < to && v[i] != '.'
        invariant
            from <= i <= to <= v.len(),
            forall|k: int| from <= k < i ==> v@[k] != '.',
            before_dot(v@.subrange(from as int, to as int))
                == v@.subrange(from as int, i as int) + before_dot(v@.subrange(i as int, to as int)),
        decreases to - i,
    {
        let ghost t = v@.subrange(i as int, to as int);
        assert(t.drop_first() =~= v@.subrange(i + 1, to as int));
        assert(v@.subrange(from as int, i + 1) =~= v@.subrange(from as int, i as int) + seq![v@[i as int]]);
        i = i + 1;
    }
    assert(v@.subrange(from as int, i as int) + Seq::<char>::empty() =~= v@.subrange(from as int, i as int));
    i
}

/// The value of an unsigned 32-bit integer as `str::parse::<u32>` reads it:
/// an optional `+` and then decimal digits, at most `u32::MAX`.
pub open spec fn parse_u32_spec(s: Seq<char>) -> Option<nat> {
    let t = if s.len() > 0 && s[0] == '+' { s.drop_first() } else { s };
    if all_digits(t) && digits_value(t) <= u32::MAX {
        Some(digits_value(t))
    } else {
        None
    }
}

/// Reads `v[from..to]` as `str::parse::<u32>` does.
pub fn parse_u32(v: &Vec<char>, from: usize, to: usize) -> (r: Option<u32>)
    requires
        from <= to <= v.len(),
    ensures
        match r {
            Some(n) => parse_u32_spec(v@.subrange(from as int, to as int)) == Some(n as nat),
            None => parse_u32_spec(v@.subrange(from as int, to as int)) is None,
        },
{
    let ghost s = v@.subrange(from as int, to as int);
    let start = if from < to && v[from] == '+' { from + 1 } else { from };
    let digits = string_from_chars(v, start, to);
    let cs = chars_of(digits.as_str());
    assert(cs@ == v@.subrange(start as int, to as int));
    assert(cs@.skip(0) =~= cs@);
    if from < to && v[from] == '+' {
        assert(s.drop_first() =~= cs@);
    } else {
        assert(s =~= cs@);
    }
    match parse_digits(&cs, 0) {
        Some(n) => if n <= u32::MAX as u64 { Some(n as u32) } else { None },
        None => None,
    }
}

} // verus!

verus! {

/// What `format!("{:?}", s)` writes for a string slice: the text in
/// double quotes, with the characters that need it escaped.
pub uninterp spec fn str_debug(s: Seq<char>) -> Seq<char>;

/// The `Debug` rendering of a string slice (`format!("{:?}", s)`). The
/// contract names the result, which depends on `s` alone.
#[verifier::external_body]
pub(crate) fn debug_str(s: &str) -> (r: String)
    ensures
        r@ == str_debug(s@),
{
    format!("{:?}", s)
}

} // verus!

verus! {

/// The digits of `decimal(n)` read back give `n`.
pub proof fn lemma_decimal_digits(n: nat)
    ensures
        all_digits(decimal(n)),
        digits_value(decimal(n)) == n,
    decreases n,
{
    if n < 10 {
        let s = decimal(n);
        assert(s.drop_last() =~= Seq::<char>::empty());
        assert(digit_value(digit_char(n)) == n);
        assert(digits_value(Seq::<char>::empty()) == 0);
        assert(digits_value(s) == digits_value(s.drop_last()) * 10 + digit_value(s.last()));
        assert(is_digit(s[0]));
    } else {
        lemma_decimal_digits(n / 10);
        let s = decimal(n);
        let d = (n % 10) as nat;
        assert(s.drop_last() =~= decimal(n / 10));
        assert(s.last() == digit_char(d));
        assert(digit_value(digit_char(d)) == d);
        assert(digits_value(s) == digits_value(s.drop_last()) * 10 + digit_value(s.last()));
        assert(n == (n / 10) * 10 + d);
        assert forall|i: int| 0 <= i < s.len() implies is_digit(#[trigger] s[i]) by {
            if i < s.len() - 1 {
                assert(s[i] == decimal(n / 10)[i]);
            }
        }
    }
}

/// The text of a signed integer reads back as that integer.
pub proof fn lemma_int_text_roundtrip(i: int)
    ensures
        int_of_text(signed_decimal(i)) == Some(i),
{
    if i < 0 {
        let m = (-i) as nat;
        lemma_decimal_digits(m);
        let s = signed_decimal(i);
        assert(s.drop_first() =~= decimal(m));
        assert(s[0] == '-');
    } else {
        lemma_decimal_digits(i as nat);
        let s = decimal(i as nat);
        assert(is_digit(s[0]));
    }
}

} // verus!
