//! Small verified string helpers and the std string functions the logic uses.
use vstd::prelude::*;
use vstd::string::*;
use vstd::utf8::encode_utf8;

verus! {

broadcast use vstd::utf8::encode_utf8_decode_utf8;

/// Two strings hold the same text.
pub fn str_eq(a: &str, b: &str) -> (res: bool)
    ensures
        res == (a@ == b@),
{
    let x = a.as_bytes();
    let y = b.as_bytes();
    proof {
        assert(vstd::utf8::decode_utf8(a.spec_bytes()) == a@);
        assert(vstd::utf8::decode_utf8(b.spec_bytes()) == b@);
    }
    if x.len() != y.len() {
        return false;
    }
    let mut i: usize = 0;
    while i < x.len()
        invariant
            x@ == a.spec_bytes(),
            y@ == b.spec_bytes(),
            x@.len() == y@.len(),
            i <= x@.len(),
            forall|j: int| 0 <= j < i ==> x@[j] == y@[j],
        decreases x@.len() - i,
    {
        if x[i] != y[i] {
            return false;
        }
        i = i + 1;
    }
    assert(x@ =~= y@);
    true
}

/// The characters of `s`, one element each.
pub fn chars_of(s: &str) -> (v: Vec<char>)
    ensures
        v@ == s@,
{
    let mut v: Vec<char> = Vec::new();
    for c in it: s.chars()
        invariant
            it.seq() == s@,
            v@ == s@.take(it.index()),
    {
        v.push(c);
        assert(s@.take(it.index() + 1) =~= s@.take(it.index()).push(c));
    }
    assert(s@.take(s@.len() as int) =~= s@);
    v
}

/// Decimal digits of `n`, most significant first, without sign or padding.
pub open spec fn decimal_digits(n: nat) -> Seq<char>
    decreases n,
{
    if n < 10 {
        seq![digit_char(n)]
    } else {
        decimal_digits(n / 10).push(digit_char(n % 10))
    }
}

/// The ASCII character of a decimal digit.
pub open spec fn digit_char(d: nat) -> char {
    if d == 0 { '0' }
    else if d == 1 { '1' }
    else if d == 2 { '2' }
    else if d == 3 { '3' }
    else if d == 4 { '4' }
    else if d == 5 { '5' }
    else if d == 6 { '6' }
    else if d == 7 { '7' }
    else if d == 8 { '8' }
    else { '9' }
}

/// `u64::to_string`: the decimal representation of `n`.
#[verifier::external_body]
pub(crate) fn u64_to_decimal(n: u64) -> (res: String)
    ensures
        res@ == decimal_digits(n as nat),
{
    n.to_string()
}

/// Decimal representation of a signed integer: a `-` sign for negative values.
pub open spec fn signed_decimal_digits(n: int) -> Seq<char> {
    if n < 0 {
        seq!['-'] + decimal_digits((-n) as nat)
    } else {
        decimal_digits(n as nat)
    }
}

/// `i64::to_string`: the decimal representation of `n`.
#[verifier::external_body]
pub(crate) fn i64_to_decimal(n: i64) -> (res: String)
    ensures
        res@ == signed_decimal_digits(n as int),
{
    n.to_string()
}

/// `String::push`: appends one character.
#[verifier::external_body]
pub(crate) fn push_char(s: &mut String, c: char)
    ensures
        final(s)@ == old(s)@.push(c),
{
    s.push(c)
}

/// Whether `c` has the Unicode `White_Space` property (`char::is_whitespace`,
/// `str::trim`): U+0009 to U+000D, U+0020, U+0085, U+00A0, U+1680, U+2000 to
/// U+200A, U+2028, U+2029, U+202F, U+205F and U+3000.
pub open spec fn is_unicode_whitespace(c: char) -> bool {
    ('\u{9}' <= c && c <= '\u{d}') || c == ' ' || c == '\u{85}' || c == '\u{a0}' || c == '\u{1680}'
        || ('\u{2000}' <= c && c <= '\u{200a}') || c == '\u{2028}' || c == '\u{2029}' || c
        == '\u{202f}' || c == '\u{205f}' || c == '\u{3000}'
}

/// `t` is `s` without its leading and trailing characters that satisfy `ws`.
pub open spec fn is_trim_by(t: Seq<char>, s: Seq<char>, ws: spec_fn(char) -> bool) -> bool {
    exists|a: int, b: int|
        #![trigger s.subrange(a, b)]
        0 <= a <= b <= s.len() && t == s.subrange(a, b) && (forall|i: int|
            0 <= i < a ==> ws(#[trigger] s[i])) && (forall|i: int|
            b <= i < s.len() ==> ws(#[trigger] s[i])) && (a < b ==> (!ws(s[a]) && !ws(s[b - 1])))
}

/// `t` is `s` without its leading and trailing Unicode white space.
pub open spec fn is_trim_of(t: Seq<char>, s: Seq<char>) -> bool {
    exists|a: int, b: int|
        #![trigger s.subrange(a, b)]
        0 <= a <= b <= s.len() && t == s.subrange(a, b) && (forall|i: int|
            0 <= i < a ==> is_unicode_whitespace(#[trigger] s[i])) && (forall|i: int|
            b <= i < s.len() ==> is_unicode_whitespace(#[trigger] s[i])) && (a < b ==> (
        !is_unicode_whitespace(s[a]) && !is_unicode_whitespace(s[b - 1])))
}

/// `str::trim`: removes leading and trailing white space.
#[verifier::external_body]
pub(crate) fn trim(s: &str) -> (res: &str)
    ensures
        is_trim_by(res@, s@, |c: char| is_unicode_whitespace(c)),
{
    s.trim()
}

/// Trimming by the white-space predicate is trimming white space.
pub proof fn lemma_trim_by_whitespace(t: Seq<char>, s: Seq<char>)
    requires
        is_trim_by(t, s, |c: char| is_unicode_whitespace(c)),
    ensures
        is_trim_of(t, s),
{
    let ws = |c: char| is_unicode_whitespace(c);
    let (a, b) = choose|a: int, b: int|
        #![trigger s.subrange(a, b)]
        0 <= a <= b <= s.len() && t == s.subrange(a, b) && (forall|i: int|
            0 <= i < a ==> ws(#[trigger] s[i])) && (forall|i: int|
            b <= i < s.len() ==> ws(#[trigger] s[i])) && (a < b ==> (!ws(s[a]) && !ws(s[b - 1])));
    assert(t == s.subrange(a, b));
}

/// The text of `s` without its leading and trailing white space.
pub open spec fn trimmed(s: Seq<char>) -> Seq<char> {
    choose|t: Seq<char>| is_trim_of(t, s)
}

/// There is only one way to trim a string.
pub proof fn lemma_trim_unique(t1: Seq<char>, t2: Seq<char>, s: Seq<char>)
    requires
        is_trim_of(t1, s),
        is_trim_of(t2, s),
    ensures
        t1 == t2,
{
    let (a1, b1) = choose|a: int, b: int|
        #![trigger s.subrange(a, b)]
        0 <= a <= b <= s.len() && t1 == s.subrange(a, b) && (forall|i: int|
            0 <= i < a ==> is_unicode_whitespace(#[trigger] s[i])) && (forall|i: int|
            b <= i < s.len() ==> is_unicode_whitespace(#[trigger] s[i])) && (a < b ==> (
        !is_unicode_whitespace(s[a]) && !is_unicode_whitespace(s[b - 1])));
    let (a2, b2) = choose|a: int, b: int|
        #![trigger s.subrange(a, b)]
        0 <= a <= b <= s.len() && t2 == s.subrange(a, b) && (forall|i: int|
            0 <= i < a ==> is_unicode_whitespace(#[trigger] s[i])) && (forall|i: int|
            b <= i < s.len() ==> is_unicode_whitespace(#[trigger] s[i])) && (a < b ==> (
        !is_unicode_whitespace(s[a]) && !is_unicode_whitespace(s[b - 1])));
    if a1 < b1 && a2 < b2 {
        if a1 < a2 {
            assert(is_unicode_whitespace(s[a1]));
        }
        if a2 < a1 {
            assert(is_unicode_whitespace(s[a2]));
        }
        if b1 < b2 {
            assert(is_unicode_whitespace(s[b2 - 1]));
        }
        if b2 < b1 {
            assert(is_unicode_whitespace(s[b1 - 1]));
        }
    } else if a1 < b1 {
        if a1 < a2 {
            assert(is_unicode_whitespace(s[a1]));
        } else {
            assert(is_unicode_whitespace(s[a1]));
        }
    } else if a2 < b2 {
        if a2 < a1 {
            assert(is_unicode_whitespace(s[a2]));
        } else {
            assert(is_unicode_whitespace(s[a2]));
        }
    } else {
        assert(t1 =~= t2);
    }
}

/// `str::trim`, with its result named.
pub fn trim_str(s: &str) -> (res: &str)
    ensures
        res@ == trimmed(s@),
        is_trim_of(res@, s@),
{
    let r = trim(s);
    proof {
        lemma_trim_by_whitespace(r@, s@);
        lemma_trim_unique(r@, trimmed(s@), s@);
    }
    r
}

/// ASCII lower-casing of one byte.
pub open spec fn ascii_lower(b: u8) -> u8 {
    if 65 <= b && b <= 90 {
        (b + 32) as u8
    } else {
        b
    }
}

/// The two byte strings are equal up to ASCII case.
pub open spec fn eq_ignore_ascii_case(a: Seq<u8>, b: Seq<u8>) -> bool {
    a.len() == b.len() && forall|i: int| 0 <= i < a.len() ==> #[trigger] ascii_lower(a[i]) == ascii_lower(b[i])
}

fn ascii_lower_exec(b: u8) -> (res: u8)
    ensures
        res == ascii_lower(b),
{
    if 65 <= b && b <= 90 {
        b + 32
    } else {
        b
    }
}

/// `str::eq_ignore_ascii_case`.
pub fn str_eq_ignore_ascii_case(a: &str, b: &str) -> (res: bool)
    ensures
        res == eq_ignore_ascii_case(encode_utf8(a@), encode_utf8(b@)),
{
    let x = a.as_bytes();
    let y = b.as_bytes();
    if x.len() != y.len() {
        return false;
    }
    let mut i: usize = 0;
    while i < x.len()
        invariant
            x@ == encode_utf8(a@),
            y@ == encode_utf8(b@),
            x@.len() == y@.len(),
            i <= x@.len(),
            forall|j: int| 0 <= j < i ==> #[trigger] ascii_lower(x@[j]) == ascii_lower(y@[j]),
        decreases x@.len() - i,
    {
        if ascii_lower_exec(x[i]) != ascii_lower_exec(y[i]) {
            return false;
        }
        i = i + 1;
    }
    true
}

/// A byte that `http::HeaderValue` accepts: visible ASCII, space, tab, or any
/// byte of 128 and above.
pub open spec fn is_header_value_byte(b: u8) -> bool {
    (b >= 32 && b != 127) || b == 9
}

/// Every byte is one that `http::HeaderValue` accepts.
pub open spec fn valid_header_value(bytes: Seq<u8>) -> bool {
    forall|i: int| 0 <= i < bytes.len() ==> is_header_value_byte(#[trigger] bytes[i])
}

/// `http::HeaderValue::try_from(&str)` succeeds.
#[verifier::external_body]
pub(crate) fn is_valid_header_value(s: &str) -> (res: bool)
    ensures
        res == valid_header_value(vstd::utf8::encode_utf8(s@)),
{
    http::HeaderValue::try_from(s).is_ok()
}

} // verus!
