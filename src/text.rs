//! Decimal text of unsigned integers, and the strings the workers send.

use vstd::prelude::*;
use vstd::string::StringExecFns;

verus! {

/// The digit `d` (below ten) as an ASCII character.
pub open spec fn digit_char(d: nat) -> char {
    ((d + 48) as u32) as char
}

/// Whether `c` is an ASCII decimal digit.
pub open spec fn is_digit(c: char) -> bool {
    '0' <= c && c <= '9'
}

/// The value of the digit character `c`.
pub open spec fn digit_value(c: char) -> nat {
    ((c as u32) - 48) as nat
}

/// The shortest decimal text of `n`: no sign, no leading zero.
pub open spec fn decimal_text(n: nat) -> Seq<char>
    decreases n,
{
    if n < 10 {
        seq![digit_char(n)]
    } else {
        decimal_text(n / 10).push(digit_char(n % 10))
    }
}

/// The value of a run of digits, most significant first.
pub open spec fn digits_value(s: Seq<char>) -> nat
    decreases s.len(),
{
    if s.len() == 0 {
        0
    } else {
        digits_value(s.drop_last()) * 10 + digit_value(s.last())
    }
}

/// Whether `s` is one or more decimal digits.
pub open spec fn all_digits(s: Seq<char>) -> bool {
    s.len() > 0 && forall|i: int| 0 <= i < s.len() ==> is_digit(#[trigger] s[i])
}

/// `s` without one leading `+`, if it has one.
pub open spec fn unsigned_part(s: Seq<char>) -> Seq<char> {
    if s.len() > 0 && s[0] == '+' {
        s.skip(1)
    } else {
        s
    }
}

/// What `s` reads as an unsigned 64-bit integer: an optional `+` followed by
/// one or more decimal digits whose value fits; nothing otherwise.
pub open spec fn decimal_value(s: Seq<char>) -> Option<u64> {
    let body = unsigned_part(s);
    if all_digits(body) && digits_value(body) <= u64::MAX {
        Some(digits_value(body) as u64)
    } else {
        None
    }
}

/// Relies on `<u64 as ToString>::to_string` (through `Display`): the shortest
/// decimal text of the value.
#[verifier::external_body]
pub(crate) fn render_u64(v: u64) -> (r: String)
    ensures
        r@ == decimal_text(v as nat),
{
    v.to_string()
}

/// Relies on `str::parse::<u64>` (`u64::from_str`): an optional `+` and then
/// only ASCII digits, whose value fits in a `u64`; any other text is an error.
#[verifier::external_body]
pub(crate) fn parse_u64(s: &str) -> (r: Option<u64>)
    ensures
        r == decimal_value(s@),
{
    s.parse::<u64>().ok()
}

/// The name of the stream for document number `doc`.
pub open spec fn stream_name_of(doc: nat) -> Seq<char> {
    "doc-"@ + decimal_text(doc)
}

/// Names the stream of document number `doc`: `doc-` and its decimal text.
pub fn stream_name(doc: u64) -> (r: String)
    ensures
        r@ == stream_name_of(doc as nat),
{
    let mut r = String::from_str("doc-");
    let digits = render_u64(doc);
    r.append(digits.as_str());
    r
}

/// `base` followed by `path`.
pub fn join_path(base: &str, path: &str) -> (r: String)
    ensures
        r@ == base@ + path@,
{
    let mut r = String::from_str(base);
    r.append(path);
    r
}

/// The endpoint that listeners poll: `{base}/messages`.
pub fn poll_endpoint(base_url: &str) -> (r: String)
    ensures
        r@ == base_url@ + "/messages"@,
{
    join_path(base_url, "/messages")
}

/// The endpoint that posters append to: `{base}/message`.
pub fn append_endpoint(base_url: &str) -> (r: String)
    ensures
        r@ == base_url@ + "/message"@,
{
    join_path(base_url, "/message")
}

proof fn lemma_digit_round_trip(d: nat)
    requires
        d < 10,
    ensures
        is_digit(digit_char(d)),
        digit_value(digit_char(d)) == d,
{
}

/// The decimal text of `n` is a run of digits that reads back as `n`.
pub proof fn lemma_decimal_text_digits(n: nat)
    ensures
        all_digits(decimal_text(n)),
        digits_value(decimal_text(n)) == n,
    decreases n,
{
    if n < 10 {
        lemma_digit_round_trip(n);
        assert(decimal_text(n).drop_last() =~= Seq::<char>::empty());
        assert(digits_value(Seq::<char>::empty()) == 0);
    } else {
        lemma_decimal_text_digits(n / 10);
        lemma_digit_round_trip(n % 10);
        let t = decimal_text(n);
        assert(t.drop_last() =~= decimal_text(n / 10));
        assert(t.last() == digit_char(n % 10));
        assert(n == (n / 10) * 10 + n % 10) by (nonlinear_arith);
        assert forall|i: int| 0 <= i < t.len() implies is_digit(#[trigger] t[i]) by {
            if i < t.len() - 1 {
                assert(t[i] == decimal_text(n / 10)[i]);
            }
        }
    }
}

/// Reading back the decimal text of a `u64` gives the same value.
pub proof fn lemma_decimal_round_trip(v: u64)
    ensures
        decimal_value(decimal_text(v as nat)) == Some(v),
{
    lemma_decimal_text_digits(v as nat);
    let t = decimal_text(v as nat);
    assert(is_digit(t[0]));
    assert(unsigned_part(t) == t);
}

/// Distinct values have distinct decimal texts.
pub proof fn lemma_decimal_text_injective(a: nat, b: nat)
    requires
        a != b,
    ensures
        decimal_text(a) != decimal_text(b),
{
    lemma_decimal_text_digits(a);
    lemma_decimal_text_digits(b);
}

} // verus!
