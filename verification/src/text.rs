//! Text helpers shared by the router, the adapters and the control surface:
//! lexical matching on host names and decimal rendering of port numbers.

use vstd::prelude::*;
use vstd::string::{StringExecFns, StrSliceExecFns};
use vstd::utf8::{is_ascii_chars, is_ascii_chars_encode_utf8};

verus! {

/// `pat` occurs in `s` as a contiguous run of characters starting at `i`.
pub open spec fn occurs_at(s: Seq<char>, pat: Seq<char>, i: int) -> bool {
    0 <= i && i + pat.len() <= s.len() && s.subrange(i, i + pat.len()) == pat
}

/// `s` ends with `pat`.
pub open spec fn has_suffix(s: Seq<char>, pat: Seq<char>) -> bool {
    occurs_at(s, pat, s.len() - pat.len())
}

/// `s` starts with `pat`.
pub open spec fn has_prefix(s: Seq<char>, pat: Seq<char>) -> bool {
    occurs_at(s, pat, 0)
}

/// `pat` occurs somewhere in `s`.
pub open spec fn has_infix(s: Seq<char>, pat: Seq<char>) -> bool {
    exists|i: int| occurs_at(s, pat, i)
}

/// Trusted: `str::ends_with` with a string pattern. The standard library
/// documents that it returns true exactly when the pattern matches a suffix
/// of the slice; the contract says the same over the characters.
#[verifier::external_body]
pub(crate) fn ends_with(s: &str, pat: &str) -> (r: bool)
    ensures
        r == has_suffix(s@, pat@),
{
    s.ends_with(pat)
}

/// Trusted: `str::starts_with` with a string pattern. The standard library
/// documents that it returns true exactly when the pattern matches a prefix
/// of the slice; the contract says the same over the characters.
#[verifier::external_body]
pub(crate) fn starts_with(s: &str, pat: &str) -> (r: bool)
    ensures
        r == has_prefix(s@, pat@),
{
    s.starts_with(pat)
}

/// Trusted: `str::contains` with a string pattern. The standard library
/// documents that it returns true exactly when the pattern matches a
/// sub-slice of the slice; the contract says the same over the characters.
#[verifier::external_body]
pub(crate) fn contains(s: &str, pat: &str) -> (r: bool)
    ensures
        r == has_infix(s@, pat@),
{
    s.contains(pat)
}

/// The character that writes the decimal digit `d`.
pub open spec fn digit_char(d: nat) -> char {
    if d == 0 {
        '0'
    } else if d == 1 {
        '1'
    } else if d == 2 {
        '2'
    } else if d == 3 {
        '3'
    } else if d == 4 {
        '4'
    } else if d == 5 {
        '5'
    } else if d == 6 {
        '6'
    } else if d == 7 {
        '7'
    } else if d == 8 {
        '8'
    } else {
        '9'
    }
}

/// The decimal numeral of `n`, without sign or leading zeros.
pub open spec fn decimal(n: nat) -> Seq<char>
    decreases n,
{
    if n < 10 {
        seq![digit_char(n)]
    } else {
        decimal(n / 10).push(digit_char(n % 10))
    }
}

fn digit_str(d: u16) -> (r: &'static str)
    requires
        d < 10,
    ensures
        r@ == seq![digit_char(d as nat)],
{
    proof {
        reveal_strlit("0");
        reveal_strlit("1");
        reveal_strlit("2");
        reveal_strlit("3");
        reveal_strlit("4");
        reveal_strlit("5");
        reveal_strlit("6");
        reveal_strlit("7");
        reveal_strlit("8");
        reveal_strlit("9");
    }
    let r = if d == 0 {
        "0"
    } else if d == 1 {
        "1"
    } else if d == 2 {
        "2"
    } else if d == 3 {
        "3"
    } else if d == 4 {
        "4"
    } else if d == 5 {
        "5"
    } else if d == 6 {
        "6"
    } else if d == 7 {
        "7"
    } else if d == 8 {
        "8"
    } else {
        "9"
    };
    assert(r@ =~= seq![digit_char(d as nat)]);
    r
}

/// Appends the decimal numeral of `n` to `out`.
pub fn push_decimal(out: &mut String, n: u16)
    ensures
        final(out)@ == old(out)@ + decimal(n as nat),
    decreases n,
{
    if n < 10 {
        out.append(digit_str(n));
    } else {
        push_decimal(out, n / 10);
        out.append(digit_str(n % 10));
        assert(out@ =~= old(out)@ + decimal(n as nat));
    }
}

/// The decimal numeral of `n` as an owned string.
pub fn decimal_string(n: u16) -> (r: String)
    ensures
        r@ == decimal(n as nat),
{
    let mut r = String::new();
    push_decimal(&mut r, n);
    assert(r@ =~= decimal(n as nat));
    r
}

/// `prefix` followed by the decimal numeral of `n`.
pub fn with_decimal(prefix: &str, n: u16) -> (r: String)
    ensures
        r@ == prefix@ + decimal(n as nat),
{
    let mut r = String::from_str(prefix);
    push_decimal(&mut r, n);
    r
}

/// A decimal numeral is made of ASCII digits, and a number below a power
/// of ten has no more digits than that power has zeros.
pub proof fn decimal_shape(n: nat)
    ensures
        is_ascii_chars(decimal(n)),
        1 <= decimal(n).len(),
        n < 10 ==> decimal(n).len() == 1,
        n < 100 ==> decimal(n).len() <= 2,
        n < 1000 ==> decimal(n).len() <= 3,
        n < 10000 ==> decimal(n).len() <= 4,
        n < 100000 ==> decimal(n).len() <= 5,
    decreases n,
{
    if n >= 10 {
        decimal_shape(n / 10);
    }
}

/// Whether `c` is a decimal digit or a dot.
pub open spec fn is_digit_or_dot(c: char) -> bool {
    ('0' <= c && c <= '9') || c == '.'
}

/// Every character of a decimal numeral is a digit.
pub proof fn decimal_is_digits(n: nat)
    ensures
        forall|i: int| 0 <= i < decimal(n).len() ==> is_digit_or_dot(#[trigger] decimal(n)[i]),
    decreases n,
{
    let s = decimal(n);
    if n >= 10 {
        decimal_is_digits(n / 10);
        let front = decimal(n / 10);
        assert forall|i: int| 0 <= i < s.len() implies is_digit_or_dot(#[trigger] s[i]) by {
            if i < front.len() {
                assert(s[i] == front[i]);
            } else {
                assert(s[i] == digit_char(n % 10));
            }
        }
    } else {
        assert forall|i: int| 0 <= i < s.len() implies is_digit_or_dot(#[trigger] s[i]) by {
            assert(s[i] == digit_char(n));
        }
    }
}

/// A text made of digits and dots holds no pattern that has another
/// character in it.
pub proof fn digits_hold_no_word(host: Seq<char>, pat: Seq<char>, k: int)
    requires
        forall|i: int| 0 <= i < host.len() ==> is_digit_or_dot(#[trigger] host[i]),
        0 <= k < pat.len(),
        !is_digit_or_dot(pat[k]),
    ensures
        !has_infix(host, pat),
        !has_prefix(host, pat),
        !has_suffix(host, pat),
{
    assert forall|i: int| !occurs_at(host, pat, i) by {
        if occurs_at(host, pat, i) {
            assert(host.subrange(i, i + pat.len())[k] == host[i + k]);
            assert(is_digit_or_dot(host[i + k]));
        }
    }
}

/// The bytes that write an ASCII text.
pub open spec fn ascii_bytes(s: Seq<char>) -> Seq<u8> {
    Seq::new(s.len(), |i: int| s[i] as u8)
}

/// The bytes of a text that is known to be ASCII.
pub fn ascii_to_bytes(s: &str) -> (r: Vec<u8>)
    requires
        is_ascii_chars(s@),
    ensures
        r@ == ascii_bytes(s@),
{
    let r = s.as_bytes_vec();
    proof {
        is_ascii_chars_encode_utf8(s@);
        assert(r@ =~= ascii_bytes(s@));
    }
    r
}

} // verus!
