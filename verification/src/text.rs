//! Small verified text helpers used across the protocol types.

use vstd::prelude::*;

verus! {

/// Character-wise equality of two string slices.
pub fn text_eq(a: &str, b: &str) -> (equal: bool)
    ensures
        equal == (a@ == b@),
{
    let left = a.to_owned();
    let right = b.to_owned();
    left == right
}

/// An owned copy of a string slice.
pub fn owned(s: &str) -> (r: String)
    ensures
        r@ == s@,
{
    s.to_owned()
}

/// An owned copy of an optional string slice.
pub fn owned_opt(s: Option<&str>) -> (r: Option<String>)
    ensures
        r is Some <==> s is Some,
        r is Some ==> r->0@ == s->0@,
{
    match s {
        Some(v) => Some(v.to_owned()),
        None => None,
    }
}

/// `prefix` followed by `rest`, as a new string.
pub fn join(prefix: &str, rest: &str) -> (r: String)
    ensures
        r@ == prefix@ + rest@,
{
    let mut out = prefix.to_owned();
    out.append(rest);
    out
}

/// The decimal digits of a natural number, most significant first.
pub open spec fn decimal_digits(n: nat) -> Seq<char>
    decreases n,
{
    if n < 10 {
        seq![digit_char(n)]
    } else {
        decimal_digits(n / 10).push(digit_char(n % 10))
    }
}

/// The ASCII character for a digit value below ten.
pub open spec fn digit_char(d: nat) -> char {
    if d == 0 { '0' }
    else if d == 1 { '1' }
    else if d == 2 { '2' }
    else if d == 3 { '3' }
    else if d == 4 { '4' }
    else if d == 5 { '5' }
    else if d == 6 { '6' }
    else if d == 7 { '7' }
    else if d == 8 { '8' }
    else { '9' }
}

/// The decimal text of a signed integer: a leading '-' for negatives.
pub open spec fn decimal_int(n: int) -> Seq<char> {
    if n < 0 {
        seq!['-'] + decimal_digits((-n) as nat)
    } else {
        decimal_digits(n as nat)
    }
}

fn digit_str(d: u64) -> (r: &'static str)
    requires
        d < 10,
    ensures
        r@ == seq![digit_char(d as nat)],
{
    proof {
        reveal_strlit("0");
        reveal_strlit("1");
        reveal_strlit("2");
        reveal_strlit("3");
        reveal_strlit("4");
        reveal_strlit("5");
        reveal_strlit("6");
        reveal_strlit("7");
        reveal_strlit("8");
        reveal_strlit("9");
    }
    if d == 0 { "0" }
    else if d == 1 { "1" }
    else if d == 2 { "2" }
    else if d == 3 { "3" }
    else if d == 4 { "4" }
    else if d == 5 { "5" }
    else if d == 6 { "6" }
    else if d == 7 { "7" }
    else if d == 8 { "8" }
    else { "9" }
}

/// Appends the decimal digits of `n` to `out`.
pub fn push_decimal(out: &mut String, n: u64)
    ensures
        final(out)@ == old(out)@ + decimal_digits(n as nat),
    decreases n,
{
    if n < 10 {
        out.append(digit_str(n));
    } else {
        push_decimal(out, n / 10);
        out.append(digit_str(n % 10));
    }
}

/// The decimal text of a signed 32-bit integer.
pub fn format_i32(n: i32) -> (r: String)
    ensures
        r@ == decimal_int(n as int),
{
    let mut out = String::new();
    if n < 0 {
        out.append("-");
        let magnitude: u64 = (0i64 - (n as i64)) as u64;
        push_decimal(&mut out, magnitude);
        proof { reveal_strlit("-"); }
    } else {
        push_decimal(&mut out, n as u64);
    }
    out
}

/// The decimal text of a `usize`.
pub fn format_usize(n: usize) -> (r: String)
    ensures
        r@ == decimal_digits(n as nat),
{
    let mut out = String::new();
    push_decimal(&mut out, n as u64);
    out
}

/// The text that std's `Debug` writes for a string: quoted, with escapes.
pub uninterp spec fn debug_text(s: Seq<char>) -> Seq<char>;

/// Formats a string with std's `Debug` (`format!("{:?}", s)`).
/// Claimed: the result is `debug_text(s@)`, a function of the characters alone.
#[verifier::external_body]
pub(crate) fn debug_quoted(s: &str) -> (r: String)
    ensures
        r@ == debug_text(s@),
{
    format!("{:?}", s)
}

/// The `Debug` text of an optional string: `None` or `Some(<debug text>)`.
pub open spec fn debug_opt_text(s: Option<String>) -> Seq<char> {
    match s {
        Some(v) => "Some("@ + debug_text(v@) + ")"@,
        None => "None"@,
    }
}

/// Appends the `Debug` text of an optional string.
pub fn push_debug_opt(out: &mut String, s: &Option<String>)
    ensures
        final(out)@ == old(out)@ + debug_opt_text(*s),
{
    match s {
        Some(v) => {
            out.append("Some(");
            let q = debug_quoted(v.as_str());
            out.append(q.as_str());
            out.append(")");
        },
        None => out.append("None"),
    }
}

/// The `Debug` text of an optional secret: `None`, or `Some("[REDACTED]")`
/// whatever the secret is.
pub open spec fn redacted_opt_text(present: bool) -> Seq<char> {
    if present { "Some(\"[REDACTED]\")"@ } else { "None"@ }
}

/// Appends the redacted `Debug` text of an optional secret.
pub fn push_redacted_opt(out: &mut String, present: bool)
    ensures
        final(out)@ == old(out)@ + redacted_opt_text(present),
{
    if present {
        out.append("Some(\"[REDACTED]\")");
    } else {
        out.append("None");
    }
}

} // verus!
