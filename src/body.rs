use vstd::prelude::*;
use crate::text::{chars_of, string_of};

verus! {

/// The ten decimal digits, in order.
pub open spec fn digit_chars() -> Seq<char> {
    seq!['0', '1', '2', '3', '4', '5', '6', '7', '8', '9']
}

/// The decimal digits of `n`, most significant first, without leading zeros.
pub open spec fn digits(n: nat) -> Seq<char>
    decreases n,
{
    if n < 10 {
        seq![digit_chars()[n as int]]
    } else {
        digits(n / 10).push(digit_chars()[(n % 10) as int])
    }
}

/// An integer in decimal, with a leading `-` when it is negative.
pub open spec fn decimal(v: int) -> Seq<char> {
    if v < 0 {
        seq!['-'] + digits((-v) as nat)
    } else {
        digits(v as nat)
    }
}

/// The sixteen lowercase hexadecimal digits, in order.
pub open spec fn hex_chars() -> Seq<char> {
    seq!['0', '1', '2', '3', '4', '5', '6', '7', '8', '9', 'a', 'b', 'c', 'd', 'e', 'f']
}

/// How one character stands inside a JSON string: `"` and `\` get a
/// backslash, the control characters with a short escape use it, the other
/// control characters become `\u00` and two hex digits, and every other
/// character stands as it is.
pub open spec fn escape_char(c: char) -> Seq<char> {
    if c == '"' {
        seq!['\\', '"']
    } else if c == '\\' {
        seq!['\\', '\\']
    } else if c == '\u{8}' {
        seq!['\\', 'b']
    } else if c == '\t' {
        seq!['\\', 't']
    } else if c == '\n' {
        seq!['\\', 'n']
    } else if c == '\u{c}' {
        seq!['\\', 'f']
    } else if c == '\r' {
        seq!['\\', 'r']
    } else if (c as u32) < 0x20 {
        seq!['\\', 'u', '0', '0', hex_chars()[(c as u32) as int / 16], hex_chars()[(c as u32) as int % 16]]
    } else {
        seq![c]
    }
}

/// The characters of `s`, each escaped for a JSON string.
pub open spec fn escaped(s: Seq<char>) -> Seq<char>
    decreases s.len(),
{
    if s.len() == 0 {
        Seq::empty()
    } else {
        escaped(s.drop_last()) + escape_char(s.last())
    }
}

/// A string written as JSON: quoted, with its characters escaped.
pub open spec fn json_string_of(s: Seq<char>) -> Seq<char> {
    seq!['"'] + escaped(s) + seq!['"']
}

/// Relies on `serde_json::to_string` for an `i32`: an integer is written in
/// decimal, with a leading `-` when negative, and writing into memory cannot fail.
#[verifier::external_body]
fn json_int(v: i32) -> (r: String)
    ensures
        r@ == decimal(v as int),
{
    serde_json::to_string(&v).unwrap_or_default()
}

/// Relies on `serde_json::to_string` for a `str`: the string in quotes, each
/// character escaped by serde_json's escape table; writing into memory cannot fail.
#[verifier::external_body]
fn json_str(s: &str) -> (r: String)
    ensures
        r@ == json_string_of(s@),
{
    serde_json::to_string(s).unwrap_or_default()
}

/// `{"counter":` in front of a success body.
pub open spec fn counter_open() -> Seq<char> {
    seq!['{', '"', 'c', 'o', 'u', 'n', 't', 'e', 'r', '"', ':']
}

/// `{"error":` in front of a failure body.
pub open spec fn error_open() -> Seq<char> {
    seq!['{', '"', 'e', 'r', 'r', 'o', 'r', '"', ':']
}

/// The compact JSON object `{"counter":<v>}`.
pub open spec fn counter_body(v: int) -> Seq<char> {
    counter_open() + decimal(v) + seq!['}']
}

/// The compact JSON object `{"error":<msg as a JSON string>}`.
pub open spec fn error_body(msg: Seq<char>) -> Seq<char> {
    error_open() + json_string_of(msg) + seq!['}']
}

/// The body of a successful response: `{"counter":<v>}`.
pub fn counter_json(v: i32) -> (r: String)
    ensures
        r@ == counter_body(v as int),
{
    let mut out: Vec<char> = vec!['{', '"', 'c', 'o', 'u', 'n', 't', 'e', 'r', '"', ':'];
    let mut num = chars_of(json_int(v).as_str());
    out.append(&mut num);
    out.push('}');
    string_of(&out)
}

/// The body of a failed response: `{"error":<msg>}`, the message being
/// written as a JSON string.
pub fn error_json(msg: &str) -> (r: String)
    ensures
        r@ == error_body(msg@),
{
    let mut out: Vec<char> = vec!['{', '"', 'e', 'r', 'r', 'o', 'r', '"', ':'];
    let mut quoted = chars_of(json_str(msg).as_str());
    out.append(&mut quoted);
    out.push('}');
    string_of(&out)
}

} // verus!
