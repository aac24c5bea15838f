//! Text-level JSON helpers: integer rendering, and the calls into serde_json
//! that quote strings and read members of client messages.
use vstd::prelude::*;
use vstd::string::StringExecFns;

verus! {

/// The lowercase hexadecimal digit `d`, for `d < 16`.
pub open spec fn hex_digit(d: u32) -> char {
    seq!['0', '1', '2', '3', '4', '5', '6', '7', '8', '9', 'a', 'b', 'c', 'd', 'e', 'f'][d as int]
}

/// How one character stands inside a JSON string literal: quote and
/// backslash are escaped, control characters take their short escape or
/// `\u00xx`, and every other character stands for itself.
pub open spec fn escaped_char(c: char) -> Seq<char> {
    if c == '"' {
        seq!['\\', '"']
    } else if c == '\\' {
        seq!['\\', '\\']
    } else if c == '\x08' {
        seq!['\\', 'b']
    } else if c == '\x0c' {
        seq!['\\', 'f']
    } else if c == '\n' {
        seq!['\\', 'n']
    } else if c == '\r' {
        seq!['\\', 'r']
    } else if c == '\t' {
        seq!['\\', 't']
    } else if (c as u32) < 0x20 {
        seq!['\\', 'u', '0', '0', hex_digit((c as u32) / 16), hex_digit((c as u32) % 16)]
    } else {
        seq![c]
    }
}

/// The characters of `s`, each escaped.
pub open spec fn escaped(s: Seq<char>) -> Seq<char>
    decreases s.len(),
{
    if s.len() == 0 {
        Seq::empty()
    } else {
        escaped(s.drop_last()) + escaped_char(s.last())
    }
}

/// The JSON string literal for the text `s`, quotes and escapes included.
pub open spec fn json_quoted(s: Seq<char>) -> Seq<char> {
    seq!['"'] + escaped(s) + seq!['"']
}

/// The string member `key` of the JSON object that `text` holds, as serde_json
/// reads it; `None` when `text` is no JSON object, has no such member, or the
/// member is not a string.
pub uninterp spec fn json_text_member(text: Seq<char>, key: Seq<char>) -> Option<Seq<char>>;

/// The integer member `key` of the JSON object that `text` holds, as serde_json
/// reads it; `None` when `text` is no JSON object, has no such member, or the
/// member is not an integer that fits in `i64`.
pub uninterp spec fn json_int_member(text: Seq<char>, key: Seq<char>) -> Option<i64>;

/// The text of an optional string.
pub open spec fn opt_text(o: Option<String>) -> Option<Seq<char>> {
    match o {
        Some(s) => Some(s@),
        None => None,
    }
}

/// Relies on serde_json::to_string on a `str`: the JSON string literal of `s`,
/// escaped by serde_json's escape table (`ESCAPE` in its `ser.rs`; control
/// characters without a short escape as `\u00` and two lowercase hex digits).
/// Serialising a `str` has no failure case; the error arm only converts.
#[verifier::external_body]
pub(crate) fn quote(s: &str) -> (r: String)
    ensures
        r@ == json_quoted(s@),
{
    match serde_json::to_string(s) {
        Ok(t) => t,
        Err(_) => String::new(),
    }
}

/// Relies on serde_json::from_str into a `serde_json::Value`, then
/// `Value::get` with a string key and `Value::as_str` on the member.
#[verifier::external_body]
pub(crate) fn text_member(text: &str, key: &str) -> (r: Option<String>)
    ensures
        opt_text(r) == json_text_member(text@, key@),
{
    match serde_json::from_str::<serde_json::Value>(text) {
        Ok(v) => v.get(key).and_then(|m| m.as_str()).map(|m| m.to_string()),
        Err(_) => None,
    }
}

/// Relies on serde_json::from_str into a `serde_json::Value`, then
/// `Value::get` with a string key and `Value::as_i64` on the member.
#[verifier::external_body]
pub(crate) fn int_member(text: &str, key: &str) -> (r: Option<i64>)
    ensures
        r == json_int_member(text@, key@),
{
    match serde_json::from_str::<serde_json::Value>(text) {
        Ok(v) => v.get(key).and_then(|m| m.as_i64()),
        Err(_) => None,
    }
}

/// The decimal digit `d`, for `d < 10`.
pub open spec fn digit_text(d: nat) -> Seq<char> {
    if d == 0 {
        "0"@
    } else if d == 1 {
        "1"@
    } else if d == 2 {
        "2"@
    } else if d == 3 {
        "3"@
    } else if d == 4 {
        "4"@
    } else if d == 5 {
        "5"@
    } else if d == 6 {
        "6"@
    } else if d == 7 {
        "7"@
    } else if d == 8 {
        "8"@
    } else {
        "9"@
    }
}

/// Decimal notation of a natural number, without leading zeros.
pub open spec fn nat_text(n: nat) -> Seq<char>
    decreases n,
{
    if n < 10 {
        digit_text(n)
    } else {
        nat_text(n / 10) + digit_text(n % 10)
    }
}

/// Decimal notation of an integer, with a leading `-` when negative.
pub open spec fn int_text(i: int) -> Seq<char> {
    if i < 0 {
        "-"@ + nat_text((-i) as nat)
    } else {
        nat_text(i as nat)
    }
}

fn digit_str(d: u64) -> (r: &'static str)
    requires
        d < 10,
    ensures
        r@ == digit_text(d as nat),
{
    if d == 0 {
        "0"
    } else if d == 1 {
        "1"
    } else if d == 2 {
        "2"
    } else if d == 3 {
        "3"
    } else if d == 4 {
        "4"
    } else if d == 5 {
        "5"
    } else if d == 6 {
        "6"
    } else if d == 7 {
        "7"
    } else if d == 8 {
        "8"
    } else {
        "9"
    }
}

/// Appends the decimal notation of `n` to `out`.
pub fn append_nat(out: &mut String, n: u64)
    ensures
        final(out)@ == old(out)@ + nat_text(n as nat),
    decreases n,
{
    if n >= 10 {
        append_nat(out, n / 10);
    }
    out.append(digit_str(n % 10));
    assert(final(out)@ =~= old(out)@ + nat_text(n as nat));
}

/// Appends the decimal notation of `n` to `out`.
pub fn append_int(out: &mut String, n: i64)
    ensures
        final(out)@ == old(out)@ + int_text(n as int),
{
    if n < 0 {
        out.append("-");
        let m: u64 = if n == i64::MIN {
            9223372036854775808u64
        } else {
            (-n) as u64
        };
        append_nat(out, m);
        assert(final(out)@ =~= old(out)@ + int_text(n as int));
    } else {
        append_nat(out, n as u64);
    }
}

/// Appends the decimal notation of `n` to `out`.
pub fn append_count(out: &mut String, n: usize)
    ensures
        final(out)@ == old(out)@ + nat_text(n as nat),
{
    append_nat(out, n as u64);
}

} // verus!
