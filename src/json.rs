//! The JSON primitives that the protocol texts are built from and read with.
use vstd::prelude::*;

verus! {

/// The JSON string literal that stands for `s`: quotes around it, with every
/// character escaped as JSON requires.
pub uninterp spec fn json_quoted(s: Seq<char>) -> Seq<char>;

/// The string held by member `key` of the top-level object of the JSON text
/// `text`; `None` where the text is no well-formed JSON, is no object, lacks
/// the member, or the member holds something other than a string.
pub uninterp spec fn json_str_member_of(text: Seq<char>, key: Seq<char>) -> Option<Seq<char>>;

/// Relies on `serde_json::to_string` on a `str`: it writes the escaped string
/// literal into a `Vec`, a write that cannot fail.
#[verifier::external_body]
pub(crate) fn json_quote(s: &str) -> (r: String)
    ensures
        r@ == json_quoted(s@),
{
    match serde_json::to_string(s) {
        Ok(t) => t,
        Err(_) => String::new(),
    }
}

/// Relies on `serde_json::from_str` into a `serde_json::Value`, then
/// `Value::get` with a key and `Value::as_str`: the string member `key` of the
/// object that `text` encodes.
#[verifier::external_body]
pub(crate) fn json_str_member(text: &str, key: &str) -> (r: Option<String>)
    ensures
        r matches Some(v) ==> json_str_member_of(text@, key@) == Some(v@),
        r is None ==> json_str_member_of(text@, key@) is None,
{
    let value: serde_json::Value = serde_json::from_str(text).ok()?;
    value.get(key).and_then(|m| m.as_str()).map(|m| m.to_string())
}

/// Relies on `i32::to_string`: the decimal digits of `n`, with a minus sign
/// where it is negative.
#[verifier::external_body]
pub(crate) fn decimal(n: i32) -> (r: String)
    ensures
        r@ == decimal_of(n as int),
{
    n.to_string()
}

/// The decimal digit that stands for `d`, for `d` below ten.
pub open spec fn digit_char(d: nat) -> char {
    ((d + '0' as nat) as u32) as char
}

/// The decimal digits of `n`, without leading zeros.
pub open spec fn digits_of(n: nat) -> Seq<char>
    decreases n,
{
    if n < 10 {
        seq![digit_char(n)]
    } else {
        digits_of(n / 10).push(digit_char(n % 10))
    }
}

/// The decimal notation of `n`: its digits, after a minus sign where it is negative.
pub open spec fn decimal_of(n: int) -> Seq<char> {
    if n < 0 {
        seq!['-'] + digits_of((-n) as nat)
    } else {
        digits_of(n as nat)
    }
}

} // verus!
