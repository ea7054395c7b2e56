use vstd::prelude::*;
use crate::text::hex_digit;

verus! {

/// How a JSON writer spells one character inside a string literal.
pub open spec fn json_escaped_char(c: char) -> Seq<char> {
    if c == '"' {
        seq!['\\', '"']
    } else if c == '\\' {
        seq!['\\', '\\']
    } else if c == '\u{8}' {
        seq!['\\', 'b']
    } else if c == '\t' {
        seq!['\\', 't']
    } else if c == '\n' {
        seq!['\\', 'n']
    } else if c == '\u{c}' {
        seq!['\\', 'f']
    } else if c == '\r' {
        seq!['\\', 'r']
    } else if (c as nat) < 32 {
        seq!['\\', 'u', '0', '0', hex_digit((c as nat) / 16), hex_digit((c as nat) % 16)]
    } else {
        seq![c]
    }
}

/// The escaped contents of a JSON string literal holding `s`.
pub open spec fn json_escaped(s: Seq<char>) -> Seq<char>
    decreases s.len(),
{
    if s.len() == 0 {
        Seq::empty()
    } else {
        json_escaped(s.drop_last()) + json_escaped_char(s.last())
    }
}

/// The JSON string literal, quotes included, that holds `s`.
pub open spec fn json_string(s: Seq<char>) -> Seq<char> {
    seq!['"'] + json_escaped(s) + seq!['"']
}

/// Encodes `text` as a JSON string literal with `serde_json::to_string`.
///
/// Trusted: serde_json writes a `str` as a quote, then each character either
/// as itself or, for `"`, `\`, and control characters below U+0020, as the
/// escape given by `json_escaped_char`, then a quote. Writing into a `Vec`
/// cannot fail, so the error branch is never taken.
#[verifier::external_body]
pub(crate) fn json_string_literal(text: &str) -> (res: String)
    ensures
        res@ == json_string(text@),
{
    serde_json::to_string(text).unwrap_or_default()
}

} // verus!
