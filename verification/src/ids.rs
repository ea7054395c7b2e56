use vstd::prelude::*;
use crate::text::hex_digit;

verus! {

/// The last `n` hexadecimal digits of `v`, most significant first.
pub open spec fn hex_digits(v: nat, n: nat) -> Seq<char>
    decreases n,
{
    if n == 0 {
        Seq::empty()
    } else {
        hex_digits(v / 16, (n - 1) as nat).push(hex_digit(v % 16))
    }
}

/// The hyphenated lower-case text of the 128-bit id `v`, in groups of 8, 4,
/// 4, 4 and 12 digits, such as `a1a2a3a4-b1b2-c1c2-d1d2-d3d4d5d6d7d8`.
pub open spec fn id_text(v: u128) -> Seq<char> {
    let d = hex_digits(v as nat, 32);
    d.subrange(0, 8) + seq!['-'] + d.subrange(8, 12) + seq!['-'] + d.subrange(12, 16) + seq!['-']
        + d.subrange(16, 20) + seq!['-'] + d.subrange(20, 32)
}

/// What `uuid::Uuid::parse_str` makes of `text`: the id, read as a big-endian
/// 128-bit number, or the text of the parse error.
pub uninterp spec fn uuid_parse_str(text: Seq<char>) -> Result<u128, Seq<char>>;

/// The text content of a parse result.
pub open spec fn parse_outcome(r: Result<u128, String>) -> Result<u128, Seq<char>> {
    match r {
        Ok(v) => Ok(v),
        Err(e) => Err(e@),
    }
}

/// Parses an upload id with `uuid::Uuid::parse_str`.
///
/// Trusted: the result, and the text of the error, are those of
/// `parse_str`, which depends on the text alone. The crate documents that
/// every format it prints parses back; in particular the hyphenated
/// lower-case text of an id parses to that id.
#[verifier::external_body]
pub(crate) fn parse_id(text: &str) -> (res: Result<u128, String>)
    ensures
        parse_outcome(res) == uuid_parse_str(text@),
        forall|v: u128| text@ == #[trigger] id_text(v) ==> res is Ok && res->Ok_0 == v,
{
    match uuid::Uuid::parse_str(text) {
        Ok(id) => Ok(id.as_u128()),
        Err(e) => Err(e.to_string()),
    }
}

/// Prints an upload id the way `uuid::Uuid`'s `Display` does.
///
/// Trusted: `Display` for `Uuid` writes the hyphenated lower-case form of
/// the id's big-endian bytes, which is `id_text`.
#[verifier::external_body]
pub(crate) fn format_id(id: u128) -> (res: String)
    ensures
        res@ == id_text(id),
{
    uuid::Uuid::from_u128(id).to_string()
}


/// The characters that occur in the text of an id.
pub open spec fn is_id_char(c: char) -> bool {
    ('0' <= c && c <= '9') || ('a' <= c && c <= 'f') || c == '-'
}

pub proof fn lemma_hex_digits_shape(v: nat, n: nat)
    ensures
        hex_digits(v, n).len() == n,
        forall|i: int| 0 <= i < n ==> is_id_char(#[trigger] hex_digits(v, n)[i]),
    decreases n,
{
    if n > 0 {
        lemma_hex_digits_shape(v / 16, (n - 1) as nat);
        let d = v % 16;
        assert(is_id_char(crate::text::hex_digit(d)));
    }
}

/// The text of an id is a single plain path component.
pub proof fn lemma_id_text_is_plain_name(v: u128)
    ensures
        crate::paths::is_plain_name(id_text(v)),
        id_text(v)[0] != '/',
{
    lemma_id_text_shape(v);
    assert(id_text(v).len() == 36);
    assert(!crate::text::has_char(id_text(v), '/')) by {
        assert forall|i: int| 0 <= i < id_text(v).len() implies id_text(v)[i] != '/' by {
            assert(is_id_char(id_text(v)[i]));
        }
    }
    assert(id_text(v) != seq!['.']);
    assert(id_text(v) != seq!['.', '.']);
}

/// The text of an id has 36 characters, all hexadecimal digits or hyphens.
pub proof fn lemma_id_text_shape(v: u128)
    ensures
        id_text(v).len() == 36,
        forall|i: int| 0 <= i < 36 ==> is_id_char(#[trigger] id_text(v)[i]),
{
    lemma_hex_digits_shape(v as nat, 32);
    let d = hex_digits(v as nat, 32);
    assert forall|i: int| 0 <= i < 36 implies is_id_char(#[trigger] id_text(v)[i]) by {
        if i < 8 {
            assert(id_text(v)[i] == d[i]);
        } else if i == 8 || i == 13 || i == 18 || i == 23 {
        } else if i < 13 {
            assert(id_text(v)[i] == d[i - 1]);
        } else if i < 18 {
            assert(id_text(v)[i] == d[i - 2]);
        } else if i < 23 {
            assert(id_text(v)[i] == d[i - 3]);
        } else {
            assert(id_text(v)[i] == d[i - 4]);
        }
    }
}

} // verus!
