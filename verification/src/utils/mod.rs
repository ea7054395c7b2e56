use vstd::prelude::*;
use crate::api_error::{ApiError, logged_error, INTERNAL_SERVER_ERROR};
use crate::text::{decimal_digit_value, is_decimal_digit};

pub mod files;

verus! {

/// The value of a text configuration variable given what reading it produced:
/// the value itself, or the text of the failure (a missing or non-Unicode
/// variable), which becomes a logged internal error.
pub fn parse_key(value: Result<String, String>) -> (res: Result<String, ApiError>)
    ensures
        value matches Ok(v) ==> res matches Ok(r) && r@ == v@,
        value matches Err(e) ==> res matches Err(err)
            && err@ == logged_error(INTERNAL_SERVER_ERROR, "A var error has occurred: "@ + e@),
{
    match value {
        Ok(v) => Ok(v),
        Err(e) => Err(ApiError::from_var(e.as_str())),
    }
}

/// Why a text is not a number, as `std::num::IntErrorKind` tells the cases
/// that can arise for an unsigned type.
#[derive(Debug, PartialEq, Eq, Structural, Clone, Copy)]
pub enum ParseIntFailure {
    /// The text is empty.
    Empty,
    /// A character is not a decimal digit (a lone `+` counts as one).
    InvalidDigit,
    /// The number does not fit in 32 bits.
    TooLarge,
}

/// The digits of an unsigned number: the text after an optional leading `+`.
pub open spec fn unsigned_digits(s: Seq<char>) -> Seq<char> {
    if s.len() > 0 && s[0] == '+' {
        s.drop_first()
    } else {
        s
    }
}

/// Reads the digits `d` from the left onto the value `acc` read so far,
/// stopping at the first character that is not a digit or that makes the
/// value exceed 32 bits.
pub open spec fn scan_digits(d: Seq<char>, acc: nat) -> Result<nat, ParseIntFailure>
    decreases d.len(),
{
    if d.len() == 0 {
        Ok(acc)
    } else if !is_decimal_digit(d[0]) {
        Err(ParseIntFailure::InvalidDigit)
    } else if acc * 10 + decimal_digit_value(d[0]) > u32::MAX {
        Err(ParseIntFailure::TooLarge)
    } else {
        scan_digits(d.drop_first(), acc * 10 + decimal_digit_value(d[0]))
    }
}

/// How `str::parse::<u32>` reads `s`: an optional `+`, then at least one
/// decimal digit and nothing else, for a value that fits in 32 bits.
pub open spec fn u32_parse(s: Seq<char>) -> Result<u32, ParseIntFailure> {
    if s.len() == 0 {
        Err(ParseIntFailure::Empty)
    } else if unsigned_digits(s).len() == 0 {
        Err(ParseIntFailure::InvalidDigit)
    } else {
        match scan_digits(unsigned_digits(s), 0) {
            Ok(v) => Ok(v as u32),
            Err(e) => Err(e),
        }
    }
}

/// The number `s` denotes, if any.
pub open spec fn parsed_u32(s: Seq<char>) -> Option<u32> {
    match u32_parse(s) {
        Ok(v) => Some(v),
        Err(_) => None,
    }
}

/// What a failure to read a number says, as `std::num::ParseIntError` prints it.
pub open spec fn parse_failure_text(f: ParseIntFailure) -> Seq<char> {
    match f {
        ParseIntFailure::Empty => "cannot parse integer from empty string"@,
        ParseIntFailure::InvalidDigit => "invalid digit found in string"@,
        ParseIntFailure::TooLarge => "number too large to fit in target type"@,
    }
}

proof fn lemma_scan_bounded(d: Seq<char>, acc: nat)
    requires
        acc <= u32::MAX,
    ensures
        scan_digits(d, acc) matches Ok(v) ==> v <= u32::MAX,
    decreases d.len(),
{
    if d.len() > 0 && is_decimal_digit(d[0]) && acc * 10 + decimal_digit_value(d[0]) <= u32::MAX {
        lemma_scan_bounded(d.drop_first(), acc * 10 + decimal_digit_value(d[0]));
    }
}

proof fn lemma_scan_push_digit(d: Seq<char>, acc: nat, w: nat, c: char)
    requires
        is_decimal_digit(c),
        scan_digits(d, acc) == Ok::<nat, ParseIntFailure>(w),
    ensures
        scan_digits(d.push(c), acc) == (if w * 10 + decimal_digit_value(c) > u32::MAX {
            Err::<nat, ParseIntFailure>(ParseIntFailure::TooLarge)
        } else {
            Ok(w * 10 + decimal_digit_value(c))
        }),
    decreases d.len(),
{
    if d.len() == 0 {
        assert(w == acc);
        let one = d.push(c);
        assert(one.len() == 1 && one[0] == c);
        assert(one.drop_first() =~= Seq::<char>::empty());
        assert(scan_digits(one.drop_first(), acc * 10 + decimal_digit_value(c)) == Ok::<nat, ParseIntFailure>(
            acc * 10 + decimal_digit_value(c),
        ));
    } else {
        let next_acc = acc * 10 + decimal_digit_value(d[0]);
        assert(d.push(c)[0] == d[0]);
        assert(d.push(c).drop_first() =~= d.drop_first().push(c));
        lemma_scan_push_digit(d.drop_first(), next_acc, w, c);
    }
}

proof fn lemma_scan_stops_at_non_digit(d: Seq<char>, acc: nat, i: int)
    requires
        0 <= i < d.len(),
        !is_decimal_digit(d[i]),
    ensures
        scan_digits(d, acc) is Err,
    decreases d.len(),
{
    if i > 0 && is_decimal_digit(d[0]) && acc * 10 + decimal_digit_value(d[0]) <= u32::MAX {
        assert(d.drop_first()[i - 1] == d[i]);
        lemma_scan_stops_at_non_digit(d.drop_first(), acc * 10 + decimal_digit_value(d[0]), i - 1);
    }
}

/// How reading a 32-bit number behaves: the empty text fails as empty; a
/// single digit is its own value; appending a digit to a number multiplies
/// it by ten and adds the digit, failing as too large beyond 32 bits; a
/// leading `+` before digits changes nothing; and any other character
/// than a digit (or a leading `+`) makes the text no number.
pub proof fn lemma_u32_parse_laws(s: Seq<char>, c: char, v: u32, i: int)
    ensures
        u32_parse(Seq::empty()) == Err::<u32, ParseIntFailure>(ParseIntFailure::Empty),
        is_decimal_digit(c) ==> u32_parse(seq![c]) == Ok::<u32, ParseIntFailure>(
            (c as u32 - '0' as u32) as u32,
        ),
        is_decimal_digit(c) && u32_parse(s) == Ok::<u32, ParseIntFailure>(v) ==> u32_parse(s.push(c)) == (
            if v * 10 + (c as u32 - '0' as u32) > u32::MAX {
                Err::<u32, ParseIntFailure>(ParseIntFailure::TooLarge)
            } else {
                Ok((v * 10 + (c as u32 - '0' as u32)) as u32)
            }),
        s.len() > 0 && s[0] != '+' ==> u32_parse(seq!['+'] + s) == u32_parse(s),
        0 <= i < s.len() && !is_decimal_digit(s[i]) && !(i == 0 && s[i] == '+') ==> u32_parse(s) is Err,
{
    if is_decimal_digit(c) {
        let one = seq![c];
        assert(one.len() == 1 && one[0] == c);
        assert(unsigned_digits(one) == one);
        assert(one.drop_first() =~= Seq::<char>::empty());
        assert(decimal_digit_value(c) == (c as u32 - '0' as u32));
        assert(scan_digits(one.drop_first(), decimal_digit_value(c)) == Ok::<nat, ParseIntFailure>(decimal_digit_value(c)));
        assert(scan_digits(one, 0) == Ok::<nat, ParseIntFailure>(decimal_digit_value(c)));
    }
    if is_decimal_digit(c) && u32_parse(s) == Ok::<u32, ParseIntFailure>(v) {
        let d = unsigned_digits(s);
        assert(s.len() > 0);
        assert(unsigned_digits(s.push(c)) =~= d.push(c)) by {
            if s[0] == '+' {
                assert(s.push(c).drop_first() =~= s.drop_first().push(c));
            }
        }
        lemma_scan_bounded(d, 0);
        lemma_scan_push_digit(d, 0, v as nat, c);
    }
    if s.len() > 0 && s[0] != '+' {
        assert((seq!['+'] + s).drop_first() =~= s);
    }
    if 0 <= i < s.len() && !is_decimal_digit(s[i]) && !(i == 0 && s[i] == '+') {
        if s[0] == '+' {
            assert(unsigned_digits(s)[i - 1] == s[i]);
            if unsigned_digits(s).len() > 0 {
                lemma_scan_stops_at_non_digit(unsigned_digits(s), 0, i - 1);
            }
        } else {
            lemma_scan_stops_at_non_digit(s, 0, i);
        }
    }
}

/// Reads a 32-bit unsigned number written in decimal, as `str::parse::<u32>`
/// does, telling why when the text is not one.
pub fn parse_u32(s: &str) -> (res: Result<u32, ParseIntFailure>)
    ensures
        res == u32_parse(s@),
{
    let n = s.unicode_len();
    if n == 0 {
        return Err(ParseIntFailure::Empty);
    }
    let mut start: usize = 0;
    if s.get_char(0) == '+' {
        start = 1;
    }
    let ghost d = unsigned_digits(s@);
    assert(d =~= s@.subrange(start as int, n as int));
    if start == n {
        return Err(ParseIntFailure::InvalidDigit);
    }
    proof {
        lemma_scan_bounded(d, 0);
        assert(d.skip(0) =~= d);
    }
    let mut i: usize = start;
    let mut acc: u64 = 0;
    while i < n
        invariant
            start <= i <= n,
            n == s@.len(),
            d =~= s@.subrange(start as int, n as int),
            d == unsigned_digits(s@),
            0 < d.len(),
            acc <= u32::MAX,
            scan_digits(d, 0) == scan_digits(d.skip(i - start), acc as nat),
        decreases n - i,
    {
        let c = s.get_char(i);
        assert(d.skip(i - start)[0] == c);
        assert(d.skip(i - start).drop_first() =~= d.skip(i + 1 - start));
        if !('0' <= c && c <= '9') {
            return Err(ParseIntFailure::InvalidDigit);
        }
        let digit = (c as u32 - '0' as u32) as u64;
        acc = acc * 10 + digit;
        if acc > 0xffff_ffff {
            return Err(ParseIntFailure::TooLarge);
        }
        i = i + 1;
    }
    assert(d.skip(n - start).len() == 0);
    proof {
        lemma_scan_bounded(d, 0);
    }
    Ok(acc as u32)
}

/// The value of a numeric configuration variable `key` given what reading
/// it produced: a failure to read it, or a text that is not a number,
/// becomes a logged internal error.
pub fn parse_key_u32(key: &str, value: Result<String, String>) -> (res: Result<u32, ApiError>)
    ensures
        value matches Err(e) ==> res matches Err(err)
            && err@ == logged_error(INTERNAL_SERVER_ERROR, "A var error has occurred: "@ + e@),
        value matches Ok(v) ==> match u32_parse(v@) {
            Ok(n) => res matches Ok(r) && r == n,
            Err(f) => res matches Err(err) && err@ == logged_error(
                INTERNAL_SERVER_ERROR,
                "Failed to parse `"@ + key@ + "` as `u32`: "@ + parse_failure_text(f),
            ),
        },
{
    match value {
        Err(e) => Err(ApiError::from_var(e.as_str())),
        Ok(v) => match parse_u32(v.as_str()) {
            Ok(n) => Ok(n),
            Err(f) => {
                let mut line = "Failed to parse `".to_owned();
                line.append(key);
                line.append("` as `u32`: ");
                let reason = match f {
                    ParseIntFailure::Empty => "cannot parse integer from empty string",
                    ParseIntFailure::InvalidDigit => "invalid digit found in string",
                    ParseIntFailure::TooLarge => "number too large to fit in target type",
                };
                line.append(reason);
                Err(ApiError::new_log(INTERNAL_SERVER_ERROR, line.as_str()))
            },
        },
    }
}

} // verus!
