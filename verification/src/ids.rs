//! Identifiers of events, notifications and messages.
//!
//! An identifier is the 128-bit value of a UUID. New ones are time-ordered
//! (version 7) and come from the `uuid` crate, as does their text form.

use vstd::prelude::*;

verus! {

/// The sixteen hexadecimal digits, in lower case.
pub open spec fn hex_digits() -> Seq<char> {
    seq!['0', '1', '2', '3', '4', '5', '6', '7', '8', '9', 'a', 'b', 'c', 'd', 'e', 'f']
}

/// The `i`-th of the 32 hexadecimal digits of `id`, the most significant
/// being the first.
pub open spec fn hex_digit(id: u128, i: int) -> char {
    hex_digits()[(id as int / vstd::arithmetic::power::pow(16, (31 - i) as nat)) % 16]
}

/// How many hyphens stand before position `p` of the text form.
pub open spec fn hyphens_before(p: int) -> int {
    if p < 8 {
        0
    } else if p < 13 {
        1
    } else if p < 18 {
        2
    } else if p < 23 {
        3
    } else {
        4
    }
}

/// The text form of an identifier: its 32 hexadecimal digits in lower case,
/// in groups of 8, 4, 4, 4 and 12 with a hyphen between two groups.
pub open spec fn hyphenated(id: u128) -> Seq<char> {
    Seq::new(
        36,
        |p: int|
            if p == 8 || p == 13 || p == 18 || p == 23 {
                '-'
            } else {
                hex_digit(id, p - hyphens_before(p))
            },
    )
}

/// The identifier that a text stands for, if it is the text of one. The
/// hyphenated form is one of the forms that are read.
pub uninterp spec fn parsed_id(text: Seq<char>) -> Option<u128>;

/// `uuid::Uuid::parse_str`: the 128-bit value of the UUID that `text` stands
/// for, and nothing where it stands for none.
#[verifier::external_body]
pub(crate) fn parse_id(text: &str) -> (id: Option<u128>)
    ensures
        id == parsed_id(text@),
{
    match uuid::Uuid::parse_str(text) {
        Ok(parsed) => Some(parsed.as_u128()),
        Err(_) => None,
    }
}

/// `uuid::Uuid::now_v7`: a new version 7 identifier, made of the current time
/// and random bits. Nothing is known of its value.
#[verifier::external_body]
pub(crate) fn fresh_id() -> u128 {
    uuid::Uuid::now_v7().as_u128()
}

/// `Display` of `uuid::Uuid`: the hyphenated lower-case text of the UUID with
/// the given 128-bit value. Read back, that text gives the same value.
#[verifier::external_body]
pub(crate) fn id_text(id: u128) -> (text: String)
    ensures
        text@ == hyphenated(id),
        parsed_id(text@) == Some(id),
{
    uuid::Uuid::from_u128(id).to_string()
}

} // verus!
