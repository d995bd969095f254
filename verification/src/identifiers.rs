//! Task identifiers: 128-bit values, drawn, read and written in their
//! standard textual form by the `uuid` crate.

use vstd::prelude::*;

verus! {

/// The bits of an identifier that hold its version and its variant.
pub const KIND_MASK: u128 = 0x0000_0000_0000_f000_c000_0000_0000_0000;

/// What those bits hold in a random (version 4) identifier.
pub const RANDOM_KIND: u128 = 0x0000_0000_0000_4000_8000_0000_0000_0000;

/// Whether `id` carries the version and variant of a random identifier.
pub open spec fn is_random_id(id: u128) -> bool {
    id & KIND_MASK == RANDOM_KIND
}

/// The identifier that `uuid::Uuid::parse_str` reads from `text`, or
/// `None` where it reads none.
pub uninterp spec fn parsed_id(text: Seq<char>) -> Option<u128>;

/// The hexadecimal digit, in lower case, at `place` among the 32 digits
/// of `id`, counted from the most significant.
pub open spec fn hex_digit(id: u128, place: int) -> char {
    "0123456789abcdef"@[((id >> (((31 - place) * 4) as u128)) & 0xf) as int]
}

/// The textual form of `id`: its 32 hexadecimal digits in lower case, in
/// groups of 8, 4, 4, 4 and 12 with a hyphen between two groups.
pub open spec fn hyphenated(id: u128) -> Seq<char> {
    Seq::new(
        36,
        |at: int|
            if at == 8 || at == 13 || at == 18 || at == 23 {
                '-'
            } else if at < 8 {
                hex_digit(id, at)
            } else if at < 13 {
                hex_digit(id, at - 1)
            } else if at < 18 {
                hex_digit(id, at - 2)
            } else if at < 23 {
                hex_digit(id, at - 3)
            } else {
                hex_digit(id, at - 4)
            },
    )
}

/// Draws a random identifier with `uuid::Uuid::new_v4`.
///
/// Trusted: the identifier is whatever the operating system's random
/// source gives, with the version set to 4 and the variant to RFC 9562, and
/// nothing else is claimed of it; in particular two calls may return the
/// same value. The call aborts the process when no randomness can be had.
#[verifier::external_body]
pub(crate) fn fresh_id() -> (id: u128)
    ensures
        is_random_id(id),
{
    uuid::Uuid::new_v4().as_u128()
}

/// Reads an identifier with `uuid::Uuid::parse_str`.
///
/// Trusted: the result depends on the characters of `text` alone, so it
/// is given the name `parsed_id`; which texts are read as identifiers is
/// left to the `uuid` crate.
#[verifier::external_body]
pub(crate) fn parse_id(text: &str) -> (id: Option<u128>)
    ensures
        id == parsed_id(text@),
{
    match uuid::Uuid::parse_str(text) {
        Ok(parsed) => Some(parsed.as_u128()),
        Err(_) => None,
    }
}

/// Writes an identifier as `uuid::Uuid` displays it.
///
/// Trusted: the text is the hyphenated form in lower case, 36 characters
/// long, with the digits of `id` from the most significant to the least.
#[verifier::external_body]
pub(crate) fn id_text(id: u128) -> (text: String)
    ensures
        text@ == hyphenated(id),
{
    uuid::Uuid::from_u128(id).to_string()
}

} // verus!
