//! Execution identifiers are 128-bit UUID values, held as plain `u128`
//! integers in big-endian byte order. The trusted calls into the `uuid` crate
//! parse, format and generate them.

use vstd::prelude::*;

verus! {

/// The lowercase hexadecimal digit for a value below sixteen.
pub open spec fn hex_digit(v: int) -> char {
    if v == 0 {
        '0'
    } else if v == 1 {
        '1'
    } else if v == 2 {
        '2'
    } else if v == 3 {
        '3'
    } else if v == 4 {
        '4'
    } else if v == 5 {
        '5'
    } else if v == 6 {
        '6'
    } else if v == 7 {
        '7'
    } else if v == 8 {
        '8'
    } else if v == 9 {
        '9'
    } else if v == 10 {
        'a'
    } else if v == 11 {
        'b'
    } else if v == 12 {
        'c'
    } else if v == 13 {
        'd'
    } else if v == 14 {
        'e'
    } else {
        'f'
    }
}

/// Hex digit `i` (most significant first) of a 128-bit value.
pub open spec fn uuid_digit(u: u128, i: int) -> char {
    hex_digit(((u >> ((4 * (31 - i)) as u128)) & 0xf) as int)
}

/// The lowercase hyphenated text form of a 128-bit UUID value: its 32 hex
/// digits in big-endian order, with hyphens after digits 8, 12, 16 and 20.
pub open spec fn uuid_hyphenated(u: u128) -> Seq<char> {
    Seq::new(
        36,
        |j: int|
            if j == 8 || j == 13 || j == 18 || j == 23 {
                '-'
            } else {
                let d = if j < 8 {
                    j
                } else if j < 13 {
                    j - 1
                } else if j < 18 {
                    j - 2
                } else if j < 23 {
                    j - 3
                } else {
                    j - 4
                };
                uuid_digit(u, d)
            },
    )
}

/// The UUID value that `uuid::Uuid::parse_str` reads out of a string, or
/// `None` where it rejects the string. The accepted strings and their values
/// are a function of the string alone.
pub uninterp spec fn uuid_parse_of(s: Seq<char>) -> Option<u128>;

/// Relies on `uuid::Uuid::parse_str` (read through `Uuid::as_u128`): parsing
/// depends on the input string alone.
#[verifier::external_body]
pub(crate) fn parse_uuid(s: &str) -> (r: Option<u128>)
    ensures
        r == uuid_parse_of(s@),
{
    uuid::Uuid::parse_str(s).ok().map(|u| u.as_u128())
}

/// Relies on `uuid::Uuid::to_string` (via `Uuid::from_u128`): the text form of
/// a UUID is its lowercase hyphenated form.
#[verifier::external_body]
pub(crate) fn format_uuid(u: u128) -> (r: String)
    ensures
        r@ == uuid_hyphenated(u),
{
    uuid::Uuid::from_u128(u).to_string()
}

/// Relies on `uuid::Uuid::new_v4` (read through `Uuid::as_u128`): a random
/// UUID whose version nibble is four and whose variant bits are the RFC 4122
/// ones; nothing else is promised of it.
#[verifier::external_body]
pub(crate) fn new_v4_u128() -> (r: u128)
    ensures
        (r >> 76) & 0xf == 4,
        (r >> 62) & 0x3 == 2,
{
    uuid::Uuid::new_v4().as_u128()
}

} // verus!
