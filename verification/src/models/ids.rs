//! Room and session identifiers: UUIDs, generated, printed and parsed by the
//! `uuid` crate and held here as their 128-bit values.
use vstd::prelude::*;
use vstd::arithmetic::power2::pow2;

verus! {

/// The lowercase hexadecimal digit for `n`, `0 <= n < 16`.
pub open spec fn hex_digit(n: int) -> char {
    if n < 10 {
        (48 + n) as char
    } else {
        (87 + n) as char
    }
}

/// The `i`-th hexadecimal digit of `u`, counted from the most significant one.
pub open spec fn nibble(u: u128, i: int) -> int {
    (u as int / pow2((4 * (31 - i)) as nat) as int) % 16
}

/// Position among the 32 digits of the character at position `j` of the
/// hyphenated form (`j` not being a hyphen).
pub open spec fn digit_position(j: int) -> int {
    if j < 8 {
        j
    } else if j < 13 {
        j - 1
    } else if j < 18 {
        j - 2
    } else if j < 23 {
        j - 3
    } else {
        j - 4
    }
}

/// The hyphenated text of a UUID: 32 lowercase hexadecimal digits, most
/// significant first, in groups of 8, 4, 4, 4 and 12 separated by `-`.
pub open spec fn hyphenated(u: u128) -> Seq<char> {
    Seq::new(
        36,
        |j: int|
            if j == 8 || j == 13 || j == 18 || j == 23 {
                '-'
            } else {
                hex_digit(nibble(u, digit_position(j)))
            },
    )
}

/// The outcome of reading a UUID from text: its value, or an error message.
pub type ParsedUuid = Result<u128, Seq<char>>;

/// What `uuid::Uuid::parse_str` gives for a text: the UUID's 128-bit value, or
/// the text of the error it reports.
pub uninterp spec fn uuid_parse(s: Seq<char>) -> ParsedUuid;

/// Whether `u` carries the marks of a random (version 4, RFC 4122 variant) UUID.
pub open spec fn is_random_uuid(u: u128) -> bool {
    &&& (u as int / pow2(76) as int) % 16 == 4
    &&& (u as int / pow2(62) as int) % 4 == 2
}

/// Calls `uuid::Uuid::new_v4`: a UUID made of random bytes, with its version
/// set to 4 and its variant to RFC 4122; nothing else is claimed of it.
/// The call panics only when the operating system gives no random bytes.
#[verifier::external_body]
pub(crate) fn new_uuid() -> (u: u128)
    ensures
        is_random_uuid(u),
{
    uuid::Uuid::new_v4().as_u128()
}

/// Calls `uuid::Uuid::parse_str` (what `Uuid::from_str` does) on `s`, and
/// hands back the 128-bit value or the error's `Display` text. The result is
/// named `uuid_parse`.
#[verifier::external_body]
pub(crate) fn parse_uuid(s: &str) -> (r: Result<u128, String>)
    ensures
        r is Ok ==> uuid_parse(s@) == ParsedUuid::Ok(r->Ok_0),
        r is Err ==> uuid_parse(s@) == ParsedUuid::Err(r->Err_0@),
{
    match uuid::Uuid::parse_str(s) {
        Ok(u) => Ok(u.as_u128()),
        Err(e) => Err(e.to_string()),
    }
}

/// Calls `to_string` on `uuid::Uuid::from_u128(u)`: its `Display` is the
/// hyphenated lowercase form, which `parse_str` reads back to the same value.
#[verifier::external_body]
pub(crate) fn uuid_text(u: u128) -> (r: String)
    ensures
        r@ == hyphenated(u),
        uuid_parse(r@) == ParsedUuid::Ok(u),
{
    uuid::Uuid::from_u128(u).to_string()
}

} // verus!
