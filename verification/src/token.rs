//! Session identifiers: 128-bit numbers that travel as UUID text.
//!
//! The `uuid` crate reads and writes the text and draws fresh identifiers; the
//! three functions that call it are believed, not proved.

use vstd::prelude::*;

verus! {

/// The identifier that `uuid::Uuid::parse_str` reads from `text`, as a 128-bit
/// number in big-endian byte order, or `None` where it refuses the text.
pub uninterp spec fn uuid_of_text(text: Seq<char>) -> Option<u128>;

/// The text that `uuid::Uuid` writes for the identifier `id` when displayed.
pub uninterp spec fn text_of_uuid(id: u128) -> Seq<char>;

/// The bits that mark a version-4 (random) UUID of the RFC 4122 variant: the
/// version nibble is 4 and the two variant bits are `10`.
pub open spec fn is_random_uuid(id: u128) -> bool {
    id & 0x0000_0000_0000_f000_c000_0000_0000_0000 == 0x0000_0000_0000_4000_8000_0000_0000_0000
}

/// Calls `uuid::Uuid::parse_str`, which accepts the simple, hyphenated, URN
/// and braced forms, and hands the identifier out through `Uuid::as_u128`.
/// Trusted: the result is what the crate reads from the text.
#[verifier::external_body]
fn uuid_parse(text: &str) -> (id: Option<u128>)
    ensures
        id == uuid_of_text(text@),
{
    match uuid::Uuid::parse_str(text) {
        Ok(parsed) => Some(parsed.as_u128()),
        Err(_) => None,
    }
}

/// Calls `uuid::Uuid::from_u128` and the `Display` of the result, which writes
/// the lower-case hyphenated form. Trusted: the result is that text, and
/// `parse_str`, which reads every form that the crate writes, reads the same
/// identifier back from it.
#[verifier::external_body]
pub(crate) fn uuid_display(id: u128) -> (text: String)
    ensures
        text@ == text_of_uuid(id),
        uuid_of_text(text@) == Some(id),
{
    uuid::Uuid::from_u128(id).to_string()
}

/// Calls `uuid::Uuid::new_v4`, which draws 128 bits from the operating
/// system's generator and overwrites the version and variant bits. Trusted:
/// every identifier that comes back carries those bits. (The crate panics
/// where the operating system hands out no random bytes.)
#[verifier::external_body]
pub(crate) fn uuid_random() -> (id: u128)
    ensures
        is_random_uuid(id),
{
    uuid::Uuid::new_v4().as_u128()
}

/// The session token that a cookie carries: none without a cookie, and none
/// where the cookie's value is no UUID.
pub fn parse_session_token(cookie: Option<&str>) -> (token: Option<u128>)
    ensures
        token == match cookie {
            Some(text) => uuid_of_text(text@),
            None => None,
        },
{
    match cookie {
        Some(text) => uuid_parse(text),
        None => None,
    }
}

} // verus!
