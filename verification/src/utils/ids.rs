//! Identifiers. A record is known by a 128-bit number; on the wire and in
//! messages the number is written as a UUID.

use vstd::prelude::*;

verus! {

/// The number that a text stands for when it is read as a UUID, in any of
/// the spellings that the `uuid` crate accepts; `None` for any other text.
pub uninterp spec fn uuid_parsing(text: Seq<char>) -> Option<u128>;

/// The text that the `uuid` crate writes for a number: lower-case
/// hexadecimal digits in five groups, hyphens between them.
pub uninterp spec fn uuid_format(id: u128) -> Seq<char>;

/// `uuid::Uuid::parse_str`, then `Uuid::as_u128`. Trusted: the answer
/// depends on the text alone, and is `None` exactly when the crate reports
/// a parse error.
#[verifier::external_body]
pub(crate) fn parse_uuid(text: &str) -> (id: Option<u128>)
    ensures
        id == uuid_parsing(text@),
{
    uuid::Uuid::parse_str(text).ok().map(|u| u.as_u128())
}

/// `uuid::Uuid::from_u128`, then the crate's `Display`. Trusted: the text
/// depends on the number alone, and the crate reads its own spelling back
/// as the same number.
#[verifier::external_body]
pub(crate) fn uuid_text(id: u128) -> (text: String)
    ensures
        text@ == uuid_format(id),
        uuid_parsing(text@) == Some(id),
{
    uuid::Uuid::from_u128(id).to_string()
}

} // verus!
