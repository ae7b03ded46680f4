//! Aggregate identifiers and their text form. An identifier is a UUID, held
//! as its 128-bit number; the tables hold it as text.

use vstd::prelude::*;

verus! {

/// The text that `uuid` writes for the UUID with this number: 32 lower-case
/// hexadecimal digits in five groups, with hyphens between them.
pub uninterp spec fn uuid_text(id: u128) -> Seq<char>;

/// The number of the UUID that `uuid` reads out of a text, or `None` where
/// it takes the text for no UUID.
pub uninterp spec fn uuid_parse(text: Seq<char>) -> Option<u128>;

/// `uuid::Uuid::from_u128` and the `to_string` of the result. The contract
/// only names the text.
#[verifier::external_body]
pub(crate) fn format_id(id: u128) -> (text: String)
    ensures
        text@ == uuid_text(id),
{
    uuid::Uuid::from_u128(id).to_string()
}

/// `uuid::Uuid::parse_str`, and `as_u128` of what it found. The contract only
/// names the answer.
#[verifier::external_body]
pub(crate) fn parse_id(text: &str) -> (id: Option<u128>)
    ensures
        id == uuid_parse(text@),
{
    uuid::Uuid::parse_str(text).ok().map(|found| found.as_u128())
}

} // verus!
