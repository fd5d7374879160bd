//! Entry identifiers: 128-bit numbers that `uuid` draws, prints and reads.

use uuid::Error;
use uuid::Uuid;
use vstd::prelude::*;

verus! {

#[verifier::external_type_specification]
#[verifier::external_body]
pub struct ExUuidError(Error);

/// The text that `uuid` prints for the identifier with the given bits.
pub uninterp spec fn uuid_text(id: u128) -> Seq<char>;

/// The bits of the identifier that `Uuid::parse_str` reads from a text, if
/// it reads one.
pub uninterp spec fn uuid_parsed(text: Seq<char>) -> Option<u128>;

/// Whether the bits are marked as those of a random identifier: the four
/// bits of the version make 4, and the two bits of the variant make 2.
pub open spec fn is_random(id: u128) -> bool {
    (id / 0x1000_0000_0000_0000_0000) % 16 == 4 && (id / 0x4000_0000_0000_0000) % 4 == 2
}

/// Whether the bits are marked as those of a random identifier.
pub fn marked_random(id: u128) -> (marked: bool)
    ensures
        marked == is_random(id),
{
    (id / 0x1000_0000_0000_0000_0000) % 16 == 4 && (id / 0x4000_0000_0000_0000) % 4 == 2
}

/// `Uuid::new_v4`: the bits of a random identifier, marked as such. Nothing
/// else is known of them beforehand, and two calls may differ. `uuid` gives
/// up where the system has no random numbers to offer.
#[verifier::external_body]
pub(crate) fn fresh() -> (id: u128)
    ensures
        is_random(id),
{
    Uuid::new_v4().as_u128()
}

/// `Uuid`'s `to_string`: the lower-case hyphenated text of the identifier
/// with the given bits, which `Uuid::parse_str` reads back as the same
/// identifier.
#[verifier::external_body]
pub(crate) fn print(id: u128) -> (text: String)
    ensures
        text@ == uuid_text(id),
        uuid_parsed(text@) == Some(id),
{
    Uuid::from_u128(id).to_string()
}

/// `Uuid::parse_str`: the bits of the identifier that the text spells, or
/// the parser's error.
#[verifier::external_body]
pub(crate) fn parse(text: &str) -> (outcome: Result<u128, Error>)
    ensures
        match outcome {
            Ok(id) => uuid_parsed(text@) == Some(id),
            Err(_) => uuid_parsed(text@) is None,
        },
{
    Uuid::parse_str(text).map(|id| id.as_u128())
}

} // verus!
