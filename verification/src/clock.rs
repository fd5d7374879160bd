//! Points in time, held as the RFC 3339 text that `chrono` prints for them
//! in UTC.

use chrono::DateTime;
use chrono::ParseError;
use chrono::Utc;
use vstd::prelude::*;

verus! {

#[verifier::external_type_specification]
#[verifier::external_body]
pub struct ExParseError(ParseError);

/// The RFC 3339 text, in UTC, of the instant that `chrono` reads from a
/// text, if it reads one.
pub uninterp spec fn rfc3339_normal(text: Seq<char>) -> Option<Seq<char>>;

/// Whether a text is an instant as `chrono` prints it: it is read back as
/// itself.
pub open spec fn is_instant(text: Seq<char>) -> bool {
    rfc3339_normal(text) == Some(text)
}

/// `Utc::now`, printed by `DateTime::to_rfc3339`: the current instant, which
/// `chrono` reads back as itself. Nothing else is known of it beforehand,
/// and two calls may differ. `chrono` gives up where the system's clock
/// stands before 1970.
#[verifier::external_body]
pub(crate) fn now() -> (text: String)
    ensures
        is_instant(text@),
{
    Utc::now().to_rfc3339()
}

/// `str::parse` for `DateTime<Utc>`, printed by `DateTime::to_rfc3339`: the
/// instant that the text spells, which `chrono` reads back as itself, or the
/// parser's error.
#[verifier::external_body]
pub(crate) fn normalize(text: &str) -> (outcome: Result<String, ParseError>)
    ensures
        match outcome {
            Ok(normal) => rfc3339_normal(text@) == Some(normal@) && is_instant(normal@),
            Err(_) => rfc3339_normal(text@) is None,
        },
{
    text.parse::<DateTime<Utc>>().map(|instant| instant.to_rfc3339())
}

} // verus!
