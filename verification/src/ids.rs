//! Identifiers and timestamps, produced by the `uuid` and `chrono` crates.

use vstd::prelude::*;

verus! {

/// The canonical (lower-case, hyphenated) text of the UUID that `text`
/// spells, as `uuid` parses and prints it; `None` when `uuid` rejects it.
pub uninterp spec fn uuid_canonical_text(text: Seq<char>) -> Option<Seq<char>>;

/// Parses `text` with `uuid::Uuid::parse_str` and prints the result with
/// its `Display` impl. The contract claims that the outcome depends on
/// `text` alone, and that the printed text is itself canonical: it parses
/// back to the same UUID, which prints the same. What the outcome is for a
/// given text is left to `uuid`.
#[verifier::external_body]
pub(crate) fn canonical_uuid(text: &str) -> (r: Option<String>)
    ensures
        r is Some == uuid_canonical_text(text@) is Some,
        r is Some ==> r->0@ == uuid_canonical_text(text@)->0,
        r matches Some(c) ==> uuid_canonical_text(c@) == Some(c@),
{
    match uuid::Uuid::parse_str(text) {
        Ok(u) => Some(u.to_string()),
        Err(_) => None,
    }
}

/// A fresh random UUID, printed by `uuid`'s `Display` impl after
/// `uuid::Uuid::new_v4`. Which UUID it is, is random; the contract claims
/// only that the text is canonical UUID text (it parses back to the same
/// UUID, which prints the same).
#[verifier::external_body]
pub(crate) fn new_uuid_string() -> (r: String)
    ensures
        uuid_canonical_text(r@) == Some(r@),
{
    uuid::Uuid::new_v4().to_string()
}

/// The current time in RFC 3339 form, from `chrono::Utc::now` and
/// `DateTime::to_rfc3339`. Nothing is claimed of the value: it is the clock.
#[verifier::external_body]
pub(crate) fn now_rfc3339() -> (r: String) {
    chrono::Utc::now().to_rfc3339()
}

/// The current time in `chrono`'s `Display` form, from `chrono::Utc::now`.
/// Nothing is claimed of the value: it is the clock.
#[verifier::external_body]
pub(crate) fn now_display() -> (r: String) {
    chrono::Utc::now().to_string()
}

} // verus!
