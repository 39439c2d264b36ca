//! HTTP status codes: which ones mean success, and how one is written in a
//! message.

use crate::text::{decimal, decimal_text};
use vstd::prelude::*;

verus! {

/// The standard reason phrase of a status code, such as `Not Found`, where
/// the code has one.
pub uninterp spec fn reason_phrase(status: u16) -> Option<Seq<char>>;

/// A phrase as a sequence of characters.
pub open spec fn phrase_view(phrase: Option<&str>) -> Option<Seq<char>> {
    match phrase {
        Some(text) => Some(text@),
        None => None,
    }
}

/// `StatusCode::canonical_reason` of the `http` crate, which `reqwest` hands
/// on as `reqwest::StatusCode`: the standard reason phrase of the code. The
/// number becomes a code through `StatusCode::from_u16`; a number that is no
/// code has no phrase.
#[verifier::external_body]
fn canonical_reason(status: u16) -> (phrase: Option<&'static str>)
    ensures
        phrase_view(phrase) == reason_phrase(status),
{
    match reqwest::StatusCode::from_u16(status) {
        Ok(code) => code.canonical_reason(),
        Err(_) => None,
    }
}

/// Whether a status is one of success: 200 to 299.
pub open spec fn is_success(status: u16) -> bool {
    200 <= status <= 299
}

/// A status as it stands in a message: the number in decimal, a space, and
/// the reason phrase, or a placeholder where there is none.
pub open spec fn status_line(status: u16, phrase: Option<Seq<char>>) -> Seq<char> {
    decimal(status as nat) + " "@ + match phrase {
        Some(text) => text,
        None => "<unknown status code>"@,
    }
}

/// A status as it stands in a message, with its standard reason phrase.
pub open spec fn status_text(status: u16) -> Seq<char> {
    status_line(status, reason_phrase(status))
}

/// Tells whether a status is one of success.
pub fn status_is_success(status: u16) -> (success: bool)
    ensures
        success == is_success(status),
{
    200 <= status && status <= 299
}

/// Writes a status with the given reason phrase.
pub fn status_line_text(status: u16, phrase: Option<&str>) -> (line: String)
    ensures
        line@ == status_line(status, phrase_view(phrase)),
{
    let number = decimal_text(status).concat(" ");
    match phrase {
        Some(text) => number.concat(text),
        None => number.concat("<unknown status code>"),
    }
}

/// Writes a status with its standard reason phrase.
pub fn status_text_of(status: u16) -> (line: String)
    ensures
        line@ == status_text(status),
{
    status_line_text(status, canonical_reason(status))
}

} // verus!
