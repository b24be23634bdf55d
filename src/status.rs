//! HTTP status codes as the engine shows them in diagnostics.
use vstd::prelude::*;
use vstd::string::*;
use crate::text::{decimal, decimal_text};

verus! {

/// The reason phrase that the HTTP registry gives a status code, where it gives one.
pub uninterp spec fn reason_phrase(code: u16) -> Option<Seq<char>>;

/// Relies on `StatusCode::canonical_reason` of the `http` types that hyper
/// re-exports; a code that `StatusCode::from_u16` refuses has no phrase.
#[verifier::external_body]
fn canonical_reason(code: u16) -> (r: Option<String>)
    ensures
        match r {
            Some(p) => reason_phrase(code) == Some(p@),
            None => reason_phrase(code) is None,
        },
{
    match hyper::StatusCode::from_u16(code) {
        Ok(status) => status.canonical_reason().map(String::from),
        Err(_) => None,
    }
}

/// A status code as a status line shows it: the number, a space, and the
/// reason phrase (or `<unknown status code>`).
pub open spec fn status_text(code: u16) -> Seq<char> {
    decimal(code as nat) + " "@ + match reason_phrase(code) {
        Some(p) => p,
        None => "<unknown status code>"@,
    }
}

/// The text of `status_text`.
pub fn show_status(code: u16) -> (r: String)
    ensures
        r@ == status_text(code),
{
    let number = decimal_text(code).concat(" ");
    match canonical_reason(code) {
        Some(p) => number.concat(p.as_str()),
        None => number.concat("<unknown status code>"),
    }
}

} // verus!
