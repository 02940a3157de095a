use vstd::prelude::*;
use vstd::string::StringExecFns;

use crate::error::{BridgeError, ErrorView};
use crate::text::{contains_text, seq_contains};

verus! {

/// Characters of `s` mapped to lower case as Rust's `str::to_lowercase` does.
pub uninterp spec fn lower_of(s: Seq<char>) -> Seq<char>;

/// Relies on `str::to_lowercase`: the result depends on the characters alone,
/// and the empty string stays empty.
#[verifier::external_body]
fn lowercase(s: &str) -> (r: String)
    ensures
        r@ == lower_of(s@),
        s@.len() == 0 ==> r@.len() == 0,
{
    s.to_lowercase()
}

/// The error a foreign exception of class `class` with message `message` stands for.
pub open spec fn classification_of(class: Seq<char>, message: Seq<char>) -> ErrorView {
    if seq_contains(class, "SecurityException"@) {
        ErrorView::PermissionDenied(message)
    } else if seq_contains(class, "IllegalArgumentException"@) {
        ErrorView::InvalidInput(message)
    } else {
        ErrorView::Other(class + ": "@ + message)
    }
}

/// Classifies a caught foreign exception by its class name and message.
///
/// A class name holding `SecurityException` gives `PermissionDenied`, one
/// holding `IllegalArgumentException` gives `InvalidInput`, both with the
/// message; any other gives `Other` with `"<class>: <message>"`.
pub fn classify_exception(class: &str, message: &str) -> (e: BridgeError)
    ensures
        e@ == classification_of(class@, message@),
{
    if contains_text(class, "SecurityException") {
        BridgeError::PermissionDenied(String::from_str(message))
    } else if contains_text(class, "IllegalArgumentException") {
        BridgeError::InvalidInput(String::from_str(message))
    } else {
        let summary = String::from_str(class).concat(": ").concat(message);
        BridgeError::Other(summary)
    }
}

/// Whether an exception message, already in lower case, reports that the
/// foreign socket was closed.
pub fn lowered_reports_closure(lowered: &str) -> (r: bool)
    ensures
        r == seq_contains(lowered@, "closed"@),
{
    contains_text(lowered, "closed")
}

/// Whether an exception message reports that the foreign socket was closed:
/// it holds `closed` in any letter case.
pub fn reports_closure(message: &str) -> (r: bool)
    ensures
        r == seq_contains(lower_of(message@), "closed"@),
{
    let lowered = lowercase(message);
    lowered_reports_closure(lowered.as_str())
}

} // verus!
