//! HTTP status codes: which mean success, and how one is shown.

use vstd::prelude::*;
use crate::numeral::decimal_digits;
use crate::numeral::decimal_string;

verus! {

/// A status code from 200 up to 299 means success.
pub open spec fn is_success_code(status: u16) -> bool {
    200 <= status < 300
}

/// Whether `status` means success.
pub fn is_success(status: u16) -> (success: bool)
    ensures
        success == is_success_code(status),
{
    200 <= status && status < 300
}

/// The words that the HTTP client shows after the digits of a status code:
/// the code's standard reason phrase, or a placeholder where it has none.
pub uninterp spec fn status_reason(status: u16) -> Seq<char>;

/// How a status code is shown. A code from 100 up to 999 is shown as the
/// HTTP client shows it: its digits, a space and its reason. Any other
/// number is no status code of HTTP and is shown as its digits alone.
pub open spec fn status_text(status: u16) -> Seq<char> {
    if 100 <= status <= 999 {
        decimal_digits(status as nat) + seq![' '] + status_reason(status)
    } else {
        decimal_digits(status as nat)
    }
}

/// Calls `reqwest::StatusCode::from_u16` and formats the status code with
/// its `Display`. Trusted: there is a status code exactly for the numbers
/// from 100 up to 999, and it is shown as its decimal digits, a space and
/// the words named by [`status_reason`].
#[verifier::external_body]
pub(crate) fn status_line(status: u16) -> (line: Option<String>)
    ensures
        line is Some <==> 100 <= status <= 999,
        line matches Some(text) ==> text@ == decimal_digits(status as nat) + seq![' ']
            + status_reason(status),
{
    reqwest::StatusCode::from_u16(status).ok().map(|code| code.to_string())
}

/// Shows a status code.
pub fn describe_status(status: u16) -> (text: String)
    ensures
        text@ == status_text(status),
{
    match status_line(status) {
        Some(line) => line,
        None => decimal_string(status),
    }
}

} // verus!
