//! Status codes as plain numbers, and the line of text that names one.

use http::StatusCode;
use vstd::prelude::*;

verus! {

/// The line that names a status code: the code in decimal, a space, and the
/// reason phrase on record for it.
pub uninterp spec fn status_line(code: u16) -> Seq<char>;

/// A number that can be an HTTP status code: three digits.
pub open spec fn is_status_code(code: u16) -> bool {
    100 <= code <= 999
}

/// A status in the range that reports success.
pub open spec fn is_success(code: u16) -> bool {
    200 <= code < 300
}

/// `StatusCode::from_u16`, then the `Display` form of the code: the line that
/// names the code. Trusted; the reason phrases are the `http` crate's table.
/// A number that is no status code is left out, for `from_u16` refuses it.
#[verifier::external_body]
pub(crate) fn status_text(code: u16) -> (line: String)
    requires
        is_status_code(code),
    ensures
        line@ == status_line(code),
{
    match StatusCode::from_u16(code) {
        Ok(status) => status.to_string(),
        Err(_) => String::new(),
    }
}

/// Whether `code` reports success.
pub fn status_is_success(code: u16) -> (r: bool)
    ensures
        r == is_success(code),
{
    200 <= code && code < 300
}

} // verus!
