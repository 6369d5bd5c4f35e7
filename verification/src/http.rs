//! HTTP status codes.

use vstd::prelude::*;

verus! {

/// Limit on one exchange with the registry or the release channel.
pub const HTTP_TIMEOUT_SECS: u64 = 15;

/// The codes that a response can carry.
pub open spec fn is_status(code: u16) -> bool {
    100 <= code <= 999
}

/// The codes that stand for success.
pub open spec fn succeeded(code: u16) -> bool {
    200 <= code < 300
}

pub fn is_success(code: u16) -> (r: bool)
    ensures
        r == succeeded(code),
{
    200 <= code && code < 300
}

/// How `reqwest::StatusCode` writes out a code.
pub uninterp spec fn status_line(code: u16) -> Seq<char>;

/// The `Display` text of `reqwest::StatusCode`: the number and, behind a space,
/// the registered reason phrase or a placeholder. It depends on the code alone.
/// `StatusCode::from_u16` accepts exactly the codes from 100 to 999.
#[verifier::external_body]
pub(crate) fn status_text(code: u16) -> (r: String)
    requires
        is_status(code),
    ensures
        r@ == status_line(code),
{
    reqwest::StatusCode::from_u16(code).expect("a code from 100 to 999").to_string()
}

/// A status is a number of three digits, and success is what begins with a two;
/// an exchange has fifteen seconds.
pub proof fn success_begins_with_a_two(code: u16)
    ensures
        is_status(code) <==> 1 <= code / 100 <= 9,
        succeeded(code) <==> code / 100 == 2,
        HTTP_TIMEOUT_SECS == 15,
{
}

} // verus!
