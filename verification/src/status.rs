//! The status code of an HTTP reply.

use crate::text::decimal;
use vstd::prelude::*;

verus! {

/// The status code of an HTTP reply: a number from 100 to 999.
#[derive(Debug, Clone, Copy, PartialEq, Eq)]
pub struct Status {
    code: u16,
}

impl View for Status {
    type V = u16;

    closed spec fn view(&self) -> u16 {
        self.code
    }
}

/// Whether a status code is one of the success codes.
pub open spec fn is_success_code(code: u16) -> bool {
    200 <= code < 300
}

/// The status code by which the upstream says that the service token is stale.
pub const UNAUTHORIZED: u16 = 401;

impl Status {
    #[verifier::type_invariant]
    spec fn well_formed(self) -> bool {
        100 <= self.code <= 999
    }

    /// The status with this code, where the code is one of three digits.
    pub fn from_u16(code: u16) -> (status: Option<Status>)
        ensures
            status is Some <==> 100 <= code <= 999,
            status matches Some(status) ==> status@ == code,
    {
        if 100 <= code && code <= 999 {
            Some(Status { code })
        } else {
            None
        }
    }

    /// The status code as a number.
    pub fn as_u16(&self) -> (code: u16)
        ensures
            code == self@,
            100 <= code <= 999,
    {
        proof {
            use_type_invariant(self);
        }
        self.code
    }

    /// Whether the status is within 200 to 299.
    pub fn is_success(&self) -> (success: bool)
        ensures
            success == is_success_code(self@),
    {
        200 <= self.code && self.code < 300
    }

    /// Whether the upstream refused the service token.
    pub fn is_unauthorized(&self) -> (unauthorized: bool)
        ensures
            unauthorized == (self@ == UNAUTHORIZED),
    {
        self.code == UNAUTHORIZED
    }

    /// The status code with its canonical reason, as in `404 Not Found`.
    pub fn describe(&self) -> (text: String)
        ensures
            text@ == status_text(self@),
            (decimal(self@ as nat) + seq![' ']).is_prefix_of(text@),
    {
        proof {
            use_type_invariant(self);
        }
        display_status(self.code)
    }
}

/// What `http::StatusCode` displays for a status code: the number, a space and
/// the canonical reason.
pub uninterp spec fn status_text(code: u16) -> Seq<char>;

/// Calls `reqwest::StatusCode::from_u16` and its `Display`. The text depends on
/// the code alone and starts with the code's decimal numeral and a space; which
/// reason follows is left to the name [`status_text`]. `from_u16` refuses codes
/// outside 100 to 999, so they are excluded.
#[verifier::external_body]
fn display_status(code: u16) -> (text: String)
    requires
        100 <= code <= 999,
    ensures
        text@ == status_text(code),
        (decimal(code as nat) + seq![' ']).is_prefix_of(text@),
{
    reqwest::StatusCode::from_u16(code).unwrap().to_string()
}

/// The success codes are those from 200 to 299, and the refusal of the service token is none
/// of them.
pub proof fn success_codes_start_with_two(code: u16)
    ensures
        is_success_code(code) <==> code / 100 == 2,
        code == UNAUTHORIZED <==> code == 401,
        code == UNAUTHORIZED ==> !is_success_code(code),
{
}

} // verus!
