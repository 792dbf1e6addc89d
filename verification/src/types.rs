//! The status codes that clients and servers exchange: any code from 100 to 999, as the HTTP
//! library represents them.

use vstd::prelude::*;
use vstd::string::*;
use crate::text::{decimal, u64_to_string};

verus! {

/// The reason phrase that the HTTP library gives for a status code, if it knows one.
pub uninterp spec fn http_reason_of(code: u16) -> Option<Seq<char>>;

/// Calls `http::StatusCode::canonical_reason` (as `reqwest::StatusCode`) on the status code
/// with this number.
#[verifier::external_body]
fn http_reason(code: u16) -> (r: Option<&'static str>)
    requires
        100 <= code <= 999,
    ensures
        match r {
            Some(t) => http_reason_of(code) == Some(t@),
            None => http_reason_of(code) is None,
        },
{
    reqwest::StatusCode::from_u16(code).unwrap().canonical_reason()
}

/// An HTTP status code: a number from 100 to 999.
#[derive(Clone, Copy, Debug, PartialEq, Eq, Hash)]
pub struct StatusCode {
    code: u16,
}

/// The error for a number that is not a status code.
#[derive(Clone, Copy, Debug, PartialEq, Eq, Structural)]
pub struct InvalidStatusCode;

impl StatusCode {
    #[verifier::type_invariant]
    spec fn inv(self) -> bool {
        100 <= self.code <= 999
    }

    /// The number of this status code.
    pub closed spec fn spec_code(self) -> u16 {
        self.code
    }

    /// The status code with the given number, if it is from 100 to 999.
    pub fn try_from(code: u16) -> (r: Result<StatusCode, InvalidStatusCode>)
        ensures
            match r {
                Ok(s) => 100 <= code <= 999 && s.spec_code() == code,
                Err(_) => !(100 <= code <= 999),
            },
    {
        if 100 <= code && code <= 999 {
            Ok(StatusCode { code })
        } else {
            Err(InvalidStatusCode)
        }
    }

    /// The number of this status code.
    pub fn code(self) -> (r: u16)
        ensures
            r == self.spec_code(),
            100 <= r <= 999,
    {
        proof {
            use_type_invariant(&self);
        }
        self.code
    }

    /// The decimal text of the number.
    pub fn to_string(self) -> (r: String)
        ensures
            r@ == decimal(self.spec_code() as nat),
    {
        u64_to_string(self.code() as u64)
    }

    /// The code is in the `1xx` range.
    pub fn is_informational(self) -> (r: bool)
        ensures
            r == (100 <= self.spec_code() < 200),
    {
        let c = self.code();
        c < 200
    }

    /// The code is in the `2xx` range.
    pub fn is_success(self) -> (r: bool)
        ensures
            r == (200 <= self.spec_code() < 300),
    {
        let c = self.code();
        200 <= c && c < 300
    }

    /// The code is in the `3xx` range.
    pub fn is_redirection(self) -> (r: bool)
        ensures
            r == (300 <= self.spec_code() < 400),
    {
        let c = self.code();
        300 <= c && c < 400
    }

    /// The code is in the `4xx` range.
    pub fn is_client_error(self) -> (r: bool)
        ensures
            r == (400 <= self.spec_code() < 500),
    {
        let c = self.code();
        400 <= c && c < 500
    }

    /// The code is in the `5xx` range.
    pub fn is_server_error(self) -> (r: bool)
        ensures
            r == (500 <= self.spec_code() < 600),
    {
        let c = self.code();
        500 <= c && c < 600
    }

    /// The reason phrase of the code, if the HTTP library knows one.
    pub fn canonical_reason(self) -> (r: Option<&'static str>)
        ensures
            match r {
                Some(t) => http_reason_of(self.spec_code()) == Some(t@),
                None => http_reason_of(self.spec_code()) is None,
            },
    {
        http_reason(self.code())
    }
}

/// A status code read back from its number is the same status code.
pub proof fn law_status_number_round_trip(s: StatusCode, t: StatusCode)
    requires
        s.spec_code() == t.spec_code(),
    ensures
        s == t,
{
}

} // verus!
