//! HTTP status codes.

use vstd::prelude::*;
use crate::text::{decimal, u64_to_string};

verus! {

/// An HTTP status code, one of those that the framework's HTTP layer knows. (The `200` code
/// is spelled `OK`.)
#[allow(non_camel_case_types)]
#[derive(Clone, Copy, Debug, PartialEq, Eq, Hash, Structural)]
pub enum StatusCode {
    Continue,
    SwitchingProtocols,
    EarlyHints,
    OK,
    Created,
    Accepted,
    NonAuthoritativeInformation,
    NoContent,
    ResetContent,
    PartialContent,
    MultiStatus,
    ImUsed,
    MultipleChoice,
    MovedPermanently,
    Found,
    SeeOther,
    NotModified,
    TemporaryRedirect,
    PermanentRedirect,
    BadRequest,
    Unauthorized,
    PaymentRequired,
    Forbidden,
    NotFound,
    MethodNotAllowed,
    NotAcceptable,
    ProxyAuthenticationRequired,
    RequestTimeout,
    Conflict,
    Gone,
    LengthRequired,
    PreconditionFailed,
    PayloadTooLarge,
    UriTooLong,
    UnsupportedMediaType,
    RequestedRangeNotSatisfiable,
    ExpectationFailed,
    ImATeapot,
    MisdirectedRequest,
    UnprocessableEntity,
    Locked,
    FailedDependency,
    TooEarly,
    UpgradeRequired,
    PreconditionRequired,
    TooManyRequests,
    RequestHeaderFieldsTooLarge,
    UnavailableForLegalReasons,
    InternalServerError,
    NotImplemented,
    BadGateway,
    ServiceUnavailable,
    GatewayTimeout,
    HttpVersionNotSupported,
    VariantAlsoNegotiates,
    InsufficientStorage,
    LoopDetected,
    NotExtended,
    NetworkAuthenticationRequired,
}

/// The error for a number that is not a known status code.
#[derive(Clone, Copy, Debug, PartialEq, Eq, Structural)]
pub struct OutOfRangeError;

impl OutOfRangeError {
    /// The text of this error.
    pub fn message(&self) -> (r: String)
        ensures
            r@ == "status code out of range"@,
    {
        "status code out of range".to_string()
    }
}

/// The reason phrase that the HTTP layer gives for the status code with this number.
pub uninterp spec fn canonical_reason_of(code: u16) -> Seq<char>;

/// Calls `http_types::StatusCode::canonical_reason` on the status code with this number. The
/// phrase is a fixed table in that crate; the contract only names it.
#[verifier::external_body]
fn http_canonical_reason(code: u16) -> (r: &'static str)
    requires
        status_from_code(code) is Some,
    ensures
        r@ == canonical_reason_of(code),
{
    http_types::StatusCode::try_from(code).unwrap().canonical_reason()
}

/// The status code with the given number, if there is one.
pub open spec fn status_from_code(code: u16) -> Option<StatusCode> {
    match code {
        100 => Some(StatusCode::Continue),
        101 => Some(StatusCode::SwitchingProtocols),
        103 => Some(StatusCode::EarlyHints),
        200 => Some(StatusCode::OK),
        201 => Some(StatusCode::Created),
        202 => Some(StatusCode::Accepted),
        203 => Some(StatusCode::NonAuthoritativeInformation),
        204 => Some(StatusCode::NoContent),
        205 => Some(StatusCode::ResetContent),
        206 => Some(StatusCode::PartialContent),
        207 => Some(StatusCode::MultiStatus),
        226 => Some(StatusCode::ImUsed),
        300 => Some(StatusCode::MultipleChoice),
        301 => Some(StatusCode::MovedPermanently),
        302 => Some(StatusCode::Found),
        303 => Some(StatusCode::SeeOther),
        304 => Some(StatusCode::NotModified),
        307 => Some(StatusCode::TemporaryRedirect),
        308 => Some(StatusCode::PermanentRedirect),
        400 => Some(StatusCode::BadRequest),
        401 => Some(StatusCode::Unauthorized),
        402 => Some(StatusCode::PaymentRequired),
        403 => Some(StatusCode::Forbidden),
        404 => Some(StatusCode::NotFound),
        405 => Some(StatusCode::MethodNotAllowed),
        406 => Some(StatusCode::NotAcceptable),
        407 => Some(StatusCode::ProxyAuthenticationRequired),
        408 => Some(StatusCode::RequestTimeout),
        409 => Some(StatusCode::Conflict),
        410 => Some(StatusCode::Gone),
        411 => Some(StatusCode::LengthRequired),
        412 => Some(StatusCode::PreconditionFailed),
        413 => Some(StatusCode::PayloadTooLarge),
        414 => Some(StatusCode::UriTooLong),
        415 => Some(StatusCode::UnsupportedMediaType),
        416 => Some(StatusCode::RequestedRangeNotSatisfiable),
        417 => Some(StatusCode::ExpectationFailed),
        418 => Some(StatusCode::ImATeapot),
        421 => Some(StatusCode::MisdirectedRequest),
        422 => Some(StatusCode::UnprocessableEntity),
        423 => Some(StatusCode::Locked),
        424 => Some(StatusCode::FailedDependency),
        425 => Some(StatusCode::TooEarly),
        426 => Some(StatusCode::UpgradeRequired),
        428 => Some(StatusCode::PreconditionRequired),
        429 => Some(StatusCode::TooManyRequests),
        431 => Some(StatusCode::RequestHeaderFieldsTooLarge),
        451 => Some(StatusCode::UnavailableForLegalReasons),
        500 => Some(StatusCode::InternalServerError),
        501 => Some(StatusCode::NotImplemented),
        502 => Some(StatusCode::BadGateway),
        503 => Some(StatusCode::ServiceUnavailable),
        504 => Some(StatusCode::GatewayTimeout),
        505 => Some(StatusCode::HttpVersionNotSupported),
        506 => Some(StatusCode::VariantAlsoNegotiates),
        507 => Some(StatusCode::InsufficientStorage),
        508 => Some(StatusCode::LoopDetected),
        510 => Some(StatusCode::NotExtended),
        511 => Some(StatusCode::NetworkAuthenticationRequired),
        _ => None,
    }
}

impl StatusCode {
    /// The number of this status code.
    pub open spec fn spec_code(self) -> u16 {
        match self {
            StatusCode::Continue => 100,
            StatusCode::SwitchingProtocols => 101,
            StatusCode::EarlyHints => 103,
            StatusCode::OK => 200,
            StatusCode::Created => 201,
            StatusCode::Accepted => 202,
            StatusCode::NonAuthoritativeInformation => 203,
            StatusCode::NoContent => 204,
            StatusCode::ResetContent => 205,
            StatusCode::PartialContent => 206,
            StatusCode::MultiStatus => 207,
            StatusCode::ImUsed => 226,
            StatusCode::MultipleChoice => 300,
            StatusCode::MovedPermanently => 301,
            StatusCode::Found => 302,
            StatusCode::SeeOther => 303,
            StatusCode::NotModified => 304,
            StatusCode::TemporaryRedirect => 307,
            StatusCode::PermanentRedirect => 308,
            StatusCode::BadRequest => 400,
            StatusCode::Unauthorized => 401,
            StatusCode::PaymentRequired => 402,
            StatusCode::Forbidden => 403,
            StatusCode::NotFound => 404,
            StatusCode::MethodNotAllowed => 405,
            StatusCode::NotAcceptable => 406,
            StatusCode::ProxyAuthenticationRequired => 407,
            StatusCode::RequestTimeout => 408,
            StatusCode::Conflict => 409,
            StatusCode::Gone => 410,
            StatusCode::LengthRequired => 411,
            StatusCode::PreconditionFailed => 412,
            StatusCode::PayloadTooLarge => 413,
            StatusCode::UriTooLong => 414,
            StatusCode::UnsupportedMediaType => 415,
            StatusCode::RequestedRangeNotSatisfiable => 416,
            StatusCode::ExpectationFailed => 417,
            StatusCode::ImATeapot => 418,
            StatusCode::MisdirectedRequest => 421,
            StatusCode::UnprocessableEntity => 422,
            StatusCode::Locked => 423,
            StatusCode::FailedDependency => 424,
            StatusCode::TooEarly => 425,
            StatusCode::UpgradeRequired => 426,
            StatusCode::PreconditionRequired => 428,
            StatusCode::TooManyRequests => 429,
            StatusCode::RequestHeaderFieldsTooLarge => 431,
            StatusCode::UnavailableForLegalReasons => 451,
            StatusCode::InternalServerError => 500,
            StatusCode::NotImplemented => 501,
            StatusCode::BadGateway => 502,
            StatusCode::ServiceUnavailable => 503,
            StatusCode::GatewayTimeout => 504,
            StatusCode::HttpVersionNotSupported => 505,
            StatusCode::VariantAlsoNegotiates => 506,
            StatusCode::InsufficientStorage => 507,
            StatusCode::LoopDetected => 508,
            StatusCode::NotExtended => 510,
            StatusCode::NetworkAuthenticationRequired => 511,
        }
    }

    /// The number of this status code.
    pub fn code(self) -> (r: u16)
        ensures
            r == self.spec_code(),
    {
        match self {
            StatusCode::Continue => 100,
            StatusCode::SwitchingProtocols => 101,
            StatusCode::EarlyHints => 103,
            StatusCode::OK => 200,
            StatusCode::Created => 201,
            StatusCode::Accepted => 202,
            StatusCode::NonAuthoritativeInformation => 203,
            StatusCode::NoContent => 204,
            StatusCode::ResetContent => 205,
            StatusCode::PartialContent => 206,
            StatusCode::MultiStatus => 207,
            StatusCode::ImUsed => 226,
            StatusCode::MultipleChoice => 300,
            StatusCode::MovedPermanently => 301,
            StatusCode::Found => 302,
            StatusCode::SeeOther => 303,
            StatusCode::NotModified => 304,
            StatusCode::TemporaryRedirect => 307,
            StatusCode::PermanentRedirect => 308,
            StatusCode::BadRequest => 400,
            StatusCode::Unauthorized => 401,
            StatusCode::PaymentRequired => 402,
            StatusCode::Forbidden => 403,
            StatusCode::NotFound => 404,
            StatusCode::MethodNotAllowed => 405,
            StatusCode::NotAcceptable => 406,
            StatusCode::ProxyAuthenticationRequired => 407,
            StatusCode::RequestTimeout => 408,
            StatusCode::Conflict => 409,
            StatusCode::Gone => 410,
            StatusCode::LengthRequired => 411,
            StatusCode::PreconditionFailed => 412,
            StatusCode::PayloadTooLarge => 413,
            StatusCode::UriTooLong => 414,
            StatusCode::UnsupportedMediaType => 415,
            StatusCode::RequestedRangeNotSatisfiable => 416,
            StatusCode::ExpectationFailed => 417,
            StatusCode::ImATeapot => 418,
            StatusCode::MisdirectedRequest => 421,
            StatusCode::UnprocessableEntity => 422,
            StatusCode::Locked => 423,
            StatusCode::FailedDependency => 424,
            StatusCode::TooEarly => 425,
            StatusCode::UpgradeRequired => 426,
            StatusCode::PreconditionRequired => 428,
            StatusCode::TooManyRequests => 429,
            StatusCode::RequestHeaderFieldsTooLarge => 431,
            StatusCode::UnavailableForLegalReasons => 451,
            StatusCode::InternalServerError => 500,
            StatusCode::NotImplemented => 501,
            StatusCode::BadGateway => 502,
            StatusCode::ServiceUnavailable => 503,
            StatusCode::GatewayTimeout => 504,
            StatusCode::HttpVersionNotSupported => 505,
            StatusCode::VariantAlsoNegotiates => 506,
            StatusCode::InsufficientStorage => 507,
            StatusCode::LoopDetected => 508,
            StatusCode::NotExtended => 510,
            StatusCode::NetworkAuthenticationRequired => 511,
        }
    }

    /// The status code with the given number.
    pub fn try_from(code: u16) -> (r: Result<StatusCode, OutOfRangeError>)
        ensures
            match status_from_code(code) {
                Some(s) => r == Ok::<StatusCode, OutOfRangeError>(s),
                None => r is Err,
            },
    {
        match code {
            100 => Ok(StatusCode::Continue),
            101 => Ok(StatusCode::SwitchingProtocols),
            103 => Ok(StatusCode::EarlyHints),
            200 => Ok(StatusCode::OK),
            201 => Ok(StatusCode::Created),
            202 => Ok(StatusCode::Accepted),
            203 => Ok(StatusCode::NonAuthoritativeInformation),
            204 => Ok(StatusCode::NoContent),
            205 => Ok(StatusCode::ResetContent),
            206 => Ok(StatusCode::PartialContent),
            207 => Ok(StatusCode::MultiStatus),
            226 => Ok(StatusCode::ImUsed),
            300 => Ok(StatusCode::MultipleChoice),
            301 => Ok(StatusCode::MovedPermanently),
            302 => Ok(StatusCode::Found),
            303 => Ok(StatusCode::SeeOther),
            304 => Ok(StatusCode::NotModified),
            307 => Ok(StatusCode::TemporaryRedirect),
            308 => Ok(StatusCode::PermanentRedirect),
            400 => Ok(StatusCode::BadRequest),
            401 => Ok(StatusCode::Unauthorized),
            402 => Ok(StatusCode::PaymentRequired),
            403 => Ok(StatusCode::Forbidden),
            404 => Ok(StatusCode::NotFound),
            405 => Ok(StatusCode::MethodNotAllowed),
            406 => Ok(StatusCode::NotAcceptable),
            407 => Ok(StatusCode::ProxyAuthenticationRequired),
            408 => Ok(StatusCode::RequestTimeout),
            409 => Ok(StatusCode::Conflict),
            410 => Ok(StatusCode::Gone),
            411 => Ok(StatusCode::LengthRequired),
            412 => Ok(StatusCode::PreconditionFailed),
            413 => Ok(StatusCode::PayloadTooLarge),
            414 => Ok(StatusCode::UriTooLong),
            415 => Ok(StatusCode::UnsupportedMediaType),
            416 => Ok(StatusCode::RequestedRangeNotSatisfiable),
            417 => Ok(StatusCode::ExpectationFailed),
            418 => Ok(StatusCode::ImATeapot),
            421 => Ok(StatusCode::MisdirectedRequest),
            422 => Ok(StatusCode::UnprocessableEntity),
            423 => Ok(StatusCode::Locked),
            424 => Ok(StatusCode::FailedDependency),
            425 => Ok(StatusCode::TooEarly),
            426 => Ok(StatusCode::UpgradeRequired),
            428 => Ok(StatusCode::PreconditionRequired),
            429 => Ok(StatusCode::TooManyRequests),
            431 => Ok(StatusCode::RequestHeaderFieldsTooLarge),
            451 => Ok(StatusCode::UnavailableForLegalReasons),
            500 => Ok(StatusCode::InternalServerError),
            501 => Ok(StatusCode::NotImplemented),
            502 => Ok(StatusCode::BadGateway),
            503 => Ok(StatusCode::ServiceUnavailable),
            504 => Ok(StatusCode::GatewayTimeout),
            505 => Ok(StatusCode::HttpVersionNotSupported),
            506 => Ok(StatusCode::VariantAlsoNegotiates),
            507 => Ok(StatusCode::InsufficientStorage),
            508 => Ok(StatusCode::LoopDetected),
            510 => Ok(StatusCode::NotExtended),
            511 => Ok(StatusCode::NetworkAuthenticationRequired),
            _ => Err(OutOfRangeError),
        }
    }

    /// The reason phrase that the HTTP layer gives for this status code.
    pub fn canonical_reason(self) -> (r: &'static str)
        ensures
            r@ == canonical_reason_of(self.spec_code()),
    {
        proof {
            law_status_code_round_trip(self);
        }
        http_canonical_reason(self.code())
    }

    /// The decimal text of the number of this status code.
    pub fn to_string(self) -> (r: String)
        ensures
            r@ == decimal(self.spec_code() as nat),
    {
        u64_to_string(self.code() as u64)
    }

    /// The code is in the `1xx` range: the request was received and processing continues.
    pub fn is_informational(self) -> (r: bool)
        ensures
            r == (100 <= self.spec_code() < 200),
    {
        let c = self.code();
        100 <= c && c < 200
    }

    /// The code is in the `2xx` range: the request was received, understood and accepted.
    pub fn is_success(self) -> (r: bool)
        ensures
            r == (200 <= self.spec_code() < 300),
    {
        let c = self.code();
        200 <= c && c < 300
    }

    /// The code is in the `3xx` range: further action is needed to complete the request.
    pub fn is_redirection(self) -> (r: bool)
        ensures
            r == (300 <= self.spec_code() < 400),
    {
        let c = self.code();
        300 <= c && c < 400
    }

    /// The code is in the `4xx` range: the request has bad syntax or cannot be fulfilled.
    pub fn is_client_error(self) -> (r: bool)
        ensures
            r == (400 <= self.spec_code() < 500),
    {
        let c = self.code();
        400 <= c && c < 500
    }

    /// The code is in the `5xx` range: the server failed to fulfil a valid request.
    pub fn is_server_error(self) -> (r: bool)
        ensures
            r == (500 <= self.spec_code() < 600),
    {
        let c = self.code();
        500 <= c && c < 600
    }
}

/// A status code converts to its number and back.
pub proof fn law_status_code_round_trip(s: StatusCode)
    ensures
        status_from_code(s.spec_code()) == Some(s),
{
    match s {
        StatusCode::Continue => {},
        StatusCode::SwitchingProtocols => {},
        StatusCode::EarlyHints => {},
        StatusCode::OK => {},
        StatusCode::Created => {},
        StatusCode::Accepted => {},
        StatusCode::NonAuthoritativeInformation => {},
        StatusCode::NoContent => {},
        StatusCode::ResetContent => {},
        StatusCode::PartialContent => {},
        StatusCode::MultiStatus => {},
        StatusCode::ImUsed => {},
        StatusCode::MultipleChoice => {},
        StatusCode::MovedPermanently => {},
        StatusCode::Found => {},
        StatusCode::SeeOther => {},
        StatusCode::NotModified => {},
        StatusCode::TemporaryRedirect => {},
        StatusCode::PermanentRedirect => {},
        StatusCode::BadRequest => {},
        StatusCode::Unauthorized => {},
        StatusCode::PaymentRequired => {},
        StatusCode::Forbidden => {},
        StatusCode::NotFound => {},
        StatusCode::MethodNotAllowed => {},
        StatusCode::NotAcceptable => {},
        StatusCode::ProxyAuthenticationRequired => {},
        StatusCode::RequestTimeout => {},
        StatusCode::Conflict => {},
        StatusCode::Gone => {},
        StatusCode::LengthRequired => {},
        StatusCode::PreconditionFailed => {},
        StatusCode::PayloadTooLarge => {},
        StatusCode::UriTooLong => {},
        StatusCode::UnsupportedMediaType => {},
        StatusCode::RequestedRangeNotSatisfiable => {},
        StatusCode::ExpectationFailed => {},
        StatusCode::ImATeapot => {},
        StatusCode::MisdirectedRequest => {},
        StatusCode::UnprocessableEntity => {},
        StatusCode::Locked => {},
        StatusCode::FailedDependency => {},
        StatusCode::TooEarly => {},
        StatusCode::UpgradeRequired => {},
        StatusCode::PreconditionRequired => {},
        StatusCode::TooManyRequests => {},
        StatusCode::RequestHeaderFieldsTooLarge => {},
        StatusCode::UnavailableForLegalReasons => {},
        StatusCode::InternalServerError => {},
        StatusCode::NotImplemented => {},
        StatusCode::BadGateway => {},
        StatusCode::ServiceUnavailable => {},
        StatusCode::GatewayTimeout => {},
        StatusCode::HttpVersionNotSupported => {},
        StatusCode::VariantAlsoNegotiates => {},
        StatusCode::InsufficientStorage => {},
        StatusCode::LoopDetected => {},
        StatusCode::NotExtended => {},
        StatusCode::NetworkAuthenticationRequired => {},
    }
}

/// A number that names a status code is that code's number.
pub proof fn law_status_code_number(code: u16)
    ensures
        status_from_code(code) matches Some(s) ==> s.spec_code() == code,
{
}

} // verus!
