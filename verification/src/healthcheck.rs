//! Health checks of API modules.

use vstd::prelude::*;
use vstd::string::*;
use crate::status::StatusCode;
use crate::text::decimal;
use crate::request::{best_type, negotiate_format, same_mime, typed_types, Accept, BodyFormat, RequestError};

verus! {

/// A response to a healthcheck endpoint: a module is healthy when its status is `200 OK`.
pub trait HealthCheck {
    /// The status of this health check.
    fn status(&self) -> StatusCode;
}

/// Common health statuses of an application.
#[derive(Clone, Copy, Debug, PartialEq, Eq, Structural)]
pub enum HealthStatus {
    Initializing,
    Available,
    Unavailabale,
    TemporarilyUnavailable,
    Unhealthy,
    ShuttingDown,
}

/// The status code of a health status: healthy in the normal states (even while starting up or
/// shutting down gracefully, so that monitors do not kill the service), unavailable otherwise.
pub open spec fn health_status_code(h: HealthStatus) -> StatusCode {
    match h {
        HealthStatus::Available | HealthStatus::Initializing | HealthStatus::ShuttingDown => StatusCode::OK,
        _ => StatusCode::ServiceUnavailable,
    }
}

impl HealthStatus {
    /// The status code of this health status.
    pub fn status_code(&self) -> (r: StatusCode)
        ensures
            r == health_status_code(*self),
    {
        match self {
            HealthStatus::Available | HealthStatus::Initializing | HealthStatus::ShuttingDown => StatusCode::OK,
            _ => StatusCode::ServiceUnavailable,
        }
    }

    /// The name of this status as it is serialized (in snake case).
    pub fn name(&self) -> (r: &'static str)
        ensures
            r@ == match *self {
                HealthStatus::Initializing => "initializing"@,
                HealthStatus::Available => "available"@,
                HealthStatus::Unavailabale => "unavailabale"@,
                HealthStatus::TemporarilyUnavailable => "temporarily_unavailable"@,
                HealthStatus::Unhealthy => "unhealthy"@,
                HealthStatus::ShuttingDown => "shutting_down"@,
            },
    {
        match self {
            HealthStatus::Initializing => "initializing",
            HealthStatus::Available => "available",
            HealthStatus::Unavailabale => "unavailabale",
            HealthStatus::TemporarilyUnavailable => "temporarily_unavailable",
            HealthStatus::Unhealthy => "unhealthy",
            HealthStatus::ShuttingDown => "shutting_down",
        }
    }
}

impl Default for HealthStatus {
    fn default() -> (r: Self)
        ensures
            r == HealthStatus::Available,
    {
        HealthStatus::Available
    }
}

impl HealthCheck for HealthStatus {
    fn status(&self) -> (r: StatusCode)
        ensures
            r == health_status_code(*self),
    {
        self.status_code()
    }
}

/// What a health check answers when its status cannot be serialized: the status code and the
/// error, in plain text.
pub fn health_error_message(status: StatusCode, err: &str) -> (r: String)
    ensures
        r@ == "health status was "@ + decimal(status.spec_code() as nat)
            + ", but there was an error generating the response: "@ + err@,
{
    let mut r = "health status was ".to_string();
    r.append(status.to_string().as_str());
    r.append(", but there was an error generating the response: ");
    r.append(err);
    r
}

/// The serialization of the answer to a health check: what the request's `Accept` header asks
/// for, as for any typed response; where the header does not read, the check still answers,
/// as to a request that accepts anything (in JSON).
pub fn health_format(accept: &Result<Accept, RequestError>) -> (r: Result<BodyFormat, RequestError>)
    ensures
        match accept {
            Ok(a) => exists|ms: Seq<crate::request::Mime>|
                typed_types(ms) && match best_type(a.proposals@, a.wildcard, ms) {
                    Some(m) => r == Ok::<BodyFormat, RequestError>(
                        if same_mime(m, ms[0]) {
                            BodyFormat::Json
                        } else {
                            BodyFormat::Binary
                        },
                    ),
                    None => r == Err::<BodyFormat, RequestError>(RequestError::UnsupportedContentType),
                },
            Err(_) => r == Ok::<BodyFormat, RequestError>(BodyFormat::Json),
        },
{
    match accept {
        Ok(a) => negotiate_format(a),
        Err(_) => Ok(BodyFormat::Json),
    }
}

} // verus!
