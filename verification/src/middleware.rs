//! What the app's middleware decides about a request: whether a request to a metrics route
//! asks for the metrics.

use vstd::prelude::*;
use vstd::string::*;
use crate::method::Method;
use crate::request::{best_response_type, best_type, same_mime, Accept, Mime, RequestError};

verus! {

/// The media types that a path with a metrics route can answer with, in order of preference:
/// plain text (the metrics), JSON and binary (the other routes).
pub open spec fn metrics_types(ms: Seq<Mime>) -> bool {
    &&& ms.len() == 3
    &&& ms[0].text@ == "text/plain;charset=utf-8"@ && ms[0].basetype@ == "text"@
        && ms[0].subtype@ == "plain"@
    &&& ms[1].text@ == "application/json"@ && ms[1].basetype@ == "application"@
        && ms[1].subtype@ == "json"@
    &&& ms[2].text@ == "application/octet-stream"@ && ms[2].basetype@ == "application"@
        && ms[2].subtype@ == "octet-stream"@
}

/// The middleware of a metrics route: the route, the API and the version of the API it
/// belongs to.
#[derive(Clone, Debug)]
pub struct MetricsMiddleware {
    pub route: String,
    pub api: String,
    pub api_version: u64,
}

impl MetricsMiddleware {
    /// The middleware of a metrics route.
    pub fn new(route: String, api: String, api_version: u64) -> (r: MetricsMiddleware)
        ensures
            r.route == route,
            r.api == api,
            r.api_version == api_version,
    {
        MetricsMiddleware { route, api, api_version }
    }

    /// Whether a request asks for the metrics: a `GET` request whose `Accept` header prefers
    /// plain text to JSON and binary. Other requests go on to the other routes of the path
    /// (whatever their `Accept` header); a `GET` request whose `Accept` header does not read
    /// fails with that error.
    pub fn is_metrics_request(&self, method: &Method, accept: Result<Accept, RequestError>) -> (r: Result<bool, RequestError>)
        ensures
            if method@ != "GET"@ || !(*method is Http) {
                r == Ok::<bool, RequestError>(false)
            } else {
                match accept {
                    Err(e) => r == Err::<bool, RequestError>(e),
                    Ok(a) => exists|ms: Seq<Mime>|
                        metrics_types(ms) && match best_type(a.proposals@, a.wildcard, ms) {
                            Some(m) => r == Ok::<bool, RequestError>(same_mime(m, ms[0])),
                            None => r == Err::<bool, RequestError>(RequestError::UnsupportedContentType),
                        },
                }
            },
    {
        proof {
            reveal_strlit("GET");
        }
        let is_get = match method {
            Method::Http(m) => crate::text::str_eq(m.name(), "GET"),
            _ => false,
        };
        if !is_get {
            return Ok(false);
        }
        let accept = match accept {
            Ok(a) => a,
            Err(e) => return Err(e),
        };
        let available = vec![Mime::plain(), Mime::json(), Mime::byte_stream()];
        assert(metrics_types(available@));
        match best_response_type(&accept, &available) {
            Ok(m) => Ok(m.same(&available[0])),
            Err(e) => Err(e),
        }
    }
}

} // verus!
