//! Errors as a server reports them: a status code and a message, and the conversions into
//! such an error from the errors of routes, requests and sockets.

use vstd::prelude::*;
use vstd::string::*;
use crate::method::Method;
use crate::request::RequestError;
use crate::route::RouteError;
use crate::status::StatusCode;
use crate::text::decimal;

verus! {

/// The text of a route error; `app` is the text of an application-specific error.
pub open spec fn route_error_text<E>(e: RouteError<E>, app: Seq<char>) -> Seq<char> {
    match e {
        RouteError::AppSpecific(_) => app,
        RouteError::Request(r) => r.spec_message(),
        RouteError::UnsupportedContentType => "requested content type is not supported"@,
        RouteError::Binary(m) => "error creating byte stream: "@ + m@,
        RouteError::Json(m) => "error creating JSON response: "@ + m@,
        RouteError::Tide(m) => m@,
        RouteError::ExportMetrics(m) => "error exporting metrics: "@ + m@,
        RouteError::IncorrectMethod { expected } => "route may only be called as "@ + expected@,
    }
}

impl<E> RouteError<E> {
    /// The text of this error, given the text of an application-specific error.
    pub fn message(&self, app: &str) -> (r: String)
        ensures
            r@ == route_error_text(*self, app@),
    {
        match self {
            RouteError::AppSpecific(_) => app.to_string(),
            RouteError::Request(e) => e.message(),
            RouteError::UnsupportedContentType => "requested content type is not supported".to_string(),
            RouteError::Binary(m) => {
                let mut r = "error creating byte stream: ".to_string();
                r.append(m.as_str());
                r
            },
            RouteError::Json(m) => {
                let mut r = "error creating JSON response: ".to_string();
                r.append(m.as_str());
                r
            },
            RouteError::Tide(m) => m.clone(),
            RouteError::ExportMetrics(m) => {
                let mut r = "error exporting metrics: ".to_string();
                r.append(m.as_str());
                r
            },
            RouteError::IncorrectMethod { expected } => {
                let mut r = "route may only be called as ".to_string();
                r.append(expected.to_string().as_str());
                r
            },
        }
    }
}

/// An error of a socket handler, or of a socket connection.
#[derive(Debug)]
pub enum SocketError<E> {
    AppSpecific(E),
    Request(RequestError),
    Binary(String),
    Json(String),
    WebSockets(String),
    UnsupportedMessageType,
    Closed,
    IncorrectMethod { expected: Method, actual: Method },
}

/// The text of a socket error; `app` is the text of an application-specific error.
pub open spec fn socket_error_text<E>(e: SocketError<E>, app: Seq<char>) -> Seq<char> {
    match e {
        SocketError::AppSpecific(_) => app,
        SocketError::Request(r) => r.spec_message(),
        SocketError::Binary(m) => "error creating byte stream: "@ + m@,
        SocketError::Json(m) => "error creating JSON message: "@ + m@,
        SocketError::WebSockets(m) => "WebSockets protocol error: "@ + m@,
        SocketError::UnsupportedMessageType => "unsupported content type for WebSockets message"@,
        SocketError::Closed => "connection closed"@,
        SocketError::IncorrectMethod { expected, actual } => "endpoint must be called as "@
            + expected@ + ", but was called as "@ + actual@,
    }
}

impl<E> SocketError<E> {
    /// The status code of this error: `400 Bad Request` for errors in the request,
    /// `500 Internal Server Error` for the others.
    pub open spec fn spec_status(&self) -> StatusCode {
        match self {
            SocketError::Request(_) | SocketError::UnsupportedMessageType
            | SocketError::IncorrectMethod { .. } => StatusCode::BadRequest,
            _ => StatusCode::InternalServerError,
        }
    }

    /// The status code of this error.
    pub fn status(&self) -> (r: StatusCode)
        ensures
            r == self.spec_status(),
    {
        match self {
            SocketError::Request(_) | SocketError::UnsupportedMessageType
            | SocketError::IncorrectMethod { .. } => StatusCode::BadRequest,
            _ => StatusCode::InternalServerError,
        }
    }

    /// The same error, with an application-specific error mapped by `f`.
    pub fn map_app_specific<E2, F: Fn(E) -> E2>(self, f: &F) -> (r: SocketError<E2>)
        requires
            forall|e: E| f.requires((e,)),
        ensures
            match self {
                SocketError::AppSpecific(e) => r matches SocketError::AppSpecific(e2) && f.ensures(
                    (e,),
                    e2,
                ),
                SocketError::Request(e) => r == SocketError::<E2>::Request(e),
                SocketError::Binary(m) => r == SocketError::<E2>::Binary(m),
                SocketError::Json(m) => r == SocketError::<E2>::Json(m),
                SocketError::WebSockets(m) => r == SocketError::<E2>::WebSockets(m),
                SocketError::UnsupportedMessageType => r is UnsupportedMessageType,
                SocketError::Closed => r is Closed,
                SocketError::IncorrectMethod { expected, actual } => r
                    == SocketError::<E2>::IncorrectMethod { expected, actual },
            },
    {
        match self {
            SocketError::AppSpecific(e) => SocketError::AppSpecific(f(e)),
            SocketError::Request(e) => SocketError::Request(e),
            SocketError::Binary(m) => SocketError::Binary(m),
            SocketError::Json(m) => SocketError::Json(m),
            SocketError::WebSockets(m) => SocketError::WebSockets(m),
            SocketError::UnsupportedMessageType => SocketError::UnsupportedMessageType,
            SocketError::Closed => SocketError::Closed,
            SocketError::IncorrectMethod { expected, actual } => SocketError::IncorrectMethod {
                expected,
                actual,
            },
        }
    }

    /// The close code of a connection that ends in this error: the WebSockets "internal
    /// error", 1011.
    pub fn code(&self) -> (r: u16)
        ensures
            r == 1011,
    {
        1011
    }

    /// The text of this error, given the text of an application-specific error.
    pub fn message(&self, app: &str) -> (r: String)
        ensures
            r@ == socket_error_text(*self, app@),
    {
        match self {
            SocketError::AppSpecific(_) => app.to_string(),
            SocketError::Request(e) => e.message(),
            SocketError::Binary(m) => {
                let mut r = "error creating byte stream: ".to_string();
                r.append(m.as_str());
                r
            },
            SocketError::Json(m) => {
                let mut r = "error creating JSON message: ".to_string();
                r.append(m.as_str());
                r
            },
            SocketError::WebSockets(m) => {
                let mut r = "WebSockets protocol error: ".to_string();
                r.append(m.as_str());
                r
            },
            SocketError::UnsupportedMessageType => "unsupported content type for WebSockets message".to_string(),
            SocketError::Closed => "connection closed".to_string(),
            SocketError::IncorrectMethod { expected, actual } => {
                let mut r = "endpoint must be called as ".to_string();
                r.append(expected.to_string().as_str());
                r.append(", but was called as ");
                r.append(actual.to_string().as_str());
                r
            },
        }
    }
}

/// The errors of an application: each can be made from a status code and a message, and
/// tells its status code. The other conversions follow from these two.
pub trait Error: Sized {
    /// The status code of this error.
    spec fn spec_status(&self) -> StatusCode;

    /// The message of this error.
    spec fn spec_message(&self) -> Seq<char>;

    /// An error with the given status and message.
    fn catch_all(status: StatusCode, msg: String) -> (r: Self)
        ensures
            r.spec_status() == status,
            r.spec_message() == msg@,
    ;

    /// The status code of this error.
    fn status(&self) -> (r: StatusCode)
        ensures
            r == self.spec_status(),
    ;

    /// The message of this error.
    fn message(&self) -> (r: String)
        ensures
            r@ == self.spec_message(),
    ;

    /// An error for an I/O error, given its text: `500 Internal Server Error`.
    fn from_io_error(message: String) -> (r: Self)
        ensures
            r.spec_status() == StatusCode::InternalServerError,
            r.spec_message() == message@,
    {
        Self::catch_all(StatusCode::InternalServerError, message)
    }

    /// An error for a configuration error, given its text: `500 Internal Server Error`.
    fn from_config_error(message: String) -> (r: Self)
        ensures
            r.spec_status() == StatusCode::InternalServerError,
            r.spec_message() == message@,
    {
        Self::catch_all(StatusCode::InternalServerError, message)
    }

    /// An error for a route error, with its status and text (`app` is the text of an
    /// application-specific error).
    fn from_route_error<E>(source: RouteError<E>, app: &str) -> (r: Self)
        ensures
            r.spec_status() == source.spec_status(),
            r.spec_message() == route_error_text(source, app@),
    {
        Self::catch_all(source.status(), source.message(app))
    }

    /// An error for a request error: `400 Bad Request`, with its text.
    fn from_request_error(source: RequestError) -> (r: Self)
        ensures
            r.spec_status() == StatusCode::BadRequest,
            r.spec_message() == source.spec_message(),
    {
        Self::catch_all(StatusCode::BadRequest, source.message())
    }

    /// An error for a socket error, with its status and text (`app` is the text of an
    /// application-specific error).
    fn from_socket_error<E>(source: SocketError<E>, app: &str) -> (r: Self)
        ensures
            r.spec_status() == source.spec_status(),
            r.spec_message() == socket_error_text(source, app@),
    {
        Self::catch_all(source.status(), source.message(app))
    }
}

/// An error with a status code and a message: the error of the framework's own endpoints.
#[derive(Clone, Debug, PartialEq, Eq)]
pub struct ServerError {
    pub status: StatusCode,
    pub message: String,
}

/// The text of a server error: `Error {code}: {message}`.
pub open spec fn server_error_text(e: ServerError) -> Seq<char> {
    "Error "@ + decimal(e.status.spec_code() as nat) + ": "@ + e.message@
}

impl ServerError {
    /// The text of this error.
    pub fn to_string(&self) -> (r: String)
        ensures
            r@ == server_error_text(*self),
    {
        let mut r = "Error ".to_string();
        r.append(self.status.to_string().as_str());
        r.append(": ");
        r.append(self.message.as_str());
        r
    }
}

impl Error for ServerError {
    open spec fn spec_status(&self) -> StatusCode {
        self.status
    }

    open spec fn spec_message(&self) -> Seq<char> {
        self.message@
    }

    fn catch_all(status: StatusCode, message: String) -> (r: ServerError)
        ensures
            r.status == status,
            r.message == message,
    {
        ServerError { status, message }
    }

    fn status(&self) -> (r: StatusCode)
        ensures
            r == self.status,
    {
        self.status
    }

    fn message(&self) -> (r: String)
        ensures
            r == self.message,
    {
        self.message.clone()
    }
}

} // verus!
