//! The client of the framework's servers: its base URL and the content type it asks for, and
//! how it reads a server's response.

use vstd::prelude::*;
use vstd::string::*;
use crate::error::Error;
use crate::request::{BodyFormat, Mime};
use crate::status::StatusCode;
use crate::text::{str_eq, u64_to_string};

verus! {

/// The serialization in which a client asks for responses.
#[derive(Clone, Copy, Debug, PartialEq, Eq, Structural)]
pub enum ContentType {
    Json,
    Binary,
}

impl ContentType {
    /// The media type of this serialization: `application/json` or
    /// `application/octet-stream`.
    pub fn mime(self) -> (r: Mime)
        ensures
            r.text@ == match self {
                ContentType::Json => "application/json"@,
                ContentType::Binary => "application/octet-stream"@,
            },
    {
        match self {
            ContentType::Json => Mime::json(),
            ContentType::Binary => Mime::byte_stream(),
        }
    }
}

/// The path of a URL, if the text is a URL.
pub uninterp spec fn url_path_of(u: Seq<char>) -> Option<Seq<char>>;

/// Parses a URL with `url::Url::parse` and gives its `path`.
#[verifier::external_body]
fn url_path(u: &str) -> (r: Option<String>)
    ensures
        match r {
            Some(p) => url_path_of(u@) == Some(p@),
            None => url_path_of(u@) is None,
        },
{
    url::Url::parse(u).ok().map(|x| x.path().to_string())
}

/// The text of a URL as the URL parser writes it back, if the text is a URL.
pub uninterp spec fn url_text_of(u: Seq<char>) -> Option<Seq<char>>;

/// Parses a URL with `url::Url::parse` and gives the URL's text.
#[verifier::external_body]
fn url_text(u: &str) -> (r: Option<String>)
    ensures
        match r {
            Some(v) => url_text_of(u@) == Some(v@),
            None => url_text_of(u@) is None,
        },
{
    url::Url::parse(u).ok().map(|x| x.to_string())
}

/// The URL with its path replaced, if the text is a URL.
pub uninterp spec fn url_with_path_of(u: Seq<char>, p: Seq<char>) -> Option<Seq<char>>;

/// Parses a URL with `url::Url::parse`, replaces its path with `Url::set_path`, and gives the
/// URL's text.
#[verifier::external_body]
fn url_with_path(u: &str, p: &str) -> (r: Option<String>)
    ensures
        match r {
            Some(v) => url_with_path_of(u@, p@) == Some(v@),
            None => url_with_path_of(u@, p@) is None,
        },
{
    url::Url::parse(u).ok().map(|mut x| {
        x.set_path(p);
        x.to_string()
    })
}

/// The URL that a relative reference gives from a base URL, if both read.
pub uninterp spec fn url_join_of(base: Seq<char>, route: Seq<char>) -> Option<Seq<char>>;

/// Parses a base URL with `url::Url::parse` and resolves a reference against it with
/// `Url::join`, giving the URL's text.
#[verifier::external_body]
fn url_join(base: &str, route: &str) -> (r: Option<String>)
    ensures
        match r {
            Some(v) => url_join_of(base@, route@) == Some(v@),
            None => url_join_of(base@, route@) is None,
        },
{
    url::Url::parse(base).ok().and_then(|x| x.join(route).ok()).map(|x| x.to_string())
}

/// The base URL of a client: the URL with a `/` added to its path where the path does not end
/// with one (so that joining a route to it keeps the whole path).
pub open spec fn directory_url(u: Seq<char>) -> Option<Seq<char>> {
    match url_path_of(u) {
        None => None,
        Some(p) => if p.len() > 0 && p.last() == '/' {
            url_text_of(u)
        } else {
            url_with_path_of(u, p + "/"@)
        },
    }
}

/// What a client is built from.
#[derive(Clone, Debug)]
pub struct ClientBuilder {
    base_url: String,
    accept: ContentType,
    timeout_secs: Option<u64>,
}

/// A client of a server: the base URL of its requests, the serialization it asks for, and the
/// timeout of its requests in seconds (if any).
#[derive(Clone, Debug)]
pub struct Client {
    base_url: String,
    accept: ContentType,
    timeout_secs: Option<u64>,
}

impl ClientBuilder {
    /// The base URL.
    pub closed spec fn spec_base_url(&self) -> Seq<char> {
        self.base_url@
    }

    /// The serialization to ask for.
    pub closed spec fn spec_accept(&self) -> ContentType {
        self.accept
    }

    /// The timeout in seconds.
    pub closed spec fn spec_timeout(&self) -> Option<u64> {
        self.timeout_secs
    }

    /// A builder for a client of the server at a URL (none if the text is not a URL): binary
    /// responses, a timeout of 60 seconds.
    pub fn new(base_url: &str) -> (r: Option<ClientBuilder>)
        ensures
            match directory_url(base_url@) {
                Some(u) => r matches Some(b) && b.spec_base_url() == u && b.spec_accept()
                    == ContentType::Binary && b.spec_timeout() == Some(60u64),
                None => r is None,
            },
    {
        let path = match url_path(base_url) {
            Some(p) => p,
            None => return None,
        };
        let n = path.unicode_len();
        let url = if n > 0 && path.as_str().get_char(n - 1) == '/' {
            match url_text(base_url) {
                Some(u) => u,
                None => return None,
            }
        } else {
            let mut p = path.clone();
            p.append("/");
            match url_with_path(base_url, p.as_str()) {
                Some(u) => u,
                None => return None,
            }
        };
        Some(ClientBuilder { base_url: url, accept: ContentType::Binary, timeout_secs: Some(60) })
    }

    /// Set the timeout of requests (none for no timeout).
    pub fn set_timeout(self, timeout_secs: Option<u64>) -> (r: ClientBuilder)
        ensures
            r.spec_timeout() == timeout_secs,
            r.spec_base_url() == self.spec_base_url(),
            r.spec_accept() == self.spec_accept(),
    {
        ClientBuilder { timeout_secs, ..self }
    }

    /// Set the serialization to ask for.
    pub fn content_type(self, content_type: ContentType) -> (r: ClientBuilder)
        ensures
            r.spec_accept() == content_type,
            r.spec_base_url() == self.spec_base_url(),
            r.spec_timeout() == self.spec_timeout(),
    {
        ClientBuilder { accept: content_type, ..self }
    }

    /// The client.
    pub fn build(self) -> (r: Client)
        ensures
            r.spec_base_url() == self.spec_base_url(),
            r.spec_accept() == self.spec_accept(),
            r.spec_timeout() == self.spec_timeout(),
    {
        Client { base_url: self.base_url, accept: self.accept, timeout_secs: self.timeout_secs }
    }
}

impl Client {
    /// The base URL.
    pub closed spec fn spec_base_url(&self) -> Seq<char> {
        self.base_url@
    }

    /// The serialization to ask for.
    pub closed spec fn spec_accept(&self) -> ContentType {
        self.accept
    }

    /// The timeout in seconds.
    pub closed spec fn spec_timeout(&self) -> Option<u64> {
        self.timeout_secs
    }

    /// A builder for a client of the server at a URL.
    pub fn builder(base_url: &str) -> (r: Option<ClientBuilder>)
        ensures
            match directory_url(base_url@) {
                Some(u) => r matches Some(b) && b.spec_base_url() == u && b.spec_accept()
                    == ContentType::Binary && b.spec_timeout() == Some(60u64),
                None => r is None,
            },
    {
        ClientBuilder::new(base_url)
    }

    /// A client of the server at a URL, with the defaults.
    pub fn new(base_url: &str) -> (r: Option<Client>)
        ensures
            match directory_url(base_url@) {
                Some(u) => r matches Some(c) && c.spec_base_url() == u && c.spec_accept()
                    == ContentType::Binary && c.spec_timeout() == Some(60u64),
                None => r is None,
            },
    {
        match ClientBuilder::new(base_url) {
            Some(b) => Some(b.build()),
            None => None,
        }
    }

    /// The base URL.
    pub fn base_url(&self) -> (r: String)
        ensures
            r@ == self.spec_base_url(),
    {
        self.base_url.clone()
    }

    /// The serialization to ask for.
    pub fn accept(&self) -> (r: ContentType)
        ensures
            r == self.spec_accept(),
    {
        self.accept
    }

    /// The timeout in seconds.
    pub fn timeout(&self) -> (r: Option<u64>)
        ensures
            r == self.spec_timeout(),
    {
        self.timeout_secs
    }

    /// The URL of a route (relative to the base URL), if the route reads as a reference.
    pub fn route_url(&self, route: &str) -> (r: Option<String>)
        ensures
            match r {
                Some(u) => url_join_of(self.spec_base_url(), route@) == Some(u@),
                None => url_join_of(self.spec_base_url(), route@) is None,
            },
    {
        url_join(self.base_url.as_str(), route)
    }

    /// The value of the `Accept` header of the client's requests.
    pub fn accept_header(&self) -> (r: String)
        ensures
            r@ == match self.spec_accept() {
                ContentType::Json => "application/json"@,
                ContentType::Binary => "application/octet-stream"@,
            },
    {
        self.accept.mime().text.clone()
    }

    /// A client of a module of the server, under a prefix of the base URL.
    pub fn module(&self, prefix: &str) -> (r: Option<Client>)
        ensures
            match url_join_of(self.spec_base_url(), prefix@) {
                Some(u) => r matches Some(c) && c.spec_base_url() == u && c.spec_accept()
                    == self.spec_accept() && c.spec_timeout() == self.spec_timeout(),
                None => r is None,
            },
    {
        match url_join(self.base_url.as_str(), prefix) {
            Some(u) => Some(Client { base_url: u, accept: self.accept, timeout_secs: self.timeout_secs }),
            None => None,
        }
    }
}

/// How to read the body of a successful response, by its `Content-Type` (the text of the
/// header, if it is text): JSON or binary; any other type, or none, is an error.
pub open spec fn success_format(content_type: Option<Option<Seq<char>>>) -> Option<BodyFormat> {
    match content_type {
        Some(Some(t)) => if t == "application/json"@ {
            Some(BodyFormat::Json)
        } else if t == "application/octet-stream"@ {
            Some(BodyFormat::Binary)
        } else {
            None
        },
        _ => None,
    }
}

/// Whether a response carries the value that a request asked for: its status is `200 OK`.
/// Any other status is read as a failure.
pub fn carries_value(status: u16) -> (r: bool)
    ensures
        r == (status == 200),
{
    status == 200
}

/// Whether a request for the raw bytes of a route succeeded: its status is a success (`2xx`).
pub fn bytes_succeeded(status: u16) -> (r: bool)
    ensures
        r == (200 <= status < 300),
{
    200 <= status && status < 300
}

/// How to read the body of a successful response, by its `Content-Type`.
pub fn response_format(content_type: &Option<Option<String>>) -> (r: Option<BodyFormat>)
    ensures
        r == success_format(
            match content_type {
                Some(Some(t)) => Some(Some(t@)),
                Some(None) => Some(None),
                None => None,
            },
        ),
{
    match content_type {
        Some(Some(t)) => if str_eq(t.as_str(), "application/json") {
            Some(BodyFormat::Json)
        } else if str_eq(t.as_str(), "application/octet-stream") {
            Some(BodyFormat::Binary)
        } else {
            None
        },
        _ => None,
    }
}

/// The text of the lower-case hexadecimal digit of a number below 16.
pub open spec fn hex_digit(d: nat) -> char {
    if d < 10 {
        (('0' as nat) + d) as char
    } else {
        (('a' as nat) + d - 10) as char
    }
}

/// Bytes in lower-case hexadecimal, two digits each.
pub open spec fn hex_text(bytes: Seq<u8>) -> Seq<char>
    decreases bytes.len(),
{
    if bytes.len() == 0 {
        seq![]
    } else {
        hex_text(bytes.drop_last()) + seq![
            hex_digit((bytes.last() / 16) as nat),
            hex_digit((bytes.last() % 16) as nat),
        ]
    }
}

/// Calls `hex::encode`, which writes each byte as two lower-case hexadecimal digits.
#[verifier::external_body]
fn hex_encode(bytes: &[u8]) -> (r: String)
    ensures
        r@ == hex_text(bytes@),
{
    hex::encode(bytes)
}

/// The text of bytes, if they are UTF-8.
pub uninterp spec fn utf8_text(bytes: Seq<u8>) -> Option<Seq<char>>;

/// Calls `std::str::from_utf8` and copies the text.
#[verifier::external_body]
fn utf8_decode(bytes: &[u8]) -> (r: Option<String>)
    ensures
        match r {
            Some(s) => utf8_text(bytes@) == Some(s@),
            None => utf8_text(bytes@) is None,
        },
{
    std::str::from_utf8(bytes).ok().map(|s| s.to_string())
}

/// The error of a response that failed, when its body does not read as an error of the
/// application: the body itself if it is text, else a description with the status (as the
/// HTTP client displays it), the content type and the body in hexadecimal.
pub open spec fn failure_message(status_text: Seq<char>, content_type: Option<Seq<char>>, body: Seq<u8>) -> Seq<char> {
    match utf8_text(body) {
        Some(s) => s,
        None => "Request terminated with error "@ + status_text + ". Content-Type: "@ + match content_type {
            Some(t) => t,
            None => "unspecified"@,
        } + ". Body: 0x"@ + hex_text(body),
    }
}

/// The error of a response that failed, when its body does not read as an error of the
/// application.
pub fn response_failure_message(status_text: &str, content_type: &Option<String>, body: &[u8]) -> (r: String)
    ensures
        r@ == failure_message(
            status_text@,
            match content_type {
                Some(t) => Some(t@),
                None => None,
            },
            body@,
        ),
{
    match utf8_decode(body) {
        Some(s) => s,
        None => {
            let mut r = "Request terminated with error ".to_string();
            r.append(status_text);
            r.append(". Content-Type: ");
            match content_type {
                Some(t) => r.append(t.as_str()),
                None => r.append("unspecified"),
            }
            r.append(". Body: 0x");
            r.append(hex_encode(body).as_str());
            r
        },
    }
}

/// The error of a failed request for the raw bytes of a response: the body itself if it is
/// text, else a description with the status, the content type and the body in hexadecimal.
pub open spec fn bytes_failure_message(status_text: Seq<char>, content_type: Option<Seq<char>>, body: Seq<u8>) -> Seq<char> {
    match utf8_text(body) {
        Some(s) => s,
        None => "Request failed with status "@ + status_text + ". Content-Type: "@ + match content_type {
            Some(t) => t,
            None => "unspecified"@,
        } + ". Body: 0x"@ + hex_text(body),
    }
}

/// The error of a failed request for the raw bytes of a response.
pub fn bytes_failure(status_text: &str, content_type: &Option<String>, body: &[u8]) -> (r: String)
    ensures
        r@ == bytes_failure_message(
            status_text@,
            match content_type {
                Some(t) => Some(t@),
                None => None,
            },
            body@,
        ),
{
    match utf8_decode(body) {
        Some(s) => s,
        None => {
            let mut r = "Request failed with status ".to_string();
            r.append(status_text);
            r.append(". Content-Type: ");
            match content_type {
                Some(t) => r.append(t.as_str()),
                None => r.append("unspecified"),
            }
            r.append(". Body: 0x");
            r.append(hex_encode(body).as_str());
            r
        },
    }
}

/// The error of a failed response whose body could not be read.
pub fn unreadable_body_message(status_text: &str, reason: &str) -> (r: String)
    ensures
        r@ == "Request terminated with error "@ + status_text@ + ". Failed to read request body due to "@
            + reason@,
{
    let mut r = "Request terminated with error ".to_string();
    r.append(status_text);
    r.append(". Failed to read request body due to ");
    r.append(reason);
    r
}

/// How to try reading the body of a failed response as an error of the application, by its
/// `Content-Type`: JSON or binary, or not at all.
pub fn error_body_format(content_type: &Option<Option<String>>) -> (r: Option<BodyFormat>)
    ensures
        r == success_format(
            match content_type {
                Some(Some(t)) => Some(Some(t@)),
                Some(None) => Some(None),
                None => None,
            },
        ),
{
    response_format(content_type)
}

/// The status code of an error that the client reports for an unsupported content type.
pub fn unsupported_media_type() -> (r: StatusCode)
    ensures
        r == StatusCode::UnsupportedMediaType,
{
    StatusCode::UnsupportedMediaType
}

/// Whether a character may stand in a header value that reads as text: visible ASCII or tab.
pub open spec fn header_char(c: char) -> bool {
    (' ' <= c && c <= '~') || c == '\t'
}

/// The text of header characters as `Debug` writes a string, without the quotes: `"`, `\` and
/// tab escaped with a backslash.
pub open spec fn debug_escape(s: Seq<char>) -> Seq<char>
    decreases s.len(),
{
    if s.len() == 0 {
        seq![]
    } else {
        debug_escape(s.drop_last()) + if s.last() == '"' {
            seq!['\\', '"']
        } else if s.last() == '\\' {
            seq!['\\', '\\']
        } else if s.last() == '\t' {
            seq!['\\', 't']
        } else {
            seq![s.last()]
        }
    }
}

/// What the client says of a successful response with a content type it cannot read: the
/// content type as `Debug` writes the result of reading the header as text, and the body, as
/// text or in hexadecimal (nothing if it could not be read).
pub open spec fn unsupported_type_text(content_type: Option<Seq<char>>, body: Option<Seq<u8>>) -> Seq<char> {
    "unsupported content type "@ + match content_type {
        Some(t) => "Ok(\""@ + debug_escape(t) + "\")"@,
        None => "Err(ToStrError { _priv: () })"@,
    } + " "@ + match body {
        Some(b) => "body: "@ + match utf8_text(b) {
            Some(s) => s,
            None => hex_text(b),
        },
        None => seq![],
    }
}

/// Escape a header value as `Debug` does.
fn escape_header_text(s: &str) -> (r: String)
    requires
        forall|i: int| 0 <= i < s@.len() ==> header_char(#[trigger] s@[i]),
    ensures
        r@ == debug_escape(s@),
{
    let mut r = String::new();
    let n = s.unicode_len();
    let mut i: usize = 0;
    while i < n
        invariant
            n == s@.len(),
            i <= n,
            r@ == debug_escape(s@.take(i as int)),
        decreases n - i,
    {
        let c = s.get_char(i);
        proof {
            assert(s@.take(i + 1).drop_last() =~= s@.take(i as int));
            assert(s@.take(i + 1).last() == c);
        }
        if c == '"' {
            r.append("\\\"");
        } else if c == '\\' {
            r.append("\\\\");
        } else if c == '\t' {
            r.append("\\t");
        } else {
            r.append(s.substring_char(i, i + 1));
            proof {
                assert(s@.subrange(i as int, i + 1) =~= seq![c]);
            }
        }
        proof {
            reveal_strlit("\\\"");
            reveal_strlit("\\\\");
            reveal_strlit("\\t");
        }
        i = i + 1;
    }
    assert(s@.take(n as int) =~= s@);
    r
}

/// What the client says of a successful response with a content type it cannot read.
pub fn unsupported_type_message(content_type: &Option<String>, body: &Option<Vec<u8>>) -> (r: String)
    requires
        match content_type {
            Some(t) => forall|i: int| 0 <= i < t@.len() ==> header_char(#[trigger] t@[i]),
            None => true,
        },
    ensures
        r@ == unsupported_type_text(
            match content_type {
                Some(t) => Some(t@),
                None => None,
            },
            match body {
                Some(b) => Some(b@),
                None => None,
            },
        ),
{
    let mut r = "unsupported content type ".to_string();
    match content_type {
        Some(t) => {
            r.append("Ok(\"");
            r.append(escape_header_text(t.as_str()).as_str());
            r.append("\")");
        },
        None => r.append("Err(ToStrError { _priv: () })"),
    }
    r.append(" ");
    match body {
        Some(b) => {
            r.append("body: ");
            match utf8_decode(b.as_slice()) {
                Some(text) => r.append(text.as_str()),
                None => r.append(hex_encode(b.as_slice()).as_str()),
            }
        },
        None => {},
    }
    r
}

/// What the client says of a successful response without a content type.
pub fn unspecified_type_message() -> (r: String)
    ensures
        r@ == "unspecified content type in response"@,
{
    "unspecified content type in response".to_string()
}

/// The text of a `Content-Type` header, if there is one and it reads as text.
pub open spec fn header_text(content_type: Option<Option<String>>) -> Option<Seq<char>> {
    match content_type {
        Some(Some(t)) => Some(t@),
        _ => None,
    }
}

/// The error that a request ends in when the server answers with a failure: the error of the
/// application that the body holds (`decoded`, where the body reads as one), else an error with
/// the status of the response and the body as text, or a description of it.
pub fn failure_error<E: Error>(
    status: StatusCode,
    status_text: &str,
    content_type: &Option<Option<String>>,
    body: &[u8],
    decoded: Option<E>,
) -> (r: E)
    ensures
        match decoded {
            Some(e) => r == e,
            None => r.spec_status() == status && r.spec_message() == failure_message(
                status_text@,
                header_text(*content_type),
                body@,
            ),
        },
{
    match decoded {
        Some(e) => e,
        None => {
            let text = match content_type {
                Some(Some(t)) => Some(t.clone()),
                _ => None,
            };
            E::catch_all(status, response_failure_message(status_text, &text, body))
        },
    }
}

/// The error that a request ends in when the server answers `200 OK` with a body the client
/// cannot read: `415 Unsupported Media Type`, saying what the content type was (and the body,
/// where it could be read), or that there was none.
pub fn unreadable_success_error<E: Error>(content_type: &Option<Option<String>>, body: &Option<Vec<u8>>) -> (r: E)
    requires
        match content_type {
            Some(Some(t)) => forall|i: int| 0 <= i < t@.len() ==> header_char(#[trigger] t@[i]),
            _ => true,
        },
    ensures
        r.spec_status() == StatusCode::UnsupportedMediaType,
        r.spec_message() == match content_type {
            Some(t) => unsupported_type_text(
                match t {
                    Some(x) => Some(x@),
                    None => None,
                },
                match body {
                    Some(b) => Some(b@),
                    None => None,
                },
            ),
            None => "unspecified content type in response"@,
        },
{
    match content_type {
        Some(t) => E::catch_all(StatusCode::UnsupportedMediaType, unsupported_type_message(t, body)),
        None => E::catch_all(StatusCode::UnsupportedMediaType, unspecified_type_message()),
    }
}

} // verus!
