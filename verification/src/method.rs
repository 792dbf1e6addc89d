//! Methods by which a route is dispatched: the HTTP methods, and the two kinds of route that
//! the framework adds, `SOCKET` and `METRICS`.

use vstd::prelude::*;
use crate::text::str_eq;

verus! {

/// The canonical names of the HTTP methods, as the HTTP layer displays them.
pub open spec fn canonical_method_name(n: Seq<char>) -> bool {
    ||| n == "ACL"@
    ||| n == "BASELINE-CONTROL"@
    ||| n == "BIND"@
    ||| n == "CHECKIN"@
    ||| n == "CHECKOUT"@
    ||| n == "CONNECT"@
    ||| n == "COPY"@
    ||| n == "DELETE"@
    ||| n == "GET"@
    ||| n == "HEAD"@
    ||| n == "LABEL"@
    ||| n == "LINK"@
    ||| n == "LOCK"@
    ||| n == "MERGE"@
    ||| n == "MKACTIVITY"@
    ||| n == "MKCALENDAR"@
    ||| n == "MKCOL"@
    ||| n == "MKREDIRECTREF"@
    ||| n == "MKWORKSPACE"@
    ||| n == "MOVE"@
    ||| n == "OPTIONS"@
    ||| n == "ORDERPATCH"@
    ||| n == "PATCH"@
    ||| n == "POST"@
    ||| n == "PRI"@
    ||| n == "PROPFIND"@
    ||| n == "PROPPATCH"@
    ||| n == "PUT"@
    ||| n == "REBIND"@
    ||| n == "REPORT"@
    ||| n == "SEARCH"@
    ||| n == "TRACE"@
    ||| n == "UNBIND"@
    ||| n == "UNCHECKOUT"@
    ||| n == "UNLINK"@
    ||| n == "UNLOCK"@
    ||| n == "UPDATE"@
    ||| n == "UPDATEREDIRECTREF"@
    ||| n == "VERSION-CONTROL"@
}

/// A character in upper case, if it is an ASCII lower-case letter; else the character itself.
pub open spec fn ascii_upper_char(c: char) -> char {
    if ('a' as u32) <= (c as u32) <= ('z' as u32) {
        ((c as u32) - 32) as char
    } else {
        c
    }
}

/// A text with its ASCII lower-case letters in upper case.
pub open spec fn ascii_upper(s: Seq<char>) -> Seq<char> {
    s.map_values(|c: char| ascii_upper_char(c))
}

/// What the HTTP layer's method parser gives for a string: it puts the string's ASCII letters
/// in upper case and looks the result up among the canonical names; the name found (as the
/// method displays itself), or nothing.
pub open spec fn http_method_parse(s: Seq<char>) -> Option<Seq<char>> {
    if canonical_method_name(ascii_upper(s)) {
        Some(ascii_upper(s))
    } else {
        None
    }
}

/// The canonical names are in upper case already, so each parses to itself.
pub proof fn lemma_canonical_upper(n: Seq<char>)
    requires
        canonical_method_name(n),
    ensures
        ascii_upper(n) == n,
        http_method_parse(n) == Some(n),
{
    if n == "ACL"@ {
        reveal_strlit("ACL");
        assert(ascii_upper(n) =~= n);
    }
    if n == "BASELINE-CONTROL"@ {
        reveal_strlit("BASELINE-CONTROL");
        assert(ascii_upper(n) =~= n);
    }
    if n == "BIND"@ {
        reveal_strlit("BIND");
        assert(ascii_upper(n) =~= n);
    }
    if n == "CHECKIN"@ {
        reveal_strlit("CHECKIN");
        assert(ascii_upper(n) =~= n);
    }
    if n == "CHECKOUT"@ {
        reveal_strlit("CHECKOUT");
        assert(ascii_upper(n) =~= n);
    }
    if n == "CONNECT"@ {
        reveal_strlit("CONNECT");
        assert(ascii_upper(n) =~= n);
    }
    if n == "COPY"@ {
        reveal_strlit("COPY");
        assert(ascii_upper(n) =~= n);
    }
    if n == "DELETE"@ {
        reveal_strlit("DELETE");
        assert(ascii_upper(n) =~= n);
    }
    if n == "GET"@ {
        reveal_strlit("GET");
        assert(ascii_upper(n) =~= n);
    }
    if n == "HEAD"@ {
        reveal_strlit("HEAD");
        assert(ascii_upper(n) =~= n);
    }
    if n == "LABEL"@ {
        reveal_strlit("LABEL");
        assert(ascii_upper(n) =~= n);
    }
    if n == "LINK"@ {
        reveal_strlit("LINK");
        assert(ascii_upper(n) =~= n);
    }
    if n == "LOCK"@ {
        reveal_strlit("LOCK");
        assert(ascii_upper(n) =~= n);
    }
    if n == "MERGE"@ {
        reveal_strlit("MERGE");
        assert(ascii_upper(n) =~= n);
    }
    if n == "MKACTIVITY"@ {
        reveal_strlit("MKACTIVITY");
        assert(ascii_upper(n) =~= n);
    }
    if n == "MKCALENDAR"@ {
        reveal_strlit("MKCALENDAR");
        assert(ascii_upper(n) =~= n);
    }
    if n == "MKCOL"@ {
        reveal_strlit("MKCOL");
        assert(ascii_upper(n) =~= n);
    }
    if n == "MKREDIRECTREF"@ {
        reveal_strlit("MKREDIRECTREF");
        assert(ascii_upper(n) =~= n);
    }
    if n == "MKWORKSPACE"@ {
        reveal_strlit("MKWORKSPACE");
        assert(ascii_upper(n) =~= n);
    }
    if n == "MOVE"@ {
        reveal_strlit("MOVE");
        assert(ascii_upper(n) =~= n);
    }
    if n == "OPTIONS"@ {
        reveal_strlit("OPTIONS");
        assert(ascii_upper(n) =~= n);
    }
    if n == "ORDERPATCH"@ {
        reveal_strlit("ORDERPATCH");
        assert(ascii_upper(n) =~= n);
    }
    if n == "PATCH"@ {
        reveal_strlit("PATCH");
        assert(ascii_upper(n) =~= n);
    }
    if n == "POST"@ {
        reveal_strlit("POST");
        assert(ascii_upper(n) =~= n);
    }
    if n == "PRI"@ {
        reveal_strlit("PRI");
        assert(ascii_upper(n) =~= n);
    }
    if n == "PROPFIND"@ {
        reveal_strlit("PROPFIND");
        assert(ascii_upper(n) =~= n);
    }
    if n == "PROPPATCH"@ {
        reveal_strlit("PROPPATCH");
        assert(ascii_upper(n) =~= n);
    }
    if n == "PUT"@ {
        reveal_strlit("PUT");
        assert(ascii_upper(n) =~= n);
    }
    if n == "REBIND"@ {
        reveal_strlit("REBIND");
        assert(ascii_upper(n) =~= n);
    }
    if n == "REPORT"@ {
        reveal_strlit("REPORT");
        assert(ascii_upper(n) =~= n);
    }
    if n == "SEARCH"@ {
        reveal_strlit("SEARCH");
        assert(ascii_upper(n) =~= n);
    }
    if n == "TRACE"@ {
        reveal_strlit("TRACE");
        assert(ascii_upper(n) =~= n);
    }
    if n == "UNBIND"@ {
        reveal_strlit("UNBIND");
        assert(ascii_upper(n) =~= n);
    }
    if n == "UNCHECKOUT"@ {
        reveal_strlit("UNCHECKOUT");
        assert(ascii_upper(n) =~= n);
    }
    if n == "UNLINK"@ {
        reveal_strlit("UNLINK");
        assert(ascii_upper(n) =~= n);
    }
    if n == "UNLOCK"@ {
        reveal_strlit("UNLOCK");
        assert(ascii_upper(n) =~= n);
    }
    if n == "UPDATE"@ {
        reveal_strlit("UPDATE");
        assert(ascii_upper(n) =~= n);
    }
    if n == "UPDATEREDIRECTREF"@ {
        reveal_strlit("UPDATEREDIRECTREF");
        assert(ascii_upper(n) =~= n);
    }
    if n == "VERSION-CONTROL"@ {
        reveal_strlit("VERSION-CONTROL");
        assert(ascii_upper(n) =~= n);
    }
}

/// Calls `<http_types::Method as FromStr>::from_str`, which puts the text's ASCII letters in
/// upper case and looks it up in its table of canonical names, and converts the method to its
/// name with `Display`, which writes that same canonical name.
#[verifier::external_body]
fn parse_http_method(s: &str) -> (r: Option<String>)
    ensures
        match r {
            Some(n) => http_method_parse(s@) == Some(n@),
            None => http_method_parse(s@) is None,
        },
{
    s.parse::<http_types::Method>().ok().map(|m| m.to_string())
}

/// The HTTP methods that are safe (do not change server state), by name, as the HTTP layer
/// classifies them.
pub open spec fn is_safe_name(name: Seq<char>) -> bool {
    ||| name == "GET"@
    ||| name == "HEAD"@
    ||| name == "OPTIONS"@
    ||| name == "PRI"@
    ||| name == "PROPFIND"@
    ||| name == "REPORT"@
    ||| name == "SEARCH"@
    ||| name == "TRACE"@
}

/// A standard HTTP method, held by its canonical name (such as `GET`).
#[derive(Clone, Debug, PartialEq, Eq, Hash)]
pub struct HttpMethod {
    name: String,
}

impl HttpMethod {
    /// The name of this method.
    pub closed spec fn spec_name(&self) -> Seq<char> {
        self.name@
    }

    /// A method is known by a canonical name, which the HTTP layer parses back to itself.
    pub open spec fn wf(&self) -> bool {
        canonical_method_name(self.spec_name()) && http_method_parse(self.spec_name()) == Some(
            self.spec_name(),
        )
    }

    /// The name of this method.
    pub fn name(&self) -> (r: &str)
        ensures
            r@ == self.spec_name(),
    {
        self.name.as_str()
    }

    /// Parse an HTTP method name, in any case.
    pub fn parse(s: &str) -> (r: Option<HttpMethod>)
        ensures
            match r {
                Some(m) => http_method_parse(s@) == Some(m.spec_name()) && m.wf(),
                None => http_method_parse(s@) is None,
            },
    {
        match parse_http_method(s) {
            Some(name) => {
                proof {
                    lemma_canonical_upper(name@);
                }
                Some(HttpMethod { name })
            },
            None => None,
        }
    }

    /// The method with the given canonical name.
    fn named(name: &str) -> (r: HttpMethod)
        requires
            canonical_method_name(name@),
        ensures
            r.spec_name() == name@,
            r.wf(),
    {
        proof {
            lemma_canonical_upper(name@);
        }
        match parse_http_method(name) {
            Some(n) => HttpMethod { name: n },
            None => {
                assert(false);
                HttpMethod { name: name.to_string() }
            },
        }
    }

    /// A copy of this method.
    pub fn duplicate(&self) -> (r: HttpMethod)
        ensures
            r.spec_name() == self.spec_name(),
            r.wf() == self.wf(),
    {
        HttpMethod { name: self.name.clone() }
    }

    /// Whether this method is safe, that is, does not change server state.
    pub fn is_safe(&self) -> (r: bool)
        ensures
            r == is_safe_name(self.spec_name()),
    {
        let n = self.name.as_str();
        str_eq(n, "GET") || str_eq(n, "HEAD") || str_eq(n, "OPTIONS") || str_eq(n, "PRI")
            || str_eq(n, "PROPFIND") || str_eq(n, "REPORT") || str_eq(n, "SEARCH") || str_eq(
            n,
            "TRACE",
        )
    }
}

/// The method of a route: an HTTP method, or one of the framework's own kinds of route.
#[derive(Clone, Debug, PartialEq, Eq)]
pub enum Method {
    Http(HttpMethod),
    Socket,
    Metrics,
}

impl View for Method {
    type V = Seq<char>;

    /// A method is known by its name; the names of the kinds of method are distinct.
    open spec fn view(&self) -> Seq<char> {
        match self {
            Method::Http(m) => m.spec_name(),
            Method::Socket => "SOCKET"@,
            Method::Metrics => "METRICS"@,
        }
    }
}

impl Method {
    /// An HTTP method is known by a canonical name (see `HttpMethod::wf`).
    pub open spec fn spec_wf(&self) -> bool {
        match self {
            Method::Http(h) => h.wf(),
            _ => true,
        }
    }
}

/// Whether a method implies mutable access to the state: unsafe HTTP methods and sockets do,
/// safe HTTP methods and metrics do not.
pub open spec fn spec_is_mutable(m: Method) -> bool {
    match m {
        Method::Http(h) => !is_safe_name(h.spec_name()),
        Method::Socket => true,
        Method::Metrics => false,
    }
}

/// The HTTP methods that change server state, by name: every canonical method but the eight
/// safe ones.
pub open spec fn mutating_method_name(n: Seq<char>) -> bool {
    ||| n == "ACL"@
    ||| n == "BASELINE-CONTROL"@
    ||| n == "BIND"@
    ||| n == "CHECKIN"@
    ||| n == "CHECKOUT"@
    ||| n == "CONNECT"@
    ||| n == "COPY"@
    ||| n == "DELETE"@
    ||| n == "LABEL"@
    ||| n == "LINK"@
    ||| n == "LOCK"@
    ||| n == "MERGE"@
    ||| n == "MKACTIVITY"@
    ||| n == "MKCALENDAR"@
    ||| n == "MKCOL"@
    ||| n == "MKREDIRECTREF"@
    ||| n == "MKWORKSPACE"@
    ||| n == "MOVE"@
    ||| n == "ORDERPATCH"@
    ||| n == "PATCH"@
    ||| n == "POST"@
    ||| n == "PROPPATCH"@
    ||| n == "PUT"@
    ||| n == "REBIND"@
    ||| n == "UNBIND"@
    ||| n == "UNCHECKOUT"@
    ||| n == "UNLINK"@
    ||| n == "UNLOCK"@
    ||| n == "UPDATE"@
    ||| n == "UPDATEREDIRECTREF"@
    ||| n == "VERSION-CONTROL"@
}

/// A route with an HTTP method gets mutable access to the state exactly when its method is
/// one that changes server state: `PUT`, `POST`, `DELETE`, `PATCH` and the other methods that
/// are not safe; the safe ones (`GET`, `HEAD`, `OPTIONS`, `PRI`, `PROPFIND`, `REPORT`,
/// `SEARCH`, `TRACE`) get read-only access.
pub proof fn law_mutable_methods(m: HttpMethod)
    requires
        m.wf(),
    ensures
        spec_is_mutable(Method::Http(m)) <==> mutating_method_name(m.spec_name()),
{
    let n = m.spec_name();
    if n == "ACL"@ {
        reveal_strlit("ACL");
        reveal_strlit("GET");
        assert("ACL"@[0] != "GET"@[0]);
        reveal_strlit("HEAD");
        assert("ACL"@.len() != "HEAD"@.len());
        reveal_strlit("OPTIONS");
        assert("ACL"@.len() != "OPTIONS"@.len());
        reveal_strlit("PRI");
        assert("ACL"@[0] != "PRI"@[0]);
        reveal_strlit("PROPFIND");
        assert("ACL"@.len() != "PROPFIND"@.len());
        reveal_strlit("REPORT");
        assert("ACL"@.len() != "REPORT"@.len());
        reveal_strlit("SEARCH");
        assert("ACL"@.len() != "SEARCH"@.len());
        reveal_strlit("TRACE");
        assert("ACL"@.len() != "TRACE"@.len());
    }
    if n == "BASELINE-CONTROL"@ {
        reveal_strlit("BASELINE-CONTROL");
        reveal_strlit("GET");
        assert("BASELINE-CONTROL"@.len() != "GET"@.len());
        reveal_strlit("HEAD");
        assert("BASELINE-CONTROL"@.len() != "HEAD"@.len());
        reveal_strlit("OPTIONS");
        assert("BASELINE-CONTROL"@.len() != "OPTIONS"@.len());
        reveal_strlit("PRI");
        assert("BASELINE-CONTROL"@.len() != "PRI"@.len());
        reveal_strlit("PROPFIND");
        assert("BASELINE-CONTROL"@.len() != "PROPFIND"@.len());
        reveal_strlit("REPORT");
        assert("BASELINE-CONTROL"@.len() != "REPORT"@.len());
        reveal_strlit("SEARCH");
        assert("BASELINE-CONTROL"@.len() != "SEARCH"@.len());
        reveal_strlit("TRACE");
        assert("BASELINE-CONTROL"@.len() != "TRACE"@.len());
    }
    if n == "BIND"@ {
        reveal_strlit("BIND");
        reveal_strlit("GET");
        assert("BIND"@.len() != "GET"@.len());
        reveal_strlit("HEAD");
        assert("BIND"@[0] != "HEAD"@[0]);
        reveal_strlit("OPTIONS");
        assert("BIND"@.len() != "OPTIONS"@.len());
        reveal_strlit("PRI");
        assert("BIND"@.len() != "PRI"@.len());
        reveal_strlit("PROPFIND");
        assert("BIND"@.len() != "PROPFIND"@.len());
        reveal_strlit("REPORT");
        assert("BIND"@.len() != "REPORT"@.len());
        reveal_strlit("SEARCH");
        assert("BIND"@.len() != "SEARCH"@.len());
        reveal_strlit("TRACE");
        assert("BIND"@.len() != "TRACE"@.len());
    }
    if n == "CHECKIN"@ {
        reveal_strlit("CHECKIN");
        reveal_strlit("GET");
        assert("CHECKIN"@.len() != "GET"@.len());
        reveal_strlit("HEAD");
        assert("CHECKIN"@.len() != "HEAD"@.len());
        reveal_strlit("OPTIONS");
        assert("CHECKIN"@[0] != "OPTIONS"@[0]);
        reveal_strlit("PRI");
        assert("CHECKIN"@.len() != "PRI"@.len());
        reveal_strlit("PROPFIND");
        assert("CHECKIN"@.len() != "PROPFIND"@.len());
        reveal_strlit("REPORT");
        assert("CHECKIN"@.len() != "REPORT"@.len());
        reveal_strlit("SEARCH");
        assert("CHECKIN"@.len() != "SEARCH"@.len());
        reveal_strlit("TRACE");
        assert("CHECKIN"@.len() != "TRACE"@.len());
    }
    if n == "CHECKOUT"@ {
        reveal_strlit("CHECKOUT");
        reveal_strlit("GET");
        assert("CHECKOUT"@.len() != "GET"@.len());
        reveal_strlit("HEAD");
        assert("CHECKOUT"@.len() != "HEAD"@.len());
        reveal_strlit("OPTIONS");
        assert("CHECKOUT"@.len() != "OPTIONS"@.len());
        reveal_strlit("PRI");
        assert("CHECKOUT"@.len() != "PRI"@.len());
        reveal_strlit("PROPFIND");
        assert("CHECKOUT"@[0] != "PROPFIND"@[0]);
        reveal_strlit("REPORT");
        assert("CHECKOUT"@.len() != "REPORT"@.len());
        reveal_strlit("SEARCH");
        assert("CHECKOUT"@.len() != "SEARCH"@.len());
        reveal_strlit("TRACE");
        assert("CHECKOUT"@.len() != "TRACE"@.len());
    }
    if n == "CONNECT"@ {
        reveal_strlit("CONNECT");
        reveal_strlit("GET");
        assert("CONNECT"@.len() != "GET"@.len());
        reveal_strlit("HEAD");
        assert("CONNECT"@.len() != "HEAD"@.len());
        reveal_strlit("OPTIONS");
        assert("CONNECT"@[0] != "OPTIONS"@[0]);
        reveal_strlit("PRI");
        assert("CONNECT"@.len() != "PRI"@.len());
        reveal_strlit("PROPFIND");
        assert("CONNECT"@.len() != "PROPFIND"@.len());
        reveal_strlit("REPORT");
        assert("CONNECT"@.len() != "REPORT"@.len());
        reveal_strlit("SEARCH");
        assert("CONNECT"@.len() != "SEARCH"@.len());
        reveal_strlit("TRACE");
        assert("CONNECT"@.len() != "TRACE"@.len());
    }
    if n == "COPY"@ {
        reveal_strlit("COPY");
        reveal_strlit("GET");
        assert("COPY"@.len() != "GET"@.len());
        reveal_strlit("HEAD");
        assert("COPY"@[0] != "HEAD"@[0]);
        reveal_strlit("OPTIONS");
        assert("COPY"@.len() != "OPTIONS"@.len());
        reveal_strlit("PRI");
        assert("COPY"@.len() != "PRI"@.len());
        reveal_strlit("PROPFIND");
        assert("COPY"@.len() != "PROPFIND"@.len());
        reveal_strlit("REPORT");
        assert("COPY"@.len() != "REPORT"@.len());
        reveal_strlit("SEARCH");
        assert("COPY"@.len() != "SEARCH"@.len());
        reveal_strlit("TRACE");
        assert("COPY"@.len() != "TRACE"@.len());
    }
    if n == "DELETE"@ {
        reveal_strlit("DELETE");
        reveal_strlit("GET");
        assert("DELETE"@.len() != "GET"@.len());
        reveal_strlit("HEAD");
        assert("DELETE"@.len() != "HEAD"@.len());
        reveal_strlit("OPTIONS");
        assert("DELETE"@.len() != "OPTIONS"@.len());
        reveal_strlit("PRI");
        assert("DELETE"@.len() != "PRI"@.len());
        reveal_strlit("PROPFIND");
        assert("DELETE"@.len() != "PROPFIND"@.len());
        reveal_strlit("REPORT");
        assert("DELETE"@[0] != "REPORT"@[0]);
        reveal_strlit("SEARCH");
        assert("DELETE"@[0] != "SEARCH"@[0]);
        reveal_strlit("TRACE");
        assert("DELETE"@.len() != "TRACE"@.len());
    }
    if n == "GET"@ {
        reveal_strlit("GET");
        reveal_strlit("ACL");
        assert("GET"@[0] != "ACL"@[0]);
        reveal_strlit("BASELINE-CONTROL");
        assert("GET"@.len() != "BASELINE-CONTROL"@.len());
        reveal_strlit("BIND");
        assert("GET"@.len() != "BIND"@.len());
        reveal_strlit("CHECKIN");
        assert("GET"@.len() != "CHECKIN"@.len());
        reveal_strlit("CHECKOUT");
        assert("GET"@.len() != "CHECKOUT"@.len());
        reveal_strlit("CONNECT");
        assert("GET"@.len() != "CONNECT"@.len());
        reveal_strlit("COPY");
        assert("GET"@.len() != "COPY"@.len());
        reveal_strlit("DELETE");
        assert("GET"@.len() != "DELETE"@.len());
        reveal_strlit("LABEL");
        assert("GET"@.len() != "LABEL"@.len());
        reveal_strlit("LINK");
        assert("GET"@.len() != "LINK"@.len());
        reveal_strlit("LOCK");
        assert("GET"@.len() != "LOCK"@.len());
        reveal_strlit("MERGE");
        assert("GET"@.len() != "MERGE"@.len());
        reveal_strlit("MKACTIVITY");
        assert("GET"@.len() != "MKACTIVITY"@.len());
        reveal_strlit("MKCALENDAR");
        assert("GET"@.len() != "MKCALENDAR"@.len());
        reveal_strlit("MKCOL");
        assert("GET"@.len() != "MKCOL"@.len());
        reveal_strlit("MKREDIRECTREF");
        assert("GET"@.len() != "MKREDIRECTREF"@.len());
        reveal_strlit("MKWORKSPACE");
        assert("GET"@.len() != "MKWORKSPACE"@.len());
        reveal_strlit("MOVE");
        assert("GET"@.len() != "MOVE"@.len());
        reveal_strlit("ORDERPATCH");
        assert("GET"@.len() != "ORDERPATCH"@.len());
        reveal_strlit("PATCH");
        assert("GET"@.len() != "PATCH"@.len());
        reveal_strlit("POST");
        assert("GET"@.len() != "POST"@.len());
        reveal_strlit("PROPPATCH");
        assert("GET"@.len() != "PROPPATCH"@.len());
        reveal_strlit("PUT");
        assert("GET"@[0] != "PUT"@[0]);
        reveal_strlit("REBIND");
        assert("GET"@.len() != "REBIND"@.len());
        reveal_strlit("UNBIND");
        assert("GET"@.len() != "UNBIND"@.len());
        reveal_strlit("UNCHECKOUT");
        assert("GET"@.len() != "UNCHECKOUT"@.len());
        reveal_strlit("UNLINK");
        assert("GET"@.len() != "UNLINK"@.len());
        reveal_strlit("UNLOCK");
        assert("GET"@.len() != "UNLOCK"@.len());
        reveal_strlit("UPDATE");
        assert("GET"@.len() != "UPDATE"@.len());
        reveal_strlit("UPDATEREDIRECTREF");
        assert("GET"@.len() != "UPDATEREDIRECTREF"@.len());
        reveal_strlit("VERSION-CONTROL");
        assert("GET"@.len() != "VERSION-CONTROL"@.len());
    }
    if n == "HEAD"@ {
        reveal_strlit("HEAD");
        reveal_strlit("ACL");
        assert("HEAD"@.len() != "ACL"@.len());
        reveal_strlit("BASELINE-CONTROL");
        assert("HEAD"@.len() != "BASELINE-CONTROL"@.len());
        reveal_strlit("BIND");
        assert("HEAD"@[0] != "BIND"@[0]);
        reveal_strlit("CHECKIN");
        assert("HEAD"@.len() != "CHECKIN"@.len());
        reveal_strlit("CHECKOUT");
        assert("HEAD"@.len() != "CHECKOUT"@.len());
        reveal_strlit("CONNECT");
        assert("HEAD"@.len() != "CONNECT"@.len());
        reveal_strlit("COPY");
        assert("HEAD"@[0] != "COPY"@[0]);
        reveal_strlit("DELETE");
        assert("HEAD"@.len() != "DELETE"@.len());
        reveal_strlit("LABEL");
        assert("HEAD"@.len() != "LABEL"@.len());
        reveal_strlit("LINK");
        assert("HEAD"@[0] != "LINK"@[0]);
        reveal_strlit("LOCK");
        assert("HEAD"@[0] != "LOCK"@[0]);
        reveal_strlit("MERGE");
        assert("HEAD"@.len() != "MERGE"@.len());
        reveal_strlit("MKACTIVITY");
        assert("HEAD"@.len() != "MKACTIVITY"@.len());
        reveal_strlit("MKCALENDAR");
        assert("HEAD"@.len() != "MKCALENDAR"@.len());
        reveal_strlit("MKCOL");
        assert("HEAD"@.len() != "MKCOL"@.len());
        reveal_strlit("MKREDIRECTREF");
        assert("HEAD"@.len() != "MKREDIRECTREF"@.len());
        reveal_strlit("MKWORKSPACE");
        assert("HEAD"@.len() != "MKWORKSPACE"@.len());
        reveal_strlit("MOVE");
        assert("HEAD"@[0] != "MOVE"@[0]);
        reveal_strlit("ORDERPATCH");
        assert("HEAD"@.len() != "ORDERPATCH"@.len());
        reveal_strlit("PATCH");
        assert("HEAD"@.len() != "PATCH"@.len());
        reveal_strlit("POST");
        assert("HEAD"@[0] != "POST"@[0]);
        reveal_strlit("PROPPATCH");
        assert("HEAD"@.len() != "PROPPATCH"@.len());
        reveal_strlit("PUT");
        assert("HEAD"@.len() != "PUT"@.len());
        reveal_strlit("REBIND");
        assert("HEAD"@.len() != "REBIND"@.len());
        reveal_strlit("UNBIND");
        assert("HEAD"@.len() != "UNBIND"@.len());
        reveal_strlit("UNCHECKOUT");
        assert("HEAD"@.len() != "UNCHECKOUT"@.len());
        reveal_strlit("UNLINK");
        assert("HEAD"@.len() != "UNLINK"@.len());
        reveal_strlit("UNLOCK");
        assert("HEAD"@.len() != "UNLOCK"@.len());
        reveal_strlit("UPDATE");
        assert("HEAD"@.len() != "UPDATE"@.len());
        reveal_strlit("UPDATEREDIRECTREF");
        assert("HEAD"@.len() != "UPDATEREDIRECTREF"@.len());
        reveal_strlit("VERSION-CONTROL");
        assert("HEAD"@.len() != "VERSION-CONTROL"@.len());
    }
    if n == "LABEL"@ {
        reveal_strlit("LABEL");
        reveal_strlit("GET");
        assert("LABEL"@.len() != "GET"@.len());
        reveal_strlit("HEAD");
        assert("LABEL"@.len() != "HEAD"@.len());
        reveal_strlit("OPTIONS");
        assert("LABEL"@.len() != "OPTIONS"@.len());
        reveal_strlit("PRI");
        assert("LABEL"@.len() != "PRI"@.len());
        reveal_strlit("PROPFIND");
        assert("LABEL"@.len() != "PROPFIND"@.len());
        reveal_strlit("REPORT");
        assert("LABEL"@.len() != "REPORT"@.len());
        reveal_strlit("SEARCH");
        assert("LABEL"@.len() != "SEARCH"@.len());
        reveal_strlit("TRACE");
        assert("LABEL"@[0] != "TRACE"@[0]);
    }
    if n == "LINK"@ {
        reveal_strlit("LINK");
        reveal_strlit("GET");
        assert("LINK"@.len() != "GET"@.len());
        reveal_strlit("HEAD");
        assert("LINK"@[0] != "HEAD"@[0]);
        reveal_strlit("OPTIONS");
        assert("LINK"@.len() != "OPTIONS"@.len());
        reveal_strlit("PRI");
        assert("LINK"@.len() != "PRI"@.len());
        reveal_strlit("PROPFIND");
        assert("LINK"@.len() != "PROPFIND"@.len());
        reveal_strlit("REPORT");
        assert("LINK"@.len() != "REPORT"@.len());
        reveal_strlit("SEARCH");
        assert("LINK"@.len() != "SEARCH"@.len());
        reveal_strlit("TRACE");
        assert("LINK"@.len() != "TRACE"@.len());
    }
    if n == "LOCK"@ {
        reveal_strlit("LOCK");
        reveal_strlit("GET");
        assert("LOCK"@.len() != "GET"@.len());
        reveal_strlit("HEAD");
        assert("LOCK"@[0] != "HEAD"@[0]);
        reveal_strlit("OPTIONS");
        assert("LOCK"@.len() != "OPTIONS"@.len());
        reveal_strlit("PRI");
        assert("LOCK"@.len() != "PRI"@.len());
        reveal_strlit("PROPFIND");
        assert("LOCK"@.len() != "PROPFIND"@.len());
        reveal_strlit("REPORT");
        assert("LOCK"@.len() != "REPORT"@.len());
        reveal_strlit("SEARCH");
        assert("LOCK"@.len() != "SEARCH"@.len());
        reveal_strlit("TRACE");
        assert("LOCK"@.len() != "TRACE"@.len());
    }
    if n == "MERGE"@ {
        reveal_strlit("MERGE");
        reveal_strlit("GET");
        assert("MERGE"@.len() != "GET"@.len());
        reveal_strlit("HEAD");
        assert("MERGE"@.len() != "HEAD"@.len());
        reveal_strlit("OPTIONS");
        assert("MERGE"@.len() != "OPTIONS"@.len());
        reveal_strlit("PRI");
        assert("MERGE"@.len() != "PRI"@.len());
        reveal_strlit("PROPFIND");
        assert("MERGE"@.len() != "PROPFIND"@.len());
        reveal_strlit("REPORT");
        assert("MERGE"@.len() != "REPORT"@.len());
        reveal_strlit("SEARCH");
        assert("MERGE"@.len() != "SEARCH"@.len());
        reveal_strlit("TRACE");
        assert("MERGE"@[0] != "TRACE"@[0]);
    }
    if n == "MKACTIVITY"@ {
        reveal_strlit("MKACTIVITY");
        reveal_strlit("GET");
        assert("MKACTIVITY"@.len() != "GET"@.len());
        reveal_strlit("HEAD");
        assert("MKACTIVITY"@.len() != "HEAD"@.len());
        reveal_strlit("OPTIONS");
        assert("MKACTIVITY"@.len() != "OPTIONS"@.len());
        reveal_strlit("PRI");
        assert("MKACTIVITY"@.len() != "PRI"@.len());
        reveal_strlit("PROPFIND");
        assert("MKACTIVITY"@.len() != "PROPFIND"@.len());
        reveal_strlit("REPORT");
        assert("MKACTIVITY"@.len() != "REPORT"@.len());
        reveal_strlit("SEARCH");
        assert("MKACTIVITY"@.len() != "SEARCH"@.len());
        reveal_strlit("TRACE");
        assert("MKACTIVITY"@.len() != "TRACE"@.len());
    }
    if n == "MKCALENDAR"@ {
        reveal_strlit("MKCALENDAR");
        reveal_strlit("GET");
        assert("MKCALENDAR"@.len() != "GET"@.len());
        reveal_strlit("HEAD");
        assert("MKCALENDAR"@.len() != "HEAD"@.len());
        reveal_strlit("OPTIONS");
        assert("MKCALENDAR"@.len() != "OPTIONS"@.len());
        reveal_strlit("PRI");
        assert("MKCALENDAR"@.len() != "PRI"@.len());
        reveal_strlit("PROPFIND");
        assert("MKCALENDAR"@.len() != "PROPFIND"@.len());
        reveal_strlit("REPORT");
        assert("MKCALENDAR"@.len() != "REPORT"@.len());
        reveal_strlit("SEARCH");
        assert("MKCALENDAR"@.len() != "SEARCH"@.len());
        reveal_strlit("TRACE");
        assert("MKCALENDAR"@.len() != "TRACE"@.len());
    }
    if n == "MKCOL"@ {
        reveal_strlit("MKCOL");
        reveal_strlit("GET");
        assert("MKCOL"@.len() != "GET"@.len());
        reveal_strlit("HEAD");
        assert("MKCOL"@.len() != "HEAD"@.len());
        reveal_strlit("OPTIONS");
        assert("MKCOL"@.len() != "OPTIONS"@.len());
        reveal_strlit("PRI");
        assert("MKCOL"@.len() != "PRI"@.len());
        reveal_strlit("PROPFIND");
        assert("MKCOL"@.len() != "PROPFIND"@.len());
        reveal_strlit("REPORT");
        assert("MKCOL"@.len() != "REPORT"@.len());
        reveal_strlit("SEARCH");
        assert("MKCOL"@.len() != "SEARCH"@.len());
        reveal_strlit("TRACE");
        assert("MKCOL"@[0] != "TRACE"@[0]);
    }
    if n == "MKREDIRECTREF"@ {
        reveal_strlit("MKREDIRECTREF");
        reveal_strlit("GET");
        assert("MKREDIRECTREF"@.len() != "GET"@.len());
        reveal_strlit("HEAD");
        assert("MKREDIRECTREF"@.len() != "HEAD"@.len());
        reveal_strlit("OPTIONS");
        assert("MKREDIRECTREF"@.len() != "OPTIONS"@.len());
        reveal_strlit("PRI");
        assert("MKREDIRECTREF"@.len() != "PRI"@.len());
        reveal_strlit("PROPFIND");
        assert("MKREDIRECTREF"@.len() != "PROPFIND"@.len());
        reveal_strlit("REPORT");
        assert("MKREDIRECTREF"@.len() != "REPORT"@.len());
        reveal_strlit("SEARCH");
        assert("MKREDIRECTREF"@.len() != "SEARCH"@.len());
        reveal_strlit("TRACE");
        assert("MKREDIRECTREF"@.len() != "TRACE"@.len());
    }
    if n == "MKWORKSPACE"@ {
        reveal_strlit("MKWORKSPACE");
        reveal_strlit("GET");
        assert("MKWORKSPACE"@.len() != "GET"@.len());
        reveal_strlit("HEAD");
        assert("MKWORKSPACE"@.len() != "HEAD"@.len());
        reveal_strlit("OPTIONS");
        assert("MKWORKSPACE"@.len() != "OPTIONS"@.len());
        reveal_strlit("PRI");
        assert("MKWORKSPACE"@.len() != "PRI"@.len());
        reveal_strlit("PROPFIND");
        assert("MKWORKSPACE"@.len() != "PROPFIND"@.len());
        reveal_strlit("REPORT");
        assert("MKWORKSPACE"@.len() != "REPORT"@.len());
        reveal_strlit("SEARCH");
        assert("MKWORKSPACE"@.len() != "SEARCH"@.len());
        reveal_strlit("TRACE");
        assert("MKWORKSPACE"@.len() != "TRACE"@.len());
    }
    if n == "MOVE"@ {
        reveal_strlit("MOVE");
        reveal_strlit("GET");
        assert("MOVE"@.len() != "GET"@.len());
        reveal_strlit("HEAD");
        assert("MOVE"@[0] != "HEAD"@[0]);
        reveal_strlit("OPTIONS");
        assert("MOVE"@.len() != "OPTIONS"@.len());
        reveal_strlit("PRI");
        assert("MOVE"@.len() != "PRI"@.len());
        reveal_strlit("PROPFIND");
        assert("MOVE"@.len() != "PROPFIND"@.len());
        reveal_strlit("REPORT");
        assert("MOVE"@.len() != "REPORT"@.len());
        reveal_strlit("SEARCH");
        assert("MOVE"@.len() != "SEARCH"@.len());
        reveal_strlit("TRACE");
        assert("MOVE"@.len() != "TRACE"@.len());
    }
    if n == "OPTIONS"@ {
        reveal_strlit("OPTIONS");
        reveal_strlit("ACL");
        assert("OPTIONS"@.len() != "ACL"@.len());
        reveal_strlit("BASELINE-CONTROL");
        assert("OPTIONS"@.len() != "BASELINE-CONTROL"@.len());
        reveal_strlit("BIND");
        assert("OPTIONS"@.len() != "BIND"@.len());
        reveal_strlit("CHECKIN");
        assert("OPTIONS"@[0] != "CHECKIN"@[0]);
        reveal_strlit("CHECKOUT");
        assert("OPTIONS"@.len() != "CHECKOUT"@.len());
        reveal_strlit("CONNECT");
        assert("OPTIONS"@[0] != "CONNECT"@[0]);
        reveal_strlit("COPY");
        assert("OPTIONS"@.len() != "COPY"@.len());
        reveal_strlit("DELETE");
        assert("OPTIONS"@.len() != "DELETE"@.len());
        reveal_strlit("LABEL");
        assert("OPTIONS"@.len() != "LABEL"@.len());
        reveal_strlit("LINK");
        assert("OPTIONS"@.len() != "LINK"@.len());
        reveal_strlit("LOCK");
        assert("OPTIONS"@.len() != "LOCK"@.len());
        reveal_strlit("MERGE");
        assert("OPTIONS"@.len() != "MERGE"@.len());
        reveal_strlit("MKACTIVITY");
        assert("OPTIONS"@.len() != "MKACTIVITY"@.len());
        reveal_strlit("MKCALENDAR");
        assert("OPTIONS"@.len() != "MKCALENDAR"@.len());
        reveal_strlit("MKCOL");
        assert("OPTIONS"@.len() != "MKCOL"@.len());
        reveal_strlit("MKREDIRECTREF");
        assert("OPTIONS"@.len() != "MKREDIRECTREF"@.len());
        reveal_strlit("MKWORKSPACE");
        assert("OPTIONS"@.len() != "MKWORKSPACE"@.len());
        reveal_strlit("MOVE");
        assert("OPTIONS"@.len() != "MOVE"@.len());
        reveal_strlit("ORDERPATCH");
        assert("OPTIONS"@.len() != "ORDERPATCH"@.len());
        reveal_strlit("PATCH");
        assert("OPTIONS"@.len() != "PATCH"@.len());
        reveal_strlit("POST");
        assert("OPTIONS"@.len() != "POST"@.len());
        reveal_strlit("PROPPATCH");
        assert("OPTIONS"@.len() != "PROPPATCH"@.len());
        reveal_strlit("PUT");
        assert("OPTIONS"@.len() != "PUT"@.len());
        reveal_strlit("REBIND");
        assert("OPTIONS"@.len() != "REBIND"@.len());
        reveal_strlit("UNBIND");
        assert("OPTIONS"@.len() != "UNBIND"@.len());
        reveal_strlit("UNCHECKOUT");
        assert("OPTIONS"@.len() != "UNCHECKOUT"@.len());
        reveal_strlit("UNLINK");
        assert("OPTIONS"@.len() != "UNLINK"@.len());
        reveal_strlit("UNLOCK");
        assert("OPTIONS"@.len() != "UNLOCK"@.len());
        reveal_strlit("UPDATE");
        assert("OPTIONS"@.len() != "UPDATE"@.len());
        reveal_strlit("UPDATEREDIRECTREF");
        assert("OPTIONS"@.len() != "UPDATEREDIRECTREF"@.len());
        reveal_strlit("VERSION-CONTROL");
        assert("OPTIONS"@.len() != "VERSION-CONTROL"@.len());
    }
    if n == "ORDERPATCH"@ {
        reveal_strlit("ORDERPATCH");
        reveal_strlit("GET");
        assert("ORDERPATCH"@.len() != "GET"@.len());
        reveal_strlit("HEAD");
        assert("ORDERPATCH"@.len() != "HEAD"@.len());
        reveal_strlit("OPTIONS");
        assert("ORDERPATCH"@.len() != "OPTIONS"@.len());
        reveal_strlit("PRI");
        assert("ORDERPATCH"@.len() != "PRI"@.len());
        reveal_strlit("PROPFIND");
        assert("ORDERPATCH"@.len() != "PROPFIND"@.len());
        reveal_strlit("REPORT");
        assert("ORDERPATCH"@.len() != "REPORT"@.len());
        reveal_strlit("SEARCH");
        assert("ORDERPATCH"@.len() != "SEARCH"@.len());
        reveal_strlit("TRACE");
        assert("ORDERPATCH"@.len() != "TRACE"@.len());
    }
    if n == "PATCH"@ {
        reveal_strlit("PATCH");
        reveal_strlit("GET");
        assert("PATCH"@.len() != "GET"@.len());
        reveal_strlit("HEAD");
        assert("PATCH"@.len() != "HEAD"@.len());
        reveal_strlit("OPTIONS");
        assert("PATCH"@.len() != "OPTIONS"@.len());
        reveal_strlit("PRI");
        assert("PATCH"@.len() != "PRI"@.len());
        reveal_strlit("PROPFIND");
        assert("PATCH"@.len() != "PROPFIND"@.len());
        reveal_strlit("REPORT");
        assert("PATCH"@.len() != "REPORT"@.len());
        reveal_strlit("SEARCH");
        assert("PATCH"@.len() != "SEARCH"@.len());
        reveal_strlit("TRACE");
        assert("PATCH"@[0] != "TRACE"@[0]);
    }
    if n == "POST"@ {
        reveal_strlit("POST");
        reveal_strlit("GET");
        assert("POST"@.len() != "GET"@.len());
        reveal_strlit("HEAD");
        assert("POST"@[0] != "HEAD"@[0]);
        reveal_strlit("OPTIONS");
        assert("POST"@.len() != "OPTIONS"@.len());
        reveal_strlit("PRI");
        assert("POST"@.len() != "PRI"@.len());
        reveal_strlit("PROPFIND");
        assert("POST"@.len() != "PROPFIND"@.len());
        reveal_strlit("REPORT");
        assert("POST"@.len() != "REPORT"@.len());
        reveal_strlit("SEARCH");
        assert("POST"@.len() != "SEARCH"@.len());
        reveal_strlit("TRACE");
        assert("POST"@.len() != "TRACE"@.len());
    }
    if n == "PRI"@ {
        reveal_strlit("PRI");
        reveal_strlit("ACL");
        assert("PRI"@[0] != "ACL"@[0]);
        reveal_strlit("BASELINE-CONTROL");
        assert("PRI"@.len() != "BASELINE-CONTROL"@.len());
        reveal_strlit("BIND");
        assert("PRI"@.len() != "BIND"@.len());
        reveal_strlit("CHECKIN");
        assert("PRI"@.len() != "CHECKIN"@.len());
        reveal_strlit("CHECKOUT");
        assert("PRI"@.len() != "CHECKOUT"@.len());
        reveal_strlit("CONNECT");
        assert("PRI"@.len() != "CONNECT"@.len());
        reveal_strlit("COPY");
        assert("PRI"@.len() != "COPY"@.len());
        reveal_strlit("DELETE");
        assert("PRI"@.len() != "DELETE"@.len());
        reveal_strlit("LABEL");
        assert("PRI"@.len() != "LABEL"@.len());
        reveal_strlit("LINK");
        assert("PRI"@.len() != "LINK"@.len());
        reveal_strlit("LOCK");
        assert("PRI"@.len() != "LOCK"@.len());
        reveal_strlit("MERGE");
        assert("PRI"@.len() != "MERGE"@.len());
        reveal_strlit("MKACTIVITY");
        assert("PRI"@.len() != "MKACTIVITY"@.len());
        reveal_strlit("MKCALENDAR");
        assert("PRI"@.len() != "MKCALENDAR"@.len());
        reveal_strlit("MKCOL");
        assert("PRI"@.len() != "MKCOL"@.len());
        reveal_strlit("MKREDIRECTREF");
        assert("PRI"@.len() != "MKREDIRECTREF"@.len());
        reveal_strlit("MKWORKSPACE");
        assert("PRI"@.len() != "MKWORKSPACE"@.len());
        reveal_strlit("MOVE");
        assert("PRI"@.len() != "MOVE"@.len());
        reveal_strlit("ORDERPATCH");
        assert("PRI"@.len() != "ORDERPATCH"@.len());
        reveal_strlit("PATCH");
        assert("PRI"@.len() != "PATCH"@.len());
        reveal_strlit("POST");
        assert("PRI"@.len() != "POST"@.len());
        reveal_strlit("PROPPATCH");
        assert("PRI"@.len() != "PROPPATCH"@.len());
        reveal_strlit("PUT");
        assert("PRI"@[1] != "PUT"@[1]);
        reveal_strlit("REBIND");
        assert("PRI"@.len() != "REBIND"@.len());
        reveal_strlit("UNBIND");
        assert("PRI"@.len() != "UNBIND"@.len());
        reveal_strlit("UNCHECKOUT");
        assert("PRI"@.len() != "UNCHECKOUT"@.len());
        reveal_strlit("UNLINK");
        assert("PRI"@.len() != "UNLINK"@.len());
        reveal_strlit("UNLOCK");
        assert("PRI"@.len() != "UNLOCK"@.len());
        reveal_strlit("UPDATE");
        assert("PRI"@.len() != "UPDATE"@.len());
        reveal_strlit("UPDATEREDIRECTREF");
        assert("PRI"@.len() != "UPDATEREDIRECTREF"@.len());
        reveal_strlit("VERSION-CONTROL");
        assert("PRI"@.len() != "VERSION-CONTROL"@.len());
    }
    if n == "PROPFIND"@ {
        reveal_strlit("PROPFIND");
        reveal_strlit("ACL");
        assert("PROPFIND"@.len() != "ACL"@.len());
        reveal_strlit("BASELINE-CONTROL");
        assert("PROPFIND"@.len() != "BASELINE-CONTROL"@.len());
        reveal_strlit("BIND");
        assert("PROPFIND"@.len() != "BIND"@.len());
        reveal_strlit("CHECKIN");
        assert("PROPFIND"@.len() != "CHECKIN"@.len());
        reveal_strlit("CHECKOUT");
        assert("PROPFIND"@[0] != "CHECKOUT"@[0]);
        reveal_strlit("CONNECT");
        assert("PROPFIND"@.len() != "CONNECT"@.len());
        reveal_strlit("COPY");
        assert("PROPFIND"@.len() != "COPY"@.len());
        reveal_strlit("DELETE");
        assert("PROPFIND"@.len() != "DELETE"@.len());
        reveal_strlit("LABEL");
        assert("PROPFIND"@.len() != "LABEL"@.len());
        reveal_strlit("LINK");
        assert("PROPFIND"@.len() != "LINK"@.len());
        reveal_strlit("LOCK");
        assert("PROPFIND"@.len() != "LOCK"@.len());
        reveal_strlit("MERGE");
        assert("PROPFIND"@.len() != "MERGE"@.len());
        reveal_strlit("MKACTIVITY");
        assert("PROPFIND"@.len() != "MKACTIVITY"@.len());
        reveal_strlit("MKCALENDAR");
        assert("PROPFIND"@.len() != "MKCALENDAR"@.len());
        reveal_strlit("MKCOL");
        assert("PROPFIND"@.len() != "MKCOL"@.len());
        reveal_strlit("MKREDIRECTREF");
        assert("PROPFIND"@.len() != "MKREDIRECTREF"@.len());
        reveal_strlit("MKWORKSPACE");
        assert("PROPFIND"@.len() != "MKWORKSPACE"@.len());
        reveal_strlit("MOVE");
        assert("PROPFIND"@.len() != "MOVE"@.len());
        reveal_strlit("ORDERPATCH");
        assert("PROPFIND"@.len() != "ORDERPATCH"@.len());
        reveal_strlit("PATCH");
        assert("PROPFIND"@.len() != "PATCH"@.len());
        reveal_strlit("POST");
        assert("PROPFIND"@.len() != "POST"@.len());
        reveal_strlit("PROPPATCH");
        assert("PROPFIND"@.len() != "PROPPATCH"@.len());
        reveal_strlit("PUT");
        assert("PROPFIND"@.len() != "PUT"@.len());
        reveal_strlit("REBIND");
        assert("PROPFIND"@.len() != "REBIND"@.len());
        reveal_strlit("UNBIND");
        assert("PROPFIND"@.len() != "UNBIND"@.len());
        reveal_strlit("UNCHECKOUT");
        assert("PROPFIND"@.len() != "UNCHECKOUT"@.len());
        reveal_strlit("UNLINK");
        assert("PROPFIND"@.len() != "UNLINK"@.len());
        reveal_strlit("UNLOCK");
        assert("PROPFIND"@.len() != "UNLOCK"@.len());
        reveal_strlit("UPDATE");
        assert("PROPFIND"@.len() != "UPDATE"@.len());
        reveal_strlit("UPDATEREDIRECTREF");
        assert("PROPFIND"@.len() != "UPDATEREDIRECTREF"@.len());
        reveal_strlit("VERSION-CONTROL");
        assert("PROPFIND"@.len() != "VERSION-CONTROL"@.len());
    }
    if n == "PROPPATCH"@ {
        reveal_strlit("PROPPATCH");
        reveal_strlit("GET");
        assert("PROPPATCH"@.len() != "GET"@.len());
        reveal_strlit("HEAD");
        assert("PROPPATCH"@.len() != "HEAD"@.len());
        reveal_strlit("OPTIONS");
        assert("PROPPATCH"@.len() != "OPTIONS"@.len());
        reveal_strlit("PRI");
        assert("PROPPATCH"@.len() != "PRI"@.len());
        reveal_strlit("PROPFIND");
        assert("PROPPATCH"@.len() != "PROPFIND"@.len());
        reveal_strlit("REPORT");
        assert("PROPPATCH"@.len() != "REPORT"@.len());
        reveal_strlit("SEARCH");
        assert("PROPPATCH"@.len() != "SEARCH"@.len());
        reveal_strlit("TRACE");
        assert("PROPPATCH"@.len() != "TRACE"@.len());
    }
    if n == "PUT"@ {
        reveal_strlit("PUT");
        reveal_strlit("GET");
        assert("PUT"@[0] != "GET"@[0]);
        reveal_strlit("HEAD");
        assert("PUT"@.len() != "HEAD"@.len());
        reveal_strlit("OPTIONS");
        assert("PUT"@.len() != "OPTIONS"@.len());
        reveal_strlit("PRI");
        assert("PUT"@[1] != "PRI"@[1]);
        reveal_strlit("PROPFIND");
        assert("PUT"@.len() != "PROPFIND"@.len());
        reveal_strlit("REPORT");
        assert("PUT"@.len() != "REPORT"@.len());
        reveal_strlit("SEARCH");
        assert("PUT"@.len() != "SEARCH"@.len());
        reveal_strlit("TRACE");
        assert("PUT"@.len() != "TRACE"@.len());
    }
    if n == "REBIND"@ {
        reveal_strlit("REBIND");
        reveal_strlit("GET");
        assert("REBIND"@.len() != "GET"@.len());
        reveal_strlit("HEAD");
        assert("REBIND"@.len() != "HEAD"@.len());
        reveal_strlit("OPTIONS");
        assert("REBIND"@.len() != "OPTIONS"@.len());
        reveal_strlit("PRI");
        assert("REBIND"@.len() != "PRI"@.len());
        reveal_strlit("PROPFIND");
        assert("REBIND"@.len() != "PROPFIND"@.len());
        reveal_strlit("REPORT");
        assert("REBIND"@[2] != "REPORT"@[2]);
        reveal_strlit("SEARCH");
        assert("REBIND"@[0] != "SEARCH"@[0]);
        reveal_strlit("TRACE");
        assert("REBIND"@.len() != "TRACE"@.len());
    }
    if n == "REPORT"@ {
        reveal_strlit("REPORT");
        reveal_strlit("ACL");
        assert("REPORT"@.len() != "ACL"@.len());
        reveal_strlit("BASELINE-CONTROL");
        assert("REPORT"@.len() != "BASELINE-CONTROL"@.len());
        reveal_strlit("BIND");
        assert("REPORT"@.len() != "BIND"@.len());
        reveal_strlit("CHECKIN");
        assert("REPORT"@.len() != "CHECKIN"@.len());
        reveal_strlit("CHECKOUT");
        assert("REPORT"@.len() != "CHECKOUT"@.len());
        reveal_strlit("CONNECT");
        assert("REPORT"@.len() != "CONNECT"@.len());
        reveal_strlit("COPY");
        assert("REPORT"@.len() != "COPY"@.len());
        reveal_strlit("DELETE");
        assert("REPORT"@[0] != "DELETE"@[0]);
        reveal_strlit("LABEL");
        assert("REPORT"@.len() != "LABEL"@.len());
        reveal_strlit("LINK");
        assert("REPORT"@.len() != "LINK"@.len());
        reveal_strlit("LOCK");
        assert("REPORT"@.len() != "LOCK"@.len());
        reveal_strlit("MERGE");
        assert("REPORT"@.len() != "MERGE"@.len());
        reveal_strlit("MKACTIVITY");
        assert("REPORT"@.len() != "MKACTIVITY"@.len());
        reveal_strlit("MKCALENDAR");
        assert("REPORT"@.len() != "MKCALENDAR"@.len());
        reveal_strlit("MKCOL");
        assert("REPORT"@.len() != "MKCOL"@.len());
        reveal_strlit("MKREDIRECTREF");
        assert("REPORT"@.len() != "MKREDIRECTREF"@.len());
        reveal_strlit("MKWORKSPACE");
        assert("REPORT"@.len() != "MKWORKSPACE"@.len());
        reveal_strlit("MOVE");
        assert("REPORT"@.len() != "MOVE"@.len());
        reveal_strlit("ORDERPATCH");
        assert("REPORT"@.len() != "ORDERPATCH"@.len());
        reveal_strlit("PATCH");
        assert("REPORT"@.len() != "PATCH"@.len());
        reveal_strlit("POST");
        assert("REPORT"@.len() != "POST"@.len());
        reveal_strlit("PROPPATCH");
        assert("REPORT"@.len() != "PROPPATCH"@.len());
        reveal_strlit("PUT");
        assert("REPORT"@.len() != "PUT"@.len());
        reveal_strlit("REBIND");
        assert("REPORT"@[2] != "REBIND"@[2]);
        reveal_strlit("UNBIND");
        assert("REPORT"@[0] != "UNBIND"@[0]);
        reveal_strlit("UNCHECKOUT");
        assert("REPORT"@.len() != "UNCHECKOUT"@.len());
        reveal_strlit("UNLINK");
        assert("REPORT"@[0] != "UNLINK"@[0]);
        reveal_strlit("UNLOCK");
        assert("REPORT"@[0] != "UNLOCK"@[0]);
        reveal_strlit("UPDATE");
        assert("REPORT"@[0] != "UPDATE"@[0]);
        reveal_strlit("UPDATEREDIRECTREF");
        assert("REPORT"@.len() != "UPDATEREDIRECTREF"@.len());
        reveal_strlit("VERSION-CONTROL");
        assert("REPORT"@.len() != "VERSION-CONTROL"@.len());
    }
    if n == "SEARCH"@ {
        reveal_strlit("SEARCH");
        reveal_strlit("ACL");
        assert("SEARCH"@.len() != "ACL"@.len());
        reveal_strlit("BASELINE-CONTROL");
        assert("SEARCH"@.len() != "BASELINE-CONTROL"@.len());
        reveal_strlit("BIND");
        assert("SEARCH"@.len() != "BIND"@.len());
        reveal_strlit("CHECKIN");
        assert("SEARCH"@.len() != "CHECKIN"@.len());
        reveal_strlit("CHECKOUT");
        assert("SEARCH"@.len() != "CHECKOUT"@.len());
        reveal_strlit("CONNECT");
        assert("SEARCH"@.len() != "CONNECT"@.len());
        reveal_strlit("COPY");
        assert("SEARCH"@.len() != "COPY"@.len());
        reveal_strlit("DELETE");
        assert("SEARCH"@[0] != "DELETE"@[0]);
        reveal_strlit("LABEL");
        assert("SEARCH"@.len() != "LABEL"@.len());
        reveal_strlit("LINK");
        assert("SEARCH"@.len() != "LINK"@.len());
        reveal_strlit("LOCK");
        assert("SEARCH"@.len() != "LOCK"@.len());
        reveal_strlit("MERGE");
        assert("SEARCH"@.len() != "MERGE"@.len());
        reveal_strlit("MKACTIVITY");
        assert("SEARCH"@.len() != "MKACTIVITY"@.len());
        reveal_strlit("MKCALENDAR");
        assert("SEARCH"@.len() != "MKCALENDAR"@.len());
        reveal_strlit("MKCOL");
        assert("SEARCH"@.len() != "MKCOL"@.len());
        reveal_strlit("MKREDIRECTREF");
        assert("SEARCH"@.len() != "MKREDIRECTREF"@.len());
        reveal_strlit("MKWORKSPACE");
        assert("SEARCH"@.len() != "MKWORKSPACE"@.len());
        reveal_strlit("MOVE");
        assert("SEARCH"@.len() != "MOVE"@.len());
        reveal_strlit("ORDERPATCH");
        assert("SEARCH"@.len() != "ORDERPATCH"@.len());
        reveal_strlit("PATCH");
        assert("SEARCH"@.len() != "PATCH"@.len());
        reveal_strlit("POST");
        assert("SEARCH"@.len() != "POST"@.len());
        reveal_strlit("PROPPATCH");
        assert("SEARCH"@.len() != "PROPPATCH"@.len());
        reveal_strlit("PUT");
        assert("SEARCH"@.len() != "PUT"@.len());
        reveal_strlit("REBIND");
        assert("SEARCH"@[0] != "REBIND"@[0]);
        reveal_strlit("UNBIND");
        assert("SEARCH"@[0] != "UNBIND"@[0]);
        reveal_strlit("UNCHECKOUT");
        assert("SEARCH"@.len() != "UNCHECKOUT"@.len());
        reveal_strlit("UNLINK");
        assert("SEARCH"@[0] != "UNLINK"@[0]);
        reveal_strlit("UNLOCK");
        assert("SEARCH"@[0] != "UNLOCK"@[0]);
        reveal_strlit("UPDATE");
        assert("SEARCH"@[0] != "UPDATE"@[0]);
        reveal_strlit("UPDATEREDIRECTREF");
        assert("SEARCH"@.len() != "UPDATEREDIRECTREF"@.len());
        reveal_strlit("VERSION-CONTROL");
        assert("SEARCH"@.len() != "VERSION-CONTROL"@.len());
    }
    if n == "TRACE"@ {
        reveal_strlit("TRACE");
        reveal_strlit("ACL");
        assert("TRACE"@.len() != "ACL"@.len());
        reveal_strlit("BASELINE-CONTROL");
        assert("TRACE"@.len() != "BASELINE-CONTROL"@.len());
        reveal_strlit("BIND");
        assert("TRACE"@.len() != "BIND"@.len());
        reveal_strlit("CHECKIN");
        assert("TRACE"@.len() != "CHECKIN"@.len());
        reveal_strlit("CHECKOUT");
        assert("TRACE"@.len() != "CHECKOUT"@.len());
        reveal_strlit("CONNECT");
        assert("TRACE"@.len() != "CONNECT"@.len());
        reveal_strlit("COPY");
        assert("TRACE"@.len() != "COPY"@.len());
        reveal_strlit("DELETE");
        assert("TRACE"@.len() != "DELETE"@.len());
        reveal_strlit("LABEL");
        assert("TRACE"@[0] != "LABEL"@[0]);
        reveal_strlit("LINK");
        assert("TRACE"@.len() != "LINK"@.len());
        reveal_strlit("LOCK");
        assert("TRACE"@.len() != "LOCK"@.len());
        reveal_strlit("MERGE");
        assert("TRACE"@[0] != "MERGE"@[0]);
        reveal_strlit("MKACTIVITY");
        assert("TRACE"@.len() != "MKACTIVITY"@.len());
        reveal_strlit("MKCALENDAR");
        assert("TRACE"@.len() != "MKCALENDAR"@.len());
        reveal_strlit("MKCOL");
        assert("TRACE"@[0] != "MKCOL"@[0]);
        reveal_strlit("MKREDIRECTREF");
        assert("TRACE"@.len() != "MKREDIRECTREF"@.len());
        reveal_strlit("MKWORKSPACE");
        assert("TRACE"@.len() != "MKWORKSPACE"@.len());
        reveal_strlit("MOVE");
        assert("TRACE"@.len() != "MOVE"@.len());
        reveal_strlit("ORDERPATCH");
        assert("TRACE"@.len() != "ORDERPATCH"@.len());
        reveal_strlit("PATCH");
        assert("TRACE"@[0] != "PATCH"@[0]);
        reveal_strlit("POST");
        assert("TRACE"@.len() != "POST"@.len());
        reveal_strlit("PROPPATCH");
        assert("TRACE"@.len() != "PROPPATCH"@.len());
        reveal_strlit("PUT");
        assert("TRACE"@.len() != "PUT"@.len());
        reveal_strlit("REBIND");
        assert("TRACE"@.len() != "REBIND"@.len());
        reveal_strlit("UNBIND");
        assert("TRACE"@.len() != "UNBIND"@.len());
        reveal_strlit("UNCHECKOUT");
        assert("TRACE"@.len() != "UNCHECKOUT"@.len());
        reveal_strlit("UNLINK");
        assert("TRACE"@.len() != "UNLINK"@.len());
        reveal_strlit("UNLOCK");
        assert("TRACE"@.len() != "UNLOCK"@.len());
        reveal_strlit("UPDATE");
        assert("TRACE"@.len() != "UPDATE"@.len());
        reveal_strlit("UPDATEREDIRECTREF");
        assert("TRACE"@.len() != "UPDATEREDIRECTREF"@.len());
        reveal_strlit("VERSION-CONTROL");
        assert("TRACE"@.len() != "VERSION-CONTROL"@.len());
    }
    if n == "UNBIND"@ {
        reveal_strlit("UNBIND");
        reveal_strlit("GET");
        assert("UNBIND"@.len() != "GET"@.len());
        reveal_strlit("HEAD");
        assert("UNBIND"@.len() != "HEAD"@.len());
        reveal_strlit("OPTIONS");
        assert("UNBIND"@.len() != "OPTIONS"@.len());
        reveal_strlit("PRI");
        assert("UNBIND"@.len() != "PRI"@.len());
        reveal_strlit("PROPFIND");
        assert("UNBIND"@.len() != "PROPFIND"@.len());
        reveal_strlit("REPORT");
        assert("UNBIND"@[0] != "REPORT"@[0]);
        reveal_strlit("SEARCH");
        assert("UNBIND"@[0] != "SEARCH"@[0]);
        reveal_strlit("TRACE");
        assert("UNBIND"@.len() != "TRACE"@.len());
    }
    if n == "UNCHECKOUT"@ {
        reveal_strlit("UNCHECKOUT");
        reveal_strlit("GET");
        assert("UNCHECKOUT"@.len() != "GET"@.len());
        reveal_strlit("HEAD");
        assert("UNCHECKOUT"@.len() != "HEAD"@.len());
        reveal_strlit("OPTIONS");
        assert("UNCHECKOUT"@.len() != "OPTIONS"@.len());
        reveal_strlit("PRI");
        assert("UNCHECKOUT"@.len() != "PRI"@.len());
        reveal_strlit("PROPFIND");
        assert("UNCHECKOUT"@.len() != "PROPFIND"@.len());
        reveal_strlit("REPORT");
        assert("UNCHECKOUT"@.len() != "REPORT"@.len());
        reveal_strlit("SEARCH");
        assert("UNCHECKOUT"@.len() != "SEARCH"@.len());
        reveal_strlit("TRACE");
        assert("UNCHECKOUT"@.len() != "TRACE"@.len());
    }
    if n == "UNLINK"@ {
        reveal_strlit("UNLINK");
        reveal_strlit("GET");
        assert("UNLINK"@.len() != "GET"@.len());
        reveal_strlit("HEAD");
        assert("UNLINK"@.len() != "HEAD"@.len());
        reveal_strlit("OPTIONS");
        assert("UNLINK"@.len() != "OPTIONS"@.len());
        reveal_strlit("PRI");
        assert("UNLINK"@.len() != "PRI"@.len());
        reveal_strlit("PROPFIND");
        assert("UNLINK"@.len() != "PROPFIND"@.len());
        reveal_strlit("REPORT");
        assert("UNLINK"@[0] != "REPORT"@[0]);
        reveal_strlit("SEARCH");
        assert("UNLINK"@[0] != "SEARCH"@[0]);
        reveal_strlit("TRACE");
        assert("UNLINK"@.len() != "TRACE"@.len());
    }
    if n == "UNLOCK"@ {
        reveal_strlit("UNLOCK");
        reveal_strlit("GET");
        assert("UNLOCK"@.len() != "GET"@.len());
        reveal_strlit("HEAD");
        assert("UNLOCK"@.len() != "HEAD"@.len());
        reveal_strlit("OPTIONS");
        assert("UNLOCK"@.len() != "OPTIONS"@.len());
        reveal_strlit("PRI");
        assert("UNLOCK"@.len() != "PRI"@.len());
        reveal_strlit("PROPFIND");
        assert("UNLOCK"@.len() != "PROPFIND"@.len());
        reveal_strlit("REPORT");
        assert("UNLOCK"@[0] != "REPORT"@[0]);
        reveal_strlit("SEARCH");
        assert("UNLOCK"@[0] != "SEARCH"@[0]);
        reveal_strlit("TRACE");
        assert("UNLOCK"@.len() != "TRACE"@.len());
    }
    if n == "UPDATE"@ {
        reveal_strlit("UPDATE");
        reveal_strlit("GET");
        assert("UPDATE"@.len() != "GET"@.len());
        reveal_strlit("HEAD");
        assert("UPDATE"@.len() != "HEAD"@.len());
        reveal_strlit("OPTIONS");
        assert("UPDATE"@.len() != "OPTIONS"@.len());
        reveal_strlit("PRI");
        assert("UPDATE"@.len() != "PRI"@.len());
        reveal_strlit("PROPFIND");
        assert("UPDATE"@.len() != "PROPFIND"@.len());
        reveal_strlit("REPORT");
        assert("UPDATE"@[0] != "REPORT"@[0]);
        reveal_strlit("SEARCH");
        assert("UPDATE"@[0] != "SEARCH"@[0]);
        reveal_strlit("TRACE");
        assert("UPDATE"@.len() != "TRACE"@.len());
    }
    if n == "UPDATEREDIRECTREF"@ {
        reveal_strlit("UPDATEREDIRECTREF");
        reveal_strlit("GET");
        assert("UPDATEREDIRECTREF"@.len() != "GET"@.len());
        reveal_strlit("HEAD");
        assert("UPDATEREDIRECTREF"@.len() != "HEAD"@.len());
        reveal_strlit("OPTIONS");
        assert("UPDATEREDIRECTREF"@.len() != "OPTIONS"@.len());
        reveal_strlit("PRI");
        assert("UPDATEREDIRECTREF"@.len() != "PRI"@.len());
        reveal_strlit("PROPFIND");
        assert("UPDATEREDIRECTREF"@.len() != "PROPFIND"@.len());
        reveal_strlit("REPORT");
        assert("UPDATEREDIRECTREF"@.len() != "REPORT"@.len());
        reveal_strlit("SEARCH");
        assert("UPDATEREDIRECTREF"@.len() != "SEARCH"@.len());
        reveal_strlit("TRACE");
        assert("UPDATEREDIRECTREF"@.len() != "TRACE"@.len());
    }
    if n == "VERSION-CONTROL"@ {
        reveal_strlit("VERSION-CONTROL");
        reveal_strlit("GET");
        assert("VERSION-CONTROL"@.len() != "GET"@.len());
        reveal_strlit("HEAD");
        assert("VERSION-CONTROL"@.len() != "HEAD"@.len());
        reveal_strlit("OPTIONS");
        assert("VERSION-CONTROL"@.len() != "OPTIONS"@.len());
        reveal_strlit("PRI");
        assert("VERSION-CONTROL"@.len() != "PRI"@.len());
        reveal_strlit("PROPFIND");
        assert("VERSION-CONTROL"@.len() != "PROPFIND"@.len());
        reveal_strlit("REPORT");
        assert("VERSION-CONTROL"@.len() != "REPORT"@.len());
        reveal_strlit("SEARCH");
        assert("VERSION-CONTROL"@.len() != "SEARCH"@.len());
        reveal_strlit("TRACE");
        assert("VERSION-CONTROL"@.len() != "TRACE"@.len());
    }
}

/// What parsing a route's method gives: `SOCKET` and `METRICS` are the framework's kinds,
/// anything else is parsed as an HTTP method.
pub open spec fn spec_parse_method(s: Seq<char>) -> Option<Seq<char>> {
    if s == "SOCKET"@ {
        Some("SOCKET"@)
    } else if s == "METRICS"@ {
        Some("METRICS"@)
    } else {
        http_method_parse(s)
    }
}

/// The error for a string that names no method.
#[derive(Clone, Copy, Debug, PartialEq, Eq, Structural)]
pub struct ParseMethodError;

impl Method {
    /// The HTTP GET method.
    pub fn get() -> (r: Method)
        ensures
            r is Http,
            r@ == "GET"@,
            r.spec_wf(),
    {
        Method::Http(HttpMethod::named("GET"))
    }

    /// The HTTP POST method.
    pub fn post() -> (r: Method)
        ensures
            r is Http,
            r@ == "POST"@,
            r.spec_wf(),
    {
        Method::Http(HttpMethod::named("POST"))
    }

    /// The HTTP PUT method.
    pub fn put() -> (r: Method)
        ensures
            r is Http,
            r@ == "PUT"@,
            r.spec_wf(),
    {
        Method::Http(HttpMethod::named("PUT"))
    }

    /// The HTTP DELETE method.
    pub fn delete() -> (r: Method)
        ensures
            r is Http,
            r@ == "DELETE"@,
            r.spec_wf(),
    {
        Method::Http(HttpMethod::named("DELETE"))
    }

    /// The SOCKET method of the framework.
    pub fn socket() -> (r: Method)
        ensures
            r == Method::Socket,
    {
        Method::Socket
    }

    /// The METRICS method of the framework.
    pub fn metrics() -> (r: Method)
        ensures
            r == Method::Metrics,
    {
        Method::Metrics
    }

    /// Whether this is a standard HTTP method.
    pub fn is_http(&self) -> (r: bool)
        ensures
            r == (*self is Http),
    {
        match self {
            Method::Http(_) => true,
            _ => false,
        }
    }

    /// Whether this method implies mutable access to the state.
    pub fn is_mutable(&self) -> (r: bool)
        ensures
            r == spec_is_mutable(*self),
            match *self {
                Method::Http(h) => h.wf() ==> (r <==> mutating_method_name(h.spec_name())),
                Method::Socket => r,
                Method::Metrics => !r,
            },
    {
        proof {
            if self is Http && self->Http_0.wf() {
                law_mutable_methods(self->Http_0);
            }
        }
        match self {
            Method::Http(m) => !m.is_safe(),
            Method::Socket => true,
            Method::Metrics => false,
        }
    }

    /// Whether two methods are the same.
    pub fn same(&self, other: &Method) -> (r: bool)
        ensures
            r == (self@ == other@),
    {
        self.to_string() == other.to_string()
    }

    /// A copy of this method.
    pub fn duplicate(&self) -> (r: Method)
        ensures
            r@ == self@,
            r is Http <==> *self is Http,
            r.spec_wf() == self.spec_wf(),
    {
        match self {
            Method::Http(m) => Method::Http(m.duplicate()),
            Method::Socket => Method::Socket,
            Method::Metrics => Method::Metrics,
        }
    }

    /// The name of this method, as it is displayed.
    pub fn to_string(&self) -> (r: String)
        ensures
            r@ == self@,
    {
        match self {
            Method::Http(m) => m.name.clone(),
            Method::Socket => "SOCKET".to_string(),
            Method::Metrics => "METRICS".to_string(),
        }
    }

    /// Parse a method: `SOCKET`, `METRICS`, or an HTTP method name.
    pub fn from_str(s: &str) -> (r: Result<Method, ParseMethodError>)
        ensures
            match spec_parse_method(s@) {
                Some(name) => r matches Ok(m) && m@ == name && m.spec_wf() && (m is Http <==> (s@
                    != "SOCKET"@ && s@ != "METRICS"@)),
                None => r is Err,
            },
    {
        if str_eq(s, "SOCKET") {
            Ok(Method::Socket)
        } else if str_eq(s, "METRICS") {
            Ok(Method::Metrics)
        } else {
            match HttpMethod::parse(s) {
                Some(m) => Ok(Method::Http(m)),
                None => Err(ParseMethodError),
            }
        }
    }
}

/// Check if an HTTP method implies mutable access to the state.
pub fn method_is_mutable(method: &HttpMethod) -> (r: bool)
    ensures
        r == !is_safe_name(method.spec_name()),
{
    !method.is_safe()
}


/// Parsing the text of a method gives back a method of the same kind with the same text:
/// `SOCKET` and `METRICS` are the framework's kinds, and the canonical name of an HTTP method
/// parses to itself.
pub proof fn law_method_text_round_trip(m: Method)
    requires
        m.spec_wf(),
    ensures
        spec_parse_method(m@) == Some(m@),
        (m is Http) <==> (m@ != "SOCKET"@ && m@ != "METRICS"@),
{
    reveal_strlit("ACL");
    reveal_strlit("BASELINE-CONTROL");
    reveal_strlit("BIND");
    reveal_strlit("CHECKIN");
    reveal_strlit("CHECKOUT");
    reveal_strlit("CONNECT");
    reveal_strlit("COPY");
    reveal_strlit("DELETE");
    reveal_strlit("GET");
    reveal_strlit("HEAD");
    reveal_strlit("LABEL");
    reveal_strlit("LINK");
    reveal_strlit("LOCK");
    reveal_strlit("MERGE");
    reveal_strlit("MKACTIVITY");
    reveal_strlit("MKCALENDAR");
    reveal_strlit("MKCOL");
    reveal_strlit("MKREDIRECTREF");
    reveal_strlit("MKWORKSPACE");
    reveal_strlit("MOVE");
    reveal_strlit("OPTIONS");
    reveal_strlit("ORDERPATCH");
    reveal_strlit("PATCH");
    reveal_strlit("POST");
    reveal_strlit("PRI");
    reveal_strlit("PROPFIND");
    reveal_strlit("PROPPATCH");
    reveal_strlit("PUT");
    reveal_strlit("REBIND");
    reveal_strlit("REPORT");
    reveal_strlit("SEARCH");
    reveal_strlit("TRACE");
    reveal_strlit("UNBIND");
    reveal_strlit("UNCHECKOUT");
    reveal_strlit("UNLINK");
    reveal_strlit("UNLOCK");
    reveal_strlit("UPDATE");
    reveal_strlit("UPDATEREDIRECTREF");
    reveal_strlit("VERSION-CONTROL");
    reveal_strlit("SOCKET");
    reveal_strlit("METRICS");
    if m is Http {
        let n = m@;
        if n == "SOCKET"@ {
            assert(n.len() == 6 && n[1] == 'O');
            assert(false);
        }
        if n == "METRICS"@ {
            assert(n.len() == 7 && n[1] == 'E');
            assert(false);
        }
    }
}

} // verus!
