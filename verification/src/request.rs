//! Parameters of requests, their types and values, and the errors in reading them.

use vstd::prelude::*;
use vstd::string::*;
use crate::method::Method;
use crate::text::{
    views, bool_error_message, bool_error_message_exec, decimal, parse_bool, parse_bool_exec,
    parse_uint, parse_uint_exec, str_eq, IntErrorKind, ascii_text, is_ascii_text,
};

verus! {

/// The type of a route parameter.
#[derive(Clone, Copy, Debug, PartialEq, Eq, Hash, Structural)]
pub enum RequestParamType {
    Boolean,
    Hexadecimal,
    Integer,
    TaggedBase64,
    Literal,
}

impl RequestParamType {
    /// The name of this type, as it is written in a specification and displayed.
    pub open spec fn spec_name(self) -> Seq<char> {
        match self {
            RequestParamType::Boolean => "Boolean"@,
            RequestParamType::Hexadecimal => "Hexadecimal"@,
            RequestParamType::Integer => "Integer"@,
            RequestParamType::TaggedBase64 => "TaggedBase64"@,
            RequestParamType::Literal => "Literal"@,
        }
    }

    /// The name of this type.
    pub fn to_string(self) -> (r: String)
        ensures
            r@ == self.spec_name(),
    {
        match self {
            RequestParamType::Boolean => "Boolean".to_string(),
            RequestParamType::Hexadecimal => "Hexadecimal".to_string(),
            RequestParamType::Integer => "Integer".to_string(),
            RequestParamType::TaggedBase64 => "TaggedBase64".to_string(),
            RequestParamType::Literal => "Literal".to_string(),
        }
    }

    /// The type with the given name (names are case sensitive).
    pub fn from_str(s: &str) -> (r: Option<RequestParamType>)
        ensures
            r == param_type_from_str(s@),
    {
        if str_eq(s, "Boolean") {
            Some(RequestParamType::Boolean)
        } else if str_eq(s, "Hexadecimal") {
            Some(RequestParamType::Hexadecimal)
        } else if str_eq(s, "Integer") {
            Some(RequestParamType::Integer)
        } else if str_eq(s, "TaggedBase64") {
            Some(RequestParamType::TaggedBase64)
        } else if str_eq(s, "Literal") {
            Some(RequestParamType::Literal)
        } else {
            None
        }
    }
}

/// The parameter type with the given name.
pub open spec fn param_type_from_str(s: Seq<char>) -> Option<RequestParamType> {
    if s == "Boolean"@ {
        Some(RequestParamType::Boolean)
    } else if s == "Hexadecimal"@ {
        Some(RequestParamType::Hexadecimal)
    } else if s == "Integer"@ {
        Some(RequestParamType::Integer)
    } else if s == "TaggedBase64"@ {
        Some(RequestParamType::TaggedBase64)
    } else if s == "Literal"@ {
        Some(RequestParamType::Literal)
    } else {
        None
    }
}

/// A formal parameter of a route.
#[derive(Clone, Debug)]
pub struct RequestParam {
    pub name: String,
    pub param_type: RequestParamType,
    pub required: bool,
}

impl RequestParam {
    /// A copy of this parameter.
    pub fn duplicate(&self) -> (r: RequestParam)
        ensures
            r.name@ == self.name@,
            r.param_type == self.param_type,
            r.required == self.required,
    {
        RequestParam { name: self.name.clone(), param_type: self.param_type, required: self.required }
    }
}

/// Errors in reading the parameters or the body of a request.
#[derive(Clone, Debug)]
pub enum RequestError {
    MissingParam { name: String },
    IncorrectParamType { name: String, param_type: RequestParamType, expected: String },
    Json,
    Bincode,
    ArkSerialize { reason: String },
    UnsupportedContentType,
    Http { reason: String },
    InvalidParam { param_type: String, reason: String },
    TagMismatch { actual: String, expected: String },
}

impl RequestError {
    /// The text of this error.
    pub open spec fn spec_message(&self) -> Seq<char> {
        match self {
            RequestError::MissingParam { name } => "missing required parameter: "@ + name@,
            RequestError::IncorrectParamType { name, param_type, expected } =>
                "incorrect type for parameter "@ + name@ + ": "@ + param_type.spec_name()
                + " cannot be converted to "@ + expected@,
            RequestError::Json => "Unable to deserialize from JSON"@,
            RequestError::Bincode => "Unable to deserialize from bincode"@,
            RequestError::ArkSerialize { reason } => "Unable to deserialize from ark format: "@
                + reason@,
            RequestError::UnsupportedContentType =>
                "Content type not specified or type not supported"@,
            RequestError::Http { reason } => "HTTP protocol error: "@ + reason@,
            RequestError::InvalidParam { param_type, reason } => "error parsing "@ + param_type@
                + " parameter: "@ + reason@,
            RequestError::TagMismatch { actual, expected } => "unexpected tag in TaggedBase64: "@
                + actual@ + " (expected "@ + expected@ + ")"@,
        }
    }

    /// The text of this error.
    pub fn message(&self) -> (r: String)
        ensures
            r@ == self.spec_message(),
    {
        match self {
            RequestError::MissingParam { name } => {
                let mut r = "missing required parameter: ".to_string();
                r.append(name.as_str());
                r
            },
            RequestError::IncorrectParamType { name, param_type, expected } => {
                let mut r = "incorrect type for parameter ".to_string();
                r.append(name.as_str());
                r.append(": ");
                r.append(param_type.to_string().as_str());
                r.append(" cannot be converted to ");
                r.append(expected.as_str());
                r
            },
            RequestError::Json => "Unable to deserialize from JSON".to_string(),
            RequestError::Bincode => "Unable to deserialize from bincode".to_string(),
            RequestError::ArkSerialize { reason } => {
                let mut r = "Unable to deserialize from ark format: ".to_string();
                r.append(reason.as_str());
                r
            },
            RequestError::UnsupportedContentType => "Content type not specified or type not supported".to_string(),
            RequestError::Http { reason } => {
                let mut r = "HTTP protocol error: ".to_string();
                r.append(reason.as_str());
                r
            },
            RequestError::InvalidParam { param_type, reason } => {
                let mut r = "error parsing ".to_string();
                r.append(param_type.as_str());
                r.append(" parameter: ");
                r.append(reason.as_str());
                r
            },
            RequestError::TagMismatch { actual, expected } => {
                let mut r = "unexpected tag in TaggedBase64: ".to_string();
                r.append(actual.as_str());
                r.append(" (expected ");
                r.append(expected.as_str());
                r.append(")");
                r
            },
        }
    }
}

/// What the tagged-base64 parser gives for a string: the tag and the bytes, or the text of its
/// error.
pub uninterp spec fn tagged_base64_parse(s: Seq<char>) -> Result<(Seq<char>, Seq<u8>), Seq<char>>;

/// Calls `tagged_base64::TaggedBase64::parse` and converts the result to its tag and value, or
/// its error to the error's text.
#[verifier::external_body]
fn parse_tagged_base64(s: &str) -> (r: Result<(String, Vec<u8>), String>)
    ensures
        match r {
            Ok((tag, value)) => tagged_base64_parse(s@) == Ok::<(Seq<char>, Seq<u8>), Seq<char>>(
                (tag@, value@),
            ),
            Err(e) => tagged_base64_parse(s@) == Err::<(Seq<char>, Seq<u8>), Seq<char>>(e@),
        },
{
    match tagged_base64::TaggedBase64::parse(s) {
        Ok(t) => Ok((t.tag(), t.value())),
        Err(e) => Err(e.to_string()),
    }
}

/// A tagged base 64 value: a tag and a byte string (written `TAG~base64`).
#[derive(Clone, Debug, PartialEq, Eq)]
pub struct TaggedBase64 {
    tag: String,
    value: Vec<u8>,
}

impl TaggedBase64 {
    /// The tag.
    pub closed spec fn spec_tag(&self) -> Seq<char> {
        self.tag@
    }

    /// The bytes.
    pub closed spec fn spec_value(&self) -> Seq<u8> {
        self.value@
    }

    /// Parse a string of the form `tag~value`.
    pub fn parse(s: &str) -> (r: Result<TaggedBase64, String>)
        ensures
            match r {
                Ok(t) => tagged_base64_parse(s@) == Ok::<(Seq<char>, Seq<u8>), Seq<char>>(
                    (t.spec_tag(), t.spec_value()),
                ),
                Err(e) => tagged_base64_parse(s@) == Err::<(Seq<char>, Seq<u8>), Seq<char>>(e@),
            },
    {
        match parse_tagged_base64(s) {
            Ok((tag, value)) => Ok(TaggedBase64 { tag, value }),
            Err(e) => Err(e),
        }
    }

    /// The tag.
    pub fn tag(&self) -> (r: String)
        ensures
            r@ == self.spec_tag(),
    {
        self.tag.clone()
    }

    /// The bytes.
    pub fn value(&self) -> (r: Vec<u8>)
        ensures
            r@ == self.spec_value(),
    {
        self.value.clone()
    }
}

/// The value of a route parameter.
#[derive(Clone, Debug, PartialEq, Eq)]
pub enum RequestParamValue {
    Boolean(bool),
    Hexadecimal(u128),
    Integer(u128),
    TaggedBase64(TaggedBase64),
    Literal(String),
}

/// The type of a parameter value.
pub open spec fn value_type(v: RequestParamValue) -> RequestParamType {
    match v {
        RequestParamValue::Boolean(_) => RequestParamType::Boolean,
        RequestParamValue::Hexadecimal(_) => RequestParamType::Hexadecimal,
        RequestParamValue::Integer(_) => RequestParamType::Integer,
        RequestParamValue::TaggedBase64(_) => RequestParamType::TaggedBase64,
        RequestParamValue::Literal(_) => RequestParamType::Literal,
    }
}

/// An error reporting that a string could not be parsed as a value of a given type.
pub open spec fn is_invalid_param(r: RequestError, ty: Seq<char>, reason: Seq<char>) -> bool {
    r matches RequestError::InvalidParam { param_type, reason: why } && param_type@ == ty && why@
        == reason
}

/// Whether `r` is what parsing the text `s` of a parameter of type `ty` gives.
pub open spec fn parse_outcome(s: Seq<char>, ty: RequestParamType, r: Result<RequestParamValue, RequestError>) -> bool {
    match ty {
        RequestParamType::Literal => r matches Ok(RequestParamValue::Literal(t)) && t@ == s,
        RequestParamType::Boolean => match parse_bool(s) {
            Some(b) => r matches Ok(RequestParamValue::Boolean(x)) && x == b,
            None => r matches Err(e) && is_invalid_param(e, "Boolean"@, bool_error_message()),
        },
        RequestParamType::Integer => match parse_uint(s, 10, u128::MAX as nat) {
            Ok(v) => r matches Ok(RequestParamValue::Integer(x)) && x == v,
            Err(k) => r matches Err(e) && is_invalid_param(e, "Integer"@, k.spec_message()),
        },
        RequestParamType::Hexadecimal => match parse_uint(s, 10, u128::MAX as nat) {
            Ok(v) => r matches Ok(RequestParamValue::Hexadecimal(x)) && x == v,
            Err(k) => r matches Err(e) && is_invalid_param(
                e,
                "Hexadecimal"@,
                k.spec_message(),
            ),
        },
        RequestParamType::TaggedBase64 => match tagged_base64_parse(s) {
            Ok((tag, bytes)) => r matches Ok(RequestParamValue::TaggedBase64(t))
                && t.spec_tag() == tag && t.spec_value() == bytes,
            Err(why) => r matches Err(e) && is_invalid_param(e, "TaggedBase64"@, why),
        },
    }
}

/// Whether the text `s` parses as a value of type `ty`.
pub open spec fn parses_as(s: Seq<char>, ty: RequestParamType) -> bool {
    match ty {
        RequestParamType::Literal => true,
        RequestParamType::Boolean => parse_bool(s) is Some,
        RequestParamType::Integer | RequestParamType::Hexadecimal => parse_uint(s, 10, u128::MAX as nat) is Ok,
        RequestParamType::TaggedBase64 => tagged_base64_parse(s) is Ok,
    }
}

impl RequestParamValue {
    /// Parse the text of a parameter according to its formal type. Integers and hexadecimal
    /// parameters alike are read in base 10.
    pub fn parse(s: &str, formal: &RequestParam) -> (r: Result<RequestParamValue, RequestError>)
        ensures
            parse_outcome(s@, formal.param_type, r),
            r is Ok <==> parses_as(s@, formal.param_type),
    {
        match formal.param_type {
            RequestParamType::Literal => Ok(RequestParamValue::Literal(s.to_string())),
            RequestParamType::Boolean => match parse_bool_exec(s) {
                Some(b) => Ok(RequestParamValue::Boolean(b)),
                None => Err(
                    RequestError::InvalidParam {
                        param_type: "Boolean".to_string(),
                        reason: bool_error_message_exec(),
                    },
                ),
            },
            RequestParamType::Integer => match parse_uint_exec(s, 10, u128::MAX) {
                Ok(v) => Ok(RequestParamValue::Integer(v)),
                Err(k) => Err(
                    RequestError::InvalidParam {
                        param_type: "Integer".to_string(),
                        reason: k.message(),
                    },
                ),
            },
            RequestParamType::Hexadecimal => match parse_uint_exec(s, 10, u128::MAX) {
                Ok(v) => Ok(RequestParamValue::Hexadecimal(v)),
                Err(k) => Err(
                    RequestError::InvalidParam {
                        param_type: "Hexadecimal".to_string(),
                        reason: k.message(),
                    },
                ),
            },
            RequestParamType::TaggedBase64 => match TaggedBase64::parse(s) {
                Ok(t) => Ok(RequestParamValue::TaggedBase64(t)),
                Err(why) => Err(
                    RequestError::InvalidParam {
                        param_type: "TaggedBase64".to_string(),
                        reason: why,
                    },
                ),
            },
        }
    }

    /// The type of this value.
    pub fn param_type(&self) -> (r: RequestParamType)
        ensures
            r == value_type(*self),
    {
        match self {
            RequestParamValue::Boolean(_) => RequestParamType::Boolean,
            RequestParamValue::Hexadecimal(_) => RequestParamType::Hexadecimal,
            RequestParamValue::Integer(_) => RequestParamType::Integer,
            RequestParamValue::TaggedBase64(_) => RequestParamType::TaggedBase64,
            RequestParamValue::Literal(_) => RequestParamType::Literal,
        }
    }

    /// The string, if this is a literal.
    pub fn as_string(&self) -> (r: Option<&str>)
        ensures
            match *self {
                RequestParamValue::Literal(s) => r matches Some(t) && t@ == s@,
                _ => r is None,
            },
    {
        match self {
            RequestParamValue::Literal(s) => Some(s.as_str()),
            _ => None,
        }
    }

    /// The integer, if this is an integer or hexadecimal value no larger than `max` (the
    /// largest value of the integer type wanted).
    pub fn as_integer(&self, max: u128) -> (r: Option<u128>)
        ensures
            match *self {
                RequestParamValue::Integer(x) | RequestParamValue::Hexadecimal(x) => if x <= max {
                    r == Some(x)
                } else {
                    r is None
                },
                _ => r is None,
            },
    {
        match self {
            RequestParamValue::Integer(x) | RequestParamValue::Hexadecimal(x) => if *x <= max {
                Some(*x)
            } else {
                None
            },
            _ => None,
        }
    }

    /// The boolean, if this is a boolean.
    pub fn as_boolean(&self) -> (r: Option<bool>)
        ensures
            match *self {
                RequestParamValue::Boolean(b) => r == Some(b),
                _ => r is None,
            },
    {
        match self {
            RequestParamValue::Boolean(b) => Some(*b),
            _ => None,
        }
    }

    /// The tagged base 64 value, if this is one.
    pub fn as_tagged_base64(&self) -> (r: Option<&TaggedBase64>)
        ensures
            match *self {
                RequestParamValue::TaggedBase64(t) => r == Some(&t),
                _ => r is None,
            },
    {
        match self {
            RequestParamValue::TaggedBase64(t) => Some(t),
            _ => None,
        }
    }
}


/// The headers of a request: each name (in lower case) with its values, in order.
#[derive(Clone, Debug)]
pub struct Headers {
    pub entries: Vec<(String, Vec<String>)>,
}

/// Whether `i` is the index of the first header with the given name.
pub open spec fn is_first_header(es: Seq<(String, Vec<String>)>, name: Seq<char>, i: int) -> bool {
    &&& 0 <= i < es.len()
    &&& es[i].0@ == name
    &&& forall|j: int| 0 <= j < i ==> (#[trigger] es[j]).0@ != name
}

/// The values of the first header with the given name, if there is one.
pub open spec fn header_values(es: Seq<(String, Vec<String>)>, name: Seq<char>) -> Option<Seq<Seq<char>>> {
    if exists|i: int| is_first_header(es, name, i) {
        Some(views(es[choose|i: int| is_first_header(es, name, i)].1@))
    } else {
        None
    }
}

/// The first value of the first header with the given name, if there is one.
pub open spec fn header_value(es: Seq<(String, Vec<String>)>, name: Seq<char>) -> Option<Seq<char>> {
    match header_values(es, name) {
        Some(vs) => if vs.len() > 0 {
            Some(vs[0])
        } else {
            None
        },
        None => None,
    }
}

impl Headers {
    /// The values of the first header with the given (lower-case) name, if there is one.
    pub fn get(&self, name: &str) -> (r: Option<&Vec<String>>)
        ensures
            match header_values(self.entries@, name@) {
                Some(vs) => r matches Some(v) && views(v@) == vs,
                None => r is None,
            },
    {
        let n = self.entries.len();
        let mut i: usize = 0;
        while i < n
            invariant
                n == self.entries@.len(),
                i <= n,
                forall|j: int| 0 <= j < i ==> (#[trigger] self.entries@[j]).0@ != name@,
            decreases n - i,
        {
            if self.entries[i].0 == name.to_string() {
                assert(is_first_header(self.entries@, name@, i as int));
                assert forall|k: int| is_first_header(self.entries@, name@, k) implies k == i by {
                    if k < i {
                        assert(self.entries@[k].0@ != name@);
                    }
                    if k > i {
                        assert(self.entries@[i as int].0@ == name@);
                    }
                }
                return Some(&self.entries[i].1);
            }
            i = i + 1;
        }
        assert(!exists|k: int| is_first_header(self.entries@, name@, k));
        None
    }

    /// The first value of the first header with the given (lower-case) name, if there is one.
    pub fn value(&self, name: &str) -> (r: Option<&str>)
        ensures
            match header_value(self.entries@, name@) {
                Some(v) => r matches Some(t) && t@ == v,
                None => r is None,
            },
    {
        match self.get(name) {
            Some(vs) => if vs.len() > 0 {
                proof {
                    assert(views(vs@)[0] == vs@[0]@);
                }
                Some(vs[0].as_str())
            } else {
                None
            },
            None => None,
        }
    }
}

/// A media type: its type, its subtype, and its full text with its parameters (as it is
/// displayed); two media types are the same when all three are.
#[derive(Clone, Debug, PartialEq, Eq)]
pub struct Mime {
    pub basetype: String,
    pub subtype: String,
    pub text: String,
}

/// Whether two media types are the same.
pub open spec fn same_mime(a: Mime, b: Mime) -> bool {
    a.basetype@ == b.basetype@ && a.subtype@ == b.subtype@ && a.text@ == b.text@
}

impl Mime {
    /// A media type without parameters.
    fn simple(basetype: &str, subtype: &str) -> (r: Mime)
        ensures
            r.basetype@ == basetype@,
            r.subtype@ == subtype@,
            r.text@ == basetype@ + "/"@ + subtype@,
    {
        let mut text = basetype.to_string();
        text.append("/");
        text.append(subtype);
        Mime { basetype: basetype.to_string(), subtype: subtype.to_string(), text }
    }

    /// `application/json`.
    pub fn json() -> (r: Mime)
        ensures
            r.basetype@ == "application"@,
            r.subtype@ == "json"@,
            r.text@ == "application/json"@,
    {
        proof {
            reveal_strlit("application");
            reveal_strlit("json");
            reveal_strlit("/");
            reveal_strlit("application/json");
        }
        Mime::simple("application", "json")
    }

    /// `application/octet-stream`.
    pub fn byte_stream() -> (r: Mime)
        ensures
            r.basetype@ == "application"@,
            r.subtype@ == "octet-stream"@,
            r.text@ == "application/octet-stream"@,
    {
        proof {
            reveal_strlit("application");
            reveal_strlit("octet-stream");
            reveal_strlit("/");
            reveal_strlit("application/octet-stream");
        }
        Mime::simple("application", "octet-stream")
    }

    /// `text/plain;charset=utf-8`, as plain text is written.
    pub fn plain() -> (r: Mime)
        ensures
            r.basetype@ == "text"@,
            r.subtype@ == "plain"@,
            r.text@ == "text/plain;charset=utf-8"@,
    {
        Mime {
            basetype: "text".to_string(),
            subtype: "plain".to_string(),
            text: "text/plain;charset=utf-8".to_string(),
        }
    }

    /// A copy of this media type.
    pub fn duplicate(&self) -> (r: Mime)
        ensures
            same_mime(r, *self),
    {
        Mime { basetype: self.basetype.clone(), subtype: self.subtype.clone(), text: self.text.clone() }
    }

    /// Whether two media types are the same.
    pub fn same(&self, other: &Mime) -> (r: bool)
        ensures
            r == same_mime(*self, *other),
    {
        self.basetype == other.basetype && self.subtype == other.subtype && self.text == other.text
    }
}

/// An `Accept` header: whether it holds the wildcard `*`, and its media type proposals in the
/// order of decreasing weight (of equal weights, the later first).
#[derive(Clone, Debug)]
pub struct Accept {
    pub wildcard: bool,
    pub proposals: Vec<Mime>,
}

/// The views of a list of media types.
pub open spec fn mime_views(ms: Seq<Mime>) -> Seq<(Seq<char>, Seq<char>, Seq<char>)> {
    ms.map_values(|m: Mime| (m.basetype@, m.subtype@, m.text@))
}

/// What the HTTP layer reads from the values of `Accept` headers: nothing if there are none,
/// else the wildcard flag and the proposals sorted by weight, or the text of its error.
pub uninterp spec fn accept_header(values: Seq<Seq<char>>) -> Result<
    Option<(bool, Seq<(Seq<char>, Seq<char>, Seq<char>)>)>,
    Seq<char>,
>;

/// Whether every text of a list is ASCII, as the values of HTTP headers must be.
pub open spec fn all_ascii(values: Seq<Seq<char>>) -> bool {
    forall|i: int| 0 <= i < values.len() ==> ascii_text(#[trigger] values[i])
}

/// Calls `http_types::content::Accept::from_headers` on a response that carries the given
/// values of the `Accept` header, sorts the proposals with `Accept::sort`, and takes each
/// proposal apart into its type, subtype and displayed text.
#[verifier::external_body]
fn parse_accept(values: &Vec<String>) -> (r: Result<Option<(bool, Vec<Mime>)>, String>)
    requires
        all_ascii(views(values@)),
    ensures
        match r {
            Ok(Some((w, ms))) => accept_header(views(values@)) == Ok::<
                Option<(bool, Seq<(Seq<char>, Seq<char>, Seq<char>)>)>,
                Seq<char>,
            >(Some((w, mime_views(ms@)))),
            Ok(None) => accept_header(views(values@)) == Ok::<
                Option<(bool, Seq<(Seq<char>, Seq<char>, Seq<char>)>)>,
                Seq<char>,
            >(None),
            Err(e) => accept_header(views(values@)) == Err::<
                Option<(bool, Seq<(Seq<char>, Seq<char>, Seq<char>)>)>,
                Seq<char>,
            >(e@),
        },
{
    let mut res = http_types::Response::new(200);
    for v in values {
        res.append_header("accept", v.as_str());
    }
    match http_types::content::Accept::from_headers(&res) {
        Ok(Some(mut accept)) => {
            accept.sort();
            Ok(Some((accept.wildcard(), accept.iter().map(|p| Mime { basetype: p.basetype().to_string(), subtype: p.subtype().to_string(), text: p.to_string() }).collect())))
        },
        Ok(None) => Ok(None),
        Err(e) => Err(e.to_string()),
    }
}

/// Whether one of the available media types has the given type.
pub open spec fn has_basetype(available: Seq<Mime>, basetype: Seq<char>) -> bool {
    exists|i: int| 0 <= i < available.len() && #[trigger] available[i].basetype@ == basetype
}

/// Whether one of the available media types is the same as `p`.
pub open spec fn has_same_mime(available: Seq<Mime>, p: Mime) -> bool {
    exists|i: int| 0 <= i < available.len() && same_mime(#[trigger] available[i], p)
}

/// The media type to answer with, from proposal `i` on: the first proposal, in order, that one
/// of the available types satisfies (`*/*` takes the first available type, `type/*` the first
/// of that type, and any other proposal the available type that is the same), else the first
/// available type if the client accepts anything, else none.
pub open spec fn best_type_from(proposals: Seq<Mime>, i: int, wildcard: bool, available: Seq<Mime>) -> Option<Mime>
    decreases proposals.len() - i,
{
    if i < 0 || i >= proposals.len() {
        if wildcard {
            Some(available[0])
        } else {
            None
        }
    } else {
        let p = proposals[i];
        if p.basetype@ == "*"@ {
            Some(available[0])
        } else if p.subtype@ == "*"@ && has_basetype(available, p.basetype@) {
            Some(available[first_with_basetype(available, p.basetype@)])
        } else if p.subtype@ != "*"@ && has_same_mime(available, p) {
            Some(p)
        } else {
            best_type_from(proposals, i + 1, wildcard, available)
        }
    }
}

/// The media type to answer with, for the proposals of an `Accept` header.
pub open spec fn best_type(proposals: Seq<Mime>, wildcard: bool, available: Seq<Mime>) -> Option<Mime> {
    best_type_from(proposals, 0, wildcard, available)
}

/// The index of the first media type of the given type.
pub open spec fn first_with_basetype(available: Seq<Mime>, basetype: Seq<char>) -> int {
    choose|i: int|
        0 <= i < available.len() && available[i].basetype@ == basetype && forall|j: int|
            0 <= j < i ==> (#[trigger] available[j]).basetype@ != basetype
}

/// The index of the first available media type of the given type, if there is one.
fn find_basetype(available: &Vec<Mime>, basetype: &String) -> (r: Option<usize>)
    ensures
        match r {
            Some(j) => j < available@.len() && has_basetype(available@, basetype@)
                && first_with_basetype(available@, basetype@) == j,
            None => !has_basetype(available@, basetype@),
        },
{
    let m = available.len();
    let mut j: usize = 0;
    while j < m
        invariant
            m == available@.len(),
            j <= m,
            forall|k: int| 0 <= k < j ==> (#[trigger] available@[k]).basetype@ != basetype@,
        decreases m - j,
    {
        if available[j].basetype == *basetype {
            assert(available@[j as int].basetype@ == basetype@);
            assert(first_with_basetype(available@, basetype@) == j) by {
                let w = first_with_basetype(available@, basetype@);
                if w < j {
                    assert(available@[w].basetype@ != basetype@);
                }
                if w > j {
                    assert(available@[j as int].basetype@ == basetype@);
                }
            }
            return Some(j);
        }
        j = j + 1;
    }
    None
}

/// Whether one of the available media types is the same as `p`.
fn has_same(available: &Vec<Mime>, p: &Mime) -> (r: bool)
    ensures
        r == has_same_mime(available@, *p),
{
    let m = available.len();
    let mut j: usize = 0;
    while j < m
        invariant
            m == available@.len(),
            j <= m,
            forall|k: int| 0 <= k < j ==> !same_mime(#[trigger] available@[k], *p),
        decreases m - j,
    {
        if available[j].same(p) {
            return true;
        }
        j = j + 1;
    }
    false
}

/// Choose the media type to answer with, among those available (of which there must be at
/// least one), from what a request's `Accept` header proposes.
pub fn best_response_type(accept: &Accept, available: &Vec<Mime>) -> (r: Result<Mime, RequestError>)
    requires
        available@.len() > 0,
    ensures
        match best_type(accept.proposals@, accept.wildcard, available@) {
            Some(m) => r matches Ok(t) && same_mime(t, m),
            None => r == Err::<Mime, RequestError>(RequestError::UnsupportedContentType),
        },
{
    let n = accept.proposals.len();
    let mut i: usize = 0;
    while i < n
        invariant
            n == accept.proposals@.len(),
            i <= n,
            available@.len() > 0,
            best_type_from(accept.proposals@, i as int, accept.wildcard, available@) == best_type(
                accept.proposals@,
                accept.wildcard,
                available@,
            ),
        decreases n - i,
    {
        let p = &accept.proposals[i];
        if str_eq(p.basetype.as_str(), "*") {
            return Ok(available[0].duplicate());
        } else if str_eq(p.subtype.as_str(), "*") {
            match find_basetype(available, &p.basetype) {
                Some(j) => {
                    return Ok(available[j].duplicate());
                },
                None => {},
            }
        } else {
            if has_same(available, p) {
                return Ok(p.duplicate());
            }
        }
        i = i + 1;
    }
    if accept.wildcard {
        Ok(available[0].duplicate())
    } else {
        Err(RequestError::UnsupportedContentType)
    }
}

/// The media types a typed response can take, in order of preference: JSON, then binary.
pub open spec fn typed_types(ms: Seq<Mime>) -> bool {
    &&& ms.len() == 2
    &&& ms[0].text@ == "application/json"@ && ms[0].basetype@ == "application"@
        && ms[0].subtype@ == "json"@
    &&& ms[1].text@ == "application/octet-stream"@ && ms[1].basetype@ == "application"@
        && ms[1].subtype@ == "octet-stream"@
}

/// The serialization of a typed response (or of the messages of a socket) that a request's
/// `Accept` header asks for: JSON or binary, as `best_response_type` chooses between them.
pub fn negotiate_format(accept: &Accept) -> (r: Result<BodyFormat, RequestError>)
    ensures
        exists|ms: Seq<Mime>|
            typed_types(ms) && match best_type(accept.proposals@, accept.wildcard, ms) {
                Some(m) => r == Ok::<BodyFormat, RequestError>(
                    if same_mime(m, ms[0]) {
                        BodyFormat::Json
                    } else {
                        BodyFormat::Binary
                    },
                ),
                None => r == Err::<BodyFormat, RequestError>(RequestError::UnsupportedContentType),
            },
{
    let available = vec![Mime::json(), Mime::byte_stream()];
    assert(typed_types(available@));
    match best_response_type(accept, &available) {
        Ok(m) => if m.same(&available[0]) {
            Ok(BodyFormat::Json)
        } else {
            Ok(BodyFormat::Binary)
        },
        Err(e) => Err(e),
    }
}

/// Whether `i` is the index of the first parameter with the given name.
pub open spec fn is_first_param(ps: Seq<(String, RequestParamValue)>, name: Seq<char>, i: int) -> bool {
    &&& 0 <= i < ps.len()
    &&& ps[i].0@ == name
    &&& forall|j: int| 0 <= j < i ==> (#[trigger] ps[j]).0@ != name
}

/// The value of the first parameter with the given name, if there is one.
pub open spec fn param_lookup(ps: Seq<(String, RequestParamValue)>, name: Seq<char>) -> Option<RequestParamValue> {
    if exists|i: int| is_first_param(ps, name, i) {
        Some(ps[choose|i: int| is_first_param(ps, name, i)].1)
    } else {
        None
    }
}

/// Whether an error reports that a parameter's value is not of the expected type.
pub open spec fn is_incorrect_type(e: RequestError, name: Seq<char>, v: RequestParamValue, expected: Seq<char>) -> bool {
    e matches RequestError::IncorrectParamType { name: n, param_type, expected: x } && n@ == name
        && param_type == value_type(v) && x@ == expected
}

/// The integer of an integer or hexadecimal value, if it is no larger than `max`.
pub open spec fn integer_value(v: RequestParamValue, max: u128) -> Option<u128> {
    match v {
        RequestParamValue::Integer(x) => if x <= max {
            Some(x)
        } else {
            None
        },
        RequestParamValue::Hexadecimal(x) => if x <= max {
            Some(x)
        } else {
            None
        },
        _ => None,
    }
}

/// Integer and hexadecimal parameters alike are read as integers: a value of either kind no
/// larger than `max` gives its number, and nothing else gives a number.
pub proof fn law_integer_value_reads_both_kinds(v: RequestParamValue, max: u128)
    ensures
        forall|x: u128| v == RequestParamValue::Integer(x) && x <= max ==> integer_value(v, max) == Some(x),
        forall|x: u128| v == RequestParamValue::Hexadecimal(x) && x <= max ==> integer_value(v, max) == Some(x),
        integer_value(v, max) matches Some(x) ==> x <= max && (v == RequestParamValue::Integer(x)
            || v == RequestParamValue::Hexadecimal(x)),
{
}

/// Whether an error reports that a parameter is missing.
pub open spec fn is_missing(e: RequestError, name: Seq<char>) -> bool {
    e matches RequestError::MissingParam { name: n } && n@ == name
}

/// How the body of a request is serialized.
#[derive(Clone, Copy, Debug, PartialEq, Eq, Structural)]
pub enum BodyFormat {
    Json,
    Binary,
}

/// The parameters of a request: its headers, body, the values of its route parameters, and the
/// method by which it was dispatched.
#[derive(Clone, Debug)]
pub struct RequestParams {
    headers: Headers,
    post_data: Vec<u8>,
    params: Vec<(String, RequestParamValue)>,
    method: Method,
}

/// Whether all formal parameters are given in a list of named strings.
pub open spec fn all_given(formal: Seq<RequestParam>, given: Seq<(String, String)>) -> bool {
    forall|i: int|
        0 <= i < formal.len() ==> exists|j: int|
            0 <= j < given.len() && #[trigger] given[j].0@ == (#[trigger] formal[i]).name@
}

/// Whether `j` is the index of the first given value with the given name.
pub open spec fn is_first_given(given: Seq<(String, String)>, name: Seq<char>, j: int) -> bool {
    &&& 0 <= j < given.len()
    &&& given[j].0@ == name
    &&& forall|k: int| 0 <= k < j ==> (#[trigger] given[k]).0@ != name
}

/// The text given for a parameter: that of the first value with its name.
pub open spec fn given_text(given: Seq<(String, String)>, name: Seq<char>) -> Seq<char> {
    given[choose|j: int| is_first_given(given, name, j)].1@
}

/// The index of the first given value with the given name, which must be there.
fn find_given(given: &Vec<(String, String)>, name: &String) -> (r: usize)
    requires
        exists|j: int| 0 <= j < given@.len() && #[trigger] given@[j].0@ == name@,
    ensures
        r < given@.len(),
        given@[r as int].1@ == given_text(given@, name@),
{
    let n = given.len();
    let mut i: usize = 0;
    while i < n
        invariant
            n == given@.len(),
            i <= n,
            forall|k: int| 0 <= k < i ==> (#[trigger] given@[k]).0@ != name@,
            exists|j: int| 0 <= j < given@.len() && #[trigger] given@[j].0@ == name@,
        decreases n - i,
    {
        if given[i].0 == *name {
            assert(is_first_given(given@, name@, i as int));
            assert forall|k: int| is_first_given(given@, name@, k) implies k == i by {
                if k < i {
                    assert(given@[k].0@ != name@);
                }
                if k > i {
                    assert(given@[i as int].0@ == name@);
                }
            }
            return i;
        }
        i = i + 1;
    }
    proof {
        let j = choose|j: int| 0 <= j < given@.len() && #[trigger] given@[j].0@ == name@;
        assert(given@[j].0@ == name@);
    }
    0
}

impl RequestParams {
    /// The headers of the request.
    pub closed spec fn spec_headers(&self) -> Headers {
        self.headers
    }

    /// The body of the request.
    pub closed spec fn spec_body(&self) -> Seq<u8> {
        self.post_data@
    }

    /// The values of the request's parameters, by name.
    pub closed spec fn spec_params(&self) -> Seq<(String, RequestParamValue)> {
        self.params@
    }

    /// The method by which the request was dispatched.
    pub closed spec fn spec_method(&self) -> Method {
        self.method
    }

    /// The parameters of a request: the value of each formal parameter is parsed, by its type,
    /// from the text given for it (every formal parameter must be given); the first that does not
    /// parse is the error.
    pub fn new(
        headers: Headers,
        post_data: Vec<u8>,
        formal: &Vec<RequestParam>,
        given: &Vec<(String, String)>,
        method: Method,
    ) -> (r: Result<RequestParams, RequestError>)
        requires
            all_given(formal@, given@),
        ensures
            match r {
                Ok(rp) => {
                    &&& rp.spec_headers() == headers
                    &&& rp.spec_body() == post_data@
                    &&& rp.spec_method() == method
                    &&& rp.spec_params().len() == formal@.len()
                    &&& forall|i: int|
                        0 <= i < formal@.len() ==> {
                            &&& (#[trigger] rp.spec_params()[i]).0@ == formal@[i].name@
                            &&& parse_outcome(
                                given_text(given@, formal@[i].name@),
                                formal@[i].param_type,
                                Ok(rp.spec_params()[i].1),
                            )
                        }
                },
                Err(e) => exists|k: int|
                    0 <= k < formal@.len() && (forall|i: int|
                        0 <= i < k ==> parses_as(
                            given_text(given@, (#[trigger] formal@[i]).name@),
                            formal@[i].param_type,
                        )) && !parses_as(given_text(given@, formal@[k].name@), formal@[k].param_type)
                        && parse_outcome(
                        given_text(given@, formal@[k].name@),
                        formal@[k].param_type,
                        Err(e),
                    ),
            },
    {
        let mut params: Vec<(String, RequestParamValue)> = Vec::new();
        let n = formal.len();
        let mut i: usize = 0;
        while i < n
            invariant
                n == formal@.len(),
                i <= n,
                all_given(formal@, given@),
                params@.len() == i,
                forall|x: int|
                    0 <= x < i ==> {
                        &&& (#[trigger] params@[x]).0@ == formal@[x].name@
                        &&& parse_outcome(
                            given_text(given@, formal@[x].name@),
                            formal@[x].param_type,
                            Ok(params@[x].1),
                        )
                        &&& parses_as(given_text(given@, formal@[x].name@), formal@[x].param_type)
                    },
            decreases n - i,
        {
            let f = &formal[i];
            assert(exists|j: int| 0 <= j < given@.len() && #[trigger] given@[j].0@ == f.name@);
            let j = find_given(given, &f.name);
            match RequestParamValue::parse(given[j].1.as_str(), f) {
                Ok(v) => {
                    let ghost old_params = params@;
                    let name = f.name.clone();
                    params.push((name, v));
                    proof {
                        assert(params@[i as int] == (name, v));
                        assert(given@[j as int].1@ == given_text(given@, formal@[i as int].name@));
                        assert(parse_outcome(
                            given_text(given@, formal@[i as int].name@),
                            formal@[i as int].param_type,
                            Ok(v),
                        ));
                        assert(parses_as(given_text(given@, formal@[i as int].name@), formal@[i as int].param_type));
                        assert(name@ == formal@[i as int].name@);
                        assert forall|x: int| 0 <= x < i + 1 implies {
                            &&& (#[trigger] params@[x]).0@ == formal@[x].name@
                            &&& parse_outcome(
                                given_text(given@, formal@[x].name@),
                                formal@[x].param_type,
                                Ok(params@[x].1),
                            )
                            &&& parses_as(given_text(given@, formal@[x].name@), formal@[x].param_type)
                        } by {
                            if x < i {
                                assert(params@[x] == old_params[x]);
                            }
                        }
                    }
                },
                Err(e) => {
                    assert forall|x: int| 0 <= x < i implies parses_as(
                        given_text(given@, (#[trigger] formal@[x]).name@),
                        formal@[x].param_type,
                    ) by {
                        assert(params@[x].0@ == formal@[x].name@);
                    }
                    return Err(e);
                },
            }
            i = i + 1;
        }
        Ok(RequestParams { headers, post_data, params, method })
    }

    /// The parameters of a request, from its parts: its headers, its body, the values of its
    /// parameters by name, and its method.
    pub fn from_parts(
        headers: Headers,
        post_data: Vec<u8>,
        values: Vec<(String, RequestParamValue)>,
        method: Method,
    ) -> (r: RequestParams)
        ensures
            r.spec_headers() == headers,
            r.spec_body() == post_data@,
            r.spec_params() == values@,
            r.spec_method() == method,
    {
        RequestParams { headers, post_data, params: values, method }
    }

    /// The method by which the request was dispatched.
    pub fn method(&self) -> (r: Method)
        ensures
            r@ == self.spec_method()@,
            r is Http <==> self.spec_method() is Http,
    {
        self.method.duplicate()
    }

    /// The headers of the request.
    pub fn headers(&self) -> (r: &Headers)
        ensures
            *r == self.spec_headers(),
    {
        &self.headers
    }

    /// The `Accept` header of the request, with its proposals sorted by weight; a request
    /// without one accepts anything (`*`).
    pub fn accept(&self) -> (r: Result<Accept, RequestError>)
        ensures
            accept_from(self.spec_headers(), r),
    {
        Self::accept_from_headers(&self.headers)
    }

    /// The `Accept` header given by a list of headers.
    pub fn accept_from_headers(headers: &Headers) -> (r: Result<Accept, RequestError>)
        ensures
            accept_from(*headers, r),
    {
        let empty: Vec<String> = Vec::new();
        assert(views(empty@) =~= Seq::<Seq<char>>::empty());
        let values = match headers.get("accept") {
            Some(vs) => vs,
            None => &empty,
        };
        let n = values.len();
        let mut i: usize = 0;
        while i < n
            invariant
                n == values@.len(),
                i <= n,
                views(values@) == match header_values(headers.entries@, "accept"@) {
                    Some(vs) => vs,
                    None => seq![],
                },
                forall|k: int| 0 <= k < i ==> ascii_text(#[trigger] views(values@)[k]),
            decreases n - i,
        {
            if !is_ascii_text(values[i].as_str()) {
                assert(!ascii_text(views(values@)[i as int]));
                return Err(RequestError::Http { reason: "String slice should be valid ASCII".to_string() });
            }
            i = i + 1;
        }
        match parse_accept(values) {
            Ok(Some((wildcard, proposals))) => Ok(Accept { wildcard, proposals }),
            Ok(None) => Ok(Accept { wildcard: true, proposals: Vec::new() }),
            Err(reason) => Err(RequestError::Http { reason }),
        }
    }

    /// The index of the first parameter with the given name, if there is one.
    fn find_param(&self, name: &str) -> (r: Option<usize>)
        ensures
            match r {
                Some(i) => i < self.params@.len() && param_lookup(self.params@, name@) == Some(
                    self.params@[i as int].1,
                ),
                None => param_lookup(self.params@, name@) is None,
            },
    {
        let n = self.params.len();
        let mut i: usize = 0;
        while i < n
            invariant
                n == self.params@.len(),
                i <= n,
                forall|j: int| 0 <= j < i ==> (#[trigger] self.params@[j]).0@ != name@,
            decreases n - i,
        {
            if self.params[i].0 == name.to_string() {
                assert(is_first_param(self.params@, name@, i as int));
                assert forall|k: int| is_first_param(self.params@, name@, k) implies k == i by {
                    if k < i {
                        assert(self.params@[k].0@ != name@);
                    }
                    if k > i {
                        assert(self.params@[i as int].0@ == name@);
                    }
                }
                return Some(i);
            }
            i = i + 1;
        }
        assert(!exists|k: int| is_first_param(self.params@, name@, k));
        None
    }

    /// The value of a parameter, if the request has it.
    pub fn opt_param(&self, name: &str) -> (r: Option<&RequestParamValue>)
        ensures
            match param_lookup(self.spec_params(), name@) {
                Some(v) => r == Some(&v),
                None => r is None,
            },
    {
        match self.find_param(name) {
            Some(i) => Some(&self.params[i].1),
            None => None,
        }
    }

    /// The value of a parameter, which the request must have.
    pub fn param(&self, name: &str) -> (r: Result<&RequestParamValue, RequestError>)
        ensures
            match param_lookup(self.spec_params(), name@) {
                Some(v) => r == Ok::<&RequestParamValue, RequestError>(&v),
                None => r matches Err(e) && is_missing(e, name@),
            },
    {
        match self.opt_param(name) {
            Some(v) => Ok(v),
            None => Err(RequestError::MissingParam { name: name.to_string() }),
        }
    }

    /// The value of a parameter as an integer no larger than `max`, if the request has it.
    pub fn opt_integer_param(&self, name: &str, max: u128) -> (r: Result<Option<u128>, RequestError>)
        ensures
            match param_lookup(self.spec_params(), name@) {
                None => r == Ok::<Option<u128>, RequestError>(None),
                Some(v) => match integer_value(v, max) {
                    Some(x) => r == Ok::<Option<u128>, RequestError>(Some(x)),
                    None => r matches Err(e) && is_incorrect_type(e, name@, v, "Integer"@),
                },
            },
            forall|x: u128|
                param_lookup(self.spec_params(), name@) == Some(RequestParamValue::Integer(x)) && x <= max
                    ==> r == Ok::<Option<u128>, RequestError>(Some(x)),
            forall|x: u128|
                param_lookup(self.spec_params(), name@) == Some(RequestParamValue::Hexadecimal(x)) && x <= max
                    ==> r == Ok::<Option<u128>, RequestError>(Some(x)),
            r matches Ok(Some(x)) ==> x <= max && (param_lookup(self.spec_params(), name@) == Some(
                RequestParamValue::Integer(x),
            ) || param_lookup(self.spec_params(), name@) == Some(RequestParamValue::Hexadecimal(x))),
    {
        match self.opt_param(name) {
            None => Ok(None),
            Some(v) => match v.as_integer(max) {
                Some(x) => Ok(Some(x)),
                None => Err(
                    RequestError::IncorrectParamType {
                        name: name.to_string(),
                        param_type: v.param_type(),
                        expected: "Integer".to_string(),
                    },
                ),
            },
        }
    }

    /// The value of a parameter as an integer no larger than `max`.
    pub fn integer_param(&self, name: &str, max: u128) -> (r: Result<u128, RequestError>)
        ensures
            match param_lookup(self.spec_params(), name@) {
                None => r matches Err(e) && is_missing(e, name@),
                Some(v) => match integer_value(v, max) {
                    Some(x) => r == Ok::<u128, RequestError>(x),
                    None => r matches Err(e) && is_incorrect_type(e, name@, v, "Integer"@),
                },
            },
            forall|x: u128|
                param_lookup(self.spec_params(), name@) == Some(RequestParamValue::Integer(x)) && x <= max
                    ==> r == Ok::<u128, RequestError>(x),
            forall|x: u128|
                param_lookup(self.spec_params(), name@) == Some(RequestParamValue::Hexadecimal(x)) && x <= max
                    ==> r == Ok::<u128, RequestError>(x),
            r matches Ok(x) ==> x <= max && (param_lookup(self.spec_params(), name@) == Some(
                RequestParamValue::Integer(x),
            ) || param_lookup(self.spec_params(), name@) == Some(RequestParamValue::Hexadecimal(x))),
    {
        match self.opt_integer_param(name, max) {
            Ok(Some(x)) => Ok(x),
            Ok(None) => Err(RequestError::MissingParam { name: name.to_string() }),
            Err(e) => Err(e),
        }
    }

    /// The value of a parameter as a boolean, if the request has it.
    pub fn opt_boolean_param(&self, name: &str) -> (r: Result<Option<bool>, RequestError>)
        ensures
            match param_lookup(self.spec_params(), name@) {
                None => r == Ok::<Option<bool>, RequestError>(None),
                Some(v) => match v {
                    RequestParamValue::Boolean(b) => r == Ok::<Option<bool>, RequestError>(Some(b)),
                    _ => r matches Err(e) && is_incorrect_type(e, name@, v, "Boolean"@),
                },
            },
    {
        match self.opt_param(name) {
            None => Ok(None),
            Some(v) => match v.as_boolean() {
                Some(b) => Ok(Some(b)),
                None => Err(
                    RequestError::IncorrectParamType {
                        name: name.to_string(),
                        param_type: v.param_type(),
                        expected: "Boolean".to_string(),
                    },
                ),
            },
        }
    }

    /// The value of a parameter as a boolean.
    pub fn boolean_param(&self, name: &str) -> (r: Result<bool, RequestError>)
        ensures
            match param_lookup(self.spec_params(), name@) {
                None => r matches Err(e) && is_missing(e, name@),
                Some(v) => match v {
                    RequestParamValue::Boolean(b) => r == Ok::<bool, RequestError>(b),
                    _ => r matches Err(e) && is_incorrect_type(e, name@, v, "Boolean"@),
                },
            },
    {
        match self.opt_boolean_param(name) {
            Ok(Some(b)) => Ok(b),
            Ok(None) => Err(RequestError::MissingParam { name: name.to_string() }),
            Err(e) => Err(e),
        }
    }

    /// The value of a parameter as a string, if the request has it.
    pub fn opt_string_param(&self, name: &str) -> (r: Result<Option<&str>, RequestError>)
        ensures
            match param_lookup(self.spec_params(), name@) {
                None => r == Ok::<Option<&str>, RequestError>(None),
                Some(v) => match v {
                    RequestParamValue::Literal(s) => r matches Ok(Some(t)) && t@ == s@,
                    _ => r matches Err(e) && is_incorrect_type(e, name@, v, "String"@),
                },
            },
    {
        match self.opt_param(name) {
            None => Ok(None),
            Some(v) => match v.as_string() {
                Some(s) => Ok(Some(s)),
                None => Err(
                    RequestError::IncorrectParamType {
                        name: name.to_string(),
                        param_type: v.param_type(),
                        expected: "String".to_string(),
                    },
                ),
            },
        }
    }

    /// The value of a parameter as a string.
    pub fn string_param(&self, name: &str) -> (r: Result<&str, RequestError>)
        ensures
            match param_lookup(self.spec_params(), name@) {
                None => r matches Err(e) && is_missing(e, name@),
                Some(v) => match v {
                    RequestParamValue::Literal(s) => r matches Ok(t) && t@ == s@,
                    _ => r matches Err(e) && is_incorrect_type(e, name@, v, "String"@),
                },
            },
    {
        match self.opt_string_param(name) {
            Ok(Some(s)) => Ok(s),
            Ok(None) => Err(RequestError::MissingParam { name: name.to_string() }),
            Err(e) => Err(e),
        }
    }

    /// The value of a parameter as a tagged base 64 value, if the request has it.
    pub fn opt_tagged_base64_param(&self, name: &str) -> (r: Result<Option<&TaggedBase64>, RequestError>)
        ensures
            match param_lookup(self.spec_params(), name@) {
                None => r == Ok::<Option<&TaggedBase64>, RequestError>(None),
                Some(v) => match v {
                    RequestParamValue::TaggedBase64(t) => r == Ok::<Option<&TaggedBase64>, RequestError>(Some(&t)),
                    _ => r matches Err(e) && is_incorrect_type(e, name@, v, "TaggedBase64"@),
                },
            },
    {
        match self.opt_param(name) {
            None => Ok(None),
            Some(v) => match v.as_tagged_base64() {
                Some(t) => Ok(Some(t)),
                None => Err(
                    RequestError::IncorrectParamType {
                        name: name.to_string(),
                        param_type: v.param_type(),
                        expected: "TaggedBase64".to_string(),
                    },
                ),
            },
        }
    }

    /// The value of a parameter as a tagged base 64 value.
    pub fn tagged_base64_param(&self, name: &str) -> (r: Result<&TaggedBase64, RequestError>)
        ensures
            match param_lookup(self.spec_params(), name@) {
                None => r matches Err(e) && is_missing(e, name@),
                Some(v) => match v {
                    RequestParamValue::TaggedBase64(t) => r == Ok::<&TaggedBase64, RequestError>(&t),
                    _ => r matches Err(e) && is_incorrect_type(e, name@, v, "TaggedBase64"@),
                },
            },
    {
        match self.opt_tagged_base64_param(name) {
            Ok(Some(t)) => Ok(t),
            Ok(None) => Err(RequestError::MissingParam { name: name.to_string() }),
            Err(e) => Err(e),
        }
    }

    /// The bytes of a parameter that holds a blob with the given tag, if the request has it: a
    /// tagged base 64 value whose tag is `tag` (the bytes are then to be deserialized).
    pub fn opt_blob_param(&self, name: &str, tag: &str) -> (r: Result<Option<Vec<u8>>, RequestError>)
        ensures
            match param_lookup(self.spec_params(), name@) {
                None => r == Ok::<Option<Vec<u8>>, RequestError>(None),
                Some(v) => match v {
                    RequestParamValue::TaggedBase64(t) => if t.spec_tag() == tag@ {
                        r matches Ok(Some(b)) && b@ == t.spec_value()
                    } else {
                        r matches Err(RequestError::TagMismatch { actual, expected })
                            && actual@ == t.spec_tag() && expected@ == tag@
                    },
                    _ => r matches Err(e) && is_incorrect_type(e, name@, v, "TaggedBase64"@),
                },
            },
    {
        match self.opt_tagged_base64_param(name) {
            Ok(Some(t)) => {
                let actual = t.tag();
                if actual == tag.to_string() {
                    Ok(Some(t.value()))
                } else {
                    Err(RequestError::TagMismatch { actual, expected: tag.to_string() })
                }
            },
            Ok(None) => Ok(None),
            Err(e) => Err(e),
        }
    }

    /// The bytes of a parameter that holds a blob with the given tag.
    pub fn blob_param(&self, name: &str, tag: &str) -> (r: Result<Vec<u8>, RequestError>)
        ensures
            match param_lookup(self.spec_params(), name@) {
                None => r matches Err(e) && is_missing(e, name@),
                Some(v) => match v {
                    RequestParamValue::TaggedBase64(t) => if t.spec_tag() == tag@ {
                        r matches Ok(b) && b@ == t.spec_value()
                    } else {
                        r matches Err(RequestError::TagMismatch { actual, expected })
                            && actual@ == t.spec_tag() && expected@ == tag@
                    },
                    _ => r matches Err(e) && is_incorrect_type(e, name@, v, "TaggedBase64"@),
                },
            },
    {
        match self.opt_blob_param(name, tag) {
            Ok(Some(b)) => Ok(b),
            Ok(None) => Err(RequestError::MissingParam { name: name.to_string() }),
            Err(e) => Err(e),
        }
    }

    /// The body of the request.
    pub fn body_bytes(&self) -> (r: Vec<u8>)
        ensures
            r@ == self.spec_body(),
    {
        self.post_data.clone()
    }

    /// How the body is serialized, by the request's `Content-Type`: JSON for
    /// `application/json`, binary for `application/octet-stream`; any other, or none, is not
    /// supported.
    pub fn body_format(&self) -> (r: Result<BodyFormat, RequestError>)
        ensures
            match header_value(self.spec_headers().entries@, "content-type"@) {
                Some(t) => if t == "application/json"@ {
                    r == Ok::<BodyFormat, RequestError>(BodyFormat::Json)
                } else if t == "application/octet-stream"@ {
                    r == Ok::<BodyFormat, RequestError>(BodyFormat::Binary)
                } else {
                    r == Err::<BodyFormat, RequestError>(RequestError::UnsupportedContentType)
                },
                None => r == Err::<BodyFormat, RequestError>(RequestError::UnsupportedContentType),
            },
    {
        match self.headers.value("content-type") {
            Some(t) => if str_eq(t, "application/json") {
                Ok(BodyFormat::Json)
            } else if str_eq(t, "application/octet-stream") {
                Ok(BodyFormat::Binary)
            } else {
                Err(RequestError::UnsupportedContentType)
            },
            None => Err(RequestError::UnsupportedContentType),
        }
    }
}

/// Whether `r` is what a list of headers gives for their `Accept` header.
pub open spec fn accept_from(headers: Headers, r: Result<Accept, RequestError>) -> bool {
    let values = match header_values(headers.entries@, "accept"@) {
        Some(vs) => vs,
        None => seq![],
    };
    if !all_ascii(values) {
        r matches Err(RequestError::Http { reason }) && reason@ == "String slice should be valid ASCII"@
    } else {
        match accept_header(values) {
            Ok(Some((w, ps))) => r matches Ok(a) && a.wildcard == w && mime_views(a.proposals@) == ps,
            Ok(None) => r matches Ok(a) && a.wildcard && a.proposals@.len() == 0,
            Err(e) => r matches Err(RequestError::Http { reason }) && reason@ == e,
        }
    }
}


/// The media type chosen for a response is always one that is available: one of the
/// available types, or a proposal that is the same as one of them.
pub proof fn law_best_type_available(proposals: Seq<Mime>, i: int, wildcard: bool, available: Seq<Mime>)
    requires
        available.len() > 0,
        0 <= i,
    ensures
        best_type_from(proposals, i, wildcard, available) matches Some(m) ==> exists|k: int|
            0 <= k < available.len() && same_mime(m, #[trigger] available[k]),
    decreases proposals.len() - i,
{
    if i < proposals.len() {
        let p = proposals[i];
        if p.basetype@ == "*"@ {
            assert(same_mime(available[0], available[0]));
        } else if p.subtype@ == "*"@ && has_basetype(available, p.basetype@) {
            let w = first_with_basetype(available, p.basetype@);
            let j = choose|j: int| 0 <= j < available.len() && #[trigger] available[j].basetype@ == p.basetype@;
            assert(exists|x: int|
                0 <= x < available.len() && available[x].basetype@ == p.basetype@ && forall|y: int|
                    0 <= y < x ==> (#[trigger] available[y]).basetype@ != p.basetype@) by {
                lemma_first_index(available, p.basetype@, j);
            }
            assert(same_mime(available[w], available[w]));
        } else if p.subtype@ != "*"@ && has_same_mime(available, p) {
        } else {
            law_best_type_available(proposals, i + 1, wildcard, available);
        }
    } else if wildcard {
        assert(same_mime(available[0], available[0]));
    }
}

/// If some media type has a type, a first one does.
proof fn lemma_first_index(available: Seq<Mime>, b: Seq<char>, j: int)
    requires
        0 <= j < available.len(),
        available[j].basetype@ == b,
    ensures
        exists|x: int|
            0 <= x < available.len() && available[x].basetype@ == b && forall|y: int|
                0 <= y < x ==> (#[trigger] available[y]).basetype@ != b,
    decreases j,
{
    if exists|y: int| 0 <= y < j && (#[trigger] available[y]).basetype@ == b {
        let y = choose|y: int| 0 <= y < j && (#[trigger] available[y]).basetype@ == b;
        lemma_first_index(available, b, y);
    } else {
        assert(forall|y: int| 0 <= y < j ==> (#[trigger] available[y]).basetype@ != b);
    }
}

/// A parameter that a request has is found by each accessor: `param` gives it exactly when
/// `opt_param` does, and otherwise `param` reports it missing.
pub proof fn law_param_accessors_agree(ps: Seq<(String, RequestParamValue)>, name: Seq<char>)
    ensures
        param_lookup(ps, name) is Some <==> exists|i: int| 0 <= i < ps.len() && #[trigger] ps[i].0@ == name,
{
    if exists|i: int| 0 <= i < ps.len() && #[trigger] ps[i].0@ == name {
        let i = choose|i: int| 0 <= i < ps.len() && #[trigger] ps[i].0@ == name;
        lemma_first_param(ps, name, i);
    }
}

/// If some parameter has a name, a first one does.
proof fn lemma_first_param(ps: Seq<(String, RequestParamValue)>, name: Seq<char>, i: int)
    requires
        0 <= i < ps.len(),
        ps[i].0@ == name,
    ensures
        exists|j: int| is_first_param(ps, name, j),
    decreases i,
{
    if exists|y: int| 0 <= y < i && (#[trigger] ps[y]).0@ == name {
        let y = choose|y: int| 0 <= y < i && (#[trigger] ps[y]).0@ == name;
        lemma_first_param(ps, name, y);
    } else {
        assert(is_first_param(ps, name, i));
    }
}

} // verus!
