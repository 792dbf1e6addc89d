//! Routes: what the specification of a route says, the handler bound to it, and its
//! documentation.

use vstd::prelude::*;
use vstd::string::*;
use crate::api::{same_meta, ApiMetadata};
use crate::error::SocketError;
use crate::markdown::{is_markdown_safe, markdown_html, markdown_safe, markdown_to_html};
use crate::method::{spec_parse_method, HttpMethod, Method};
use crate::request::{param_type_from_str, RequestError, RequestParam, RequestParamType};
use crate::status::StatusCode;
use crate::text::{replace_all, replace_str, split_char, split_on, views};
use crate::value::TomlValue;

verus! {

/// An error in the specification of a route.
#[derive(Clone, Copy, Debug, PartialEq, Eq, Structural)]
pub enum RouteParseError {
    MissingPathArray,
    PathElementError,
    InvalidTypeExpression,
    UnrecognizedType,
    MethodMustBeString,
    InvalidMethod,
    MissingPath,
    IncorrectPathType,
    IncorrectParamType,
    IncorrectDocType,
    RouteMustBeTable,
}

/// Why a route specification cannot be read: an error that is reported as such, or a
/// specification so malformed that it is refused outright: one that is not a table or has no
/// `PATH`, whose `PATH` array holds something other than a string, or that does not give the
/// type of one of its parameters.
#[derive(Clone, Copy, Debug, PartialEq, Eq, Structural)]
pub enum RouteFailure {
    Invalid(RouteParseError),
    Malformed,
}

/// The strings of an array, if every element is a string.
pub open spec fn array_strings(a: Seq<TomlValue>) -> Option<Seq<Seq<char>>>
    decreases a.len(),
{
    if a.len() == 0 {
        Some(seq![])
    } else {
        match array_strings(a.drop_last()) {
            None => None,
            Some(ss) => match a.last() {
                TomlValue::String(s) => Some(ss.push(s@)),
                _ => None,
            },
        }
    }
}

/// The path patterns of a route specification: its `PATH` array of strings.
pub open spec fn route_paths(spec: TomlValue) -> Result<Seq<Seq<char>>, RouteFailure> {
    match spec.spec_get("PATH"@) {
        None => Err(RouteFailure::Malformed),
        Some(TomlValue::Array(a)) => match array_strings(a@) {
            Some(ps) => Ok(ps),
            None => Err(RouteFailure::Malformed),
        },
        Some(_) => Err(RouteFailure::Invalid(RouteParseError::MissingPathArray)),
    }
}

/// The segments of a list of paths: the pieces between the slashes of each, in order.
pub open spec fn path_segments(paths: Seq<Seq<char>>) -> Seq<Seq<char>>
    decreases paths.len(),
{
    if paths.len() == 0 {
        seq![]
    } else {
        path_segments(paths.drop_last()) + split_on(paths.last(), '/')
    }
}

/// Whether a list of parameters has one with the given name.
pub open spec fn has_param(ps: Seq<(Seq<char>, RequestParamType)>, name: Seq<char>) -> bool {
    exists|i: int| 0 <= i < ps.len() && #[trigger] ps[i].0 == name
}

/// A list of parameters with one more, unless one of that name is already there.
pub open spec fn add_param(
    ps: Seq<(Seq<char>, RequestParamType)>,
    name: Seq<char>,
    ty: RequestParamType,
) -> Seq<(Seq<char>, RequestParamType)> {
    if has_param(ps, name) {
        ps
    } else {
        ps.push((name, ty))
    }
}

/// Whether a segment of a path pattern is a parameter (`:name`).
pub open spec fn is_param_segment(seg: Seq<char>) -> bool {
    seg.len() > 0 && seg[0] == ':'
}

/// The parameters named by segments of path patterns, each once, in the order in which they
/// first occur; the type of a parameter `:name` is the string under the key `:name`.
pub open spec fn scan_params(segs: Seq<Seq<char>>, spec: TomlValue) -> Result<
    Seq<(Seq<char>, RequestParamType)>,
    RouteFailure,
>
    decreases segs.len(),
{
    if segs.len() == 0 {
        Ok(seq![])
    } else {
        match scan_params(segs.drop_last(), spec) {
            Err(e) => Err(e),
            Ok(ps) => {
                let seg = segs.last();
                if is_param_segment(seg) {
                    match spec.spec_get(seg) {
                        None => Err(RouteFailure::Malformed),
                        Some(TomlValue::String(t)) => match param_type_from_str(t@) {
                            Some(ty) => Ok(add_param(ps, seg.skip(1), ty)),
                            None => Err(RouteFailure::Invalid(RouteParseError::UnrecognizedType)),
                        },
                        Some(_) => Err(RouteFailure::Invalid(RouteParseError::InvalidTypeExpression)),
                    }
                } else {
                    Ok(ps)
                }
            },
        }
    }
}

/// The name of the method of a route specification: `GET` unless `METHOD` says otherwise.
pub open spec fn route_method(spec: TomlValue) -> Result<Seq<char>, RouteFailure> {
    match spec.spec_get("METHOD"@) {
        None => Ok("GET"@),
        Some(TomlValue::String(s)) => match spec_parse_method(s@) {
            Some(n) => Ok(n),
            None => Err(RouteFailure::Invalid(RouteParseError::InvalidMethod)),
        },
        Some(_) => Err(RouteFailure::Invalid(RouteParseError::MethodMustBeString)),
    }
}

/// Whether the method of a route specification is an HTTP method (not `SOCKET` or `METRICS`).
pub open spec fn route_method_is_http(spec: TomlValue) -> bool {
    match spec.spec_get("METHOD"@) {
        Some(TomlValue::String(s)) => s@ != "SOCKET"@ && s@ != "METRICS"@,
        _ => true,
    }
}

/// The documentation of a route specification: its `DOC`, rendered from Markdown to HTML
/// (where the Markdown library reads it to the end).
pub open spec fn route_doc(spec: TomlValue) -> Result<Seq<char>, RouteFailure> {
    match spec.spec_get("DOC"@) {
        None => Ok(seq![]),
        Some(TomlValue::String(s)) => if markdown_safe(s@) {
            Ok(markdown_html(s@))
        } else {
            Err(RouteFailure::Malformed)
        },
        Some(_) => Err(RouteFailure::Invalid(RouteParseError::IncorrectDocType)),
    }
}

/// Why a route specification cannot be read, if it cannot: the paths are read first, then
/// the parameters, the method and the documentation.
pub open spec fn route_error(spec: TomlValue) -> Option<RouteFailure> {
    match route_paths(spec) {
        Err(e) => Some(e),
        Ok(paths) => match scan_params(path_segments(paths), spec) {
            Err(e) => Some(e),
            Ok(_) => match route_method(spec) {
                Err(e) => Some(e),
                Ok(_) => match route_doc(spec) {
                    Err(e) => Some(e),
                    Ok(_) => None,
                },
            },
        },
    }
}

/// The parameters as names and types.
pub open spec fn param_views(ps: Seq<RequestParam>) -> Seq<(Seq<char>, RequestParamType)> {
    ps.map_values(|p: RequestParam| (p.name@, p.param_type))
}

/// How a route is dispatched, and the handler bound to it, if any.
#[derive(Debug)]
pub enum RouteImplementation<H> {
    Http { method: HttpMethod, handler: Option<H> },
    Socket { handler: Option<H> },
    Metrics { handler: Option<H> },
}

/// A route of an API: its name, path patterns, parameters, documentation and method, and the
/// handler bound to it. A route with no handler is answered with its documentation.
#[derive(Debug)]
pub struct Route<H> {
    name: String,
    patterns: Vec<String>,
    params: Vec<RequestParam>,
    doc: String,
    meta: ApiMetadata,
    handler: RouteImplementation<H>,
}

/// An error of a route handler, or of the dispatching of a request to it.
#[derive(Debug)]
pub enum RouteError<E> {
    AppSpecific(E),
    Request(RequestError),
    UnsupportedContentType,
    Binary(String),
    Json(String),
    Tide(String),
    ExportMetrics(String),
    IncorrectMethod { expected: Method },
}

/// The heading of the documentation of a route.
pub open spec fn entry_heading(meta: ApiMetadata, method: Seq<char>, name: Seq<char>) -> Seq<char> {
    replace_all(replace_all(meta.heading_entry@, "{{METHOD}}"@, method), "{{NAME}}"@, name)
}

/// The documentation of the paths of a route, one after the other.
pub open spec fn path_lines(meta: ApiMetadata, patterns: Seq<Seq<char>>) -> Seq<char>
    decreases patterns.len(),
{
    if patterns.len() == 0 {
        seq![]
    } else {
        path_lines(meta, patterns.drop_last()) + replace_all(
            meta.route_path@,
            "{{PATH}}"@,
            "/"@ + meta.name@ + "/"@ + patterns.last(),
        )
    }
}

/// The documentation of the paths of the first patterns of a route is a prefix of that of all
/// its patterns.
proof fn lemma_path_lines_prefix(meta: ApiMetadata, patterns: Seq<Seq<char>>, j: int)
    requires
        0 <= j <= patterns.len(),
    ensures
        path_lines(meta, patterns.take(j)).len() <= path_lines(meta, patterns).len(),
        path_lines(meta, patterns).subrange(0, path_lines(meta, patterns.take(j)).len() as int)
            == path_lines(meta, patterns.take(j)),
    decreases patterns.len(),
{
    if j == patterns.len() {
        assert(patterns.take(j) =~= patterns);
        assert(path_lines(meta, patterns).subrange(0, path_lines(meta, patterns).len() as int)
            =~= path_lines(meta, patterns));
    } else {
        let init = patterns.drop_last();
        lemma_path_lines_prefix(meta, init, j);
        assert(init.take(j) =~= patterns.take(j));
        let whole = path_lines(meta, patterns);
        let front = path_lines(meta, init);
        assert(whole.subrange(0, front.len() as int) =~= front);
        assert(whole.subrange(0, path_lines(meta, patterns.take(j)).len() as int) =~= front.subrange(
            0,
            path_lines(meta, patterns.take(j)).len() as int,
        ));
    }
}

/// Every path pattern of a route is documented: the route's documentation holds, for each of
/// its patterns, the API's path line with `{{PATH}}` filled by `/NAME/pattern`.
pub proof fn law_documentation_lists_every_path(
    meta: ApiMetadata,
    method: Seq<char>,
    name: Seq<char>,
    patterns: Seq<Seq<char>>,
    params: Seq<(Seq<char>, RequestParamType)>,
    doc: Seq<char>,
    k: int,
)
    requires
        0 <= k < patterns.len(),
    ensures
        crate::text::occurs_in(
            route_documentation(meta, method, name, patterns, params, doc),
            replace_all(meta.route_path@, "{{PATH}}"@, "/"@ + meta.name@ + "/"@ + patterns[k]),
        ),
{
    let line = replace_all(meta.route_path@, "{{PATH}}"@, "/"@ + meta.name@ + "/"@ + patterns[k]);
    lemma_path_lines_prefix(meta, patterns, k + 1);
    let upto = patterns.take(k + 1);
    assert(upto.drop_last() =~= patterns.take(k));
    assert(upto.last() == patterns[k]);
    let before = path_lines(meta, patterns.take(k));
    let bl: int = before.len() as int;
    let ll: int = line.len() as int;
    assert(path_lines(meta, upto) == before + line);
    let lines = path_lines(meta, patterns);
    assert(lines.subrange(bl, bl + ll) =~= line) by {
        assert(lines.subrange(0, (before + line).len() as int) == before + line);
        assert forall|t: int| 0 <= t < line.len() implies lines.subrange(
            bl,
            bl + ll,
        )[t] == line[t] by {
            assert(lines.subrange(0, (before + line).len() as int)[bl + t] == lines[bl + t]);
            assert((before + line)[bl + t] == line[t]);
        }
    }
    let head = entry_heading(meta, method, name) + meta.heading_routes@;
    let d = route_documentation(meta, method, name, patterns, params, doc);
    let tail = meta.heading_parameters@ + meta.parameter_table_open@ + param_rows(meta, params) + (if params.len()
        == 0 {
        meta.parameter_none@
    } else {
        Seq::<char>::empty()
    }) + meta.parameter_table_close@ + meta.heading_description@ + doc;
    assert(d =~= head + lines + tail);
    let at: int = head.len() + bl;
    assert(d.subrange(at, at + ll) =~= line) by {
        assert forall|t: int| 0 <= t < line.len() implies d.subrange(at, at + ll)[t] == line[t] by {
            assert(d[at + t] == lines[bl + t]);
            assert(lines.subrange(bl, bl + ll)[t] == lines[bl + t]);
        }
    }
}

/// The rows of the table of the parameters of a route.
pub open spec fn param_rows(meta: ApiMetadata, params: Seq<(Seq<char>, RequestParamType)>) -> Seq<char>
    decreases params.len(),
{
    if params.len() == 0 {
        seq![]
    } else {
        param_rows(meta, params.drop_last()) + replace_all(
            replace_all(meta.parameter_row@, "{{NAME}}"@, params.last().0),
            "{{TYPE}}"@,
            params.last().1.spec_name(),
        )
    }
}

/// The documentation of a route: its heading, its paths, the table of its parameters and its
/// description, each under the headings of the API's metadata.
pub open spec fn route_documentation(
    meta: ApiMetadata,
    method: Seq<char>,
    name: Seq<char>,
    patterns: Seq<Seq<char>>,
    params: Seq<(Seq<char>, RequestParamType)>,
    doc: Seq<char>,
) -> Seq<char> {
    entry_heading(meta, method, name) + meta.heading_routes@ + path_lines(meta, patterns)
        + meta.heading_parameters@ + meta.parameter_table_open@ + param_rows(meta, params) + (if params.len()
        == 0 {
        meta.parameter_none@
    } else {
        Seq::<char>::empty()
    }) + meta.parameter_table_close@ + meta.heading_description@ + doc
}

/// `scan_params` fails on a list of segments as soon as it fails on a prefix of it.
proof fn lemma_scan_prefix_err(segs: Seq<Seq<char>>, k: int, spec: TomlValue)
    requires
        0 <= k <= segs.len(),
        scan_params(segs.take(k), spec) is Err,
    ensures
        scan_params(segs, spec) == scan_params(segs.take(k), spec),
    decreases segs.len() - k,
{
    if k == segs.len() {
        assert(segs.take(k) =~= segs);
    } else {
        assert(segs.take(k + 1).drop_last() =~= segs.take(k));
        lemma_scan_prefix_err(segs, k + 1, spec);
    }
}

/// The strings of an array, if every element is a string.
fn read_strings(a: &Vec<TomlValue>) -> (r: Option<Vec<String>>)
    ensures
        match r {
            Some(ss) => array_strings(a@) == Some(views(ss@)),
            None => array_strings(a@) is None,
        },
{
    let mut ss: Vec<String> = Vec::new();
    let n = a.len();
    let mut i: usize = 0;
    while i < n
        invariant
            n == a@.len(),
            i <= n,
            array_strings(a@.take(i as int)) == Some(views(ss@)),
        decreases n - i,
    {
        proof {
            assert(a@.take(i + 1).drop_last() =~= a@.take(i as int));
            assert(a@.take(i + 1).last() == a@[i as int]);
        }
        match &a[i] {
            TomlValue::String(s) => {
                ss.push(s.clone());
                proof {
                    assert(views(ss@) =~= views(ss@.drop_last()).push(s@));
                }
            },
            _ => {
                proof {
                    lemma_array_strings_prefix_none(a@, i + 1);
                }
                return None;
            },
        }
        i = i + 1;
    }
    assert(a@.take(n as int) =~= a@);
    Some(ss)
}

/// `array_strings` finds no strings in an array as soon as it finds none in a prefix.
proof fn lemma_array_strings_prefix_none(a: Seq<TomlValue>, k: int)
    requires
        0 <= k <= a.len(),
        array_strings(a.take(k)) is None,
    ensures
        array_strings(a) is None,
    decreases a.len() - k,
{
    if k == a.len() {
        assert(a.take(k) =~= a);
    } else {
        assert(a.take(k + 1).drop_last() =~= a.take(k));
        lemma_array_strings_prefix_none(a, k + 1);
    }
}

/// The path patterns of a route specification.
fn read_paths(spec: &TomlValue) -> (r: Result<Vec<String>, RouteFailure>)
    ensures
        match r {
            Ok(ps) => route_paths(*spec) == Ok::<Seq<Seq<char>>, RouteFailure>(views(ps@)),
            Err(e) => route_paths(*spec) == Err::<Seq<Seq<char>>, RouteFailure>(e),
        },
{
    let value = match spec.get("PATH") {
        Some(v) => v,
        None => return Err(RouteFailure::Malformed),
    };
    let array = match value.as_array() {
        Some(a) => a,
        None => return Err(RouteFailure::Invalid(RouteParseError::MissingPathArray)),
    };
    match read_strings(array) {
        Some(ps) => Ok(ps),
        None => Err(RouteFailure::Malformed),
    }
}

/// The segments of a list of paths.
pub(crate) fn segments_of(paths: &Vec<String>) -> (r: Vec<String>)
    ensures
        views(r@) == path_segments(views(paths@)),
{
    let mut segs: Vec<String> = Vec::new();
    let n = paths.len();
    let mut i: usize = 0;
    while i < n
        invariant
            n == paths@.len(),
            i <= n,
            views(segs@) == path_segments(views(paths@.take(i as int))),
        decreases n - i,
    {
        let pieces = split_char(paths[i].as_str(), '/');
        let ghost before = segs@;
        let m = pieces.len();
        let mut j: usize = 0;
        while j < m
            invariant
                m == pieces@.len(),
                j <= m,
                views(segs@) == views(before) + views(pieces@.take(j as int)),
            decreases m - j,
        {
            let ghost old_segs = segs@;
            let piece = pieces[j].clone();
            segs.push(piece);
            proof {
                assert(views(segs@) =~= views(old_segs).push(piece@));
                assert(views(pieces@.take(j + 1)) =~= views(pieces@.take(j as int)).push(
                    pieces@[j as int]@,
                ));
                assert(views(segs@) =~= views(before) + views(pieces@.take(j + 1)));
            }
            j = j + 1;
        }
        proof {
            assert(pieces@.take(m as int) =~= pieces@);
            assert(views(paths@.take(i + 1)).drop_last() =~= views(paths@.take(i as int)));
            assert(views(paths@.take(i + 1)).last() == paths@[i as int]@);
        }
        i = i + 1;
    }
    assert(paths@.take(n as int) =~= paths@);
    segs
}

/// The index of the parameter with the given name, if there is one.
fn find_param(ps: &Vec<RequestParam>, name: &str) -> (r: Option<usize>)
    ensures
        match r {
            Some(i) => i < ps@.len() && ps@[i as int].name@ == name@,
            None => !has_param(param_views(ps@), name@),
        },
{
    let n = ps.len();
    let mut i: usize = 0;
    while i < n
        invariant
            n == ps@.len(),
            i <= n,
            forall|j: int| 0 <= j < i ==> ps@[j].name@ != name@,
        decreases n - i,
    {
        if ps[i].name == name.to_string() {
            return Some(i);
        }
        i = i + 1;
    }
    proof {
        assert forall|j: int| 0 <= j < param_views(ps@).len() implies #[trigger] param_views(
            ps@,
        )[j].0 != name@ by {
            assert(param_views(ps@)[j].0 == ps@[j].name@);
        }
    }
    None
}

/// The parameters of a route: those named by the segments of its paths.
fn read_params(segs: &Vec<String>, spec: &TomlValue) -> (r: Result<Vec<RequestParam>, RouteFailure>)
    ensures
        match r {
            Ok(ps) => scan_params(views(segs@), *spec) == Ok::<
                Seq<(Seq<char>, RequestParamType)>,
                RouteFailure,
            >(param_views(ps@)) && forall|i: int| 0 <= i < ps@.len() ==> #[trigger] ps@[i].required,
            Err(e) => scan_params(views(segs@), *spec) == Err::<
                Seq<(Seq<char>, RequestParamType)>,
                RouteFailure,
            >(e),
        },
{
    let mut ps: Vec<RequestParam> = Vec::new();
    let n = segs.len();
    let mut k: usize = 0;
    proof {
        assert(views(segs@).take(0) =~= Seq::<Seq<char>>::empty());
        assert(param_views(ps@) =~= Seq::<(Seq<char>, RequestParamType)>::empty());
    }
    while k < n
        invariant
            n == segs@.len(),
            k <= n,
            scan_params(views(segs@).take(k as int), *spec) == Ok::<
                Seq<(Seq<char>, RequestParamType)>,
                RouteFailure,
            >(param_views(ps@)),
            forall|i: int| 0 <= i < ps@.len() ==> #[trigger] ps@[i].required,
        decreases n - k,
    {
        let ghost segs_v = views(segs@);
        proof {
            assert(segs_v.take(k + 1).drop_last() =~= segs_v.take(k as int));
            assert(segs_v.take(k + 1).last() == segs@[k as int]@);
        }
        let seg = segs[k].as_str();
        let len = seg.unicode_len();
        let ghost prev = param_views(ps@);
        if len > 0 && seg.get_char(0) == ':' {
            let value = match spec.get(seg) {
                Some(v) => v,
                None => {
                    proof {
                        lemma_scan_prefix_err(segs_v, k + 1, *spec);
                    }
                    return Err(RouteFailure::Malformed);
                },
            };
            let ty_text = match value.as_str() {
                Some(t) => t,
                None => {
                    proof {
                        lemma_scan_prefix_err(segs_v, k + 1, *spec);
                    }
                    return Err(RouteFailure::Invalid(RouteParseError::InvalidTypeExpression));
                },
            };
            let param_type = match RequestParamType::from_str(ty_text) {
                Some(t) => t,
                None => {
                    proof {
                        lemma_scan_prefix_err(segs_v, k + 1, *spec);
                    }
                    return Err(RouteFailure::Invalid(RouteParseError::UnrecognizedType));
                },
            };
            let name = seg.substring_char(1, len);
            proof {
                assert(name@ =~= seg@.skip(1));
            }
            match find_param(&ps, name) {
                Some(i) => {
                    assert(param_views(ps@)[i as int].0 == name@);
                    assert(add_param(prev, seg@.skip(1), param_type) == prev);
                },
                None => {
                    let p = RequestParam { name: name.to_string(), param_type, required: true };
                    ps.push(p);
                    proof {
                        assert(param_views(ps@) =~= prev.push((name@, param_type)));
                        assert(add_param(prev, seg@.skip(1), param_type) == param_views(ps@));
                    }
                },
            }
            assert(scan_params(segs_v.take(k + 1), *spec) == Ok::<
                Seq<(Seq<char>, RequestParamType)>,
                RouteFailure,
            >(param_views(ps@)));
        } else {
            assert(!is_param_segment(segs_v.take(k + 1).last()));
            assert(scan_params(segs_v.take(k + 1), *spec) == Ok::<
                Seq<(Seq<char>, RequestParamType)>,
                RouteFailure,
            >(param_views(ps@)));
        }
        k = k + 1;
    }
    assert(views(segs@).take(n as int) =~= views(segs@));
    Ok(ps)
}

impl<E> RouteError<E> {
    /// The status code of this error: `400 Bad Request` for errors in the request,
    /// `500 Internal Server Error` for the others.
    pub open spec fn spec_status(&self) -> StatusCode {
        match self {
            RouteError::Request(_) | RouteError::UnsupportedContentType
            | RouteError::IncorrectMethod { .. } => StatusCode::BadRequest,
            _ => StatusCode::InternalServerError,
        }
    }

    /// The status code of this error.
    pub fn status(&self) -> (r: StatusCode)
        ensures
            r == self.spec_status(),
    {
        match self {
            RouteError::Request(_) | RouteError::UnsupportedContentType
            | RouteError::IncorrectMethod { .. } => StatusCode::BadRequest,
            _ => StatusCode::InternalServerError,
        }
    }

    /// The same error, with an application-specific error mapped by `f`.
    pub fn map_app_specific<E2, F: Fn(E) -> E2>(self, f: F) -> (r: RouteError<E2>)
        requires
            forall|e: E| f.requires((e,)),
        ensures
            match self {
                RouteError::AppSpecific(e) => r matches RouteError::AppSpecific(e2) && f.ensures(
                    (e,),
                    e2,
                ),
                RouteError::Request(e) => r == RouteError::<E2>::Request(e),
                RouteError::UnsupportedContentType => r is UnsupportedContentType,
                RouteError::Binary(m) => r == RouteError::<E2>::Binary(m),
                RouteError::Json(m) => r == RouteError::<E2>::Json(m),
                RouteError::Tide(m) => r == RouteError::<E2>::Tide(m),
                RouteError::ExportMetrics(m) => r == RouteError::<E2>::ExportMetrics(m),
                RouteError::IncorrectMethod { expected } => r == RouteError::<E2>::IncorrectMethod {
                    expected,
                },
            },
    {
        match self {
            RouteError::AppSpecific(e) => RouteError::AppSpecific(f(e)),
            RouteError::Request(e) => RouteError::Request(e),
            RouteError::UnsupportedContentType => RouteError::UnsupportedContentType,
            RouteError::Binary(m) => RouteError::Binary(m),
            RouteError::Json(m) => RouteError::Json(m),
            RouteError::Tide(m) => RouteError::Tide(m),
            RouteError::ExportMetrics(m) => RouteError::ExportMetrics(m),
            RouteError::IncorrectMethod { expected } => RouteError::IncorrectMethod { expected },
        }
    }

    /// An error in the request.
    pub fn from_request_error(err: RequestError) -> (r: RouteError<E>)
        ensures
            r == RouteError::<E>::Request(err),
    {
        RouteError::Request(err)
    }
}

impl<H> Route<H> {
    /// The name of the route.
    pub closed spec fn spec_name(&self) -> Seq<char> {
        self.name@
    }

    /// The path patterns of the route.
    pub closed spec fn spec_patterns(&self) -> Seq<Seq<char>> {
        views(self.patterns@)
    }

    /// The formal parameters of the route.
    pub closed spec fn spec_params(&self) -> Seq<RequestParam> {
        self.params@
    }

    /// The documentation of the route, as HTML.
    pub closed spec fn spec_doc(&self) -> Seq<char> {
        self.doc@
    }

    /// The metadata of the API that the route belongs to.
    pub closed spec fn spec_meta(&self) -> ApiMetadata {
        self.meta
    }

    /// The method of the route.
    pub closed spec fn spec_method(&self) -> Method {
        match self.handler {
            RouteImplementation::Http { method, .. } => Method::Http(method),
            RouteImplementation::Socket { .. } => Method::Socket,
            RouteImplementation::Metrics { .. } => Method::Metrics,
        }
    }

    /// The handler bound to the route, if any.
    pub closed spec fn spec_handler(&self) -> Option<H> {
        match self.handler {
            RouteImplementation::Http { handler, .. } => handler,
            RouteImplementation::Socket { handler } => handler,
            RouteImplementation::Metrics { handler } => handler,
        }
    }

    /// Whether a route is the one that a specification describes under a name.
    pub open spec fn from_spec(&self, name: Seq<char>, spec: TomlValue) -> bool {
        &&& self.spec_name() == name
        &&& route_paths(spec) == Ok::<Seq<Seq<char>>, RouteFailure>(self.spec_patterns())
        &&& scan_params(path_segments(self.spec_patterns()), spec) == Ok::<
            Seq<(Seq<char>, RequestParamType)>,
            RouteFailure,
        >(param_views(self.spec_params()))
        &&& forall|i: int|
            0 <= i < self.spec_params().len() ==> #[trigger] self.spec_params()[i].required
        &&& route_method(spec) == Ok::<Seq<char>, RouteFailure>(self.spec_method()@)
        &&& (self.spec_method() is Http <==> route_method_is_http(spec))
        &&& route_doc(spec) == Ok::<Seq<char>, RouteFailure>(self.spec_doc())
    }

    /// Whether two routes agree in everything but their handlers.
    pub open spec fn same_but_handler<H2>(&self, other: &Route<H2>) -> bool {
        &&& self.spec_name() == other.spec_name()
        &&& self.spec_patterns() == other.spec_patterns()
        &&& self.spec_params() == other.spec_params()
        &&& self.spec_doc() == other.spec_doc()
        &&& self.spec_meta() == other.spec_meta()
        &&& self.spec_method() == other.spec_method()
    }

    /// Read a route from its specification, which must be a table with at least a `PATH` array
    /// of patterns and, for each parameter (`:name` segment) of a pattern, a key `:name` that
    /// gives its type. It may also have a `METHOD` (`GET` by default) and a `DOC` in Markdown.
    pub fn parse(name: String, spec: &TomlValue, meta: ApiMetadata) -> (r: Result<Route<H>, RouteFailure>)
        ensures
            match r {
                Ok(route) => route_error(*spec) is None && route.from_spec(name@, *spec)
                    && route.spec_handler() is None && route.spec_meta() == meta,
                Err(f) => route_error(*spec) == Some(f),
            },
    {
        let patterns = match read_paths(spec) {
            Ok(ps) => ps,
            Err(e) => return Err(e),
        };
        let segs = segments_of(&patterns);
        let params = match read_params(&segs, spec) {
            Ok(ps) => ps,
            Err(e) => return Err(e),
        };
        let method = match spec.get("METHOD") {
            None => Method::get(),
            Some(v) => match v.as_str() {
                None => return Err(RouteFailure::Invalid(RouteParseError::MethodMustBeString)),
                Some(s) => match Method::from_str(s) {
                    Ok(m) => m,
                    Err(_) => return Err(RouteFailure::Invalid(RouteParseError::InvalidMethod)),
                },
            },
        };
        let doc = match spec.get("DOC") {
            None => String::new(),
            Some(v) => match v.as_str() {
                None => return Err(RouteFailure::Invalid(RouteParseError::IncorrectDocType)),
                Some(s) => if is_markdown_safe(s) {
                    markdown_to_html(s)
                } else {
                    return Err(RouteFailure::Malformed);
                },
            },
        };
        let handler = match method {
            Method::Http(m) => RouteImplementation::Http { method: m, handler: None },
            Method::Socket => RouteImplementation::Socket { handler: None },
            Method::Metrics => RouteImplementation::Metrics { handler: None },
        };
        Ok(Route { name, patterns, params, doc, meta, handler })
    }

    /// Read a route from its specification, as `parse` does, on a specification that is not
    /// malformed.
    pub fn new(name: String, spec: &TomlValue, meta: ApiMetadata) -> (r: Result<Route<H>, RouteParseError>)
        requires
            route_error(*spec) != Some(RouteFailure::Malformed),
        ensures
            match r {
                Ok(route) => route_error(*spec) is None && route.from_spec(name@, *spec)
                    && route.spec_handler() is None && route.spec_meta() == meta,
                Err(e) => route_error(*spec) == Some(RouteFailure::Invalid(e)),
            },
    {
        match Self::parse(name, spec, meta) {
            Ok(route) => Ok(route),
            Err(RouteFailure::Invalid(e)) => Err(e),
            Err(RouteFailure::Malformed) => {
                assert(false);
                Err(RouteParseError::RouteMustBeTable)
            },
        }
    }

    /// The name of the route.
    pub fn name(&self) -> (r: String)
        ensures
            r@ == self.spec_name(),
    {
        self.name.clone()
    }

    /// The path patterns of the route.
    pub fn patterns(&self) -> (r: &Vec<String>)
        ensures
            views(r@) == self.spec_patterns(),
    {
        &self.patterns
    }

    /// The method of the route.
    pub fn method(&self) -> (r: Method)
        ensures
            r@ == self.spec_method()@,
            r is Http <==> self.spec_method() is Http,
            r is Socket <==> self.spec_method() is Socket,
            r is Metrics <==> self.spec_method() is Metrics,
    {
        match &self.handler {
            RouteImplementation::Http { method, .. } => Method::Http(method.duplicate()),
            RouteImplementation::Socket { .. } => Method::Socket,
            RouteImplementation::Metrics { .. } => Method::Metrics,
        }
    }

    /// Whether a handler has been bound to the route.
    pub fn has_handler(&self) -> (r: bool)
        ensures
            r == self.spec_handler() is Some,
    {
        match &self.handler {
            RouteImplementation::Http { handler, .. } => handler.is_some(),
            RouteImplementation::Socket { handler } => handler.is_some(),
            RouteImplementation::Metrics { handler } => handler.is_some(),
        }
    }

    /// The formal parameters of the route.
    pub fn params(&self) -> (r: &Vec<RequestParam>)
        ensures
            r@ == self.spec_params(),
    {
        &self.params
    }

    /// The handler bound to the route, if any.
    pub fn handler(&self) -> (r: Option<&H>)
        ensures
            match self.spec_handler() {
                Some(h) => r == Some(&h),
                None => r is None,
            },
    {
        match &self.handler {
            RouteImplementation::Http { handler, .. } => handler.as_ref(),
            RouteImplementation::Socket { handler } => handler.as_ref(),
            RouteImplementation::Metrics { handler } => handler.as_ref(),
        }
    }

    /// The same route with its handler, if any, mapped by `f`.
    pub fn map_err<H2, F: Fn(H) -> H2>(self, f: F) -> (r: Route<H2>)
        requires
            forall|h: H| f.requires((h,)),
        ensures
            r.same_but_handler(&self),
            match self.spec_handler() {
                Some(h) => r.spec_handler() matches Some(h2) && f.ensures((h,), h2),
                None => r.spec_handler() is None,
            },
    {
        let handler = match self.handler {
            RouteImplementation::Http { method, handler } => RouteImplementation::Http {
                method,
                handler: match handler {
                    Some(h) => Some(f(h)),
                    None => None,
                },
            },
            RouteImplementation::Socket { handler } => RouteImplementation::Socket {
                handler: match handler {
                    Some(h) => Some(f(h)),
                    None => None,
                },
            },
            RouteImplementation::Metrics { handler } => RouteImplementation::Metrics {
                handler: match handler {
                    Some(h) => Some(f(h)),
                    None => None,
                },
            },
        };
        Route {
            name: self.name,
            patterns: self.patterns,
            params: self.params,
            doc: self.doc,
            meta: self.meta,
            handler,
        }
    }

    /// Bind a handler to an HTTP route. A route of another kind is left as it is, and the error
    /// names its method.
    pub fn set_handler<E>(&mut self, h: H) -> (r: Result<(), RouteError<E>>)
        ensures
            final(self).same_but_handler(old(self)),
            match r {
                Ok(()) => old(self).spec_method() is Http && final(self).spec_handler() == Some(h),
                Err(e) => !(old(self).spec_method() is Http) && final(self).spec_handler()
                    == old(self).spec_handler() && (e matches RouteError::IncorrectMethod { expected } && expected@ == old(self).spec_method()@),
            },
    {
        match &mut self.handler {
            RouteImplementation::Http { handler, .. } => {
                *handler = Some(h);
                return Ok(());
            },
            _ => {},
        }
        Err(RouteError::IncorrectMethod { expected: self.method() })
    }

    /// Bind a handler to a socket route. A route of another kind is left as it is, and the
    /// error names its method.
    pub fn set_socket_handler<E>(&mut self, h: H) -> (r: Result<(), RouteError<E>>)
        ensures
            final(self).same_but_handler(old(self)),
            match r {
                Ok(()) => old(self).spec_method() is Socket && final(self).spec_handler() == Some(h),
                Err(e) => !(old(self).spec_method() is Socket) && final(self).spec_handler()
                    == old(self).spec_handler() && (e matches RouteError::IncorrectMethod { expected } && expected@ == old(self).spec_method()@),
            },
    {
        match &mut self.handler {
            RouteImplementation::Socket { handler } => {
                *handler = Some(h);
                return Ok(());
            },
            _ => {},
        }
        Err(RouteError::IncorrectMethod { expected: self.method() })
    }

    /// Bind a handler to a metrics route. A route of another kind is left as it is, and the
    /// error names its method.
    pub fn set_metrics_handler<E>(&mut self, h: H) -> (r: Result<(), RouteError<E>>)
        ensures
            final(self).same_but_handler(old(self)),
            match r {
                Ok(()) => old(self).spec_method() is Metrics && final(self).spec_handler() == Some(
                    h,
                ),
                Err(e) => !(old(self).spec_method() is Metrics) && final(self).spec_handler()
                    == old(self).spec_handler() && (e matches RouteError::IncorrectMethod { expected } && expected@ == old(self).spec_method()@),
            },
    {
        match &mut self.handler {
            RouteImplementation::Metrics { handler } => {
                *handler = Some(h);
                return Ok(());
            },
            _ => {},
        }
        Err(RouteError::IncorrectMethod { expected: self.method() })
    }

    /// The documentation of the route, as HTML: what a route without a handler answers.
    pub fn documentation(&self) -> (r: String)
        ensures
            r@ == route_documentation(
                self.spec_meta(),
                self.spec_method()@,
                self.spec_name(),
                self.spec_patterns(),
                param_views(self.spec_params()),
                self.spec_doc(),
            ),
            forall|k: int|
                0 <= k < self.spec_patterns().len() ==> crate::text::occurs_in(
                    r@,
                    replace_all(
                        self.spec_meta().route_path@,
                        "{{PATH}}"@,
                        "/"@ + self.spec_meta().name@ + "/"@ + #[trigger] self.spec_patterns()[k],
                    ),
                ),
    {
        proof {
            assert forall|k: int| 0 <= k < self.spec_patterns().len() implies crate::text::occurs_in(
                route_documentation(
                    self.spec_meta(),
                    self.spec_method()@,
                    self.spec_name(),
                    self.spec_patterns(),
                    param_views(self.spec_params()),
                    self.spec_doc(),
                ),
                replace_all(
                    self.spec_meta().route_path@,
                    "{{PATH}}"@,
                    "/"@ + self.spec_meta().name@ + "/"@ + #[trigger] self.spec_patterns()[k],
                ),
            ) by {
                law_documentation_lists_every_path(
                    self.spec_meta(),
                    self.spec_method()@,
                    self.spec_name(),
                    self.spec_patterns(),
                    param_views(self.spec_params()),
                    self.spec_doc(),
                    k,
                );
            }
            reveal_strlit("{{METHOD}}");
            reveal_strlit("{{NAME}}");
            reveal_strlit("{{PATH}}");
            reveal_strlit("{{TYPE}}");
        }
        let meta = &self.meta;
        let heading = replace_str(
            replace_str(meta.heading_entry.as_str(), "{{METHOD}}", self.method().to_string().as_str()).as_str(),
            "{{NAME}}",
            self.name.as_str(),
        );
        let mut r = heading;
        r.append(meta.heading_routes.as_str());
        let ghost before_paths = r@;
        let n = self.patterns.len();
        let mut i: usize = 0;
        while i < n
            invariant
                n == self.patterns@.len(),
                i <= n,
                r@ == before_paths + path_lines(*meta, views(self.patterns@).take(i as int)),
                *meta == self.meta,
            decreases n - i,
        {
            proof {
                reveal_strlit("{{PATH}}");
            }
            let mut path = "/".to_string();
            path.append(meta.name.as_str());
            path.append("/");
            path.append(self.patterns[i].as_str());
            let line = replace_str(meta.route_path.as_str(), "{{PATH}}", path.as_str());
            r.append(line.as_str());
            proof {
                assert(views(self.patterns@).take(i + 1).drop_last() =~= views(self.patterns@).take(
                    i as int,
                ));
                assert(views(self.patterns@).take(i + 1).last() == self.patterns@[i as int]@);
            }
            i = i + 1;
        }
        assert(views(self.patterns@).take(n as int) =~= views(self.patterns@));
        r.append(meta.heading_parameters.as_str());
        r.append(meta.parameter_table_open.as_str());
        let ghost before_rows = r@;
        let m = self.params.len();
        let mut j: usize = 0;
        while j < m
            invariant
                m == self.params@.len(),
                j <= m,
                r@ == before_rows + param_rows(*meta, param_views(self.params@).take(j as int)),
                *meta == self.meta,
            decreases m - j,
        {
            proof {
                reveal_strlit("{{NAME}}");
                reveal_strlit("{{TYPE}}");
            }
            let p = &self.params[j];
            let row = replace_str(
                replace_str(meta.parameter_row.as_str(), "{{NAME}}", p.name.as_str()).as_str(),
                "{{TYPE}}",
                p.param_type.to_string().as_str(),
            );
            r.append(row.as_str());
            proof {
                assert(param_views(self.params@).take(j + 1).drop_last() =~= param_views(
                    self.params@,
                ).take(j as int));
                assert(param_views(self.params@).take(j + 1).last() == (
                    self.params@[j as int].name@,
                    self.params@[j as int].param_type,
                ));
            }
            j = j + 1;
        }
        assert(param_views(self.params@).take(m as int) =~= param_views(self.params@));
        if m == 0 {
            r.append(meta.parameter_none.as_str());
        }
        r.append(meta.parameter_table_close.as_str());
        r.append(meta.heading_description.as_str());
        r.append(self.doc.as_str());
        r
    }

    /// What answers a request to an HTTP or metrics route: its handler, or, where none is
    /// bound, its documentation (`None`). A socket route refuses the request.
    pub fn handle<E>(&self) -> (r: Result<Option<&H>, RouteError<E>>)
        ensures
            match r {
                Ok(h) => !(self.spec_method() is Socket) && match self.spec_handler() {
                    Some(x) => h == Some(&x),
                    None => h is None,
                },
                Err(e) => self.spec_method() is Socket && (e matches RouteError::IncorrectMethod { expected } && expected@ == self.spec_method()@),
            },
    {
        match &self.handler {
            RouteImplementation::Http { handler, .. } => Ok(handler.as_ref()),
            RouteImplementation::Metrics { handler } => Ok(handler.as_ref()),
            RouteImplementation::Socket { .. } => Err(RouteError::IncorrectMethod { expected: Method::Socket }),
        }
    }
}



impl<H> Route<H> {
    /// The handler that answers a socket connection to this route: a socket route must have
    /// one bound; any other route refuses the connection, naming its own method and the one
    /// the request came with.
    pub fn handle_socket<E>(&self, actual: Method) -> (r: Result<&H, SocketError<E>>)
        requires
            self.spec_method() is Socket ==> self.spec_handler() is Some,
        ensures
            match r {
                Ok(h) => self.spec_method() is Socket && self.spec_handler() == Some(*h),
                Err(e) => !(self.spec_method() is Socket) && (e matches SocketError::IncorrectMethod {
                    expected,
                    actual: a,
                } && expected@ == self.spec_method()@ && a == actual),
            },
    {
        match &self.handler {
            RouteImplementation::Socket { handler: Some(h) } => Ok(h),
            RouteImplementation::Socket { handler: None } => {
                assert(false);
                Err(SocketError::IncorrectMethod { expected: Method::Socket, actual })
            },
            _ => Err(SocketError::IncorrectMethod { expected: self.method(), actual }),
        }
    }
}

/// Whether a name is that of a `:name` segment among a list of segments.
pub open spec fn named_by_segment(segs: Seq<Seq<char>>, name: Seq<char>) -> bool {
    exists|k: int| 0 <= k < segs.len() && is_param_segment(#[trigger] segs[k]) && segs[k].skip(1) == name
}

/// The parameters of a route are the names of the `:name` segments of its paths: each such
/// name once, and nothing else.
pub proof fn law_params_from_segments(
    segs: Seq<Seq<char>>,
    spec: TomlValue,
    ps: Seq<(Seq<char>, RequestParamType)>,
)
    requires
        scan_params(segs, spec) == Ok::<Seq<(Seq<char>, RequestParamType)>, RouteFailure>(ps),
    ensures
        forall|i: int| 0 <= i < ps.len() ==> named_by_segment(segs, (#[trigger] ps[i]).0),
        forall|k: int|
            0 <= k < segs.len() && is_param_segment(#[trigger] segs[k]) ==> has_param(
                ps,
                segs[k].skip(1),
            ),
        forall|i: int, j: int| 0 <= i < j < ps.len() ==> (#[trigger] ps[i]).0 != (#[trigger] ps[j]).0,
    decreases segs.len(),
{
    if segs.len() > 0 {
        let prev = segs.drop_last();
        let seg = segs.last();
        match scan_params(prev, spec) {
            Ok(pp) => {
                law_params_from_segments(prev, spec, pp);
                assert forall|i: int| 0 <= i < ps.len() implies named_by_segment(segs, (#[trigger] ps[i]).0) by {
                    if i < pp.len() {
                        assert(ps[i] == pp[i]);
                        assert(named_by_segment(prev, pp[i].0));
                        let k = choose|k: int|
                            0 <= k < prev.len() && is_param_segment(#[trigger] prev[k])
                                && prev[k].skip(1) == pp[i].0;
                        assert(segs[k] == prev[k]);
                    } else {
                        assert(segs[segs.len() - 1] == seg);
                    }
                }
                assert forall|k: int|
                    0 <= k < segs.len() && is_param_segment(#[trigger] segs[k]) implies has_param(
                    ps,
                    segs[k].skip(1),
                ) by {
                    if k < prev.len() {
                        assert(segs[k] == prev[k]);
                        assert(has_param(pp, prev[k].skip(1)));
                        let j = choose|j: int| 0 <= j < pp.len() && #[trigger] pp[j].0 == prev[k].skip(1);
                        assert(ps[j] == pp[j]);
                    } else {
                        if !has_param(pp, seg.skip(1)) {
                            assert(ps[pp.len() as int].0 == seg.skip(1));
                        } else {
                            let j = choose|j: int| 0 <= j < pp.len() && #[trigger] pp[j].0 == seg.skip(1);
                            assert(ps[j] == pp[j]);
                        }
                    }
                }
                assert forall|i: int, j: int| 0 <= i < j < ps.len() implies (#[trigger] ps[i]).0 != (#[trigger] ps[j]).0 by {
                    if j < pp.len() {
                        assert(ps[i] == pp[i] && ps[j] == pp[j]);
                    } else {
                        assert(ps[i] == pp[i]);
                        if pp[i].0 == ps[j].0 {
                            assert(has_param(pp, ps[j].0));
                        }
                    }
                }
            },
            Err(_) => {},
        }
    }
}

} // verus!
