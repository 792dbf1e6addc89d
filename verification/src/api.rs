//! API specifications: their metadata, their routes, and the registration of handlers.

pub mod meta_defaults;

use vstd::prelude::*;
use vstd::string::*;
use crate::markdown::{
    markdown_block_texts, markdown_blocks, markdown_html, markdown_to_html, markdown_tokens_debug, unquoted_text,
    is_markdown_safe, markdown_safe, may_hold_ordered_list,
};
use crate::method::Method;
use crate::route::{
    param_views, route_documentation, route_error, route_method, route_paths, Route, RouteFailure,
    RouteParseError,
};
use crate::html::{escape_html, html_escape};
use crate::text::replace_all;
use crate::text::{
    contains_str, replace_str, join_strings, join_with, strip_prefix_seq, strip_prefix_str, strip_suffix_seq,
    strip_suffix_str, tail_strings, views,
};
use crate::value::{table_get, toml_document, parse_toml, TomlValue, find_entry_exec};
use crate::version::{semver_parse, Version};
use self::meta_defaults::{
    default_name, default_description, default_html_top, default_html_bottom, default_heading_entry, default_heading_routes, default_heading_parameters, default_heading_description, default_route_path, default_parameter_table_open, default_parameter_table_close, default_parameter_row, default_parameter_none,
};

verus! {

/// Metadata of an API: its name, description and format version, and the HTML fragments from
/// which its documentation is composed. Each field that a specification leaves out takes its
/// default.
#[derive(Clone, Debug)]
pub struct ApiMetadata {
    /// The name of this API.
    ///
    /// An app that registers the API under another name uses that name instead.
    pub name: String,
    /// A description of this API, in Markdown: its first block is a short description, the rest
    /// a long one.
    pub description: String,
    /// The version of the specification format.
    pub format_version: Version,
    /// HTML that opens the documentation of the API. Placeholders: `{{NAME}}`,
    /// `{{DESCRIPTION}}` (the description in the metadata), `{{SHORT_DESCRIPTION}}`,
    /// `{{LONG_DESCRIPTION}}`, `{{VERSION}}`, `{{FORMAT_VERSION}}` and `{{PUBLIC}}` (the URL of
    /// the API's public directory).
    pub html_top: String,
    /// HTML that closes the documentation of the API.
    pub html_bottom: String,
    /// The heading of the documentation of a route. Placeholders: `{{METHOD}}`, `{{NAME}}`.
    pub heading_entry: String,
    /// The heading of the paths of a route.
    pub heading_routes: String,
    /// The heading of the parameters of a route.
    pub heading_parameters: String,
    /// The heading of the description of a route.
    pub heading_description: String,
    /// HTML of one path of a route. Placeholder: `{{PATH}}`.
    pub route_path: String,
    /// HTML that opens the table of the parameters of a route.
    pub parameter_table_open: String,
    /// HTML that closes the table of the parameters of a route.
    pub parameter_table_close: String,
    /// HTML of one parameter of a route. Placeholders: `{{NAME}}`, `{{TYPE}}`.
    pub parameter_row: String,
    /// HTML shown in place of the table for a route that has no parameters.
    pub parameter_none: String,
}

/// Whether a key of the metadata table holds an acceptable value: absent, or a string (which,
/// for `FORMAT_VERSION`, parses as a semantic version).
pub open spec fn meta_key_ok(es: Seq<(String, TomlValue)>, key: Seq<char>) -> bool {
    match table_get(es, key) {
        None => true,
        Some(TomlValue::String(s)) => key != "FORMAT_VERSION"@ || semver_parse(s@) is Ok,
        Some(_) => false,
    }
}

/// The first key, in the order of the metadata's fields, whose value is not acceptable.
pub open spec fn meta_bad_key(es: Seq<(String, TomlValue)>) -> Option<Seq<char>> {
    if !meta_key_ok(es, "NAME"@) {
        Some("NAME"@)
    } else if !meta_key_ok(es, "DESCRIPTION"@) {
        Some("DESCRIPTION"@)
    } else if !meta_key_ok(es, "FORMAT_VERSION"@) {
        Some("FORMAT_VERSION"@)
    } else if !meta_key_ok(es, "HTML_TOP"@) {
        Some("HTML_TOP"@)
    } else if !meta_key_ok(es, "HTML_BOTTOM"@) {
        Some("HTML_BOTTOM"@)
    } else if !meta_key_ok(es, "HEADING_ENTRY"@) {
        Some("HEADING_ENTRY"@)
    } else if !meta_key_ok(es, "HEADING_ROUTES"@) {
        Some("HEADING_ROUTES"@)
    } else if !meta_key_ok(es, "HEADING_PARAMETERS"@) {
        Some("HEADING_PARAMETERS"@)
    } else if !meta_key_ok(es, "HEADING_DESCRIPTION"@) {
        Some("HEADING_DESCRIPTION"@)
    } else if !meta_key_ok(es, "ROUTE_PATH"@) {
        Some("ROUTE_PATH"@)
    } else if !meta_key_ok(es, "PARAMETER_TABLE_OPEN"@) {
        Some("PARAMETER_TABLE_OPEN"@)
    } else if !meta_key_ok(es, "PARAMETER_TABLE_CLOSE"@) {
        Some("PARAMETER_TABLE_CLOSE"@)
    } else if !meta_key_ok(es, "PARAMETER_ROW"@) {
        Some("PARAMETER_ROW"@)
    } else if !meta_key_ok(es, "PARAMETER_NONE"@) {
        Some("PARAMETER_NONE"@)
    } else {
        None
    }
}

/// Why a value cannot be read as API metadata, if it cannot.
pub open spec fn meta_error(v: TomlValue) -> Option<Seq<char>> {
    match v {
        TomlValue::Table(es) => match meta_bad_key(es@) {
            Some(k) => Some("invalid value for key "@ + k),
            None => None,
        },
        _ => Some("metadata must be a table"@),
    }
}

/// The string under a key of the metadata table, or the default where the key is absent.
pub open spec fn meta_field(es: Seq<(String, TomlValue)>, key: Seq<char>, default: Seq<char>) -> Seq<char> {
    match table_get(es, key) {
        Some(TomlValue::String(s)) => s@,
        _ => default,
    }
}

/// Whether a version is `0.1.0`, the default format version.
pub open spec fn is_default_format_version(v: Version) -> bool {
    v.major == 0 && v.minor == 1 && v.patch == 0 && v.pre@.len() == 0 && v.build@.len() == 0
}

/// Whether a version is the one given for `FORMAT_VERSION` in a metadata table, or the default
/// where the key is absent.
pub open spec fn meta_format_version(es: Seq<(String, TomlValue)>, v: Version) -> bool {
    match table_get(es, "FORMAT_VERSION"@) {
        Some(TomlValue::String(s)) => semver_parse(s@) == Ok::<
            (u64, u64, u64, Seq<char>, Seq<char>),
            Seq<char>,
        >((v.major, v.minor, v.patch, v.pre@, v.build@)),
        _ => is_default_format_version(v),
    }
}

/// Whether `m` is the metadata that a table gives.
pub open spec fn meta_from_table(m: ApiMetadata, es: Seq<(String, TomlValue)>) -> bool {
    &&& meta_format_version(es, m.format_version)
    &&& m.name@ == meta_field(es, "NAME"@, default_name())
    &&& m.description@ == meta_field(es, "DESCRIPTION"@, default_description())
    &&& m.html_top@ == meta_field(es, "HTML_TOP"@, default_html_top())
    &&& m.html_bottom@ == meta_field(es, "HTML_BOTTOM"@, default_html_bottom())
    &&& m.heading_entry@ == meta_field(es, "HEADING_ENTRY"@, default_heading_entry())
    &&& m.heading_routes@ == meta_field(es, "HEADING_ROUTES"@, default_heading_routes())
    &&& m.heading_parameters@ == meta_field(es, "HEADING_PARAMETERS"@, default_heading_parameters())
    &&& m.heading_description@ == meta_field(es, "HEADING_DESCRIPTION"@, default_heading_description())
    &&& m.route_path@ == meta_field(es, "ROUTE_PATH"@, default_route_path())
    &&& m.parameter_table_open@ == meta_field(es, "PARAMETER_TABLE_OPEN"@, default_parameter_table_open())
    &&& m.parameter_table_close@ == meta_field(es, "PARAMETER_TABLE_CLOSE"@, default_parameter_table_close())
    &&& m.parameter_row@ == meta_field(es, "PARAMETER_ROW"@, default_parameter_row())
    &&& m.parameter_none@ == meta_field(es, "PARAMETER_NONE"@, default_parameter_none())
}

/// Whether `m` has the default in every field.
pub open spec fn is_default_meta(m: ApiMetadata) -> bool {
    &&& is_default_format_version(m.format_version)
    &&& m.name@ == default_name()
    &&& m.description@ == default_description()
    &&& m.html_top@ == default_html_top()
    &&& m.html_bottom@ == default_html_bottom()
    &&& m.heading_entry@ == default_heading_entry()
    &&& m.heading_routes@ == default_heading_routes()
    &&& m.heading_parameters@ == default_heading_parameters()
    &&& m.heading_description@ == default_heading_description()
    &&& m.route_path@ == default_route_path()
    &&& m.parameter_table_open@ == default_parameter_table_open()
    &&& m.parameter_table_close@ == default_parameter_table_close()
    &&& m.parameter_row@ == default_parameter_row()
    &&& m.parameter_none@ == default_parameter_none()
}

/// Whether two metadata values agree in every field.
pub open spec fn same_meta(a: ApiMetadata, b: ApiMetadata) -> bool {
    &&& a.format_version.major == b.format_version.major
    &&& a.format_version.minor == b.format_version.minor
    &&& a.format_version.patch == b.format_version.patch
    &&& a.format_version.pre@ == b.format_version.pre@
    &&& a.format_version.build@ == b.format_version.build@
    &&& a.name@ == b.name@
    &&& a.description@ == b.description@
    &&& a.html_top@ == b.html_top@
    &&& a.html_bottom@ == b.html_bottom@
    &&& a.heading_entry@ == b.heading_entry@
    &&& a.heading_routes@ == b.heading_routes@
    &&& a.heading_parameters@ == b.heading_parameters@
    &&& a.heading_description@ == b.heading_description@
    &&& a.route_path@ == b.route_path@
    &&& a.parameter_table_open@ == b.parameter_table_open@
    &&& a.parameter_table_close@ == b.parameter_table_close@
    &&& a.parameter_row@ == b.parameter_row@
    &&& a.parameter_none@ == b.parameter_none@
}

/// The string under a key of a metadata table: the default where the key is absent, nothing
/// where its value is not a string.
fn meta_string(es: &Vec<(String, TomlValue)>, key: &str, default: String) -> (r: Option<String>)
    ensures
        match table_get(es@, key@) {
            None => r matches Some(s) && s@ == default@,
            Some(TomlValue::String(t)) => r matches Some(s) && s@ == t@,
            Some(_) => r is None,
        },
{
    match find_entry_exec(es, key) {
        None => Some(default),
        Some(i) => match &es[i].1 {
            TomlValue::String(s) => Some(s.clone()),
            _ => None,
        },
    }
}

/// The format version of a metadata table: the default where the key is absent, nothing where
/// its value is not a string that parses as a version.
fn meta_version(es: &Vec<(String, TomlValue)>) -> (r: Option<Version>)
    ensures
        match r {
            Some(v) => meta_key_ok(es@, "FORMAT_VERSION"@) && meta_format_version(es@, v),
            None => !meta_key_ok(es@, "FORMAT_VERSION"@),
        },
{
    match find_entry_exec(es, "FORMAT_VERSION") {
        None => Some(Version::new(0, 1, 0)),
        Some(i) => match &es[i].1 {
            TomlValue::String(s) => match Version::parse(s.as_str()) {
                Ok(v) => Some(v),
                Err(_) => None,
            },
            _ => None,
        },
    }
}

/// The error for a key whose value is not acceptable.
fn bad_key(key: &str) -> (r: String)
    ensures
        r@ == "invalid value for key "@ + key@,
{
    let mut r = "invalid value for key ".to_string();
    r.append(key);
    r
}

impl ApiMetadata {
    /// Read metadata from the `meta` table of a specification. Keys other than the fields'
    /// are ignored.
    pub fn from_toml(v: &TomlValue) -> (r: Result<ApiMetadata, String>)
        ensures
            match r {
                Ok(m) => meta_error(*v) is None && (v matches TomlValue::Table(es) && meta_from_table(m, es@)),
                Err(e) => meta_error(*v) == Some(e@),
            },
    {
        proof {
            reveal_strlit("NAME");
            reveal_strlit("DESCRIPTION");
            reveal_strlit("FORMAT_VERSION");
            reveal_strlit("HTML_TOP");
            reveal_strlit("HTML_BOTTOM");
            reveal_strlit("HEADING_ENTRY");
            reveal_strlit("HEADING_ROUTES");
            reveal_strlit("HEADING_PARAMETERS");
            reveal_strlit("HEADING_DESCRIPTION");
            reveal_strlit("ROUTE_PATH");
            reveal_strlit("PARAMETER_TABLE_OPEN");
            reveal_strlit("PARAMETER_TABLE_CLOSE");
            reveal_strlit("PARAMETER_ROW");
            reveal_strlit("PARAMETER_NONE");
        }
        let es = match v.as_table() {
            Some(es) => es,
            None => return Err("metadata must be a table".to_string()),
        };
        let name = match meta_string(es, "NAME", meta_defaults::name()) {
            Some(s) => s,
            None => return Err(bad_key("NAME")),
        };
        let description = match meta_string(es, "DESCRIPTION", meta_defaults::description()) {
            Some(s) => s,
            None => return Err(bad_key("DESCRIPTION")),
        };
        let format_version = match meta_version(es) {
            Some(v) => v,
            None => return Err(bad_key("FORMAT_VERSION")),
        };
        let html_top = match meta_string(es, "HTML_TOP", meta_defaults::html_top()) {
            Some(s) => s,
            None => return Err(bad_key("HTML_TOP")),
        };
        let html_bottom = match meta_string(es, "HTML_BOTTOM", meta_defaults::html_bottom()) {
            Some(s) => s,
            None => return Err(bad_key("HTML_BOTTOM")),
        };
        let heading_entry = match meta_string(es, "HEADING_ENTRY", meta_defaults::heading_entry()) {
            Some(s) => s,
            None => return Err(bad_key("HEADING_ENTRY")),
        };
        let heading_routes = match meta_string(es, "HEADING_ROUTES", meta_defaults::heading_routes()) {
            Some(s) => s,
            None => return Err(bad_key("HEADING_ROUTES")),
        };
        let heading_parameters = match meta_string(es, "HEADING_PARAMETERS", meta_defaults::heading_parameters()) {
            Some(s) => s,
            None => return Err(bad_key("HEADING_PARAMETERS")),
        };
        let heading_description = match meta_string(es, "HEADING_DESCRIPTION", meta_defaults::heading_description()) {
            Some(s) => s,
            None => return Err(bad_key("HEADING_DESCRIPTION")),
        };
        let route_path = match meta_string(es, "ROUTE_PATH", meta_defaults::route_path()) {
            Some(s) => s,
            None => return Err(bad_key("ROUTE_PATH")),
        };
        let parameter_table_open = match meta_string(es, "PARAMETER_TABLE_OPEN", meta_defaults::parameter_table_open()) {
            Some(s) => s,
            None => return Err(bad_key("PARAMETER_TABLE_OPEN")),
        };
        let parameter_table_close = match meta_string(es, "PARAMETER_TABLE_CLOSE", meta_defaults::parameter_table_close()) {
            Some(s) => s,
            None => return Err(bad_key("PARAMETER_TABLE_CLOSE")),
        };
        let parameter_row = match meta_string(es, "PARAMETER_ROW", meta_defaults::parameter_row()) {
            Some(s) => s,
            None => return Err(bad_key("PARAMETER_ROW")),
        };
        let parameter_none = match meta_string(es, "PARAMETER_NONE", meta_defaults::parameter_none()) {
            Some(s) => s,
            None => return Err(bad_key("PARAMETER_NONE")),
        };
        let m = ApiMetadata {
            name,
            description,
            format_version,
            html_top,
            html_bottom,
            heading_entry,
            heading_routes,
            heading_parameters,
            heading_description,
            route_path,
            parameter_table_open,
            parameter_table_close,
            parameter_row,
            parameter_none,
        };
        Ok(m)
    }

    /// A copy of this metadata.
    pub fn duplicate(&self) -> (r: ApiMetadata)
        ensures
            same_meta(r, *self),
    {
        ApiMetadata {
            name: self.name.clone(),
            description: self.description.clone(),
            format_version: self.format_version.duplicate(),
            html_top: self.html_top.clone(),
            html_bottom: self.html_bottom.clone(),
            heading_entry: self.heading_entry.clone(),
            heading_routes: self.heading_routes.clone(),
            heading_parameters: self.heading_parameters.clone(),
            heading_description: self.heading_description.clone(),
            route_path: self.route_path.clone(),
            parameter_table_open: self.parameter_table_open.clone(),
            parameter_table_close: self.parameter_table_close.clone(),
            parameter_row: self.parameter_row.clone(),
            parameter_none: self.parameter_none.clone(),
        }
    }
}

impl Default for ApiMetadata {
    /// The metadata with every field at its default.
    fn default() -> (r: ApiMetadata)
        ensures
            is_default_meta(r),
    {
        ApiMetadata {
            name: meta_defaults::name(),
            description: meta_defaults::description(),
            format_version: Version::new(0, 1, 0),
            html_top: meta_defaults::html_top(),
            html_bottom: meta_defaults::html_bottom(),
            heading_entry: meta_defaults::heading_entry(),
            heading_routes: meta_defaults::heading_routes(),
            heading_parameters: meta_defaults::heading_parameters(),
            heading_description: meta_defaults::heading_description(),
            route_path: meta_defaults::route_path(),
            parameter_table_open: meta_defaults::parameter_table_open(),
            parameter_table_close: meta_defaults::parameter_table_close(),
            parameter_row: meta_defaults::parameter_row(),
            parameter_none: meta_defaults::parameter_none(),
        }
    }
}


/// An error in an API specification, or in the registration of a handler.
#[derive(Clone, Debug, PartialEq, Eq)]
pub enum ApiError {
    Route { source: RouteParseError },
    ApiMustBeTable,
    MissingRoutesTable,
    RoutesMustBeTable,
    UndefinedRoute,
    HandlerAlreadyRegistered,
    IncorrectMethod { expected: Method, actual: Method },
    InvalidMetaTable { reason: String },
    MissingFormatVersion,
    InvalidFormatVersion,
    AmbiguousRoutes { route1: String, route2: String },
    CannotReadToml { reason: String },
}

/// Why an API specification cannot be read: an error that is reported as such, or a
/// specification so malformed that it is refused outright (a route that is malformed, or a
/// description in which the Markdown tokenizer may find an ordered list, which the Markdown
/// generator cannot write back).
#[derive(Clone, Debug, PartialEq, Eq)]
pub enum ApiFailure {
    Error(ApiError),
    Malformed,
}

/// Why an API specification cannot be read, in the terms of the specification.
pub enum ApiSpecError {
    ApiMustBeTable,
    InvalidMetaTable(Seq<char>),
    MissingRoutesTable,
    RoutesMustBeTable,
    Route(RouteParseError),
    Ambiguous,
    Malformed,
}

/// The first route of a routes table, in order, that cannot be read, and why.
pub open spec fn first_route_error(rs: Seq<(String, TomlValue)>) -> Option<RouteFailure>
    decreases rs.len(),
{
    if rs.len() == 0 {
        None
    } else {
        match first_route_error(rs.drop_last()) {
            Some(e) => Some(e),
            None => route_error(rs.last().1),
        }
    }
}

/// The occurrences of path patterns in the routes of a routes table, in order: each pattern
/// with the name of the method of its route and the index of the route.
pub open spec fn entry_occurrences(rs: Seq<(String, TomlValue)>) -> Seq<(Seq<char>, Seq<char>, int)>
    decreases rs.len(),
{
    if rs.len() == 0 {
        seq![]
    } else {
        let i = rs.len() - 1;
        let last = match (route_paths(rs.last().1), route_method(rs.last().1)) {
            (Ok(ps), Ok(m)) => ps.map_values(|p: Seq<char>| (p, m, i)),
            _ => seq![],
        };
        entry_occurrences(rs.drop_last()) + last
    }
}

/// Whether two occurrences of a pattern have the same method, so that a request to that path
/// with that method would not know which route to take.
pub open spec fn occurrences_conflict(occ: Seq<(Seq<char>, Seq<char>, int)>, x: int, y: int) -> bool {
    0 <= x < y < occ.len() && occ[x].0 == occ[y].0 && occ[x].1 == occ[y].1
}

/// Whether some path pattern occurs twice with the same method.
pub open spec fn occurrences_ambiguous(occ: Seq<(Seq<char>, Seq<char>, int)>) -> bool {
    exists|x: int, y: int| #[trigger] occurrences_conflict(occ, x, y)
}

/// The metadata table of a specification, if it has one.
pub open spec fn meta_of(es: Seq<(String, TomlValue)>) -> Option<TomlValue> {
    table_get(es, "meta"@)
}

/// The description of an API, as its specification gives it (or the default).
pub open spec fn description_of(es: Seq<(String, TomlValue)>) -> Seq<char> {
    match meta_of(es) {
        Some(TomlValue::Table(mes)) => match table_get(mes@, "DESCRIPTION"@) {
            Some(TomlValue::String(d)) => d@,
            _ => default_description(),
        },
        _ => default_description(),
    }
}

/// Why an API specification cannot be read, if it cannot: the metadata is read first, then
/// the routes, each in the order of the table; then the routes are checked for ambiguity and
/// the description is split into its blocks.
pub open spec fn api_error(spec: TomlValue) -> Option<ApiSpecError> {
    match spec {
        TomlValue::Table(es) => {
            let meta_err = match meta_of(es@) {
                Some(m) => meta_error(m),
                None => None,
            };
            if meta_err is Some {
                Some(ApiSpecError::InvalidMetaTable(meta_err.unwrap()))
            } else {
                match table_get(es@, "route"@) {
                    None => Some(ApiSpecError::MissingRoutesTable),
                    Some(TomlValue::Table(rs)) => match first_route_error(rs@) {
                        Some(RouteFailure::Invalid(e)) => Some(ApiSpecError::Route(e)),
                        Some(RouteFailure::Malformed) => Some(ApiSpecError::Malformed),
                        None => if occurrences_ambiguous(entry_occurrences(rs@)) {
                            Some(ApiSpecError::Ambiguous)
                        } else if !describable(description_of(es@)) {
                            Some(ApiSpecError::Malformed)
                        } else {
                            None
                        },
                    },
                    Some(_) => Some(ApiSpecError::RoutesMustBeTable),
                }
            }
        },
        _ => Some(ApiSpecError::ApiMustBeTable),
    }
}

/// Whether a failure is the one that `api_error` gives; for ambiguous routes, the error names
/// the later and the earlier of two routes that share a pattern and a method.
pub open spec fn failure_matches(f: ApiFailure, e: ApiSpecError, spec: TomlValue) -> bool {
    match e {
        ApiSpecError::ApiMustBeTable => f == ApiFailure::Error(ApiError::ApiMustBeTable),
        ApiSpecError::InvalidMetaTable(reason) => f matches ApiFailure::Error(
            ApiError::InvalidMetaTable { reason: r },
        ) && r@ == reason,
        ApiSpecError::MissingRoutesTable => f == ApiFailure::Error(ApiError::MissingRoutesTable),
        ApiSpecError::RoutesMustBeTable => f == ApiFailure::Error(ApiError::RoutesMustBeTable),
        ApiSpecError::Route(source) => f == ApiFailure::Error(ApiError::Route { source }),
        ApiSpecError::Malformed => f == ApiFailure::Malformed,
        ApiSpecError::Ambiguous => f matches ApiFailure::Error(
            ApiError::AmbiguousRoutes { route1, route2 },
        ) && exists|x: int, y: int|
            #[trigger] occurrences_conflict(entry_occurrences(routes_table(spec)), x, y)
                && route1@ == routes_table(spec)[entry_occurrences(routes_table(spec))[y].2].0@
                && route2@ == routes_table(spec)[entry_occurrences(routes_table(spec))[x].2].0@,
    }
}

/// The entries of the routes table of a specification.
pub open spec fn routes_table(spec: TomlValue) -> Seq<(String, TomlValue)> {
    match spec {
        TomlValue::Table(es) => match table_get(es@, "route"@) {
            Some(TomlValue::Table(rs)) => rs@,
            _ => seq![],
        },
        _ => seq![],
    }
}

/// The short and the long description of an API: the first Markdown block of its description,
/// rendered to HTML without the paragraph that wraps it, and the other blocks, rendered.
pub open spec fn description_parts(d: Seq<char>) -> (Seq<char>, Seq<char>) {
    let bs = markdown_block_texts(d);
    if bs.len() == 0 {
        (seq![], seq![])
    } else {
        (
            strip_suffix_seq(strip_prefix_seq(markdown_html(bs[0]), "<p>"@), "</p>"@),
            markdown_html(join_with(bs.skip(1), "\n\n"@)),
        )
    }
}

/// Version information of an API: the version of the API, if it has one, and the format version
/// of its specification.
#[derive(Clone, Debug, PartialEq, Eq)]
pub struct ApiVersion {
    pub api_version: Option<Version>,
    pub spec_version: Version,
}

/// An API: its metadata, its routes in the order of its specification, and what has been
/// registered with it. `H` is the type of the handlers bound to its routes.
#[derive(Debug)]
pub struct Api<H> {
    meta: ApiMetadata,
    name: String,
    routes: Vec<Route<H>>,
    health_check: Option<H>,
    api_version: Option<Version>,
    public: Option<String>,
    short_description: String,
    long_description: String,
}


/// The occurrences of path patterns in a list of routes, as `entry_occurrences` lists them.
pub open spec fn route_occurrences<H>(routes: Seq<Route<H>>) -> Seq<(Seq<char>, Seq<char>, int)>
    decreases routes.len(),
{
    if routes.len() == 0 {
        seq![]
    } else {
        let i = routes.len() - 1;
        let m = routes.last().spec_method()@;
        route_occurrences(routes.drop_last()) + routes.last().spec_patterns().map_values(
            |p: Seq<char>| (p, m, i),
        )
    }
}

/// The routes read from a routes table list the same occurrences as the table.
proof fn lemma_occurrences<H>(routes: Seq<Route<H>>, rs: Seq<(String, TomlValue)>)
    requires
        routes.len() == rs.len(),
        forall|i: int| 0 <= i < rs.len() ==> (#[trigger] routes[i]).from_spec(rs[i].0@, rs[i].1),
    ensures
        route_occurrences(routes) == entry_occurrences(rs),
    decreases rs.len(),
{
    if rs.len() > 0 {
        assert forall|i: int| 0 <= i < rs.drop_last().len() implies (
        #[trigger] routes.drop_last()[i]).from_spec(rs.drop_last()[i].0@, rs.drop_last()[i].1) by {
            assert(routes.drop_last()[i] == routes[i]);
            assert(rs.drop_last()[i] == rs[i]);
        }
        lemma_occurrences(routes.drop_last(), rs.drop_last());
        assert(routes.last().from_spec(rs.last().0@, rs.last().1));
    }
}

/// `first_route_error` finds an error in a table as soon as it finds one in a prefix.
proof fn lemma_first_route_error_prefix(rs: Seq<(String, TomlValue)>, k: int)
    requires
        0 <= k <= rs.len(),
        first_route_error(rs.take(k)) is Some,
    ensures
        first_route_error(rs) == first_route_error(rs.take(k)),
    decreases rs.len() - k,
{
    if k == rs.len() {
        assert(rs.take(k) =~= rs);
    } else {
        assert(rs.take(k + 1).drop_last() =~= rs.take(k));
        lemma_first_route_error_prefix(rs, k + 1);
    }
}

/// The views of a list of occurrences.
pub open spec fn occurrence_views(v: Seq<(String, String, usize)>) -> Seq<(Seq<char>, Seq<char>, int)> {
    v.map_values(|t: (String, String, usize)| (t.0@, t.1@, t.2 as int))
}

/// The occurrences of path patterns in a list of routes.
fn occurrences_of<H>(routes: &Vec<Route<H>>) -> (r: Vec<(String, String, usize)>)
    ensures
        occurrence_views(r@) == route_occurrences(routes@),
        forall|x: int| 0 <= x < r@.len() ==> (#[trigger] r@[x]).2 < routes@.len(),
{
    let mut occ: Vec<(String, String, usize)> = Vec::new();
    let n = routes.len();
    let mut i: usize = 0;
    while i < n
        invariant
            n == routes@.len(),
            i <= n,
            occurrence_views(occ@) == route_occurrences(routes@.take(i as int)),
            forall|x: int| 0 <= x < occ@.len() ==> (#[trigger] occ@[x]).2 < n,
        decreases n - i,
    {
        let route = &routes[i];
        let m = route.method().to_string();
        let patterns = route.patterns();
        let ghost before = occ@;
        let ghost mv = route.spec_method()@;
        let k = patterns.len();
        let mut j: usize = 0;
        while j < k
            invariant
                k == patterns@.len(),
                j <= k,
                i < n,
                n == routes@.len(),
                m@ == mv,
                views(patterns@) == route.spec_patterns(),
                occurrence_views(occ@) == occurrence_views(before) + route.spec_patterns().take(
                    j as int,
                ).map_values(|p: Seq<char>| (p, mv, i as int)),
                forall|x: int| 0 <= x < occ@.len() ==> (#[trigger] occ@[x]).2 < n,
            decreases k - j,
        {
            let ghost old_occ = occ@;
            let entry = (patterns[j].clone(), m.clone(), i);
            occ.push(entry);
            proof {
                assert(occurrence_views(occ@) =~= occurrence_views(old_occ).push(
                    (entry.0@, entry.1@, i as int),
                ));
                assert(route.spec_patterns()[j as int] == patterns@[j as int]@);
                assert(route.spec_patterns().take(j + 1).map_values(
                    |p: Seq<char>| (p, mv, i as int),
                ) =~= route.spec_patterns().take(j as int).map_values(
                    |p: Seq<char>| (p, mv, i as int),
                ).push((patterns@[j as int]@, mv, i as int)));
            }
            j = j + 1;
        }
        proof {
            assert(route.spec_patterns().take(k as int) =~= route.spec_patterns());
            assert(routes@.take(i + 1).drop_last() =~= routes@.take(i as int));
            assert(routes@.take(i + 1).last() == routes@[i as int]);
        }
        i = i + 1;
    }
    assert(routes@.take(n as int) =~= routes@);
    occ
}

/// Find two occurrences of a pattern with the same method: the first such later occurrence,
/// with the first earlier one that it conflicts with.
fn find_conflict(occ: &Vec<(String, String, usize)>) -> (r: Option<(usize, usize)>)
    ensures
        match r {
            Some((x, y)) => occurrences_conflict(occurrence_views(occ@), x as int, y as int),
            None => !occurrences_ambiguous(occurrence_views(occ@)),
        },
{
    let ghost ov = occurrence_views(occ@);
    let n = occ.len();
    let mut y: usize = 0;
    while y < n
        invariant
            n == occ@.len(),
            y <= n,
            ov == occurrence_views(occ@),
            forall|a: int, b: int| 0 <= a < b < y ==> !#[trigger] occurrences_conflict(ov, a, b),
        decreases n - y,
    {
        let mut x: usize = 0;
        while x < y
            invariant
                n == occ@.len(),
                x <= y < n,
                ov == occurrence_views(occ@),
                forall|a: int| 0 <= a < x ==> !#[trigger] occurrences_conflict(ov, a, y as int),
            decreases y - x,
        {
            if occ[x].0 == occ[y].0 && occ[x].1 == occ[y].1 {
                return Some((x, y));
            }
            x = x + 1;
        }
        y = y + 1;
    }
    assert forall|a: int, b: int| #[trigger] occurrences_conflict(ov, a, b) implies false by {
        assert(a < b < n);
    }
    None
}

/// Whether the Markdown library can split a description into blocks and render them: it reads
/// the description, no block is an ordered list (which its generator cannot write back), and it
/// reads the first block and the rest of them again.
pub open spec fn describable(d: Seq<char>) -> bool {
    &&& markdown_safe(d)
    &&& !may_hold_ordered_list(d)
    &&& markdown_block_texts(d).len() > 0 ==> markdown_safe(markdown_block_texts(d)[0])
        && markdown_safe(join_with(markdown_block_texts(d).skip(1), "\n\n"@))
}

/// The short and the long description of an API, if the Markdown library can make them.
fn describe(d: &str) -> (r: Option<(String, String)>)
    ensures
        match r {
            Some((short, long)) => describable(d@) && (short@, long@) == description_parts(d@),
            None => !describable(d@),
        },
{
    if !is_markdown_safe(d) {
        return None;
    }
    let tokens = unquoted_text(markdown_tokens_debug(d).as_str());
    proof {
        reveal_strlit("OrderedList(");
    }
    if contains_str(tokens.as_str(), "OrderedList(") {
        return None;
    }
    let blocks = markdown_blocks(d);
    if blocks.len() == 0 {
        Some((String::new(), String::new()))
    } else {
        proof {
            assert(views(blocks@)[0] == blocks@[0]@);
        }
        let rest = tail_strings(blocks.as_slice(), 1);
        let rest_text = join_strings(rest.as_slice(), "\n\n");
        if !is_markdown_safe(blocks[0].as_str()) || !is_markdown_safe(rest_text.as_str()) {
            return None;
        }
        let short = markdown_to_html(blocks[0].as_str());
        let short = strip_prefix_str(short.as_str(), "<p>");
        let short = strip_suffix_str(short.as_str(), "</p>");
        let long = markdown_to_html(rest_text.as_str());
        Some((short, long))
    }
}

impl<H> Api<H> {
    /// The metadata of the API.
    pub closed spec fn spec_meta(&self) -> ApiMetadata {
        self.meta
    }

    /// The name of the API: the name in its metadata, or the name under which it is
    /// registered.
    pub closed spec fn spec_name(&self) -> Seq<char> {
        self.name@
    }

    /// The routes of the API, in the order of its specification.
    pub closed spec fn spec_routes(&self) -> Seq<Route<H>> {
        self.routes@
    }

    /// The health check handler of the API, if one is registered.
    pub closed spec fn spec_health_check(&self) -> Option<H> {
        self.health_check
    }

    /// The version of the API, if it is set.
    pub closed spec fn spec_api_version(&self) -> Option<Version> {
        self.api_version
    }

    /// The directory served as the public files of the API, if it is set.
    pub closed spec fn spec_public(&self) -> Option<Seq<char>> {
        match self.public {
            Some(p) => Some(p@),
            None => None,
        }
    }

    /// The short description of the API, as HTML.
    pub closed spec fn spec_short_description(&self) -> Seq<char> {
        self.short_description@
    }

    /// The long description of the API, as HTML.
    pub closed spec fn spec_long_description(&self) -> Seq<char> {
        self.long_description@
    }

    /// Whether an API is the one that a specification describes, before anything is
    /// registered with it.
    pub open spec fn from_spec(&self, spec: TomlValue) -> bool {
        &&& spec matches TomlValue::Table(es) && match meta_of(es@) {
            Some(TomlValue::Table(mes)) => meta_from_table(self.spec_meta(), mes@),
            _ => is_default_meta(self.spec_meta()),
        }
        &&& description_parts(self.spec_meta().description@) == (
            self.spec_short_description(),
            self.spec_long_description(),
        )
        &&& self.spec_name() == self.spec_meta().name@
        &&& self.spec_routes().len() == routes_table(spec).len()
        &&& forall|i: int|
            0 <= i < self.spec_routes().len() ==> {
                &&& (#[trigger] self.spec_routes()[i]).from_spec(
                    routes_table(spec)[i].0@,
                    routes_table(spec)[i].1,
                )
                &&& self.spec_routes()[i].spec_handler() is None
                &&& same_meta(self.spec_routes()[i].spec_meta(), self.spec_meta())
            }
        &&& self.spec_health_check() is None
        &&& self.spec_api_version() is None
        &&& self.spec_public() is None
    }

    /// Read an API from the text of its TOML specification: a text that is no TOML document
    /// gives `CannotReadToml` with the TOML library's message; a document is read as `parse`
    /// reads it.
    pub fn from_text(text: &str) -> (r: Result<Api<H>, ApiFailure>)
        ensures
            match toml_document(text@) {
                Err(m) => r matches Err(ApiFailure::Error(ApiError::CannotReadToml { reason }))
                    && reason@ == m,
                Ok(v) => match r {
                    Ok(api) => api_error(v) is None && api.from_spec(v),
                    Err(f) => api_error(v) matches Some(e) && failure_matches(f, e, v),
                },
            },
    {
        match parse_toml(text) {
            Ok(v) => Self::parse(&v),
            Err(reason) => Err(ApiFailure::Error(ApiError::CannotReadToml { reason })),
        }
    }

    /// Read an API from its specification: a table with an optional `meta` table of metadata
    /// and a `route` table of route specifications.
    #[verifier::loop_isolation(false)]
    pub fn parse(spec: &TomlValue) -> (r: Result<Api<H>, ApiFailure>)
        ensures
            match r {
                Ok(api) => api_error(*spec) is None && api.from_spec(*spec),
                Err(f) => api_error(*spec) matches Some(e) && failure_matches(f, e, *spec),
            },
    {
        let es = match spec.as_table() {
            Some(es) => es,
            None => return Err(ApiFailure::Error(ApiError::ApiMustBeTable)),
        };
        let meta = match find_entry_exec(es, "meta") {
            Some(i) => match ApiMetadata::from_toml(&es[i].1) {
                Ok(m) => m,
                Err(reason) => return Err(ApiFailure::Error(ApiError::InvalidMetaTable { reason })),
            },
            None => ApiMetadata::default(),
        };
        let rs = match find_entry_exec(es, "route") {
            None => return Err(ApiFailure::Error(ApiError::MissingRoutesTable)),
            Some(i) => match es[i].1.as_table() {
                Some(rs) => rs,
                None => return Err(ApiFailure::Error(ApiError::RoutesMustBeTable)),
            },
        };
        assert(rs@ == routes_table(*spec));
        let mut routes: Vec<Route<H>> = Vec::new();
        let n = rs.len();
        let mut j: usize = 0;
        while j < n
            invariant
                n == rs@.len(),
                j <= n,
                routes@.len() == j,
                first_route_error(rs@.take(j as int)) is None,
                forall|i: int|
                    0 <= i < j ==> {
                        &&& (#[trigger] routes@[i]).from_spec(rs@[i].0@, rs@[i].1)
                        &&& routes@[i].spec_handler() is None
                        &&& same_meta(routes@[i].spec_meta(), meta)
                    },
            decreases n - j,
        {
            proof {
                assert(rs@.take(j + 1).drop_last() =~= rs@.take(j as int));
                assert(rs@.take(j + 1).last() == rs@[j as int]);
            }
            let m = meta.duplicate();
            match Route::<H>::parse(rs[j].0.clone(), &rs[j].1, m) {
                Ok(route) => {
                    routes.push(route);
                },
                Err(RouteFailure::Invalid(e)) => {
                    proof {
                        lemma_first_route_error_prefix(rs@, j + 1);
                    }
                    return Err(ApiFailure::Error(ApiError::Route { source: e }));
                },
                Err(RouteFailure::Malformed) => {
                    proof {
                        lemma_first_route_error_prefix(rs@, j + 1);
                    }
                    return Err(ApiFailure::Malformed);
                },
            }
            j = j + 1;
        }
        assert(rs@.take(n as int) =~= rs@);
        let occ = occurrences_of(&routes);
        proof {
            lemma_occurrences(routes@, rs@);
        }
        match find_conflict(&occ) {
            Some((x, y)) => {
                let route1 = routes[occ[y].2].name();
                let route2 = routes[occ[x].2].name();
                return Err(ApiFailure::Error(ApiError::AmbiguousRoutes { route1, route2 }));
            },
            None => {},
        }
        let (short_description, long_description) = match describe(meta.description.as_str()) {
            Some(parts) => parts,
            None => return Err(ApiFailure::Malformed),
        };
        let name = meta.name.clone();
        Ok(Api {
            meta,
            name,
            routes,
            health_check: None,
            api_version: None,
            public: None,
            short_description,
            long_description,
        })
    }
}


/// Whether `i` is the index of the first route with the given name.
pub open spec fn is_first_route<H>(routes: Seq<Route<H>>, name: Seq<char>, i: int) -> bool {
    &&& 0 <= i < routes.len()
    &&& routes[i].spec_name() == name
    &&& forall|j: int| 0 <= j < i ==> (#[trigger] routes[j]).spec_name() != name
}

/// The index of the first route with the given name, or `-1` if there is none.
pub open spec fn route_index<H>(routes: Seq<Route<H>>, name: Seq<char>) -> int {
    if exists|i: int| is_first_route(routes, name, i) {
        choose|i: int| is_first_route(routes, name, i)
    } else {
        -1
    }
}

/// Whether `new` is `old` with the handler `h` bound to its route `i`, and nothing else changed.
pub open spec fn handler_bound<H>(new: Api<H>, old: Api<H>, i: int, h: H) -> bool {
    &&& new.spec_routes().len() == old.spec_routes().len()
    &&& forall|j: int|
        0 <= j < old.spec_routes().len() && j != i ==> #[trigger] new.spec_routes()[j]
            == old.spec_routes()[j]
    &&& new.spec_routes()[i].same_but_handler(&old.spec_routes()[i])
    &&& new.spec_routes()[i].spec_handler() == Some(h)
    &&& new.spec_meta() == old.spec_meta()
    &&& new.spec_name() == old.spec_name()
    &&& new.spec_health_check() == old.spec_health_check()
    &&& new.spec_api_version() == old.spec_api_version()
    &&& new.spec_public() == old.spec_public()
    &&& new.spec_short_description() == old.spec_short_description()
    &&& new.spec_long_description() == old.spec_long_description()
}

/// What binding a handler to a route of any HTTP method does: the route must exist, have no
/// handler yet, and be an HTTP route (an error then names `GET` as the method expected).
pub open spec fn http_registration<H>(
    old: Api<H>,
    new: Api<H>,
    name: Seq<char>,
    h: H,
    r: Result<(), ApiError>,
) -> bool {
    let i = route_index(old.spec_routes(), name);
    if i < 0 {
        r == Err::<(), ApiError>(ApiError::UndefinedRoute) && new == old
    } else if old.spec_routes()[i].spec_handler() is Some {
        r == Err::<(), ApiError>(ApiError::HandlerAlreadyRegistered) && new == old
    } else if !(old.spec_routes()[i].spec_method() is Http) {
        &&& r matches Err(ApiError::IncorrectMethod { expected, actual })
        &&& expected@ == "GET"@ && expected is Http
        &&& actual@ == old.spec_routes()[i].spec_method()@
        &&& new == old
    } else {
        r is Ok && handler_bound(new, old, i, h)
    }
}

/// What binding a handler to a route of a given method does: the route must exist, have that
/// method, and have no handler yet.
pub open spec fn method_registration<H>(
    old: Api<H>,
    new: Api<H>,
    name: Seq<char>,
    h: H,
    method: Method,
    r: Result<(), ApiError>,
) -> bool {
    let i = route_index(old.spec_routes(), name);
    if i < 0 {
        r == Err::<(), ApiError>(ApiError::UndefinedRoute) && new == old
    } else if old.spec_routes()[i].spec_method()@ != method@ {
        &&& r matches Err(ApiError::IncorrectMethod { expected, actual })
        &&& expected@ == method@ && (expected is Http <==> method is Http)
        &&& actual@ == old.spec_routes()[i].spec_method()@
        &&& new == old
    } else if old.spec_routes()[i].spec_handler() is Some {
        r == Err::<(), ApiError>(ApiError::HandlerAlreadyRegistered) && new == old
    } else {
        r is Ok && handler_bound(new, old, i, h)
    }
}

impl<H> Api<H> {
    /// Read an API from its specification, as `parse` does, on a specification that is not
    /// malformed.
    pub fn new(spec: &TomlValue) -> (r: Result<Api<H>, ApiError>)
        requires
            !(api_error(*spec) matches Some(ApiSpecError::Malformed)),
        ensures
            match r {
                Ok(api) => api_error(*spec) is None && api.from_spec(*spec),
                Err(e) => api_error(*spec) matches Some(se) && failure_matches(
                    ApiFailure::Error(e),
                    se,
                    *spec,
                ),
            },
    {
        match Self::parse(spec) {
            Ok(api) => Ok(api),
            Err(ApiFailure::Error(e)) => Err(e),
            Err(ApiFailure::Malformed) => {
                assert(false);
                Err(ApiError::ApiMustBeTable)
            },
        }
    }

    /// The index of the first route with the given name, if there is one.
    fn find_route(&self, name: &str) -> (r: Option<usize>)
        ensures
            match r {
                Some(i) => route_index(self.spec_routes(), name@) == i as int,
                None => route_index(self.spec_routes(), name@) == -1,
            },
    {
        let n = self.routes.len();
        let mut i: usize = 0;
        while i < n
            invariant
                n == self.routes@.len(),
                i <= n,
                forall|j: int| 0 <= j < i ==> (#[trigger] self.routes@[j]).spec_name() != name@,
            decreases n - i,
        {
            if self.routes[i].name() == name.to_string() {
                assert(is_first_route(self.spec_routes(), name@, i as int));
                assert forall|k: int| is_first_route(self.spec_routes(), name@, k) implies k
                    == i by {
                    if k < i {
                        assert(self.routes@[k].spec_name() != name@);
                    }
                    if k > i {
                        assert(self.spec_routes()[i as int].spec_name() == name@);
                    }
                }
                return Some(i);
            }
            i = i + 1;
        }
        assert(!exists|k: int| is_first_route(self.spec_routes(), name@, k));
        None
    }

    /// Bind a handler to route `i`, whatever its kind.
    fn bind(&mut self, i: usize, h: H)
        requires
            i < old(self).spec_routes().len(),
        ensures
            handler_bound(*final(self), *old(self), i as int, h),
    {
        let mut route = self.routes.remove(i);
        let ghost old_route = route;
        if route.method().is_http() {
            let _ = route.set_handler::<ApiError>(h);
        } else {
            match route.method() {
                Method::Socket => {
                    let _ = route.set_socket_handler::<ApiError>(h);
                },
                _ => {
                    let _ = route.set_metrics_handler::<ApiError>(h);
                },
            }
        }
        assert(route.same_but_handler(&old_route));
        self.routes.insert(i, route);
        assert forall|j: int|
            0 <= j < old(self).spec_routes().len() && j != i implies #[trigger] self.spec_routes()[j]
            == old(self).spec_routes()[j] by {
            if j < i {
                assert(self.routes@[j] == old(self).routes@[j]);
            } else {
                assert(self.routes@[j] == old(self).routes@[j]);
            }
        }
    }

    /// Bind a handler to a route of any HTTP method.
    pub fn at(&mut self, name: &str, h: H) -> (r: Result<(), ApiError>)
        ensures
            http_registration(*old(self), *final(self), name@, h, r),
    {
        let i = match self.find_route(name) {
            Some(i) => i,
            None => return Err(ApiError::UndefinedRoute),
        };
        if self.routes[i].has_handler() {
            return Err(ApiError::HandlerAlreadyRegistered);
        }
        let method = self.routes[i].method();
        if !method.is_http() {
            return Err(ApiError::IncorrectMethod { expected: Method::get(), actual: method });
        }
        self.bind(i, h);
        Ok(())
    }

    /// Bind a handler to a route of the given method.
    fn register_method(&mut self, method: Method, name: &str, h: H) -> (r: Result<(), ApiError>)
        ensures
            method_registration(*old(self), *final(self), name@, h, method, r),
    {
        let i = match self.find_route(name) {
            Some(i) => i,
            None => return Err(ApiError::UndefinedRoute),
        };
        let actual = self.routes[i].method();
        if !actual.same(&method) {
            return Err(ApiError::IncorrectMethod { expected: method, actual });
        }
        if self.routes[i].has_handler() {
            return Err(ApiError::HandlerAlreadyRegistered);
        }
        self.bind(i, h);
        Ok(())
    }

    /// Bind a handler to a `GET` route.
    pub fn get(&mut self, name: &str, h: H) -> (r: Result<(), ApiError>)
        ensures
            exists|m: Method| m is Http && m@ == "GET"@ && method_registration(*old(self), *final(self), name@, h, m, r),
    {
        self.register_method(Method::get(), name, h)
    }

    /// Bind a handler to a `POST` route.
    pub fn post(&mut self, name: &str, h: H) -> (r: Result<(), ApiError>)
        ensures
            exists|m: Method| m is Http && m@ == "POST"@ && method_registration(*old(self), *final(self), name@, h, m, r),
    {
        self.register_method(Method::post(), name, h)
    }

    /// Bind a handler to a `PUT` route.
    pub fn put(&mut self, name: &str, h: H) -> (r: Result<(), ApiError>)
        ensures
            exists|m: Method| m is Http && m@ == "PUT"@ && method_registration(*old(self), *final(self), name@, h, m, r),
    {
        self.register_method(Method::put(), name, h)
    }

    /// Bind a handler to a `DELETE` route.
    pub fn delete(&mut self, name: &str, h: H) -> (r: Result<(), ApiError>)
        ensures
            exists|m: Method| m is Http && m@ == "DELETE"@ && method_registration(*old(self), *final(self), name@, h, m, r),
    {
        self.register_method(Method::delete(), name, h)
    }

    /// Bind a handler to a `SOCKET` route.
    pub fn socket(&mut self, name: &str, h: H) -> (r: Result<(), ApiError>)
        ensures
            method_registration(*old(self), *final(self), name@, h, Method::Socket, r),
    {
        self.register_method(Method::socket(), name, h)
    }

    /// Bind a handler that streams messages to a `SOCKET` route.
    pub fn stream(&mut self, name: &str, h: H) -> (r: Result<(), ApiError>)
        ensures
            method_registration(*old(self), *final(self), name@, h, Method::Socket, r),
    {
        self.register_method(Method::socket(), name, h)
    }

    /// Bind a handler to a `METRICS` route.
    pub fn metrics(&mut self, name: &str, h: H) -> (r: Result<(), ApiError>)
        ensures
            method_registration(*old(self), *final(self), name@, h, Method::Metrics, r),
    {
        self.register_method(Method::metrics(), name, h)
    }
}


/// The documentation of a route.
pub open spec fn route_doc_text<H>(r: Route<H>) -> Seq<char> {
    route_documentation(
        r.spec_meta(),
        r.spec_method()@,
        r.spec_name(),
        r.spec_patterns(),
        param_views(r.spec_params()),
        r.spec_doc(),
    )
}

/// The documentation of a list of routes, one after the other.
pub open spec fn routes_doc_text<H>(routes: Seq<Route<H>>) -> Seq<char>
    decreases routes.len(),
{
    if routes.len() == 0 {
        seq![]
    } else {
        routes_doc_text(routes.drop_last()) + route_doc_text(routes.last())
    }
}

/// The text of an API's version in its documentation.
pub open spec fn version_label(v: Option<Version>) -> Seq<char> {
    match v {
        Some(v) => v.spec_text(),
        None => "(no version)"@,
    }
}

/// The documentation of an API: the top of its metadata with its placeholders filled in, the
/// documentation of each route, and the bottom of its metadata.
pub open spec fn api_documentation<H>(api: Api<H>) -> Seq<char> {
    let meta = api.spec_meta();
    let name = api.spec_name();
    let top = replace_all(
        replace_all(
            replace_all(
                replace_all(
                    replace_all(
                        replace_all(meta.html_top@, "{{NAME}}"@, name),
                        "{{SHORT_DESCRIPTION}}"@,
                        api.spec_short_description(),
                    ),
                    "{{LONG_DESCRIPTION}}"@,
                    api.spec_long_description(),
                ),
                "{{VERSION}}"@,
                version_label(api.spec_api_version()),
            ),
            "{{FORMAT_VERSION}}"@,
            meta.format_version.spec_text(),
        ),
        "{{PUBLIC}}"@,
        "/public/"@ + name,
    );
    let top = replace_all(top, "{{DESCRIPTION}}"@, meta.description@);
    top + routes_doc_text(api.spec_routes()) + meta.html_bottom@
}

/// All the path patterns of a list of routes, in order.
pub open spec fn all_patterns<H>(routes: Seq<Route<H>>) -> Seq<Seq<char>>
    decreases routes.len(),
{
    if routes.len() == 0 {
        seq![]
    } else {
        all_patterns(routes.drop_last()) + routes.last().spec_patterns()
    }
}

/// The elements of a sequence, each once, in the order of their first occurrence.
pub open spec fn first_occurrences(s: Seq<Seq<char>>) -> Seq<Seq<char>>
    decreases s.len(),
{
    if s.len() == 0 {
        seq![]
    } else {
        let p = first_occurrences(s.drop_last());
        if p.contains(s.last()) {
            p
        } else {
            p.push(s.last())
        }
    }
}

/// The names of the routes that have a pattern, in order.
pub open spec fn names_with_pattern<H>(routes: Seq<Route<H>>, p: Seq<char>) -> Seq<Seq<char>>
    decreases routes.len(),
{
    if routes.len() == 0 {
        seq![]
    } else {
        names_with_pattern(routes.drop_last(), p) + if routes.last().spec_patterns().contains(p) {
            seq![routes.last().spec_name()]
        } else {
            seq![]
        }
    }
}

/// Whether a list of strings holds one equal to `x`.
fn contains_string(v: &Vec<String>, x: &str) -> (r: bool)
    ensures
        r == views(v@).contains(x@),
{
    let n = v.len();
    let mut i: usize = 0;
    while i < n
        invariant
            n == v@.len(),
            i <= n,
            forall|j: int| 0 <= j < i ==> v@[j]@ != x@,
        decreases n - i,
    {
        if v[i] == x.to_string() {
            assert(views(v@)[i as int] == x@);
            return true;
        }
        i = i + 1;
    }
    assert forall|j: int| 0 <= j < views(v@).len() implies views(v@)[j] != x@ by {
        assert(views(v@)[j] == v@[j]@);
    }
    false
}

impl<H> Api<H> {
    /// Set the version of the API.
    pub fn with_version(&mut self, version: Version)
        ensures
            final(self).spec_api_version() == Some(version),
            final(self).spec_routes() == old(self).spec_routes(),
            final(self).spec_meta() == old(self).spec_meta(),
            final(self).spec_name() == old(self).spec_name(),
            final(self).spec_health_check() == old(self).spec_health_check(),
            final(self).spec_public() == old(self).spec_public(),
            final(self).spec_short_description() == old(self).spec_short_description(),
            final(self).spec_long_description() == old(self).spec_long_description(),
    {
        self.api_version = Some(version);
    }

    /// Serve the files of a directory as the public files of the API.
    pub fn with_public(&mut self, dir: String)
        ensures
            final(self).spec_public() == Some(dir@),
            final(self).spec_routes() == old(self).spec_routes(),
            final(self).spec_meta() == old(self).spec_meta(),
            final(self).spec_name() == old(self).spec_name(),
            final(self).spec_health_check() == old(self).spec_health_check(),
            final(self).spec_api_version() == old(self).spec_api_version(),
            final(self).spec_short_description() == old(self).spec_short_description(),
            final(self).spec_long_description() == old(self).spec_long_description(),
    {
        self.public = Some(dir);
    }

    /// Set the handler of the API's health check, in place of any earlier one.
    pub fn with_health_check(&mut self, h: H)
        ensures
            final(self).spec_health_check() == Some(h),
            final(self).spec_routes() == old(self).spec_routes(),
            final(self).spec_meta() == old(self).spec_meta(),
            final(self).spec_name() == old(self).spec_name(),
            final(self).spec_public() == old(self).spec_public(),
            final(self).spec_api_version() == old(self).spec_api_version(),
            final(self).spec_short_description() == old(self).spec_short_description(),
            final(self).spec_long_description() == old(self).spec_long_description(),
    {
        self.health_check = Some(h);
    }

    /// The handler of the API's health check, if one is set; without one, the health check
    /// answers that the API is available.
    pub fn health_check(&self) -> (r: Option<&H>)
        ensures
            match self.spec_health_check() {
                Some(h) => r == Some(&h),
                None => r is None,
            },
    {
        self.health_check.as_ref()
    }

    /// The version information of the API.
    pub fn version(&self) -> (r: ApiVersion)
        ensures
            match self.spec_api_version() {
                Some(v) => r.api_version matches Some(w) && w.spec_text() == v.spec_text()
                    && w.major == v.major,
                None => r.api_version is None,
            },
            r.spec_version.spec_text() == self.spec_meta().format_version.spec_text(),
            r.spec_version.major == self.spec_meta().format_version.major,
    {
        let api_version = match &self.api_version {
            Some(v) => Some(v.duplicate()),
            None => None,
        };
        ApiVersion { api_version, spec_version: self.meta.format_version.duplicate() }
    }

    /// The directory served as the public files of the API, if it is set.
    pub fn public(&self) -> (r: Option<&String>)
        ensures
            match self.spec_public() {
                Some(p) => r matches Some(q) && q@ == p,
                None => r is None,
            },
    {
        self.public.as_ref()
    }

    /// Rename the API (as an app does that registers it under another name).
    pub fn set_name(&mut self, name: String)
        ensures
            final(self).spec_name() == name@,
            final(self).spec_routes() == old(self).spec_routes(),
            final(self).spec_meta() == old(self).spec_meta(),
            final(self).spec_health_check() == old(self).spec_health_check(),
            final(self).spec_public() == old(self).spec_public(),
            final(self).spec_api_version() == old(self).spec_api_version(),
            final(self).spec_short_description() == old(self).spec_short_description(),
            final(self).spec_long_description() == old(self).spec_long_description(),
    {
        self.name = name;
    }

    /// The short description of the API, as HTML.
    pub fn short_description(&self) -> (r: &str)
        ensures
            r@ == self.spec_short_description(),
    {
        self.short_description.as_str()
    }

    /// The routes of the API, in the order of its specification.
    pub fn routes(&self) -> (r: &Vec<Route<H>>)
        ensures
            r@ == self.spec_routes(),
    {
        &self.routes
    }

    /// The route with the given name, if there is one.
    pub fn route(&self, name: &str) -> (r: Option<&Route<H>>)
        ensures
            match r {
                Some(route) => route_index(self.spec_routes(), name@) >= 0 && *route
                    == self.spec_routes()[route_index(self.spec_routes(), name@)],
                None => route_index(self.spec_routes(), name@) == -1,
            },
    {
        match self.find_route(name) {
            Some(i) => Some(&self.routes[i]),
            None => None,
        }
    }

    /// The route with the given name, which must exist.
    pub fn index(&self, name: &str) -> (r: &Route<H>)
        requires
            route_index(self.spec_routes(), name@) >= 0,
        ensures
            *r == self.spec_routes()[route_index(self.spec_routes(), name@)],
    {
        match self.find_route(name) {
            Some(i) => &self.routes[i],
            None => &self.routes[0],
        }
    }

    /// The same API with each of its handlers mapped by `f`.
    pub fn map_err<H2, F: Fn(H) -> H2>(self, f: F) -> (r: Api<H2>)
        requires
            forall|h: H| f.requires((h,)),
        ensures
            r.spec_routes().len() == self.spec_routes().len(),
            forall|i: int|
                0 <= i < self.spec_routes().len() ==> {
                    &&& (#[trigger] r.spec_routes()[i]).same_but_handler(&self.spec_routes()[i])
                    &&& match self.spec_routes()[i].spec_handler() {
                        Some(h) => r.spec_routes()[i].spec_handler() matches Some(h2) && f.ensures(
                            (h,),
                            h2,
                        ),
                        None => r.spec_routes()[i].spec_handler() is None,
                    }
                },
            match self.spec_health_check() {
                Some(h) => r.spec_health_check() matches Some(h2) && f.ensures((h,), h2),
                None => r.spec_health_check() is None,
            },
            r.spec_meta() == self.spec_meta(),
            r.spec_name() == self.spec_name(),
            r.spec_public() == self.spec_public(),
            r.spec_api_version() == self.spec_api_version(),
            r.spec_short_description() == self.spec_short_description(),
            r.spec_long_description() == self.spec_long_description(),
    {
        let Api {
            meta,
            name,
            routes,
            health_check,
            api_version,
            public,
            short_description,
            long_description,
        } = self;
        let ghost old_routes = routes@;
        let mut routes = routes;
        let mut mapped: Vec<Route<H2>> = Vec::new();
        let n = routes.len();
        let mut k: usize = 0;
        while k < n
            invariant
                n == old_routes.len(),
                k <= n,
                routes@ == old_routes.skip(k as int),
                mapped@.len() == k,
                forall|h: H| f.requires((h,)),
                forall|i: int|
                    0 <= i < k ==> {
                        &&& (#[trigger] mapped@[i]).same_but_handler(&old_routes[i])
                        &&& match old_routes[i].spec_handler() {
                            Some(h) => mapped@[i].spec_handler() matches Some(h2) && f.ensures(
                                (h,),
                                h2,
                            ),
                            None => mapped@[i].spec_handler() is None,
                        }
                    },
            decreases n - k,
        {
            let route = routes.remove(0);
            proof {
                assert(old_routes.skip(k as int)[0] == old_routes[k as int]);
                assert(routes@ =~= old_routes.skip(k + 1));
            }
            mapped.push(route.map_err(&f));
            k = k + 1;
        }
        let health_check = match health_check {
            Some(h) => Some(f(h)),
            None => None,
        };
        Api {
            meta,
            name,
            routes: mapped,
            health_check,
            api_version,
            public,
            short_description,
            long_description,
        }
    }

    /// The page for a path under the API that no route matches: what the path was, then the
    /// documentation of the API.
    pub fn no_route_page(&self, path: &str) -> (r: String)
        ensures
            r@ == "No route matches /"@ + html_escape(path@) + "<br></br>"@ + api_documentation(*self),
    {
        let mut r = "No route matches /".to_string();
        r.append(escape_html(path).as_str());
        r.append("<br></br>");
        r.append(self.documentation().as_str());
        r
    }

    /// The documentation of the API, as HTML.
    pub fn documentation(&self) -> (r: String)
        ensures
            r@ == api_documentation(*self),
    {
        proof {
            reveal_strlit("{{NAME}}");
            reveal_strlit("{{SHORT_DESCRIPTION}}");
            reveal_strlit("{{LONG_DESCRIPTION}}");
            reveal_strlit("{{VERSION}}");
            reveal_strlit("{{FORMAT_VERSION}}");
            reveal_strlit("{{PUBLIC}}");
            reveal_strlit("{{DESCRIPTION}}");
        }
        let version = match &self.api_version {
            Some(v) => v.to_string(),
            None => "(no version)".to_string(),
        };
        let mut public = "/public/".to_string();
        public.append(self.name.as_str());
        let top = replace_str(self.meta.html_top.as_str(), "{{NAME}}", self.name.as_str());
        let top = replace_str(top.as_str(), "{{SHORT_DESCRIPTION}}", self.short_description.as_str());
        let top = replace_str(top.as_str(), "{{LONG_DESCRIPTION}}", self.long_description.as_str());
        let top = replace_str(top.as_str(), "{{VERSION}}", version.as_str());
        let top = replace_str(
            top.as_str(),
            "{{FORMAT_VERSION}}",
            self.meta.format_version.to_string().as_str(),
        );
        let top = replace_str(top.as_str(), "{{PUBLIC}}", public.as_str());
        let mut r = replace_str(top.as_str(), "{{DESCRIPTION}}", self.meta.description.as_str());
        let ghost before = r@;
        let n = self.routes.len();
        let mut i: usize = 0;
        while i < n
            invariant
                n == self.routes@.len(),
                i <= n,
                r@ == before + routes_doc_text(self.routes@.take(i as int)),
            decreases n - i,
        {
            let doc = self.routes[i].documentation();
            r.append(doc.as_str());
            proof {
                assert(self.routes@.take(i + 1).drop_last() =~= self.routes@.take(i as int));
                assert(self.routes@.take(i + 1).last() == self.routes@[i as int]);
            }
            i = i + 1;
        }
        assert(self.routes@.take(n as int) =~= self.routes@);
        r.append(self.meta.html_bottom.as_str());
        r
    }

    /// The path patterns of the API, each once in the order of their first occurrence, each
    /// with the names of the routes that have it.
    pub fn routes_by_path(&self) -> (r: Vec<(String, Vec<String>)>)
        ensures
            r@.map_values(|e: (String, Vec<String>)| e.0@) == first_occurrences(
                all_patterns(self.spec_routes()),
            ),
            forall|i: int|
                0 <= i < r@.len() ==> views((#[trigger] r@[i]).1@) == names_with_pattern(
                    self.spec_routes(),
                    r@[i].0@,
                ),
    {
        let mut paths: Vec<String> = Vec::new();
        let n = self.routes.len();
        let mut i: usize = 0;
        while i < n
            invariant
                n == self.routes@.len(),
                i <= n,
                views(paths@) == first_occurrences(all_patterns(self.routes@.take(i as int))),
            decreases n - i,
        {
            let patterns = self.routes[i].patterns();
            let ghost base = all_patterns(self.routes@.take(i as int));
            let m = patterns.len();
            let mut j: usize = 0;
            while j < m
                invariant
                    m == patterns@.len(),
                    j <= m,
                    views(paths@) == first_occurrences(base + views(patterns@).take(j as int)),
                decreases m - j,
            {
                let p = patterns[j].clone();
                proof {
                    assert((base + views(patterns@).take(j + 1)).drop_last() =~= base + views(
                        patterns@,
                    ).take(j as int));
                    assert((base + views(patterns@).take(j + 1)).last() == p@);
                }
                if !contains_string(&paths, p.as_str()) {
                    let ghost old_paths = paths@;
                    paths.push(p);
                    proof {
                        assert(views(paths@) =~= views(old_paths).push(p@));
                    }
                }
                j = j + 1;
            }
            proof {
                assert(views(patterns@).take(m as int) =~= views(patterns@));
                assert(self.routes@.take(i + 1).drop_last() =~= self.routes@.take(i as int));
                assert(self.routes@.take(i + 1).last() == self.routes@[i as int]);
            }
            i = i + 1;
        }
        assert(self.routes@.take(n as int) =~= self.routes@);
        let mut r: Vec<(String, Vec<String>)> = Vec::new();
        let k = paths.len();
        let mut t: usize = 0;
        while t < k
            invariant
                k == paths@.len(),
                t <= k,
                n == self.routes@.len(),
                r@.len() == t,
                forall|x: int| 0 <= x < t ==> (#[trigger] r@[x]).0@ == paths@[x]@,
                forall|x: int|
                    0 <= x < t ==> views((#[trigger] r@[x]).1@) == names_with_pattern(
                        self.spec_routes(),
                        r@[x].0@,
                    ),
            decreases k - t,
        {
            let path = paths[t].clone();
            let mut names: Vec<String> = Vec::new();
            let mut q: usize = 0;
            while q < n
                invariant
                    n == self.routes@.len(),
                    q <= n,
                    views(names@) == names_with_pattern(self.routes@.take(q as int), path@),
                decreases n - q,
            {
                proof {
                    assert(self.routes@.take(q + 1).drop_last() =~= self.routes@.take(q as int));
                    assert(self.routes@.take(q + 1).last() == self.routes@[q as int]);
                }
                if contains_string(self.routes[q].patterns(), path.as_str()) {
                    let name = self.routes[q].name();
                    let ghost old_names = names@;
                    names.push(name);
                    proof {
                        assert(views(names@) =~= views(old_names) + seq![name@]);
                    }
                } else {
                    assert(views(names@) =~= views(names@) + Seq::<Seq<char>>::empty());
                }
                q = q + 1;
            }
            assert(self.routes@.take(n as int) =~= self.routes@);
            r.push((path, names));
            t = t + 1;
        }
        proof {
            assert(r@.map_values(|e: (String, Vec<String>)| e.0@) =~= views(paths@));
        }
        r
    }
}


/// Once a handler is bound to a route, binding another to it fails and changes nothing: a
/// route has at most one handler. Bound by its own method, the second fails because a handler
/// is already registered.
pub proof fn law_handler_bound_once<H>(
    a0: Api<H>,
    a1: Api<H>,
    a2: Api<H>,
    name: Seq<char>,
    h1: H,
    h2: H,
    m: Method,
    r1: Result<(), ApiError>,
    r2: Result<(), ApiError>,
)
    requires
        method_registration(a0, a1, name, h1, m, r1) || http_registration(a0, a1, name, h1, r1),
        r1 is Ok,
        method_registration(a1, a2, name, h2, m, r2) || http_registration(a1, a2, name, h2, r2),
    ensures
        r2 is Err,
        a2 == a1,
        method_registration(a1, a2, name, h2, m, r2) && a1.spec_routes()[route_index(
            a1.spec_routes(),
            name,
        )].spec_method()@ == m@ ==> r2 == Err::<(), ApiError>(ApiError::HandlerAlreadyRegistered),
{
    let i = route_index(a0.spec_routes(), name);
    assert(i >= 0);
    assert(handler_bound(a1, a0, i, h1));
    assert(is_first_route(a0.spec_routes(), name, i));
    assert(is_first_route(a1.spec_routes(), name, i)) by {
        assert(a1.spec_routes()[i].spec_name() == a0.spec_routes()[i].spec_name());
        assert forall|j: int| 0 <= j < i implies (#[trigger] a1.spec_routes()[j]).spec_name() != name by {
            assert(a1.spec_routes()[j] == a0.spec_routes()[j]);
            assert(a0.spec_routes()[j].spec_name() != name);
        }
    }
    assert(route_index(a1.spec_routes(), name) == i) by {
        let k = route_index(a1.spec_routes(), name);
        assert(is_first_route(a1.spec_routes(), name, k));
        if k < i {
            assert(a1.spec_routes()[k].spec_name() != name);
        }
        if k > i {
            assert(a1.spec_routes()[i].spec_name() == name);
        }
    }
    assert(a1.spec_routes()[i].spec_method() == a0.spec_routes()[i].spec_method());
}

/// A specification that reads as an API has no two routes that share a path pattern and a
/// method, so that dispatch by path and method is never ambiguous.
pub proof fn law_parsed_routes_unambiguous(spec: TomlValue)
    requires
        api_error(spec) is None,
    ensures
        !occurrences_ambiguous(entry_occurrences(routes_table(spec))),
{
}

} // verus!
