//! The framework's older, configuration-driven server: checking an API specification, the types
//! of URL segments, configuration keys and paths.

use vstd::prelude::*;
use vstd::string::*;
use vstd::multiset::Multiset;
use crate::request::{param_type_from_str, TaggedBase64};
use crate::route::{is_param_segment, path_segments, segments_of};
use crate::text::{
    parse_bool, parse_bool_exec, parse_uint, parse_uint_exec, replace_all, replace_str, split_on, str_eq,
    strip_prefix_char, views,
};
use crate::value::{parse_toml, toml_document, TomlValue};
use crate::version::semver_parse;

verus! {

/// How many times to poll a server that is starting before giving up.
pub const SERVER_STARTUP_RETRIES: u64 = 255;

/// How many milliseconds to sleep between polls of a server that is starting.
pub const SERVER_STARTUP_SLEEP_MS: u64 = 100;

/// The strings among a list of values, in order.
pub open spec fn string_paths(ps: Seq<TomlValue>) -> Seq<Seq<char>>
    decreases ps.len(),
{
    if ps.len() == 0 {
        seq![]
    } else {
        string_paths(ps.drop_last()) + match ps.last() {
            TomlValue::String(s) => seq![s@],
            _ => seq![],
        }
    }
}

/// The value of an optional string key of an entry: the string, or `<missing>` if the key is
/// absent.
pub open spec fn key_text(e: TomlValue, key: Seq<char>) -> Seq<char> {
    match e.spec_get(key) {
        Some(TomlValue::String(s)) => s@,
        _ => "<missing>"@,
    }
}

/// Whether an optional key of an entry holds something other than a string.
pub open spec fn non_string_key(e: TomlValue, key: Seq<char>) -> bool {
    e.spec_get(key) matches Some(v) && !(v is String)
}

/// The segments of the string paths of an entry's `PATH` array.
pub open spec fn entry_segments(ps: Seq<TomlValue>) -> Seq<Seq<char>> {
    path_segments(string_paths(ps))
}

/// Whether checking a route entry stops on it: its `PATH` array is empty or does not start
/// with a string, or its `METHOD` or the type of one of its parameters is
/// not a string.
pub open spec fn entry_aborts(e: TomlValue) -> bool {
    match e.spec_get("PATH"@) {
        None => false,
        Some(TomlValue::Array(ps)) => {
            ||| ps@.len() == 0
            ||| !(ps@[0] is String)
            ||| non_string_key(e, "METHOD"@)
            ||| exists|k: int|
                0 <= k < entry_segments(ps@).len() && is_param_segment(
                    #[trigger] entry_segments(ps@)[k],
                ) && non_string_key(e, entry_segments(ps@)[k])
        },
        Some(_) => false,
    }
}

/// Whether a route entry has an error: its `PATH` is not an array; or its method is not `GET`
/// or `POST` (a missing one counts as wrong), it has no `DOC` string, or one of its parameters
/// has no type or an unknown one.
pub open spec fn entry_has_error(e: TomlValue) -> bool {
    match e.spec_get("PATH"@) {
        Some(TomlValue::Array(ps)) => {
            ||| (key_text(e, "METHOD"@) != "GET"@ && key_text(e, "METHOD"@) != "POST"@)
            ||| !(e.spec_get("DOC"@) matches Some(TomlValue::String(_)))
            ||| exists|k: int|
                0 <= k < entry_segments(ps@).len() && is_param_segment(
                    #[trigger] entry_segments(ps@)[k],
                ) && param_type_from_str(key_text(e, entry_segments(ps@)[k])) is None
        },
        _ => true,
    }
}

/// Whether checking a specification stops: it is not a table with a `route` key, or one of its
/// routes stops the check.
pub open spec fn check_aborts(api: TomlValue) -> bool {
    match api.spec_get("route"@) {
        None => true,
        Some(TomlValue::Table(rs)) => table_aborts(rs@),
        Some(_) => false,
    }
}

/// Whether some route of a routes table stops the check.
pub open spec fn table_aborts(rs: Seq<(String, TomlValue)>) -> bool {
    exists|i: int| 0 <= i < rs.len() && entry_aborts(#[trigger] rs[i].1)
}

/// Whether a specification passes the check: no route entry has an error.
pub open spec fn check_passes(api: TomlValue) -> bool {
    match api.spec_get("route"@) {
        Some(TomlValue::Table(rs)) => forall|i: int|
            0 <= i < rs@.len() ==> !entry_has_error(#[trigger] rs@[i].1),
        _ => true,
    }
}

/// The string of a value, which must be one.
fn vs(v: &TomlValue) -> (r: &str)
    requires
        v is String,
    ensures
        v matches TomlValue::String(s) && r@ == s@,
{
    match v {
        TomlValue::String(s) => s.as_str(),
        _ => "",
    }
}

/// The string under a key of an entry (which must be a string if it is there), or `<missing>`.
fn vk(v: &TomlValue, key: &str) -> (r: String)
    requires
        !non_string_key(*v, key@),
    ensures
        r@ == key_text(*v, key@),
{
    match v.get(key) {
        Some(vv) => match vv.as_str() {
            Some(s) => s.to_string(),
            None => String::new(),
        },
        None => "<missing>".to_string(),
    }
}

/// The first non-empty segment of a slash-delimited string (empty if it has none):
/// `get_first_segment("/foo/bar")` is `foo`, `get_first_segment("first/second")` is `first`.
pub fn get_first_segment(s: &str) -> (r: String)
    ensures
        r@ == (if crate::dispatch::split_path(s@).len() > 0 {
            crate::dispatch::split_path(s@)[0]
        } else {
            seq![]
        }),
{
    let segs = crate::dispatch::split(s);
    if segs.len() > 0 {
        proof {
            assert(views(segs@)[0] == segs@[0]@);
        }
        segs[0].clone()
    } else {
        String::new()
    }
}

/// The strings among a list of values.
fn strings_of(ps: &Vec<TomlValue>) -> (r: Vec<String>)
    ensures
        views(r@) == string_paths(ps@),
{
    let mut r: Vec<String> = Vec::new();
    let n = ps.len();
    let mut i: usize = 0;
    while i < n
        invariant
            n == ps@.len(),
            i <= n,
            views(r@) == string_paths(ps@.take(i as int)),
        decreases n - i,
    {
        proof {
            assert(ps@.take(i + 1).drop_last() =~= ps@.take(i as int));
            assert(ps@.take(i + 1).last() == ps@[i as int]);
        }
        match &ps[i] {
            TomlValue::String(s) => {
                let ghost old_r = r@;
                r.push(s.clone());
                proof {
                    assert(views(r@) =~= views(old_r) + seq![s@]);
                }
            },
            _ => {
                assert(views(r@) =~= views(r@) + Seq::<Seq<char>>::empty());
            },
        }
        i = i + 1;
    }
    assert(ps@.take(n as int) =~= ps@);
    r
}

/// Whether a route entry has an error; the entry must not stop the check.
fn entry_error(e: &TomlValue) -> (r: bool)
    requires
        !entry_aborts(*e),
    ensures
        r == entry_has_error(*e),
{
    let ps = match e.get("PATH") {
        Some(v) => match v.as_array() {
            Some(ps) => ps,
            None => return true,
        },
        None => return true,
    };
    proof {
        reveal_strlit("GET");
        reveal_strlit("POST");
    }
    let method = vk(e, "METHOD");
    let mut bad = !str_eq(method.as_str(), "GET") && !str_eq(method.as_str(), "POST");
    let doc_ok = match e.get("DOC") {
        Some(d) => d.as_str().is_some(),
        None => false,
    };
    if !doc_ok {
        bad = true;
    }
    let paths = strings_of(ps);
    let segs = segments_of(&paths);
    let ghost es = path_segments(string_paths(ps@));
    assert(views(segs@) == es);
    let n = segs.len();
    let mut k: usize = 0;
    let mut seg_bad = false;
    while k < n
        invariant
            n == segs@.len(),
            views(segs@) == es,
            es == entry_segments(ps@),
            k <= n,
            !entry_aborts(*e),
            e.spec_get("PATH"@) == Some(TomlValue::Array(*ps)),
            seg_bad == exists|j: int|
                0 <= j < k && is_param_segment(#[trigger] es[j]) && param_type_from_str(
                    key_text(*e, es[j]),
                ) is None,
        decreases n - k,
    {
        let seg = segs[k].as_str();
        assert(es[k as int] == seg@);
        if seg.unicode_len() > 0 && seg.get_char(0) == ':' {
            let t = vk(e, seg);
            if crate::request::RequestParamType::from_str(t.as_str()).is_none() {
                seg_bad = true;
            }
        }
        k = k + 1;
    }
    bad || seg_bad
}

/// Whether checking a route entry stops on it.
fn entry_would_abort(e: &TomlValue) -> (r: bool)
    ensures
        r == entry_aborts(*e),
{
    let ps = match e.get("PATH") {
        Some(v) => match v.as_array() {
            Some(ps) => ps,
            None => return false,
        },
        None => return false,
    };
    if ps.len() == 0 {
        return true;
    }
    if ps[0].as_str().is_none() {
        return true;
    }
    let method_bad = match e.get("METHOD") {
        Some(m) => m.as_str().is_none(),
        None => false,
    };
    if method_bad {
        return true;
    }
    let paths = strings_of(ps);
    let segs = segments_of(&paths);
    let ghost es = path_segments(string_paths(ps@));
    assert(views(segs@) == es);
    let n = segs.len();
    let mut k: usize = 0;
    while k < n
        invariant
            n == segs@.len(),
            views(segs@) == es,
            es == entry_segments(ps@),
            k <= n,
            e.spec_get("PATH"@) == Some(TomlValue::Array(*ps)),
            forall|j: int|
                0 <= j < k ==> !(is_param_segment(#[trigger] es[j]) && non_string_key(*e, es[j])),
        decreases n - k,
    {
        let seg = segs[k].as_str();
        assert(es[k as int] == seg@);
        if seg.unicode_len() > 0 && seg.get_char(0) == ':' {
            let bad = match e.get(seg) {
                Some(v) => v.as_str().is_none(),
                None => false,
            };
            if bad {
                assert(is_param_segment(es[k as int]) && non_string_key(*e, es[k as int]));
                return true;
            }
        }
        k = k + 1;
    }
    false
}

/// Why the specification of a configuration-driven server cannot be loaded.
#[derive(Clone, Copy, Debug, PartialEq, Eq, Structural)]
pub enum LoadApiError {
    /// The text is no TOML document.
    Unparsable,
    /// The document does not pass `check_api` (or would stop it).
    HasErrors,
}

/// Load and check the specification of a configuration-driven server from its text: the
/// document, if it is one and passes the check.
pub fn load_api_text(text: &str) -> (r: Result<TomlValue, LoadApiError>)
    ensures
        match toml_document(text@) {
            Err(_) => r == Err::<TomlValue, LoadApiError>(LoadApiError::Unparsable),
            Ok(v) => match r {
                Ok(a) => a == v && !check_aborts(v) && check_passes(v),
                Err(e) => e == LoadApiError::HasErrors && (check_aborts(v) || !check_passes(v)),
            },
        },
{
    match parse_toml(text) {
        Err(_) => Err(LoadApiError::Unparsable),
        Ok(v) => {
            if check_would_abort(&v) || !check_api(&v) {
                Err(LoadApiError::HasErrors)
            } else {
                Ok(v)
            }
        },
    }
}

/// Whether checking a specification would stop: it has no `route` key, or one of its routes
/// stops the check (`check_api` must not be called on it).
pub fn check_would_abort(api: &TomlValue) -> (r: bool)
    ensures
        r == check_aborts(*api),
{
    let rs = match api.get("route") {
        Some(v) => match v.as_table() {
            Some(rs) => rs,
            None => return false,
        },
        None => return true,
    };
    let n = rs.len();
    let mut i: usize = 0;
    while i < n
        invariant
            n == rs@.len(),
            i <= n,
            api.spec_get("route"@) == Some(TomlValue::Table(*rs)),
            forall|j: int| 0 <= j < i ==> !entry_aborts(#[trigger] rs@[j].1),
        decreases n - i,
    {
        if entry_would_abort(&rs[i].1) {
            assert(entry_aborts(rs@[i as int].1));
            assert(table_aborts(rs@));
            return true;
        }
        i = i + 1;
    }
    false
}

/// Check a specification: every route must have an array of paths (a route without `PATH`
/// fails the check), the method `GET` or `POST`, a `DOC` string, and a known type for each
/// parameter of its paths. The
/// specification must be a table with a `route` key, and no route may stop the check.
pub fn check_api(api: &TomlValue) -> (r: bool)
    requires
        !check_aborts(*api),
    ensures
        r == check_passes(*api),
{
    let rs = match api.get("route") {
        Some(v) => match v.as_table() {
            Some(rs) => rs,
            None => return true,
        },
        None => return true,
    };
    let n = rs.len();
    let mut i: usize = 0;
    let mut ok = true;
    assert(forall|j: int| 0 <= j < rs@.len() ==> !entry_aborts(#[trigger] rs@[j].1));
    while i < n
        invariant
            n == rs@.len(),
            i <= n,
            api.spec_get("route"@) == Some(TomlValue::Table(*rs)),
            !check_aborts(*api),
            forall|j: int| 0 <= j < rs@.len() ==> !entry_aborts(#[trigger] rs@[j].1),
            ok == forall|j: int| 0 <= j < i ==> !entry_has_error(#[trigger] rs@[j].1),
        decreases n - i,
    {
        assert(!entry_aborts(rs@[i as int].1));
        if entry_error(&rs[i].1) {
            ok = false;
        }
        i = i + 1;
    }
    ok
}

/// The kinds of URL segment, each with its value if it has been bound.
#[derive(Clone, Debug)]
pub enum UrlSegment {
    Boolean(Option<bool>),
    Hexadecimal(Option<u128>),
    Integer(Option<u128>),
    TaggedBase64(Option<TaggedBase64>),
    Literal(Option<String>),
}

impl UrlSegment {
    /// Bind a value to a kind of segment: booleans are `true` or `false`, hexadecimal values
    /// are read in base 16 and integers in base 10, tagged base 64 values as such, and literals
    /// as they are; a value that does not read leaves the segment unbound.
    pub fn new(value: &str, vtype: UrlSegment) -> (r: UrlSegment)
        ensures
            match vtype {
                UrlSegment::Boolean(_) => r == UrlSegment::Boolean(parse_bool(value@)),
                UrlSegment::Hexadecimal(_) => r == UrlSegment::Hexadecimal(
                    match parse_uint(value@, 16, u128::MAX as nat) {
                        Ok(v) => Some(v as u128),
                        Err(_) => None,
                    },
                ),
                UrlSegment::Integer(_) => r == UrlSegment::Integer(
                    match parse_uint(value@, 10, u128::MAX as nat) {
                        Ok(v) => Some(v as u128),
                        Err(_) => None,
                    },
                ),
                UrlSegment::TaggedBase64(_) => match crate::request::tagged_base64_parse(value@) {
                    Ok((tag, bytes)) => r matches UrlSegment::TaggedBase64(Some(t))
                        && t.spec_tag() == tag && t.spec_value() == bytes,
                    Err(_) => r == UrlSegment::TaggedBase64(None),
                },
                UrlSegment::Literal(_) => r matches UrlSegment::Literal(Some(s)) && s@ == value@,
            },
    {
        match vtype {
            UrlSegment::Boolean(_) => UrlSegment::Boolean(parse_bool_exec(value)),
            UrlSegment::Hexadecimal(_) => UrlSegment::Hexadecimal(
                match parse_uint_exec(value, 16, u128::MAX) {
                    Ok(v) => Some(v),
                    Err(_) => None,
                },
            ),
            UrlSegment::Integer(_) => UrlSegment::Integer(
                match parse_uint_exec(value, 10, u128::MAX) {
                    Ok(v) => Some(v),
                    Err(_) => None,
                },
            ),
            UrlSegment::TaggedBase64(_) => UrlSegment::TaggedBase64(
                match TaggedBase64::parse(value) {
                    Ok(t) => Some(t),
                    Err(_) => None,
                },
            ),
            UrlSegment::Literal(_) => UrlSegment::Literal(Some(value.to_string())),
        }
    }

    /// Whether a value is bound to this segment.
    pub fn is_bound(&self) -> (r: bool)
        ensures
            r == match *self {
                UrlSegment::Boolean(v) => v is Some,
                UrlSegment::Hexadecimal(v) => v is Some,
                UrlSegment::Integer(v) => v is Some,
                UrlSegment::TaggedBase64(v) => v is Some,
                UrlSegment::Literal(v) => v is Some,
            },
    {
        match self {
            UrlSegment::Boolean(v) => v.is_some(),
            UrlSegment::Hexadecimal(v) => v.is_some(),
            UrlSegment::Integer(v) => v.is_some(),
            UrlSegment::TaggedBase64(v) => v.is_some(),
            UrlSegment::Literal(v) => v.is_some(),
        }
    }

    /// The kind of segment with the given name, unbound; names are those of the types of
    /// parameters.
    pub fn from_str(s: &str) -> (r: Option<UrlSegment>)
        ensures
            match param_type_from_str(s@) {
                Some(crate::request::RequestParamType::Boolean) => r == Some(UrlSegment::Boolean(None)),
                Some(crate::request::RequestParamType::Hexadecimal) => r == Some(UrlSegment::Hexadecimal(None)),
                Some(crate::request::RequestParamType::Integer) => r == Some(UrlSegment::Integer(None)),
                Some(crate::request::RequestParamType::TaggedBase64) => r == Some(UrlSegment::TaggedBase64(None)),
                Some(crate::request::RequestParamType::Literal) => r == Some(UrlSegment::Literal(None)),
                None => r is None,
            },
    {
        match crate::request::RequestParamType::from_str(s) {
            Some(crate::request::RequestParamType::Boolean) => Some(UrlSegment::Boolean(None)),
            Some(crate::request::RequestParamType::Hexadecimal) => Some(UrlSegment::Hexadecimal(None)),
            Some(crate::request::RequestParamType::Integer) => Some(UrlSegment::Integer(None)),
            Some(crate::request::RequestParamType::TaggedBase64) => Some(UrlSegment::TaggedBase64(None)),
            Some(crate::request::RequestParamType::Literal) => Some(UrlSegment::Literal(None)),
            None => None,
        }
    }
}

/// The keys of the framework's configuration.
#[derive(Clone, Copy, Debug, PartialEq, Eq, Structural)]
#[allow(non_camel_case_types)]
pub enum DiscoKey {
    ansi_color,
    api_toml,
    app_toml,
    base_url,
    disco_toml,
}

impl DiscoKey {
    /// The name of the key.
    pub fn as_ref(&self) -> (r: &'static str)
        ensures
            r@ == match *self {
                DiscoKey::ansi_color => "ansi_color"@,
                DiscoKey::api_toml => "api_toml"@,
                DiscoKey::app_toml => "app_toml"@,
                DiscoKey::base_url => "base_url"@,
                DiscoKey::disco_toml => "disco_toml"@,
            },
    {
        match self {
            DiscoKey::ansi_color => "ansi_color",
            DiscoKey::api_toml => "api_toml",
            DiscoKey::app_toml => "app_toml",
            DiscoKey::base_url => "base_url",
            DiscoKey::disco_toml => "disco_toml",
        }
    }
}

/// The health of the configuration-driven server.
#[derive(Clone, Copy, Debug, PartialEq, Eq, Structural)]
pub enum HealthStatus {
    Starting,
    Available,
    Stopping,
}

impl HealthStatus {
    /// The name of the status.
    pub open spec fn spec_name(&self) -> Seq<char> {
        match *self {
            HealthStatus::Starting => "Starting"@,
            HealthStatus::Available => "Available"@,
            HealthStatus::Stopping => "Stopping"@,
        }
    }

    /// The name of the status.
    pub fn as_ref(&self) -> (r: &'static str)
        ensures
            r@ == self.spec_name(),
    {
        match self {
            HealthStatus::Starting => "Starting",
            HealthStatus::Available => "Available",
            HealthStatus::Stopping => "Stopping",
        }
    }

    /// The name of the status, as it is displayed.
    pub fn to_string(&self) -> (r: String)
        ensures
            r@ == self.spec_name(),
    {
        self.as_ref().to_string()
    }
}

/// The string paths of the routes of a routes table, in order.
pub open spec fn table_paths(rs: Seq<(String, TomlValue)>) -> Seq<Seq<char>>
    decreases rs.len(),
{
    if rs.len() == 0 {
        seq![]
    } else {
        table_paths(rs.drop_last()) + match rs.last().1.spec_get("PATH"@) {
            Some(TomlValue::Array(ps)) => string_paths(ps@),
            _ => seq![],
        }
    }
}

/// Whether an entry has a `PATH` array of strings.
pub open spec fn has_string_paths(e: TomlValue) -> bool {
    e.spec_get("PATH"@) matches Some(TomlValue::Array(ps)) && string_paths(ps@).len() == ps@.len()
}

/// The paths of the routes of a specification, each with its index, counted from 1 in the
/// order of the routes and their paths, as the configuration-driven server's router holds them.
/// The specification must have a `route` key, and every route an array of string paths.
pub fn router_entries(api: &TomlValue) -> (r: Vec<(String, usize)>)
    requires
        match api.spec_get("route"@) {
            Some(TomlValue::Table(rs)) => (forall|i: int|
                0 <= i < rs@.len() ==> has_string_paths(#[trigger] rs@[i].1)) && table_paths(rs@).len()
                < usize::MAX,
            Some(_) => true,
            None => false,
        },
    ensures
        r@.map_values(|e: (String, usize)| e.0@) == match api.spec_get("route"@) {
            Some(TomlValue::Table(rs)) => table_paths(rs@),
            _ => seq![],
        },
        forall|x: int| 0 <= x < r@.len() ==> (#[trigger] r@[x]).1 == x + 1,
{
    let mut r: Vec<(String, usize)> = Vec::new();
    let rs = match api.get("route") {
        Some(v) => match v.as_table() {
            Some(rs) => rs,
            None => {
                assert(r@.map_values(|e: (String, usize)| e.0@) =~= Seq::<Seq<char>>::empty());
                return r;
            },
        },
        None => return r,
    };
    let n = rs.len();
    let mut i: usize = 0;
    assert(r@.map_values(|e: (String, usize)| e.0@) =~= table_paths(rs@.take(0)));
    while i < n
        invariant
            n == rs@.len(),
            i <= n,
            forall|k: int|
                0 <= k < rs@.len() ==> has_string_paths(#[trigger] rs@[k].1),
            table_paths(rs@).len() < usize::MAX,
            r@.map_values(|e: (String, usize)| e.0@) == table_paths(rs@.take(i as int)),
            forall|x: int| 0 <= x < r@.len() ==> (#[trigger] r@[x]).1 == x + 1,
        decreases n - i,
    {
        proof {
            assert(rs@.take(i + 1).drop_last() =~= rs@.take(i as int));
            assert(rs@.take(i + 1).last() == rs@[i as int]);
            lemma_table_paths_prefix(rs@, i + 1);
        }
        let ps = match rs[i].1.get("PATH") {
            Some(v) => match v.as_array() {
                Some(ps) => ps,
                None => {
                    assert(false);
                    return r;
                },
            },
            None => {
                assert(false);
                return r;
            },
        };
        let ghost base = table_paths(rs@.take(i as int));
        let m = ps.len();
        let mut j: usize = 0;
        while j < m
            invariant
                m == ps@.len(),
                j <= m,
                string_paths(ps@).len() == ps@.len(),
                base + string_paths(ps@) == table_paths(rs@.take(i + 1)),
                table_paths(rs@.take(i + 1)).len() < usize::MAX,
                r@.map_values(|e: (String, usize)| e.0@) == base + string_paths(ps@.take(j as int)),
                forall|x: int| 0 <= x < r@.len() ==> (#[trigger] r@[x]).1 == x + 1,
            decreases m - j,
        {
            proof {
                assert(ps@.take(j + 1).drop_last() =~= ps@.take(j as int));
                assert(ps@.take(j + 1).last() == ps@[j as int]);
                lemma_string_paths_prefix(ps@, j + 1);
                lemma_all_strings(ps@, j as int);
                lemma_string_paths_len(ps@.take(j as int));
                assert(r@.len() == r@.map_values(|e: (String, usize)| e.0@).len());
                assert(r@.len() == base.len() + string_paths(ps@.take(j as int)).len());
                assert((base + string_paths(ps@)).len() == base.len() + m);
            }
            match ps[j].as_str() {
                Some(s) => {
                    let index = r.len() + 1;
                    let ghost old_r = r@;
                    r.push((s.to_string(), index));
                    proof {
                        assert(r@.map_values(|e: (String, usize)| e.0@) =~= old_r.map_values(
                            |e: (String, usize)| e.0@,
                        ).push(s@));
                    }
                },
                None => {
                    assert(false);
                },
            }
            j = j + 1;
        }
        assert(ps@.take(m as int) =~= ps@);
        i = i + 1;
    }
    assert(rs@.take(n as int) =~= rs@);
    r
}

/// The router of `routefinder`, declared so that it can stand in signatures; what it holds is
/// seen only through `router_routes`.
#[verifier::external_type_specification]
#[verifier::external_body]
#[verifier::reject_recursive_types(Handler)]
pub struct ExRouter<Handler>(routefinder::Router<Handler>);

/// The routes that a router holds: the text of each route with the index it leads to. The
/// router never takes two routes for one, so each route added is one more entry.
pub uninterp spec fn router_routes(r: routefinder::Router<usize>) -> Multiset<(Seq<char>, usize)>;

/// What routefinder says of the text of a route: nothing if it reads as a route, else the
/// text of the error.
pub uninterp spec fn route_text_error(text: Seq<char>) -> Option<Seq<char>>;

/// Calls `routefinder::Router::new`: a router with no routes.
#[verifier::external_body]
fn router_new() -> (r: routefinder::Router<usize>)
    ensures
        router_routes(r) == Multiset::<(Seq<char>, usize)>::empty(),
{
    routefinder::Router::new()
}

/// Calls `routefinder::Router::add`, which parses the text of a route and, if it reads, adds
/// the route with its index (its ordering of routes never counts two as the same, so the
/// route is one more entry); if it does not read, the router is left as it was.
#[verifier::external_body]
fn router_add(router: &mut routefinder::Router<usize>, path: &str, index: usize) -> (r: Result<(), String>)
    ensures
        match r {
            Ok(()) => route_text_error(path@) is None && router_routes(*final(router)) == router_routes(
                *old(router),
            ).insert((path@, index)),
            Err(e) => route_text_error(path@) == Some(e@) && router_routes(*final(router))
                == router_routes(*old(router)),
        },
{
    router.add(path, index)
}

/// The entries of a router of the given paths: each path with its position, counted from 1.
pub open spec fn path_entries(paths: Seq<Seq<char>>) -> Multiset<(Seq<char>, usize)>
    decreases paths.len(),
{
    if paths.len() == 0 {
        Multiset::empty()
    } else {
        path_entries(paths.drop_last()).insert((paths.last(), paths.len() as usize))
    }
}

/// The paths of the routes of a specification, in order.
pub open spec fn api_paths(api: TomlValue) -> Seq<Seq<char>> {
    match api.spec_get("route"@) {
        Some(TomlValue::Table(rs)) => table_paths(rs@),
        _ => seq![],
    }
}

/// Whether a specification has a `route` key, every route an array of string paths, and not
/// too many paths to count.
pub open spec fn routable(api: TomlValue) -> bool {
    match api.spec_get("route"@) {
        Some(TomlValue::Table(rs)) => (forall|i: int|
            0 <= i < rs@.len() ==> has_string_paths(#[trigger] rs@[i].1)) && table_paths(rs@).len()
            < usize::MAX,
        Some(_) => true,
        None => false,
    }
}

/// Whether routefinder reads a text as a route.
pub fn route_reads(path: &str) -> (r: bool)
    ensures
        r == (route_text_error(path@) is None),
{
    let mut router = router_new();
    router_add(&mut router, path, 0).is_ok()
}

/// A router of the paths of a specification, each to its index (counted from 1 in the order of
/// the routes and their paths). Every path must read as a route.
pub fn configure_router(api: &TomlValue) -> (r: std::sync::Arc<routefinder::Router<usize>>)
    requires
        routable(*api),
        forall|x: int|
            0 <= x < api_paths(*api).len() ==> route_text_error(#[trigger] api_paths(*api)[x]) is None,
    ensures
        router_routes(*r) == path_entries(api_paths(*api)),
{
    let entries = router_entries(api);
    let ghost paths = api_paths(*api);
    let mut router = router_new();
    let n = entries.len();
    assert(entries@.map_values(|e: (String, usize)| e.0@).len() == n);
    let mut i: usize = 0;
    while i < n
        invariant
            n == entries@.len(),
            i <= n,
            paths == api_paths(*api),
            forall|x: int| 0 <= x < paths.len() ==> route_text_error(#[trigger] paths[x]) is None,
            entries@.map_values(|e: (String, usize)| e.0@) == paths,
            forall|x: int| 0 <= x < entries@.len() ==> (#[trigger] entries@[x]).1 == x + 1,
            router_routes(router) == path_entries(paths.take(i as int)),
        decreases n - i,
    {
        proof {
            assert(paths[i as int] == entries@[i as int].0@);
            assert(paths.take(i + 1).drop_last() =~= paths.take(i as int));
            assert(paths.take(i + 1).last() == paths[i as int]);
        }
        let added = router_add(&mut router, entries[i].0.as_str(), entries[i].1);
        assert(added is Ok) by {
            assert(route_text_error(paths[i as int]) is None);
        }
        i = i + 1;
    }
    assert(paths.take(n as int) =~= paths);
    std::sync::Arc::new(router)
}

/// A router of the paths of a specification, each to its index (counted from 1 in the order of
/// the routes and their paths); none if routefinder refuses one of the paths.
pub fn try_configure_router(api: &TomlValue) -> (r: Option<std::sync::Arc<routefinder::Router<usize>>>)
    requires
        routable(*api),
    ensures
        match r {
            Some(router) => (forall|x: int|
                0 <= x < api_paths(*api).len() ==> route_text_error(#[trigger] api_paths(*api)[x]) is None)
                && router_routes(*router) == path_entries(api_paths(*api)),
            None => exists|x: int|
                0 <= x < api_paths(*api).len() && route_text_error(#[trigger] api_paths(*api)[x]) is Some,
        },
{
    let entries = router_entries(api);
    let ghost paths = api_paths(*api);
    let n = entries.len();
    assert(entries@.map_values(|e: (String, usize)| e.0@).len() == n);
    let mut i: usize = 0;
    while i < n
        invariant
            n == entries@.len(),
            i <= n,
            paths == api_paths(*api),
            entries@.map_values(|e: (String, usize)| e.0@) == paths,
            forall|x: int| 0 <= x < i ==> route_text_error(#[trigger] paths[x]) is None,
        decreases n - i,
    {
        proof {
            assert(paths[i as int] == entries@[i as int].0@);
        }
        if !route_reads(entries[i].0.as_str()) {
            assert(route_text_error(api_paths(*api)[i as int]) is Some);
            return None;
        }
        i = i + 1;
    }
    Some(configure_router(api))
}

/// The strings of a prefix of a list are no more than those of the list.
proof fn lemma_string_paths_prefix(ps: Seq<TomlValue>, k: int)
    requires
        0 <= k <= ps.len(),
    ensures
        string_paths(ps.take(k)).len() <= string_paths(ps).len(),
    decreases ps.len() - k,
{
    if k < ps.len() {
        assert(ps.take(k + 1).drop_last() =~= ps.take(k));
        lemma_string_paths_prefix(ps, k + 1);
    } else {
        assert(ps.take(k) =~= ps);
    }
}

/// The paths of a prefix of a table are no more than those of the table.
proof fn lemma_table_paths_prefix(rs: Seq<(String, TomlValue)>, k: int)
    requires
        0 <= k <= rs.len(),
    ensures
        table_paths(rs.take(k)).len() <= table_paths(rs).len(),
    decreases rs.len() - k,
{
    if k < rs.len() {
        assert(rs.take(k + 1).drop_last() =~= rs.take(k));
        lemma_table_paths_prefix(rs, k + 1);
    } else {
        assert(rs.take(k) =~= rs);
    }
}

/// When all the values of a list are strings, so is each of them.
proof fn lemma_all_strings(ps: Seq<TomlValue>, j: int)
    requires
        0 <= j < ps.len(),
        string_paths(ps).len() == ps.len(),
    ensures
        ps[j] is String,
    decreases ps.len(),
{
    lemma_string_paths_len(ps);
    if j < ps.len() - 1 {
        lemma_string_paths_len(ps.drop_last());
        if string_paths(ps.drop_last()).len() < ps.drop_last().len() {
            assert(false);
        }
        assert(ps.drop_last()[j] == ps[j]);
        lemma_all_strings(ps.drop_last(), j);
    } else if !(ps.last() is String) {
        lemma_string_paths_len(ps.drop_last());
        assert(false);
    }
}

/// A list has no more strings than values.
proof fn lemma_string_paths_len(ps: Seq<TomlValue>)
    ensures
        string_paths(ps).len() <= ps.len(),
    decreases ps.len(),
{
    if ps.len() > 0 {
        lemma_string_paths_len(ps.drop_last());
    }
}

/// The path that joining a part to a base path gives.
pub uninterp spec fn path_join_of(base: Seq<char>, part: Seq<char>) -> Seq<char>;

/// Calls `std::path::Path::join`, the paths taken as text.
#[verifier::external_body]
fn path_join(base: &str, part: &str) -> (r: String)
    ensures
        r@ == path_join_of(base@, part@),
{
    std::path::Path::new(base).join(part).to_string_lossy().into_owned()
}

/// The path that setting the extension of a path gives.
pub uninterp spec fn path_with_extension_of(p: Seq<char>, ext: Seq<char>) -> Seq<char>;

/// Calls `std::path::PathBuf::set_extension`, the path taken as text. It panics on an
/// extension that holds a path separator, so `requires` leaves those out.
#[verifier::external_body]
fn path_set_extension(p: &str, ext: &str) -> (r: String)
    requires
        forall|i: int| 0 <= i < ext@.len() ==> #[trigger] ext@[i] != '/' && ext@[i] != '\\',
    ensures
        r@ == path_with_extension_of(p@, ext@),
{
    let mut b = std::path::PathBuf::from(p);
    b.set_extension(ext);
    b.to_string_lossy().into_owned()
}

/// Calls `dirs::data_local_dir`, the path taken as text. What it gives depends on the
/// platform and the environment, so nothing is stated of it. The library holds paths as
/// text: a directory whose name is not UTF-8 comes out with its invalid parts replaced by
/// `U+FFFD`, so the paths built under it then name another directory.
#[verifier::external_body]
fn data_local_dir() -> (r: Option<String>) {
    dirs::data_local_dir().map(|p| p.to_string_lossy().into_owned())
}

/// The data directory of an organization under a base directory.
pub fn org_data_path_in(base: &str, org_name: &str) -> (r: String)
    ensures
        r@ == path_join_of(base@, org_name@),
{
    path_join(base, org_name)
}

/// The data directory of an organization: under the local data directory of the platform, or
/// else under `fallback` (the current directory, or `./`).
pub fn org_data_path(org_name: &str, fallback: &str) -> (r: String)
    ensures
        exists|base: Seq<char>| r@ == path_join_of(base, org_name@),
{
    let base = match data_local_dir() {
        Some(d) => d,
        None => fallback.to_string(),
    };
    org_data_path_in(base.as_str(), org_name)
}

/// The path of the API specification of an application, under a base directory.
pub fn app_api_path_in(base: &str, org_name: &str, app_name: &str) -> (r: String)
    ensures
        r@ == path_join_of(path_join_of(path_join_of(base@, org_name@), app_name@), "api.toml"@),
{
    let org = org_data_path_in(base, org_name);
    let app = path_join(org.as_str(), app_name);
    path_join(app.as_str(), "api.toml")
}

/// The path of the API specification of an application: `api.toml` in its directory under
/// its organization's data directory.
pub fn app_api_path(org_name: &str, app_name: &str, fallback: &str) -> (r: String)
    ensures
        exists|base: Seq<char>|
            r@ == path_join_of(path_join_of(path_join_of(base, org_name@), app_name@), "api.toml"@),
{
    let base = match data_local_dir() {
        Some(d) => d,
        None => fallback.to_string(),
    };
    app_api_path_in(base.as_str(), org_name, app_name)
}

/// The path of the configuration file of an application, under a base directory.
pub fn config_path_in(base: &str, org_dir_name: &str, app_name: &str) -> (r: String)
    ensures
        r@ == path_with_extension_of(
            path_join_of(path_join_of(path_join_of(base@, org_dir_name@), app_name@), app_name@),
            "toml"@,
        ),
{
    let org = org_data_path_in(base, org_dir_name);
    let dir = path_join(org.as_str(), app_name);
    let file = path_join(dir.as_str(), app_name);
    proof {
        reveal_strlit("toml");
    }
    path_set_extension(file.as_str(), "toml")
}

/// The path of the configuration file of an application: `{app}.toml` in its directory under
/// its organization's data directory.
pub fn compose_config_path(org_dir_name: &str, app_name: &str, fallback: &str) -> (r: String)
    ensures
        exists|base: Seq<char>|
            r@ == path_with_extension_of(
                path_join_of(path_join_of(path_join_of(base, org_dir_name@), app_name@), app_name@),
                "toml"@,
            ),
{
    let base = match data_local_dir() {
        Some(d) => d,
        None => fallback.to_string(),
    };
    config_path_in(base.as_str(), org_dir_name, app_name)
}

/// The lines of an application's configuration file that set its defaults, in order: each
/// `key = "value"`.
pub open spec fn default_lines(defaults: Seq<(String, String)>) -> Seq<char>
    decreases defaults.len(),
{
    if defaults.len() == 0 {
        seq![]
    } else {
        default_lines(defaults.drop_last()) + defaults.last().0@ + " = \""@ + defaults.last().1@ + "\"\n"@
    }
}

/// The first text of an application's configuration file: a heading, a note that keys must
/// be lower case, and the application's defaults.
pub open spec fn default_config(app_name: Seq<char>, defaults: Seq<(String, String)>) -> Seq<char> {
    "# "@ + app_name + " configuration\n\n# Note: keys must be lower case.\n\n"@ + default_lines(defaults)
}

/// The first text of an application's configuration file.
pub fn default_config_text(app_name: &str, defaults: &Vec<(String, String)>) -> (r: String)
    ensures
        r@ == default_config(app_name@, defaults@),
{
    let mut r = "# ".to_string();
    r.append(app_name);
    r.append(" configuration\n\n# Note: keys must be lower case.\n\n");
    let ghost head = r@;
    let n = defaults.len();
    let mut i: usize = 0;
    while i < n
        invariant
            n == defaults@.len(),
            i <= n,
            r@ == head + default_lines(defaults@.take(i as int)),
        decreases n - i,
    {
        r.append(defaults[i].0.as_str());
        r.append(" = \"");
        r.append(defaults[i].1.as_str());
        r.append("\"\n");
        proof {
            assert(defaults@.take(i + 1).drop_last() =~= defaults@.take(i as int));
            assert(defaults@.take(i + 1).last() == defaults@[i as int]);
        }
        i = i + 1;
    }
    assert(defaults@.take(n as int) =~= defaults@);
    r
}

/// The prefix of the environment variables that configure an application: its name with each
/// `-` replaced by `_` (a shell does not allow hyphens in names).
pub fn env_var_prefix(app_name: &str) -> (r: String)
    ensures
        r@ == replace_all(app_name@, "-"@, "_"@),
{
    proof {
        reveal_strlit("-");
    }
    replace_str(app_name, "-", "_")
}

} // verus!
