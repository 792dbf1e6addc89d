//! Apps: API modules registered under path prefixes, each in one or more major versions, and
//! the decisions an app makes about a request before any route sees it.

use vstd::prelude::*;
use vstd::string::*;
use crate::api::{
    all_patterns, api_error, failure_matches, first_occurrences, Api, ApiError, ApiFailure,
    ApiSpecError, ApiVersion,
};
use crate::method::Method;
use crate::route::Route;
use crate::dispatch::{is_prefix_of, prefix_free, split, split_path, DispatchError, Module, Trie, entries_map};
use crate::healthcheck::{health_status_code, HealthCheck, HealthStatus};
use crate::html::{escape_html, html_escape};
use crate::status::StatusCode;
use crate::text::{decimal, join_strings, join_with, parse_uint, parse_uint_exec, str_eq, tail_strings, u64_to_string, views};
use crate::value::TomlValue;
use crate::version::Version;

verus! {

/// An error in building an app.
#[derive(Clone, Debug, PartialEq, Eq)]
pub enum AppError {
    Api { source: ApiError },
    Dispatch { source: DispatchError },
    /// The specification is one that the libraries the framework reads it with cannot read
    /// to the end (see `ApiFailure::Malformed`).
    MalformedApi,
}

/// An app: API modules by path prefix and major version, a state shared by their handlers, and
/// the app's own version. `H` is the type of the handlers of its APIs.
#[derive(Debug)]
pub struct App<S, H> {
    modules: Trie<Api<H>>,
    state: S,
    app_version: Option<Version>,
}

/// Version information of an app: its own version, the version of the framework, and, for
/// the path of each module, the version information of its APIs from the latest down.
#[derive(Clone, Debug)]
pub struct AppVersion {
    pub modules: Vec<(String, Vec<ApiVersion>)>,
    pub app_version: Option<Version>,
    pub disco_version: Version,
}

/// The health of an app: `Available` when every API of every module is healthy, `Unhealthy`
/// otherwise; and, for the path of each module, the status of each of its versions.
#[derive(Clone, Debug)]
pub struct AppHealth {
    pub status: HealthStatus,
    pub modules: Vec<(String, Vec<(u64, StatusCode)>)>,
}

/// Whether every status of every module is `200 OK`.
pub open spec fn all_ok(modules: Seq<(String, Vec<(u64, StatusCode)>)>) -> bool {
    forall|i: int, j: int|
        0 <= i < modules.len() && 0 <= j < modules[i].1@.len() ==> (#[trigger] modules[i].1@[j]).1
            == StatusCode::OK
}

/// An app is healthy exactly when every version of every module answers its health check
/// with `200 OK`: one version that answers otherwise, the oldest as much as the newest, makes
/// the app unhealthy.
pub proof fn law_health_looks_at_every_version(modules: Seq<(String, Vec<(u64, StatusCode)>)>, i: int, j: int)
    requires
        0 <= i < modules.len(),
        0 <= j < modules[i].1@.len(),
    ensures
        modules[i].1@[j].1 != StatusCode::OK ==> !all_ok(modules),
        all_ok(modules) ==> modules[i].1@[j].1 == StatusCode::OK,
{
}

impl HealthCheck for AppHealth {
    fn status(&self) -> (r: StatusCode)
        ensures
            r == health_status_code(self.status),
    {
        self.status.status_code()
    }
}

impl AppHealth {
    /// The health of an app from the statuses of the APIs of its modules.
    pub fn from_statuses(modules: Vec<(String, Vec<(u64, StatusCode)>)>) -> (r: AppHealth)
        ensures
            r.modules@ == modules@,
            r.status == (if all_ok(modules@) {
                HealthStatus::Available
            } else {
                HealthStatus::Unhealthy
            }),
            r.status is Available || r.status is Unhealthy,
            r.status is Available <==> forall|i: int, j: int|
                0 <= i < modules@.len() && 0 <= j < modules@[i].1@.len() ==> (#[trigger] modules@[i].1@[j]).1
                    == StatusCode::OK,
    {
        let mut healthy = true;
        let n = modules.len();
        let mut i: usize = 0;
        while i < n
            invariant
                n == modules@.len(),
                i <= n,
                healthy == forall|a: int, b: int|
                    0 <= a < i && 0 <= b < modules@[a].1@.len() ==> (#[trigger] modules@[a].1@[b]).1
                        == StatusCode::OK,
            decreases n - i,
        {
            let versions = &modules[i].1;
            let m = versions.len();
            let mut j: usize = 0;
            let ghost before = healthy;
            while j < m
                invariant
                    m == versions@.len(),
                    j <= m,
                    i < n,
                    n == modules@.len(),
                    *versions == modules@[i as int].1,
                    before == forall|a: int, b: int|
                        0 <= a < i && 0 <= b < modules@[a].1@.len() ==> (#[trigger] modules@[a].1@[b]).1
                            == StatusCode::OK,
                    healthy == (before && forall|b: int| 0 <= b < j ==> (#[trigger] versions@[b]).1 == StatusCode::OK),
                decreases m - j,
            {
                if versions[j].1 != StatusCode::OK {
                    healthy = false;
                }
                j = j + 1;
            }
            proof {
                if healthy {
                    assert forall|a: int, b: int|
                        0 <= a < i + 1 && 0 <= b < modules@[a].1@.len() implies (#[trigger] modules@[a].1@[b]).1
                            == StatusCode::OK by {
                        if a == i {
                            assert(versions@[b] == modules@[a].1@[b]);
                        }
                    }
                } else if before {
                    let b = choose|b: int| 0 <= b < m && (#[trigger] versions@[b]).1 != StatusCode::OK;
                    assert(modules@[i as int].1@[b] == versions@[b]);
                }
            }
            i = i + 1;
        }
        let status = if healthy {
            HealthStatus::Available
        } else {
            HealthStatus::Unhealthy
        };
        AppHealth { status, modules }
    }
}

/// What an app does with a request before routing it, by the segments of its path.
#[derive(Clone, Debug, PartialEq, Eq)]
pub enum VersionDecision {
    /// Let the routes handle the request.
    Continue,
    /// No module matches the path: answer `404 Not Found` with this message and the list of
    /// the app's modules.
    NotFound { message: String },
    /// The module does not have the requested version: list the versions it has, from the
    /// latest down, each with the path of the module.
    UnsupportedVersion { version: u64, supported: Vec<u64>, path: String },
    /// The request names no version: redirect (permanently) to the latest version.
    Redirect { location: String },
}

/// The version that the first segment of a path names, if it is `v` followed by a number.
pub open spec fn version_segment(seg: Seq<char>) -> Option<u64> {
    if seg.len() > 0 && seg[0] == 'v' {
        match parse_uint(seg.skip(1), 10, u64::MAX as nat) {
            Ok(n) => Some(n as u64),
            Err(_) => None,
        }
    } else {
        None
    }
}

/// The message for a path that no module matches.
pub open spec fn no_api_message(segs: Seq<Seq<char>>) -> Seq<char> {
    "No API matches /"@ + join_with(segs, "/"@)
}

/// Whether some registered prefix is a prefix of the path.
pub open spec fn matches_module<A>(modules: Map<Seq<Seq<char>>, Map<u64, A>>, path: Seq<Seq<char>>) -> bool {
    exists|k: Seq<Seq<char>>| #[trigger] modules.contains_key(k) && is_prefix_of(k, path)
}

/// The largest key of a non-empty finite map of versions.
pub open spec fn latest_version<A>(versions: Map<u64, A>) -> u64 {
    choose|v: u64| versions.contains_key(v) && forall|w: u64| #[trigger] versions.contains_key(w) ==> w <= v
}

/// The prefix in the app that a path falls under (there is at most one).
pub open spec fn module_of<A>(modules: Map<Seq<Seq<char>>, Map<u64, A>>, path: Seq<Seq<char>>) -> Seq<Seq<char>> {
    choose|k: Seq<Seq<char>>| modules.contains_key(k) && is_prefix_of(k, path)
}

/// Whether a decision is the one for a request path of the given segments: a path that
/// starts with `v` and a number must fall under a module that has that version; any other
/// path (but the app's own `version` and `healthcheck`, where the app has more than the one
/// module under the empty prefix) must fall under a module, and is redirected to the latest
/// version of it.
pub open spec fn version_decision<A>(
    modules: Map<Seq<Seq<char>>, Map<u64, A>>,
    segs: Option<Seq<Seq<char>>>,
    d: VersionDecision,
) -> bool {
    match segs {
        None => d is Continue,
        Some(path) => if path.len() == 0 || path[0].len() == 0 {
            d is Continue
        } else {
            match version_segment(path[0]) {
                Some(version) => {
                    let rest = path.skip(1);
                    if !matches_module(modules, rest) {
                        d matches VersionDecision::NotFound { message } && message@ == no_api_message(
                            rest,
                        )
                    } else if !modules[module_of(modules, rest)].contains_key(version) {
                        d matches VersionDecision::UnsupportedVersion { version: v, supported, path: p }
                            && v == version && p@ == join_with(module_of(modules, rest), "/"@)
                            && supported@.to_set() == modules[module_of(modules, rest)].dom()
                            && forall|a: int, b: int|
                            0 <= a < b < supported@.len() ==> supported@[a] > supported@[b]
                    } else {
                        d is Continue
                    }
                },
                None => if !modules.contains_key(Seq::<Seq<char>>::empty()) && (path[0]
                    == "version"@ || path[0] == "healthcheck"@) {
                    d is Continue
                } else if !matches_module(modules, path) {
                    d matches VersionDecision::NotFound { message } && message@ == no_api_message(
                        path,
                    )
                } else {
                    d matches VersionDecision::Redirect { location } && location@ == "/v"@
                        + decimal(latest_version(modules[module_of(modules, path)]) as nat) + "/"@
                        + join_with(path, "/"@)
                },
            }
        },
    }
}

/// Whether a map of versions has a latest version (the versions of every module of an app do).
pub open spec fn has_latest<A>(versions: Map<u64, A>) -> bool {
    exists|v: u64| versions.contains_key(v) && forall|w: u64| #[trigger] versions.contains_key(w) ==> w <= v
}

/// A request whose path names no version is redirected to the path with the latest version of
/// its module in front, and a request for that path goes on to the module's routes.
pub proof fn law_redirect_is_served<A>(
    modules: Map<Seq<Seq<char>>, Map<u64, A>>,
    path: Seq<Seq<char>>,
    location: String,
)
    requires
        forall|k: Seq<Seq<char>>| #[trigger] modules.contains_key(k) ==> has_latest(modules[k]),
        version_decision(modules, Some(path), VersionDecision::Redirect { location }),
    ensures
        exists|v: u64|
            {
                &&& location@ == "/v"@ + decimal(v as nat) + "/"@ + join_with(path, "/"@)
                &&& version_decision(
                    modules,
                    Some(seq!["v"@ + decimal(v as nat)] + path),
                    VersionDecision::Continue,
                )
            },
{
    reveal_strlit("v");
    let k = module_of(modules, path);
    let m = modules[k];
    let v = latest_version(m);
    assert(m.contains_key(v));
    crate::text::lemma_parse_decimal(v as nat, u64::MAX as nat);
    let seg = "v"@ + decimal(v as nat);
    assert(seg.skip(1) =~= decimal(v as nat));
    assert(version_segment(seg) == Some(v));
    let np = seq![seg] + path;
    assert(np.skip(1) =~= path);
    assert(np[0] == seg);
    assert(version_decision(modules, Some(np), VersionDecision::Continue));
}

/// Whether the prefix of a module is the only registered prefix that is a prefix of a path.
proof fn lemma_module_of<A>(modules: Map<Seq<Seq<char>>, Map<u64, A>>, path: Seq<Seq<char>>, k: Seq<Seq<char>>)
    requires
        modules.contains_key(k),
        is_prefix_of(k, path),
        forall|k2: Seq<Seq<char>>|
            #[trigger] modules.contains_key(k2) && is_prefix_of(k2, path) ==> k2 == k,
    ensures
        matches_module(modules, path),
        module_of(modules, path) == k,
{
}

/// The major versions of a module, from the latest down.
pub open spec fn descending_versions<A>(m: Module<A>) -> Seq<u64> {
    Seq::new(m.versions@.len(), |a: int| m.versions@[m.versions@.len() - 1 - a].0)
}

/// The versions of a module, from the latest down.
fn versions_descending<A>(m: &Module<A>) -> (r: Vec<u64>)
    requires
        m.wf(),
    ensures
        r@.to_set() == m.version_map().dom(),
        forall|a: int, b: int| 0 <= a < b < r@.len() ==> r@[a] > r@[b],
        r@ == descending_versions(*m),
{
    let nums = m.version_numbers();
    let mut r: Vec<u64> = Vec::new();
    let n = nums.len();
    let mut i: usize = n;
    while i > 0
        invariant
            n == nums@.len(),
            n == m.versions@.len(),
            i <= n,
            nums@ == m.versions@.map_values(|e: (u64, A)| e.0),
            m.wf(),
            r@.len() == n - i,
            forall|a: int| 0 <= a < r@.len() ==> r@[a] == nums@[n - 1 - a],
        decreases i,
    {
        i = i - 1;
        r.push(nums[i]);
    }
    proof {
        assert forall|a: int, b: int| 0 <= a < b < r@.len() implies r@[a] > r@[b] by {
            assert(m.versions@[n - 1 - a].0 > m.versions@[n - 1 - b].0);
        }
        assert forall|v: u64| r@.to_set().contains(v) <==> m.version_map().dom().contains(v) by {
            crate::dispatch::lemma_entries_map_dom(m.versions@, v);
            if r@.to_set().contains(v) {
                let a = choose|a: int| 0 <= a < r@.len() && r@[a] == v;
                assert(m.versions@[n - 1 - a].0 == v);
            }
            if m.version_map().dom().contains(v) {
                let j = choose|j: int| 0 <= j < m.versions@.len() && m.versions@[j].0 == v;
                assert(r@[n - 1 - j] == v);
            }
        }
        assert(r@.to_set() =~= m.version_map().dom());
        assert(r@ =~= descending_versions(*m));
    }
    r
}

/// The major version that `App::version` lists at position `j` for a module: newest first.
pub open spec fn listed_major<A>(m: Module<A>, j: int) -> u64 {
    m.versions@[m.versions@.len() - 1 - j].0
}

impl<S, H> App<S, H> {
    /// The modules of the app: for each prefix, the APIs by major version.
    pub closed spec fn spec_modules(&self) -> Map<Seq<Seq<char>>, Map<u64, Api<H>>> {
        self.modules@
    }

    /// The modules of the app, in the order of their prefixes.
    pub closed spec fn spec_module_list(&self) -> Seq<Module<Api<H>>> {
        self.modules.modules_view()
    }

    /// The modules of the app, as a map, are its module list read prefix by prefix.
    pub proof fn lemma_module_list(&self)
        ensures
            entries_map(crate::dispatch::module_entries(self.spec_module_list()))
                == self.spec_modules(),
    {
    }

    /// The state of the app.
    pub closed spec fn spec_state(&self) -> S {
        self.state
    }

    /// The version of the app, if it is set.
    pub closed spec fn spec_app_version(&self) -> Option<Version> {
        self.app_version
    }

    /// An app with the given state and no modules.
    pub fn with_state(state: S) -> (r: App<S, H>)
        ensures
            r.spec_modules() == Map::<Seq<Seq<char>>, Map<u64, Api<H>>>::empty(),
            r.spec_module_list() == Seq::<Module<Api<H>>>::empty(),
            r.spec_state() == state,
            r.spec_app_version() is None,
    {
        App { modules: Trie::new(), state, app_version: None }
    }

    /// The state of the app.
    pub fn state(&self) -> (r: &S)
        ensures
            *r == self.spec_state(),
    {
        &self.state
    }

    /// The modules of the app, in order of their prefixes.
    pub fn modules(&self) -> (r: &[Module<Api<H>>])
        ensures
            entries_map(crate::dispatch::module_entries(r@)) == self.spec_modules(),
            forall|i: int| 0 <= i < r@.len() ==> (#[trigger] r@[i]).wf(),
    {
        self.modules.iter()
    }

    /// Read an API from its specification, to be registered with the app as a module.
    pub fn module(&self, spec: &TomlValue) -> (r: Result<Api<H>, AppError>)
        ensures
            match r {
                Ok(api) => api_error(*spec) is None && api.from_spec(*spec),
                Err(AppError::Api { source }) => api_error(*spec) matches Some(se)
                    && failure_matches(ApiFailure::Error(source), se, *spec),
                Err(AppError::MalformedApi) => api_error(*spec) == Some(ApiSpecError::Malformed),
                Err(AppError::Dispatch { .. }) => false,
            },
    {
        match Api::<H>::parse(spec) {
            Ok(api) => Ok(api),
            Err(ApiFailure::Error(source)) => Err(AppError::Api { source }),
            Err(ApiFailure::Malformed) => Err(AppError::MalformedApi),
        }
    }

    /// Register an API under a base URL, as the version of the module there given by the
    /// major version of the API (0 if it has none). The API takes the base URL as its name.
    pub fn register_module(&mut self, base_url: &str, api: Api<H>) -> (r: Result<(), AppError>)
        ensures
            ({
                let p = split_path(base_url@);
                let major = match api.spec_api_version() {
                    Some(v) => v.major,
                    None => 0,
                };
                let old_m = old(self).spec_modules();
                match r {
                    Ok(()) => !(old_m.contains_key(p) && old_m[p].contains_key(major))
                        && !crate::dispatch::has_conflict(old_m.dom(), p) && exists|a: Api<H>|
                        {
                            &&& a.spec_name() == base_url@
                            &&& a.spec_routes() == api.spec_routes()
                            &&& a.spec_meta() == api.spec_meta()
                            &&& a.spec_api_version() == api.spec_api_version()
                            &&& a.spec_health_check() == api.spec_health_check()
                            &&& a.spec_public() == api.spec_public()
                            &&& a.spec_short_description() == api.spec_short_description()
                            &&& a.spec_long_description() == api.spec_long_description()
                            &&& final(self).spec_modules() == old_m.insert(
                                p,
                                (if old_m.contains_key(p) {
                                    old_m[p]
                                } else {
                                    Map::empty()
                                }).insert(major, a),
                            )
                        },
                    Err(AppError::Dispatch { source }) => final(self).spec_modules() == old_m
                        && match source {
                        DispatchError::ModuleAlreadyExists { prefix, version } => old_m.contains_key(p)
                            && old_m[p].contains_key(major) && prefix@ == join_with(p, "/"@)
                            && version == major,
                        DispatchError::ConflictingModules { prefix, conflict } =>
                            crate::dispatch::has_conflict(old_m.dom(), p)
                            && crate::dispatch::conflict_in(old_m.dom(), p, prefix@, conflict@)
                            && crate::dispatch::conflict_details(
                            old(self).spec_module_list(),
                            p,
                            prefix@,
                            conflict@,
                        ),
                    },
                    Err(AppError::Api { .. }) | Err(AppError::MalformedApi) => false,
                }
            }),
            final(self).spec_state() == old(self).spec_state(),
            final(self).spec_app_version() == old(self).spec_app_version(),
            prefix_free(old(self).spec_modules().dom()),
            prefix_free(final(self).spec_modules().dom()),
            crate::dispatch::well_ordered(old(self).spec_module_list()),
            crate::dispatch::well_ordered(final(self).spec_module_list()),
    {
        proof {
            use_type_invariant(&self.modules);
        }
        let mut api = api;
        api.set_name(base_url.to_string());
        let major = match api.version().api_version {
            Some(v) => v.major,
            None => 0,
        };
        let ghost old_keys = self.modules@.dom();
        let ghost old_list = self.modules.modules_view();
        let res = self.modules.insert(split(base_url), major, api);
        proof {
            if res is Err {
                crate::dispatch::lemma_conflict_error(old_list, split_path(base_url@), res->Err_0);
            }
            if res is Ok {
                crate::dispatch::lemma_insert_prefix_free(old_keys, split_path(base_url@));
                assert(self.modules@.dom() =~= old_keys.insert(split_path(base_url@)));
            }
        }
        proof {
            use_type_invariant(&self.modules);
        }
        match res {
            Ok(()) => Ok(()),
            Err(source) => Err(AppError::Dispatch { source }),
        }
    }

    /// Whether the app's only module is registered under the empty prefix, so that the app has
    /// no endpoints of its own.
    pub fn is_singleton(&self) -> (r: bool)
        ensures
            r == self.spec_modules().contains_key(Seq::<Seq<char>>::empty()),
    {
        self.modules.is_singleton()
    }

    /// Set the version of the app.
    pub fn with_version(&mut self, version: Version)
        ensures
            final(self).spec_app_version() == Some(version),
            final(self).spec_modules() == old(self).spec_modules(),
            final(self).spec_state() == old(self).spec_state(),
    {
        self.app_version = Some(version);
    }

    /// The API of a module (by its base URL) to answer its health check: the given major
    /// version, or the latest.
    pub fn module_health(&self, module: &str, major_version: Option<u64>) -> (r: Option<&Api<H>>)
        ensures
            ({
                let p = split_path(module@);
                let ms = self.spec_modules();
                match r {
                    Some(a) => ms.contains_key(p) && match major_version {
                        Some(v) => ms[p].contains_key(v) && ms[p][v] == *a,
                        None => ms[p].contains_key(latest_version(ms[p])) && ms[p][latest_version(ms[p])] == *a,
                    },
                    None => !ms.contains_key(p) || match major_version {
                        Some(v) => !ms[p].contains_key(v),
                        None => false,
                    },
                }
            }),
    {
        let prefix = split(module);
        let m = match self.modules.get(prefix.as_slice()) {
            Some(m) => m,
            None => return None,
        };
        match major_version {
            Some(v) => m.version(v),
            None => {
                let (v, a) = m.latest();
                proof {
                    assert(latest_version(m.version_map()) == v) by {
                        let w = latest_version(m.version_map());
                        assert(m.version_map().contains_key(v));
                        assert(w <= v && v <= w);
                    }
                }
                Some(a)
            },
        }
    }

    /// What to do with a request, by the segments of its path (none for a URL that cannot
    /// have a path).
    pub fn version_decision(&self, segs: Option<Vec<String>>) -> (r: VersionDecision)
        ensures
            version_decision(
                self.spec_modules(),
                match segs {
                    Some(v) => Some(views(v@)),
                    None => None,
                },
                r,
            ),
    {
        let path = match segs {
            Some(p) => p,
            None => return VersionDecision::Continue,
        };
        if path.len() == 0 || path[0].unicode_len() == 0 {
            return VersionDecision::Continue;
        }
        proof {
            assert(views(path@)[0] == path@[0]@);
        }
        let seg1 = path[0].as_str();
        let n1 = seg1.unicode_len();
        let version = if seg1.get_char(0) == 'v' {
            match parse_uint_exec(seg1.substring_char(1, n1), 10, 0xffff_ffff_ffff_ffff) {
                Ok(v) => Some(v as u64),
                Err(_) => None,
            }
        } else {
            None
        };
        proof {
            assert(seg1@.subrange(1, n1 as int) =~= seg1@.skip(1));
        }
        match version {
            Some(version) => {
                let rest = tail_strings(path.as_slice(), 1);
                match self.modules.search(rest.as_slice()) {
                    None => {
                        let mut message = "No API matches /".to_string();
                        message.append(join_strings(rest.as_slice(), "/").as_str());
                        VersionDecision::NotFound { message }
                    },
                    Some(m) => {
                        proof {
                            lemma_module_of(self.spec_modules(), views(rest@), m.key());
                        }
                        if !m.contains_version(version) {
                            VersionDecision::UnsupportedVersion {
                                version,
                                supported: versions_descending(m),
                                path: m.path(),
                            }
                        } else {
                            VersionDecision::Continue
                        }
                    },
                }
            },
            None => {
                if !self.modules.is_singleton() && (str_eq(seg1, "version") || str_eq(
                    seg1,
                    "healthcheck",
                )) {
                    return VersionDecision::Continue;
                }
                match self.modules.search(path.as_slice()) {
                    None => {
                        let mut message = "No API matches /".to_string();
                        message.append(join_strings(path.as_slice(), "/").as_str());
                        VersionDecision::NotFound { message }
                    },
                    Some(m) => {
                        proof {
                            lemma_module_of(self.spec_modules(), views(path@), m.key());
                        }
                        let (latest, _) = m.latest();
                        proof {
                            assert(latest_version(m.version_map()) == latest) by {
                                let w = latest_version(m.version_map());
                                assert(m.version_map().contains_key(latest));
                                assert(w <= latest && latest <= w);
                            }
                        }
                        let mut location = "/v".to_string();
                        location.append(u64_to_string(latest).as_str());
                        location.append("/");
                        location.append(join_strings(path.as_slice(), "/").as_str());
                        VersionDecision::Redirect { location }
                    },
                }
            },
        }
    }

}


/// Whether an entry of an app's version information describes an API: the same version (if
/// any) and format version.
pub open spec fn describes_version<H>(v: ApiVersion, api: Api<H>) -> bool {
    &&& match api.spec_api_version() {
        Some(a) => v.api_version matches Some(w) && w.spec_text() == a.spec_text() && w.major == a.major,
        None => v.api_version is None,
    }
    &&& v.spec_version.spec_text() == api.spec_meta().format_version.spec_text()
}

/// The route indices of the routes of an API that have a pattern, in order.
pub open spec fn routes_with_pattern<H>(routes: Seq<Route<H>>, p: Seq<char>) -> Seq<int>
    decreases routes.len(),
{
    if routes.len() == 0 {
        seq![]
    } else {
        routes_with_pattern(routes.drop_last(), p) + if routes.last().spec_patterns().contains(p) {
            seq![routes.len() - 1]
        } else {
            seq![]
        }
    }
}

/// The endpoints registered for one path pattern of an API: the first socket route and the
/// first metrics route with that pattern, if any, and all its HTTP routes, by index.
#[derive(Clone, Debug, PartialEq, Eq)]
pub struct PathEndpoints {
    pub path: String,
    pub socket: Option<usize>,
    pub metrics: Option<usize>,
    pub http: Vec<usize>,
}

/// The first index of a list whose route has the given kind of method (by name), if any.
pub open spec fn first_of_kind<H>(routes: Seq<Route<H>>, idxs: Seq<int>, kind: Seq<char>) -> Option<int>
    decreases idxs.len(),
{
    if idxs.len() == 0 {
        None
    } else if routes[idxs[0]].spec_method()@ == kind && !(routes[idxs[0]].spec_method() is Http) {
        Some(idxs[0])
    } else {
        first_of_kind(routes, idxs.skip(1), kind)
    }
}

/// The indices of a list whose routes are HTTP routes.
pub open spec fn http_indices<H>(routes: Seq<Route<H>>, idxs: Seq<int>) -> Seq<int>
    decreases idxs.len(),
{
    if idxs.len() == 0 {
        seq![]
    } else {
        http_indices(routes, idxs.drop_last()) + if routes[idxs.last()].spec_method() is Http {
            seq![idxs.last()]
        } else {
            seq![]
        }
    }
}

/// Whether a list of route indices is exactly the HTTP routes that have a pattern, in the
/// order of the routes: it holds each route `k` whose patterns include `p` and whose method is
/// an HTTP method, and no other, each once in increasing order.
pub open spec fn lists_http_routes<H>(routes: Seq<Route<H>>, p: Seq<char>, http: Seq<int>) -> bool {
    &&& forall|k: int|
        0 <= k < routes.len() ==> (http.contains(k) <==> ((#[trigger] routes[k]).spec_patterns().contains(p)
            && routes[k].spec_method() is Http))
    &&& forall|a: int| 0 <= a < http.len() ==> 0 <= #[trigger] http[a] < routes.len()
    &&& forall|a: int, b: int| 0 <= a < b < http.len() ==> #[trigger] http[a] < #[trigger] http[b]
}

/// The indices of the routes that have a pattern are the routes whose patterns include it, in
/// increasing order.
pub proof fn lemma_routes_with_pattern<H>(routes: Seq<Route<H>>, p: Seq<char>)
    ensures
        forall|k: int|
            #![trigger routes_with_pattern(routes, p).contains(k)]
            routes_with_pattern(routes, p).contains(k) <==> (0 <= k < routes.len()
                && routes[k].spec_patterns().contains(p)),
        forall|a: int|
            0 <= a < routes_with_pattern(routes, p).len() ==> 0 <= #[trigger] routes_with_pattern(routes, p)[a]
                < routes.len(),
        forall|a: int, b: int|
            0 <= a < b < routes_with_pattern(routes, p).len() ==> #[trigger] routes_with_pattern(routes, p)[a]
                < #[trigger] routes_with_pattern(routes, p)[b],
    decreases routes.len(),
{
    if routes.len() > 0 {
        let init = routes.drop_last();
        lemma_routes_with_pattern(init, p);
        let prev = routes_with_pattern(init, p);
        let cur = routes_with_pattern(routes, p);
        assert forall|k: int| cur.contains(k) <==> (0 <= k < routes.len() && routes[k].spec_patterns().contains(p)) by {
            if cur.contains(k) {
                let a = choose|a: int| 0 <= a < cur.len() && cur[a] == k;
                if a < prev.len() {
                    assert(prev[a] == k);
                    assert(prev.contains(k));
                    assert(init[k] == routes[k]);
                }
            }
            if 0 <= k < routes.len() && routes[k].spec_patterns().contains(p) {
                if k < routes.len() - 1 {
                    assert(init[k] == routes[k]);
                    assert(prev.contains(k));
                    let a = choose|a: int| 0 <= a < prev.len() && prev[a] == k;
                    assert(cur[a] == k);
                } else {
                    assert(cur[prev.len() as int] == k);
                }
            }
        }
        assert forall|a: int| 0 <= a < cur.len() implies 0 <= #[trigger] cur[a] < routes.len() by {
            if a < prev.len() {
                assert(cur[a] == prev[a]);
            }
        }
        assert forall|a: int, b: int| 0 <= a < b < cur.len() implies #[trigger] cur[a] < #[trigger] cur[b] by {
            if b < prev.len() {
                assert(cur[a] == prev[a] && cur[b] == prev[b]);
            } else {
                assert(cur[a] == prev[a]);
            }
        }
    }
}

/// The HTTP routes among a list of indices are the listed routes with an HTTP method, in the
/// order of the list.
pub proof fn lemma_http_indices<H>(routes: Seq<Route<H>>, idxs: Seq<int>)
    requires
        forall|a: int| 0 <= a < idxs.len() ==> 0 <= #[trigger] idxs[a] < routes.len(),
        forall|a: int, b: int| 0 <= a < b < idxs.len() ==> #[trigger] idxs[a] < #[trigger] idxs[b],
    ensures
        forall|k: int|
            #![trigger http_indices(routes, idxs).contains(k)]
            http_indices(routes, idxs).contains(k) <==> (idxs.contains(k) && routes[k].spec_method() is Http),
        forall|a: int|
            0 <= a < http_indices(routes, idxs).len() ==> 0 <= #[trigger] http_indices(routes, idxs)[a]
                < routes.len(),
        forall|a: int, b: int|
            0 <= a < b < http_indices(routes, idxs).len() ==> #[trigger] http_indices(routes, idxs)[a]
                < #[trigger] http_indices(routes, idxs)[b],
    decreases idxs.len(),
{
    if idxs.len() > 0 {
        let init = idxs.drop_last();
        lemma_http_indices(routes, init);
        let prev = http_indices(routes, init);
        let cur = http_indices(routes, idxs);
        let last = idxs.last();
        assert forall|k: int| cur.contains(k) <==> (idxs.contains(k) && routes[k].spec_method() is Http) by {
            if cur.contains(k) {
                let a = choose|a: int| 0 <= a < cur.len() && cur[a] == k;
                if a < prev.len() {
                    assert(prev[a] == k);
                    assert(prev.contains(k));
                    let c = choose|c: int| 0 <= c < init.len() && init[c] == k;
                    assert(idxs[c] == k);
                } else {
                    assert(idxs[idxs.len() - 1] == k);
                }
            }
            if idxs.contains(k) && routes[k].spec_method() is Http {
                let c = choose|c: int| 0 <= c < idxs.len() && idxs[c] == k;
                if c < idxs.len() - 1 {
                    assert(init[c] == k);
                    assert(init.contains(k));
                    assert(prev.contains(k));
                    let a = choose|a: int| 0 <= a < prev.len() && prev[a] == k;
                    assert(cur[a] == k);
                } else {
                    assert(cur[prev.len() as int] == k);
                }
            }
        }
        assert forall|a: int| 0 <= a < prev.len() implies #[trigger] prev[a] < last by {
            assert(prev.contains(prev[a]));
            let c = choose|c: int| 0 <= c < init.len() && init[c] == prev[a];
            assert(idxs[c] == prev[a]);
        }
        assert forall|a: int| 0 <= a < cur.len() implies 0 <= #[trigger] cur[a] < routes.len() by {
            if a < prev.len() {
                assert(cur[a] == prev[a]);
            }
        }
        assert forall|a: int, b: int| 0 <= a < b < cur.len() implies #[trigger] cur[a] < #[trigger] cur[b] by {
            if b < prev.len() {
                assert(cur[a] == prev[a] && cur[b] == prev[b]);
            } else {
                assert(cur[a] == prev[a]);
            }
        }
    }
}

/// Every HTTP route of an API is registered under each of its patterns: the HTTP routes that
/// the plan lists for a pattern are exactly the routes with that pattern and an HTTP method,
/// in the order of the routes.
pub proof fn law_plan_lists_every_http_route<H>(routes: Seq<Route<H>>, p: Seq<char>)
    ensures
        lists_http_routes(routes, p, http_indices(routes, routes_with_pattern(routes, p))),
{
    lemma_routes_with_pattern(routes, p);
    let idxs = routes_with_pattern(routes, p);
    lemma_http_indices(routes, idxs);
    let http = http_indices(routes, idxs);
    assert forall|k: int| 0 <= k < routes.len() implies (http.contains(k) <==> ((#[trigger] routes[k]).spec_patterns().contains(p)
        && routes[k].spec_method() is Http)) by {
        assert(http.contains(k) <==> (idxs.contains(k) && routes[k].spec_method() is Http));
        assert(idxs.contains(k) <==> (0 <= k < routes.len() && routes[k].spec_patterns().contains(p)));
    }
}

/// The base path of a version of a module: `/v{version}`, then the prefix.
pub open spec fn version_base(prefix: Seq<Seq<char>>, version: u64) -> Seq<char> {
    "/v"@ + decimal(version as nat) + if prefix.len() == 0 {
        Seq::<char>::empty()
    } else {
        "/"@ + join_with(prefix, "/"@)
    }
}

/// The base path of a version of a module.
pub fn version_base_path(prefix: &[String], version: u64) -> (r: String)
    ensures
        r@ == version_base(views(prefix@), version),
{
    let mut r = "/v".to_string();
    r.append(u64_to_string(version).as_str());
    if prefix.len() != 0 {
        r.append("/");
        r.append(join_strings(prefix, "/").as_str());
    }
    r
}

/// The path at which the public directory of a version of a module is served:
/// `/public/v{version}` followed by the module's base path without its version.
pub fn public_base_path(prefix: &[String], version: u64) -> (r: String)
    ensures
        r@ == "/public"@ + version_base(views(prefix@), version),
{
    let mut r = "/public".to_string();
    r.append(version_base_path(prefix, version).as_str());
    r
}

/// The indices of the routes of an API that have a pattern.
fn indices_with<H>(routes: &Vec<Route<H>>, p: &String) -> (r: Vec<usize>)
    ensures
        r@.map_values(|i: usize| i as int) == routes_with_pattern(routes@, p@),
        forall|k: int| 0 <= k < r@.len() ==> (#[trigger] r@[k]) < routes@.len(),
{
    let mut r: Vec<usize> = Vec::new();
    let n = routes.len();
    let mut i: usize = 0;
    while i < n
        invariant
            n == routes@.len(),
            i <= n,
            r@.map_values(|i: usize| i as int) == routes_with_pattern(routes@.take(i as int), p@),
            forall|k: int| 0 <= k < r@.len() ==> (#[trigger] r@[k]) < i,
        decreases n - i,
    {
        proof {
            assert(routes@.take(i + 1).drop_last() =~= routes@.take(i as int));
            assert(routes@.take(i + 1).last() == routes@[i as int]);
        }
        let patterns = routes[i].patterns();
        let mut found = false;
        let m = patterns.len();
        let mut j: usize = 0;
        while j < m
            invariant
                m == patterns@.len(),
                j <= m,
                found == exists|k: int| 0 <= k < j && (#[trigger] patterns@[k])@ == p@,
            decreases m - j,
        {
            if patterns[j] == *p {
                found = true;
            }
            j = j + 1;
        }
        proof {
            assert(found == views(patterns@).contains(p@)) by {
                if found {
                    let k = choose|k: int| 0 <= k < m && (#[trigger] patterns@[k])@ == p@;
                    assert(views(patterns@)[k] == p@);
                }
                if views(patterns@).contains(p@) {
                    let k = choose|k: int| 0 <= k < views(patterns@).len() && views(patterns@)[k] == p@;
                    assert(patterns@[k]@ == p@);
                }
            }
        }
        if found {
            let ghost old_r = r@;
            r.push(i);
            proof {
                assert(r@.map_values(|i: usize| i as int) =~= old_r.map_values(|i: usize| i as int).push(i as int));
            }
        } else {
            assert(routes_with_pattern(routes@.take(i as int), p@) + Seq::<int>::empty() =~= routes_with_pattern(routes@.take(i as int), p@));
        }
        i = i + 1;
    }
    assert(routes@.take(n as int) =~= routes@);
    r
}

/// The endpoints to register for each path pattern of an API, in the order of first occurrence
/// of the patterns.
pub fn endpoint_plan<H>(api: &Api<H>) -> (r: Vec<PathEndpoints>)
    ensures
        r@.map_values(|e: PathEndpoints| e.path@) == first_occurrences(all_patterns(api.spec_routes())),
        forall|i: int|
            0 <= i < r@.len() ==> {
                let idxs = routes_with_pattern(api.spec_routes(), (#[trigger] r@[i]).path@);
                &&& match r@[i].socket {
                    Some(k) => first_of_kind(api.spec_routes(), idxs, "SOCKET"@) == Some(k as int),
                    None => first_of_kind(api.spec_routes(), idxs, "SOCKET"@) is None,
                }
                &&& match r@[i].metrics {
                    Some(k) => first_of_kind(api.spec_routes(), idxs, "METRICS"@) == Some(k as int),
                    None => first_of_kind(api.spec_routes(), idxs, "METRICS"@) is None,
                }
                &&& r@[i].http@.map_values(|k: usize| k as int) == http_indices(api.spec_routes(), idxs)
                &&& lists_http_routes(api.spec_routes(), r@[i].path@, r@[i].http@.map_values(|k: usize| k as int))
            },
{
    let by_path = api.routes_by_path();
    let routes = api.routes();
    let mut r: Vec<PathEndpoints> = Vec::new();
    let n = by_path.len();
    let mut t: usize = 0;
    while t < n
        invariant
            n == by_path@.len(),
            t <= n,
            routes@ == api.spec_routes(),
            r@.len() == t,
            forall|x: int| 0 <= x < t ==> (#[trigger] r@[x]).path@ == by_path@[x].0@,
            forall|i: int|
                0 <= i < t ==> {
                    let idxs = routes_with_pattern(api.spec_routes(), (#[trigger] r@[i]).path@);
                    &&& match r@[i].socket {
                        Some(k) => first_of_kind(api.spec_routes(), idxs, "SOCKET"@) == Some(k as int),
                        None => first_of_kind(api.spec_routes(), idxs, "SOCKET"@) is None,
                    }
                    &&& match r@[i].metrics {
                        Some(k) => first_of_kind(api.spec_routes(), idxs, "METRICS"@) == Some(k as int),
                        None => first_of_kind(api.spec_routes(), idxs, "METRICS"@) is None,
                    }
                    &&& r@[i].http@.map_values(|k: usize| k as int) == http_indices(api.spec_routes(), idxs)
                },
        decreases n - t,
    {
        let path = by_path[t].0.clone();
        let idxs = indices_with(routes, &path);
        let ghost iv = idxs@.map_values(|i: usize| i as int);
        let socket = first_kind(routes, &idxs, true);
        let metrics = first_kind(routes, &idxs, false);
        let http = http_of(routes, &idxs);
        r.push(PathEndpoints { path, socket, metrics, http });
        t = t + 1;
    }
    proof {
        assert forall|i: int| 0 <= i < r@.len() implies lists_http_routes(
            api.spec_routes(),
            (#[trigger] r@[i]).path@,
            r@[i].http@.map_values(|k: usize| k as int),
        ) by {
            law_plan_lists_every_http_route(api.spec_routes(), r@[i].path@);
        }
        assert(r@.map_values(|e: PathEndpoints| e.path@) =~= by_path@.map_values(
            |e: (String, Vec<String>)| e.0@,
        ));
    }
    r
}

/// The first of the given routes that is a socket route (or, if not `socket`, a metrics route).
fn first_kind<H>(routes: &Vec<Route<H>>, idxs: &Vec<usize>, socket: bool) -> (r: Option<usize>)
    requires
        forall|k: int| 0 <= k < idxs@.len() ==> (#[trigger] idxs@[k]) < routes@.len(),
    ensures
        ({
            let kind = if socket {
                "SOCKET"@
            } else {
                "METRICS"@
            };
            match r {
                Some(k) => first_of_kind(routes@, idxs@.map_values(|i: usize| i as int), kind) == Some(k as int),
                None => first_of_kind(routes@, idxs@.map_values(|i: usize| i as int), kind) is None,
            }
        }),
{
    let ghost kind = if socket {
        "SOCKET"@
    } else {
        "METRICS"@
    };
    let ghost iv = idxs@.map_values(|i: usize| i as int);
    let n = idxs.len();
    let mut j: usize = 0;
    proof {
        assert(iv.skip(0) =~= iv);
    }
    while j < n
        invariant
            n == idxs@.len(),
            j <= n,
            iv == idxs@.map_values(|i: usize| i as int),
            forall|k: int| 0 <= k < idxs@.len() ==> (#[trigger] idxs@[k]) < routes@.len(),
            first_of_kind(routes@, iv.skip(j as int), kind) == first_of_kind(routes@, iv, kind),
            kind == (if socket {
                "SOCKET"@
            } else {
                "METRICS"@
            }),
        decreases n - j,
    {
        let k = idxs[j];
        assert(iv.skip(j as int)[0] == k as int);
        assert(iv.skip(j as int).skip(1) =~= iv.skip(j + 1));
        let m = routes[k].method();
        let hit = if socket {
            match m {
                Method::Socket => true,
                _ => false,
            }
        } else {
            match m {
                Method::Metrics => true,
                _ => false,
            }
        };
        proof {
            reveal_strlit("SOCKET");
            reveal_strlit("METRICS");
        }
        if hit {
            return Some(k);
        }
        assert(socket ==> !(m is Socket));
        assert(socket ==> !(routes@[k as int].spec_method() is Socket));
        assert(!socket ==> !(routes@[k as int].spec_method() is Metrics));
        assert("SOCKET"@.len() == 6);
        assert("METRICS"@.len() == 7);
        assert(Method::Socket@ != "METRICS"@);
        assert(Method::Metrics@ != "SOCKET"@);
        assert(!(routes@[k as int].spec_method()@ == kind && !(routes@[k as int].spec_method() is Http)));
        j = j + 1;
    }
    None
}

/// The HTTP routes among the given routes, in order.
fn http_of<H>(routes: &Vec<Route<H>>, idxs: &Vec<usize>) -> (r: Vec<usize>)
    requires
        forall|k: int| 0 <= k < idxs@.len() ==> (#[trigger] idxs@[k]) < routes@.len(),
    ensures
        r@.map_values(|k: usize| k as int) == http_indices(routes@, idxs@.map_values(|i: usize| i as int)),
{
    let ghost iv = idxs@.map_values(|i: usize| i as int);
    let mut r: Vec<usize> = Vec::new();
    let n = idxs.len();
    let mut j: usize = 0;
    while j < n
        invariant
            n == idxs@.len(),
            j <= n,
            iv == idxs@.map_values(|i: usize| i as int),
            forall|k: int| 0 <= k < idxs@.len() ==> (#[trigger] idxs@[k]) < routes@.len(),
            r@.map_values(|k: usize| k as int) == http_indices(routes@, iv.take(j as int)),
        decreases n - j,
    {
        let k = idxs[j];
        proof {
            assert(iv.take(j + 1).drop_last() =~= iv.take(j as int));
            assert(iv.take(j + 1).last() == k as int);
        }
        if routes[k].method().is_http() {
            let ghost old_r = r@;
            r.push(k);
            proof {
                assert(r@.map_values(|k: usize| k as int) =~= old_r.map_values(|k: usize| k as int).push(k as int));
            }
        } else {
            assert(http_indices(routes@, iv.take(j as int)) + Seq::<int>::empty() =~= http_indices(routes@, iv.take(j as int)));
        }
        j = j + 1;
    }
    assert(iv.take(n as int) =~= iv);
    r
}

impl<S, H> App<S, H> {
    /// The version information of the app; `disco_version` is the version of the framework.
    pub fn version(&self, disco_version: Version) -> (r: AppVersion)
        ensures
            r.disco_version == disco_version,
            match self.spec_app_version() {
                Some(v) => r.app_version matches Some(w) && w.spec_text() == v.spec_text(),
                None => r.app_version is None,
            },
            crate::dispatch::well_ordered(self.spec_module_list()),
            r.modules@.len() == self.spec_module_list().len(),
            forall|i: int|
                0 <= i < r.modules@.len() ==> {
                    let m = self.spec_module_list()[i];
                    &&& (#[trigger] r.modules@[i]).0@ == join_with(m.key(), "/"@)
                    &&& r.modules@[i].1@.len() == m.versions@.len()
                    &&& forall|j: int|
                        0 <= j < m.versions@.len() ==> describes_version(
                            r.modules@[i].1@[j],
                            m.versions@[m.versions@.len() - 1 - j].1,
                        )
                    &&& forall|j: int, k: int|
                        0 <= j < k < m.versions@.len() ==> #[trigger] listed_major(m, j)
                            > #[trigger] listed_major(m, k)
                },
    {
        let modules = self.modules.iter();
        let mut out: Vec<(String, Vec<ApiVersion>)> = Vec::new();
        let n = modules.len();
        let mut i: usize = 0;
        while i < n
            invariant
                n == modules@.len(),
                modules@ == self.spec_module_list(),
                i <= n,
                out@.len() == i,
                forall|x: int|
                    0 <= x < i ==> {
                        let m = modules@[x];
                        &&& (#[trigger] out@[x]).0@ == join_with(m.key(), "/"@)
                        &&& out@[x].1@.len() == m.versions@.len()
                        &&& forall|j: int|
                            0 <= j < m.versions@.len() ==> describes_version(
                                out@[x].1@[j],
                                m.versions@[m.versions@.len() - 1 - j].1,
                            )
                    },
            decreases n - i,
        {
            let m = &modules[i];
            let mut versions: Vec<ApiVersion> = Vec::new();
            let k = m.versions.len();
            let mut j: usize = k;
            while j > 0
                invariant
                    k == m.versions@.len(),
                    j <= k,
                    versions@.len() == k - j,
                    forall|a: int|
                        0 <= a < versions@.len() ==> describes_version(
                            #[trigger] versions@[a],
                            m.versions@[k - 1 - a].1,
                        ),
                decreases j,
            {
                j = j - 1;
                versions.push(m.versions[j].1.version());
            }
            out.push((m.path(), versions));
            i = i + 1;
        }
        let app_version = match &self.app_version {
            Some(v) => Some(v.duplicate()),
            None => None,
        };
        AppVersion { modules: out, app_version, disco_version }
    }
}

/// A link, as a superscript, to the documentation of one version of the module at a path.
pub open spec fn version_link(path: Seq<char>, v: u64) -> Seq<char> {
    "<sup><a href=\""@ + html_escape("/v"@ + decimal(v as nat) + "/"@ + path) + "\">"@ + html_escape(
        "[v"@ + decimal(v as nat) + "]"@,
    ) + "</a></sup>"@
}

/// The links to the documentation of the given versions of the module at a path, in order.
pub open spec fn version_links(path: Seq<char>, vs: Seq<u64>) -> Seq<char>
    decreases vs.len(),
{
    if vs.len() == 0 {
        seq![]
    } else {
        version_links(path, vs.drop_last()) + version_link(path, vs.last())
    }
}

/// The item of a module in the list of an app's modules: a link to the documentation of its
/// latest version, links to that of each version from the latest down, and the short
/// description of its latest version.
pub open spec fn module_item<H>(m: Module<Api<H>>) -> Seq<char> {
    let path = join_with(m.key(), "/"@);
    "<li><a href=\""@ + html_escape("/"@ + path) + "\">"@ + html_escape(path) + "</a>"@
        + version_links(path, descending_versions(m)) + " "@ + m.versions@.last().1.spec_short_description()
        + "</li>"@
}

/// The items of a list of modules, in order.
pub open spec fn module_items<H>(ms: Seq<Module<Api<H>>>) -> Seq<char>
    decreases ms.len(),
{
    if ms.len() == 0 {
        seq![]
    } else {
        module_items(ms.drop_last()) + module_item(ms.last())
    }
}

/// The list of an app's modules, as HTML.
pub open spec fn api_list<H>(ms: Seq<Module<Api<H>>>) -> Seq<char> {
    "<ul>"@ + module_items(ms) + "</ul>"@
}

/// The documentation of an app as a whole: a line that introduces the list of its modules.
pub open spec fn app_docs<H>(ms: Seq<Module<Api<H>>>) -> Seq<char> {
    "<br></br>This is a Tide Disco app composed of the following modules:"@ + api_list(ms)
}

/// The page for a version that a module does not have: the versions it has, each a link to
/// its documentation, in the given order.
pub open spec fn unsupported_version_html(version: u64, supported: Seq<u64>, path: Seq<char>) -> Seq<char> {
    "Unsupported version v"@ + decimal(version as nat) + ". Supported versions are:<ul>"@
        + supported_items(supported, path) + "</ul>"@
}

/// The items of the list of supported versions of the module at a path.
pub open spec fn supported_items(vs: Seq<u64>, path: Seq<char>) -> Seq<char>
    decreases vs.len(),
{
    if vs.len() == 0 {
        seq![]
    } else {
        supported_items(vs.drop_last(), path) + "<li><a href=\""@ + html_escape(
            "/v"@ + decimal(vs.last() as nat) + "/"@ + path,
        ) + "\">v"@ + decimal(vs.last() as nat) + "</a></li>"@
    }
}

/// The page for a version that a module does not have.
pub fn unsupported_version_page(version: u64, supported: &Vec<u64>, path: &str) -> (r: String)
    ensures
        r@ == unsupported_version_html(version, supported@, path@),
{
    let mut items = String::new();
    let n = supported.len();
    let mut i: usize = 0;
    while i < n
        invariant
            n == supported@.len(),
            i <= n,
            items@ == supported_items(supported@.take(i as int), path@),
        decreases n - i,
    {
        let v = u64_to_string(supported[i]);
        let mut href = "/v".to_string();
        href.append(v.as_str());
        href.append("/");
        href.append(path);
        items.append("<li><a href=\"");
        items.append(escape_html(href.as_str()).as_str());
        items.append("\">v");
        items.append(v.as_str());
        items.append("</a></li>");
        proof {
            assert(supported@.take(i + 1).drop_last() =~= supported@.take(i as int));
            assert(supported@.take(i + 1).last() == supported@[i as int]);
        }
        i = i + 1;
    }
    assert(supported@.take(n as int) =~= supported@);
    let mut r = "Unsupported version v".to_string();
    r.append(u64_to_string(version).as_str());
    r.append(". Supported versions are:<ul>");
    r.append(items.as_str());
    r.append("</ul>");
    r
}

/// The item of a module in the list of an app's modules.
fn module_item_html<H>(m: &Module<Api<H>>) -> (r: String)
    requires
        m.wf(),
    ensures
        r@ == module_item(*m),
{
    let path = m.path();
    let mut href = "/".to_string();
    href.append(path.as_str());
    let mut r = "<li><a href=\"".to_string();
    r.append(escape_html(href.as_str()).as_str());
    r.append("\">");
    r.append(escape_html(path.as_str()).as_str());
    r.append("</a>");
    let ghost before = r@;
    let vs = versions_descending(m);
    let n = vs.len();
    let mut i: usize = 0;
    while i < n
        invariant
            n == vs@.len(),
            i <= n,
            r@ == before + version_links(path@, vs@.take(i as int)),
        decreases n - i,
    {
        let v = u64_to_string(vs[i]);
        let mut link = "/v".to_string();
        link.append(v.as_str());
        link.append("/");
        link.append(path.as_str());
        let mut label = "[v".to_string();
        label.append(v.as_str());
        label.append("]");
        r.append("<sup><a href=\"");
        r.append(escape_html(link.as_str()).as_str());
        r.append("\">");
        r.append(escape_html(label.as_str()).as_str());
        r.append("</a></sup>");
        proof {
            assert(vs@.take(i + 1).drop_last() =~= vs@.take(i as int));
            assert(vs@.take(i + 1).last() == vs@[i as int]);
        }
        i = i + 1;
    }
    assert(vs@.take(n as int) =~= vs@);
    r.append(" ");
    let k = m.versions.len();
    r.append(m.versions[k - 1].1.short_description());
    r.append("</li>");
    r
}

impl<S, H> App<S, H> {
    /// The list of the app's modules, as HTML.
    pub fn list_apis(&self) -> (r: String)
        ensures
            r@ == api_list(self.spec_module_list()),
    {
        let modules = self.modules.iter();
        let mut items = String::new();
        let n = modules.len();
        let mut i: usize = 0;
        while i < n
            invariant
                n == modules@.len(),
                modules@ == self.spec_module_list(),
                crate::dispatch::well_ordered(modules@),
                i <= n,
                items@ == module_items(modules@.take(i as int)),
            decreases n - i,
        {
            proof {
                assert(modules@[i as int].wf());
            }
            let item = module_item_html(&modules[i]);
            items.append(item.as_str());
            proof {
                assert(modules@.take(i + 1).drop_last() =~= modules@.take(i as int));
                assert(modules@.take(i + 1).last() == modules@[i as int]);
            }
            i = i + 1;
        }
        assert(modules@.take(n as int) =~= modules@);
        let mut r = "<ul>".to_string();
        r.append(items.as_str());
        r.append("</ul>");
        r
    }

    /// The documentation of the app as a whole.
    pub fn top_level_docs(&self) -> (r: String)
        ensures
            r@ == app_docs(self.spec_module_list()),
    {
        let mut r = "<br></br>This is a Tide Disco app composed of the following modules:".to_string();
        r.append(self.list_apis().as_str());
        r
    }

    /// The page served for an error in routing a request to a module: the message, then the
    /// documentation of the app.
    pub fn top_level_error(&self, message: &str) -> (r: String)
        ensures
            r@ == html_escape(message@) + app_docs(self.spec_module_list()),
    {
        let mut r = escape_html(message);
        r.append(self.top_level_docs().as_str());
        r
    }
}

} // verus!
