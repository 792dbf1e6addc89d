use tide_disco::api::Api;
use tide_disco::app::{App, AppError, AppHealth, VersionDecision};
use tide_disco::dispatch::DispatchError;
use tide_disco::healthcheck::{HealthCheck, HealthStatus};
use tide_disco::status::StatusCode;
use tide_disco::value::TomlValue;
use tide_disco::version::Version;

fn convert(v: &toml::Value) -> TomlValue {
    match v {
        toml::Value::String(s) => TomlValue::String(s.clone()),
        toml::Value::Integer(i) => TomlValue::Integer(*i),
        toml::Value::Float(f) => TomlValue::Float(f.to_string()),
        toml::Value::Boolean(b) => TomlValue::Boolean(*b),
        toml::Value::Datetime(d) => TomlValue::Datetime(d.to_string()),
        toml::Value::Array(a) => TomlValue::Array(a.iter().map(convert).collect()),
        toml::Value::Table(t) => TomlValue::Table(t.iter().map(|(k, v)| (k.clone(), convert(v))).collect()),
    }
}

fn api(version: Option<Version>) -> Api<u8> {
    let spec = convert(&"[route.test]\nPATH = [\"/test\"]".parse::<toml::Value>().unwrap());
    let mut api = Api::new(&spec).unwrap();
    if let Some(v) = version {
        api.with_version(v);
    }
    api
}

fn path(p: &str) -> Option<Vec<String>> {
    Some(p.split('/').map(|s| s.to_string()).collect())
}

#[test]
fn versions_are_served_and_redirected() {
    let mut app: App<(), u8> = App::with_state(());
    app.register_module("mod", api(Some(Version::new(1, 0, 0)))).unwrap();
    app.register_module("mod", api(Some(Version::new(3, 0, 0)))).unwrap();
    assert_eq!(app.version_decision(path("v1/mod/test")), VersionDecision::Continue);
    assert_eq!(
        app.version_decision(path("v2/mod/test")),
        VersionDecision::UnsupportedVersion { version: 2, supported: vec![3, 1], path: "mod".to_string() }
    );
    assert_eq!(
        app.version_decision(path("mod/test")),
        VersionDecision::Redirect { location: "/v3/mod/test".to_string() }
    );
    assert_eq!(
        app.version_decision(path("other/test")),
        VersionDecision::NotFound { message: "No API matches /other/test".to_string() }
    );
    assert_eq!(
        app.version_decision(path("v1/other")),
        VersionDecision::NotFound { message: "No API matches /other".to_string() }
    );
    assert_eq!(app.version_decision(path("version")), VersionDecision::Continue);
    assert_eq!(app.version_decision(path("healthcheck")), VersionDecision::Continue);
    assert_eq!(app.version_decision(path("")), VersionDecision::Continue);
    assert_eq!(app.version_decision(None), VersionDecision::Continue);
    // The same version twice is refused.
    assert_eq!(
        app.register_module("mod", api(Some(Version::new(1, 5, 0)))).unwrap_err(),
        AppError::Dispatch {
            source: DispatchError::ModuleAlreadyExists { prefix: "mod".to_string(), version: 1 }
        }
    );
}

#[test]
fn singleton_app_redirects_its_own_endpoints() {
    let mut app: App<(), u8> = App::with_state(());
    app.register_module("", api(None)).unwrap();
    assert_eq!(
        app.version_decision(path("version")),
        VersionDecision::Redirect { location: "/v0/version".to_string() }
    );
    assert_eq!(app.version_decision(path("v0/test")), VersionDecision::Continue);
    assert!(app.is_singleton());
    let mut other: App<(), u8> = App::with_state(());
    assert!(!other.is_singleton());
    other.register_module("mod", api(None)).unwrap();
    assert!(!other.is_singleton());
}

#[test]
fn module_health_picks_the_version() {
    let mut app: App<(), u8> = App::with_state(());
    app.register_module("api/a", api(Some(Version::new(1, 0, 0)))).unwrap();
    app.register_module("api/a", api(Some(Version::new(2, 0, 0)))).unwrap();
    assert_eq!(app.module_health("api/a", None).unwrap().version().api_version.unwrap().major, 2);
    assert_eq!(app.module_health("api/a", Some(1)).unwrap().version().api_version.unwrap().major, 1);
    assert!(app.module_health("api/a", Some(3)).is_none());
    assert!(app.module_health("api/b", None).is_none());
    let v = app.version(Version::new(0, 4, 0));
    assert_eq!(v.modules.len(), 1);
    assert_eq!(v.modules[0].0, "api/a");
    let majors: Vec<u64> = v.modules[0].1.iter().map(|a| a.api_version.as_ref().unwrap().major).collect();
    assert_eq!(majors, vec![2, 1]);
    assert_eq!(v.disco_version.to_string(), "0.4.0");
}

#[test]
fn health_is_available_only_when_every_module_is() {
    let ok = AppHealth::from_statuses(vec![("a".to_string(), vec![(0, StatusCode::OK), (1, StatusCode::OK)])]);
    assert_eq!(ok.status, HealthStatus::Available);
    let bad = AppHealth::from_statuses(vec![
        ("a".to_string(), vec![(0, StatusCode::OK)]),
        ("b".to_string(), vec![(1, StatusCode::ServiceUnavailable)]),
    ]);
    assert_eq!(bad.status, HealthStatus::Unhealthy);
    assert_eq!(AppHealth::from_statuses(vec![]).status, HealthStatus::Available);
    assert_eq!(HealthCheck::status(&ok), StatusCode::OK);
    assert_eq!(HealthCheck::status(&bad), StatusCode::ServiceUnavailable);
    assert_eq!(tide_disco::api::meta_defaults::format_version().to_string(), "0.1.0");
}

fn described_api(major: u64) -> Api<u8> {
    let text = "[meta]\nDESCRIPTION = \"Sleds & <skis>\"\n[route.test]\nPATH = [\"/test\"]";
    let spec = convert(&text.parse::<toml::Value>().unwrap());
    let mut api = Api::new(&spec).unwrap();
    api.with_version(Version::new(major, 0, 0));
    api
}

#[test]
fn module_list_links_every_version() {
    let mut app: App<(), u8> = App::with_state(());
    app.register_module("a/b", described_api(1)).unwrap();
    app.register_module("a/b", described_api(2)).unwrap();
    app.register_module("c", api(None)).unwrap();
    let desc = described_api(1).short_description().to_string();
    let expected = format!(
        "<ul><li><a href=\"/a/b\">a/b</a><sup><a href=\"/v2/a/b\">[v2]</a></sup><sup><a href=\"/v1/a/b\">[v1]</a></sup> {}</li>\
         <li><a href=\"/c\">c</a><sup><a href=\"/v0/c\">[v0]</a></sup> {}</li></ul>",
        desc,
        api(None).short_description()
    );
    assert_eq!(app.list_apis(), expected);
    let docs = format!("<br></br>This is a Tide Disco app composed of the following modules:{}", expected);
    assert_eq!(app.top_level_docs(), docs);
    assert_eq!(app.top_level_error("No API matches /x<y>"), format!("No API matches /x&lt;y&gt;{}", docs));
}

#[test]
fn unsupported_version_lists_the_others() {
    assert_eq!(
        tide_disco::app::unsupported_version_page(5, &vec![3, 1], "a&b"),
        "Unsupported version v5. Supported versions are:<ul><li><a href=\"/v3/a&amp;b\">v3</a></li>\
         <li><a href=\"/v1/a&amp;b\">v1</a></li></ul>"
    );
}

#[test]
fn html_text_is_escaped() {
    assert_eq!(tide_disco::html::escape_html("a<b>&\"c'"), "a&lt;b&gt;&amp;&quot;c'");
    assert_eq!(tide_disco::html::escape_html(""), "");
}

#[test]
fn test_api_prefix_conflicts() {
    for (api1, api2) in [("", "api"), ("api", ""), ("path", "path/sub"), ("path/sub", "path")] {
        let mut app: App<(), u8> = App::with_state(());
        app.register_module(api1, api(None)).unwrap();
        let (shorter, longer) = if api1.len() < api2.len() { (api1, api2) } else { (api2, api1) };
        assert_eq!(
            app.register_module(api2, api(None)).unwrap_err(),
            AppError::Dispatch {
                source: DispatchError::ConflictingModules {
                    prefix: shorter.to_string(),
                    conflict: longer.to_string()
                }
            }
        );
    }
}

#[test]
fn public_directories_by_version() {
    assert_eq!(tide_disco::app::public_base_path(&["a".to_string(), "b".to_string()], 2), "/public/v2/a/b");
    assert_eq!(tide_disco::app::public_base_path(&[], 0), "/public/v0");
}
