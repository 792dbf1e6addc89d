use tide_disco::disco::{check_api, get_first_segment, load_api_text, router_entries, DiscoKey, LoadApiError, UrlSegment};
use tide_disco::error::{Error, ServerError, SocketError};
use tide_disco::healthcheck::{health_format, HealthCheck, HealthStatus};
use tide_disco::listener::{is_transient_error, IoErrorKind, RateLimitListener};
use tide_disco::method::{method_is_mutable, HttpMethod, Method};
use tide_disco::middleware::MetricsMiddleware;
use tide_disco::request::{Accept, BodyFormat, Mime, RequestError};
use tide_disco::route::RouteError;
use tide_disco::status::StatusCode;
use tide_disco::text::replace_str;
use tide_disco::value::TomlValue;
use tide_disco::version::Version;

fn convert(v: &toml::Value) -> TomlValue {
    match v {
        toml::Value::String(s) => TomlValue::String(s.clone()),
        toml::Value::Integer(i) => TomlValue::Integer(*i),
        toml::Value::Float(f) => TomlValue::Float(f.to_string()),
        toml::Value::Boolean(b) => TomlValue::Boolean(*b),
        toml::Value::Datetime(d) => TomlValue::Datetime(d.to_string()),
        toml::Value::Array(a) => TomlValue::Array(a.iter().map(convert).collect()),
        toml::Value::Table(t) => TomlValue::Table(t.iter().map(|(k, v)| (k.clone(), convert(v))).collect()),
    }
}

fn spec(text: &str) -> TomlValue {
    convert(&text.parse::<toml::Value>().unwrap())
}

#[test]
fn first_segment_of_paths() {
    assert_eq!(get_first_segment("/foo/bar"), "foo");
    assert_eq!(get_first_segment("first/second"), "first");
    assert_eq!(get_first_segment("//x"), "x");
    assert_eq!(get_first_segment("//"), "");
    assert_eq!(get_first_segment("single"), "single");
}

#[test]
fn check_api_counts_route_errors() {
    let good = spec("[route.a]\nPATH = [\"/a/:n\"]\n\":n\" = \"Integer\"\nMETHOD = \"GET\"\nDOC = \"d\"");
    assert!(check_api(&good));
    let no_doc = spec("[route.a]\nPATH = [\"/a\"]\nMETHOD = \"POST\"");
    assert!(!check_api(&no_doc));
    let no_method = spec("[route.a]\nPATH = [\"/a\"]\nDOC = \"d\"");
    assert!(!check_api(&no_method));
    let put = spec("[route.a]\nPATH = [\"/a\"]\nMETHOD = \"PUT\"\nDOC = \"d\"");
    assert!(!check_api(&put));
    let bad_type = spec("[route.a]\nPATH = [\"/a/:n\"]\n\":n\" = \"Float\"\nMETHOD = \"GET\"\nDOC = \"d\"");
    assert!(!check_api(&bad_type));
    let untyped = spec("[route.a]\nPATH = [\"/a/:n\"]\nMETHOD = \"GET\"\nDOC = \"d\"");
    assert!(!check_api(&untyped));
    let not_array = spec("[route.a]\nPATH = \"/a\"\nMETHOD = \"GET\"\nDOC = \"d\"");
    assert!(!check_api(&not_array));
    assert!(check_api(&spec("route = 1")));
    let no_path = spec("[route.a]\nMETHOD = \"GET\"\nDOC = \"d\"");
    assert!(!tide_disco::disco::check_would_abort(&no_path));
    assert!(!check_api(&no_path));
}

#[test]
fn router_entries_number_paths_from_one() {
    let api = spec("[route.a]\nPATH = [\"/a\", \"/a/b\"]\n[route.b]\nPATH = [\"/b\"]");
    assert_eq!(
        router_entries(&api),
        vec![("/a".to_string(), 1), ("/a/b".to_string(), 2), ("/b".to_string(), 3)]
    );
}

#[test]
fn url_segments() {
    assert!(UrlSegment::new("ff", UrlSegment::Hexadecimal(None)).is_bound());
    assert!(matches!(UrlSegment::new("ff", UrlSegment::Hexadecimal(None)), UrlSegment::Hexadecimal(Some(255))));
    assert!(!UrlSegment::new("ff", UrlSegment::Integer(None)).is_bound());
    assert!(matches!(UrlSegment::new("true", UrlSegment::Boolean(None)), UrlSegment::Boolean(Some(true))));
    assert!(matches!(UrlSegment::new("x", UrlSegment::Literal(None)), UrlSegment::Literal(Some(ref s)) if s == "x"));
    assert!(!UrlSegment::new("x", UrlSegment::TaggedBase64(None)).is_bound());
    assert!(matches!(UrlSegment::from_str("Integer"), Some(UrlSegment::Integer(None))));
    assert!(UrlSegment::from_str("Float").is_none());
    assert_eq!(DiscoKey::base_url.as_ref(), "base_url");
    assert_eq!(tide_disco::disco::HealthStatus::Stopping.to_string(), "Stopping");
}

#[test]
fn methods() {
    assert_eq!(Method::from_str("get").unwrap().to_string(), "GET");
    assert!(Method::from_str("SOCKET").unwrap().same(&Method::socket()));
    assert!(Method::from_str("FETCH").is_err());
    assert!(!Method::get().is_mutable());
    assert!(Method::post().is_mutable());
    assert!(Method::socket().is_mutable());
    assert!(!Method::metrics().is_mutable());
    assert!(method_is_mutable(&HttpMethod::parse("DELETE").unwrap()));
    assert!(!method_is_mutable(&HttpMethod::parse("HEAD").unwrap()));
}

#[test]
fn versions() {
    let v = Version::parse("1.2.3-alpha.1+build.5").unwrap();
    assert_eq!((v.major, v.minor, v.patch), (1, 2, 3));
    assert_eq!(v.to_string(), "1.2.3-alpha.1+build.5");
    assert_eq!(v.to_string(), semver::Version::parse("1.2.3-alpha.1+build.5").unwrap().to_string());
    assert!(Version::parse("1.2").is_err());
    assert_eq!(Version::new(0, 1, 0).to_string(), "0.1.0");
}

#[test]
fn errors_and_statuses() {
    let e = ServerError::catch_all(StatusCode::NotFound, "gone".to_string());
    assert_eq!(e.to_string(), "Error 404: gone");
    assert_eq!(e.status(), StatusCode::NotFound);
    assert_eq!(Error::message(&e), "gone");
    let io = ServerError::from_io_error("disk".to_string());
    assert_eq!((io.status, io.message.as_str()), (StatusCode::InternalServerError, "disk"));
    let r: RouteError<String> = RouteError::Request(RequestError::Json);
    assert_eq!(r.status(), StatusCode::BadRequest);
    assert_eq!(r.message("app"), "Unable to deserialize from JSON");
    let from = ServerError::from_route_error(RouteError::<String>::AppSpecific("x".to_string()), "app text");
    assert_eq!(from.status, StatusCode::InternalServerError);
    assert_eq!(from.message, "app text");
    let incorrect: RouteError<()> = RouteError::IncorrectMethod { expected: Method::post() };
    assert_eq!(incorrect.message(""), "route may only be called as POST");
    let mapped = RouteError::<u8>::AppSpecific(3).map_app_specific(|x| x as u32 + 1);
    assert!(matches!(mapped, RouteError::AppSpecific(4)));
    let s: SocketError<()> = SocketError::IncorrectMethod { expected: Method::socket(), actual: Method::get() };
    assert_eq!(s.status(), StatusCode::BadRequest);
    assert_eq!(s.message(""), "endpoint must be called as SOCKET, but was called as GET");
    assert_eq!(SocketError::<()>::Closed.status(), StatusCode::InternalServerError);
    let req = ServerError::from_request_error(RequestError::UnsupportedContentType);
    assert_eq!(req.status, StatusCode::BadRequest);
    assert_eq!(req.message, "Content type not specified or type not supported");
}

#[test]
fn health_statuses() {
    assert_eq!(HealthStatus::Available.status(), StatusCode::OK);
    assert_eq!(HealthStatus::Initializing.status(), StatusCode::OK);
    assert_eq!(HealthStatus::ShuttingDown.status(), StatusCode::OK);
    assert_eq!(HealthStatus::Unhealthy.status(), StatusCode::ServiceUnavailable);
    assert_eq!(HealthStatus::default(), HealthStatus::Available);
}

#[test]
fn listener_decisions() {
    assert!(is_transient_error(IoErrorKind::ConnectionReset));
    assert!(!is_transient_error(IoErrorKind::Other));
    let l = RateLimitListener::with_port(8080, 2);
    assert_eq!(l.to_string(), "http://0.0.0.0:8080");
    assert_eq!(l.accept_status(1), None);
    assert_eq!(l.accept_status(2), Some(StatusCode::TooManyRequests));
}

#[test]
fn metrics_requests_ask_for_plain_text() {
    let m = MetricsMiddleware::new("metrics".to_string(), "mod".to_string(), 0);
    let text = Accept { wildcard: false, proposals: vec![Mime::plain()] };
    let json = Accept { wildcard: false, proposals: vec![Mime::json()] };
    assert_eq!(m.is_metrics_request(&Method::get(), Ok(text.clone())).unwrap(), true);
    assert_eq!(m.is_metrics_request(&Method::get(), Ok(json.clone())).unwrap(), false);
    assert_eq!(m.is_metrics_request(&Method::post(), Ok(text.clone())).unwrap(), false);
    let none = Accept { wildcard: false, proposals: vec![] };
    assert!(m.is_metrics_request(&Method::get(), Ok(none.clone())).is_err());
    assert!(matches!(m.is_metrics_request(&Method::get(), Err(RequestError::Json)), Err(RequestError::Json)));
    assert_eq!(m.is_metrics_request(&Method::post(), Err(RequestError::Json)).unwrap(), false);
}

#[test]
fn replace_is_left_to_right() {
    assert_eq!(replace_str("{{A}}-{{A}}", "{{A}}", "x"), "x-x");
    assert_eq!(replace_str("aaa", "aa", "b"), "ba");
    assert_eq!(replace_str("none", "{{A}}", "x"), "none");
}

#[test]
fn configured_router_finds_each_path() {
    let api = spec("[route.a]\nPATH = [\"/a\", \"/a/:n\"]\n[route.b]\nPATH = [\"/b\"]");
    let router = tide_disco::disco::configure_router(&api);
    assert_eq!(router.best_match("/a").map(|m| *m.handler()), Some(1));
    assert_eq!(router.best_match("/a/7").map(|m| *m.handler()), Some(2));
    assert_eq!(router.best_match("/b").map(|m| *m.handler()), Some(3));
    assert!(router.best_match("/c").is_none());
    let checked = tide_disco::disco::try_configure_router(&api).unwrap();
    assert_eq!(checked.best_match("/b").map(|m| *m.handler()), Some(3));
}

#[test]
fn router_refuses_an_unnamed_parameter() {
    let api = spec("[route.a]\nPATH = [\"/a\", \"/a/:\"]");
    assert!(tide_disco::disco::try_configure_router(&api).is_none());
    let api = spec("[route.a]\nPATH = [\"/a/*rest\"]");
    assert!(tide_disco::disco::try_configure_router(&api).is_none());
}

#[test]
fn route_texts_that_read() {
    assert!(tide_disco::disco::route_reads("/a/:n/*"));
    assert!(!tide_disco::disco::route_reads("/a/:"));
    assert!(!tide_disco::disco::route_reads("/a/*rest"));
}

#[test]
fn health_checks_always_answer() {
    let bin = Accept { wildcard: false, proposals: vec![Mime::byte_stream()] };
    assert!(matches!(health_format(&Ok(bin)), Ok(BodyFormat::Binary)));
    let text = Accept { wildcard: false, proposals: vec![Mime::plain()] };
    assert!(matches!(health_format(&Ok(text)), Err(RequestError::UnsupportedContentType)));
    assert!(matches!(health_format(&Err(RequestError::Json)), Ok(BodyFormat::Json)));
}

#[test]
fn configuration_file_starts_with_the_defaults() {
    let defaults = vec![("api_toml".to_string(), "api/api.toml".to_string()), ("port".to_string(), "80".to_string())];
    assert_eq!(
        tide_disco::disco::default_config_text("rocket-sleds", &defaults),
        "# rocket-sleds configuration\n\n# Note: keys must be lower case.\n\napi_toml = \"api/api.toml\"\nport = \"80\"\n"
    );
    assert_eq!(
        tide_disco::disco::default_config_text("x", &vec![]),
        "# x configuration\n\n# Note: keys must be lower case.\n\n"
    );
    assert_eq!(tide_disco::disco::env_var_prefix("rocket-sleds-v2"), "rocket_sleds_v2");
    assert_eq!(tide_disco::disco::env_var_prefix("plain"), "plain");
}

#[test]
fn method_text_parses_back() {
    for m in [Method::get(), Method::post(), Method::put(), Method::delete(), Method::socket(), Method::metrics()] {
        let back = Method::from_str(&m.to_string()).unwrap();
        assert_eq!(back, m);
        assert_eq!(back.is_http(), m.is_http());
    }
    let patch = Method::from_str("patch").unwrap();
    assert_eq!(patch.to_string(), "PATCH");
    assert_eq!(Method::from_str(&patch.to_string()).unwrap(), patch);
    assert!(Method::from_str("FOO").is_err());
}

#[test]
fn test_rate_limiting_counts() {
    let limit = 10;
    let mut gate = tide_disco::listener::InFlight::new(&RateLimitListener::with_port(8080, limit));
    for _ in 0..limit {
        assert_eq!(gate.enter(), None);
    }
    assert_eq!(gate.count(), limit);
    assert_eq!(gate.enter(), Some(StatusCode::TooManyRequests));
    assert_eq!(gate.count(), limit);
    gate.finish();
    assert_eq!(gate.enter(), None);
    assert_eq!(gate.count(), limit);
}

#[test]
fn load_api_text_checks_the_specification() {
    let good = "[route.r]\nPATH = [\"/r\"]\nMETHOD = \"GET\"\nDOC = \"A route.\"";
    assert!(load_api_text(good).is_ok());
    assert!(matches!(load_api_text("[route"), Err(LoadApiError::Unparsable)));
    assert!(matches!(load_api_text("[route.r]\nPATH = [\"/r\"]"), Err(LoadApiError::HasErrors)));
    assert!(matches!(load_api_text("x = 1"), Err(LoadApiError::HasErrors)));
}

#[test]
fn http_method_names_in_any_case() {
    assert_eq!(Method::from_str("get").unwrap(), Method::get());
    assert_eq!(Method::from_str("Post").unwrap(), Method::post());
    assert!(Method::from_str("GETS").is_err());
    assert!(Method::from_str("socket").is_err());
}
