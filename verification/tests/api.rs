use tide_disco::api::{meta_defaults, Api, ApiError, ApiFailure, ApiMetadata};
use tide_disco::method::Method;
use tide_disco::request::RequestParamType;
use tide_disco::route::{Route, RouteFailure, RouteParseError};
use tide_disco::value::TomlValue;
use tide_disco::version::Version;

fn convert(v: &toml::Value) -> TomlValue {
    match v {
        toml::Value::String(s) => TomlValue::String(s.clone()),
        toml::Value::Integer(i) => TomlValue::Integer(*i),
        toml::Value::Float(f) => TomlValue::Float(f.to_string()),
        toml::Value::Boolean(b) => TomlValue::Boolean(*b),
        toml::Value::Datetime(d) => TomlValue::Datetime(d.to_string()),
        toml::Value::Array(a) => TomlValue::Array(a.iter().map(convert).collect()),
        toml::Value::Table(t) => TomlValue::Table(t.iter().map(|(k, v)| (k.clone(), convert(v))).collect()),
    }
}

fn spec(text: &str) -> TomlValue {
    convert(&text.parse::<toml::Value>().unwrap())
}

fn route(text: &str) -> Result<Route<u32>, RouteParseError> {
    Route::new("r".to_string(), &spec(text), ApiMetadata::default())
}

#[test]
fn route_reads_paths_params_method_and_doc() {
    let r = route(
        r#"
        PATH = ["/a/:x", "/b/:y/:x"]
        ":x" = "Integer"
        ":y" = "Boolean"
        METHOD = "post"
        "#,
    )
    .unwrap();
    assert_eq!(r.name(), "r");
    assert_eq!(*r.patterns(), vec!["/a/:x".to_string(), "/b/:y/:x".to_string()]);
    let params: Vec<(String, RequestParamType)> =
        r.params().iter().map(|p| (p.name.clone(), p.param_type)).collect();
    assert_eq!(
        params,
        vec![("x".to_string(), RequestParamType::Integer), ("y".to_string(), RequestParamType::Boolean)]
    );
    assert!(r.params().iter().all(|p| p.required));
    assert_eq!(r.method().to_string(), "POST");
    assert!(r.method().is_http());
    assert!(!r.has_handler());
}

#[test]
fn route_errors_in_order() {
    assert_eq!(route(r#"PATH = "/a""#).unwrap_err(), RouteParseError::MissingPathArray);
    assert_eq!(
        route(r#"PATH = ["/a/:x"]
        ":x" = 3"#).unwrap_err(),
        RouteParseError::InvalidTypeExpression
    );
    assert_eq!(
        route(r#"PATH = ["/a/:x"]
        ":x" = "Float""#).unwrap_err(),
        RouteParseError::UnrecognizedType
    );
    assert_eq!(route(r#"PATH = ["/a"]
        METHOD = 1"#).unwrap_err(), RouteParseError::MethodMustBeString);
    assert_eq!(route(r#"PATH = ["/a"]
        METHOD = "FETCH""#).unwrap_err(), RouteParseError::InvalidMethod);
    assert_eq!(route(r#"PATH = ["/a"]
        DOC = 5"#).unwrap_err(), RouteParseError::IncorrectDocType);
    // An unknown method is reported before a bad document.
    assert_eq!(route(r#"PATH = ["/a"]
        METHOD = "FETCH"
        DOC = 5"#).unwrap_err(), RouteParseError::InvalidMethod);
}

#[test]
fn malformed_routes_are_refused() {
    let parse = |text: &str| Route::<u32>::parse("r".to_string(), &spec(text), ApiMetadata::default());
    assert!(matches!(parse(r#"METHOD = "GET""#), Err(RouteFailure::Malformed)));
    assert!(matches!(parse(r#"PATH = [1]"#), Err(RouteFailure::Malformed)));
    assert!(matches!(parse(r#"PATH = ["/:x"]"#), Err(RouteFailure::Malformed)));
    assert!(matches!(parse(r#"PATH = "/x""#), Err(RouteFailure::Invalid(RouteParseError::MissingPathArray))));
}

#[test]
fn socket_and_metrics_routes() {
    let s = route(r#"PATH = ["/s"]
        METHOD = "SOCKET""#).unwrap();
    assert!(s.method().same(&Method::socket()));
    assert!(!s.method().is_http());
    let m = route(r#"PATH = ["/m"]
        METHOD = "METRICS""#).unwrap();
    assert_eq!(m.method().to_string(), "METRICS");
}

#[test]
fn route_handlers_bind_by_kind() {
    let mut r = route(r#"PATH = ["/a"]"#).unwrap();
    assert!(r.set_socket_handler::<()>(1).is_err());
    assert!(!r.has_handler());
    r.set_handler::<()>(2).unwrap();
    assert_eq!(r.handler(), Some(&2));
    assert!(matches!(r.handle::<()>(), Ok(Some(&2))));
    let mapped = r.map_err(|h| h * 10);
    assert_eq!(mapped.handler(), Some(&20));
    let s = route(r#"PATH = ["/s"]
        METHOD = "SOCKET""#).unwrap();
    assert!(s.handle::<()>().is_err());
}

#[test]
fn route_documentation_fills_in_the_templates() {
    let r = route(
        r#"
        PATH = ["/a/:x"]
        ":x" = "Integer"
        DOC = "Gets *x*."
        "#,
    )
    .unwrap();
    let doc = r.documentation();
    let expected = format!(
        "{}{}{}{}{}{}{}{}{}",
        meta_defaults::heading_entry().replace("{{METHOD}}", "GET").replace("{{NAME}}", "r"),
        meta_defaults::heading_routes(),
        meta_defaults::route_path().replace("{{PATH}}", "/default-tide-disco-api//a/:x"),
        meta_defaults::heading_parameters(),
        meta_defaults::parameter_table_open(),
        meta_defaults::parameter_row().replace("{{NAME}}", "x").replace("{{TYPE}}", "Integer"),
        meta_defaults::parameter_table_close(),
        meta_defaults::heading_description(),
        markdown::to_html("Gets *x*."),
    );
    assert_eq!(doc, expected);
    let bare = route(r#"PATH = ["/b"]"#).unwrap().documentation();
    assert!(bare.contains(&meta_defaults::parameter_none()));
}

const API: &str = r#"
[meta]
NAME = "test-api"
DESCRIPTION = "Short *one*.\n\nLong part."
FORMAT_VERSION = "0.2.0"

[route.get_a]
PATH = ["/a"]

[route.post_a]
PATH = ["/a"]
METHOD = "POST"

[route.sock]
PATH = ["/s"]
METHOD = "SOCKET"

[route.metrics]
PATH = ["/a"]
METHOD = "METRICS"
"#;

/// The short description as the first block of the description renders, with the paragraph
/// tags taken off where they open and close the text.
fn expected_short() -> String {
    let html = markdown::to_html("Short *one*.");
    let s = html.strip_prefix("<p>").unwrap_or(&html);
    let s = s.strip_suffix("</p>").unwrap_or(s);
    s.to_string()
}

fn api() -> Api<&'static str> {
    Api::new(&spec(API)).unwrap()
}

#[test]
fn api_reads_metadata_and_descriptions() {
    let a = api();
    assert_eq!(a.version().spec_version.to_string(), "0.2.0");
    assert!(a.version().api_version.is_none());
    assert_eq!(a.short_description(), expected_short());
    assert_eq!(a.routes().len(), 4);
    let by_path = a.routes_by_path();
    assert_eq!(
        by_path,
        vec![
            ("/a".to_string(), vec!["get_a".to_string(), "metrics".to_string(), "post_a".to_string()]),
            ("/s".to_string(), vec!["sock".to_string()]),
        ]
    );
}

#[test]
fn api_errors() {
    assert_eq!(Api::<u8>::new(&TomlValue::Integer(1)).unwrap_err(), ApiError::ApiMustBeTable);
    assert_eq!(Api::<u8>::new(&spec("[meta]\nNAME = \"x\"")).unwrap_err(), ApiError::MissingRoutesTable);
    assert_eq!(Api::<u8>::new(&spec("route = 3")).unwrap_err(), ApiError::RoutesMustBeTable);
    assert_eq!(
        Api::<u8>::new(&spec("[route.x]\nPATH = \"/x\"")).unwrap_err(),
        ApiError::Route { source: RouteParseError::MissingPathArray }
    );
    match Api::<u8>::new(&spec("[meta]\nNAME = 1\n[route.x]\nPATH = [\"/x\"]")).unwrap_err() {
        ApiError::InvalidMetaTable { reason } => assert_eq!(reason, "invalid value for key NAME"),
        e => panic!("unexpected {:?}", e),
    }
    match Api::<u8>::new(&spec("[meta]\nFORMAT_VERSION = \"x.y\"\n[route.x]\nPATH = [\"/x\"]")).unwrap_err() {
        ApiError::InvalidMetaTable { reason } => assert_eq!(reason, "invalid value for key FORMAT_VERSION"),
        e => panic!("unexpected {:?}", e),
    }
    match Api::<u8>::new(&spec("[route.x]\nPATH = [\"/x\"]\n[route.y]\nPATH = [\"/x\"]")).unwrap_err() {
        ApiError::AmbiguousRoutes { route1, route2 } => {
            assert_eq!(route1, "y");
            assert_eq!(route2, "x");
        }
        e => panic!("unexpected {:?}", e),
    }
    // The same path with different methods is fine.
    assert!(Api::<u8>::new(&spec("[route.x]\nPATH = [\"/x\"]\n[route.y]\nPATH = [\"/x\"]\nMETHOD = \"PUT\"")).is_ok());
    // A route that lists a path twice is ambiguous with itself.
    assert!(matches!(
        Api::<u8>::new(&spec("[route.x]\nPATH = [\"/x\", \"/x\"]")).unwrap_err(),
        ApiError::AmbiguousRoutes { .. }
    ));
    assert!(matches!(
        Api::<u8>::parse(&spec("[route.x]\nPATH = [\"/:p\"]")),
        Err(ApiFailure::Malformed)
    ));
}

#[test]
fn handlers_are_registered_once_and_by_method() {
    let mut a = api();
    assert_eq!(a.get("nope", "h").unwrap_err(), ApiError::UndefinedRoute);
    match a.get("post_a", "h").unwrap_err() {
        ApiError::IncorrectMethod { expected, actual } => {
            assert_eq!(expected.to_string(), "GET");
            assert_eq!(actual.to_string(), "POST");
        }
        e => panic!("unexpected {:?}", e),
    }
    a.get("get_a", "g").unwrap();
    assert_eq!(a.get("get_a", "g2").unwrap_err(), ApiError::HandlerAlreadyRegistered);
    assert_eq!(a.at("get_a", "g3").unwrap_err(), ApiError::HandlerAlreadyRegistered);
    match a.at("sock", "s").unwrap_err() {
        ApiError::IncorrectMethod { expected, actual } => {
            assert_eq!(expected.to_string(), "GET");
            assert_eq!(actual.to_string(), "SOCKET");
        }
        e => panic!("unexpected {:?}", e),
    }
    a.socket("sock", "s").unwrap();
    a.metrics("metrics", "m").unwrap();
    a.post("post_a", "p").unwrap();
    assert_eq!(a.route("get_a").unwrap().handler(), Some(&"g"));
    assert_eq!(a.route("sock").unwrap().handler(), Some(&"s"));
    assert_eq!(a.index("post_a").handler(), Some(&"p"));
    let mapped = a.map_err(|h| h.len());
    assert_eq!(mapped.route("get_a").unwrap().handler(), Some(&1));
}

#[test]
fn api_documentation_fills_in_the_top() {
    let mut a = api();
    a.with_version(Version::new(1, 2, 3));
    a.set_name("renamed".to_string());
    let doc = a.documentation();
    assert!(doc.contains("<title>renamed Reference</title>"));
    assert!(doc.contains("renamed API 1.2.3 Reference"));
    assert!(doc.contains("/public/renamed/css/style.css"));
    assert!(doc.contains(&format!("<p>{}</p><br/>", expected_short())));
    assert!(doc.ends_with(&meta_defaults::html_bottom()));
    let v = a.version();
    assert_eq!(v.api_version.unwrap().to_string(), "1.2.3");
}

#[test]
fn default_metadata() {
    let m = ApiMetadata::default();
    assert_eq!(m.name, "default-tide-disco-api");
    assert_eq!(m.description, "Default Tide Disco API");
    assert_eq!(m.format_version.to_string(), "0.1.0");
    assert_eq!(m.heading_routes, "<h3>Routes</h3>\n");
}

#[test]
fn unmatched_paths_get_the_documentation() {
    let a: Api<u32> = Api::new(&spec("[route.r]\nPATH = [\"/r\"]")).unwrap();
    let docs = a.documentation();
    assert_eq!(a.no_route_page("x/<y>"), format!("No route matches /x/&lt;y&gt;<br></br>{}", docs));
    assert_eq!(a.no_route_page(""), format!("No route matches /<br></br>{}", docs));
}

#[test]
fn ordered_lists_in_descriptions_are_refused() {
    let listed = "[meta]\nDESCRIPTION = \"Short.\\n\\n1. one\\n2. two\"\n[route.r]\nPATH = [\"/r\"]";
    assert!(matches!(Api::<u8>::parse(&spec(listed)), Err(ApiFailure::Malformed)));
    let named = "[meta]\nDESCRIPTION = \"Short.\\n\\nNot an OrderedList(here) \\\"quoted\\\"\"\n[route.r]\nPATH = [\"/r\"]";
    assert!(Api::<u8>::parse(&spec(named)).is_ok());
}

#[test]
fn debugging_text_without_string_contents() {
    assert_eq!(
        tide_disco::markdown::unquoted_text(r#"[Paragraph([Text("a \"OrderedList(\" b\\")])]"#),
        r#"[Paragraph([Text("")])]"#
    );
    assert_eq!(tide_disco::markdown::unquoted_text("OrderedList([], Numeric)"), "OrderedList([], Numeric)");
}

#[test]
fn only_socket_routes_take_connections() {
    let mut s: Route<u32> = route(r#"PATH = ["/s"]
METHOD = "SOCKET""#).unwrap();
    s.set_socket_handler::<()>(7).unwrap();
    assert_eq!(*s.handle_socket::<()>(Method::socket()).unwrap(), 7);
    let h: Route<u32> = route(r#"PATH = ["/h"]"#).unwrap();
    match h.handle_socket::<()>(Method::socket()) {
        Err(tide_disco::error::SocketError::IncorrectMethod { expected, actual }) => {
            assert_eq!(expected, Method::get());
            assert_eq!(actual, Method::socket());
        }
        _ => panic!("a GET route took a connection"),
    }
}

#[test]
fn documentation_fills_the_description() {
    let text = "[meta]\nDESCRIPTION = \"Rockets\"\nHTML_TOP = \"<h1>{{NAME}}: {{DESCRIPTION}}</h1>\"\nNAME = \"sleds\"\n[route.r]\nPATH = [\"/r\"]";
    let a: Api<u32> = Api::new(&spec(text)).unwrap();
    let doc = a.documentation();
    assert!(doc.starts_with("<h1>sleds: Rockets</h1>"));
    assert!(!doc.contains("{{DESCRIPTION}}"));
}

#[test]
fn markdown_the_parser_cannot_read_is_refused() {
    assert!(!tide_disco::markdown::is_markdown_safe("x\na€```\ny"));
    assert!(tide_disco::markdown::is_markdown_safe("```rust\nlet x = 1;\n```\ncafé"));
    assert!(tide_disco::markdown::is_markdown_safe("```é"));
    assert!(tide_disco::markdown::is_markdown_safe("é```"));
    assert!(tide_disco::markdown::is_markdown_safe("> ab```é"));
    assert!(!tide_disco::markdown::is_markdown_safe("éé```"));
    assert!(tide_disco::markdown::is_markdown_safe("xyz€```"));
    assert!(tide_disco::markdown::is_markdown_safe("Text x€```, then more"));
    assert!(!tide_disco::markdown::is_markdown_safe("> a€```"));
    let desc = "[meta]\nDESCRIPTION = \"Short.\\n\\na€```\"\n[route.r]\nPATH = [\"/r\"]";
    assert!(matches!(Api::<u8>::parse(&spec(desc)), Err(ApiFailure::Malformed)));
    let doc = "[route.r]\nPATH = [\"/r\"]\nDOC = \"a€```\"";
    assert!(matches!(Api::<u8>::parse(&spec(doc)), Err(ApiFailure::Malformed)));
    let fine = "[route.r]\nPATH = [\"/r\"]\nDOC = \"café and xyz€```\"";
    assert!(Api::<u8>::parse(&spec(fine)).is_ok());
    let fenced = "[route.r]\nPATH = [\"/r\"]\nDOC = \"```é\\nlet x = 1;\\n```\\né```\"";
    assert!(Api::<u8>::parse(&spec(fenced)).is_ok());
}

#[test]
fn api_from_text_reads_toml() {
    let a = Api::<u8>::from_text("[route.r]\nPATH = [\"/r\"]\nMETHOD = \"POST\"");
    assert!(a.is_ok());
    assert!(matches!(
        Api::<u8>::from_text("[route.r\nPATH = 1"),
        Err(ApiFailure::Error(ApiError::CannotReadToml { .. }))
    ));
    assert!(matches!(
        Api::<u8>::from_text("[meta]\nNAME = \"x\""),
        Err(ApiFailure::Error(ApiError::MissingRoutesTable))
    ));
    assert!(matches!(
        Api::<u8>::from_text("route = 1"),
        Err(ApiFailure::Error(ApiError::RoutesMustBeTable))
    ));
}

#[test]
fn parse_toml_keeps_the_document() {
    let v = tide_disco::value::parse_toml("a = 1\nb = \"x\"").unwrap();
    match v {
        TomlValue::Table(es) => {
            assert_eq!(es.len(), 2);
            assert_eq!(es[0].0, "a");
            assert!(matches!(es[0].1, TomlValue::Integer(1)));
            assert!(matches!(&es[1].1, TomlValue::String(s) if s == "x"));
        }
        _ => panic!("a document is a table"),
    }
    assert!(tide_disco::value::parse_toml("a = ").is_err());
}
