use tide_disco::client::{
    failure_error, unreadable_success_error, response_failure_message, response_format, unsupported_type_message, Client, ContentType,
};
use tide_disco::error::{Error, ServerError};
use tide_disco::request::BodyFormat;
use tide_disco::status::StatusCode;

#[test]
fn test_builder() {
    let client = Client::builder("http://www.example.com").unwrap().set_timeout(None).build();
    assert_eq!(
        client.base_url(),
        "http://www.example.com".parse::<url::Url>().unwrap().to_string()
    );
    assert_eq!(client.timeout(), None);
}

#[test]
fn base_url_gets_a_trailing_slash() {
    let client = Client::new("http://localhost:8000/mod").unwrap();
    assert_eq!(client.base_url(), "http://localhost:8000/mod/");
    assert_eq!(client.route_url("get").unwrap(), "http://localhost:8000/mod/get");
    assert_eq!(client.timeout(), Some(60));
    assert_eq!(client.accept(), ContentType::Binary);
    assert_eq!(client.accept_header(), "application/octet-stream");
    let json = Client::builder("http://localhost:8000/").unwrap().content_type(ContentType::Json).build();
    assert_eq!(json.accept_header(), "application/json");
    let sub = json.module("api/").unwrap();
    assert_eq!(sub.base_url(), "http://localhost:8000/api/");
    assert!(Client::new("not a url").is_none());
}

#[test]
fn response_bodies_are_read_by_content_type() {
    assert_eq!(response_format(&Some(Some("application/json".to_string()))), Some(BodyFormat::Json));
    assert_eq!(
        response_format(&Some(Some("application/octet-stream".to_string()))),
        Some(BodyFormat::Binary)
    );
    assert_eq!(response_format(&Some(Some("text/html".to_string()))), None);
    assert_eq!(response_format(&None), None);
}

#[test]
fn failure_messages() {
    assert_eq!(response_failure_message("404 Not Found", &None, b"not found"), "not found");
    assert_eq!(
        response_failure_message("500 Internal Server Error", &Some("application/x".to_string()), &[0xff, 0x01]),
        "Request terminated with error 500 Internal Server Error. Content-Type: application/x. Body: 0xff01"
    );
    let ct: Result<&str, ()> = Ok("text/\"x\"");
    assert_eq!(
        unsupported_type_message(&Some("text/\"x\"".to_string()), &Some(b"hi".to_vec())),
        format!("unsupported content type {:?} body: hi", ct)
    );
    assert_eq!(
        unsupported_type_message(&None, &None),
        "unsupported content type Err(ToStrError { _priv: () }) "
    );
}

#[test]
fn failed_byte_requests_describe_the_body() {
    assert_eq!(tide_disco::client::bytes_failure("404 Not Found", &None, b"gone"), "gone");
    assert_eq!(
        tide_disco::client::bytes_failure("500 Internal Server Error", &None, &[0x80, 0x0a]),
        "Request failed with status 500 Internal Server Error. Content-Type: unspecified. Body: 0x800a"
    );
    assert_eq!(
        tide_disco::client::bytes_failure("502 Bad Gateway", &Some("image/png".to_string()), &[0xfe]),
        "Request failed with status 502 Bad Gateway. Content-Type: image/png. Body: 0xfe"
    );
}

#[test]
fn failed_requests_prefer_the_application_error() {
    let app = ServerError::catch_all(StatusCode::Conflict, "taken".to_string());
    let json = Some(Some("application/json".to_string()));
    let e: ServerError = failure_error(StatusCode::BadRequest, "400 Bad Request", &json, b"x", Some(app.clone()));
    assert_eq!(e, app);
    let e: ServerError = failure_error(StatusCode::BadRequest, "400 Bad Request", &json, b"oops", None);
    assert_eq!(e, ServerError::catch_all(StatusCode::BadRequest, "oops".to_string()));
    let e: ServerError = failure_error(StatusCode::BadGateway, "502 Bad Gateway", &Some(None), &[0xc3], None);
    assert_eq!(e.message, "Request terminated with error 502 Bad Gateway. Content-Type: unspecified. Body: 0xc3");
}

#[test]
fn unreadable_success_is_unsupported_media() {
    let e: ServerError = unreadable_success_error(&None, &None);
    assert_eq!(e, ServerError::catch_all(StatusCode::UnsupportedMediaType, "unspecified content type in response".to_string()));
    let e: ServerError = unreadable_success_error(&Some(None), &Some(b"hi".to_vec()));
    assert_eq!(e.message, "unsupported content type Err(ToStrError { _priv: () }) body: hi");
    let e: ServerError = unreadable_success_error(&Some(Some("text/html".to_string())), &None);
    assert_eq!(e.status, StatusCode::UnsupportedMediaType);
    assert_eq!(e.message, "unsupported content type Ok(\"text/html\") ");
}

#[test]
fn reply_status_decides_how_it_is_read() {
    assert!(tide_disco::client::carries_value(200));
    assert!(!tide_disco::client::carries_value(201));
    assert!(!tide_disco::client::carries_value(404));
    assert!(tide_disco::client::bytes_succeeded(200));
    assert!(tide_disco::client::bytes_succeeded(204));
    assert!(!tide_disco::client::bytes_succeeded(199));
    assert!(!tide_disco::client::bytes_succeeded(300));
    assert!(!tide_disco::client::bytes_succeeded(500));
}
