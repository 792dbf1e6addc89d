use ark_serialize::{CanonicalDeserialize, CanonicalSerialize};
use tide_disco::method::Method;
use tide_disco::request::{
    best_response_type, Accept, BodyFormat, Headers, Mime, RequestError, RequestParam,
    RequestParamType, RequestParamValue, RequestParams, TaggedBase64,
};

fn param(ty: RequestParamType, name: &str, val: &str) -> RequestParamValue {
    RequestParamValue::parse(
        val,
        &RequestParam { name: name.to_string(), param_type: ty, required: true },
    )
    .unwrap()
}

fn request_from_params(params: Vec<(String, RequestParamValue)>) -> RequestParams {
    RequestParams::from_parts(Headers { entries: vec![] }, vec![], params, Method::get())
}

/// The text of a blob tagged `BLOB` holding the string `blob`, serialized as such blobs are.
fn blob_text() -> String {
    let mut bytes = Vec::new();
    "blob".to_string().serialize_compressed(&mut bytes).unwrap();
    tagged_base64::TaggedBase64::new("BLOB", &bytes).unwrap().to_string()
}

fn blob_of(bytes: Vec<u8>) -> String {
    String::deserialize_compressed(&*bytes).unwrap()
}

fn tb64_text() -> String {
    tagged_base64::TaggedBase64::new("TAG", &[0; 20]).unwrap().to_string()
}

#[test]
fn test_params() {
    let tb64 = TaggedBase64::parse(&tb64_text()).unwrap();
    let string_param = param(RequestParamType::Literal, "string", "hello");
    let integer_param = param(RequestParamType::Integer, "integer", "42");
    let boolean_param = param(RequestParamType::Boolean, "boolean", "true");
    let tagged_base64_param = param(RequestParamType::TaggedBase64, "tagged_base64", &tb64_text());
    let blob_param = param(RequestParamType::TaggedBase64, "blob", &blob_text());
    let params = vec![
        ("string".to_string(), string_param.clone()),
        ("integer".to_string(), integer_param.clone()),
        ("boolean".to_string(), boolean_param.clone()),
        ("tagged_base64".to_string(), tagged_base64_param.clone()),
        ("blob".to_string(), blob_param.clone()),
    ];
    let req = request_from_params(params);

    // Check untyped param.
    assert_eq!(*req.param("string").unwrap(), string_param);
    assert_eq!(*req.param("integer").unwrap(), integer_param);
    assert_eq!(*req.param("boolean").unwrap(), boolean_param);
    assert_eq!(*req.param("tagged_base64").unwrap(), tagged_base64_param);
    assert_eq!(*req.param("blob").unwrap(), blob_param);
    match req.param("nosuchparam").unwrap_err() {
        RequestError::MissingParam { name } if name == "nosuchparam" => {}
        err => panic!("expecting MissingParam {{ nosuchparam }}, got {:?}", err),
    }

    // Check untyped optional param.
    assert_eq!(*req.opt_param("string").unwrap(), string_param);
    assert_eq!(*req.opt_param("integer").unwrap(), integer_param);
    assert_eq!(*req.opt_param("boolean").unwrap(), boolean_param);
    assert_eq!(*req.opt_param("tagged_base64").unwrap(), tagged_base64_param);
    assert_eq!(*req.opt_param("blob").unwrap(), blob_param);
    assert_eq!(req.opt_param("nosuchparam"), None);

    // Check typed params: correct type, incorrect type, and missing cases.
    assert_eq!(req.string_param("string").unwrap(), "hello");
    match req.string_param("integer").unwrap_err() {
        RequestError::IncorrectParamType { name, param_type, expected }
            if name == "integer" && param_type == RequestParamType::Integer && expected == "String" => {}
        err => panic!("expecting IncorrectParamType {{ integer, Integer, String }}, got {:?}", err),
    }
    match req.string_param("nosuchparam").unwrap_err() {
        RequestError::MissingParam { name } if name == "nosuchparam" => {}
        err => panic!("expecting MissingParam {{ nosuchparam }}, got {:?}", err),
    };

    assert_eq!(req.integer_param("integer", usize::MAX as u128).unwrap(), 42);
    match req.integer_param("string", usize::MAX as u128).unwrap_err() {
        RequestError::IncorrectParamType { name, param_type, expected }
            if name == "string" && param_type == RequestParamType::Literal && expected == "Integer" => {}
        err => panic!("expecting IncorrectParamType {{ string, Literal, Integer }}, got {:?}", err),
    }
    match req.integer_param("nosuchparam", usize::MAX as u128).unwrap_err() {
        RequestError::MissingParam { name } if name == "nosuchparam" => {}
        err => panic!("expecting MissingParam {{ nosuchparam }}, got {:?}", err),
    };

    assert_eq!(req.boolean_param("boolean").unwrap(), true);
    match req.boolean_param("integer").unwrap_err() {
        RequestError::IncorrectParamType { name, param_type, expected }
            if name == "integer" && param_type == RequestParamType::Integer && expected == "Boolean" => {}
        err => panic!("expecting IncorrectParamType {{ integer, Integer, Boolean }}, got {:?}", err),
    }
    match req.boolean_param("nosuchparam").unwrap_err() {
        RequestError::MissingParam { name } if name == "nosuchparam" => {}
        err => panic!("expecting MissingParam {{ nosuchparam }}, got {:?}", err),
    };

    assert_eq!(*req.tagged_base64_param("tagged_base64").unwrap(), tb64);
    match req.tagged_base64_param("integer").unwrap_err() {
        RequestError::IncorrectParamType { name, param_type, expected }
            if name == "integer" && param_type == RequestParamType::Integer && expected == "TaggedBase64" => {}
        err => panic!("expecting IncorrectParamType {{ integer, Integer, TaggedBase64 }}, got {:?}", err),
    }
    match req.tagged_base64_param("nosuchparam").unwrap_err() {
        RequestError::MissingParam { name } if name == "nosuchparam" => {}
        err => panic!("expecting MissingParam {{ nosuchparam }}, got {:?}", err),
    };

    assert_eq!(blob_of(req.blob_param("blob", "BLOB").unwrap()), "blob");
    match req.tagged_base64_param("integer").unwrap_err() {
        RequestError::IncorrectParamType { name, param_type, expected }
            if name == "integer" && param_type == RequestParamType::Integer && expected == "TaggedBase64" => {}
        err => panic!("expecting IncorrectParamType {{ integer, Integer, TaggedBase64 }}, got {:?}", err),
    }
    match req.tagged_base64_param("nosuchparam").unwrap_err() {
        RequestError::MissingParam { name } if name == "nosuchparam" => {}
        err => panic!("expecting MissingParam {{ nosuchparam }}, got {:?}", err),
    };

    // Check typed optional params: correct type, incorrect type, and missing cases.
    assert_eq!(req.opt_string_param("string").unwrap().unwrap(), "hello");
    match req.opt_string_param("integer").unwrap_err() {
        RequestError::IncorrectParamType { name, param_type, expected }
            if name == "integer" && param_type == RequestParamType::Integer && expected == "String" => {}
        err => panic!("expecting IncorrectParamType {{ integer, Integer, String }}, got {:?}", err),
    }
    assert_eq!(req.opt_string_param("nosuchparam").unwrap(), None);

    assert_eq!(req.opt_integer_param("integer", usize::MAX as u128).unwrap().unwrap(), 42);
    match req.opt_integer_param("string", usize::MAX as u128).unwrap_err() {
        RequestError::IncorrectParamType { name, param_type, expected }
            if name == "string" && param_type == RequestParamType::Literal && expected == "Integer" => {}
        err => panic!("expecting IncorrectParamType {{ integer, Literal, Integer }}, got {:?}", err),
    }
    assert_eq!(req.opt_integer_param("nosuchparam", usize::MAX as u128).unwrap(), None);

    assert_eq!(req.opt_boolean_param("boolean").unwrap().unwrap(), true);
    match req.opt_boolean_param("integer").unwrap_err() {
        RequestError::IncorrectParamType { name, param_type, expected }
            if name == "integer" && param_type == RequestParamType::Integer && expected == "Boolean" => {}
        err => panic!("expecting IncorrectParamType {{ integer, Integer, Boolean }}, got {:?}", err),
    }
    assert_eq!(req.opt_boolean_param("nosuchparam").unwrap(), None);

    assert_eq!(*req.opt_tagged_base64_param("tagged_base64").unwrap().unwrap(), tb64);
    match req.opt_tagged_base64_param("integer").unwrap_err() {
        RequestError::IncorrectParamType { name, param_type, expected }
            if name == "integer" && param_type == RequestParamType::Integer && expected == "TaggedBase64" => {}
        err => panic!("expecting IncorrectParamType {{ integer, Integer, TaggedBase64 }}, got {:?}", err),
    }
    assert_eq!(req.opt_tagged_base64_param("nosuchparam").unwrap(), None);

    assert_eq!(blob_of(req.opt_blob_param("blob", "BLOB").unwrap().unwrap()), "blob");
    match req.opt_blob_param("integer", "BLOB").unwrap_err() {
        RequestError::IncorrectParamType { name, param_type, expected }
            if name == "integer" && param_type == RequestParamType::Integer && expected == "TaggedBase64" => {}
        err => panic!("expecting IncorrectParamType {{ integer, Integer, TaggedBase64 }}, got {:?}", err),
    }
    assert_eq!(req.opt_blob_param("nosuchparam", "BLOB").unwrap(), None);
}

#[test]
fn blob_with_another_tag_is_a_tag_mismatch() {
    let req = request_from_params(vec![(
        "blob".to_string(),
        param(RequestParamType::TaggedBase64, "blob", &blob_text()),
    )]);
    match req.blob_param("blob", "OTHER").unwrap_err() {
        RequestError::TagMismatch { actual, expected } => {
            assert_eq!(actual, "BLOB");
            assert_eq!(expected, "OTHER");
        }
        err => panic!("expecting TagMismatch, got {:?}", err),
    }
}

#[test]
fn integer_params_respect_the_width_asked_for() {
    let req = request_from_params(vec![("n".to_string(), param(RequestParamType::Integer, "n", "300"))]);
    assert_eq!(req.integer_param("n", u16::MAX as u128).unwrap(), 300);
    assert!(matches!(
        req.integer_param("n", u8::MAX as u128).unwrap_err(),
        RequestError::IncorrectParamType { .. }
    ));
}

#[test]
fn parse_errors_carry_the_standard_messages() {
    let formal = |ty| RequestParam { name: "p".to_string(), param_type: ty, required: true };
    match RequestParamValue::parse("maybe", &formal(RequestParamType::Boolean)).unwrap_err() {
        RequestError::InvalidParam { param_type, reason } => {
            assert_eq!(param_type, "Boolean");
            assert_eq!(reason, "maybe".parse::<bool>().unwrap_err().to_string());
        }
        err => panic!("unexpected {:?}", err),
    }
    for text in ["", "12x", "340282366920938463463374607431768211456", "+", "-1"] {
        match RequestParamValue::parse(text, &formal(RequestParamType::Integer)).unwrap_err() {
            RequestError::InvalidParam { param_type, reason } => {
                assert_eq!(param_type, "Integer");
                assert_eq!(reason, text.parse::<u128>().unwrap_err().to_string());
            }
            err => panic!("unexpected {:?}", err),
        }
    }
    assert_eq!(
        RequestParamValue::parse("+17", &formal(RequestParamType::Hexadecimal)).unwrap(),
        RequestParamValue::Hexadecimal(17)
    );
    let bad = RequestParamValue::parse("not-tagged", &formal(RequestParamType::TaggedBase64)).unwrap_err();
    assert!(matches!(bad, RequestError::InvalidParam { ref param_type, .. } if param_type == "TaggedBase64"));
    assert_eq!(
        RequestError::MissingParam { name: "x".to_string() }.message(),
        "missing required parameter: x"
    );
    assert_eq!(
        RequestError::IncorrectParamType {
            name: "n".to_string(),
            param_type: RequestParamType::Literal,
            expected: "Integer".to_string()
        }
        .message(),
        "incorrect type for parameter n: Literal cannot be converted to Integer"
    );
}

#[test]
fn request_params_are_parsed_from_their_texts() {
    let formal = vec![
        RequestParam { name: "a".to_string(), param_type: RequestParamType::Integer, required: true },
        RequestParam { name: "b".to_string(), param_type: RequestParamType::Boolean, required: true },
    ];
    let given = vec![("b".to_string(), "false".to_string()), ("a".to_string(), "7".to_string())];
    let req = RequestParams::new(Headers { entries: vec![] }, b"body".to_vec(), &formal, &given, Method::post()).unwrap();
    assert_eq!(req.integer_param("a", u64::MAX as u128).unwrap(), 7);
    assert_eq!(req.boolean_param("b").unwrap(), false);
    assert_eq!(req.body_bytes(), b"body".to_vec());
    assert_eq!(req.method().to_string(), "POST");

    let given = vec![("a".to_string(), "x".to_string()), ("b".to_string(), "y".to_string())];
    let err = RequestParams::new(Headers { entries: vec![] }, vec![], &formal, &given, Method::get()).unwrap_err();
    assert!(matches!(err, RequestError::InvalidParam { ref param_type, .. } if param_type == "Integer"));
}

fn headers(entries: &[(&str, &[&str])]) -> Headers {
    Headers {
        entries: entries
            .iter()
            .map(|(n, vs)| (n.to_string(), vs.iter().map(|v| v.to_string()).collect()))
            .collect(),
    }
}

#[test]
fn body_format_follows_the_content_type() {
    let with = |ct: &[&str]| {
        RequestParams::from_parts(headers(&[("content-type", ct)]), vec![], vec![], Method::get())
    };
    assert_eq!(with(&["application/json"]).body_format().unwrap(), BodyFormat::Json);
    assert_eq!(with(&["application/octet-stream"]).body_format().unwrap(), BodyFormat::Binary);
    assert!(matches!(with(&["text/plain"]).body_format().unwrap_err(), RequestError::UnsupportedContentType));
    let none = RequestParams::from_parts(headers(&[]), vec![], vec![], Method::get());
    assert!(matches!(none.body_format().unwrap_err(), RequestError::UnsupportedContentType));
}

#[test]
fn accept_header_defaults_to_anything() {
    let req = RequestParams::from_parts(headers(&[]), vec![], vec![], Method::get());
    let accept = req.accept().unwrap();
    assert!(accept.wildcard);
    assert!(accept.proposals.is_empty());
    let available = vec![Mime::json(), Mime::byte_stream()];
    assert_eq!(best_response_type(&accept, &available).unwrap().text, "application/json");
}

#[test]
fn accept_header_is_sorted_by_weight() {
    let req = RequestParams::from_parts(
        headers(&[("accept", &["application/json;q=0.5, application/octet-stream;q=0.9"])]),
        vec![],
        vec![],
        Method::get(),
    );
    let accept = req.accept().unwrap();
    assert!(!accept.wildcard);
    let texts: Vec<String> = accept.proposals.iter().map(|m| m.text.clone()).collect();
    assert_eq!(texts, vec!["application/octet-stream", "application/json"]);
    let available = vec![Mime::json(), Mime::byte_stream()];
    assert_eq!(best_response_type(&accept, &available).unwrap().text, "application/octet-stream");
}

fn accept_of(wildcard: bool, proposals: &[(&str, &str)]) -> Accept {
    Accept {
        wildcard,
        proposals: proposals
            .iter()
            .map(|(b, s)| Mime { basetype: b.to_string(), subtype: s.to_string(), text: format!("{}/{}", b, s) })
            .collect(),
    }
}

#[test]
fn best_response_type_respects_wildcards() {
    let available = vec![Mime::json(), Mime::byte_stream()];
    let pick = |a: Accept| best_response_type(&a, &available).map(|m| m.text);
    assert_eq!(pick(accept_of(false, &[("*", "*")])).unwrap(), "application/json");
    assert_eq!(pick(accept_of(false, &[("application", "*")])).unwrap(), "application/json");
    assert_eq!(
        pick(accept_of(false, &[("text", "html"), ("application", "octet-stream")])).unwrap(),
        "application/octet-stream"
    );
    assert!(matches!(pick(accept_of(false, &[("text", "*")])).unwrap_err(), RequestError::UnsupportedContentType));
    assert_eq!(pick(accept_of(true, &[("text", "html")])).unwrap(), "application/json");
    let plain = vec![Mime::plain(), Mime::json()];
    assert_eq!(
        best_response_type(&accept_of(false, &[("text", "*")]), &plain).unwrap().text,
        "text/plain;charset=utf-8"
    );
}

#[test]
fn accept_values_outside_ascii_are_refused() {
    let req = RequestParams::from_parts(headers(&[("accept", &["application/jsön"])]), vec![], vec![], Method::get());
    match req.accept() {
        Err(RequestError::Http { reason }) => assert_eq!(reason, "String slice should be valid ASCII"),
        _ => panic!("a non-ASCII Accept header was read"),
    }
}
