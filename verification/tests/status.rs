use tide_disco::status::StatusCode;
use tide_disco::types::StatusCode as TypesStatusCode;

fn check_status_codes(start: u16) {
    for code in start.. {
        // Iterate over all valid status codes, then break.
        let Ok(status) = StatusCode::try_from(code) else {
            break;
        };
        // Test type conversions.
        assert_eq!(http_types::StatusCode::try_from(code).unwrap() as u16, status.code());
        assert_eq!(reqwest::StatusCode::from_u16(code).unwrap().as_u16(), status.code());
        assert_eq!(code, status.code());

        // Test the serialized form (the number) and its round trip.
        let json = serde_json::to_string(&status.code()).unwrap();
        assert_eq!(StatusCode::try_from(serde_json::from_str::<u16>(&json).unwrap()).unwrap(), status);
        assert_eq!(json, code.to_string());
        assert_eq!(json, serde_json::to_string(&http_types::StatusCode::try_from(code).unwrap()).unwrap());

        // Test display.
        assert_eq!(status.to_string(), code.to_string());
        assert_eq!(status.to_string(), http_types::StatusCode::try_from(code).unwrap().to_string());
    }

    // Now iterate over all valid _Tide_ status codes, and ensure they can be converted to our
    // `StatusCode`.
    for code in start.. {
        let Ok(status) = http_types::StatusCode::try_from(code) else {
            break;
        };
        assert_eq!(StatusCode::try_from(code).unwrap().code(), status as u16);
    }

    // Now iterate over all valid _reqwest_ status codes, and ensure they can be converted to our
    // `StatusCode`.
    for code in start.. {
        let Ok(status) = reqwest::StatusCode::from_u16(code) else {
            break;
        };
        assert_eq!(StatusCode::try_from(code).unwrap().code(), status.as_u16());
    }
}

#[test]
fn test_status_code() {
    check_status_codes(0);
}

#[test]
fn status_test_status_code() {
    for code in 100u16.. {
        // Iterate over all valid status codes, then break.
        let Ok(status) = TypesStatusCode::try_from(code) else {
            break;
        };
        // Test type conversions.
        if let Ok(tide_status) = http_types::StatusCode::try_from(code) {
            assert_eq!(tide_status as u16, status.code());
        }
        assert_eq!(reqwest::StatusCode::from_u16(code).unwrap().as_u16(), status.code());
        assert_eq!(code, status.code());

        // Test the serialized form (the number) and its round trip.
        let json = serde_json::to_string(&status.code()).unwrap();
        assert_eq!(TypesStatusCode::try_from(serde_json::from_str::<u16>(&json).unwrap()).unwrap(), status);
        assert_eq!(json, code.to_string());
        if let Ok(tide_status) = http_types::StatusCode::try_from(code) {
            assert_eq!(json, serde_json::to_string(&tide_status).unwrap());
        }

        // Test display.
        assert_eq!(status.to_string(), code.to_string());
        if let Ok(tide_status) = http_types::StatusCode::try_from(code) {
            assert_eq!(status.to_string(), tide_status.to_string());
        }
        assert_eq!(status.canonical_reason(), reqwest::StatusCode::from_u16(code).unwrap().canonical_reason());
    }

    // Now iterate over all valid _Tide_ status codes, and ensure they can be converted to our
    // `StatusCode`.
    for code in 100u16.. {
        let Ok(status) = http_types::StatusCode::try_from(code) else {
            break;
        };
        assert_eq!(TypesStatusCode::try_from(code).unwrap().code(), status as u16);
    }

    // Now iterate over all valid _reqwest_ status codes, and ensure they can be converted to our
    // `StatusCode`.
    for code in 100u16.. {
        let Ok(status) = reqwest::StatusCode::from_u16(code) else {
            break;
        };
        assert_eq!(TypesStatusCode::try_from(code).unwrap().code(), status.as_u16());
    }
}

#[test]
fn status_classes_and_reasons() {
    let ok = StatusCode::try_from(200).unwrap();
    assert!(ok.is_success() && !ok.is_client_error());
    assert_eq!(ok.canonical_reason(), "OK");
    let not_found = StatusCode::try_from(404).unwrap();
    assert!(not_found.is_client_error());
    assert_eq!(not_found.canonical_reason(), "Not Found");
    assert!(StatusCode::try_from(101).unwrap().is_informational());
    assert!(StatusCode::try_from(308).unwrap().is_redirection());
    assert!(StatusCode::try_from(503).unwrap().is_server_error());
    assert!(StatusCode::try_from(999).is_err());
    assert!(StatusCode::try_from(99).is_err());
}
