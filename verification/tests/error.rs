use goiam::GoIamError;

fn transport_failure() -> reqwest::Error {
    reqwest::Client::new()
        .get("not a url")
        .build()
        .expect_err("a request without a scheme cannot be built")
}

fn codec_failure() -> serde_json::Error {
    serde_json::from_str::<serde_json::Value>("invalid json")
        .expect_err("Should fail to parse invalid JSON")
}

#[test]
fn test_error_display() {
    let auth_error = GoIamError::AuthError {
        message: "Invalid credentials".to_string(),
    };
    assert_eq!(
        auth_error.to_string(),
        "Authentication failed: Invalid credentials"
    );

    let api_error = GoIamError::ApiError {
        message: "Not found".to_string(),
        status: 404,
    };
    assert_eq!(api_error.to_string(), "API error: Not found (status: 404)");

    let invalid_response = GoIamError::InvalidResponse {
        message: "Missing data field".to_string(),
    };
    assert_eq!(
        invalid_response.to_string(),
        "Invalid response: Missing data field"
    );
}

#[test]
fn test_error_from_reqwest() {
    let json_error = serde_json::from_str::<serde_json::Value>("invalid json")
        .expect_err("Should fail to parse invalid JSON");

    let auth_error = GoIamError::AuthError {
        message: "Test auth error".to_string(),
    };
    assert!(auth_error.source().is_none());

    let json_goiam_error: GoIamError = json_error.into();
    assert!(json_goiam_error.source().is_some());
}

#[test]
fn test_error_from_serde_json() {
    let json_error = serde_json::from_str::<serde_json::Value>("invalid json")
        .expect_err("Should fail to parse invalid JSON");
    let goiam_error: GoIamError = json_error.into();
    match goiam_error {
        GoIamError::JsonError(_) => {}
        _ => panic!("Expected JsonError"),
    }
}

#[test]
fn transport_failure_converts_to_http_error() {
    let goiam_error: GoIamError = transport_failure().into();
    assert!(matches!(goiam_error, GoIamError::HttpError(_)));
}

#[test]
fn http_error_line_ends_in_the_transport_description() {
    let expected = format!("HTTP request failed: {}", transport_failure());
    let error = GoIamError::from(transport_failure());
    assert_eq!(error.to_string(), expected);
    assert!(error.to_string().starts_with("HTTP request failed: builder error"));
}

#[test]
fn json_error_line_ends_in_the_codec_description() {
    let expected = format!("JSON parsing failed: {}", codec_failure());
    let error = GoIamError::from(codec_failure());
    assert_eq!(error.to_string(), expected);
    assert_eq!(
        error.to_string(),
        "JSON parsing failed: expected value at line 1 column 1"
    );
}

#[test]
fn source_is_the_description_of_the_wrapped_failure() {
    assert_eq!(
        GoIamError::from(codec_failure()).source(),
        Some(codec_failure().to_string())
    );
    assert_eq!(
        GoIamError::from(transport_failure()).source(),
        Some(transport_failure().to_string())
    );
}

#[test]
fn source_is_none_where_nothing_is_wrapped() {
    let api = GoIamError::ApiError {
        message: "x".to_string(),
        status: 500,
    };
    let invalid = GoIamError::InvalidResponse {
        message: "x".to_string(),
    };
    assert!(api.source().is_none());
    assert!(invalid.source().is_none());
}

#[test]
fn describe_puts_the_cause_behind_the_prefix() {
    let error = GoIamError::from(transport_failure());
    assert_eq!(
        error.describe("connection refused"),
        "HTTP request failed: connection refused"
    );
    let error = GoIamError::from(codec_failure());
    assert_eq!(error.describe("EOF"), "JSON parsing failed: EOF");
}

#[test]
fn describe_ignores_the_cause_where_nothing_is_wrapped() {
    let error = GoIamError::AuthError {
        message: "denied".to_string(),
    };
    assert_eq!(error.describe("unused"), "Authentication failed: denied");
    let error = GoIamError::ApiError {
        message: "gone".to_string(),
        status: 410,
    };
    assert_eq!(error.describe("unused"), "API error: gone (status: 410)");
}

#[test]
fn api_error_line_gives_every_status_in_decimal() {
    for (status, text) in [(0u16, "0"), (7, "7"), (99, "99"), (100, "100"), (65535, "65535")] {
        let error = GoIamError::ApiError {
            message: String::new(),
            status,
        };
        assert_eq!(error.to_string(), format!("API error:  (status: {})", text));
    }
}

#[test]
fn empty_messages_leave_the_prefix_alone() {
    let error = GoIamError::AuthError {
        message: String::new(),
    };
    assert_eq!(error.to_string(), "Authentication failed: ");
    let error = GoIamError::InvalidResponse {
        message: String::new(),
    };
    assert_eq!(error.to_string(), "Invalid response: ");
}
