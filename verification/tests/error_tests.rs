use async_openai::error::{ApiError, ApiErrorFlex, ErrorCode, OpenAIError, WrappedError};
use async_openai::error::map_deserialization_error;
use async_openai::json::JsonTree;

fn decode_error() -> serde_json::Error {
    serde_json::from_slice::<serde_json::Value>(b"{").unwrap_err()
}

#[test]
fn test_flex_string() {
    let json = r#"
        {
            "message": "Invalid API key",
            "type": "invalid_request_error",
            "param": null,
            "code": "400"
        }
        "#;

    let error: ApiErrorFlex = ApiErrorFlex::from_json(json.as_bytes()).unwrap();
    assert_eq!(error.code, Some(ErrorCode::Str("400".to_string())));
}

#[test]
fn test_flex_int() {
    let json = r#"
        {
            "message": "Rate limit exceeded",
            "type": "rate_limit_exceeded",
            "param": "requests",
            "code": 429
        }
        "#;

    let error: ApiErrorFlex = ApiErrorFlex::from_json(json.as_bytes()).unwrap();
    assert_eq!(error.code, Some(ErrorCode::Int(429)));
}

#[test]
fn flex_fields_carry_over() {
    let json = r#"{"message":"Rate limit exceeded","type":"rate_limit_exceeded","param":"requests","code":429}"#;
    let error = ApiErrorFlex::from_json(json.as_bytes()).unwrap();
    assert_eq!(error.message, "Rate limit exceeded");
    assert_eq!(error.kind, Some("rate_limit_exceeded".to_string()));
    assert_eq!(error.param, Some("requests".to_string()));
}

#[test]
fn flex_rejects_oversized_code() {
    let json = r#"{"message":"m","code":66000}"#;
    assert!(ApiErrorFlex::from_json(json.as_bytes()).is_none());
}

#[test]
fn flex_rejects_fractional_code() {
    let json = r#"{"message":"m","code":429.5}"#;
    assert!(ApiErrorFlex::from_json(json.as_bytes()).is_none());
}

#[test]
fn flex_rejects_negative_code() {
    let json = r#"{"message":"m","code":-1}"#;
    assert!(ApiErrorFlex::from_json(json.as_bytes()).is_none());
}

#[test]
fn flex_rejects_ill_typed_kind() {
    let json = r#"{"message":"m","type":5}"#;
    assert!(ApiErrorFlex::from_json(json.as_bytes()).is_none());
}

#[test]
fn flex_requires_message() {
    let json = r#"{"type":"invalid_request_error"}"#;
    assert!(ApiErrorFlex::from_json(json.as_bytes()).is_none());
}

#[test]
fn flex_ignores_unknown_fields() {
    let json = r#"{"message":"m","extra":[1,2,{"x":null}],"n":-3.5,"b":true}"#;
    let error = ApiErrorFlex::from_json(json.as_bytes()).unwrap();
    assert_eq!(error.message, "m");
    assert_eq!(error.kind, None);
    assert_eq!(error.param, None);
    assert_eq!(error.code, None);
}

#[test]
fn code_string_passes_through() {
    let code = ErrorCode::Str("rate_limited".to_string());
    assert_eq!(code.into_string(), "rate_limited");
}

#[test]
fn code_int_renders_base_10() {
    assert_eq!(ErrorCode::Int(429).into_string(), "429");
    assert_eq!(ErrorCode::Int(0).into_string(), "0");
    assert_eq!(ErrorCode::Int(7).into_string(), "7");
    assert_eq!(ErrorCode::Int(65535).into_string(), "65535");
}

#[test]
fn display_all_fields() {
    let detail = ApiError {
        message: "Rate limit exceeded".to_string(),
        kind: Some("rate_limit_exceeded".to_string()),
        param: Some("requests".to_string()),
        code: Some("429".to_string()),
    };
    assert_eq!(
        detail.display_text(),
        "rate_limit_exceeded: Rate limit exceeded (param: requests) (code: 429)"
    );
}

#[test]
fn display_message_only() {
    let detail = ApiError {
        message: "Invalid API key".to_string(),
        kind: None,
        param: None,
        code: None,
    };
    assert_eq!(detail.display_text(), "Invalid API key");
}

#[test]
fn display_message_and_code() {
    let detail = ApiError {
        message: "m".to_string(),
        kind: None,
        param: None,
        code: Some("400".to_string()),
    };
    assert_eq!(detail.display_text(), "m (code: 400)");
}

#[test]
fn display_kind_and_message() {
    let detail = ApiError {
        message: "Invalid API key".to_string(),
        kind: Some("invalid_request_error".to_string()),
        param: None,
        code: None,
    };
    assert_eq!(detail.display_text(), "invalid_request_error: Invalid API key");
}

#[test]
fn classify_wrapped_error() {
    let bytes =
        br#"{"error":{"message":"Invalid API key","type":"invalid_request_error","code":"400"}}"#;
    match map_deserialization_error(decode_error(), bytes) {
        OpenAIError::ApiError(detail) => {
            assert_eq!(detail.message, "Invalid API key");
            assert_eq!(detail.kind, Some("invalid_request_error".to_string()));
            assert_eq!(detail.param, None);
            assert_eq!(detail.code, Some("400".to_string()));
        },
        other => panic!("expected an ApiError, got {:?}", other),
    }
}

#[test]
fn classify_flat_error_with_numeric_code() {
    let bytes =
        br#"{"message":"Rate limit exceeded","type":"rate_limit_exceeded","param":"requests","code":429}"#;
    match map_deserialization_error(decode_error(), bytes) {
        OpenAIError::ApiError(detail) => {
            assert_eq!(detail.message, "Rate limit exceeded");
            assert_eq!(detail.kind, Some("rate_limit_exceeded".to_string()));
            assert_eq!(detail.param, Some("requests".to_string()));
            assert_eq!(detail.code, Some("429".to_string()));
        },
        other => panic!("expected an ApiError, got {:?}", other),
    }
}

#[test]
fn classify_not_json() {
    match map_deserialization_error(decode_error(), b"not json at all") {
        OpenAIError::JSONDeserialize(_, body) => {
            assert_eq!(body, "not json at all");
        },
        other => panic!("expected a JSONDeserialize error, got {:?}", other),
    }
}

#[test]
fn classify_empty_body() {
    match map_deserialization_error(decode_error(), b"") {
        OpenAIError::JSONDeserialize(_, body) => assert_eq!(body, ""),
        other => panic!("expected a JSONDeserialize error, got {:?}", other),
    }
}

#[test]
fn classify_invalid_utf8_body() {
    match map_deserialization_error(decode_error(), &[0xff, 0xfe]) {
        OpenAIError::JSONDeserialize(_, body) => {
            assert_eq!(body, "\u{fffd}\u{fffd}");
        },
        other => panic!("expected a JSONDeserialize error, got {:?}", other),
    }
}

#[test]
fn classify_valid_json_but_no_error_shape() {
    match map_deserialization_error(decode_error(), br#"{"choices":[]}"#) {
        OpenAIError::JSONDeserialize(_, body) => {
            assert_eq!(body, r#"{"choices":[]}"#);
        },
        other => panic!("expected a JSONDeserialize error, got {:?}", other),
    }
}

#[test]
fn wrapped_shape_requires_single_error_key() {
    let bytes = br#"{"error":{"message":"inner"},"other":1}"#;
    match map_deserialization_error(decode_error(), bytes) {
        OpenAIError::JSONDeserialize(_, body) => {
            assert_eq!(body, r#"{"error":{"message":"inner"},"other":1}"#);
        },
        other => panic!("expected a JSONDeserialize error, got {:?}", other),
    }
}

#[test]
fn wrapped_shape_wins_over_flat() {
    let bytes = br#"{"error":{"message":"inner"}}"#;
    match map_deserialization_error(decode_error(), bytes) {
        OpenAIError::ApiError(detail) => assert_eq!(detail.message, "inner"),
        other => panic!("expected an ApiError, got {:?}", other),
    }
}

#[test]
fn two_keys_fall_back_to_flat() {
    let bytes = br#"{"error":{"message":"inner"},"message":"outer"}"#;
    match map_deserialization_error(decode_error(), bytes) {
        OpenAIError::ApiError(detail) => assert_eq!(detail.message, "outer"),
        other => panic!("expected an ApiError, got {:?}", other),
    }
}

#[test]
fn wrapped_with_ill_typed_inner_falls_through() {
    let bytes = br#"{"error":{"message":5}}"#;
    match map_deserialization_error(decode_error(), bytes) {
        OpenAIError::JSONDeserialize(_, body) => {
            assert_eq!(body, r#"{"error":{"message":5}}"#);
        },
        other => panic!("expected a JSONDeserialize error, got {:?}", other),
    }
}

#[test]
fn wrapped_from_tree_reads_inner_detail() {
    let inner = vec![
        ("message".to_string(), JsonTree::Text("m".to_string())),
        ("code".to_string(), JsonTree::UInt(404)),
    ];
    let tree = JsonTree::Object(vec![("error".to_string(), JsonTree::Object(inner))]);
    let wrapped: WrappedError = WrappedError::from_tree(&tree).unwrap();
    assert_eq!(wrapped.error.message, "m");
    assert_eq!(wrapped.error.code, Some(ErrorCode::Int(404)));
}

#[test]
fn error_display_prefixes() {
    assert_eq!(
        OpenAIError::Reqwest("connection reset".to_string()).display_text(),
        "http error: connection reset"
    );
    assert_eq!(
        OpenAIError::FileSaveError("disk full".to_string()).display_text(),
        "failed to save file: disk full"
    );
    assert_eq!(
        OpenAIError::FileReadError("missing".to_string()).display_text(),
        "failed to read file: missing"
    );
    assert_eq!(
        OpenAIError::StreamError("closed early".to_string()).display_text(),
        "stream failed: closed early"
    );
    assert_eq!(
        OpenAIError::InvalidArgument("bad model".to_string()).display_text(),
        "invalid args: bad model"
    );
}

#[test]
fn error_display_api_variant_uses_detail_rendering() {
    let detail = ApiError {
        message: "Invalid API key".to_string(),
        kind: Some("invalid_request_error".to_string()),
        param: None,
        code: Some("400".to_string()),
    };
    let err = OpenAIError::ApiError(detail);
    assert_eq!(err.display_text(), "invalid_request_error: Invalid API key (code: 400)");
}

#[test]
fn error_display_deserialize_variant_keeps_body() {
    let err = map_deserialization_error(decode_error(), b"not json");
    let text = err.display_text();
    assert!(text.starts_with("Failed to deserialize API response: "));
    assert!(text.ends_with("\nResponse body: not json"));
}
