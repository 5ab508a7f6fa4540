use ai_error::AiError;
use ai_error::Duration;

fn transport_fault() -> reqwest::Error {
    // An invalid URL makes the request builder fail synchronously,
    // without any network traffic.
    reqwest::Client::new()
        .get("ht tp://nowhere.invalid")
        .build()
        .unwrap_err()
}

fn codec_fault() -> serde_json::Error {
    serde_json::from_str::<serde_json::Value>("{not json").unwrap_err()
}

fn all_variants() -> Vec<AiError> {
    vec![
        AiError::Auth("failed".to_string()),
        AiError::RateLimit {
            retry_after: Some(Duration::from_secs(5)),
        },
        AiError::RateLimit { retry_after: None },
        AiError::Tool {
            tool_name: "test".to_string(),
            message: "failed".to_string(),
        },
        AiError::Validation("invalid".to_string()),
        AiError::Network(transport_fault()),
        AiError::Provider {
            provider: "openai".to_string(),
            message: "failed".to_string(),
            code: Some("500".to_string()),
        },
        AiError::Timeout(Duration::from_secs(3)),
        AiError::Serialization(codec_fault()),
        AiError::Internal("failed".to_string()),
        AiError::NoSuchTool("test".to_string()),
        AiError::InvalidToolInput {
            tool_name: "test".to_string(),
            reason: "failed".to_string(),
        },
        AiError::SchemaValidation("invalid".to_string()),
        AiError::Stream("failed".to_string()),
        AiError::Config("failed".to_string()),
    ]
}

#[test]
fn test_error_codes() {
    assert_eq!(AiError::Auth("failed".into()).error_code(), "AUTH_ERROR");
    assert_eq!(
        AiError::Tool {
            tool_name: "test".into(),
            message: "failed".into()
        }
        .error_code(),
        "TOOL_ERROR"
    );
    assert_eq!(
        AiError::Validation("invalid".into()).error_code(),
        "VALIDATION_ERROR"
    );
}

#[test]
fn test_retryable() {
    assert!(AiError::RateLimit {
        retry_after: Some(Duration::from_secs(5))
    }
    .is_retryable());
    assert!(!AiError::Auth("failed".into()).is_retryable());
    assert!(!AiError::Validation("invalid".into()).is_retryable());
}

#[test]
fn test_retry_after() {
    let error = AiError::RateLimit {
        retry_after: Some(Duration::from_secs(10)),
    };
    assert_eq!(error.retry_after(), Some(Duration::from_secs(10)));

    let error = AiError::Auth("failed".into());
    assert_eq!(error.retry_after(), None);
}

#[test]
fn error_code_is_in_fixed_enumeration_for_every_variant() {
    let codes = [
        "AUTH_ERROR",
        "RATE_LIMIT_ERROR",
        "TOOL_ERROR",
        "VALIDATION_ERROR",
        "NETWORK_ERROR",
        "PROVIDER_ERROR",
        "TIMEOUT_ERROR",
        "SERIALIZATION_ERROR",
        "INTERNAL_ERROR",
        "STREAM_ERROR",
        "CONFIG_ERROR",
    ];
    for e in all_variants() {
        let c = e.error_code();
        assert!(!c.is_empty());
        assert!(codes.contains(&c), "unexpected code {c}");
        // Stable across repeated calls on the same value.
        assert_eq!(e.error_code(), c);
    }
}

#[test]
fn error_code_maps_each_variant_exactly() {
    let expected = [
        "AUTH_ERROR",
        "RATE_LIMIT_ERROR",
        "RATE_LIMIT_ERROR",
        "TOOL_ERROR",
        "VALIDATION_ERROR",
        "NETWORK_ERROR",
        "PROVIDER_ERROR",
        "TIMEOUT_ERROR",
        "SERIALIZATION_ERROR",
        "INTERNAL_ERROR",
        "TOOL_ERROR",
        "TOOL_ERROR",
        "VALIDATION_ERROR",
        "STREAM_ERROR",
        "CONFIG_ERROR",
    ];
    let variants = all_variants();
    assert_eq!(variants.len(), expected.len());
    for (e, want) in variants.iter().zip(expected.iter()) {
        assert_eq!(e.error_code(), *want);
    }
}

#[test]
fn retryable_iff_rate_limit_network_or_timeout() {
    for e in all_variants() {
        let transient = matches!(
            e,
            AiError::RateLimit { .. } | AiError::Network(_) | AiError::Timeout(_)
        );
        assert_eq!(e.is_retryable(), transient);
    }
}

#[test]
fn retry_after_absent_outside_the_transient_variants() {
    for e in all_variants() {
        if !e.is_retryable() {
            assert_eq!(e.retry_after(), None);
        }
    }
}

#[test]
fn rate_limit_with_delay_is_retryable_with_that_delay() {
    let e = AiError::RateLimit {
        retry_after: Some(Duration::from_secs(5)),
    };
    assert!(e.is_retryable());
    assert_eq!(e.retry_after(), Some(Duration::from_secs(5)));
}

#[test]
fn rate_limit_without_delay_is_still_retryable() {
    let e = AiError::RateLimit { retry_after: None };
    assert_eq!(e.retry_after(), None);
    assert!(e.is_retryable());
}

#[test]
fn network_advises_one_second_regardless_of_cause() {
    let e = AiError::Network(transport_fault());
    assert_eq!(e.retry_after(), Some(Duration::from_secs(1)));
}

#[test]
fn timeout_advises_fixed_two_seconds() {
    let e = AiError::Timeout(Duration::from_secs(3));
    assert_eq!(e.retry_after(), Some(Duration::from_secs(2)));
}

#[test]
fn auth_error_scenario() {
    let e = AiError::Auth("bad key".to_string());
    assert_eq!(e.error_code(), "AUTH_ERROR");
    assert!(!e.is_retryable());
    assert_eq!(e.retry_after(), None);
}

#[test]
fn all_tool_variants_share_the_tool_code() {
    let a = AiError::Tool {
        tool_name: "x".to_string(),
        message: "boom".to_string(),
    };
    let b = AiError::NoSuchTool("x".to_string());
    let c = AiError::InvalidToolInput {
        tool_name: "x".to_string(),
        reason: "r".to_string(),
    };
    assert_eq!(a.error_code(), "TOOL_ERROR");
    assert_eq!(b.error_code(), "TOOL_ERROR");
    assert_eq!(c.error_code(), "TOOL_ERROR");
}

#[test]
fn conversion_from_transport_fault_keeps_its_text() {
    let fault = transport_fault();
    let fault_text = format!("{fault}");
    let e = AiError::from(fault);
    assert_eq!(e.error_code(), "NETWORK_ERROR");
    let rendered = e.render();
    assert!(
        rendered.contains(&fault_text),
        "rendered {rendered:?} does not contain {fault_text:?}"
    );
}

#[test]
fn conversion_from_codec_fault_keeps_its_text() {
    let fault = codec_fault();
    let fault_text = format!("{fault}");
    let e = AiError::from(fault);
    assert_eq!(e.error_code(), "SERIALIZATION_ERROR");
    let rendered = e.render();
    assert!(
        rendered.contains(&fault_text),
        "rendered {rendered:?} does not contain {fault_text:?}"
    );
}
