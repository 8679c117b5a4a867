use apns_response::ErrorBody;
use apns_response::ErrorReason;
use apns_response::ParseError;

#[test]
fn test_error_response_parsing() {
    let errors = vec![
        (ErrorReason::BadCollapseId, "BadCollapseId", None),
        (ErrorReason::BadDeviceToken, "BadDeviceToken", None),
        (ErrorReason::BadExpirationDate, "BadExpirationDate", None),
        (ErrorReason::BadMessageId, "BadMessageId", None),
        (ErrorReason::BadPriority, "BadPriority", None),
        (ErrorReason::BadTopic, "BadTopic", None),
        (
            ErrorReason::DeviceTokenNotForTopic,
            "DeviceTokenNotForTopic",
            None,
        ),
        (ErrorReason::DuplicateHeaders, "DuplicateHeaders", None),
        (ErrorReason::IdleTimeout, "IdleTimeout", None),
        (ErrorReason::MissingDeviceToken, "MissingDeviceToken", None),
        (ErrorReason::MissingTopic, "MissingTopic", None),
        (ErrorReason::PayloadEmpty, "PayloadEmpty", None),
        (ErrorReason::TopicDisallowed, "TopicDisallowed", None),
        (ErrorReason::BadCertificate, "BadCertificate", None),
        (
            ErrorReason::BadCertificateEnvironment,
            "BadCertificateEnvironment",
            None,
        ),
        (
            ErrorReason::ExpiredProviderToken,
            "ExpiredProviderToken",
            None,
        ),
        (ErrorReason::Forbidden, "Forbidden", None),
        (
            ErrorReason::InvalidProviderToken,
            "InvalidProviderToken",
            None,
        ),
        (
            ErrorReason::MissingProviderToken,
            "MissingProviderToken",
            None,
        ),
        (ErrorReason::BadPath, "BadPath", None),
        (ErrorReason::MethodNotAllowed, "MethodNotAllowed", None),
        (
            ErrorReason::Unregistered,
            "Unregistered",
            Some(1508249865488u64),
        ),
        (ErrorReason::PayloadTooLarge, "PayloadTooLarge", None),
        (
            ErrorReason::TooManyProviderTokenUpdates,
            "TooManyProviderTokenUpdates",
            None,
        ),
        (ErrorReason::TooManyRequests, "TooManyRequests", None),
        (
            ErrorReason::InternalServerError,
            "InternalServerError",
            None,
        ),
        (ErrorReason::ServiceUnavailable, "ServiceUnavailable", None),
        (ErrorReason::Shutdown, "Shutdown", None),
    ];

    for error in errors.into_iter() {
        let response_string = match error.2 {
            None => format!("{{\"reason\":\"{}\"}}", error.1),
            Some(ts) => format!("{{\"reason\":\"{}\",\"timestamp\":{}}}", error.1, ts),
        };

        let response_body: ErrorBody = ErrorBody::parse(&response_string).unwrap();

        let expected_body = match error.2 {
            None => ErrorBody {
                reason: error.0,
                timestamp: None,
            },
            Some(ts) => ErrorBody {
                reason: error.0,
                timestamp: Some(ts),
            },
        };

        assert_eq!(expected_body, response_body);
    }
}

#[test]
fn unregistered_timestamp_passthrough() {
    let body = ErrorBody::parse("{\"reason\":\"Unregistered\",\"timestamp\":1508249865488}")
        .unwrap();
    assert_eq!(body.reason, ErrorReason::Unregistered);
    assert_eq!(body.timestamp, Some(1508249865488u64));
}

#[test]
fn timestamp_omitted() {
    let body = ErrorBody::parse("{\"reason\":\"BadDeviceToken\"}").unwrap();
    assert_eq!(body.reason, ErrorReason::BadDeviceToken);
    assert_eq!(body.timestamp, None);
}

#[test]
fn unknown_reason_rejected() {
    match ErrorBody::parse("{\"reason\":\"NotARealReason\"}") {
        Err(ParseError::UnknownReason(s)) => assert_eq!(s, "NotARealReason"),
        other => panic!("expected an unknown-reason fault, got {:?}", other),
    }
}

#[test]
fn missing_reason_rejected() {
    match ErrorBody::parse("{\"timestamp\": 123}") {
        Err(ParseError::MissingField(f)) => assert_eq!(f, "reason"),
        other => panic!("expected a missing-field fault, got {:?}", other),
    }
}

#[test]
fn empty_object_rejected() {
    match ErrorBody::parse("{}") {
        Err(ParseError::MissingField(f)) => assert_eq!(f, "reason"),
        other => panic!("expected a missing-field fault, got {:?}", other),
    }
}

#[test]
fn parsing_is_idempotent() {
    let text = "{\"reason\":\"Unregistered\",\"timestamp\":1508249865488}";
    let first = ErrorBody::parse(text).unwrap();
    let second = ErrorBody::parse(text).unwrap();
    assert_eq!(first, second);

    let bad = "{\"reason\":\"NotARealReason\"}";
    match (ErrorBody::parse(bad), ErrorBody::parse(bad)) {
        (Err(ParseError::UnknownReason(a)), Err(ParseError::UnknownReason(b))) => {
            assert_eq!(a, b)
        }
        other => panic!("expected matching unknown-reason faults, got {:?}", other),
    }
}

#[test]
fn timestamp_on_any_reason_is_stored() {
    let body = ErrorBody::parse("{\"reason\":\"BadTopic\",\"timestamp\":7}").unwrap();
    assert_eq!(body.reason, ErrorReason::BadTopic);
    assert_eq!(body.timestamp, Some(7));
}

#[test]
fn members_in_either_order() {
    let body = ErrorBody::parse("{\"timestamp\":42,\"reason\":\"Shutdown\"}").unwrap();
    assert_eq!(body.reason, ErrorReason::Shutdown);
    assert_eq!(body.timestamp, Some(42));
}

#[test]
fn whitespace_between_tokens() {
    let body =
        ErrorBody::parse(" {\t\"reason\" :\n\"Shutdown\" ,\r\"timestamp\" : 42 } ").unwrap();
    assert_eq!(body.reason, ErrorReason::Shutdown);
    assert_eq!(body.timestamp, Some(42));
}

#[test]
fn null_timestamp_means_absent() {
    let body = ErrorBody::parse("{\"reason\":\"Shutdown\",\"timestamp\":null}").unwrap();
    assert_eq!(body.timestamp, None);
}

#[test]
fn zero_timestamp() {
    let body = ErrorBody::parse("{\"reason\":\"Shutdown\",\"timestamp\":0}").unwrap();
    assert_eq!(body.timestamp, Some(0));
}

#[test]
fn largest_timestamp() {
    let body =
        ErrorBody::parse("{\"reason\":\"Shutdown\",\"timestamp\":18446744073709551615}").unwrap();
    assert_eq!(body.timestamp, Some(u64::MAX));
}

#[test]
fn oversized_timestamp_is_a_type_mismatch() {
    let r = ErrorBody::parse("{\"reason\":\"Shutdown\",\"timestamp\":18446744073709551616}");
    assert!(matches!(r, Err(ParseError::TypeMismatch)));
}

#[test]
fn string_timestamp_is_a_type_mismatch() {
    let r = ErrorBody::parse("{\"reason\":\"Shutdown\",\"timestamp\":\"soon\"}");
    assert!(matches!(r, Err(ParseError::TypeMismatch)));
}

#[test]
fn negative_timestamp_is_a_type_mismatch() {
    let r = ErrorBody::parse("{\"reason\":\"Shutdown\",\"timestamp\":-1}");
    assert!(matches!(r, Err(ParseError::TypeMismatch)));
}

#[test]
fn fractional_timestamp_is_a_type_mismatch() {
    let r = ErrorBody::parse("{\"reason\":\"Shutdown\",\"timestamp\":1.5}");
    assert!(matches!(r, Err(ParseError::TypeMismatch)));
    let r = ErrorBody::parse("{\"reason\":\"Shutdown\",\"timestamp\":1e3}");
    assert!(matches!(r, Err(ParseError::TypeMismatch)));
}

#[test]
fn boolean_timestamp_is_a_type_mismatch() {
    let r = ErrorBody::parse("{\"reason\":\"Shutdown\",\"timestamp\":true}");
    assert!(matches!(r, Err(ParseError::TypeMismatch)));
}

#[test]
fn numeric_reason_is_a_type_mismatch() {
    let r = ErrorBody::parse("{\"reason\":123}");
    assert!(matches!(r, Err(ParseError::TypeMismatch)));
}

#[test]
fn null_reason_is_a_type_mismatch() {
    let r = ErrorBody::parse("{\"reason\":null}");
    assert!(matches!(r, Err(ParseError::TypeMismatch)));
}

#[test]
fn empty_text_is_malformed() {
    assert!(matches!(ErrorBody::parse(""), Err(ParseError::Malformed)));
}

#[test]
fn non_object_is_malformed() {
    assert!(matches!(
        ErrorBody::parse("\"Unregistered\""),
        Err(ParseError::Malformed)
    ));
    assert!(matches!(
        ErrorBody::parse("[1,2]"),
        Err(ParseError::Malformed)
    ));
}

#[test]
fn unknown_members_are_skipped() {
    let body = ErrorBody::parse("{\"reason\":\"Shutdown\",\"other\":1}").unwrap();
    assert_eq!(body.reason, ErrorReason::Shutdown);
    assert_eq!(body.timestamp, None);

    let body = ErrorBody::parse(
        "{\"apns-id\":\"x-1\",\"reason\":\"Unregistered\",\"note\":null,\"timestamp\":7}",
    )
    .unwrap();
    assert_eq!(body.reason, ErrorReason::Unregistered);
    assert_eq!(body.timestamp, Some(7));
}

#[test]
fn unknown_members_of_every_value_kind_are_skipped() {
    let cases = [
        "\"text\"",
        "\"\"",
        "-12.5e+3",
        "0",
        "true",
        "false",
        "null",
        "{}",
        "{\"a\":1,\"b\":[2,{\"c\":3}]}",
        "[]",
        "[1,\"two\",null,[true]]",
    ];
    for value in cases {
        let text = format!("{{\"reason\":\"Shutdown\",\"extra\":{}}}", value);
        let body = ErrorBody::parse(&text).unwrap();
        assert_eq!(body.reason, ErrorReason::Shutdown);
        assert_eq!(body.timestamp, None);
    }
}

#[test]
fn repeated_unknown_members_are_skipped() {
    let body = ErrorBody::parse("{\"x\":1,\"x\":2,\"reason\":\"Shutdown\"}").unwrap();
    assert_eq!(body.reason, ErrorReason::Shutdown);
}

#[test]
fn only_unknown_members_still_misses_reason() {
    match ErrorBody::parse("{\"cause\":\"Shutdown\"}") {
        Err(ParseError::MissingField(f)) => assert_eq!(f, "reason"),
        other => panic!("expected a missing-field fault, got {:?}", other),
    }
}

#[test]
fn malformed_unknown_value_is_malformed() {
    for value in ["tru", "01", "1.", "1e", "{", "[1,", "{\"a\"}", "[1 2]", "nope"] {
        let text = format!("{{\"reason\":\"Shutdown\",\"extra\":{}}}", value);
        assert!(
            matches!(ErrorBody::parse(&text), Err(ParseError::Malformed)),
            "value {:?} should leave the body malformed",
            value
        );
    }
}

#[test]
fn escapes_in_skipped_strings_are_accepted() {
    let body = ErrorBody::parse(
        "{\"reason\":\"Shutdown\",\"note\":\"a\\\"b\\\\c\\/d\\b\\f\\n\\r\\t\\u0041\"}",
    )
    .unwrap();
    assert_eq!(body.reason, ErrorReason::Shutdown);
}

#[test]
fn surrogate_pair_escape_is_accepted() {
    let body = ErrorBody::parse("{\"reason\":\"Shutdown\",\"note\":\"\\uD834\\uDD1E\"}").unwrap();
    assert_eq!(body.reason, ErrorReason::Shutdown);
    match ErrorBody::parse("{\"reason\":\"\\uD834\\uDD1E\"}") {
        Err(ParseError::UnknownReason(s)) => assert_eq!(s, "\u{1D11E}"),
        other => panic!("expected an unknown-reason fault, got {:?}", other),
    }
}

#[test]
fn repeated_member_is_malformed() {
    assert!(matches!(
        ErrorBody::parse("{\"reason\":\"Shutdown\",\"reason\":\"Shutdown\"}"),
        Err(ParseError::Malformed)
    ));
    assert!(matches!(
        ErrorBody::parse("{\"timestamp\":1,\"timestamp\":2}"),
        Err(ParseError::Malformed)
    ));
}

#[test]
fn trailing_text_is_malformed() {
    assert!(matches!(
        ErrorBody::parse("{\"reason\":\"Shutdown\"} x"),
        Err(ParseError::Malformed)
    ));
}

#[test]
fn trailing_comma_is_malformed() {
    assert!(matches!(
        ErrorBody::parse("{\"reason\":\"Shutdown\",}"),
        Err(ParseError::Malformed)
    ));
}

#[test]
fn unterminated_body_is_malformed() {
    assert!(matches!(
        ErrorBody::parse("{\"reason\":\"Shutdown\""),
        Err(ParseError::Malformed)
    ));
    assert!(matches!(
        ErrorBody::parse("{\"reason\":\"Shutdown"),
        Err(ParseError::Malformed)
    ));
}

#[test]
fn escaped_reason_decodes_before_matching() {
    let body = ErrorBody::parse("{\"reason\":\"\\u0053hutdown\"}").unwrap();
    assert_eq!(body.reason, ErrorReason::Shutdown);
    let body = ErrorBody::parse("{\"reason\":\"Shutdow\\u006E\"}").unwrap();
    assert_eq!(body.reason, ErrorReason::Shutdown);
}

#[test]
fn escaped_key_decodes_before_matching() {
    let body = ErrorBody::parse("{\"\\u0072eason\":\"Shutdown\",\"t\\u0069mestamp\":5}").unwrap();
    assert_eq!(body.reason, ErrorReason::Shutdown);
    assert_eq!(body.timestamp, Some(5));
}

#[test]
fn duplicate_member_via_escaped_key_is_malformed() {
    assert!(matches!(
        ErrorBody::parse("{\"reason\":\"Shutdown\",\"\\u0072eason\":\"Shutdown\"}"),
        Err(ParseError::Malformed)
    ));
}

#[test]
fn unknown_reason_is_carried_back_decoded() {
    match ErrorBody::parse("{\"reason\":\"Not\\tReal\\\\Reason\"}") {
        Err(ParseError::UnknownReason(s)) => assert_eq!(s, "Not\tReal\\Reason"),
        other => panic!("expected an unknown-reason fault, got {:?}", other),
    }
}

#[test]
fn ill_formed_escapes_are_malformed() {
    for body in [
        "{\"reason\":\"Shutdown\",\"note\":\"\\x\"}",
        "{\"reason\":\"Shutdown\",\"note\":\"\\u12\"}",
        "{\"reason\":\"Shutdown\",\"note\":\"\\u12GZ\"}",
        "{\"reason\":\"Shutdown\",\"note\":\"\\uD834\"}",
        "{\"reason\":\"Shutdown\",\"note\":\"\\uDD1E\"}",
        "{\"reason\":\"Shutdown\",\"note\":\"\\uD834\\u0041\"}",
        "{\"reason\":\"Shutdown\",\"note\":\"x\\\"}",
    ] {
        assert!(
            matches!(ErrorBody::parse(body), Err(ParseError::Malformed)),
            "body {:?} should be malformed",
            body
        );
    }
}

#[test]
fn raw_control_character_in_string_is_malformed() {
    assert!(matches!(
        ErrorBody::parse("{\"reason\":\"Shut\ndown\"}"),
        Err(ParseError::Malformed)
    ));
    assert!(matches!(
        ErrorBody::parse("{\"reason\":\"Shutdown\",\"note\":\"a\tb\"}"),
        Err(ParseError::Malformed)
    ));
}

#[test]
fn leading_zero_timestamp_is_malformed() {
    assert!(matches!(
        ErrorBody::parse("{\"reason\":\"Shutdown\",\"timestamp\":007}"),
        Err(ParseError::Malformed)
    ));
}
