use apns_response::ErrorReason;
use apns_response::ParseError;

fn all_reasons() -> Vec<ErrorReason> {
    vec![
        ErrorReason::BadCollapseId,
        ErrorReason::BadDeviceToken,
        ErrorReason::BadExpirationDate,
        ErrorReason::BadMessageId,
        ErrorReason::BadPriority,
        ErrorReason::BadTopic,
        ErrorReason::DeviceTokenNotForTopic,
        ErrorReason::DuplicateHeaders,
        ErrorReason::IdleTimeout,
        ErrorReason::MissingDeviceToken,
        ErrorReason::MissingTopic,
        ErrorReason::PayloadEmpty,
        ErrorReason::TopicDisallowed,
        ErrorReason::BadCertificate,
        ErrorReason::BadCertificateEnvironment,
        ErrorReason::ExpiredProviderToken,
        ErrorReason::Forbidden,
        ErrorReason::InvalidProviderToken,
        ErrorReason::MissingProviderToken,
        ErrorReason::BadPath,
        ErrorReason::MethodNotAllowed,
        ErrorReason::Unregistered,
        ErrorReason::PayloadTooLarge,
        ErrorReason::TooManyProviderTokenUpdates,
        ErrorReason::TooManyRequests,
        ErrorReason::InternalServerError,
        ErrorReason::ServiceUnavailable,
        ErrorReason::Shutdown,
    ]
}

#[test]
fn wire_round_trip_over_the_closed_set() {
    for reason in all_reasons() {
        let wire = reason.wire_str();
        match ErrorReason::from_wire(wire) {
            Ok(parsed) => assert_eq!(parsed, reason),
            Err(e) => panic!("wire string {} did not parse back: {:?}", wire, e),
        }
    }
}

#[test]
fn wire_strings_are_distinct() {
    let reasons = all_reasons();
    for (i, a) in reasons.iter().enumerate() {
        for (j, b) in reasons.iter().enumerate() {
            if i != j {
                assert_ne!(a.wire_str(), b.wire_str());
            }
        }
    }
}

#[test]
fn descriptions_are_nonempty_and_distinct() {
    let reasons = all_reasons();
    for a in reasons.iter() {
        assert!(!a.description().is_empty());
    }
    for (i, a) in reasons.iter().enumerate() {
        for (j, b) in reasons.iter().enumerate() {
            if i != j {
                assert_ne!(a.description(), b.description());
            }
        }
    }
}

#[test]
fn unregistered_description_text() {
    assert_eq!(
        ErrorReason::Unregistered.description(),
        "The device token is inactive for the specified topic. You should stop sending notifications to this token."
    );
}

#[test]
fn shutdown_description_text() {
    assert_eq!(
        ErrorReason::Shutdown.description(),
        "The server is shutting down."
    );
}

#[test]
fn from_wire_rejects_outside_strings() {
    for bad in ["", "unregistered", "UNREGISTERED", "Shutdown ", "Bogus"] {
        match ErrorReason::from_wire(bad) {
            Err(ParseError::UnknownReason(s)) => assert_eq!(s, bad),
            other => panic!("expected an unknown-reason fault for {:?}, got {:?}", bad, other),
        }
    }
}

#[test]
fn equality_is_structural() {
    assert_eq!(ErrorReason::Forbidden, ErrorReason::Forbidden);
    assert_ne!(ErrorReason::Forbidden, ErrorReason::Shutdown);
}
