use apns_response::ErrorBody;
use apns_response::ErrorReason;
use apns_response::ParseError;
use apns_response::Response;

#[test]
fn success_without_body_has_no_error() {
    let resp = Response::assemble(200, None, None).unwrap();
    assert_eq!(resp.code, 200);
    assert_eq!(resp.apns_id, None);
    assert!(resp.error.is_none());
}

#[test]
fn success_ignores_a_body() {
    let resp = Response::assemble(200, Some("abc-123".to_owned()), Some("{\"reason\":\"Shutdown\"}"))
        .unwrap();
    assert!(resp.error.is_none());
    assert_eq!(resp.apns_id.as_deref(), Some("abc-123"));
}

#[test]
fn failure_with_body_carries_the_parsed_error() {
    let resp = Response::assemble(
        410,
        Some("e7c43a91".to_owned()),
        Some("{\"reason\":\"Unregistered\",\"timestamp\":1508249865488}"),
    )
    .unwrap();
    assert_eq!(resp.code, 410);
    assert_eq!(resp.apns_id.as_deref(), Some("e7c43a91"));
    assert_eq!(
        resp.error,
        Some(ErrorBody {
            reason: ErrorReason::Unregistered,
            timestamp: Some(1508249865488),
        })
    );
}

#[test]
fn failure_without_body_has_no_error() {
    let resp = Response::assemble(500, None, None).unwrap();
    assert_eq!(resp.code, 500);
    assert!(resp.error.is_none());
}

#[test]
fn failure_with_bad_body_propagates_the_fault() {
    let r = Response::assemble(400, None, Some("{\"reason\":\"NotARealReason\"}"));
    match r {
        Err(ParseError::UnknownReason(s)) => assert_eq!(s, "NotARealReason"),
        other => panic!("expected an unknown-reason fault, got {:?}", other),
    }
    let r = Response::assemble(400, None, Some("not json"));
    assert!(matches!(r, Err(ParseError::Malformed)));
}

#[test]
fn identifier_is_copied_verbatim() {
    let resp = Response::assemble(400, Some("  anything at all  ".to_owned()), Some("{\"reason\":\"BadPath\"}"))
        .unwrap();
    assert_eq!(resp.apns_id.as_deref(), Some("  anything at all  "));
}
