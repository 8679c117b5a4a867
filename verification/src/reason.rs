use vstd::prelude::*;
use crate::chars::chars_of;
use crate::chars::range_eq_str;
use crate::error::ParseError;
use crate::error::ReasonParseFault;

verus! {

/// A description of what went wrong with a push notification: the closed,
/// exhaustive set of failure reasons the server can report. An unrecognized
/// wire value is a parse failure, never a default member of this set.
#[derive(Debug, Clone, Copy, PartialEq, Eq, Structural)]
pub enum ErrorReason {
    /// The collapse identifier exceeds the maximum allowed size.
    BadCollapseId,
    /// The specified device token was bad. Verify that the request contains a valid token and that the token matches the environment.
    BadDeviceToken,
    /// The `apns_expiration` in `NotificationOptions` is bad.
    BadExpirationDate,
    /// The `apns_id` in `NotificationOptions` is bad.
    BadMessageId,
    /// The `apns_priority` in `NotificationOptions` is bad.
    BadPriority,
    /// The `apns_topic` in `NotificationOptions` is bad.
    BadTopic,
    /// The device token does not match the specified topic.
    DeviceTokenNotForTopic,
    /// One or more headers were repeated.
    DuplicateHeaders,
    /// Idle time out.
    IdleTimeout,
    /// The device token is not specified in the payload.
    MissingDeviceToken,
    /// The `apns_topic` of the `NotificationOptions` was not specified and was required. The `apns_topic` header is mandatory when the client is connected using the `CertificateConnector` and the included PKCS12 file includes multiple topics, or when using the `TokenConnector`.
    MissingTopic,
    /// The message payload was empty.
    PayloadEmpty,
    /// Pushing to this topic is not allowed.
    TopicDisallowed,
    /// The certificate was bad.
    BadCertificate,
    /// The client certificate was for the wrong environment.
    BadCertificateEnvironment,
    /// The provider token is stale and a new token should be generated.
    ExpiredProviderToken,
    /// The specified action is not allowed.
    Forbidden,
    /// The provider token is not valid or the token signature could not be verified.
    InvalidProviderToken,
    /// No provider certificate was used to connect to APNs and Authorization header was missing or no provider token was specified.
    MissingProviderToken,
    /// The request path value is bad.
    BadPath,
    /// The request method was not `POST`.
    MethodNotAllowed,
    /// The device token is inactive for the specified topic. You should stop sending notifications to this token.
    Unregistered,
    /// The message payload was too large (4096 bytes)
    PayloadTooLarge,
    /// The provider token is being updated too often.
    TooManyProviderTokenUpdates,
    /// Too many requests were made consecutively to the same device token.
    TooManyRequests,
    /// An internal server error occurred.
    InternalServerError,
    /// The service is unavailable.
    ServiceUnavailable,
    /// The server is shutting down.
    Shutdown,
}

/// The wire-level identifier of a reason: the exact string the server sends.
pub open spec fn spec_wire(r: ErrorReason) -> Seq<char> {
    match r {
        ErrorReason::BadCollapseId => "BadCollapseId"@,
        ErrorReason::BadDeviceToken => "BadDeviceToken"@,
        ErrorReason::BadExpirationDate => "BadExpirationDate"@,
        ErrorReason::BadMessageId => "BadMessageId"@,
        ErrorReason::BadPriority => "BadPriority"@,
        ErrorReason::BadTopic => "BadTopic"@,
        ErrorReason::DeviceTokenNotForTopic => "DeviceTokenNotForTopic"@,
        ErrorReason::DuplicateHeaders => "DuplicateHeaders"@,
        ErrorReason::IdleTimeout => "IdleTimeout"@,
        ErrorReason::MissingDeviceToken => "MissingDeviceToken"@,
        ErrorReason::MissingTopic => "MissingTopic"@,
        ErrorReason::PayloadEmpty => "PayloadEmpty"@,
        ErrorReason::TopicDisallowed => "TopicDisallowed"@,
        ErrorReason::BadCertificate => "BadCertificate"@,
        ErrorReason::BadCertificateEnvironment => "BadCertificateEnvironment"@,
        ErrorReason::ExpiredProviderToken => "ExpiredProviderToken"@,
        ErrorReason::Forbidden => "Forbidden"@,
        ErrorReason::InvalidProviderToken => "InvalidProviderToken"@,
        ErrorReason::MissingProviderToken => "MissingProviderToken"@,
        ErrorReason::BadPath => "BadPath"@,
        ErrorReason::MethodNotAllowed => "MethodNotAllowed"@,
        ErrorReason::Unregistered => "Unregistered"@,
        ErrorReason::PayloadTooLarge => "PayloadTooLarge"@,
        ErrorReason::TooManyProviderTokenUpdates => "TooManyProviderTokenUpdates"@,
        ErrorReason::TooManyRequests => "TooManyRequests"@,
        ErrorReason::InternalServerError => "InternalServerError"@,
        ErrorReason::ServiceUnavailable => "ServiceUnavailable"@,
        ErrorReason::Shutdown => "Shutdown"@,
    }
}

/// The fixed human-readable explanation of a reason, for logs and
/// diagnostics; it is never re-parsed.
pub open spec fn spec_description(r: ErrorReason) -> Seq<char> {
    match r {
        ErrorReason::BadCollapseId => "The collapse identifier exceeds the maximum allowed size."@,
        ErrorReason::BadDeviceToken => "The specified device token was bad. Verify that the request contains a valid token and that the token matches the environment."@,
        ErrorReason::BadExpirationDate => "The `apns_expiration` in `NotificationOptions` is bad."@,
        ErrorReason::BadMessageId => "The `apns_id` in `NotificationOptions` is bad."@,
        ErrorReason::BadPriority => "The `apns_priority` in `NotificationOptions` is bad."@,
        ErrorReason::BadTopic => "The `apns_topic` in `NotificationOptions` is bad."@,
        ErrorReason::DeviceTokenNotForTopic => "The device token does not match the specified topic."@,
        ErrorReason::DuplicateHeaders => "One or more headers were repeated."@,
        ErrorReason::IdleTimeout => "Idle time out."@,
        ErrorReason::MissingDeviceToken => "The device token is not specified in the payload."@,
        ErrorReason::MissingTopic => "The `apns_topic` of the `NotificationOptions` was not specified and was required. The `apns_topic` header is mandatory when the client is connected using the `CertificateConnector` and the included PKCS12 file includes multiple topics, or when using the `TokenConnector`."@,
        ErrorReason::PayloadEmpty => "The message payload was empty."@,
        ErrorReason::TopicDisallowed => "Pushing to this topic is not allowed."@,
        ErrorReason::BadCertificate => "The certificate was bad."@,
        ErrorReason::BadCertificateEnvironment => "The client certificate was for the wrong environment."@,
        ErrorReason::ExpiredProviderToken => "The provider token is stale and a new token should be generated."@,
        ErrorReason::Forbidden => "The specified action is not allowed."@,
        ErrorReason::InvalidProviderToken => "The provider token is not valid or the token signature could not be verified."@,
        ErrorReason::MissingProviderToken => "No provider certificate was used to connect to APNs and Authorization header was missing or no provider token was specified."@,
        ErrorReason::BadPath => "The request path value is bad."@,
        ErrorReason::MethodNotAllowed => "The request method was not `POST`."@,
        ErrorReason::Unregistered => "The device token is inactive for the specified topic. You should stop sending notifications to this token."@,
        ErrorReason::PayloadTooLarge => "The message payload was too large (4096 bytes)"@,
        ErrorReason::TooManyProviderTokenUpdates => "The provider token is being updated too often."@,
        ErrorReason::TooManyRequests => "Too many requests were made consecutively to the same device token."@,
        ErrorReason::InternalServerError => "An internal server error occurred."@,
        ErrorReason::ServiceUnavailable => "The service is unavailable."@,
        ErrorReason::Shutdown => "The server is shutting down."@,
    }
}

/// The reason a wire string denotes: `None` exactly when the string lies
/// outside the closed set. Matching is exact and case-sensitive.
pub open spec fn spec_reason_of(s: Seq<char>) -> Option<ErrorReason> {
    if s == "BadCollapseId"@ {
        Some(ErrorReason::BadCollapseId)
    } else if s == "BadDeviceToken"@ {
        Some(ErrorReason::BadDeviceToken)
    } else if s == "BadExpirationDate"@ {
        Some(ErrorReason::BadExpirationDate)
    } else if s == "BadMessageId"@ {
        Some(ErrorReason::BadMessageId)
    } else if s == "BadPriority"@ {
        Some(ErrorReason::BadPriority)
    } else if s == "BadTopic"@ {
        Some(ErrorReason::BadTopic)
    } else if s == "DeviceTokenNotForTopic"@ {
        Some(ErrorReason::DeviceTokenNotForTopic)
    } else if s == "DuplicateHeaders"@ {
        Some(ErrorReason::DuplicateHeaders)
    } else if s == "IdleTimeout"@ {
        Some(ErrorReason::IdleTimeout)
    } else if s == "MissingDeviceToken"@ {
        Some(ErrorReason::MissingDeviceToken)
    } else if s == "MissingTopic"@ {
        Some(ErrorReason::MissingTopic)
    } else if s == "PayloadEmpty"@ {
        Some(ErrorReason::PayloadEmpty)
    } else if s == "TopicDisallowed"@ {
        Some(ErrorReason::TopicDisallowed)
    } else if s == "BadCertificate"@ {
        Some(ErrorReason::BadCertificate)
    } else if s == "BadCertificateEnvironment"@ {
        Some(ErrorReason::BadCertificateEnvironment)
    } else if s == "ExpiredProviderToken"@ {
        Some(ErrorReason::ExpiredProviderToken)
    } else if s == "Forbidden"@ {
        Some(ErrorReason::Forbidden)
    } else if s == "InvalidProviderToken"@ {
        Some(ErrorReason::InvalidProviderToken)
    } else if s == "MissingProviderToken"@ {
        Some(ErrorReason::MissingProviderToken)
    } else if s == "BadPath"@ {
        Some(ErrorReason::BadPath)
    } else if s == "MethodNotAllowed"@ {
        Some(ErrorReason::MethodNotAllowed)
    } else if s == "Unregistered"@ {
        Some(ErrorReason::Unregistered)
    } else if s == "PayloadTooLarge"@ {
        Some(ErrorReason::PayloadTooLarge)
    } else if s == "TooManyProviderTokenUpdates"@ {
        Some(ErrorReason::TooManyProviderTokenUpdates)
    } else if s == "TooManyRequests"@ {
        Some(ErrorReason::TooManyRequests)
    } else if s == "InternalServerError"@ {
        Some(ErrorReason::InternalServerError)
    } else if s == "ServiceUnavailable"@ {
        Some(ErrorReason::ServiceUnavailable)
    } else if s == "Shutdown"@ {
        Some(ErrorReason::Shutdown)
    } else {
        None
    }
}

/// The reason spelled by the characters of `v` from `from` to `to`, or
/// `None` when they spell no member of the closed set.
pub(crate) fn reason_of_range(v: &Vec<char>, from: usize, to: usize) -> (r: Option<ErrorReason>)
    requires
        from <= to <= v@.len(),
    ensures
        r == spec_reason_of(v@.subrange(from as int, to as int)),
{
    if range_eq_str(v, from, to, "BadCollapseId") {
        Some(ErrorReason::BadCollapseId)
    } else if range_eq_str(v, from, to, "BadDeviceToken") {
        Some(ErrorReason::BadDeviceToken)
    } else if range_eq_str(v, from, to, "BadExpirationDate") {
        Some(ErrorReason::BadExpirationDate)
    } else if range_eq_str(v, from, to, "BadMessageId") {
        Some(ErrorReason::BadMessageId)
    } else if range_eq_str(v, from, to, "BadPriority") {
        Some(ErrorReason::BadPriority)
    } else if range_eq_str(v, from, to, "BadTopic") {
        Some(ErrorReason::BadTopic)
    } else if range_eq_str(v, from, to, "DeviceTokenNotForTopic") {
        Some(ErrorReason::DeviceTokenNotForTopic)
    } else if range_eq_str(v, from, to, "DuplicateHeaders") {
        Some(ErrorReason::DuplicateHeaders)
    } else if range_eq_str(v, from, to, "IdleTimeout") {
        Some(ErrorReason::IdleTimeout)
    } else if range_eq_str(v, from, to, "MissingDeviceToken") {
        Some(ErrorReason::MissingDeviceToken)
    } else if range_eq_str(v, from, to, "MissingTopic") {
        Some(ErrorReason::MissingTopic)
    } else if range_eq_str(v, from, to, "PayloadEmpty") {
        Some(ErrorReason::PayloadEmpty)
    } else if range_eq_str(v, from, to, "TopicDisallowed") {
        Some(ErrorReason::TopicDisallowed)
    } else if range_eq_str(v, from, to, "BadCertificate") {
        Some(ErrorReason::BadCertificate)
    } else if range_eq_str(v, from, to, "BadCertificateEnvironment") {
        Some(ErrorReason::BadCertificateEnvironment)
    } else if range_eq_str(v, from, to, "ExpiredProviderToken") {
        Some(ErrorReason::ExpiredProviderToken)
    } else if range_eq_str(v, from, to, "Forbidden") {
        Some(ErrorReason::Forbidden)
    } else if range_eq_str(v, from, to, "InvalidProviderToken") {
        Some(ErrorReason::InvalidProviderToken)
    } else if range_eq_str(v, from, to, "MissingProviderToken") {
        Some(ErrorReason::MissingProviderToken)
    } else if range_eq_str(v, from, to, "BadPath") {
        Some(ErrorReason::BadPath)
    } else if range_eq_str(v, from, to, "MethodNotAllowed") {
        Some(ErrorReason::MethodNotAllowed)
    } else if range_eq_str(v, from, to, "Unregistered") {
        Some(ErrorReason::Unregistered)
    } else if range_eq_str(v, from, to, "PayloadTooLarge") {
        Some(ErrorReason::PayloadTooLarge)
    } else if range_eq_str(v, from, to, "TooManyProviderTokenUpdates") {
        Some(ErrorReason::TooManyProviderTokenUpdates)
    } else if range_eq_str(v, from, to, "TooManyRequests") {
        Some(ErrorReason::TooManyRequests)
    } else if range_eq_str(v, from, to, "InternalServerError") {
        Some(ErrorReason::InternalServerError)
    } else if range_eq_str(v, from, to, "ServiceUnavailable") {
        Some(ErrorReason::ServiceUnavailable)
    } else if range_eq_str(v, from, to, "Shutdown") {
        Some(ErrorReason::Shutdown)
    } else {
        None
    }
}

impl ErrorReason {
    /// The exact wire identifier of this reason.
    pub fn wire_str(&self) -> (r: &'static str)
        ensures
            r@ == spec_wire(*self),
    {
        match *self {
            ErrorReason::BadCollapseId => "BadCollapseId",
            ErrorReason::BadDeviceToken => "BadDeviceToken",
            ErrorReason::BadExpirationDate => "BadExpirationDate",
            ErrorReason::BadMessageId => "BadMessageId",
            ErrorReason::BadPriority => "BadPriority",
            ErrorReason::BadTopic => "BadTopic",
            ErrorReason::DeviceTokenNotForTopic => "DeviceTokenNotForTopic",
            ErrorReason::DuplicateHeaders => "DuplicateHeaders",
            ErrorReason::IdleTimeout => "IdleTimeout",
            ErrorReason::MissingDeviceToken => "MissingDeviceToken",
            ErrorReason::MissingTopic => "MissingTopic",
            ErrorReason::PayloadEmpty => "PayloadEmpty",
            ErrorReason::TopicDisallowed => "TopicDisallowed",
            ErrorReason::BadCertificate => "BadCertificate",
            ErrorReason::BadCertificateEnvironment => "BadCertificateEnvironment",
            ErrorReason::ExpiredProviderToken => "ExpiredProviderToken",
            ErrorReason::Forbidden => "Forbidden",
            ErrorReason::InvalidProviderToken => "InvalidProviderToken",
            ErrorReason::MissingProviderToken => "MissingProviderToken",
            ErrorReason::BadPath => "BadPath",
            ErrorReason::MethodNotAllowed => "MethodNotAllowed",
            ErrorReason::Unregistered => "Unregistered",
            ErrorReason::PayloadTooLarge => "PayloadTooLarge",
            ErrorReason::TooManyProviderTokenUpdates => "TooManyProviderTokenUpdates",
            ErrorReason::TooManyRequests => "TooManyRequests",
            ErrorReason::InternalServerError => "InternalServerError",
            ErrorReason::ServiceUnavailable => "ServiceUnavailable",
            ErrorReason::Shutdown => "Shutdown",
        }
    }

    /// The fixed explanation of this reason, one sentence, never localized.
    pub fn description(&self) -> (r: &'static str)
        ensures
            r@ == spec_description(*self),
    {
        match *self {
            ErrorReason::BadCollapseId => "The collapse identifier exceeds the maximum allowed size.",
            ErrorReason::BadDeviceToken => "The specified device token was bad. Verify that the request contains a valid token and that the token matches the environment.",
            ErrorReason::BadExpirationDate => "The `apns_expiration` in `NotificationOptions` is bad.",
            ErrorReason::BadMessageId => "The `apns_id` in `NotificationOptions` is bad.",
            ErrorReason::BadPriority => "The `apns_priority` in `NotificationOptions` is bad.",
            ErrorReason::BadTopic => "The `apns_topic` in `NotificationOptions` is bad.",
            ErrorReason::DeviceTokenNotForTopic => "The device token does not match the specified topic.",
            ErrorReason::DuplicateHeaders => "One or more headers were repeated.",
            ErrorReason::IdleTimeout => "Idle time out.",
            ErrorReason::MissingDeviceToken => "The device token is not specified in the payload.",
            ErrorReason::MissingTopic => "The `apns_topic` of the `NotificationOptions` was not specified and was required. The `apns_topic` header is mandatory when the client is connected using the `CertificateConnector` and the included PKCS12 file includes multiple topics, or when using the `TokenConnector`.",
            ErrorReason::PayloadEmpty => "The message payload was empty.",
            ErrorReason::TopicDisallowed => "Pushing to this topic is not allowed.",
            ErrorReason::BadCertificate => "The certificate was bad.",
            ErrorReason::BadCertificateEnvironment => "The client certificate was for the wrong environment.",
            ErrorReason::ExpiredProviderToken => "The provider token is stale and a new token should be generated.",
            ErrorReason::Forbidden => "The specified action is not allowed.",
            ErrorReason::InvalidProviderToken => "The provider token is not valid or the token signature could not be verified.",
            ErrorReason::MissingProviderToken => "No provider certificate was used to connect to APNs and Authorization header was missing or no provider token was specified.",
            ErrorReason::BadPath => "The request path value is bad.",
            ErrorReason::MethodNotAllowed => "The request method was not `POST`.",
            ErrorReason::Unregistered => "The device token is inactive for the specified topic. You should stop sending notifications to this token.",
            ErrorReason::PayloadTooLarge => "The message payload was too large (4096 bytes)",
            ErrorReason::TooManyProviderTokenUpdates => "The provider token is being updated too often.",
            ErrorReason::TooManyRequests => "Too many requests were made consecutively to the same device token.",
            ErrorReason::InternalServerError => "An internal server error occurred.",
            ErrorReason::ServiceUnavailable => "The service is unavailable.",
            ErrorReason::Shutdown => "The server is shutting down.",
        }
    }

    /// Parses a wire string into a reason: exact, case-sensitive match
    /// against the closed set; any other string is rejected and carried back
    /// verbatim in the error.
    pub fn from_wire(s: &str) -> (r: Result<ErrorReason, ParseError>)
        ensures
            match r {
                Ok(reason) => spec_reason_of(s@) == Some(reason),
                Err(e) => spec_reason_of(s@) is None && e@ == ReasonParseFault::UnknownReason(s@),
            },
    {
        let v = chars_of(s);
        proof {
            assert(v@.subrange(0, v@.len() as int) =~= s@);
        }
        match reason_of_range(&v, 0, v.len()) {
            Some(reason) => Ok(reason),
            None => Err(ParseError::UnknownReason(s.to_owned())),
        }
    }
}

/// Serializing a reason's wire string and parsing it back yields the same
/// reason: the wire mapping round-trips over the whole closed set. The
/// asserted lengths and leading characters distinguish every two wire
/// strings, so each cascade arm of `spec_reason_of` resolves.
pub proof fn lemma_wire_round_trip(r: ErrorReason)
    ensures
        spec_reason_of(spec_wire(r)) == Some(r),
{
    reveal_strlit("BadCollapseId");
    reveal_strlit("BadDeviceToken");
    reveal_strlit("BadExpirationDate");
    reveal_strlit("BadMessageId");
    reveal_strlit("BadPriority");
    reveal_strlit("BadTopic");
    reveal_strlit("DeviceTokenNotForTopic");
    reveal_strlit("DuplicateHeaders");
    reveal_strlit("IdleTimeout");
    reveal_strlit("MissingDeviceToken");
    reveal_strlit("MissingTopic");
    reveal_strlit("PayloadEmpty");
    reveal_strlit("TopicDisallowed");
    reveal_strlit("BadCertificate");
    reveal_strlit("BadCertificateEnvironment");
    reveal_strlit("ExpiredProviderToken");
    reveal_strlit("Forbidden");
    reveal_strlit("InvalidProviderToken");
    reveal_strlit("MissingProviderToken");
    reveal_strlit("BadPath");
    reveal_strlit("MethodNotAllowed");
    reveal_strlit("Unregistered");
    reveal_strlit("PayloadTooLarge");
    reveal_strlit("TooManyProviderTokenUpdates");
    reveal_strlit("TooManyRequests");
    reveal_strlit("InternalServerError");
    reveal_strlit("ServiceUnavailable");
    reveal_strlit("Shutdown");
    assert("BadCollapseId"@.len() == 13);
    assert("BadCollapseId"@[0] == 'B');
    assert("BadCollapseId"@[2] == 'd');
    assert("BadCollapseId"@[3] == 'C');
    assert("BadDeviceToken"@.len() == 14);
    assert("BadDeviceToken"@[0] == 'B');
    assert("BadDeviceToken"@[2] == 'd');
    assert("BadDeviceToken"@[3] == 'D');
    assert("BadExpirationDate"@.len() == 17);
    assert("BadExpirationDate"@[0] == 'B');
    assert("BadExpirationDate"@[2] == 'd');
    assert("BadExpirationDate"@[3] == 'E');
    assert("BadMessageId"@.len() == 12);
    assert("BadMessageId"@[0] == 'B');
    assert("BadMessageId"@[2] == 'd');
    assert("BadMessageId"@[3] == 'M');
    assert("BadPriority"@.len() == 11);
    assert("BadPriority"@[0] == 'B');
    assert("BadPriority"@[2] == 'd');
    assert("BadPriority"@[3] == 'P');
    assert("BadTopic"@.len() == 8);
    assert("BadTopic"@[0] == 'B');
    assert("BadTopic"@[2] == 'd');
    assert("BadTopic"@[3] == 'T');
    assert("DeviceTokenNotForTopic"@.len() == 22);
    assert("DeviceTokenNotForTopic"@[0] == 'D');
    assert("DeviceTokenNotForTopic"@[2] == 'v');
    assert("DeviceTokenNotForTopic"@[3] == 'i');
    assert("DuplicateHeaders"@.len() == 16);
    assert("DuplicateHeaders"@[0] == 'D');
    assert("DuplicateHeaders"@[2] == 'p');
    assert("DuplicateHeaders"@[3] == 'l');
    assert("IdleTimeout"@.len() == 11);
    assert("IdleTimeout"@[0] == 'I');
    assert("IdleTimeout"@[2] == 'l');
    assert("IdleTimeout"@[3] == 'e');
    assert("MissingDeviceToken"@.len() == 18);
    assert("MissingDeviceToken"@[0] == 'M');
    assert("MissingDeviceToken"@[2] == 's');
    assert("MissingDeviceToken"@[3] == 's');
    assert("MissingTopic"@.len() == 12);
    assert("MissingTopic"@[0] == 'M');
    assert("MissingTopic"@[2] == 's');
    assert("MissingTopic"@[3] == 's');
    assert("PayloadEmpty"@.len() == 12);
    assert("PayloadEmpty"@[0] == 'P');
    assert("PayloadEmpty"@[2] == 'y');
    assert("PayloadEmpty"@[3] == 'l');
    assert("TopicDisallowed"@.len() == 15);
    assert("TopicDisallowed"@[0] == 'T');
    assert("TopicDisallowed"@[2] == 'p');
    assert("TopicDisallowed"@[3] == 'i');
    assert("BadCertificate"@.len() == 14);
    assert("BadCertificate"@[0] == 'B');
    assert("BadCertificate"@[2] == 'd');
    assert("BadCertificate"@[3] == 'C');
    assert("BadCertificateEnvironment"@.len() == 25);
    assert("BadCertificateEnvironment"@[0] == 'B');
    assert("BadCertificateEnvironment"@[2] == 'd');
    assert("BadCertificateEnvironment"@[3] == 'C');
    assert("ExpiredProviderToken"@.len() == 20);
    assert("ExpiredProviderToken"@[0] == 'E');
    assert("ExpiredProviderToken"@[2] == 'p');
    assert("ExpiredProviderToken"@[3] == 'i');
    assert("Forbidden"@.len() == 9);
    assert("Forbidden"@[0] == 'F');
    assert("Forbidden"@[2] == 'r');
    assert("Forbidden"@[3] == 'b');
    assert("InvalidProviderToken"@.len() == 20);
    assert("InvalidProviderToken"@[0] == 'I');
    assert("InvalidProviderToken"@[2] == 'v');
    assert("InvalidProviderToken"@[3] == 'a');
    assert("MissingProviderToken"@.len() == 20);
    assert("MissingProviderToken"@[0] == 'M');
    assert("MissingProviderToken"@[2] == 's');
    assert("MissingProviderToken"@[3] == 's');
    assert("BadPath"@.len() == 7);
    assert("BadPath"@[0] == 'B');
    assert("BadPath"@[2] == 'd');
    assert("BadPath"@[3] == 'P');
    assert("MethodNotAllowed"@.len() == 16);
    assert("MethodNotAllowed"@[0] == 'M');
    assert("MethodNotAllowed"@[2] == 't');
    assert("MethodNotAllowed"@[3] == 'h');
    assert("Unregistered"@.len() == 12);
    assert("Unregistered"@[0] == 'U');
    assert("Unregistered"@[2] == 'r');
    assert("Unregistered"@[3] == 'e');
    assert("PayloadTooLarge"@.len() == 15);
    assert("PayloadTooLarge"@[0] == 'P');
    assert("PayloadTooLarge"@[2] == 'y');
    assert("PayloadTooLarge"@[3] == 'l');
    assert("TooManyProviderTokenUpdates"@.len() == 27);
    assert("TooManyProviderTokenUpdates"@[0] == 'T');
    assert("TooManyProviderTokenUpdates"@[2] == 'o');
    assert("TooManyProviderTokenUpdates"@[3] == 'M');
    assert("TooManyRequests"@.len() == 15);
    assert("TooManyRequests"@[0] == 'T');
    assert("TooManyRequests"@[2] == 'o');
    assert("TooManyRequests"@[3] == 'M');
    assert("InternalServerError"@.len() == 19);
    assert("InternalServerError"@[0] == 'I');
    assert("InternalServerError"@[2] == 't');
    assert("InternalServerError"@[3] == 'e');
    assert("ServiceUnavailable"@.len() == 18);
    assert("ServiceUnavailable"@[0] == 'S');
    assert("ServiceUnavailable"@[2] == 'r');
    assert("ServiceUnavailable"@[3] == 'v');
    assert("Shutdown"@.len() == 8);
    assert("Shutdown"@[0] == 'S');
    assert("Shutdown"@[2] == 'u');
    assert("Shutdown"@[3] == 't');
    match r {
        ErrorReason::BadCollapseId => {
            assert(spec_reason_of("BadCollapseId"@) == Some(ErrorReason::BadCollapseId));
        }
        ErrorReason::BadDeviceToken => {
            assert(spec_reason_of("BadDeviceToken"@) == Some(ErrorReason::BadDeviceToken));
        }
        ErrorReason::BadExpirationDate => {
            assert(spec_reason_of("BadExpirationDate"@) == Some(ErrorReason::BadExpirationDate));
        }
        ErrorReason::BadMessageId => {
            assert(spec_reason_of("BadMessageId"@) == Some(ErrorReason::BadMessageId));
        }
        ErrorReason::BadPriority => {
            assert(spec_reason_of("BadPriority"@) == Some(ErrorReason::BadPriority));
        }
        ErrorReason::BadTopic => {
            assert(spec_reason_of("BadTopic"@) == Some(ErrorReason::BadTopic));
        }
        ErrorReason::DeviceTokenNotForTopic => {
            assert(spec_reason_of("DeviceTokenNotForTopic"@) == Some(ErrorReason::DeviceTokenNotForTopic));
        }
        ErrorReason::DuplicateHeaders => {
            assert(spec_reason_of("DuplicateHeaders"@) == Some(ErrorReason::DuplicateHeaders));
        }
        ErrorReason::IdleTimeout => {
            assert(spec_reason_of("IdleTimeout"@) == Some(ErrorReason::IdleTimeout));
        }
        ErrorReason::MissingDeviceToken => {
            assert(spec_reason_of("MissingDeviceToken"@) == Some(ErrorReason::MissingDeviceToken));
        }
        ErrorReason::MissingTopic => {
            assert(spec_reason_of("MissingTopic"@) == Some(ErrorReason::MissingTopic));
        }
        ErrorReason::PayloadEmpty => {
            assert(spec_reason_of("PayloadEmpty"@) == Some(ErrorReason::PayloadEmpty));
        }
        ErrorReason::TopicDisallowed => {
            assert(spec_reason_of("TopicDisallowed"@) == Some(ErrorReason::TopicDisallowed));
        }
        ErrorReason::BadCertificate => {
            assert(spec_reason_of("BadCertificate"@) == Some(ErrorReason::BadCertificate));
        }
        ErrorReason::BadCertificateEnvironment => {
            assert(spec_reason_of("BadCertificateEnvironment"@) == Some(ErrorReason::BadCertificateEnvironment));
        }
        ErrorReason::ExpiredProviderToken => {
            assert(spec_reason_of("ExpiredProviderToken"@) == Some(ErrorReason::ExpiredProviderToken));
        }
        ErrorReason::Forbidden => {
            assert(spec_reason_of("Forbidden"@) == Some(ErrorReason::Forbidden));
        }
        ErrorReason::InvalidProviderToken => {
            assert(spec_reason_of("InvalidProviderToken"@) == Some(ErrorReason::InvalidProviderToken));
        }
        ErrorReason::MissingProviderToken => {
            assert(spec_reason_of("MissingProviderToken"@) == Some(ErrorReason::MissingProviderToken));
        }
        ErrorReason::BadPath => {
            assert(spec_reason_of("BadPath"@) == Some(ErrorReason::BadPath));
        }
        ErrorReason::MethodNotAllowed => {
            assert(spec_reason_of("MethodNotAllowed"@) == Some(ErrorReason::MethodNotAllowed));
        }
        ErrorReason::Unregistered => {
            assert(spec_reason_of("Unregistered"@) == Some(ErrorReason::Unregistered));
        }
        ErrorReason::PayloadTooLarge => {
            assert(spec_reason_of("PayloadTooLarge"@) == Some(ErrorReason::PayloadTooLarge));
        }
        ErrorReason::TooManyProviderTokenUpdates => {
            assert(spec_reason_of("TooManyProviderTokenUpdates"@) == Some(ErrorReason::TooManyProviderTokenUpdates));
        }
        ErrorReason::TooManyRequests => {
            assert(spec_reason_of("TooManyRequests"@) == Some(ErrorReason::TooManyRequests));
        }
        ErrorReason::InternalServerError => {
            assert(spec_reason_of("InternalServerError"@) == Some(ErrorReason::InternalServerError));
        }
        ErrorReason::ServiceUnavailable => {
            assert(spec_reason_of("ServiceUnavailable"@) == Some(ErrorReason::ServiceUnavailable));
        }
        ErrorReason::Shutdown => {
            assert(spec_reason_of("Shutdown"@) == Some(ErrorReason::Shutdown));
        }
    }
}

/// No two distinct reasons share a wire string: together with the round
/// trip, the wire mapping is a bijection over the closed set.
pub proof fn lemma_wire_injective(a: ErrorReason, b: ErrorReason)
    requires
        a != b,
    ensures
        spec_wire(a) != spec_wire(b),
{
    lemma_wire_round_trip(a);
    lemma_wire_round_trip(b);
}

/// Every reason has a non-empty description.
pub proof fn lemma_description_nonempty(r: ErrorReason)
    ensures
        spec_description(r).len() > 0,
{
    reveal_strlit("The collapse identifier exceeds the maximum allowed size.");
    reveal_strlit("The specified device token was bad. Verify that the request contains a valid token and that the token matches the environment.");
    reveal_strlit("The `apns_expiration` in `NotificationOptions` is bad.");
    reveal_strlit("The `apns_id` in `NotificationOptions` is bad.");
    reveal_strlit("The `apns_priority` in `NotificationOptions` is bad.");
    reveal_strlit("The `apns_topic` in `NotificationOptions` is bad.");
    reveal_strlit("The device token does not match the specified topic.");
    reveal_strlit("One or more headers were repeated.");
    reveal_strlit("Idle time out.");
    reveal_strlit("The device token is not specified in the payload.");
    reveal_strlit("The `apns_topic` of the `NotificationOptions` was not specified and was required. The `apns_topic` header is mandatory when the client is connected using the `CertificateConnector` and the included PKCS12 file includes multiple topics, or when using the `TokenConnector`.");
    reveal_strlit("The message payload was empty.");
    reveal_strlit("Pushing to this topic is not allowed.");
    reveal_strlit("The certificate was bad.");
    reveal_strlit("The client certificate was for the wrong environment.");
    reveal_strlit("The provider token is stale and a new token should be generated.");
    reveal_strlit("The specified action is not allowed.");
    reveal_strlit("The provider token is not valid or the token signature could not be verified.");
    reveal_strlit("No provider certificate was used to connect to APNs and Authorization header was missing or no provider token was specified.");
    reveal_strlit("The request path value is bad.");
    reveal_strlit("The request method was not `POST`.");
    reveal_strlit("The device token is inactive for the specified topic. You should stop sending notifications to this token.");
    reveal_strlit("The message payload was too large (4096 bytes)");
    reveal_strlit("The provider token is being updated too often.");
    reveal_strlit("Too many requests were made consecutively to the same device token.");
    reveal_strlit("An internal server error occurred.");
    reveal_strlit("The service is unavailable.");
    reveal_strlit("The server is shutting down.");
}

/// No two distinct reasons share a description: the explanation text alone
/// identifies the reason. The asserted lengths, and one differing character
/// for each pair of equally long texts, tell every two descriptions apart.
pub proof fn lemma_description_injective(a: ErrorReason, b: ErrorReason)
    requires
        a != b,
    ensures
        spec_description(a) != spec_description(b),
{
    reveal_strlit("The collapse identifier exceeds the maximum allowed size.");
    reveal_strlit("The specified device token was bad. Verify that the request contains a valid token and that the token matches the environment.");
    reveal_strlit("The `apns_expiration` in `NotificationOptions` is bad.");
    reveal_strlit("The `apns_id` in `NotificationOptions` is bad.");
    reveal_strlit("The `apns_priority` in `NotificationOptions` is bad.");
    reveal_strlit("The `apns_topic` in `NotificationOptions` is bad.");
    reveal_strlit("The device token does not match the specified topic.");
    reveal_strlit("One or more headers were repeated.");
    reveal_strlit("Idle time out.");
    reveal_strlit("The device token is not specified in the payload.");
    reveal_strlit("The `apns_topic` of the `NotificationOptions` was not specified and was required. The `apns_topic` header is mandatory when the client is connected using the `CertificateConnector` and the included PKCS12 file includes multiple topics, or when using the `TokenConnector`.");
    reveal_strlit("The message payload was empty.");
    reveal_strlit("Pushing to this topic is not allowed.");
    reveal_strlit("The certificate was bad.");
    reveal_strlit("The client certificate was for the wrong environment.");
    reveal_strlit("The provider token is stale and a new token should be generated.");
    reveal_strlit("The specified action is not allowed.");
    reveal_strlit("The provider token is not valid or the token signature could not be verified.");
    reveal_strlit("No provider certificate was used to connect to APNs and Authorization header was missing or no provider token was specified.");
    reveal_strlit("The request path value is bad.");
    reveal_strlit("The request method was not `POST`.");
    reveal_strlit("The device token is inactive for the specified topic. You should stop sending notifications to this token.");
    reveal_strlit("The message payload was too large (4096 bytes)");
    reveal_strlit("The provider token is being updated too often.");
    reveal_strlit("Too many requests were made consecutively to the same device token.");
    reveal_strlit("An internal server error occurred.");
    reveal_strlit("The service is unavailable.");
    reveal_strlit("The server is shutting down.");
    assert("The collapse identifier exceeds the maximum allowed size."@.len() == 57);
    assert("The collapse identifier exceeds the maximum allowed size."@[0] == 'T');
    assert("The collapse identifier exceeds the maximum allowed size."@[4] == 'c');
    assert("The specified device token was bad. Verify that the request contains a valid token and that the token matches the environment."@.len() == 126);
    assert("The specified device token was bad. Verify that the request contains a valid token and that the token matches the environment."@[0] == 'T');
    assert("The specified device token was bad. Verify that the request contains a valid token and that the token matches the environment."@[4] == 's');
    assert("The `apns_expiration` in `NotificationOptions` is bad."@.len() == 54);
    assert("The `apns_expiration` in `NotificationOptions` is bad."@[0] == 'T');
    assert("The `apns_expiration` in `NotificationOptions` is bad."@[4] == '`');
    assert("The `apns_id` in `NotificationOptions` is bad."@.len() == 46);
    assert("The `apns_id` in `NotificationOptions` is bad."@[0] == 'T');
    assert("The `apns_id` in `NotificationOptions` is bad."@[4] == '`');
    assert("The `apns_priority` in `NotificationOptions` is bad."@.len() == 52);
    assert("The `apns_priority` in `NotificationOptions` is bad."@[0] == 'T');
    assert("The `apns_priority` in `NotificationOptions` is bad."@[4] == '`');
    assert("The `apns_topic` in `NotificationOptions` is bad."@.len() == 49);
    assert("The `apns_topic` in `NotificationOptions` is bad."@[0] == 'T');
    assert("The `apns_topic` in `NotificationOptions` is bad."@[4] == '`');
    assert("The device token does not match the specified topic."@.len() == 52);
    assert("The device token does not match the specified topic."@[0] == 'T');
    assert("The device token does not match the specified topic."@[4] == 'd');
    assert("One or more headers were repeated."@.len() == 34);
    assert("One or more headers were repeated."@[0] == 'O');
    assert("One or more headers were repeated."@[4] == 'o');
    assert("Idle time out."@.len() == 14);
    assert("Idle time out."@[0] == 'I');
    assert("Idle time out."@[4] == ' ');
    assert("The device token is not specified in the payload."@.len() == 49);
    assert("The device token is not specified in the payload."@[0] == 'T');
    assert("The device token is not specified in the payload."@[4] == 'd');
    assert("The `apns_topic` of the `NotificationOptions` was not specified and was required. The `apns_topic` header is mandatory when the client is connected using the `CertificateConnector` and the included PKCS12 file includes multiple topics, or when using the `TokenConnector`."@.len() == 271);
    assert("The `apns_topic` of the `NotificationOptions` was not specified and was required. The `apns_topic` header is mandatory when the client is connected using the `CertificateConnector` and the included PKCS12 file includes multiple topics, or when using the `TokenConnector`."@[0] == 'T');
    assert("The `apns_topic` of the `NotificationOptions` was not specified and was required. The `apns_topic` header is mandatory when the client is connected using the `CertificateConnector` and the included PKCS12 file includes multiple topics, or when using the `TokenConnector`."@[4] == '`');
    assert("The message payload was empty."@.len() == 30);
    assert("The message payload was empty."@[0] == 'T');
    assert("The message payload was empty."@[4] == 'm');
    assert("Pushing to this topic is not allowed."@.len() == 37);
    assert("Pushing to this topic is not allowed."@[0] == 'P');
    assert("Pushing to this topic is not allowed."@[4] == 'i');
    assert("The certificate was bad."@.len() == 24);
    assert("The certificate was bad."@[0] == 'T');
    assert("The certificate was bad."@[4] == 'c');
    assert("The client certificate was for the wrong environment."@.len() == 53);
    assert("The client certificate was for the wrong environment."@[0] == 'T');
    assert("The client certificate was for the wrong environment."@[4] == 'c');
    assert("The provider token is stale and a new token should be generated."@.len() == 64);
    assert("The provider token is stale and a new token should be generated."@[0] == 'T');
    assert("The provider token is stale and a new token should be generated."@[4] == 'p');
    assert("The specified action is not allowed."@.len() == 36);
    assert("The specified action is not allowed."@[0] == 'T');
    assert("The specified action is not allowed."@[4] == 's');
    assert("The provider token is not valid or the token signature could not be verified."@.len() == 77);
    assert("The provider token is not valid or the token signature could not be verified."@[0] == 'T');
    assert("The provider token is not valid or the token signature could not be verified."@[4] == 'p');
    assert("No provider certificate was used to connect to APNs and Authorization header was missing or no provider token was specified."@.len() == 124);
    assert("No provider certificate was used to connect to APNs and Authorization header was missing or no provider token was specified."@[0] == 'N');
    assert("No provider certificate was used to connect to APNs and Authorization header was missing or no provider token was specified."@[4] == 'r');
    assert("The request path value is bad."@.len() == 30);
    assert("The request path value is bad."@[0] == 'T');
    assert("The request path value is bad."@[4] == 'r');
    assert("The request method was not `POST`."@.len() == 34);
    assert("The request method was not `POST`."@[0] == 'T');
    assert("The request method was not `POST`."@[4] == 'r');
    assert("The device token is inactive for the specified topic. You should stop sending notifications to this token."@.len() == 106);
    assert("The device token is inactive for the specified topic. You should stop sending notifications to this token."@[0] == 'T');
    assert("The device token is inactive for the specified topic. You should stop sending notifications to this token."@[4] == 'd');
    assert("The message payload was too large (4096 bytes)"@.len() == 46);
    assert("The message payload was too large (4096 bytes)"@[0] == 'T');
    assert("The message payload was too large (4096 bytes)"@[4] == 'm');
    assert("The provider token is being updated too often."@.len() == 46);
    assert("The provider token is being updated too often."@[0] == 'T');
    assert("The provider token is being updated too often."@[4] == 'p');
    assert("Too many requests were made consecutively to the same device token."@.len() == 67);
    assert("Too many requests were made consecutively to the same device token."@[0] == 'T');
    assert("Too many requests were made consecutively to the same device token."@[4] == 'm');
    assert("An internal server error occurred."@.len() == 34);
    assert("An internal server error occurred."@[0] == 'A');
    assert("An internal server error occurred."@[4] == 'n');
    assert("The service is unavailable."@.len() == 27);
    assert("The service is unavailable."@[0] == 'T');
    assert("The service is unavailable."@[4] == 's');
    assert("The server is shutting down."@.len() == 28);
    assert("The server is shutting down."@[0] == 'T');
    assert("The server is shutting down."@[4] == 's');
    match a {
        ErrorReason::BadCollapseId => {
            assert(spec_description(a) != spec_description(b));
        }
        ErrorReason::BadDeviceToken => {
            assert(spec_description(a) != spec_description(b));
        }
        ErrorReason::BadExpirationDate => {
            assert(spec_description(a) != spec_description(b));
        }
        ErrorReason::BadMessageId => {
            assert(spec_description(a) != spec_description(b));
        }
        ErrorReason::BadPriority => {
            assert(spec_description(a) != spec_description(b));
        }
        ErrorReason::BadTopic => {
            assert(spec_description(a) != spec_description(b));
        }
        ErrorReason::DeviceTokenNotForTopic => {
            assert(spec_description(a) != spec_description(b));
        }
        ErrorReason::DuplicateHeaders => {
            assert(spec_description(a) != spec_description(b));
        }
        ErrorReason::IdleTimeout => {
            assert(spec_description(a) != spec_description(b));
        }
        ErrorReason::MissingDeviceToken => {
            assert(spec_description(a) != spec_description(b));
        }
        ErrorReason::MissingTopic => {
            assert(spec_description(a) != spec_description(b));
        }
        ErrorReason::PayloadEmpty => {
            assert(spec_description(a) != spec_description(b));
        }
        ErrorReason::TopicDisallowed => {
            assert(spec_description(a) != spec_description(b));
        }
        ErrorReason::BadCertificate => {
            assert(spec_description(a) != spec_description(b));
        }
        ErrorReason::BadCertificateEnvironment => {
            assert(spec_description(a) != spec_description(b));
        }
        ErrorReason::ExpiredProviderToken => {
            assert(spec_description(a) != spec_description(b));
        }
        ErrorReason::Forbidden => {
            assert(spec_description(a) != spec_description(b));
        }
        ErrorReason::InvalidProviderToken => {
            assert(spec_description(a) != spec_description(b));
        }
        ErrorReason::MissingProviderToken => {
            assert(spec_description(a) != spec_description(b));
        }
        ErrorReason::BadPath => {
            assert(spec_description(a) != spec_description(b));
        }
        ErrorReason::MethodNotAllowed => {
            assert(spec_description(a) != spec_description(b));
        }
        ErrorReason::Unregistered => {
            assert(spec_description(a) != spec_description(b));
        }
        ErrorReason::PayloadTooLarge => {
            assert(spec_description(a) != spec_description(b));
        }
        ErrorReason::TooManyProviderTokenUpdates => {
            assert(spec_description(a) != spec_description(b));
        }
        ErrorReason::TooManyRequests => {
            assert(spec_description(a) != spec_description(b));
        }
        ErrorReason::InternalServerError => {
            assert(spec_description(a) != spec_description(b));
        }
        ErrorReason::ServiceUnavailable => {
            assert(spec_description(a) != spec_description(b));
        }
        ErrorReason::Shutdown => {
            assert(spec_description(a) != spec_description(b));
        }
    }
}

} // verus!
