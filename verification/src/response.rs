use vstd::prelude::*;
use crate::error::ParseError;
use crate::parse::spec_parse_body;
use crate::reason::ErrorReason;

verus! {

/// The response body the server sends for a failed delivery, in typed form.
#[derive(Debug, Clone, Copy, PartialEq, Eq, Structural)]
pub struct ErrorBody {
    /// The error indicating the reason for the failure.
    pub reason: ErrorReason,

    /// If the reason is `Unregistered`, the last time at which the server
    /// confirmed that the device token was no longer valid for the topic.
    /// Stop pushing notifications until the device registers a token with a
    /// later timestamp with your provider.
    ///
    /// The wire format is variant-agnostic, so a timestamp on any other
    /// reason is accepted and stored, but callers should treat it as
    /// meaningless.
    pub timestamp: Option<u64>,
}

/// The outcome of one delivery attempt.
#[derive(Debug)]
pub struct Response {
    /// If the notification was not successful, the typed body content the
    /// server sent back.
    pub error: Option<ErrorBody>,

    /// Either the identifier the caller supplied with the request or one
    /// the server generated; absent only when the server never produced one.
    /// Opaque to this model and copied verbatim.
    pub apns_id: Option<String>,

    /// The HTTP response code.
    ///
    /// * 200 Success
    /// * 400 Bad request
    /// * 403 There was an error with the certificate or with the provider authentication token
    /// * 405 The request used a bad `:method` value. Only `POST` requests are supported.
    /// * 410 The device token is no longer active for the topic.
    /// * 413 The notification payload was too large.
    /// * 429 The server received too many requests for the same device token.
    /// * 500 Internal server error.
    /// * 503 The server is shutting down and unavailable.
    pub code: u16,
}

/// Whether a status code reports a successful delivery.
pub open spec fn spec_is_success(code: u16) -> bool {
    code == 200
}

impl Response {
    /// Combines a status code, an optional identifier header value and an
    /// optional raw body into one immutable result. On a failure status with
    /// a body, the error is exactly the parsed body, and a parse fault
    /// propagates instead of a result; on a success status the error is
    /// `None` whatever the transport supplied. The identifier is copied
    /// verbatim, with no validation.
    pub fn assemble(code: u16, apns_id: Option<String>, body: Option<&str>) -> (r: Result<
        Response,
        ParseError,
    >)
        ensures
            match r {
                Ok(resp) => {
                    &&& resp.code == code
                    &&& resp.apns_id == apns_id
                    &&& match body {
                        Some(raw) => {
                            if spec_is_success(code) {
                                resp.error is None
                            } else {
                                spec_parse_body(raw@) matches Ok(b) && resp.error == Some(b)
                            }
                        },
                        None => resp.error is None,
                    }
                },
                Err(e) => {
                    &&& !spec_is_success(code)
                    &&& body matches Some(raw) && spec_parse_body(raw@) matches Err(fault)
                        && e@ == fault
                },
            },
    {
        if code == 200 {
            return Ok(Response { error: None, apns_id: apns_id, code: code });
        }
        match body {
            None => Ok(Response { error: None, apns_id: apns_id, code: code }),
            Some(raw) => match ErrorBody::parse(raw) {
                Ok(b) => Ok(Response { error: Some(b), apns_id: apns_id, code: code }),
                Err(e) => Err(e),
            },
        }
    }
}

} // verus!
