//! Typed model of a push-notification server's acknowledgment: the closed
//! taxonomy of failure reasons, the parsing of a raw error body into a typed
//! value, and the assembly of status code, identifier and parsed body into
//! one immutable delivery result.

mod chars;
pub mod error;
pub mod parse;
pub mod reason;
pub mod response;

pub use error::ParseError;
pub use error::ReasonParseFault;
pub use reason::ErrorReason;
pub use response::ErrorBody;
pub use response::Response;
