use vstd::prelude::*;

verus! {

/// Why a raw error body could not be turned into a typed value.
///
/// Every failure is surfaced to the caller exactly as diagnosed; nothing is
/// coerced to a default and nothing is retried here.
#[derive(Debug)]
pub enum ParseError {
    /// A field the wire contract requires was absent; carries the field name.
    MissingField(String),
    /// The `reason` value is a string outside the closed set; carries the
    /// offending string verbatim.
    UnknownReason(String),
    /// A field was present but its value had the wrong type, for example a
    /// `timestamp` that is not an unsigned integer.
    TypeMismatch,
    /// The body is not a well-formed object of the wire contract's shape.
    Malformed,
}

/// The mathematical image of a `ParseError`, with string payloads as
/// character sequences. Contracts speak of this form.
pub enum ReasonParseFault {
    MissingField(Seq<char>),
    UnknownReason(Seq<char>),
    TypeMismatch,
    Malformed,
}

impl View for ParseError {
    type V = ReasonParseFault;

    open spec fn view(&self) -> ReasonParseFault {
        match self {
            ParseError::MissingField(f) => ReasonParseFault::MissingField(f@),
            ParseError::UnknownReason(s) => ReasonParseFault::UnknownReason(s@),
            ParseError::TypeMismatch => ReasonParseFault::TypeMismatch,
            ParseError::Malformed => ReasonParseFault::Malformed,
        }
    }
}

} // verus!
