//! Failure kinds of the protocol layer.

use vstd::prelude::*;
use vstd::string::*;

verus! {

/// A protocol failure, with a human-readable detail.
#[derive(Debug, Clone, PartialEq, Eq)]
pub enum ProtocolError {
    /// Text that is none of the four commands.
    InvalidCommand(String),
    /// A response whose tag is unknown.
    InvalidResponse(String),
    /// A frame that could not be read whole.
    ConnectionError(String),
    /// A payload that is not valid UTF-8, or a malformed response body.
    ParseError(String),
}

/// A protocol error with its detail as a character sequence.
pub enum ProtocolErrorView {
    InvalidCommand(Seq<char>),
    InvalidResponse(Seq<char>),
    ConnectionError(Seq<char>),
    ParseError(Seq<char>),
}

impl View for ProtocolError {
    type V = ProtocolErrorView;

    open spec fn view(&self) -> ProtocolErrorView {
        match self {
            ProtocolError::InvalidCommand(s) => ProtocolErrorView::InvalidCommand(s@),
            ProtocolError::InvalidResponse(s) => ProtocolErrorView::InvalidResponse(s@),
            ProtocolError::ConnectionError(s) => ProtocolErrorView::ConnectionError(s@),
            ProtocolError::ParseError(s) => ProtocolErrorView::ParseError(s@),
        }
    }
}

/// The human-readable text of an error: its kind, then its detail.
pub open spec fn error_text(e: ProtocolErrorView) -> Seq<char> {
    match e {
        ProtocolErrorView::InvalidCommand(s) => "Invalid command: "@ + s,
        ProtocolErrorView::InvalidResponse(s) => "Invalid response: "@ + s,
        ProtocolErrorView::ConnectionError(s) => "Connection error: "@ + s,
        ProtocolErrorView::ParseError(s) => "Parse error: "@ + s,
    }
}

impl ProtocolError {
    /// The error as text, e.g. `Invalid command: BOGUS`.
    pub fn to_string(&self) -> (r: String)
        ensures
            r@ == error_text(self@),
    {
        let (mut r, detail) = match self {
            ProtocolError::InvalidCommand(s) => (String::from_str("Invalid command: "), s),
            ProtocolError::InvalidResponse(s) => (String::from_str("Invalid response: "), s),
            ProtocolError::ConnectionError(s) => (String::from_str("Connection error: "), s),
            ProtocolError::ParseError(s) => (String::from_str("Parse error: "), s),
        };
        r.append(detail.as_str());
        r
    }
}

} // verus!
