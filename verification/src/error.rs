//! The closed set of failure kinds a chat session can end with.

use vstd::prelude::*;

verus! {

/// Why a session stopped without completing. Every kind is terminal: nothing
/// is retried and a failed stream is never resumed.
#[derive(Clone, Copy, Debug, PartialEq, Eq, Structural)]
pub enum ErrorKind {
    /// The configuration could not be read, written or understood.
    Config,
    /// The working directory or one of its files could not be read.
    Aggregation,
    /// The request could not be encoded.
    Serialization,
    /// The connection failed, was refused, or dropped before completion.
    Transport,
    /// A framed record was not valid UTF-8.
    Encoding,
    /// A framed record was valid UTF-8 but not a well-shaped response record.
    Protocol,
    /// The stream ended before a terminal record was seen.
    TruncatedStream,
}

impl ErrorKind {
    /// The name of the kind as it appears in diagnostics.
    pub open spec fn spec_name(self) -> Seq<char> {
        match self {
            ErrorKind::Config => "ConfigError"@,
            ErrorKind::Aggregation => "AggregationError"@,
            ErrorKind::Serialization => "SerializationError"@,
            ErrorKind::Transport => "TransportError"@,
            ErrorKind::Encoding => "EncodingError"@,
            ErrorKind::Protocol => "ProtocolError"@,
            ErrorKind::TruncatedStream => "TruncatedStreamError"@,
        }
    }

    /// Returns the name of the kind as it appears in diagnostics.
    pub fn name(self) -> (text: &'static str)
        ensures
            text@ == self.spec_name(),
    {
        match self {
            ErrorKind::Config => "ConfigError",
            ErrorKind::Aggregation => "AggregationError",
            ErrorKind::Serialization => "SerializationError",
            ErrorKind::Transport => "TransportError",
            ErrorKind::Encoding => "EncodingError",
            ErrorKind::Protocol => "ProtocolError",
            ErrorKind::TruncatedStream => "TruncatedStreamError",
        }
    }
}

} // verus!
