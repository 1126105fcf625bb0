use vstd::prelude::*;

verus! {

/// Why a chat exchange, or a read of its history, did not succeed.
#[derive(Debug, PartialEq, Eq)]
pub enum ChatError {
    /// The request never got a response: connection refused, timeout, TLS failure.
    /// Holds the transport's description of the cause.
    Transport(String),
    /// The response body was not JSON of the expected envelope shape.
    /// Holds the parser's description of the cause.
    Decode(String),
    /// The envelope parsed but carried no result.
    EmptyResult,
    /// A turn-pair held fewer than two entries.
    MalformedHistory,
}

} // verus!
