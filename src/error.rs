//! The errors of the protocol layer.

use vstd::prelude::*;

verus! {

/// How a byte stream failed.
#[derive(Debug, Clone, Copy, PartialEq, Eq, Structural)]
pub enum StreamError {
    /// The stream ended before the requested bytes arrived.
    Eof,
    /// The underlying transport failed (a broken pipe, a device error).
    Io,
}

/// The step of an exchange at which the transport failed.
#[derive(Debug, Clone, Copy, PartialEq, Eq, Structural)]
pub enum Phase {
    /// Sending or receiving the request: a preimage key, or a hint with its length.
    Request,
    /// Sending or receiving the length prefix of a response.
    LengthPrefix,
    /// Sending or receiving the payload that a length prefix announced.
    Payload,
    /// Sending or receiving the one-byte acknowledgment of a hint.
    Acknowledgment,
}

/// Why an exchange failed.
#[derive(Debug, Clone, Copy, PartialEq, Eq, Structural)]
pub enum OracleError {
    /// The stream closed or failed at the given phase.
    Transport(Phase),
    /// The stream ended cleanly where a new request would begin: no more requests.
    EndOfStream,
    /// A hint payload was not valid UTF-8.
    Decode,
    /// A payload is longer than its length prefix can state, or than this machine can hold.
    Oversized,
    /// The preimage getter has no preimage for the key.
    NotFound,
    /// The hint router refused the hint.
    Rejected,
}

/// What a host sends when its collaborator (the preimage getter, the hint router) fails.
/// The frames have no room for an error, so the peer either gets nothing or an answer
/// that does not say that something failed. Either way the error goes to the caller.
#[derive(Debug, Clone, Copy, PartialEq, Eq, Structural)]
pub enum FailurePolicy {
    /// Send nothing; the caller is expected to close the connection. The default.
    TearDown,
    /// Send a well-formed answer anyway: an empty preimage, or the hint's acknowledgment.
    Answer,
}

} // verus!
