//! The closed set of failure categories produced by any component of the
//! crate.

use vstd::prelude::*;

verus! {

/// A structured JSON-RPC error body: `{code, message}`.
///
/// When a response signals failure without supplying a structured error
/// body, the default value below stands in for it.
#[derive(Debug, Clone, PartialEq)]
pub struct RpcError {
    pub code: i128,
    pub message: String,
}

impl Default for RpcError {
    /// The error used when a response carries neither a result nor a
    /// structured error body.
    fn default() -> (r: Self)
        ensures
            r.code == 0,
            r.message@ == "No matched rpc error"@,
    {
        RpcError { code: 0, message: String::from_str("No matched rpc error") }
    }
}

/// Every failure a provider can report.
///
/// Payloads that wrapped foreign error values in the transports are carried
/// here as plain descriptive text.
#[derive(Debug, Clone, PartialEq)]
pub enum Error {
    /// The server or engine returned a structured `{code, message}` error.
    JsonRpcError(RpcError),
    /// A value could not be serialized to JSON, or received JSON could not
    /// satisfy the expected shape.
    SerdeJson(String),
    /// An extrinsic submission failed.
    ExtrinsicFailed(String),
    /// A channel send failed.
    MpscSend(String),
    /// The given URL could not be parsed.
    InvalidUrl(String),
    /// The engine rejected, or could not reach, the chain described by a
    /// chain specification.
    InvalidChainSpec(String),
    /// A channel receive failed.
    RecvError(String),
    /// An I/O operation failed.
    Io(String),
    /// Reconnection attempts were exhausted.
    MaxConnectionAttemptsExceeded,
    /// An operation was attempted against a registry or connection with no
    /// active chain.
    ConnectionClosed,
    /// An opaque failure reported by an underlying transport library.
    Client(String),
}

} // verus!
