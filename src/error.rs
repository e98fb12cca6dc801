use vstd::prelude::*;

verus! {

/// Every way a call against a node can fail.
#[derive(Debug, Clone, PartialEq, Eq)]
pub enum ClientError {
    /// The client holds no node to send the call to.
    NoNodeAvailable,
    /// The node's base address does not make a usable URL.
    InvalidUrl { base: String },
    /// The request never got a status line back (connection refused, timeout, DNS).
    TransportError { cause: String },
    /// The node answered with a status other than 200; the body is kept as sent.
    NodeError { status: u16, body: String },
    /// A 200 answer whose body is not the expected `{"data": ...}` shape.
    MalformedResponse { context: String },
    /// An identifier in the answer is not 64 hex digits.
    MalformedIdentifier { text: String },
    /// The message payload could not be turned into a message. The library hands the
    /// payload out as JSON and makes no such conversion itself, so this is for callers
    /// that convert it with the ledger's message crate.
    MessageConversionFailed { reason: String },
}

} // verus!
