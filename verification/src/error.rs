//! Error taxonomy surfaced by the engine.

use vstd::prelude::*;

verus! {

/// A machine-readable response code attached by the server to one response
/// unit. Only the codes that drive engine decisions are distinguished; every
/// other wire code is carried through as text.
#[derive(Debug, Clone, PartialEq, Eq)]
pub enum ResponseCode {
    /// The unit completed without error.
    NoError,
    /// The targeted item does not exist (tolerated during deletes).
    ErrorItemNotFound,
    /// The targeted folder does not exist (tolerated during well-known folder
    /// lookups).
    ErrorFolderNotFound,
    /// The server asks the client to back off and retry later.
    ErrorServerBusy,
    /// Any other wire code, carried verbatim.
    Other(String),
}

/// A server-reported error on one response unit.
#[derive(Debug, Clone, PartialEq, Eq)]
pub struct ResponseFault {
    /// The machine-readable code for this fault.
    pub response_code: ResponseCode,
    /// Human-readable detail supplied by the server.
    pub message: String,
    /// When the fault is a throttling signal, the delay in milliseconds the
    /// server asks the client to observe before retrying.
    pub back_off_milliseconds: Option<u64>,
}

/// Errors surfaced to callers of the engine.
#[derive(Debug, Clone, PartialEq, Eq)]
pub enum EwsError {
    /// HTTP transport failure (network, connection, non-success status).
    Http { detail: String },
    /// Protocol failure: the response could not be decoded.
    Protocol { detail: String },
    /// Authentication failure.
    Authentication,
    /// The server reported an error on a response unit.
    ResponseError(ResponseFault),
    /// A local invariant was violated while processing a response.
    Processing { message: String },
    /// The server omitted an identifier the caller needs.
    MissingIdInResponse,
    /// The response held a different number of units than requested.
    UnexpectedResponseMessageCount { expected: usize, actual: usize },
    /// A caller-supplied URL could not be parsed.
    InvalidUrl { detail: String },
    /// Serialized data could not be read or written.
    Serialization { detail: String },
}

impl EwsError {
    /// A short label naming the error variant, for diagnostics.
    pub fn kind_label(&self) -> (r: String)
        ensures
            r@ == self.spec_kind_label(),
    {
        match self {
            EwsError::Http { .. } => String::from_str("http"),
            EwsError::Protocol { .. } => String::from_str("protocol"),
            EwsError::Authentication => String::from_str("authentication"),
            EwsError::ResponseError(..) => String::from_str("response error"),
            EwsError::Processing { .. } => String::from_str("processing"),
            EwsError::MissingIdInResponse => String::from_str("missing id in response"),
            EwsError::UnexpectedResponseMessageCount { .. } => {
                String::from_str("unexpected response message count")
            },
            EwsError::InvalidUrl { .. } => String::from_str("invalid url"),
            EwsError::Serialization { .. } => String::from_str("serialization"),
        }
    }

    /// The label `kind_label` returns, as a sequence of characters.
    pub open spec fn spec_kind_label(&self) -> Seq<char> {
        match self {
            EwsError::Http { .. } => "http"@,
            EwsError::Protocol { .. } => "protocol"@,
            EwsError::Authentication => "authentication"@,
            EwsError::ResponseError(..) => "response error"@,
            EwsError::Processing { .. } => "processing"@,
            EwsError::MissingIdInResponse => "missing id in response"@,
            EwsError::UnexpectedResponseMessageCount { .. } => {
                "unexpected response message count"@
            },
            EwsError::InvalidUrl { .. } => "invalid url"@,
            EwsError::Serialization { .. } => "serialization"@,
        }
    }
}

} // verus!
