//! AMI-specific error types.
use vstd::prelude::*;

verus! {

/// A violation of the wire protocol.
#[derive(Debug)]
pub enum ProtocolError {
    MalformedMessage { details: String },
}

/// An authentication failure.
#[derive(Debug)]
pub enum AuthError {
    /// no usable credentials were configured
    InvalidCredentials,
    /// the server refused the login
    Rejected { reason: String },
}

/// An operation that ran past its deadline.
#[derive(Debug)]
pub enum TimeoutError {
    Connection { elapsed_ms: u64 },
    Action { elapsed_ms: u64 },
}

/// A failure to establish the TCP connection.
#[derive(Debug)]
pub enum ConnectionError {
    ConnectFailed { address: String, details: String },
}

/// errors specific to AMI operations
#[derive(Debug)]
pub enum AmiError {
    Connection(ConnectionError),
    Auth(AuthError),
    Timeout(TimeoutError),
    Protocol(ProtocolError),
    Io { details: String },
    ActionFailed { action_id: String, message: String },
    Disconnected,
    ResponseChannelClosed,
    /// the action reached the wire, but no definitive response was received
    OutcomeUnknown { action_id: String },
    InFlightLimitExceeded { limit: usize },
    EventListEventLimitExceeded { action_id: String, limit: usize },
    EventListByteLimitExceeded { action_id: String, limit: usize },
    EventListInFlightLimitExceeded { limit: usize },
    EventListConnectionByteLimitExceeded { action_id: String, limit: usize },
    EventListCancelled { action_id: String },
    InvalidConfig { details: String },
}

impl AmiError {
    /// The details of a malformed-message protocol error, if this is one.
    pub open spec fn malformed_details(self) -> Option<Seq<char>> {
        match self {
            AmiError::Protocol(ProtocolError::MalformedMessage { details }) => Some(details@),
            _ => None,
        }
    }
}

/// A malformed-message protocol error.
pub fn malformed(details: String) -> (e: AmiError)
    ensures
        e.malformed_details() == Some(details@),
{
    AmiError::Protocol(ProtocolError::MalformedMessage { details })
}

} // verus!
