//! errors specific to the AGI protocol
use vstd::prelude::*;

verus! {

/// errors specific to the AGI protocol
#[derive(Debug)]
pub enum AgiError {
    Io { details: String },
    /// channel hung up during AGI session
    ChannelHungUp,
    InvalidResponse { raw: String },
    CommandFailed { code: u16, message: String },
    InvalidArgument { details: String },
    InvalidRequest { details: String },
    /// command already in flight; channel is not cancel-safe
    CommandInFlight,
    /// channel is poisoned due to a previous incomplete command
    ChannelPoisoned,
    CommandTimeout { elapsed_ms: u64 },
    RequestTimeout { elapsed_ms: u64 },
    ResponseTooLarge { limit: usize },
    Protocol { details: String },
    InvalidConfig { details: String },
    SessionTaskFailed { details: String },
}

} // verus!
