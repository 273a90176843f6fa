//! Asterisk Manager Interface: wire codec, typed actions and events,
//! response correlation and call tracking.
pub mod action;
pub mod client;
pub mod codec;
pub mod error;
pub mod event;
pub mod framing;
pub mod redact;
pub mod response;
pub mod session;
pub mod tracker;
pub mod wire;
