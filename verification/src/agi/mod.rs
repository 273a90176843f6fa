//! Asterisk Gateway Interface: the command grammar, response parsing,
//! request prelude parsing, and the channel's command state machine.
pub mod command;
pub mod commands;
pub mod error;
pub mod response;
pub mod server;
pub mod request;
pub mod channel;
