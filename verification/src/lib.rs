//! Verified core of an Asterisk PBX client: the AMI wire codec, typed AMI
//! actions and events, response correlation, call tracking, the AGI command
//! and response grammar, and ARI configuration.
pub mod text;
pub mod secret;
pub mod ami;
pub mod agi;
pub mod ari;
