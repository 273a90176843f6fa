//! Asterisk REST Interface: configuration, the event and resource types,
//! and the paths of resource requests.
pub mod config;
pub mod event;
pub mod resources;
