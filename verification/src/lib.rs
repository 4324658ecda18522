//! A pure-Rust client library to work with systemd.

pub mod activation;
pub mod credential;
pub mod daemon;
pub mod decimal;
pub mod errors;
pub mod id128;
pub mod logging;
pub mod paths;
pub mod protocol;
pub mod sys;
pub mod sysusers;
pub mod text;
pub mod transport;
