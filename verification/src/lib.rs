//! Sharing local files over an ephemeral HTTP server, with an optional port
//! mapping on the home router.
//!
//! The crate holds the rules of a sharing session and leaves every socket,
//! file and router call to its caller: the caller performs what the state
//! machines ask for and reports back what happened.

pub mod desktop;
pub mod digest;
pub mod endpoint;
pub mod gateway;
pub mod registry;
pub mod session;
pub mod text;
pub mod transfer;
