//! The verified core of DebAI: the protocol between the client and the
//! daemon, the security policy engine that reclassifies the commands a
//! language model proposes, and the decisions the daemon and the client make
//! around running them.
pub mod text;
pub mod protocol;
pub mod policy;
pub mod execution;
pub mod sandbox;
pub mod cache;
pub mod service;
pub mod plugins;
pub mod client;
