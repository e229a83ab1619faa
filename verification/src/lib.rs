//! The transformation core of a reverse proxy: how an inbound request becomes
//! a request against one fixed upstream target, how the upstream's answer
//! becomes the reply to the caller, and how each failure is reported.
//!
//! Everything here works on plain values. Sockets, the HTTP client and the
//! server that hosts the handler live outside this crate.

pub mod config;
pub mod error;
pub mod header;
pub mod stage;
pub mod text;
pub mod request;
pub mod response;
pub mod handler;
pub mod laws;
