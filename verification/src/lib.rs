//! A one-shot, blocking TLS client: connection lifecycle as a verified state
//! machine, partial-transfer write/read accounting, outcome classification,
//! and the small command-line helpers that ship alongside it.
//!
//! The actual network and crypto calls are performed by an unverified shell
//! around this library; everything that decides (state transitions, transfer
//! accounting, response classification, request formatting) lives here.

pub mod session;
pub mod transfer;
pub mod driver;
pub mod cli;
