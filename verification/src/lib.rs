//! A library for a terminal monitor of a UDP-delivered control protocol.
//!
//! The core is a background listener that decodes datagrams into events, and
//! an append-only log with a wraparound navigation cursor that an interactive
//! loop mutates in response to key input and listener events.

pub mod app;
pub mod cli;
pub mod listener;
pub mod log;

pub use cli::Args;
