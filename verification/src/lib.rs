//! A multiplexer for the Semtech packet-forwarder UDP protocol (GWMP).
//!
//! The crate holds the decisions of the multiplexer as verified functions on
//! plain values: decoding of frame headers, the gateway table of the
//! listener, the session registry of the forwarder with its forwarding
//! policy, and the counters. Sockets, channels, timers and tasks belong to
//! the program that drives these functions.

pub mod clock;
pub mod config;
pub mod error;
pub mod filters;
pub mod forwarder;
pub mod listener;
pub mod monitoring;
pub mod packets;
pub mod text;
pub mod traits;
