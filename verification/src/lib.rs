//! Control middleware for a robotic prosthetic arm.
//!
//! Commands arrive from one of several sources (network, GPIO button,
//! periodic sensor polling) and are routed to independent hardware-resource
//! managers (battery monitor, EMG grip classifier, servo controller), each
//! of which returns a response string to the caller.
//!
//! This crate holds the verified core: the length-prefixed wire protocol,
//! the per-resource task handlers, the routing registry, and the admission
//! and retry policies. The asynchronous plumbing that drives this core
//! (sockets, SPI, timers) lives outside and hands the core plain values.

pub mod adc;
pub mod config;
pub mod connection;
pub mod dispatchers;
pub mod errors;
pub mod managers;
pub mod server;
pub mod sgcp;
pub mod utils;
