//! A verified core for a minimal UDP echo server.
//!
//! The crate has two parts: a configuration resolver that turns optional
//! host and port strings into a single concrete bind address, and the
//! decision logic of a readiness-driven echo loop, modelled as a state
//! machine from events to actions. All socket and poller I/O lives in the
//! surrounding application, which drives the state machine.

pub mod config;
pub mod echo;

use vstd::prelude::*;

verus! {

/// A single IPv4 address, one field per octet.
#[derive(Clone, Copy, Debug, PartialEq, Eq, Structural)]
pub struct Ipv4 {
    pub a: u8,
    pub b: u8,
    pub c: u8,
    pub d: u8,
}

/// A resolved (IP, port) pair: always one concrete address, never a hostname.
#[derive(Clone, Copy, Debug, PartialEq, Eq, Structural)]
pub struct BindAddress {
    pub ip: Ipv4,
    pub port: u16,
}

} // verus!
