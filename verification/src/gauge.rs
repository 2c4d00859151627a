//! Telemetry records served by the gauge process.
//!
//! The gauge process samples the robot computer and serves the result
//! to the operator console.  The records here carry the plain values of
//! a sample: which services are active, and how much memory and swap
//! are in use.  Sampling the machine and serving clients is the
//! caller's business.

use vstd::prelude::*;

verus! {

/// Whether each service of the robot installation is active.
#[derive(Debug, Clone, PartialEq, Eq, Structural)]
pub struct ServiceInfo {
    pub carburetor_status: bool,
    pub gauge_status: bool,
    pub linkage_socket_status: bool,
}

/// Swap usage, in bytes.
#[derive(Debug, Clone, PartialEq, Eq, Structural)]
pub struct Swap {
    pub used: u64,
    pub total: u64,
}

/// Memory usage, in bytes.
#[derive(Debug, Clone, PartialEq, Eq, Structural)]
pub struct Mem {
    pub used: u64,
    pub total: u64,
}

/// Swap and memory usage, where the machine reports them.
#[derive(Debug, Clone, PartialEq)]
pub struct Memory {
    pub swap: Option<Swap>,
    pub mem: Option<Mem>,
}

/// The telemetry server: accepts console connections on its port and
/// streams samples to each.
#[derive(Debug, Clone)]
pub struct Gauge {
    port: usize,
}

impl Gauge {
    /// The server for the given port.
    pub fn new(port: usize) -> (r: Gauge)
        ensures
            r.spec_port() == port,
    {
        Gauge { port }
    }

    /// The port this server accepts console connections on.
    pub closed spec fn spec_port(self) -> usize {
        self.port
    }

    /// The port this server accepts console connections on.
    pub fn port(&self) -> (r: usize)
        ensures
            r == self.spec_port(),
    {
        self.port
    }
}

} // verus!
