//! The transport-hygiene settings of the shared RPC channel. The channel
//! itself — endpoint resolution, lazy connection, per-request client
//! handles — is transport plumbing performed outside; the configurable
//! constants it must be built with live here.

use vstd::prelude::*;

verus! {

/// The settings the backend channel is built with: a per-call timeout, a
/// shorter initial-connect timeout, and an idle keep-alive policy.
#[derive(Debug, Clone, Copy, PartialEq, Eq, Structural)]
pub struct GrpcChannelSettings {
    pub timeout_secs: u64,
    pub connect_timeout_secs: u64,
    pub keep_alive_while_idle: bool,
}

impl Default for GrpcChannelSettings {
    /// The compiled-in transport hygiene: thirty seconds per call, five to
    /// connect, and keep-alive while idle.
    fn default() -> (r: Self)
        ensures
            r.timeout_secs == 30,
            r.connect_timeout_secs == 5,
            r.keep_alive_while_idle,
    {
        GrpcChannelSettings { timeout_secs: 30, connect_timeout_secs: 5, keep_alive_while_idle: true }
    }
}

} // verus!
