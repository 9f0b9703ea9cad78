//! Configuration for a mock IGD server instance: which ports to use and
//! whether to answer discovery probes.  The transport layer reads a built
//! configuration and runs the listeners.

use vstd::prelude::*;

verus! {

/// Builder for configuring a mock IGD server.
#[derive(Debug, Clone)]
pub struct MockIgdServerBuilder {
    /// Requested HTTP port; an ephemeral port is chosen when unset.
    pub http_port: Option<u16>,
    /// Whether SSDP discovery responses are enabled.
    pub enable_ssdp: bool,
    /// Requested SSDP port; the standard discovery port when unset.
    pub ssdp_port: Option<u16>,
}

impl MockIgdServerBuilder {
    /// A configuration with nothing requested: ephemeral HTTP port, no
    /// discovery.
    pub fn new() -> (r: Self)
        ensures
            r == (MockIgdServerBuilder { http_port: None, enable_ssdp: false, ssdp_port: None }),
    {
        MockIgdServerBuilder { http_port: None, enable_ssdp: false, ssdp_port: None }
    }

    /// Set a specific port for the HTTP server.
    pub fn http_port(self, port: u16) -> (r: Self)
        ensures
            r == (MockIgdServerBuilder { http_port: Some(port), ..self }),
    {
        MockIgdServerBuilder { http_port: Some(port), ..self }
    }

    /// Enable SSDP discovery responses.
    pub fn with_ssdp(self) -> (r: Self)
        ensures
            r == (MockIgdServerBuilder { enable_ssdp: true, ..self }),
    {
        MockIgdServerBuilder { enable_ssdp: true, ..self }
    }

    /// Set a specific port for SSDP; this also enables discovery.
    pub fn ssdp_port(self, port: u16) -> (r: Self)
        ensures
            r == (MockIgdServerBuilder { ssdp_port: Some(port), enable_ssdp: true, ..self }),
    {
        MockIgdServerBuilder { ssdp_port: Some(port), enable_ssdp: true, ..self }
    }

    /// The HTTP port to bind: the requested one, or 0 to ask the system for
    /// an ephemeral port.
    pub fn effective_http_port(&self) -> (r: u16)
        ensures
            r == (match self.http_port {
                Some(p) => p,
                None => 0u16,
            }),
    {
        match self.http_port {
            Some(p) => p,
            None => 0,
        }
    }

    /// The SSDP port to bind: the requested one, or the standard discovery
    /// port 1900.
    pub fn effective_ssdp_port(&self) -> (r: u16)
        ensures
            r == (match self.ssdp_port {
                Some(p) => p,
                None => 1900u16,
            }),
    {
        match self.ssdp_port {
            Some(p) => p,
            None => 1900,
        }
    }
}

} // verus!
