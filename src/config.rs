//! Startup settings of the service.
use vstd::prelude::*;

verus! {

/// Port the server listens on unless configured otherwise.
pub const DEFAULT_PORT: u16 = 2121;

/// Settings read once at startup.
#[derive(Clone, Copy, Debug, PartialEq, Eq, Structural)]
pub struct AppConfig {
    pub port: u16,
    /// Whether to ask the gateway for a port mapping.
    pub upnp: bool,
}

impl Default for AppConfig {
    /// Port 2121 with port mapping enabled.
    fn default() -> (r: AppConfig)
        ensures
            r.port == DEFAULT_PORT,
            r.upnp,
    {
        AppConfig { port: DEFAULT_PORT, upnp: true }
    }
}

} // verus!
