use vstd::prelude::*;

verus! {

/// The network settings of the gateway.
pub struct ServerConfig {
    pub port: u16,
}

/// The gateway's settings, read once at startup.
pub struct Config {
    pub service_id: String,
    pub server: ServerConfig,
}

impl Config {
    pub fn new(service_id: String, port: u16) -> (r: Self)
        ensures
            r.service_id@ == service_id@,
            r.server.port == port,
    {
        Config { service_id, server: ServerConfig { port } }
    }
}

} // verus!
