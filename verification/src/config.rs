//! Server configuration.

use vstd::prelude::*;
use crate::text::owned;

verus! {

/// Where the server listens.
#[derive(Debug, Clone)]
pub struct ServerConfig {
    pub host: String,
    pub port: u16,
}

/// Sandbox settings of the server.
#[derive(Debug, Clone)]
pub struct SandboxConfig {
    pub runtime: String,
    pub memory_limit_mb: u64,
    pub cpu_limit_percent: u8,
}

/// The server configuration.
#[derive(Debug, Clone)]
pub struct Config {
    pub server: ServerConfig,
    pub sandbox: SandboxConfig,
}

impl Default for Config {
    /// Listen on `0.0.0.0:8080`; process runtime, 512 MB, 50% CPU.
    fn default() -> (res: Self)
        ensures
            res.server.host@ == "0.0.0.0"@,
            res.server.port == 8080,
            res.sandbox.runtime@ == "process"@,
            res.sandbox.memory_limit_mb == 512,
            res.sandbox.cpu_limit_percent == 50,
    {
        Config {
            server: ServerConfig { host: owned("0.0.0.0"), port: 8080 },
            sandbox: SandboxConfig { runtime: owned("process"), memory_limit_mb: 512, cpu_limit_percent: 50 },
        }
    }
}

} // verus!
