//! What the operator configures.

use vstd::prelude::*;

verus! {

/// The service's settings.
#[derive(Debug, Clone, Copy, PartialEq, Eq)]
pub struct AppConfig {
    /// The largest request body that an upload may have, in bytes.
    pub max_file_size: usize,
    /// The port to listen on.
    pub port: u16,
    /// Whether the shutdown endpoint exists.
    pub enable_shutdown_endpoint: bool,
}

impl Default for AppConfig {
    /// No limit on uploads, port 8000, no shutdown endpoint.
    fn default() -> (cfg: Self)
        ensures
            cfg.max_file_size == usize::MAX,
            cfg.port == 8000,
            !cfg.enable_shutdown_endpoint,
    {
        AppConfig { max_file_size: usize::MAX, port: 8000, enable_shutdown_endpoint: false }
    }
}

impl AppConfig {
    /// Whether a request body of `body_len` bytes is within the limit.
    pub open spec fn admits(&self, body_len: u64) -> bool {
        body_len <= self.max_file_size
    }
}

} // verus!
