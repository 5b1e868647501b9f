//! The settings that a configuration file gives the clients.

use vstd::prelude::*;

verus! {

/// The Coinbase section of a configuration: the API credentials and whether the sandbox is used.
#[derive(Debug, Clone)]
pub struct CoinbaseConfig {
    /// API key.
    pub api_key: String,
    /// API secret.
    pub api_secret: String,
    /// Whether requests go to the sandbox.
    pub use_sandbox: bool,
}

} // verus!
