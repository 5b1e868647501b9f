//! # Coinbase Advanced Data API
//!
//! The permissions of an API key.

use vstd::prelude::*;

pub use super::portfolio::PortfolioType;

verus! {

/// `KeyPermissions` represents the permissions associated with an API key.
#[derive(Debug, Clone)]
pub struct KeyPermissions {
    /// Indicates whether the API key has view permissions.
    pub can_view: bool,
    /// Indicates whether the API key has trade permissions.
    pub can_trade: bool,
    /// Indicates whether the API key has deposit/withdrawal permissions.
    pub can_transfer: bool,
    /// The portfolio ID associated with the API key.
    pub portfolio_uuid: String,
    /// The type of portfolio.
    pub portfolio_type: PortfolioType,
}

} // verus!
