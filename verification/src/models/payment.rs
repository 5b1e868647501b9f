//! # Coinbase Advanced Payment API
//!
//! The payment methods available to the user.

use vstd::prelude::*;

verus! {

/// A type of payment method available to the user for use.
#[derive(Debug, Clone)]
pub struct PaymentMethod {
    /// Unique identifier for the payment method.
    pub id: String,
    /// The payment method type.
    pub kind: String,
    /// Name for the payment method.
    pub name: String,
    /// Currency symbol for the payment method.
    pub currency: String,
    /// The verified status of the payment method.
    pub verified: bool,
    /// Whether or not this payment method can perform buys.
    pub allow_buy: bool,
    /// Whether or not this payment method can perform sells.
    pub allow_sell: bool,
    /// Whether or not this payment method can perform deposits.
    pub allow_deposit: bool,
    /// Whether or not this payment method can perform withdrawals.
    pub allow_withdraw: bool,
    /// Time at which this payment method was created.
    pub created_at: String,
    /// Time at which this payment method was updated.
    pub updated_at: Option<String>,
}

} // verus!
