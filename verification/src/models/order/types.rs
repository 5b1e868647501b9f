//! Order configurations and the records that the Order API answers with.
//!
//! Amounts are held as the decimal text that the API receives.

use vstd::prelude::*;

use super::{OrderSide, StopDirection};

verus! {

/// Buy or sell a specified quantity of an Asset at the current best available market price.
#[derive(Debug, Clone)]
pub struct MarketIoc {
    /// Amount of quote currency to spend on order. Required for BUY orders.
    pub quote_size: Option<String>,
    /// Amount of base currency to spend on order. Required for SELL orders.
    pub base_size: Option<String>,
}

/// Buy or sell at a specified price; only the part that fills immediately is kept.
#[derive(Debug, Clone)]
pub struct SorLimitIoc {
    /// Amount of base currency to spend on order.
    pub base_size: String,
    /// Ceiling price for which the order should get filled.
    pub limit_price: String,
}

/// Limit Good til Cancelled.
#[derive(Debug, Clone)]
pub struct LimitGtc {
    /// Amount of base currency to spend on order.
    pub base_size: String,
    /// Ceiling price for which the order should get filled.
    pub limit_price: String,
    /// Post only limit order.
    pub post_only: bool,
}

/// Limit Good til Time (Date).
#[derive(Debug, Clone)]
pub struct LimitGtd {
    /// Amount of base currency to spend on order.
    pub base_size: String,
    /// Ceiling price for which the order should get filled.
    pub limit_price: String,
    /// Time at which the order should be cancelled if it's not filled.
    pub end_time: String,
    /// Post only limit order.
    pub post_only: bool,
}

/// Buy or sell at a specified price; posted only if it fills completely at once.
#[derive(Debug, Clone)]
pub struct LimitFok {
    /// Amount of base currency to spend on order.
    pub base_size: String,
    /// Ceiling price for which the order should get filled.
    pub limit_price: String,
}

/// Stop Limit Good til Cancelled.
#[derive(Debug, Clone)]
pub struct StopLimitGtc {
    /// Amount of base currency to spend on order.
    pub base_size: String,
    /// Ceiling price for which the order should get filled.
    pub limit_price: String,
    /// Price at which the order should trigger.
    pub stop_price: String,
    /// Direction in which the trade price has to cross `stop_price`.
    pub stop_direction: StopDirection,
}

/// Stop Limit Good til Time (Date).
#[derive(Debug, Clone)]
pub struct StopLimitGtd {
    /// Amount of base currency to spend on order.
    pub base_size: String,
    /// Ceiling price for which the order should get filled.
    pub limit_price: String,
    /// Price at which the order should trigger.
    pub stop_price: String,
    /// Time at which the order should be cancelled if it's not filled.
    pub end_time: String,
    /// Direction in which the trade price has to cross `stop_price`.
    pub stop_direction: StopDirection,
}

/// A limit order with an embedded exit price, kept until cancelled.
#[derive(Debug, Clone)]
pub struct TriggerBracketGtc {
    /// Amount of base currency to spend on order.
    pub base_size: String,
    /// Ceiling price for which the order should get filled.
    pub limit_price: String,
    /// The price level (in quote currency) where the position will be exited.
    pub stop_trigger_price: String,
}

/// A limit order with an embedded exit price, kept until a time or until cancelled.
#[derive(Debug, Clone)]
pub struct TriggerBracketGtd {
    /// Amount of base currency to spend on order.
    pub base_size: String,
    /// Ceiling price for which the order should get filled.
    pub limit_price: String,
    /// The price level (in quote currency) where the position will be exited.
    pub stop_trigger_price: String,
    /// Time at which the order should be cancelled if it's not filled.
    pub end_time: String,
}

/// The different possible order configurations.
#[derive(Debug, Clone)]
pub enum OrderConfiguration {
    /// Market Immediate or Cancel Order.
    MarketIoc(MarketIoc),
    /// Only posts if it will immediately fill, remaining quantity is cancelled.
    SorLimitIoc(SorLimitIoc),
    /// Limit Good 'til Cancelled Order.
    LimitGtc(LimitGtc),
    /// Limit Good 'til Date (time) Order.
    LimitGtd(LimitGtd),
    /// Order only posts if it is fill entirely, otherwise cancelled.
    LimitFok(LimitFok),
    /// Stop Limit Good 'til Cancelled Order.
    StopLimitGtc(StopLimitGtc),
    /// Stop Limit Good 'til Date (time) Order.
    StopLimitGtd(StopLimitGtd),
    /// Trigger Bracket 'til Cancelled Order.
    TriggerBracketGtc(TriggerBracketGtc),
    /// Trigger Bracket 'til Date (time) Order.
    TriggerBracketGtd(TriggerBracketGtd),
}

/// Represents an order created to BUY or SELL.
#[derive(Debug)]
pub struct CreateOrder {
    /// Client Order ID (UUID). Empty when creating a preview order.
    pub client_order_id: String,
    /// Product ID (pair)
    pub product_id: String,
    /// Order Side: BUY or SELL.
    pub side: String,
    /// Configuration for the order.
    pub order_configuration: OrderConfiguration,
}

/// Contains information when an order is successfully created.
#[derive(Debug)]
pub struct SuccessResponse {
    /// The ID of the order.
    pub order_id: String,
    /// The trading pair (e.g., 'BTC-USD').
    pub product_id: String,
    /// The side of the market that the order is on ('BUY' or 'SELL').
    pub side: OrderSide,
    /// The unique ID provided for the order (used for identification purposes).
    pub client_order_id: String,
}

/// Contains error information when an order fails to be created.
#[derive(Debug)]
pub struct ErrorResponse {
    /// The reason the order failed to be created (deprecated).
    pub error: Option<String>,
    /// Generic error message explaining why the order was not created.
    pub message: Option<String>,
    /// Descriptive error message explaining why the order was not created.
    pub error_details: Option<String>,
    /// The reason the order failed during preview (deprecated).
    pub preview_failure_reason: Option<String>,
    /// The reason the order failed to be created.
    pub new_order_failure_reason: String,
}

/// Represents a create order response from the API.
#[derive(Debug)]
pub struct OrderCreateResponse {
    /// Whether the order was successfully created.
    pub success: bool,
    /// Contains information if the order was successful.
    pub success_response: Option<SuccessResponse>,
    /// Contains error information if the order failed.
    pub error_response: Option<ErrorResponse>,
}

/// Represents a cancel order response from the API.
#[derive(Debug)]
pub struct OrderCancelResponse {
    /// Whether the cancel request was submitted successfully.
    pub success: bool,
    /// The reason the cancel request did not succeed.
    pub failure_reason: String,
    /// The ID of the order.
    pub order_id: String,
}

/// Errors associated with an edit.
#[derive(Debug)]
pub struct OrderEditError {
    /// Reason the edit failed.
    pub edit_failure_reason: Option<String>,
    /// Reason the preview failed.
    pub preview_failure_reason: Option<String>,
}

/// Represents the response to an order edit.
#[derive(Debug)]
pub struct OrderEditResponse {
    /// Whether or not the order edit succeeded.
    pub success: bool,
    /// Errors associated with the changes.
    pub errors: Vec<OrderEditError>,
}

/// Represents a create order response from the API, as the legacy order endpoint gives it.
#[derive(Debug)]
pub struct OrderResponse {
    /// Whether the order was successfully created.
    pub success: bool,
    /// Contains information if the order was successful.
    pub success_response: Option<SuccessResponse>,
    /// Contains error information if the order failed.
    pub error_response: Option<ErrorResponse>,
}

/// Errors associated with the changes of a legacy edit.
#[derive(Debug)]
pub struct EditOrderErrors {
    /// Reason the edit failed.
    pub edit_failure_reason: Option<String>,
    /// Reason the preview failed.
    pub preview_failure_reason: Option<String>,
}

/// The response to a legacy edit of an order.
#[derive(Debug)]
pub struct EditOrderResponse {
    /// Whether or not the order edit succeeded.
    pub success: bool,
    /// Errors associated with the changes.
    pub errors: Vec<EditOrderErrors>,
}

} // verus!
