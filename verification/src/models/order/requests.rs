//! Requests sent to the Order API.

use vstd::prelude::*;

use crate::errors::{bad_request, CbErrorView, CbResult};
use crate::text::copy_texts;
use crate::traits::Request;

use super::{OrderConfiguration, OrderSide};

verus! {

/// A request sent to the Order API to create an order.
#[derive(Debug)]
pub struct OrderCreateRequest {
    /// Client Order ID (UUID). Empty when creating a preview order.
    pub client_order_id: String,
    /// Product ID (pair)
    pub product_id: String,
    /// Order Side: BUY or SELL.
    pub side: OrderSide,
    /// Whether the order is only a preview.
    pub is_preview: bool,
    /// Configuration for the order.
    pub order_configuration: OrderConfiguration,
}

impl Request for OrderCreateRequest {
    open spec fn request_failure(&self) -> Option<CbErrorView> {
        if self.client_order_id@.len() == 0 && !self.is_preview {
            Some(CbErrorView::BadRequest("no client order ID provided"@))
        } else if self.product_id@.len() == 0 {
            Some(CbErrorView::BadRequest("no product ID provided"@))
        } else {
            None
        }
    }

    fn check(&self) -> (r: CbResult<()>) {
        if self.client_order_id.as_str().is_empty() && !self.is_preview {
            return Err(bad_request("no client order ID provided"));
        } else if self.product_id.as_str().is_empty() {
            return Err(bad_request("no product ID provided"));
        }
        Ok(())
    }
}

/// A request sent to the Order API to cancel orders.
#[derive(Debug)]
pub struct OrderCancelRequest {
    /// Vector of Order IDs to cancel.
    pub order_ids: Vec<String>,
}

impl Request for OrderCancelRequest {
    open spec fn request_failure(&self) -> Option<CbErrorView> {
        if self.order_ids@.len() == 0 {
            Some(CbErrorView::BadRequest("no order IDs provided"@))
        } else {
            None
        }
    }

    fn check(&self) -> (r: CbResult<()>) {
        if self.order_ids.len() == 0 {
            return Err(bad_request("no order IDs provided"));
        }
        Ok(())
    }
}

impl OrderCancelRequest {
    /// Creates a request to cancel the given orders.
    pub fn new(order_ids: &[String]) -> (r: Self)
        ensures
            r.order_ids@ == order_ids@,
    {
        OrderCancelRequest { order_ids: copy_texts(order_ids) }
    }
}

/// Represents parameters that are needed to close positions.
///
/// # Required Fields
///
/// * `client_order_id` - The unique ID provided for the order (used for identification purposes).
/// * `product_id` - The trading pair (e.g. 'BIT-28JUL23-CDE').
#[derive(Debug)]
pub struct OrderClosePositionRequest {
    /// The unique ID provided for the order (used for identification purposes).
    pub client_order_id: String,
    /// The trading pair (e.g. 'BIT-28JUL23-CDE').
    pub product_id: String,
    /// The amount of contracts that should be closed.
    pub size: Option<u32>,
}

impl Request for OrderClosePositionRequest {
    open spec fn request_failure(&self) -> Option<CbErrorView> {
        if self.client_order_id@.len() == 0 {
            Some(CbErrorView::BadRequest("client_order_id is required"@))
        } else if self.product_id@.len() == 0 {
            Some(CbErrorView::BadRequest("product_id is required"@))
        } else if self.size == Some(0u32) {
            Some(CbErrorView::BadRequest("size must be greater than 0"@))
        } else {
            None
        }
    }

    fn check(&self) -> (r: CbResult<()>) {
        if self.client_order_id.as_str().is_empty() {
            return Err(bad_request("client_order_id is required"));
        } else if self.product_id.as_str().is_empty() {
            return Err(bad_request("product_id is required"));
        } else if let Some(size) = self.size {
            if size == 0 {
                return Err(bad_request("size must be greater than 0"));
            }
        }
        Ok(())
    }
}

impl OrderClosePositionRequest {
    /// Creates a new request to close a position, with no size.
    pub fn new(client_order_id: &str, product_id: &str) -> (r: Self)
        ensures
            r.client_order_id@ == client_order_id@,
            r.product_id@ == product_id@,
            r.size is None,
    {
        OrderClosePositionRequest {
            client_order_id: String::from_str(client_order_id),
            product_id: String::from_str(product_id),
            size: None,
        }
    }

    /// Sets the client order ID.
    pub fn client_order_id(self, client_order_id: String) -> (r: Self)
        ensures
            r == (OrderClosePositionRequest { client_order_id, ..self }),
    {
        OrderClosePositionRequest { client_order_id, ..self }
    }

    /// Sets the product ID.
    pub fn product_id(self, product_id: String) -> (r: Self)
        ensures
            r == (OrderClosePositionRequest { product_id, ..self }),
    {
        OrderClosePositionRequest { product_id, ..self }
    }

    /// Sets the size.
    pub fn size(self, size: u32) -> (r: Self)
        ensures
            r == (OrderClosePositionRequest { size: Some(size), ..self }),
    {
        OrderClosePositionRequest { size: Some(size), ..self }
    }
}

} // verus!
