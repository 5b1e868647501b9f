//! The builder of `CreateOrder` values, which takes amounts as decimal text.

use vstd::prelude::*;

use crate::errors::{bad_parse, CbError, CbErrorView, CbResult};

use super::builders::{choose_client_order_id, OrderDraft};
use super::{
    CreateOrder, LimitGtc, LimitGtd, MarketIoc, OrderConfiguration, OrderSide, OrderType,
    StopDirection, StopLimitGtc, StopLimitGtd, TimeInForce,
};

verus! {

/// The message of a missing field for one kind of order.
pub open spec fn missing_message(field_name: Seq<char>, kind: Seq<char>) -> Seq<char> {
    field_name + " is required for "@ + kind + " orders"@
}

/// The configuration that a draft describes, or the error that refuses it, with the
/// messages of `CreateOrderBuilder`.
pub open spec fn create_order_configuration(d: OrderDraft) -> Result<OrderConfiguration, CbErrorView> {
    match (d.order_type, d.time_in_force) {
        (Some(OrderType::Market), Some(TimeInForce::ImmediateOrCancel)) => {
            if d.base_size is None && d.quote_size is None {
                Err(CbErrorView::BadParse(
                    "Either base_size or quote_size must be provided for Market IOC orders"@,
                ))
            } else {
                Ok(
                    OrderConfiguration::MarketIoc(
                        MarketIoc { base_size: d.base_size, quote_size: d.quote_size },
                    ),
                )
            }
        },
        (Some(OrderType::Limit), Some(TimeInForce::GoodUntilCancelled)) => {
            if d.base_size is None {
                Err(CbErrorView::BadParse(missing_message("base_size"@, "Limit GTC"@)))
            } else if d.limit_price is None {
                Err(CbErrorView::BadParse(missing_message("limit_price"@, "Limit GTC"@)))
            } else {
                Ok(
                    OrderConfiguration::LimitGtc(
                        LimitGtc {
                            base_size: d.base_size->0,
                            limit_price: d.limit_price->0,
                            post_only: d.post_only.unwrap_or(false),
                        },
                    ),
                )
            }
        },
        (Some(OrderType::Limit), Some(TimeInForce::GoodUntilDate)) => {
            if d.base_size is None {
                Err(CbErrorView::BadParse(missing_message("base_size"@, "Limit GTD"@)))
            } else if d.limit_price is None {
                Err(CbErrorView::BadParse(missing_message("limit_price"@, "Limit GTD"@)))
            } else if d.end_time is None {
                Err(CbErrorView::BadParse(missing_message("end_time"@, "Limit GTD"@)))
            } else {
                Ok(
                    OrderConfiguration::LimitGtd(
                        LimitGtd {
                            base_size: d.base_size->0,
                            limit_price: d.limit_price->0,
                            end_time: d.end_time->0,
                            post_only: d.post_only.unwrap_or(false),
                        },
                    ),
                )
            }
        },
        (Some(OrderType::StopLimit), Some(TimeInForce::GoodUntilCancelled)) => {
            if d.base_size is None {
                Err(CbErrorView::BadParse(missing_message("base_size"@, "Stop Limit GTC"@)))
            } else if d.limit_price is None {
                Err(CbErrorView::BadParse(missing_message("limit_price"@, "Stop Limit GTC"@)))
            } else if d.stop_price is None {
                Err(CbErrorView::BadParse(missing_message("stop_price"@, "Stop Limit GTC"@)))
            } else if d.stop_direction is None {
                Err(CbErrorView::BadParse(missing_message("stop_direction"@, "Stop Limit GTC"@)))
            } else {
                Ok(
                    OrderConfiguration::StopLimitGtc(
                        StopLimitGtc {
                            base_size: d.base_size->0,
                            limit_price: d.limit_price->0,
                            stop_price: d.stop_price->0,
                            stop_direction: d.stop_direction->0,
                        },
                    ),
                )
            }
        },
        (Some(OrderType::StopLimit), Some(TimeInForce::GoodUntilDate)) => {
            if d.base_size is None {
                Err(CbErrorView::BadParse(missing_message("base_size"@, "Stop Limit GTD"@)))
            } else if d.limit_price is None {
                Err(CbErrorView::BadParse(missing_message("limit_price"@, "Stop Limit GTD"@)))
            } else if d.stop_price is None {
                Err(CbErrorView::BadParse(missing_message("stop_price"@, "Stop Limit GTD"@)))
            } else if d.stop_direction is None {
                Err(CbErrorView::BadParse(missing_message("stop_direction"@, "Stop Limit GTD"@)))
            } else if d.end_time is None {
                Err(CbErrorView::BadParse(missing_message("end_time"@, "Stop Limit GTD"@)))
            } else {
                Ok(
                    OrderConfiguration::StopLimitGtd(
                        StopLimitGtd {
                            base_size: d.base_size->0,
                            limit_price: d.limit_price->0,
                            stop_price: d.stop_price->0,
                            end_time: d.end_time->0,
                            stop_direction: d.stop_direction->0,
                        },
                    ),
                )
            }
        },
        _ => Err(CbErrorView::BadParse(
            "Invalid or unsupported combination of order_type and time_in_force"@,
        )),
    }
}

/// Takes a required field for one kind of order, or refuses with a message naming both.
fn take_required<T>(field: Option<T>, field_name: &str, kind: &str) -> (r: Result<T, CbError>)
    ensures
        match r {
            Ok(v) => field == Some(v),
            Err(e) => field is None && e@ == CbErrorView::BadParse(
                missing_message(field_name@, kind@),
            ),
        },
{
    match field {
        Some(v) => Ok(v),
        None => {
            let mut message = String::from_str(field_name);
            message.append(" is required for ");
            message.append(kind);
            message.append(" orders");
            Err(CbError::BadParse(message))
        },
    }
}

/// A builder for creating `CreateOrder` instances.
///
/// This builder provides a fluent interface to construct an order by specifying the product,
/// side, order type, time-in-force, and other optional parameters. It ensures that all required
/// parameters are set before building the final order, and helps prevent invalid configurations.
pub struct CreateOrderBuilder {
    draft: OrderDraft,
}

impl View for CreateOrderBuilder {
    type V = OrderDraft;

    closed spec fn view(&self) -> OrderDraft {
        self.draft
    }
}

impl CreateOrderBuilder {
    /// Creates a new `CreateOrderBuilder` for a product (e.g. "BTC-USD") and a side.
    pub fn new(product_id: &str, side: &OrderSide) -> (b: Self)
        ensures
            b@ == OrderDraft::empty_spec(b@.product_id, *side),
            b@.product_id@ == product_id@,
    {
        CreateOrderBuilder { draft: OrderDraft::empty(product_id, *side) }
    }

    /// Sets the order type for the order.
    pub fn order_type(self, order_type: OrderType) -> (b: Self)
        ensures
            b@ == (OrderDraft { order_type: Some(order_type), ..self@ }),
    {
        let mut draft = self.draft;
        draft.order_type = Some(order_type);
        CreateOrderBuilder { draft }
    }

    /// Sets the time-in-force policy for the order.
    pub fn time_in_force(self, tif: TimeInForce) -> (b: Self)
        ensures
            b@ == (OrderDraft { time_in_force: Some(tif), ..self@ }),
    {
        let mut draft = self.draft;
        draft.time_in_force = Some(tif);
        CreateOrderBuilder { draft }
    }

    /// Sets the base size for the order: the decimal text of the quantity of base currency.
    pub fn base_size(self, base_size: &str) -> (b: Self)
        ensures
            b@.base_size is Some,
            b@.base_size->0@ == base_size@,
            b@ == (OrderDraft { base_size: b@.base_size, ..self@ }),
    {
        let mut draft = self.draft;
        draft.base_size = Some(String::from_str(base_size));
        CreateOrderBuilder { draft }
    }

    /// Sets the quote size for the order: the decimal text of the amount of quote currency.
    pub fn quote_size(self, quote_size: &str) -> (b: Self)
        ensures
            b@.quote_size is Some,
            b@.quote_size->0@ == quote_size@,
            b@ == (OrderDraft { quote_size: b@.quote_size, ..self@ }),
    {
        let mut draft = self.draft;
        draft.quote_size = Some(String::from_str(quote_size));
        CreateOrderBuilder { draft }
    }

    /// Sets the limit price for the order: decimal text, in quote currency.
    pub fn limit_price(self, limit_price: &str) -> (b: Self)
        ensures
            b@.limit_price is Some,
            b@.limit_price->0@ == limit_price@,
            b@ == (OrderDraft { limit_price: b@.limit_price, ..self@ }),
    {
        let mut draft = self.draft;
        draft.limit_price = Some(String::from_str(limit_price));
        CreateOrderBuilder { draft }
    }

    /// Sets the stop price for the order: decimal text, in quote currency.
    pub fn stop_price(self, stop_price: &str) -> (b: Self)
        ensures
            b@.stop_price is Some,
            b@.stop_price->0@ == stop_price@,
            b@ == (OrderDraft { stop_price: b@.stop_price, ..self@ }),
    {
        let mut draft = self.draft;
        draft.stop_price = Some(String::from_str(stop_price));
        CreateOrderBuilder { draft }
    }

    /// Sets the stop trigger price for a trigger bracket order: decimal text.
    pub fn stop_trigger_price(self, stop_trigger_price: &str) -> (b: Self)
        ensures
            b@.stop_trigger_price is Some,
            b@.stop_trigger_price->0@ == stop_trigger_price@,
            b@ == (OrderDraft { stop_trigger_price: b@.stop_trigger_price, ..self@ }),
    {
        let mut draft = self.draft;
        draft.stop_trigger_price = Some(String::from_str(stop_trigger_price));
        CreateOrderBuilder { draft }
    }

    /// Sets the end time for the order, an RFC3339 timestamp.
    pub fn end_time(self, end_time: &str) -> (b: Self)
        ensures
            b@.end_time is Some,
            b@.end_time->0@ == end_time@,
            b@ == (OrderDraft { end_time: b@.end_time, ..self@ }),
    {
        let mut draft = self.draft;
        draft.end_time = Some(String::from_str(end_time));
        CreateOrderBuilder { draft }
    }

    /// Sets the post-only flag for the order.
    pub fn post_only(self, post_only: bool) -> (b: Self)
        ensures
            b@ == (OrderDraft { post_only: Some(post_only), ..self@ }),
    {
        let mut draft = self.draft;
        draft.post_only = Some(post_only);
        CreateOrderBuilder { draft }
    }

    /// Sets the stop direction for a stop order.
    pub fn stop_direction(self, stop_direction: StopDirection) -> (b: Self)
        ensures
            b@ == (OrderDraft { stop_direction: Some(stop_direction), ..self@ }),
    {
        let mut draft = self.draft;
        draft.stop_direction = Some(stop_direction);
        CreateOrderBuilder { draft }
    }

    /// Sets the client-defined order ID.
    pub fn client_order_id(self, client_order_id: &str) -> (b: Self)
        ensures
            b@.client_order_id is Some,
            b@.client_order_id->0@ == client_order_id@,
            b@ == (OrderDraft { client_order_id: b@.client_order_id, ..self@ }),
    {
        let mut draft = self.draft;
        draft.client_order_id = Some(String::from_str(client_order_id));
        CreateOrderBuilder { draft }
    }

    /// Sets whether the order is a preview order.
    pub fn preview(self, is_preview: bool) -> (b: Self)
        ensures
            b@ == (OrderDraft { is_preview, ..self@ }),
    {
        let mut draft = self.draft;
        draft.is_preview = is_preview;
        CreateOrderBuilder { draft }
    }

    /// Builds the `CreateOrder` object based on the provided parameters.
    ///
    /// Fails with `CbError::BadParse` when a parameter that the order type and time in force
    /// need is missing, or when that combination is not supported.
    pub fn build(self) -> (r: CbResult<CreateOrder>)
        ensures
            match r {
                Ok(o) => {
                    &&& create_order_configuration(self@) == Ok::<
                        OrderConfiguration,
                        CbErrorView,
                    >(o.order_configuration)
                    &&& o.product_id == self@.product_id
                    &&& o.side@ == self@.side.display_name()
                    &&& super::builders::client_order_id_fits(self@, o.client_order_id@)
                },
                Err(e) => create_order_configuration(self@) == Err::<OrderConfiguration, CbErrorView>(
                    e@,
                ),
            },
    {
        let CreateOrderBuilder { draft } = self;
        let OrderDraft {
            product_id,
            side,
            is_preview,
            order_type,
            time_in_force,
            base_size,
            quote_size,
            limit_price,
            stop_price,
            stop_trigger_price: _,
            end_time,
            post_only,
            stop_direction,
            client_order_id,
        } = draft;
        let order_configuration = match (order_type, time_in_force) {
            (Some(OrderType::Market), Some(TimeInForce::ImmediateOrCancel)) => {
                if base_size.is_none() && quote_size.is_none() {
                    return Err(
                        bad_parse(
                            "Either base_size or quote_size must be provided for Market IOC orders",
                        ),
                    );
                }
                OrderConfiguration::MarketIoc(MarketIoc { base_size, quote_size })
            },
            (Some(OrderType::Limit), Some(TimeInForce::GoodUntilCancelled)) => {
                let base_size = take_required(base_size, "base_size", "Limit GTC")?;
                let limit_price = take_required(limit_price, "limit_price", "Limit GTC")?;
                OrderConfiguration::LimitGtc(
                    LimitGtc { base_size, limit_price, post_only: post_only.unwrap_or(false) },
                )
            },
            (Some(OrderType::Limit), Some(TimeInForce::GoodUntilDate)) => {
                let base_size = take_required(base_size, "base_size", "Limit GTD")?;
                let limit_price = take_required(limit_price, "limit_price", "Limit GTD")?;
                let end_time = take_required(end_time, "end_time", "Limit GTD")?;
                OrderConfiguration::LimitGtd(
                    LimitGtd {
                        base_size,
                        limit_price,
                        end_time,
                        post_only: post_only.unwrap_or(false),
                    },
                )
            },
            (Some(OrderType::StopLimit), Some(TimeInForce::GoodUntilCancelled)) => {
                let base_size = take_required(base_size, "base_size", "Stop Limit GTC")?;
                let limit_price = take_required(limit_price, "limit_price", "Stop Limit GTC")?;
                let stop_price = take_required(stop_price, "stop_price", "Stop Limit GTC")?;
                let stop_direction = take_required(
                    stop_direction,
                    "stop_direction",
                    "Stop Limit GTC",
                )?;
                OrderConfiguration::StopLimitGtc(
                    StopLimitGtc { base_size, limit_price, stop_price, stop_direction },
                )
            },
            (Some(OrderType::StopLimit), Some(TimeInForce::GoodUntilDate)) => {
                let base_size = take_required(base_size, "base_size", "Stop Limit GTD")?;
                let limit_price = take_required(limit_price, "limit_price", "Stop Limit GTD")?;
                let stop_price = take_required(stop_price, "stop_price", "Stop Limit GTD")?;
                let stop_direction = take_required(
                    stop_direction,
                    "stop_direction",
                    "Stop Limit GTD",
                )?;
                let end_time = take_required(end_time, "end_time", "Stop Limit GTD")?;
                OrderConfiguration::StopLimitGtd(
                    StopLimitGtd { base_size, limit_price, stop_price, end_time, stop_direction },
                )
            },
            _ => {
                return Err(
                    bad_parse("Invalid or unsupported combination of order_type and time_in_force"),
                );
            },
        };
        let client_order_id = choose_client_order_id(is_preview, client_order_id);
        Ok(
            CreateOrder {
                client_order_id,
                product_id,
                side: side.to_string(),
                order_configuration,
            },
        )
    }
}

/// An order that builds gets the configuration that its order type and time in force name, and
/// carries exactly the sizes, prices, end time and stop direction given to the builder (post-only
/// only when set to true); each supported combination builds once the fields it needs are given.
pub proof fn lemma_created_configuration_carries_draft(d: OrderDraft)
    ensures
        create_order_configuration(d) matches Ok(c) ==> (c is MarketIoc || c is LimitGtc || c is LimitGtd
            || c is StopLimitGtc || c is StopLimitGtd),
        create_order_configuration(d) matches Ok(OrderConfiguration::MarketIoc(m)) ==> ({
            &&& d.order_type == Some(OrderType::Market)
            &&& d.time_in_force == Some(TimeInForce::ImmediateOrCancel)
            &&& m.base_size == d.base_size
            &&& m.quote_size == d.quote_size
            &&& (d.base_size is Some || d.quote_size is Some)
        }),
        create_order_configuration(d) matches Ok(OrderConfiguration::LimitGtc(l)) ==> ({
            &&& d.order_type == Some(OrderType::Limit)
            &&& d.time_in_force == Some(TimeInForce::GoodUntilCancelled)
            &&& d.base_size == Some(l.base_size)
            &&& d.limit_price == Some(l.limit_price)
            &&& l.post_only == (d.post_only == Some(true))
        }),
        create_order_configuration(d) matches Ok(OrderConfiguration::LimitGtd(l)) ==> ({
            &&& d.order_type == Some(OrderType::Limit)
            &&& d.time_in_force == Some(TimeInForce::GoodUntilDate)
            &&& d.base_size == Some(l.base_size)
            &&& d.limit_price == Some(l.limit_price)
            &&& d.end_time == Some(l.end_time)
            &&& l.post_only == (d.post_only == Some(true))
        }),
        create_order_configuration(d) matches Ok(OrderConfiguration::StopLimitGtc(s)) ==> ({
            &&& d.order_type == Some(OrderType::StopLimit)
            &&& d.time_in_force == Some(TimeInForce::GoodUntilCancelled)
            &&& d.base_size == Some(s.base_size)
            &&& d.limit_price == Some(s.limit_price)
            &&& d.stop_price == Some(s.stop_price)
            &&& d.stop_direction == Some(s.stop_direction)
        }),
        create_order_configuration(d) matches Ok(OrderConfiguration::StopLimitGtd(s)) ==> ({
            &&& d.order_type == Some(OrderType::StopLimit)
            &&& d.time_in_force == Some(TimeInForce::GoodUntilDate)
            &&& d.base_size == Some(s.base_size)
            &&& d.limit_price == Some(s.limit_price)
            &&& d.stop_price == Some(s.stop_price)
            &&& d.stop_direction == Some(s.stop_direction)
            &&& d.end_time == Some(s.end_time)
        }),
        (d.order_type == Some(OrderType::Market)
            && d.time_in_force == Some(TimeInForce::ImmediateOrCancel)
            && (d.base_size is Some || d.quote_size is Some))
            ==> create_order_configuration(d) is Ok,
        (d.order_type == Some(OrderType::Limit)
            && d.time_in_force == Some(TimeInForce::GoodUntilCancelled)
            && d.base_size is Some
            && d.limit_price is Some)
            ==> create_order_configuration(d) is Ok,
        (d.order_type == Some(OrderType::Limit)
            && d.time_in_force == Some(TimeInForce::GoodUntilDate)
            && d.base_size is Some
            && d.limit_price is Some
            && d.end_time is Some)
            ==> create_order_configuration(d) is Ok,
        (d.order_type == Some(OrderType::StopLimit)
            && d.time_in_force == Some(TimeInForce::GoodUntilCancelled)
            && d.base_size is Some
            && d.limit_price is Some
            && d.stop_price is Some
            && d.stop_direction is Some)
            ==> create_order_configuration(d) is Ok,
        (d.order_type == Some(OrderType::StopLimit)
            && d.time_in_force == Some(TimeInForce::GoodUntilDate)
            && d.base_size is Some
            && d.limit_price is Some
            && d.stop_price is Some
            && d.stop_direction is Some
            && d.end_time is Some)
            ==> create_order_configuration(d) is Ok,
{
}


} // verus!
