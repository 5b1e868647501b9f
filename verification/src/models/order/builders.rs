//! Builders that assemble an order from its parts and refuse incomplete ones.

use vstd::prelude::*;

use crate::errors::{bad_parse, failure, CbError, CbErrorView, CbResult};
use crate::text::{is_blank, is_blank_text};

use super::requests::OrderCreateRequest;
use crate::traits::Request;
use super::{
    LimitGtc, LimitGtd, MarketIoc, OrderConfiguration, OrderSide, OrderType, StopDirection,
    StopLimitGtc, StopLimitGtd, TimeInForce,
};

verus! {

/// The parts of an order gathered by a builder. Amounts are the decimal text sent to the API.
#[derive(Debug, Clone)]
pub struct OrderDraft {
    pub product_id: String,
    pub side: OrderSide,
    pub is_preview: bool,
    pub order_type: Option<OrderType>,
    pub time_in_force: Option<TimeInForce>,
    pub base_size: Option<String>,
    pub quote_size: Option<String>,
    pub limit_price: Option<String>,
    pub stop_price: Option<String>,
    pub stop_trigger_price: Option<String>,
    pub end_time: Option<String>,
    pub post_only: Option<bool>,
    pub stop_direction: Option<StopDirection>,
    pub client_order_id: Option<String>,
}

impl OrderDraft {
    /// A draft for a product and side, with nothing else set and not a preview.
    pub open spec fn empty_spec(product_id: String, side: OrderSide) -> OrderDraft {
        OrderDraft {
            product_id,
            side,
            is_preview: false,
            order_type: None,
            time_in_force: None,
            base_size: None,
            quote_size: None,
            limit_price: None,
            stop_price: None,
            stop_trigger_price: None,
            end_time: None,
            post_only: None,
            stop_direction: None,
            client_order_id: None,
        }
    }

    /// A draft for a product and side, with nothing else set and not a preview.
    pub fn empty(product_id: &str, side: OrderSide) -> (d: OrderDraft)
        ensures
            d == OrderDraft::empty_spec(d.product_id, side),
            d.product_id@ == product_id@,
    {
        OrderDraft {
            product_id: String::from_str(product_id),
            side,
            is_preview: false,
            order_type: None,
            time_in_force: None,
            base_size: None,
            quote_size: None,
            limit_price: None,
            stop_price: None,
            stop_trigger_price: None,
            end_time: None,
            post_only: None,
            stop_direction: None,
            client_order_id: None,
        }
    }
}

/// The message of a missing field.
pub open spec fn required_message(field_name: Seq<char>) -> Seq<char> {
    field_name + " is required."@
}

/// Validates that a required field is present and returns it, or an error if it is missing.
pub fn require_field<T>(field: Option<T>, field_name: &str) -> (r: Result<T, CbError>)
    ensures
        match r {
            Ok(v) => field == Some(v),
            Err(e) => field is None && e@ == CbErrorView::BadParse(required_message(field_name@)),
        },
{
    match field {
        Some(v) => Ok(v),
        None => {
            let mut message = String::from_str(field_name);
            message.append(" is required.");
            Err(CbError::BadParse(message))
        },
    }
}

/// Validates that a required field reference is present and returns it, or an error if it is
/// missing.
pub fn require_field_ref<'a, T>(field: &'a Option<T>, field_name: &str) -> (r: Result<&'a T, CbError>)
    ensures
        match r {
            Ok(v) => *field == Some(*v),
            Err(e) => *field is None && e@ == CbErrorView::BadParse(required_message(field_name@)),
        },
{
    match field {
        Some(v) => Ok(v),
        None => {
            let mut message = String::from_str(field_name);
            message.append(" is required.");
            Err(CbError::BadParse(message))
        },
    }
}

/// The message of an unsupported combination of order type and time in force.
pub open spec fn unsupported_combination_message() -> Seq<char> {
    "Invalid or unsupported combination of order_type and time_in_force"@
}

/// The message of a market order without a size.
pub open spec fn market_size_message() -> Seq<char> {
    "Either base_size or quote_size must be provided for Market IOC orders"@
}

/// The configuration that a draft describes, or the error that refuses it, with the
/// messages of `OrderCreateBuilder`.
pub open spec fn draft_configuration(d: OrderDraft) -> Result<OrderConfiguration, CbErrorView> {
    match (d.order_type, d.time_in_force) {
        (Some(OrderType::Market), Some(TimeInForce::ImmediateOrCancel)) => {
            if d.base_size is None && d.quote_size is None {
                Err(CbErrorView::BadParse(market_size_message()))
            } else {
                Ok(
                    OrderConfiguration::MarketIoc(
                        MarketIoc { base_size: d.base_size, quote_size: d.quote_size },
                    ),
                )
            }
        },
        (Some(OrderType::Limit), Some(TimeInForce::GoodUntilCancelled)) => {
            if d.base_size is None {
                Err(CbErrorView::BadParse(required_message("base_size"@)))
            } else if d.limit_price is None {
                Err(CbErrorView::BadParse(required_message("limit_price"@)))
            } else {
                Ok(
                    OrderConfiguration::LimitGtc(
                        LimitGtc {
                            base_size: d.base_size->0,
                            limit_price: d.limit_price->0,
                            post_only: d.post_only.unwrap_or(false),
                        },
                    ),
                )
            }
        },
        (Some(OrderType::Limit), Some(TimeInForce::GoodUntilDate)) => {
            if d.base_size is None {
                Err(CbErrorView::BadParse(required_message("base_size"@)))
            } else if d.limit_price is None {
                Err(CbErrorView::BadParse(required_message("limit_price"@)))
            } else if d.end_time is None {
                Err(CbErrorView::BadParse(required_message("end_time"@)))
            } else {
                Ok(
                    OrderConfiguration::LimitGtd(
                        LimitGtd {
                            base_size: d.base_size->0,
                            limit_price: d.limit_price->0,
                            end_time: d.end_time->0,
                            post_only: d.post_only.unwrap_or(false),
                        },
                    ),
                )
            }
        },
        (Some(OrderType::StopLimit), Some(TimeInForce::GoodUntilCancelled)) => {
            if d.base_size is None {
                Err(CbErrorView::BadParse(required_message("base_size"@)))
            } else if d.limit_price is None {
                Err(CbErrorView::BadParse(required_message("limit_price"@)))
            } else if d.stop_price is None {
                Err(CbErrorView::BadParse(required_message("stop_price"@)))
            } else if d.stop_direction is None {
                Err(CbErrorView::BadParse(required_message("stop_direction"@)))
            } else {
                Ok(
                    OrderConfiguration::StopLimitGtc(
                        StopLimitGtc {
                            base_size: d.base_size->0,
                            limit_price: d.limit_price->0,
                            stop_price: d.stop_price->0,
                            stop_direction: d.stop_direction->0,
                        },
                    ),
                )
            }
        },
        (Some(OrderType::StopLimit), Some(TimeInForce::GoodUntilDate)) => {
            if d.base_size is None {
                Err(CbErrorView::BadParse(required_message("base_size"@)))
            } else if d.limit_price is None {
                Err(CbErrorView::BadParse(required_message("limit_price"@)))
            } else if d.stop_price is None {
                Err(CbErrorView::BadParse(required_message("stop_price"@)))
            } else if d.stop_direction is None {
                Err(CbErrorView::BadParse(required_message("stop_direction"@)))
            } else if d.end_time is None {
                Err(CbErrorView::BadParse(required_message("end_time"@)))
            } else {
                Ok(
                    OrderConfiguration::StopLimitGtd(
                        StopLimitGtd {
                            base_size: d.base_size->0,
                            limit_price: d.limit_price->0,
                            stop_price: d.stop_price->0,
                            end_time: d.end_time->0,
                            stop_direction: d.stop_direction->0,
                        },
                    ),
                )
            }
        },
        _ => Err(CbErrorView::BadParse(unsupported_combination_message())),
    }
}

/// The error of the fields that every order needs, or `None` when they are acceptable.
pub open spec fn draft_common_failure(d: OrderDraft) -> Option<CbErrorView> {
    if d.side == OrderSide::Unknown {
        Some(CbErrorView::BadParse("Order side cannot be unknown."@))
    } else if is_blank_text(d.product_id@) {
        Some(CbErrorView::BadParse("Product ID cannot be empty."@))
    } else if d.order_type is None || d.order_type == Some(OrderType::Unknown) {
        Some(CbErrorView::BadParse("Order type must be specified."@))
    } else if d.time_in_force is None {
        Some(CbErrorView::BadParse("Time in force must be specified."@))
    } else {
        None
    }
}

/// What `OrderCreateBuilder::build` makes of a draft: its configuration or the first error.
pub open spec fn draft_outcome(d: OrderDraft) -> Result<OrderConfiguration, CbErrorView> {
    match draft_common_failure(d) {
        Some(e) => Err(e),
        None => draft_configuration(d),
    }
}

/// The text of a random (version 4) UUID: 36 characters, lowercase hexadecimal digits in
/// groups of 8, 4, 4, 4 and 12 separated by `-`, with version `4` and variant `8`-`b`.
pub open spec fn is_uuid_v4_text(s: Seq<char>) -> bool {
    &&& s.len() == 36
    &&& forall|i: int|
        0 <= i < 36 ==> (if i == 8 || i == 13 || i == 18 || i == 23 {
            #[trigger] s[i] == '-'
        } else {
            ('0' <= s[i] <= '9') || ('a' <= s[i] <= 'f')
        })
    &&& s[14] == '4'
    &&& s[19] == '8' || s[19] == '9' || s[19] == 'a' || s[19] == 'b'
}

/// Generates a client order ID with `uuid::Uuid::new_v4` and writes it with the `Display`
/// impl of `uuid::Uuid`, which writes the lowercase hyphenated form. The value is random:
/// nothing is claimed of it beyond that form.
#[verifier::external_body]
pub(crate) fn new_client_order_id() -> (s: String)
    ensures
        is_uuid_v4_text(s@),
{
    uuid::Uuid::new_v4().to_string()
}

/// The client order ID of an order built from a draft: empty for a preview, otherwise the
/// one given, otherwise a random UUID.
pub open spec fn client_order_id_fits(d: OrderDraft, id: Seq<char>) -> bool {
    if d.is_preview {
        id == Seq::<char>::empty()
    } else {
        match d.client_order_id {
            Some(given) => id == given@,
            None => is_uuid_v4_text(id),
        }
    }
}

/// Chooses the client order ID of an order built from a draft.
pub(crate) fn choose_client_order_id(is_preview: bool, client_order_id: Option<String>) -> (s: String)
    ensures
        is_preview ==> s@ == Seq::<char>::empty(),
        !is_preview && client_order_id is Some ==> s == client_order_id->0,
        !is_preview && client_order_id is None ==> is_uuid_v4_text(s@),
{
    if is_preview {
        String::new()
    } else {
        match client_order_id {
            Some(id) => id,
            None => new_client_order_id(),
        }
    }
}

/// A builder for creating `OrderCreateRequest` instances.
///
/// This builder provides a fluent interface to construct an order by specifying the product,
/// side, order type, time-in-force, and other optional parameters. It ensures that all required
/// parameters are set before building the final order, and helps prevent invalid configurations.
pub struct OrderCreateBuilder {
    draft: OrderDraft,
}

impl View for OrderCreateBuilder {
    type V = OrderDraft;

    closed spec fn view(&self) -> OrderDraft {
        self.draft
    }
}

impl OrderCreateBuilder {
    /// Creates a new `OrderCreateBuilder` for a product (e.g. "BTC-USD") and a side.
    pub fn new(product_id: &str, side: OrderSide) -> (b: Self)
        ensures
            b@ == OrderDraft::empty_spec(b@.product_id, side),
            b@.product_id@ == product_id@,
    {
        OrderCreateBuilder { draft: OrderDraft::empty(product_id, side) }
    }

    /// Sets the order type for the order.
    pub fn order_type(self, order_type: OrderType) -> (b: Self)
        ensures
            b@ == (OrderDraft { order_type: Some(order_type), ..self@ }),
    {
        let mut draft = self.draft;
        draft.order_type = Some(order_type);
        OrderCreateBuilder { draft }
    }

    /// Sets the time-in-force policy for the order.
    pub fn time_in_force(self, tif: TimeInForce) -> (b: Self)
        ensures
            b@ == (OrderDraft { time_in_force: Some(tif), ..self@ }),
    {
        let mut draft = self.draft;
        draft.time_in_force = Some(tif);
        OrderCreateBuilder { draft }
    }

    /// Sets the base size for the order: the decimal text of the quantity of base currency.
    pub fn base_size(self, base_size: &str) -> (b: Self)
        ensures
            b@.base_size is Some,
            b@.base_size->0@ == base_size@,
            b@ == (OrderDraft { base_size: b@.base_size, ..self@ }),
    {
        let mut draft = self.draft;
        draft.base_size = Some(String::from_str(base_size));
        OrderCreateBuilder { draft }
    }

    /// Sets the quote size for the order: the decimal text of the amount of quote currency.
    pub fn quote_size(self, quote_size: &str) -> (b: Self)
        ensures
            b@.quote_size is Some,
            b@.quote_size->0@ == quote_size@,
            b@ == (OrderDraft { quote_size: b@.quote_size, ..self@ }),
    {
        let mut draft = self.draft;
        draft.quote_size = Some(String::from_str(quote_size));
        OrderCreateBuilder { draft }
    }

    /// Sets the limit price for the order: decimal text, in quote currency.
    pub fn limit_price(self, limit_price: &str) -> (b: Self)
        ensures
            b@.limit_price is Some,
            b@.limit_price->0@ == limit_price@,
            b@ == (OrderDraft { limit_price: b@.limit_price, ..self@ }),
    {
        let mut draft = self.draft;
        draft.limit_price = Some(String::from_str(limit_price));
        OrderCreateBuilder { draft }
    }

    /// Sets the stop price for the order: decimal text, in quote currency.
    pub fn stop_price(self, stop_price: &str) -> (b: Self)
        ensures
            b@.stop_price is Some,
            b@.stop_price->0@ == stop_price@,
            b@ == (OrderDraft { stop_price: b@.stop_price, ..self@ }),
    {
        let mut draft = self.draft;
        draft.stop_price = Some(String::from_str(stop_price));
        OrderCreateBuilder { draft }
    }

    /// Sets the stop trigger price for a trigger bracket order: decimal text.
    pub fn stop_trigger_price(self, stop_trigger_price: &str) -> (b: Self)
        ensures
            b@.stop_trigger_price is Some,
            b@.stop_trigger_price->0@ == stop_trigger_price@,
            b@ == (OrderDraft { stop_trigger_price: b@.stop_trigger_price, ..self@ }),
    {
        let mut draft = self.draft;
        draft.stop_trigger_price = Some(String::from_str(stop_trigger_price));
        OrderCreateBuilder { draft }
    }

    /// Sets the end time for the order, an RFC3339 timestamp.
    pub fn end_time(self, end_time: &str) -> (b: Self)
        ensures
            b@.end_time is Some,
            b@.end_time->0@ == end_time@,
            b@ == (OrderDraft { end_time: b@.end_time, ..self@ }),
    {
        let mut draft = self.draft;
        draft.end_time = Some(String::from_str(end_time));
        OrderCreateBuilder { draft }
    }

    /// Sets the post-only flag for the order.
    pub fn post_only(self, post_only: bool) -> (b: Self)
        ensures
            b@ == (OrderDraft { post_only: Some(post_only), ..self@ }),
    {
        let mut draft = self.draft;
        draft.post_only = Some(post_only);
        OrderCreateBuilder { draft }
    }

    /// Sets the stop direction for a stop order.
    pub fn stop_direction(self, stop_direction: StopDirection) -> (b: Self)
        ensures
            b@ == (OrderDraft { stop_direction: Some(stop_direction), ..self@ }),
    {
        let mut draft = self.draft;
        draft.stop_direction = Some(stop_direction);
        OrderCreateBuilder { draft }
    }

    /// Sets the client-defined order ID.
    pub fn client_order_id(self, client_order_id: &str) -> (b: Self)
        ensures
            b@.client_order_id is Some,
            b@.client_order_id->0@ == client_order_id@,
            b@ == (OrderDraft { client_order_id: b@.client_order_id, ..self@ }),
    {
        let mut draft = self.draft;
        draft.client_order_id = Some(String::from_str(client_order_id));
        OrderCreateBuilder { draft }
    }

    /// Sets whether the order is a preview order.
    pub fn preview(self, is_preview: bool) -> (b: Self)
        ensures
            b@ == (OrderDraft { is_preview, ..self@ }),
    {
        let mut draft = self.draft;
        draft.is_preview = is_preview;
        OrderCreateBuilder { draft }
    }

    /// Builds the `OrderCreateRequest` object based on the provided parameters.
    ///
    /// Fails with `CbError::BadParse` when a field that every order needs is missing, when a
    /// field that the order type and time in force need is missing, or when that combination is
    /// not supported.
    pub fn build(self) -> (r: CbResult<OrderCreateRequest>)
        ensures
            match r {
                Ok(req) => {
                    &&& draft_outcome(self@) == Ok::<OrderConfiguration, CbErrorView>(
                        req.order_configuration,
                    )
                    &&& req.product_id == self@.product_id
                    &&& req.side == self@.side
                    &&& req.is_preview == self@.is_preview
                    &&& client_order_id_fits(self@, req.client_order_id@)
                },
                Err(e) => draft_outcome(self@) == Err::<OrderConfiguration, CbErrorView>(e@),
            },
    {
        let checked = self.validate_common_fields();
        match checked {
            Err(e) => {
                return Err(e);
            },
            Ok(()) => {},
        }
        let configured = self.determine_order_configuration();
        let order_configuration = match configured {
            Err(e) => {
                return Err(e);
            },
            Ok(c) => c,
        };
        let OrderCreateBuilder { draft } = self;
        let client_order_id = choose_client_order_id(draft.is_preview, draft.client_order_id);
        Ok(
            OrderCreateRequest {
                client_order_id,
                product_id: draft.product_id,
                side: draft.side,
                is_preview: draft.is_preview,
                order_configuration,
            },
        )
    }

    /// Validates common fields applicable to all order types.
    fn validate_common_fields(&self) -> (r: Result<(), CbError>)
        ensures
            failure(&r) == draft_common_failure(self@),
    {
        if self.draft.side == OrderSide::Unknown {
            return Err(bad_parse("Order side cannot be unknown."));
        }
        if is_blank(self.draft.product_id.as_str()) {
            return Err(bad_parse("Product ID cannot be empty."));
        }
        let unknown_type = match self.draft.order_type {
            None => true,
            Some(t) => t == OrderType::Unknown,
        };
        if unknown_type {
            return Err(bad_parse("Order type must be specified."));
        }
        if self.draft.time_in_force.is_none() {
            return Err(bad_parse("Time in force must be specified."));
        }
        Ok(())
    }

    /// Determines and validates the order configuration based on `order_type` and `time_in_force`.
    fn determine_order_configuration(&self) -> (r: Result<OrderConfiguration, CbError>)
        requires
            draft_common_failure(self@) is None,
        ensures
            match r {
                Ok(c) => draft_configuration(self@) == Ok::<OrderConfiguration, CbErrorView>(c),
                Err(e) => draft_configuration(self@) == Err::<OrderConfiguration, CbErrorView>(
                    e@,
                ),
            },
    {
        match (self.draft.order_type, self.draft.time_in_force) {
            (Some(order_type), Some(tif)) => validate_configuration(order_type, tif, self),
            _ => Err(bad_parse("Order type and time in force must be specified.")),
        }
    }

    /// Validates and constructs `MarketIoc` configuration.
    fn build_market_ioc(&self) -> (r: Result<OrderConfiguration, CbError>)
        requires
            self@.order_type == Some(OrderType::Market),
            self@.time_in_force == Some(TimeInForce::ImmediateOrCancel),
        ensures
            match r {
                Ok(c) => draft_configuration(self@) == Ok::<OrderConfiguration, CbErrorView>(c),
                Err(e) => draft_configuration(self@) == Err::<OrderConfiguration, CbErrorView>(
                    e@,
                ),
            },
    {
        if self.draft.base_size.is_none() && self.draft.quote_size.is_none() {
            return Err(
                bad_parse("Either base_size or quote_size must be provided for Market IOC orders"),
            );
        }
        Ok(
            OrderConfiguration::MarketIoc(
                MarketIoc {
                    base_size: clone_text(&self.draft.base_size),
                    quote_size: clone_text(&self.draft.quote_size),
                },
            ),
        )
    }

    /// Validates and constructs `LimitGtc` configuration.
    fn build_limit_gtc(&self) -> (r: Result<OrderConfiguration, CbError>)
        requires
            self@.order_type == Some(OrderType::Limit),
            self@.time_in_force == Some(TimeInForce::GoodUntilCancelled),
        ensures
            match r {
                Ok(c) => draft_configuration(self@) == Ok::<OrderConfiguration, CbErrorView>(c),
                Err(e) => draft_configuration(self@) == Err::<OrderConfiguration, CbErrorView>(
                    e@,
                ),
            },
    {
        let base_size = require_field_ref(&self.draft.base_size, "base_size")?;
        let limit_price = require_field_ref(&self.draft.limit_price, "limit_price")?;
        Ok(
            OrderConfiguration::LimitGtc(
                LimitGtc {
                    base_size: base_size.clone(),
                    limit_price: limit_price.clone(),
                    post_only: self.draft.post_only.unwrap_or(false),
                },
            ),
        )
    }

    /// Validates and constructs `LimitGtd` configuration.
    fn build_limit_gtd(&self) -> (r: Result<OrderConfiguration, CbError>)
        requires
            self@.order_type == Some(OrderType::Limit),
            self@.time_in_force == Some(TimeInForce::GoodUntilDate),
        ensures
            match r {
                Ok(c) => draft_configuration(self@) == Ok::<OrderConfiguration, CbErrorView>(c),
                Err(e) => draft_configuration(self@) == Err::<OrderConfiguration, CbErrorView>(
                    e@,
                ),
            },
    {
        let base_size = require_field_ref(&self.draft.base_size, "base_size")?;
        let limit_price = require_field_ref(&self.draft.limit_price, "limit_price")?;
        let end_time = require_field_ref(&self.draft.end_time, "end_time")?;
        Ok(
            OrderConfiguration::LimitGtd(
                LimitGtd {
                    base_size: base_size.clone(),
                    limit_price: limit_price.clone(),
                    end_time: end_time.clone(),
                    post_only: self.draft.post_only.unwrap_or(false),
                },
            ),
        )
    }

    /// Validates and constructs `StopLimitGtc` configuration.
    fn build_stop_limit_gtc(&self) -> (r: Result<OrderConfiguration, CbError>)
        requires
            self@.order_type == Some(OrderType::StopLimit),
            self@.time_in_force == Some(TimeInForce::GoodUntilCancelled),
        ensures
            match r {
                Ok(c) => draft_configuration(self@) == Ok::<OrderConfiguration, CbErrorView>(c),
                Err(e) => draft_configuration(self@) == Err::<OrderConfiguration, CbErrorView>(
                    e@,
                ),
            },
    {
        let base_size = require_field_ref(&self.draft.base_size, "base_size")?;
        let limit_price = require_field_ref(&self.draft.limit_price, "limit_price")?;
        let stop_price = require_field_ref(&self.draft.stop_price, "stop_price")?;
        let stop_direction = require_field(self.draft.stop_direction, "stop_direction")?;
        Ok(
            OrderConfiguration::StopLimitGtc(
                StopLimitGtc {
                    base_size: base_size.clone(),
                    limit_price: limit_price.clone(),
                    stop_price: stop_price.clone(),
                    stop_direction,
                },
            ),
        )
    }

    /// Validates and constructs `StopLimitGtd` configuration.
    fn build_stop_limit_gtd(&self) -> (r: Result<OrderConfiguration, CbError>)
        requires
            self@.order_type == Some(OrderType::StopLimit),
            self@.time_in_force == Some(TimeInForce::GoodUntilDate),
        ensures
            match r {
                Ok(c) => draft_configuration(self@) == Ok::<OrderConfiguration, CbErrorView>(c),
                Err(e) => draft_configuration(self@) == Err::<OrderConfiguration, CbErrorView>(
                    e@,
                ),
            },
    {
        let base_size = require_field_ref(&self.draft.base_size, "base_size")?;
        let limit_price = require_field_ref(&self.draft.limit_price, "limit_price")?;
        let stop_price = require_field_ref(&self.draft.stop_price, "stop_price")?;
        let stop_direction = require_field(self.draft.stop_direction, "stop_direction")?;
        let end_time = require_field_ref(&self.draft.end_time, "end_time")?;
        Ok(
            OrderConfiguration::StopLimitGtd(
                StopLimitGtd {
                    base_size: base_size.clone(),
                    limit_price: limit_price.clone(),
                    stop_price: stop_price.clone(),
                    end_time: end_time.clone(),
                    stop_direction,
                },
            ),
        )
    }
}

/// Copies an optional text.
pub fn clone_text(t: &Option<String>) -> (c: Option<String>)
    ensures
        c == *t,
{
    match t {
        Some(s) => Some(s.clone()),
        None => None,
    }
}

/// Validates the combination of order type and time in force and constructs the configuration.
fn validate_configuration(
    order_type: OrderType,
    tif: TimeInForce,
    builder: &OrderCreateBuilder,
) -> (r: Result<OrderConfiguration, CbError>)
    requires
        builder@.order_type == Some(order_type),
        builder@.time_in_force == Some(tif),
    ensures
        match r {
            Ok(c) => draft_configuration(builder@) == Ok::<OrderConfiguration, CbErrorView>(c),
            Err(e) => draft_configuration(builder@) == Err::<OrderConfiguration, CbErrorView>(e@),
        },
{
    match (order_type, tif) {
        (OrderType::Market, TimeInForce::ImmediateOrCancel) => builder.build_market_ioc(),
        (OrderType::Limit, TimeInForce::GoodUntilCancelled) => builder.build_limit_gtc(),
        (OrderType::Limit, TimeInForce::GoodUntilDate) => builder.build_limit_gtd(),
        (OrderType::StopLimit, TimeInForce::GoodUntilCancelled) => builder.build_stop_limit_gtc(),
        (OrderType::StopLimit, TimeInForce::GoodUntilDate) => builder.build_stop_limit_gtd(),
        _ => Err(bad_parse("Invalid or unsupported combination of order_type and time_in_force")),
    }
}

/// A request built from a draft passes the request check before it is sent, unless the caller
/// gave an empty client order ID for an order that is no preview.
pub proof fn lemma_built_request_passes_check(d: OrderDraft, req: OrderCreateRequest)
    requires
        draft_outcome(d) is Ok,
        req.product_id@ == d.product_id@,
        req.is_preview == d.is_preview,
        client_order_id_fits(d, req.client_order_id@),
        !(d.client_order_id matches Some(id) && id@.len() == 0),
    ensures
        req.request_failure() is None,
{
    assert(!is_blank_text(d.product_id@));
    assert(d.product_id@.len() > 0);
    if !d.is_preview && d.client_order_id is None {
        assert(req.client_order_id@.len() == 36);
    }
}

/// An order that builds gets the configuration that its order type and time in force name, and
/// carries exactly the sizes, prices, end time and stop direction given to the builder (post-only
/// only when set to true); each supported combination builds once the fields it needs are given and
/// the common fields are acceptable.
pub proof fn lemma_built_configuration_carries_draft(d: OrderDraft)
    ensures
        draft_outcome(d) matches Ok(c) ==> (c is MarketIoc || c is LimitGtc || c is LimitGtd
            || c is StopLimitGtc || c is StopLimitGtd),
        draft_outcome(d) matches Ok(OrderConfiguration::MarketIoc(m)) ==> ({
            &&& d.order_type == Some(OrderType::Market)
            &&& d.time_in_force == Some(TimeInForce::ImmediateOrCancel)
            &&& m.base_size == d.base_size
            &&& m.quote_size == d.quote_size
            &&& (d.base_size is Some || d.quote_size is Some)
        }),
        draft_outcome(d) matches Ok(OrderConfiguration::LimitGtc(l)) ==> ({
            &&& d.order_type == Some(OrderType::Limit)
            &&& d.time_in_force == Some(TimeInForce::GoodUntilCancelled)
            &&& d.base_size == Some(l.base_size)
            &&& d.limit_price == Some(l.limit_price)
            &&& l.post_only == (d.post_only == Some(true))
        }),
        draft_outcome(d) matches Ok(OrderConfiguration::LimitGtd(l)) ==> ({
            &&& d.order_type == Some(OrderType::Limit)
            &&& d.time_in_force == Some(TimeInForce::GoodUntilDate)
            &&& d.base_size == Some(l.base_size)
            &&& d.limit_price == Some(l.limit_price)
            &&& d.end_time == Some(l.end_time)
            &&& l.post_only == (d.post_only == Some(true))
        }),
        draft_outcome(d) matches Ok(OrderConfiguration::StopLimitGtc(s)) ==> ({
            &&& d.order_type == Some(OrderType::StopLimit)
            &&& d.time_in_force == Some(TimeInForce::GoodUntilCancelled)
            &&& d.base_size == Some(s.base_size)
            &&& d.limit_price == Some(s.limit_price)
            &&& d.stop_price == Some(s.stop_price)
            &&& d.stop_direction == Some(s.stop_direction)
        }),
        draft_outcome(d) matches Ok(OrderConfiguration::StopLimitGtd(s)) ==> ({
            &&& d.order_type == Some(OrderType::StopLimit)
            &&& d.time_in_force == Some(TimeInForce::GoodUntilDate)
            &&& d.base_size == Some(s.base_size)
            &&& d.limit_price == Some(s.limit_price)
            &&& d.stop_price == Some(s.stop_price)
            &&& d.stop_direction == Some(s.stop_direction)
            &&& d.end_time == Some(s.end_time)
        }),
        (draft_common_failure(d) is None
            && d.order_type == Some(OrderType::Market)
            && d.time_in_force == Some(TimeInForce::ImmediateOrCancel)
            && (d.base_size is Some || d.quote_size is Some))
            ==> draft_outcome(d) is Ok,
        (draft_common_failure(d) is None
            && d.order_type == Some(OrderType::Limit)
            && d.time_in_force == Some(TimeInForce::GoodUntilCancelled)
            && d.base_size is Some
            && d.limit_price is Some)
            ==> draft_outcome(d) is Ok,
        (draft_common_failure(d) is None
            && d.order_type == Some(OrderType::Limit)
            && d.time_in_force == Some(TimeInForce::GoodUntilDate)
            && d.base_size is Some
            && d.limit_price is Some
            && d.end_time is Some)
            ==> draft_outcome(d) is Ok,
        (draft_common_failure(d) is None
            && d.order_type == Some(OrderType::StopLimit)
            && d.time_in_force == Some(TimeInForce::GoodUntilCancelled)
            && d.base_size is Some
            && d.limit_price is Some
            && d.stop_price is Some
            && d.stop_direction is Some)
            ==> draft_outcome(d) is Ok,
        (draft_common_failure(d) is None
            && d.order_type == Some(OrderType::StopLimit)
            && d.time_in_force == Some(TimeInForce::GoodUntilDate)
            && d.base_size is Some
            && d.limit_price is Some
            && d.stop_price is Some
            && d.stop_direction is Some
            && d.end_time is Some)
            ==> draft_outcome(d) is Ok,
{
}


} // verus!
