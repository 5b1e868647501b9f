//! # Coinbase Advanced Order API
//!
//! Orders: their enumerations, the parameters that list them and the builders that create them.

mod builders;
mod create_order;
mod enums;
mod queries;
mod requests;
mod types;

pub use builders::{
    client_order_id_fits, draft_common_failure, draft_configuration, draft_outcome,
    is_uuid_v4_text, lemma_built_request_passes_check, market_size_message, require_field,
    require_field_ref, required_message, unsupported_combination_message, OrderCreateBuilder,
    OrderDraft,
};
pub use create_order::{create_order_configuration, missing_message, CreateOrderBuilder};
pub use enums::{
    ascii_lower, ascii_lower_char, ascii_upper, ascii_upper_char, is_ascii_snake, is_upper_snake,
    lemma_order_type_name_any_case, lemma_order_type_name_round_trip, lemma_upper_snake_cases,
    order_type_of_name, uppercase_text,
    OrderSide, OrderSortBy, OrderStatus, OrderType, RejectReason, StopDirection, TimeInForce,
    TriggerStatus,
};
pub use queries::{
    ClosePositionQuery, ListFillsQuery, ListOrdersQuery, OrderListFillsQuery, OrderListQuery,
};
pub use requests::{OrderCancelRequest, OrderClosePositionRequest, OrderCreateRequest};
pub use types::{
    CreateOrder, EditOrderErrors, EditOrderResponse, ErrorResponse, LimitFok, LimitGtc, LimitGtd, MarketIoc, OrderCancelResponse,
    OrderConfiguration, OrderCreateResponse, OrderResponse, OrderEditError, OrderEditResponse, SorLimitIoc,
    StopLimitGtc, StopLimitGtd, SuccessResponse, TriggerBracketGtc, TriggerBracketGtd,
};
