//! Enumerations of the Order API and the texts by which the API knows them.

use vstd::prelude::*;

use crate::utils::QueryValue;

verus! {

/// Various order types.
#[derive(Debug, Clone, Copy, PartialEq, Eq, Structural)]
pub enum OrderType {
    /// Unknown order type.
    Unknown,
    /// Buy or sell a specified quantity of an Asset at the current best available market price.
    Market,
    /// Buy or sell a specified quantity of an Asset at a specified price.
    Limit,
    /// An order that becomes active once a stop price is reached.
    Stop,
    /// A limit order that is posted once a stop price is reached.
    StopLimit,
    /// A limit order with stop limit order parameters embedded in it.
    Bracket,
}

impl OrderType {
    /// The name by which the API knows the value.
    pub open spec fn api_name(self) -> Seq<char> {
        match self {
            OrderType::Unknown => "UNKNOWN_ORDER_TYPE"@,
            OrderType::Market => "MARKET"@,
            OrderType::Limit => "LIMIT"@,
            OrderType::Stop => "STOP"@,
            OrderType::StopLimit => "STOP_LIMIT"@,
            OrderType::Bracket => "BRACKET"@,
        }
    }

    /// The name by which the API knows the value.
    pub fn as_ref(&self) -> (s: &'static str)
        ensures
            s@ == self.api_name(),
    {
        match self {
            OrderType::Unknown => "UNKNOWN_ORDER_TYPE",
            OrderType::Market => "MARKET",
            OrderType::Limit => "LIMIT",
            OrderType::Stop => "STOP",
            OrderType::StopLimit => "STOP_LIMIT",
            OrderType::Bracket => "BRACKET",
        }
    }

    /// The text that the value is displayed as: its API name.
    pub open spec fn display_name(self) -> Seq<char> {
        self.api_name()
    }

    /// The text that the value is displayed as: its API name.
    pub fn to_string(&self) -> (s: String)
        ensures
            s@ == self.display_name(),
    {
        String::from_str(self.as_ref())
    }
}

impl QueryValue for OrderType {
    open spec fn query_text(&self) -> Seq<char> {
        self.display_name()
    }

    fn to_query_text(&self) -> (s: String) {
        self.to_string()
    }
}

/// The text that `str::to_uppercase` gives for a text.
pub uninterp spec fn uppercase_text(s: Seq<char>) -> Seq<char>;

/// Whether a text holds only uppercase ASCII letters and underscores.
pub open spec fn is_upper_snake(s: Seq<char>) -> bool {
    forall|i: int| 0 <= i < s.len() ==> ('A' <= #[trigger] s[i] <= 'Z') || s[i] == '_'
}

/// Whether a text holds only ASCII letters, in either case, and underscores.
pub open spec fn is_ascii_snake(s: Seq<char>) -> bool {
    forall|i: int|
        0 <= i < s.len() ==> ('A' <= #[trigger] s[i] <= 'Z') || ('a' <= s[i] <= 'z') || s[i] == '_'
}

/// The uppercase of an ASCII letter; any other character as it is.
pub open spec fn ascii_upper_char(c: char) -> char {
    if 'a' <= c <= 'z' {
        ((c as u32) - 32) as char
    } else {
        c
    }
}

/// The lowercase of an ASCII letter; any other character as it is.
pub open spec fn ascii_lower_char(c: char) -> char {
    if 'A' <= c <= 'Z' {
        ((c as u32) + 32) as char
    } else {
        c
    }
}

/// A text with its ASCII letters in uppercase.
pub open spec fn ascii_upper(s: Seq<char>) -> Seq<char> {
    s.map_values(|c: char| ascii_upper_char(c))
}

/// A text with its ASCII letters in lowercase.
pub open spec fn ascii_lower(s: Seq<char>) -> Seq<char> {
    s.map_values(|c: char| ascii_lower_char(c))
}

/// Converts a text to uppercase with `str::to_uppercase`, whose documentation defines the
/// uppercase of each character by Unicode. Its result is named by `uppercase_text`; of that
/// name only this is claimed: on a text of ASCII letters and underscores, Unicode's uppercase
/// mapping is the ASCII one, which leaves uppercase letters and underscores as they are.
#[verifier::external_body]
fn to_uppercase(s: &str) -> (r: String)
    ensures
        r@ == uppercase_text(s@),
        is_ascii_snake(s@) ==> r@ == ascii_upper(s@),
{
    s.to_uppercase()
}

/// A text of uppercase ASCII letters and underscores is left as it is by `ascii_upper`, and its
/// lowercase is a text of ASCII letters and underscores whose uppercase is the text again.
pub proof fn lemma_upper_snake_cases(s: Seq<char>)
    requires
        is_upper_snake(s),
    ensures
        is_ascii_snake(s),
        ascii_upper(s) == s,
        is_ascii_snake(ascii_lower(s)),
        ascii_upper(ascii_lower(s)) == s,
{
    assert forall|i: int| 0 <= i < s.len() implies #[trigger] ascii_upper(s)[i] == s[i] by {
        assert(('A' <= s[i] <= 'Z') || s[i] == '_');
    }
    assert(ascii_upper(s) =~= s);
    let l = ascii_lower(s);
    assert forall|i: int| 0 <= i < l.len() implies ('A' <= #[trigger] l[i] <= 'Z') || ('a' <= l[i]
        <= 'z') || l[i] == '_' by {
        assert(('A' <= s[i] <= 'Z') || s[i] == '_');
    }
    assert forall|i: int| 0 <= i < s.len() implies #[trigger] ascii_upper(l)[i] == s[i] by {
        assert(('A' <= s[i] <= 'Z') || s[i] == '_');
    }
    assert(ascii_upper(l) =~= s);
}

/// The order type whose API name is the text, if any.
pub open spec fn order_type_of_name(s: Seq<char>) -> Option<OrderType> {
    if s == "UNKNOWN_ORDER_TYPE"@ {
        Some(OrderType::Unknown)
    } else if s == "MARKET"@ {
        Some(OrderType::Market)
    } else if s == "LIMIT"@ {
        Some(OrderType::Limit)
    } else if s == "STOP"@ {
        Some(OrderType::Stop)
    } else if s == "STOP_LIMIT"@ {
        Some(OrderType::StopLimit)
    } else if s == "BRACKET"@ {
        Some(OrderType::Bracket)
    } else {
        None
    }
}

/// Reading back the API name of an order type gives the order type.
pub proof fn lemma_order_type_name_round_trip(t: OrderType)
    ensures
        order_type_of_name(t.api_name()) == Some(t),
        is_upper_snake(t.api_name()),
{
    reveal_strlit("UNKNOWN_ORDER_TYPE");
    reveal_strlit("MARKET");
    reveal_strlit("LIMIT");
    reveal_strlit("STOP");
    reveal_strlit("STOP_LIMIT");
    reveal_strlit("BRACKET");
    assert("UNKNOWN_ORDER_TYPE"@.len() == 18);
    assert("MARKET"@.len() == 6 && "MARKET"@[0] == 'M');
    assert("LIMIT"@.len() == 5);
    assert("STOP"@.len() == 4);
    assert("STOP_LIMIT"@.len() == 10);
    assert("BRACKET"@.len() == 7 && "BRACKET"@[0] == 'B');
}

/// An order type is read back from its API name written in uppercase or in lowercase: both
/// texts are ASCII letters and underscores, and their uppercase names the order type.
pub proof fn lemma_order_type_name_any_case(t: OrderType)
    ensures
        is_ascii_snake(t.api_name()),
        order_type_of_name(ascii_upper(t.api_name())) == Some(t),
        is_ascii_snake(ascii_lower(t.api_name())),
        order_type_of_name(ascii_upper(ascii_lower(t.api_name()))) == Some(t),
{
    lemma_order_type_name_round_trip(t);
    lemma_upper_snake_cases(t.api_name());
}

impl OrderType {
    /// The order type whose API name is the text, which is already in uppercase.
    pub fn from_uppercase_name(name: &str) -> (t: Option<OrderType>)
        ensures
            t == order_type_of_name(name@),
    {
        if crate::text::same_text(name, "UNKNOWN_ORDER_TYPE") {
            Some(OrderType::Unknown)
        } else if crate::text::same_text(name, "MARKET") {
            Some(OrderType::Market)
        } else if crate::text::same_text(name, "LIMIT") {
            Some(OrderType::Limit)
        } else if crate::text::same_text(name, "STOP") {
            Some(OrderType::Stop)
        } else if crate::text::same_text(name, "STOP_LIMIT") {
            Some(OrderType::StopLimit)
        } else if crate::text::same_text(name, "BRACKET") {
            Some(OrderType::Bracket)
        } else {
            None
        }
    }

    /// Reads an order type from its API name in any letter case, as deserializing an order type
    /// does; `None` for a text that names none.
    pub fn from_name(value: &str) -> (t: Option<OrderType>)
        ensures
            t == order_type_of_name(uppercase_text(value@)),
            is_ascii_snake(value@) ==> t == order_type_of_name(ascii_upper(value@)),
    {
        let upper = to_uppercase(value);
        OrderType::from_uppercase_name(upper.as_str())
    }
}

/// Order side, BUY or SELL.
#[derive(Debug, Clone, Copy, PartialEq, Eq, Structural)]
pub enum OrderSide {
    /// Unknown order side. Only used by remote API.
    Unknown,
    /// Buy order.
    Buy,
    /// Sell order.
    Sell,
}

impl OrderSide {
    /// The name by which the API knows the value.
    pub open spec fn api_name(self) -> Seq<char> {
        match self {
            OrderSide::Unknown => "UNKNOWN_ORDER_SIDE"@,
            OrderSide::Buy => "BUY"@,
            OrderSide::Sell => "SELL"@,
        }
    }

    /// The name by which the API knows the value.
    pub fn as_ref(&self) -> (s: &'static str)
        ensures
            s@ == self.api_name(),
    {
        match self {
            OrderSide::Unknown => "UNKNOWN_ORDER_SIDE",
            OrderSide::Buy => "BUY",
            OrderSide::Sell => "SELL",
        }
    }

    /// The text that the value is displayed as: its API name.
    pub open spec fn display_name(self) -> Seq<char> {
        self.api_name()
    }

    /// The text that the value is displayed as: its API name.
    pub fn to_string(&self) -> (s: String)
        ensures
            s@ == self.display_name(),
    {
        String::from_str(self.as_ref())
    }
}

impl QueryValue for OrderSide {
    open spec fn query_text(&self) -> Seq<char> {
        self.display_name()
    }

    fn to_query_text(&self) -> (s: String) {
        self.to_string()
    }
}

/// Used to sort results.
#[derive(Debug, Clone, Copy, PartialEq, Eq, Structural)]
pub enum OrderSortBy {
    /// Unknown sort by.
    Unknown,
    /// Sort by price.
    Price,
    /// Sort by trade time.
    TradeTime,
    /// Sort by limit price.
    LimitPrice,
    /// Sort by last fill time.
    LastFillTime,
}

impl OrderSortBy {
    /// The name by which the API knows the value.
    pub open spec fn api_name(self) -> Seq<char> {
        match self {
            OrderSortBy::Unknown => "UNKNOWN_SORT_BY"@,
            OrderSortBy::Price => "PRICE"@,
            OrderSortBy::TradeTime => "TRADE_TIME"@,
            OrderSortBy::LimitPrice => "LIMIT_PRICE"@,
            OrderSortBy::LastFillTime => "LAST_FILL_TIME"@,
        }
    }

    /// The name by which the API knows the value.
    pub fn as_ref(&self) -> (s: &'static str)
        ensures
            s@ == self.api_name(),
    {
        match self {
            OrderSortBy::Unknown => "UNKNOWN_SORT_BY",
            OrderSortBy::Price => "PRICE",
            OrderSortBy::TradeTime => "TRADE_TIME",
            OrderSortBy::LimitPrice => "LIMIT_PRICE",
            OrderSortBy::LastFillTime => "LAST_FILL_TIME",
        }
    }

    /// The text that the value is displayed as: its API name.
    pub open spec fn display_name(self) -> Seq<char> {
        self.api_name()
    }

    /// The text that the value is displayed as: its API name.
    pub fn to_string(&self) -> (s: String)
        ensures
            s@ == self.display_name(),
    {
        String::from_str(self.as_ref())
    }
}

impl QueryValue for OrderSortBy {
    open spec fn query_text(&self) -> Seq<char> {
        self.display_name()
    }

    fn to_query_text(&self) -> (s: String) {
        self.to_string()
    }
}

/// Order status, OPEN, CANCELLED, and EXPIRED.
#[derive(Debug, Clone, Copy, PartialEq, Eq, Structural)]
pub enum OrderStatus {
    /// Order is pending.
    Pending,
    /// Order is open.
    Open,
    /// Order is filled.
    Filled,
    /// Order is cancelled.
    Cancelled,
    /// Order is expired.
    Expired,
    /// Order failed.
    Failed,
    /// Unknown order status.
    Unknown,
    /// Order is queued.
    Queued,
    /// Order is queued to be cancelled.
    CancelQueued,
}

impl OrderStatus {
    /// The name by which the API knows the value.
    pub open spec fn api_name(self) -> Seq<char> {
        match self {
            OrderStatus::Pending => "PENDING"@,
            OrderStatus::Open => "OPEN"@,
            OrderStatus::Filled => "FILLED"@,
            OrderStatus::Cancelled => "CANCELLED"@,
            OrderStatus::Expired => "EXPIRED"@,
            OrderStatus::Failed => "FAILED"@,
            OrderStatus::Unknown => "UNKNOWN_ORDER_STATUS"@,
            OrderStatus::Queued => "QUEUED"@,
            OrderStatus::CancelQueued => "CANCEL_QUEUED"@,
        }
    }

    /// The name by which the API knows the value.
    pub fn as_ref(&self) -> (s: &'static str)
        ensures
            s@ == self.api_name(),
    {
        match self {
            OrderStatus::Pending => "PENDING",
            OrderStatus::Open => "OPEN",
            OrderStatus::Filled => "FILLED",
            OrderStatus::Cancelled => "CANCELLED",
            OrderStatus::Expired => "EXPIRED",
            OrderStatus::Failed => "FAILED",
            OrderStatus::Unknown => "UNKNOWN_ORDER_STATUS",
            OrderStatus::Queued => "QUEUED",
            OrderStatus::CancelQueued => "CANCEL_QUEUED",
        }
    }

    /// The text that the value is displayed as: the name of its variant.
    pub open spec fn display_name(self) -> Seq<char> {
        match self {
            OrderStatus::Pending => "Pending"@,
            OrderStatus::Open => "Open"@,
            OrderStatus::Filled => "Filled"@,
            OrderStatus::Cancelled => "Cancelled"@,
            OrderStatus::Expired => "Expired"@,
            OrderStatus::Failed => "Failed"@,
            OrderStatus::Unknown => "Unknown"@,
            OrderStatus::Queued => "Queued"@,
            OrderStatus::CancelQueued => "CancelQueued"@,
        }
    }

    /// The text that the value is displayed as: the name of its variant.
    pub fn to_string(&self) -> (s: String)
        ensures
            s@ == self.display_name(),
    {
        let text: &str = match self {
            OrderStatus::Pending => "Pending",
            OrderStatus::Open => "Open",
            OrderStatus::Filled => "Filled",
            OrderStatus::Cancelled => "Cancelled",
            OrderStatus::Expired => "Expired",
            OrderStatus::Failed => "Failed",
            OrderStatus::Unknown => "Unknown",
            OrderStatus::Queued => "Queued",
            OrderStatus::CancelQueued => "CancelQueued",
        };
        String::from_str(text)
    }
}

impl QueryValue for OrderStatus {
    open spec fn query_text(&self) -> Seq<char> {
        self.display_name()
    }

    fn to_query_text(&self) -> (s: String) {
        self.to_string()
    }
}

/// How long an order stays active.
#[derive(Debug, Clone, Copy, PartialEq, Eq, Structural)]
pub enum TimeInForce {
    /// Unknown time in force.
    Unknown,
    /// Good 'til Cancelled
    GoodUntilCancelled,
    /// Good 'til Date
    GoodUntilDate,
    /// Immediate or Cancel
    ImmediateOrCancel,
    /// Fill or Kill
    FillOrKill,
}

impl TimeInForce {
    /// The name by which the API knows the value.
    pub open spec fn api_name(self) -> Seq<char> {
        match self {
            TimeInForce::Unknown => "UNKNOWN_TIME_IN_FORCE"@,
            TimeInForce::GoodUntilCancelled => "GOOD_TIL_CANCELLED"@,
            TimeInForce::GoodUntilDate => "GOOD_TIL_DATE_TIME"@,
            TimeInForce::ImmediateOrCancel => "IMMEDIATE_OR_CANCEL"@,
            TimeInForce::FillOrKill => "FILL_OR_KILL"@,
        }
    }

    /// The name by which the API knows the value.
    pub fn as_ref(&self) -> (s: &'static str)
        ensures
            s@ == self.api_name(),
    {
        match self {
            TimeInForce::Unknown => "UNKNOWN_TIME_IN_FORCE",
            TimeInForce::GoodUntilCancelled => "GOOD_TIL_CANCELLED",
            TimeInForce::GoodUntilDate => "GOOD_TIL_DATE_TIME",
            TimeInForce::ImmediateOrCancel => "IMMEDIATE_OR_CANCEL",
            TimeInForce::FillOrKill => "FILL_OR_KILL",
        }
    }

    /// The text that the value is displayed as: its API name.
    pub open spec fn display_name(self) -> Seq<char> {
        self.api_name()
    }

    /// The text that the value is displayed as: its API name.
    pub fn to_string(&self) -> (s: String)
        ensures
            s@ == self.display_name(),
    {
        String::from_str(self.as_ref())
    }
}

impl QueryValue for TimeInForce {
    open spec fn query_text(&self) -> Seq<char> {
        self.display_name()
    }

    fn to_query_text(&self) -> (s: String) {
        self.to_string()
    }
}

/// The possible trigger statuses of an order.
#[derive(Debug, Clone, Copy, PartialEq, Eq, Structural)]
pub enum TriggerStatus {
    /// Unknown trigger status.
    Unknown,
    /// Invalid order type.
    InvalidOrderType,
    /// Stop pending.
    StopPending,
    /// Stop triggered.
    StopTriggered,
}

impl TriggerStatus {
    /// The name by which the API knows the value.
    pub open spec fn api_name(self) -> Seq<char> {
        match self {
            TriggerStatus::Unknown => "UNKNOWN_TRIGGER_STATUS"@,
            TriggerStatus::InvalidOrderType => "INVALID_ORDER_TYPE"@,
            TriggerStatus::StopPending => "STOP_PENDING"@,
            TriggerStatus::StopTriggered => "STOP_TRIGGERED"@,
        }
    }

    /// The name by which the API knows the value.
    pub fn as_ref(&self) -> (s: &'static str)
        ensures
            s@ == self.api_name(),
    {
        match self {
            TriggerStatus::Unknown => "UNKNOWN_TRIGGER_STATUS",
            TriggerStatus::InvalidOrderType => "INVALID_ORDER_TYPE",
            TriggerStatus::StopPending => "STOP_PENDING",
            TriggerStatus::StopTriggered => "STOP_TRIGGERED",
        }
    }

    /// The text that the value is displayed as: the name of its variant.
    pub open spec fn display_name(self) -> Seq<char> {
        match self {
            TriggerStatus::Unknown => "Unknown"@,
            TriggerStatus::InvalidOrderType => "InvalidOrderType"@,
            TriggerStatus::StopPending => "StopPending"@,
            TriggerStatus::StopTriggered => "StopTriggered"@,
        }
    }

    /// The text that the value is displayed as: the name of its variant.
    pub fn to_string(&self) -> (s: String)
        ensures
            s@ == self.display_name(),
    {
        let text: &str = match self {
            TriggerStatus::Unknown => "Unknown",
            TriggerStatus::InvalidOrderType => "InvalidOrderType",
            TriggerStatus::StopPending => "StopPending",
            TriggerStatus::StopTriggered => "StopTriggered",
        };
        String::from_str(text)
    }
}

impl QueryValue for TriggerStatus {
    open spec fn query_text(&self) -> Seq<char> {
        self.display_name()
    }

    fn to_query_text(&self) -> (s: String) {
        self.to_string()
    }
}

/// Reasons for rejecting an order.
#[derive(Debug, Clone, Copy, PartialEq, Eq, Structural)]
pub enum RejectReason {
    /// Unspecified reject reason.
    Unspecified,
    /// Hold failure reject reason.
    HoldFailure,
    /// Too many open orders reject reason.
    TooManyOpenOrders,
    /// Insufficient funds reject reason.
    InsufficientFunds,
    /// Rate limit exceeded reject reason.
    RateLimitExceeded,
}

impl RejectReason {
    /// The name by which the API knows the value.
    pub open spec fn api_name(self) -> Seq<char> {
        match self {
            RejectReason::Unspecified => "REJECT_REASON_UNSPECIFIED"@,
            RejectReason::HoldFailure => "HOLD_FAILURE"@,
            RejectReason::TooManyOpenOrders => "TOO_MANY_OPEN_ORDERS"@,
            RejectReason::InsufficientFunds => "REJECT_REASON_INSUFFICIENT_FUNDS"@,
            RejectReason::RateLimitExceeded => "RATE_LIMIT_EXCEEDED"@,
        }
    }

    /// The name by which the API knows the value.
    pub fn as_ref(&self) -> (s: &'static str)
        ensures
            s@ == self.api_name(),
    {
        match self {
            RejectReason::Unspecified => "REJECT_REASON_UNSPECIFIED",
            RejectReason::HoldFailure => "HOLD_FAILURE",
            RejectReason::TooManyOpenOrders => "TOO_MANY_OPEN_ORDERS",
            RejectReason::InsufficientFunds => "REJECT_REASON_INSUFFICIENT_FUNDS",
            RejectReason::RateLimitExceeded => "RATE_LIMIT_EXCEEDED",
        }
    }

    /// The text that the value is displayed as: the name of its variant.
    pub open spec fn display_name(self) -> Seq<char> {
        match self {
            RejectReason::Unspecified => "Unspecified"@,
            RejectReason::HoldFailure => "HoldFailure"@,
            RejectReason::TooManyOpenOrders => "TooManyOpenOrders"@,
            RejectReason::InsufficientFunds => "InsufficientFunds"@,
            RejectReason::RateLimitExceeded => "RateLimitExceeded"@,
        }
    }

    /// The text that the value is displayed as: the name of its variant.
    pub fn to_string(&self) -> (s: String)
        ensures
            s@ == self.display_name(),
    {
        let text: &str = match self {
            RejectReason::Unspecified => "Unspecified",
            RejectReason::HoldFailure => "HoldFailure",
            RejectReason::TooManyOpenOrders => "TooManyOpenOrders",
            RejectReason::InsufficientFunds => "InsufficientFunds",
            RejectReason::RateLimitExceeded => "RateLimitExceeded",
        };
        String::from_str(text)
    }
}

impl QueryValue for RejectReason {
    open spec fn query_text(&self) -> Seq<char> {
        self.display_name()
    }

    fn to_query_text(&self) -> (s: String) {
        self.to_string()
    }
}

/// The direction in which the last trade price has to move to trigger a stop order.
#[derive(Debug, Clone, Copy, PartialEq, Eq, Structural)]
pub enum StopDirection {
    /// Unknown stop direction.
    Unknown,
    /// Stop up direction.
    StopUp,
    /// Stop down direction.
    StopDown,
}

impl StopDirection {
    /// The text that the value is displayed as: the name of its variant.
    pub open spec fn display_name(self) -> Seq<char> {
        match self {
            StopDirection::Unknown => "Unknown"@,
            StopDirection::StopUp => "StopUp"@,
            StopDirection::StopDown => "StopDown"@,
        }
    }

    /// The text that the value is displayed as: the name of its variant.
    pub fn to_string(&self) -> (s: String)
        ensures
            s@ == self.display_name(),
    {
        let text: &str = match self {
            StopDirection::Unknown => "Unknown",
            StopDirection::StopUp => "StopUp",
            StopDirection::StopDown => "StopDown",
        };
        String::from_str(text)
    }
}

/// Distinct order sides have distinct API names, so the text sent names exactly one of them.
pub proof fn lemma_order_side_api_names_distinct(a: OrderSide, b: OrderSide)
    ensures
        a.api_name() == b.api_name() ==> a == b,
{
    reveal_strlit("UNKNOWN_ORDER_SIDE");
    reveal_strlit("BUY");
    reveal_strlit("SELL");
    assert("UNKNOWN_ORDER_SIDE"@.len() == 18);
    assert("BUY"@.len() == 3);
    assert("SELL"@.len() == 4);
}

/// Distinct sort orders have distinct API names, so the text sent names exactly one of them.
pub proof fn lemma_order_sort_by_api_names_distinct(a: OrderSortBy, b: OrderSortBy)
    ensures
        a.api_name() == b.api_name() ==> a == b,
{
    reveal_strlit("UNKNOWN_SORT_BY");
    reveal_strlit("PRICE");
    reveal_strlit("TRADE_TIME");
    reveal_strlit("LIMIT_PRICE");
    reveal_strlit("LAST_FILL_TIME");
    assert("UNKNOWN_SORT_BY"@.len() == 15);
    assert("PRICE"@.len() == 5);
    assert("TRADE_TIME"@.len() == 10);
    assert("LIMIT_PRICE"@.len() == 11);
    assert("LAST_FILL_TIME"@.len() == 14);
}

/// Distinct order statuses have distinct API names, so the text sent names exactly one of them.
pub proof fn lemma_order_status_api_names_distinct(a: OrderStatus, b: OrderStatus)
    ensures
        a.api_name() == b.api_name() ==> a == b,
{
    reveal_strlit("PENDING");
    reveal_strlit("OPEN");
    reveal_strlit("FILLED");
    reveal_strlit("CANCELLED");
    reveal_strlit("EXPIRED");
    reveal_strlit("FAILED");
    reveal_strlit("UNKNOWN_ORDER_STATUS");
    reveal_strlit("QUEUED");
    reveal_strlit("CANCEL_QUEUED");
    assert("PENDING"@.len() == 7 && "PENDING"@[0] == 'P');
    assert("OPEN"@.len() == 4);
    assert("FILLED"@.len() == 6 && "FILLED"@[0] == 'F' && "FILLED"@[1] == 'I');
    assert("CANCELLED"@.len() == 9);
    assert("EXPIRED"@.len() == 7 && "EXPIRED"@[0] == 'E');
    assert("FAILED"@.len() == 6 && "FAILED"@[0] == 'F' && "FAILED"@[1] == 'A');
    assert("UNKNOWN_ORDER_STATUS"@.len() == 20);
    assert("QUEUED"@.len() == 6 && "QUEUED"@[0] == 'Q');
    assert("CANCEL_QUEUED"@.len() == 13);
}

/// Distinct order statuses have distinct display names, so the text sent names exactly one of them.
pub proof fn lemma_order_status_display_names_distinct(a: OrderStatus, b: OrderStatus)
    ensures
        a.display_name() == b.display_name() ==> a == b,
{
    reveal_strlit("Pending");
    reveal_strlit("Open");
    reveal_strlit("Filled");
    reveal_strlit("Cancelled");
    reveal_strlit("Expired");
    reveal_strlit("Failed");
    reveal_strlit("Unknown");
    reveal_strlit("Queued");
    reveal_strlit("CancelQueued");
    assert("Pending"@.len() == 7 && "Pending"@[0] == 'P');
    assert("Open"@.len() == 4);
    assert("Filled"@.len() == 6 && "Filled"@[0] == 'F' && "Filled"@[1] == 'i');
    assert("Cancelled"@.len() == 9);
    assert("Expired"@.len() == 7 && "Expired"@[0] == 'E');
    assert("Failed"@.len() == 6 && "Failed"@[0] == 'F' && "Failed"@[1] == 'a');
    assert("Unknown"@.len() == 7 && "Unknown"@[0] == 'U');
    assert("Queued"@.len() == 6 && "Queued"@[0] == 'Q');
    assert("CancelQueued"@.len() == 12);
}

/// Distinct times in force have distinct API names, so the text sent names exactly one of them.
pub proof fn lemma_time_in_force_api_names_distinct(a: TimeInForce, b: TimeInForce)
    ensures
        a.api_name() == b.api_name() ==> a == b,
{
    reveal_strlit("UNKNOWN_TIME_IN_FORCE");
    reveal_strlit("GOOD_TIL_CANCELLED");
    reveal_strlit("GOOD_TIL_DATE_TIME");
    reveal_strlit("IMMEDIATE_OR_CANCEL");
    reveal_strlit("FILL_OR_KILL");
    assert("UNKNOWN_TIME_IN_FORCE"@.len() == 21);
    assert("GOOD_TIL_CANCELLED"@.len() == 18 && "GOOD_TIL_CANCELLED"@[9] == 'C');
    assert("GOOD_TIL_DATE_TIME"@.len() == 18 && "GOOD_TIL_DATE_TIME"@[9] == 'D');
    assert("IMMEDIATE_OR_CANCEL"@.len() == 19);
    assert("FILL_OR_KILL"@.len() == 12);
}

/// Distinct trigger statuses have distinct API names, so the text sent names exactly one of them.
pub proof fn lemma_trigger_status_api_names_distinct(a: TriggerStatus, b: TriggerStatus)
    ensures
        a.api_name() == b.api_name() ==> a == b,
{
    reveal_strlit("UNKNOWN_TRIGGER_STATUS");
    reveal_strlit("INVALID_ORDER_TYPE");
    reveal_strlit("STOP_PENDING");
    reveal_strlit("STOP_TRIGGERED");
    assert("UNKNOWN_TRIGGER_STATUS"@.len() == 22);
    assert("INVALID_ORDER_TYPE"@.len() == 18);
    assert("STOP_PENDING"@.len() == 12);
    assert("STOP_TRIGGERED"@.len() == 14);
}

/// Distinct trigger statuses have distinct display names, so the text sent names exactly one of
/// them.
pub proof fn lemma_trigger_status_display_names_distinct(a: TriggerStatus, b: TriggerStatus)
    ensures
        a.display_name() == b.display_name() ==> a == b,
{
    reveal_strlit("Unknown");
    reveal_strlit("InvalidOrderType");
    reveal_strlit("StopPending");
    reveal_strlit("StopTriggered");
    assert("Unknown"@.len() == 7);
    assert("InvalidOrderType"@.len() == 16);
    assert("StopPending"@.len() == 11);
    assert("StopTriggered"@.len() == 13);
}

/// Distinct reject reasons have distinct API names, so the text sent names exactly one of them.
pub proof fn lemma_reject_reason_api_names_distinct(a: RejectReason, b: RejectReason)
    ensures
        a.api_name() == b.api_name() ==> a == b,
{
    reveal_strlit("REJECT_REASON_UNSPECIFIED");
    reveal_strlit("HOLD_FAILURE");
    reveal_strlit("TOO_MANY_OPEN_ORDERS");
    reveal_strlit("REJECT_REASON_INSUFFICIENT_FUNDS");
    reveal_strlit("RATE_LIMIT_EXCEEDED");
    assert("REJECT_REASON_UNSPECIFIED"@.len() == 25);
    assert("HOLD_FAILURE"@.len() == 12);
    assert("TOO_MANY_OPEN_ORDERS"@.len() == 20);
    assert("REJECT_REASON_INSUFFICIENT_FUNDS"@.len() == 32);
    assert("RATE_LIMIT_EXCEEDED"@.len() == 19);
}

/// Distinct reject reasons have distinct display names, so the text sent names exactly one of them.
pub proof fn lemma_reject_reason_display_names_distinct(a: RejectReason, b: RejectReason)
    ensures
        a.display_name() == b.display_name() ==> a == b,
{
    reveal_strlit("Unspecified");
    reveal_strlit("HoldFailure");
    reveal_strlit("TooManyOpenOrders");
    reveal_strlit("InsufficientFunds");
    reveal_strlit("RateLimitExceeded");
    assert("Unspecified"@.len() == 11 && "Unspecified"@[0] == 'U');
    assert("HoldFailure"@.len() == 11 && "HoldFailure"@[0] == 'H');
    assert("TooManyOpenOrders"@.len() == 17 && "TooManyOpenOrders"@[0] == 'T');
    assert("InsufficientFunds"@.len() == 17 && "InsufficientFunds"@[0] == 'I');
    assert("RateLimitExceeded"@.len() == 17 && "RateLimitExceeded"@[0] == 'R');
}

/// Distinct stop directions have distinct display names, so the text sent names exactly one of
/// them.
pub proof fn lemma_stop_direction_display_names_distinct(a: StopDirection, b: StopDirection)
    ensures
        a.display_name() == b.display_name() ==> a == b,
{
    reveal_strlit("Unknown");
    reveal_strlit("StopUp");
    reveal_strlit("StopDown");
    assert("Unknown"@.len() == 7);
    assert("StopUp"@.len() == 6);
    assert("StopDown"@.len() == 8);
}

} // verus!
