//! # Coinbase Advanced WebSocket models
//!
//! The channels of the WebSocket stream, the kinds of its events and the plain messages that
//! carry no prices.

use vstd::prelude::*;

use crate::text::same_text;

verus! {

/// WebSocket Channels that can be subscribed to.
#[derive(Debug, Clone, Copy, PartialEq, Eq, Structural, Hash)]
pub enum Channel {
    /// Sends all products and currencies on a preset interval.
    Status,
    /// Updates every second. Candles are grouped into buckets (granularities) of five minutes.
    Candles,
    /// Real-time price updates every time a match happens.
    Ticker,
    /// Real-time price updates every 5000 milli-seconds.
    TickerBatch,
    /// All updates and easiest way to keep order book snapshot.
    Level2,
    /// Real-time updates every time a market trade happens.
    MarketTrades,
    /// Real-time pings from server to keep connections open.
    Heartbeats,
    /// Only sends messages that include the authenticated user.
    User,
    /// Real-time updates every time a user's futures balance changes.
    FuturesBalanceSummary,
    /// Updates to subscription status.
    Subscriptions,
}

/// The name of a channel on the wire.
pub open spec fn channel_name(c: Channel) -> Seq<char> {
    match c {
        Channel::Status => "status"@,
        Channel::Candles => "candles"@,
        Channel::Ticker => "ticker"@,
        Channel::TickerBatch => "ticker_batch"@,
        Channel::Level2 => "level2"@,
        Channel::MarketTrades => "market_trades"@,
        Channel::Heartbeats => "heartbeats"@,
        Channel::User => "user"@,
        Channel::FuturesBalanceSummary => "futures_balance_summary"@,
        Channel::Subscriptions => "subscriptions"@,
    }
}

/// The channel that a name on the wire stands for: each channel's own name, and `l2_data`,
/// which the API also sends for the level2 channel.
pub open spec fn channel_of_name(s: Seq<char>) -> Option<Channel> {
    if s == "status"@ {
        Some(Channel::Status)
    } else if s == "candles"@ {
        Some(Channel::Candles)
    } else if s == "ticker"@ {
        Some(Channel::Ticker)
    } else if s == "ticker_batch"@ {
        Some(Channel::TickerBatch)
    } else if s == "level2"@ || s == "l2_data"@ {
        Some(Channel::Level2)
    } else if s == "market_trades"@ {
        Some(Channel::MarketTrades)
    } else if s == "heartbeats"@ {
        Some(Channel::Heartbeats)
    } else if s == "user"@ {
        Some(Channel::User)
    } else if s == "futures_balance_summary"@ {
        Some(Channel::FuturesBalanceSummary)
    } else if s == "subscriptions"@ {
        Some(Channel::Subscriptions)
    } else {
        None
    }
}

impl Channel {
    /// The name of the channel on the wire.
    pub fn as_ref(&self) -> (s: &'static str)
        ensures
            s@ == channel_name(*self),
    {
        match self {
            Channel::Status => "status",
            Channel::Candles => "candles",
            Channel::Ticker => "ticker",
            Channel::TickerBatch => "ticker_batch",
            Channel::Level2 => "level2",
            Channel::MarketTrades => "market_trades",
            Channel::Heartbeats => "heartbeats",
            Channel::User => "user",
            Channel::FuturesBalanceSummary => "futures_balance_summary",
            Channel::Subscriptions => "subscriptions",
        }
    }

    /// The text that the channel is displayed as: its name on the wire.
    pub fn to_string(&self) -> (s: String)
        ensures
            s@ == channel_name(*self),
    {
        String::from_str(self.as_ref())
    }

    /// The channel that a name on the wire stands for, if any.
    pub fn from_name(name: &str) -> (c: Option<Channel>)
        ensures
            c == channel_of_name(name@),
    {
        if same_text(name, "status") {
            Some(Channel::Status)
        } else if same_text(name, "candles") {
            Some(Channel::Candles)
        } else if same_text(name, "ticker") {
            Some(Channel::Ticker)
        } else if same_text(name, "ticker_batch") {
            Some(Channel::TickerBatch)
        } else if same_text(name, "level2") || same_text(name, "l2_data") {
            Some(Channel::Level2)
        } else if same_text(name, "market_trades") {
            Some(Channel::MarketTrades)
        } else if same_text(name, "heartbeats") {
            Some(Channel::Heartbeats)
        } else if same_text(name, "user") {
            Some(Channel::User)
        } else if same_text(name, "futures_balance_summary") {
            Some(Channel::FuturesBalanceSummary)
        } else if same_text(name, "subscriptions") {
            Some(Channel::Subscriptions)
        } else {
            None
        }
    }
}

/// Reading back the name of a channel gives the channel.
pub proof fn lemma_channel_name_round_trip(c: Channel)
    ensures
        channel_of_name(channel_name(c)) == Some(c),
{
    reveal_strlit("status");
    reveal_strlit("candles");
    reveal_strlit("ticker");
    reveal_strlit("ticker_batch");
    reveal_strlit("level2");
    reveal_strlit("l2_data");
    reveal_strlit("market_trades");
    reveal_strlit("heartbeats");
    reveal_strlit("user");
    reveal_strlit("futures_balance_summary");
    reveal_strlit("subscriptions");
    assert("status"@.len() == 6 && "status"@[0] == 's');
    assert("candles"@.len() == 7 && "candles"@[0] == 'c');
    assert("ticker"@.len() == 6 && "ticker"@[0] == 't');
    assert("ticker_batch"@.len() == 12 && "ticker_batch"@[0] == 't');
    assert("level2"@.len() == 6 && "level2"@[0] == 'l');
    assert("l2_data"@.len() == 7 && "l2_data"@[0] == 'l');
    assert("market_trades"@.len() == 13 && "market_trades"@[0] == 'm');
    assert("heartbeats"@.len() == 10 && "heartbeats"@[0] == 'h');
    assert("user"@.len() == 4 && "user"@[0] == 'u');
    assert("futures_balance_summary"@.len() == 23 && "futures_balance_summary"@[0] == 'f');
    assert("subscriptions"@.len() == 13 && "subscriptions"@[0] == 's');
}

/// Two channels with the same name on the wire are the same channel.
pub proof fn lemma_channel_name_injective(a: Channel, b: Channel)
    requires
        channel_name(a) == channel_name(b),
    ensures
        a == b,
{
    lemma_channel_name_round_trip(a);
    lemma_channel_name_round_trip(b);
}

/// Whether an event is a full snapshot or an update of one.
#[derive(Debug, Clone, Copy, PartialEq, Eq, Structural)]
pub enum EventType {
    Snapshot,
    Update,
}

/// The name of an event type on the wire.
pub open spec fn event_type_name(e: EventType) -> Seq<char> {
    match e {
        EventType::Snapshot => "snapshot"@,
        EventType::Update => "update"@,
    }
}

/// The event type that a name on the wire stands for.
pub open spec fn event_type_of_name(s: Seq<char>) -> Option<EventType> {
    if s == "snapshot"@ {
        Some(EventType::Snapshot)
    } else if s == "update"@ {
        Some(EventType::Update)
    } else {
        None
    }
}

impl EventType {
    /// The name of the event type on the wire.
    pub fn as_ref(&self) -> (s: &'static str)
        ensures
            s@ == event_type_name(*self),
    {
        match self {
            EventType::Snapshot => "snapshot",
            EventType::Update => "update",
        }
    }

    /// The event type that a name on the wire stands for, if any.
    pub fn from_name(name: &str) -> (e: Option<EventType>)
        ensures
            e == event_type_of_name(name@),
    {
        if same_text(name, "snapshot") {
            Some(EventType::Snapshot)
        } else if same_text(name, "update") {
            Some(EventType::Update)
        } else {
            None
        }
    }
}

/// Reading back the name of an event type gives the event type.
pub proof fn lemma_event_type_round_trip(e: EventType)
    ensures
        event_type_of_name(event_type_name(e)) == Some(e),
{
    reveal_strlit("snapshot");
    reveal_strlit("update");
    assert("snapshot"@.len() == 8 && "update"@.len() == 6);
}

/// The side of the order book that a level2 update is on.
#[derive(Debug, Clone, Copy, PartialEq, Eq, Structural)]
pub enum Level2Side {
    /// Bids / Buy side.
    Bid,
    /// Asks / Offer side. The API also names it "offer".
    Ask,
}

/// The name of a book side on the wire.
pub open spec fn level2_side_name(s: Level2Side) -> Seq<char> {
    match s {
        Level2Side::Bid => "bid"@,
        Level2Side::Ask => "ask"@,
    }
}

/// The book side that a name on the wire stands for: `bid`, and `ask` or `offer`.
pub open spec fn level2_side_of_name(s: Seq<char>) -> Option<Level2Side> {
    if s == "bid"@ {
        Some(Level2Side::Bid)
    } else if s == "ask"@ || s == "offer"@ {
        Some(Level2Side::Ask)
    } else {
        None
    }
}

impl Level2Side {
    /// The name of the book side on the wire.
    pub fn as_ref(&self) -> (s: &'static str)
        ensures
            s@ == level2_side_name(*self),
    {
        match self {
            Level2Side::Bid => "bid",
            Level2Side::Ask => "ask",
        }
    }

    /// The book side that a name on the wire stands for, if any.
    pub fn from_name(name: &str) -> (s: Option<Level2Side>)
        ensures
            s == level2_side_of_name(name@),
    {
        if same_text(name, "bid") {
            Some(Level2Side::Bid)
        } else if same_text(name, "ask") || same_text(name, "offer") {
            Some(Level2Side::Ask)
        } else {
            None
        }
    }
}

/// Reading back the name of a book side gives the book side.
pub proof fn lemma_level2_side_round_trip(s: Level2Side)
    ensures
        level2_side_of_name(level2_side_name(s)) == Some(s),
{
    reveal_strlit("bid");
    reveal_strlit("ask");
    reveal_strlit("offer");
    assert("bid"@[0] == 'b' && "ask"@[0] == 'a' && "offer"@[0] == 'o');
}

/// Types for the endpoints.
#[derive(Debug, Clone, Copy, PartialEq, Eq, Structural, Hash)]
pub enum EndpointType {
    Public,
    User,
}

/// Subscriptions that the API reports, by channel.
#[derive(Debug, Clone)]
pub struct SubscribeUpdate {
    pub status: Vec<String>,
    pub ticker: Vec<String>,
    pub ticker_batch: Vec<String>,
    pub level2: Option<Vec<String>>,
    pub user: Option<Vec<String>>,
    pub market_trades: Option<Vec<String>>,
    pub heartbeats: Option<Vec<String>>,
}

impl Default for SubscribeUpdate {
    fn default() -> (u: Self)
        ensures
            u.status@ == Seq::<String>::empty(),
            u.ticker@ == Seq::<String>::empty(),
            u.ticker_batch@ == Seq::<String>::empty(),
            u.level2.is_none(),
            u.user.is_none(),
            u.market_trades.is_none(),
            u.heartbeats.is_none(),
    {
        SubscribeUpdate {
            status: Vec::new(),
            ticker: Vec::new(),
            ticker_batch: Vec::new(),
            level2: None,
            user: None,
            market_trades: None,
            heartbeats: None,
        }
    }
}

/// The heartbeats event containing the current time and heartbeat counter.
#[derive(Debug, Clone)]
pub struct HeartbeatsEvent {
    pub current_time: String,
    pub heartbeat_counter: u64,
}

/// The subscribe event containing the current subscriptions.
#[derive(Debug, Clone)]
pub struct SubscribeEvent {
    pub subscriptions: SubscribeUpdate,
}

/// Message received from the WebSocket API. Real-time pings from the server to keep connections
/// open.
#[derive(Debug, Clone)]
pub struct HeartbeatsMessage {
    pub channel: String,
    pub client_id: String,
    pub timestamp: String,
    pub sequence_num: u64,
    pub events: Vec<HeartbeatsEvent>,
}

/// Message received from the WebSocket API. Provides updates for the current subscriptions.
#[derive(Debug, Clone)]
pub struct SubscribeMessage {
    pub channel: String,
    pub client_id: String,
    pub timestamp: String,
    pub sequence_num: u64,
    pub events: Vec<SubscribeEvent>,
}

} // verus!
