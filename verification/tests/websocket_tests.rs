use cbadv::errors::CbError;
use cbadv::models::websocket::{Channel, EndpointType, EventType, Level2Side, SubscribeUpdate};
use cbadv::websocket::{
    connection_failure, frame_subscription, get_channel_endpoint, listen_action, not_connected,
    parse_failure, process_message, send_failure, subscription_body, Frame, ListenAction,
    ReconnectPolicy, SubscriptionAuth, WebSocketClientBuilder, WebSocketSubscriptions,
};
use cbadv::config::CoinbaseConfig;

fn ids(items: &[&str]) -> Vec<String> {
    items.iter().map(|s| s.to_string()).collect()
}

fn channel_ids(subs: &WebSocketSubscriptions, endpoint: EndpointType, channel: Channel) -> Option<Vec<String>> {
    subs.get(&endpoint).into_iter().find(|c| c.channel == channel).map(|c| c.product_ids)
}

#[test]
fn channel_names_match_the_wire() {
    assert_eq!(Channel::Status.as_ref(), "status");
    assert_eq!(Channel::TickerBatch.as_ref(), "ticker_batch");
    assert_eq!(Channel::Level2.to_string(), "level2");
    assert_eq!(Channel::MarketTrades.as_ref(), "market_trades");
    assert_eq!(Channel::FuturesBalanceSummary.as_ref(), "futures_balance_summary");
    assert_eq!(Channel::Subscriptions.as_ref(), "subscriptions");
}

#[test]
fn channel_names_read_back() {
    let all = [
        Channel::Status,
        Channel::Candles,
        Channel::Ticker,
        Channel::TickerBatch,
        Channel::Level2,
        Channel::MarketTrades,
        Channel::Heartbeats,
        Channel::User,
        Channel::FuturesBalanceSummary,
        Channel::Subscriptions,
    ];
    for c in all {
        assert_eq!(Channel::from_name(c.as_ref()), Some(c));
    }
    assert_eq!(Channel::from_name("l2_data"), Some(Channel::Level2));
    assert_eq!(Channel::from_name("Level2"), None);
    assert_eq!(Channel::from_name(""), None);
}

#[test]
fn event_type_and_side_names() {
    assert_eq!(EventType::from_name("snapshot"), Some(EventType::Snapshot));
    assert_eq!(EventType::from_name("update"), Some(EventType::Update));
    assert_eq!(EventType::from_name("Update"), None);
    assert_eq!(EventType::Snapshot.as_ref(), "snapshot");
    assert_eq!(Level2Side::from_name("bid"), Some(Level2Side::Bid));
    assert_eq!(Level2Side::from_name("ask"), Some(Level2Side::Ask));
    assert_eq!(Level2Side::from_name("offer"), Some(Level2Side::Ask));
    assert_eq!(Level2Side::from_name("buy"), None);
    assert_eq!(Level2Side::Ask.as_ref(), "ask");
}

#[test]
fn subscribe_update_default_is_empty() {
    let u = SubscribeUpdate::default();
    assert!(u.status.is_empty() && u.ticker.is_empty() && u.ticker_batch.is_empty());
    assert!(u.level2.is_none() && u.user.is_none() && u.market_trades.is_none() && u.heartbeats.is_none());
}

#[test]
fn channels_are_served_by_their_endpoint() {
    assert_eq!(get_channel_endpoint(&Channel::User), EndpointType::User);
    assert_eq!(get_channel_endpoint(&Channel::FuturesBalanceSummary), EndpointType::User);
    assert_eq!(get_channel_endpoint(&Channel::Ticker), EndpointType::Public);
    assert_eq!(get_channel_endpoint(&Channel::Heartbeats), EndpointType::Public);
    assert_eq!(get_channel_endpoint(&Channel::Subscriptions), EndpointType::Public);
}

#[test]
fn subscriptions_add_appends_missing_ids() {
    let mut subs = WebSocketSubscriptions::new();
    assert!(subs.get(&EndpointType::Public).is_empty());
    subs.add(&Channel::Ticker, &ids(&["BTC-USD", "ETH-USD"]), &EndpointType::Public);
    subs.add(&Channel::Ticker, &ids(&["ETH-USD", "SOL-USD", "SOL-USD"]), &EndpointType::Public);
    assert_eq!(
        channel_ids(&subs, EndpointType::Public, Channel::Ticker),
        Some(ids(&["BTC-USD", "ETH-USD", "SOL-USD", "SOL-USD"]))
    );
    assert_eq!(channel_ids(&subs, EndpointType::User, Channel::Ticker), None);
}

#[test]
fn subscriptions_first_add_keeps_ids_as_given() {
    let mut subs = WebSocketSubscriptions::new();
    subs.add(&Channel::Level2, &ids(&["A", "A"]), &EndpointType::Public);
    assert_eq!(channel_ids(&subs, EndpointType::Public, Channel::Level2), Some(ids(&["A", "A"])));
}

#[test]
fn subscriptions_add_is_idempotent() {
    let mut subs = WebSocketSubscriptions::new();
    subs.add(&Channel::Candles, &ids(&["BTC-USD"]), &EndpointType::Public);
    subs.add(&Channel::Candles, &ids(&["BTC-USD", "ETH-USD"]), &EndpointType::Public);
    let once = channel_ids(&subs, EndpointType::Public, Channel::Candles);
    subs.add(&Channel::Candles, &ids(&["BTC-USD", "ETH-USD"]), &EndpointType::Public);
    assert_eq!(channel_ids(&subs, EndpointType::Public, Channel::Candles), once);
}

#[test]
fn subscriptions_remove_keeps_the_others_in_order() {
    let mut subs = WebSocketSubscriptions::new();
    subs.add(&Channel::Ticker, &ids(&["A", "B", "C", "D"]), &EndpointType::Public);
    subs.remove(&Channel::Ticker, &ids(&["B", "D", "Z"]), &EndpointType::Public);
    assert_eq!(channel_ids(&subs, EndpointType::Public, Channel::Ticker), Some(ids(&["A", "C"])));
    // A channel that holds no subscription is left as it is.
    subs.remove(&Channel::Status, &ids(&["A"]), &EndpointType::Public);
    assert_eq!(channel_ids(&subs, EndpointType::Public, Channel::Status), None);
}

#[test]
fn subscriptions_add_then_remove_leaves_none_of_them() {
    let mut subs = WebSocketSubscriptions::new();
    subs.add(&Channel::User, &ids(&["X"]), &EndpointType::User);
    subs.add(&Channel::User, &ids(&["Y", "Z"]), &EndpointType::User);
    subs.remove(&Channel::User, &ids(&["Y", "Z"]), &EndpointType::User);
    assert_eq!(channel_ids(&subs, EndpointType::User, Channel::User), Some(ids(&["X"])));
    // The channel stays known, empty, after removing everything.
    subs.remove(&Channel::User, &ids(&["X"]), &EndpointType::User);
    assert_eq!(channel_ids(&subs, EndpointType::User, Channel::User), Some(vec![]));
}

#[test]
fn subscriptions_get_lists_each_channel_once_in_channel_order() {
    let mut subs = WebSocketSubscriptions::new();
    subs.add(&Channel::Heartbeats, &[], &EndpointType::Public);
    subs.add(&Channel::Status, &ids(&["BTC-USD"]), &EndpointType::Public);
    subs.add(&Channel::Status, &ids(&["ETH-USD"]), &EndpointType::Public);
    let got = subs.get(&EndpointType::Public);
    assert_eq!(got.len(), 2);
    assert_eq!(got[0].channel, Channel::Status);
    assert_eq!(got[0].product_ids, ids(&["BTC-USD", "ETH-USD"]));
    assert_eq!(got[1].channel, Channel::Heartbeats);
    assert!(got[1].product_ids.is_empty());
}

#[test]
fn subscriptions_keys_are_the_subscribed_endpoints() {
    let mut subs = WebSocketSubscriptions::new();
    assert!(subs.get_keys().is_empty());
    subs.add(&Channel::User, &ids(&["BTC-USD"]), &EndpointType::User);
    assert_eq!(subs.get_keys(), vec![EndpointType::User]);
    subs.add(&Channel::Ticker, &ids(&["BTC-USD"]), &EndpointType::Public);
    assert_eq!(subs.get_keys(), vec![EndpointType::Public, EndpointType::User]);
}

#[test]
fn subscription_body_public() {
    let body = subscription_body(
        &Channel::Ticker,
        &ids(&["BTC-USD", "ETH-USD"]),
        "subscribe",
        &SubscriptionAuth::Timestamp(1700000000),
    )
    .unwrap();
    assert_eq!(
        body,
        r#"{"type":"subscribe","product_ids":["BTC-USD","ETH-USD"],"channel":"ticker","timestamp":"1700000000"}"#
    );
}

#[test]
fn subscription_body_skips_empty_product_ids() {
    let body = subscription_body(&Channel::Heartbeats, &[], "unsubscribe", &SubscriptionAuth::Timestamp(7)).unwrap();
    assert_eq!(body, r#"{"type":"unsubscribe","channel":"heartbeats","timestamp":"7"}"#);
}

#[test]
fn subscription_body_user_escapes_texts() {
    let body = subscription_body(
        &Channel::User,
        &ids(&["A\"B"]),
        "subscribe",
        &SubscriptionAuth::Jwt("tok\\en".to_string()),
    )
    .unwrap();
    assert_eq!(body, r#"{"type":"subscribe","product_ids":["A\"B"],"channel":"user","jwt":"tok\\en"}"#);
}

#[test]
fn frame_subscription_joins_values() {
    let s = frame_subscription("\"x\"", &ids(&["1", "2", "3"]), &Channel::Candles, "k", "\"v\"");
    assert_eq!(s, r#"{"type":"x","product_ids":[1,2,3],"channel":"candles","k":"v"}"#);
}

fn message_of(e: CbError) -> (String, String) {
    match e {
        CbError::BadConnection(m) => ("BadConnection".to_string(), m),
        CbError::BadPrivateKey(m) => ("BadPrivateKey".to_string(), m),
        CbError::BadParse(m) => ("BadParse".to_string(), m),
        CbError::BadSerialization(m) => ("BadSerialization".to_string(), m),
        CbError::BadQuery(m) => ("BadQuery".to_string(), m),
        CbError::BadRequest(m) => ("BadRequest".to_string(), m),
        CbError::BadStatus(m) => ("BadStatus".to_string(), m),
        CbError::NothingToDo(m) => ("NothingToDo".to_string(), m),
        CbError::Unknown(m) => ("Unknown".to_string(), m),
    }
}

#[test]
fn builder_requires_a_connection() {
    let r = WebSocketClientBuilder::new().enable_public(false).build();
    let (kind, m) = message_of(r.err().unwrap());
    assert_eq!(kind, "BadConnection");
    assert_eq!(m, "At least one of public or secure connections must be enabled.");
}

#[test]
fn builder_user_connection_needs_credentials() {
    let (kind, m) = message_of(WebSocketClientBuilder::new().enable_user(true).build().err().unwrap());
    assert_eq!(kind, "BadPrivateKey");
    assert_eq!(m, "API key is required for authentication.");
}

#[test]
fn builder_defaults_and_authentication() {
    let client = WebSocketClientBuilder::new().build().unwrap();
    assert_eq!(client.endpoints_to_connect(), vec![EndpointType::Public]);
    assert!(client.api_key().is_none());
    assert!(client.reconnect_policy().is_err());

    let client = WebSocketClientBuilder::new()
        .with_authentication("key", "secret")
        .auto_reconnect(true)
        .build()
        .unwrap();
    assert_eq!(client.endpoints_to_connect(), vec![EndpointType::Public, EndpointType::User]);
    assert_eq!(client.api_key().unwrap(), "key");
    assert_eq!(client.api_secret().unwrap(), "secret");
    let policy = client.reconnect_policy().unwrap();
    assert!(policy.should_retry());

    let config = CoinbaseConfig { api_key: "k2".to_string(), api_secret: "s2".to_string(), use_sandbox: true };
    let client = WebSocketClientBuilder::new().with_config(&config).enable_public(false).build().unwrap();
    assert_eq!(client.endpoints_to_connect(), vec![EndpointType::User]);
    assert_eq!(client.api_key().unwrap(), "k2");
}

#[test]
fn client_routes_channels_to_enabled_connections() {
    let client = WebSocketClientBuilder::new().build().unwrap();
    assert_eq!(client.subscribe_route(&Channel::Ticker).unwrap(), EndpointType::Public);
    let (kind, m) = message_of(client.subscribe_route(&Channel::User).err().unwrap());
    assert_eq!(kind, "BadConnection");
    assert_eq!(m, "Secure user connection is not enabled.");

    let client = WebSocketClientBuilder::new()
        .with_authentication("k", "s")
        .enable_public(false)
        .build()
        .unwrap();
    assert_eq!(client.subscribe_route(&Channel::FuturesBalanceSummary).unwrap(), EndpointType::User);
    let (_, m) = message_of(client.subscribe_route(&Channel::Candles).err().unwrap());
    assert_eq!(m, "Public connection is not enabled.");
    let (_, m) = message_of(client.watch_candles_check().err().unwrap());
    assert_eq!(m, "Public connection is not enabled.");
}

#[test]
fn client_update_message_for_the_user_endpoint() {
    let client = WebSocketClientBuilder::new().with_authentication("k", "s").build().unwrap();
    let body = client
        .update(&Channel::User, &ids(&["BTC-USD"]), "subscribe", &EndpointType::User, Some("abc"))
        .unwrap();
    assert_eq!(body, r#"{"type":"subscribe","product_ids":["BTC-USD"],"channel":"user","jwt":"abc"}"#);
    let public = client
        .update(&Channel::Ticker, &[], "subscribe", &EndpointType::Public, None)
        .unwrap();
    assert!(public.starts_with(r#"{"type":"subscribe","channel":"ticker","timestamp":""#));
    assert!(public.ends_with("\"}"));
}

#[test]
fn client_records_subscriptions_for_reconnection() {
    let mut client = WebSocketClientBuilder::new().with_authentication("k", "s").build().unwrap();
    client.record_subscribe(&Channel::Ticker, &ids(&["BTC-USD"]), &EndpointType::Public);
    client.record_subscribe(&Channel::User, &ids(&["ETH-USD"]), &EndpointType::User);
    client.record_unsubscribe(&Channel::Ticker, &ids(&["BTC-USD"]), &EndpointType::Public);
    let again = client.resubscriptions(&EndpointType::User);
    assert_eq!(again.len(), 1);
    assert_eq!(again[0].channel, Channel::User);
    assert_eq!(again[0].product_ids, ids(&["ETH-USD"]));
    assert_eq!(client.reconnect_targets(None), vec![EndpointType::Public, EndpointType::User]);
    assert_eq!(client.reconnect_targets(Some(EndpointType::User)), vec![EndpointType::User]);
}

#[test]
fn reconnect_disabled_is_an_error() {
    let (kind, m) = message_of(ReconnectPolicy::start(0).err().unwrap());
    assert_eq!(kind, "BadConnection");
    assert_eq!(m, "Auto-reconnect is disabled. Exiting...");
}

#[test]
fn reconnect_delays_double_up_to_a_minute() {
    let mut policy = ReconnectPolicy::start(14).unwrap();
    let mut waits = vec![];
    while policy.should_retry() {
        waits.push(policy.record_failure());
    }
    assert_eq!(waits, vec![2, 4, 8, 16, 32, 60, 60, 60, 60, 60, 60, 60, 60, 60]);
    let (_, m) = message_of(policy.exhausted_error());
    assert_eq!(m, "Failed to reconnect WebSocket after 14 attempts.");
}

#[test]
fn frames_are_processed() {
    match process_message(Frame::Text("{}".to_string())) {
        Some(Ok(t)) => assert_eq!(t, "{}"),
        _ => panic!("a text frame is handed on"),
    }
    assert!(process_message(Frame::Ping).is_none());
    assert!(process_message(Frame::Pong).is_none());
    assert!(process_message(Frame::Binary).is_none());
    assert!(process_message(Frame::Other).is_none());
    let closed = process_message(Frame::Close).unwrap().err().unwrap();
    assert_eq!(message_of(closed), ("BadConnection".to_string(), "WebSocket closed".to_string()));
    let failed = process_message(Frame::Failed("reset".to_string())).unwrap().err().unwrap();
    assert_eq!(message_of(failed).1, "WebSocket error: reset");
}

#[test]
fn listening_reconnects_only_on_lost_connections() {
    let lost: Option<Result<u8, CbError>> = Some(Err(CbError::BadConnection("x".to_string())));
    let parse: Option<Result<u8, CbError>> = Some(Err(CbError::BadParse("x".to_string())));
    let ok: Option<Result<u8, CbError>> = Some(Ok(1));
    let none: Option<Result<u8, CbError>> = None;
    assert_eq!(listen_action(&lost), ListenAction::Reconnect);
    assert_eq!(listen_action(&parse), ListenAction::Deliver);
    assert_eq!(listen_action(&ok), ListenAction::Deliver);
    assert_eq!(listen_action(&none), ListenAction::Skip);
}

#[test]
fn connection_error_messages() {
    assert_eq!(message_of(parse_failure("{", "eof")).1, "Unable to parse message: {. Error: eof");
    assert_eq!(
        message_of(connection_failure(&EndpointType::Public, "refused")).1,
        "Unable to establish public WebSocket connection: refused"
    );
    assert_eq!(
        message_of(connection_failure(&EndpointType::User, "refused")).1,
        "Unable to establish secure user WebSocket connection: refused"
    );
    assert_eq!(
        message_of(not_connected(&EndpointType::Public)).1,
        "Public WebSocket connection not established. Call `connect()` first."
    );
    assert_eq!(message_of(send_failure("gone")).1, "Failed to send message over WebSocket: gone");
}

#[test]
fn subscription_body_escapes_control_characters() {
    let body = subscription_body(
        &Channel::Status,
        &ids(&["a\nb\u{1}c\t", "é/"]),
        "subscribe",
        &SubscriptionAuth::Timestamp(0),
    )
    .unwrap();
    assert_eq!(
        body,
        "{\"type\":\"subscribe\",\"product_ids\":[\"a\\nb\\u0001c\\t\",\"é/\"],\"channel\":\"status\",\"timestamp\":\"0\"}"
    );
}
