//! # Coinbase Advanced WebSocket client
//!
//! The decisions of the streaming client: which endpoint serves a channel, what is sent to
//! (un)subscribe, what is kept to subscribe again after a reconnection, and how reconnection is
//! retried.

mod client;
mod messages;
mod subscriptions;

pub use client::{
    build_outcome, default_settings, endpoint_of, get_channel_endpoint, lemma_retry_delay,
    listen_action, opt_text, parse_failure, process_message, retry_delay, route_outcome,
    BuilderSettings, ClientState, Frame, ListenAction, ReconnectPolicy, ReconnectState,
    WebSocketClient, WebSocketClientBuilder,
};

pub use messages::{
    auth_key, auth_value, connection_failure, connection_failure_text, frame_subscription,
    hex_digit, joined, json_array, json_escape_char, json_escaped, json_string_text,
    lemma_plain_json_text, not_connected, not_connected_text, plain_json_text,
    send_failure, serialization_failure, subscription_body, subscription_json, subscription_text,
    SubscriptionAuth,
};
pub use subscriptions::{
    after_add, after_remove, lemma_add_holds_all, lemma_add_idempotent, lemma_add_keeps_existing,
    lemma_add_then_remove, lemma_remove_drops_all, merged, texts, without, ChannelSubscription,
    WebSocketSubscriptions,
};
