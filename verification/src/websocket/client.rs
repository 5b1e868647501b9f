//! The WebSocket client builder and the state of the client: its settings, its credentials and
//! the subscriptions that it holds, with the decisions that the client makes on them.

use vstd::prelude::*;

use crate::config::CoinbaseConfig;
use crate::errors::{CbError, CbErrorView, CbResult};
use crate::models::websocket::{Channel, EndpointType};
use crate::text::{decimal, u64_text};
use crate::time::now;
use crate::websocket::messages::{subscription_body, subscription_json, SubscriptionAuth};
use crate::websocket::subscriptions::{
    after_add, after_remove, channel_index, texts, ChannelSubscription, WebSocketSubscriptions,
};

verus! {

/// The endpoint that serves a channel: the user endpoint for the user's orders and futures
/// balance, the public endpoint for every other channel.
pub open spec fn endpoint_of(c: Channel) -> EndpointType {
    match c {
        Channel::User => EndpointType::User,
        Channel::FuturesBalanceSummary => EndpointType::User,
        _ => EndpointType::Public,
    }
}

/// Obtains the endpoint associated with the channel.
pub fn get_channel_endpoint(channel: &Channel) -> (e: EndpointType)
    ensures
        e == endpoint_of(*channel),
{
    match channel {
        Channel::User => EndpointType::User,
        Channel::FuturesBalanceSummary => EndpointType::User,
        _ => EndpointType::Public,
    }
}

/// Only the user's own channels (its orders and its futures balance) are served by the user
/// endpoint; every other channel, market data among them, is served by the public endpoint.
/// So a client whose public connection is enabled routes every other channel to it, and one
/// whose user connection is enabled routes the user's channels to that one.
pub proof fn lemma_user_endpoint_serves_user_channels(c: Channel, s: ClientState)
    ensures
        endpoint_of(c) == EndpointType::User <==> (c == Channel::User || c
            == Channel::FuturesBalanceSummary),
        endpoint_of(c) == EndpointType::Public <==> !(c == Channel::User || c
            == Channel::FuturesBalanceSummary),
        s.enable_public && !(c == Channel::User || c == Channel::FuturesBalanceSummary)
            ==> route_outcome(s, c) == Ok::<EndpointType, CbErrorView>(EndpointType::Public),
        s.enable_user && (c == Channel::User || c == Channel::FuturesBalanceSummary)
            ==> route_outcome(s, c) == Ok::<EndpointType, CbErrorView>(EndpointType::User),
{
}

/// The settings that a WebSocket client builder collects.
pub struct BuilderSettings {
    pub api_key: Option<Seq<char>>,
    pub api_secret: Option<Seq<char>>,
    pub enable_public: bool,
    pub enable_user: bool,
    pub max_retries: u32,
}

/// The text of an optional string.
pub open spec fn opt_text(o: Option<String>) -> Option<Seq<char>> {
    match o {
        Some(s) => Some(s@),
        None => None,
    }
}

/// The state of a WebSocket client: which connections it makes, how often it retries a lost
/// one, the credentials that sign its user subscriptions, and the subscriptions it holds.
pub struct ClientState {
    pub enable_public: bool,
    pub enable_user: bool,
    pub max_retries: u32,
    pub credentials: Option<(Seq<char>, Seq<char>)>,
    pub subscriptions: Map<(EndpointType, Channel), Seq<Seq<char>>>,
}

/// What building a client from the settings gives: an error when no connection is enabled, or
/// when the user connection is enabled without a key or without a secret; otherwise a client
/// with these settings, the credentials when the user connection is enabled, and no
/// subscription.
pub open spec fn build_outcome(s: BuilderSettings) -> Result<ClientState, CbErrorView> {
    if !s.enable_public && !s.enable_user {
        Err(
            CbErrorView::BadConnection(
                "At least one of public or secure connections must be enabled."@,
            ),
        )
    } else if s.enable_user && s.api_key is None {
        Err(CbErrorView::BadPrivateKey("API key is required for authentication."@))
    } else if s.enable_user && s.api_secret is None {
        Err(CbErrorView::BadPrivateKey("API secret is required for authentication."@))
    } else {
        Ok(
            ClientState {
                enable_public: s.enable_public,
                enable_user: s.enable_user,
                max_retries: s.max_retries,
                credentials: if s.enable_user {
                    Some((s.api_key.unwrap(), s.api_secret.unwrap()))
                } else {
                    None
                },
                subscriptions: Map::empty(),
            },
        )
    }
}

/// A client is built exactly when some connection is enabled and, if the user connection is,
/// a key and a secret were given; a built client keeps the connections and the retry count of
/// the builder, signs with the key and secret given only when its user connection is enabled,
/// and holds no subscription.
pub proof fn lemma_built_client_keeps_settings(s: BuilderSettings)
    ensures
        build_outcome(s) is Ok <==> ((s.enable_public || s.enable_user) && (s.enable_user
            ==> s.api_key is Some && s.api_secret is Some)),
        build_outcome(s) matches Ok(c) ==> ({
            &&& c.enable_public == s.enable_public
            &&& c.enable_user == s.enable_user
            &&& c.max_retries == s.max_retries
            &&& c.subscriptions == Map::<(EndpointType, Channel), Seq<Seq<char>>>::empty()
            &&& (c.credentials is Some <==> s.enable_user)
            &&& (c.credentials matches Some((key, secret)) ==> s.api_key == Some(key)
                && s.api_secret == Some(secret))
        }),
{
}

/// Builds a new WebSocket Client (WebSocketClient) that directly interacts with the Coinbase
/// Advanced API.
pub struct WebSocketClientBuilder {
    api_key: Option<String>,
    api_secret: Option<String>,
    enable_public: bool,
    enable_user: bool,
    max_retries: u32,
}

impl View for WebSocketClientBuilder {
    type V = BuilderSettings;

    closed spec fn view(&self) -> BuilderSettings {
        BuilderSettings {
            api_key: opt_text(self.api_key),
            api_secret: opt_text(self.api_secret),
            enable_public: self.enable_public,
            enable_user: self.enable_user,
            max_retries: self.max_retries,
        }
    }
}

/// The settings of a new builder: the public connection only, without credentials and without
/// reconnecting.
pub open spec fn default_settings() -> BuilderSettings {
    BuilderSettings {
        api_key: None,
        api_secret: None,
        enable_public: true,
        enable_user: false,
        max_retries: 0,
    }
}

impl Default for WebSocketClientBuilder {
    fn default() -> (b: Self)
        ensures
            b@ == default_settings(),
    {
        WebSocketClientBuilder {
            api_key: None,
            api_secret: None,
            enable_public: true,
            enable_user: false,
            max_retries: 0,
        }
    }
}

impl WebSocketClientBuilder {
    /// Creates a new WebSocketClientBuilder.
    pub fn new() -> (b: Self)
        ensures
            b@ == default_settings(),
    {
        WebSocketClientBuilder {
            api_key: None,
            api_secret: None,
            enable_public: true,
            enable_user: false,
            max_retries: 0,
        }
    }

    /// Uses a configuration to initialize the authentication, which enables the user connection.
    pub fn with_config(self, config: &CoinbaseConfig) -> (b: Self)
        ensures
            b@ == (BuilderSettings {
                api_key: Some(config.api_key@),
                api_secret: Some(config.api_secret@),
                enable_user: true,
                ..self@
            }),
    {
        self.with_authentication(config.api_key.as_str(), config.api_secret.as_str())
    }

    /// Uses the provided key and secret to initialize the authentication, which enables the user
    /// connection.
    pub fn with_authentication(self, key: &str, secret: &str) -> (b: Self)
        ensures
            b@ == (BuilderSettings {
                api_key: Some(key@),
                api_secret: Some(secret@),
                enable_user: true,
                ..self@
            }),
    {
        WebSocketClientBuilder {
            api_key: Some(String::from_str(key)),
            api_secret: Some(String::from_str(secret)),
            enable_user: true,
            ..self
        }
    }

    /// Enables or disables the public connection.
    pub fn enable_public(self, enable: bool) -> (b: Self)
        ensures
            b@ == (BuilderSettings { enable_public: enable, ..self@ }),
    {
        WebSocketClientBuilder { enable_public: enable, ..self }
    }

    /// Enables or disables the secure user connection.
    pub fn enable_user(self, enable: bool) -> (b: Self)
        ensures
            b@ == (BuilderSettings { enable_user: enable, ..self@ }),
    {
        WebSocketClientBuilder { enable_user: enable, ..self }
    }

    /// Enables auto-reconnecting the WebSocket, with up to 14 attempts, or disables it.
    pub fn auto_reconnect(self, enable: bool) -> (b: Self)
        ensures
            b@ == (BuilderSettings {
                max_retries: if enable {
                    14
                } else {
                    0
                },
                ..self@
            }),
    {
        let max_retries: u32 = if enable {
            14
        } else {
            0
        };
        WebSocketClientBuilder { max_retries, ..self }
    }

    /// Sets the maximum number of retries for auto-reconnecting the WebSocket.
    pub fn max_retries(self, max_retries: u32) -> (b: Self)
        ensures
            b@ == (BuilderSettings { max_retries, ..self@ }),
    {
        WebSocketClientBuilder { max_retries, ..self }
    }

    /// Builds the WebSocketClient.
    pub fn build(self) -> (r: CbResult<WebSocketClient>)
        ensures
            match r {
                Ok(c) => build_outcome(self@) == Ok::<ClientState, CbErrorView>(c@),
                Err(e) => build_outcome(self@) == Err::<ClientState, CbErrorView>(e@),
            },
    {
        if !self.enable_public && !self.enable_user {
            return Err(
                CbError::BadConnection(
                    String::from_str(
                        "At least one of public or secure connections must be enabled.",
                    ),
                ),
            );
        }
        let ghost settings = self@;
        let WebSocketClientBuilder { api_key, api_secret, enable_public, enable_user, max_retries } =
            self;
        let mut key: Option<String> = None;
        let mut secret: Option<String> = None;
        if enable_user {
            match api_key {
                Some(k) => {
                    key = Some(k);
                },
                None => {
                    return Err(
                        CbError::BadPrivateKey(
                            String::from_str("API key is required for authentication."),
                        ),
                    );
                },
            }
            match api_secret {
                Some(s) => {
                    secret = Some(s);
                },
                None => {
                    return Err(
                        CbError::BadPrivateKey(
                            String::from_str("API secret is required for authentication."),
                        ),
                    );
                },
            }
        }
        let client = WebSocketClient {
            enable_public,
            enable_user,
            max_retries,
            api_key: key,
            api_secret: secret,
            subscriptions: WebSocketSubscriptions::new(),
        };
        proof {
            assert(client@ == build_outcome(settings)->Ok_0);
        }
        Ok(client)
    }
}

/// What the client does with the outcome of one frame of the stream.
#[derive(Debug, Clone, Copy, PartialEq, Eq, Structural)]
pub enum ListenAction {
    /// Nothing is handed to the callback.
    Skip,
    /// The connection was lost: reconnect, then listen again.
    Reconnect,
    /// The outcome is handed to the callback.
    Deliver,
}

/// Decides what listening does with the outcome of a frame: a lost connection is reconnected,
/// any other outcome is handed to the callback, and a frame without outcome is skipped.
pub fn listen_action<T>(result: &Option<CbResult<T>>) -> (a: ListenAction)
    ensures
        a == (match result {
            None => ListenAction::Skip,
            Some(Err(CbError::BadConnection(_))) => ListenAction::Reconnect,
            Some(_) => ListenAction::Deliver,
        }),
{
    match result {
        None => ListenAction::Skip,
        Some(Err(CbError::BadConnection(_))) => ListenAction::Reconnect,
        Some(_) => ListenAction::Deliver,
    }
}

/// A frame received from the WebSocket, or the error that the stream gave in its place.
pub enum Frame {
    Text(String),
    Binary,
    Ping,
    Pong,
    Close,
    Other,
    Failed(String),
}

/// Processes a frame of the stream: a text frame is handed on to be parsed, a closing frame or a
/// stream error is a lost connection, and any other frame is ignored.
pub fn process_message(frame: Frame) -> (r: Option<CbResult<String>>)
    ensures
        match frame {
            Frame::Text(t) => r matches Some(Ok(s)) && s@ == t@,
            Frame::Close => r matches Some(Err(e)) && e@ == CbErrorView::BadConnection(
                "WebSocket closed"@,
            ),
            Frame::Failed(d) => r matches Some(Err(e)) && e@ == CbErrorView::BadConnection(
                "WebSocket error: "@ + d@,
            ),
            _ => r is None,
        },
{
    match frame {
        Frame::Text(t) => Some(Ok(t)),
        Frame::Close => Some(Err(CbError::BadConnection(String::from_str("WebSocket closed")))),
        Frame::Failed(d) => {
            let mut m = String::from_str("WebSocket error: ");
            m.append(d.as_str());
            Some(Err(CbError::BadConnection(m)))
        },
        _ => None,
    }
}

/// The error reported when a text frame is not a message, with the frame and the reason.
pub fn parse_failure(data: &str, reason: &str) -> (e: CbError)
    ensures
        e@ == CbErrorView::BadParse(
            "Unable to parse message: "@ + data@ + ". Error: "@ + reason@,
        ),
{
    let mut m = String::from_str("Unable to parse message: ");
    m.append(data);
    m.append(". Error: ");
    m.append(reason);
    CbError::BadParse(m)
}

/// The number of seconds waited after the given number of failed reconnections: two at first,
/// doubled after each failure up to a minute.
pub open spec fn retry_delay(failures: nat) -> u64
    decreases failures,
{
    if failures == 0 {
        2
    } else if 2 * retry_delay((failures - 1) as nat) < 60 {
        (2 * retry_delay((failures - 1) as nat)) as u64
    } else {
        60
    }
}

/// The delay between reconnections is always between two seconds and a minute, never shrinks,
/// and reaches the minute after five failures.
pub proof fn lemma_retry_delay(failures: nat)
    ensures
        2 <= retry_delay(failures) <= 60,
        retry_delay(failures) <= retry_delay(failures + 1),
        failures >= 5 ==> retry_delay(failures) == 60,
    decreases failures,
{
    if failures > 0 {
        lemma_retry_delay((failures - 1) as nat);
    }
    if failures == 5 {
        reveal_with_fuel(retry_delay, 6);
    }
}

/// The state of an attempt to reconnect an endpoint: how many attempts are allowed, how many
/// have failed, and how long to wait after the next failure.
pub struct ReconnectState {
    pub max_retries: u32,
    pub retries: u32,
    pub delay: u64,
}

/// Retries reconnecting an endpoint, waiting longer after each failure.
pub struct ReconnectPolicy {
    max_retries: u32,
    retries: u32,
    delay: u64,
}

impl View for ReconnectPolicy {
    type V = ReconnectState;

    closed spec fn view(&self) -> ReconnectState {
        ReconnectState { max_retries: self.max_retries, retries: self.retries, delay: self.delay }
    }
}

impl ReconnectPolicy {
    /// Whether the state is one that retrying reaches: the delay is the one for the failures
    /// so far, which are at most the attempts allowed.
    pub closed spec fn wf(&self) -> bool {
        &&& self.retries <= self.max_retries
        &&& self.delay == retry_delay(self.retries as nat)
    }

    /// Starts reconnecting: an error when reconnection is disabled (no attempt allowed).
    pub fn start(max_retries: u32) -> (r: CbResult<ReconnectPolicy>)
        ensures
            max_retries == 0 ==> (r matches Err(e) && e@ == CbErrorView::BadConnection(
                "Auto-reconnect is disabled. Exiting..."@,
            )),
            max_retries > 0 ==> (r matches Ok(p) && p.wf() && p@ == (ReconnectState {
                max_retries,
                retries: 0,
                delay: 2,
            })),
    {
        if max_retries == 0 {
            return Err(
                CbError::BadConnection(String::from_str("Auto-reconnect is disabled. Exiting...")),
            );
        }
        ReconnectPolicy { max_retries, retries: 0, delay: 2 }.into_ok()
    }

    fn into_ok(self) -> (r: CbResult<ReconnectPolicy>)
        ensures
            r matches Ok(p) && p == self,
    {
        Ok(self)
    }

    /// Whether another attempt is allowed.
    pub fn should_retry(&self) -> (b: bool)
        ensures
            b == (self@.retries < self@.max_retries),
    {
        self.retries < self.max_retries
    }

    /// Records a failed attempt and returns the seconds to wait before the next one; the wait
    /// after that doubles, up to a minute.
    pub fn record_failure(&mut self) -> (wait: u64)
        requires
            old(self).wf(),
            old(self)@.retries < old(self)@.max_retries,
        ensures
            final(self).wf(),
            wait == old(self)@.delay,
            final(self)@ == (ReconnectState {
                max_retries: old(self)@.max_retries,
                retries: (old(self)@.retries + 1) as u32,
                delay: retry_delay((old(self)@.retries + 1) as nat),
            }),
    {
        let wait = self.delay;
        proof {
            lemma_retry_delay(self.retries as nat);
        }
        let doubled = self.delay * 2;
        self.delay = if doubled < 60 {
            doubled
        } else {
            60
        };
        self.retries = self.retries + 1;
        wait
    }

    /// The error reported when every attempt failed.
    pub fn exhausted_error(&self) -> (e: CbError)
        ensures
            e@ == CbErrorView::BadConnection(
                "Failed to reconnect WebSocket after "@ + decimal(self@.retries as nat)
                    + " attempts."@,
            ),
    {
        let mut m = String::from_str("Failed to reconnect WebSocket after ");
        let count = u64_text(self.retries as u64);
        m.append(count.as_str());
        m.append(" attempts.");
        CbError::BadConnection(m)
    }
}

/// Whether the client may use the endpoint that serves the channel: an error when that
/// connection is not enabled.
pub open spec fn route_outcome(s: ClientState, c: Channel) -> Result<EndpointType, CbErrorView> {
    match endpoint_of(c) {
        EndpointType::Public => if s.enable_public {
            Ok(EndpointType::Public)
        } else {
            Err(CbErrorView::BadConnection("Public connection is not enabled."@))
        },
        EndpointType::User => if s.enable_user {
            Ok(EndpointType::User)
        } else {
            Err(CbErrorView::BadConnection("Secure user connection is not enabled."@))
        },
    }
}

/// The state of a WebSocket client that directly interacts with the Coinbase Advanced API:
/// its settings, credentials and subscriptions.
pub struct WebSocketClient {
    enable_public: bool,
    enable_user: bool,
    max_retries: u32,
    api_key: Option<String>,
    api_secret: Option<String>,
    subscriptions: WebSocketSubscriptions,
}

impl View for WebSocketClient {
    type V = ClientState;

    closed spec fn view(&self) -> ClientState {
        ClientState {
            enable_public: self.enable_public,
            enable_user: self.enable_user,
            max_retries: self.max_retries,
            credentials: match (self.api_key, self.api_secret) {
                (Some(k), Some(s)) => Some((k@, s@)),
                _ => None,
            },
            subscriptions: self.subscriptions@,
        }
    }
}

impl WebSocketClient {
    #[verifier::type_invariant]
    spec fn inv(self) -> bool {
        &&& self.subscriptions.wf()
        &&& (self.api_key is Some) == (self.api_secret is Some)
        &&& (self.api_key is Some) == self.enable_user
    }

    /// The endpoints that connecting opens: the public one, then the user one, each when enabled.
    pub fn endpoints_to_connect(&self) -> (r: Vec<EndpointType>)
        ensures
            r@ == (if self@.enable_public {
                seq![EndpointType::Public]
            } else {
                Seq::empty()
            }) + (if self@.enable_user {
                seq![EndpointType::User]
            } else {
                Seq::empty()
            }),
    {
        let mut r: Vec<EndpointType> = Vec::new();
        if self.enable_public {
            r.push(EndpointType::Public);
        }
        if self.enable_user {
            r.push(EndpointType::User);
        }
        proof {
            assert(r@ =~= (if self@.enable_public {
                seq![EndpointType::Public]
            } else {
                Seq::empty()
            }) + (if self@.enable_user {
                seq![EndpointType::User]
            } else {
                Seq::empty()
            }));
        }
        r
    }

    /// The API key, when the user connection is enabled.
    pub fn api_key(&self) -> (k: Option<&String>)
        ensures
            match k {
                Some(k) => self@.credentials matches Some(c) && c.0 == k@,
                None => self@.credentials is None,
            },
    {
        proof {
            use_type_invariant(self);
        }
        match &self.api_key {
            Some(k) => Some(k),
            None => None,
        }
    }

    /// The API secret, when the user connection is enabled.
    pub fn api_secret(&self) -> (s: Option<&String>)
        ensures
            match s {
                Some(s) => self@.credentials matches Some(c) && c.1 == s@,
                None => self@.credentials is None,
            },
    {
        proof {
            use_type_invariant(self);
        }
        match &self.api_secret {
            Some(s) => Some(s),
            None => None,
        }
    }

    /// The endpoint that (un)subscribing to the channel goes to, or an error when that
    /// connection is not enabled.
    pub fn subscribe_route(&self, channel: &Channel) -> (r: CbResult<EndpointType>)
        ensures
            match r {
                Ok(e) => route_outcome(self@, *channel) == Ok::<EndpointType, CbErrorView>(e),
                Err(e) => route_outcome(self@, *channel) == Err::<EndpointType, CbErrorView>(e@),
            },
    {
        match get_channel_endpoint(channel) {
            EndpointType::Public => {
                if self.enable_public {
                    Ok(EndpointType::Public)
                } else {
                    Err(CbError::BadConnection(String::from_str("Public connection is not enabled.")))
                }
            },
            EndpointType::User => {
                if self.enable_user {
                    Ok(EndpointType::User)
                } else {
                    Err(
                        CbError::BadConnection(
                            String::from_str("Secure user connection is not enabled."),
                        ),
                    )
                }
            },
        }
    }

    /// The message that (un)subscribes the channel to the product ids: a public one carries the
    /// current time, which is read from the clock (a clock before the UNIX epoch counts as the
    /// epoch); a user one carries the signed token.
    pub fn update(
        &self,
        channel: &Channel,
        product_ids: &[String],
        action: &str,
        endpoint: &EndpointType,
        jwt: Option<&str>,
    ) -> (r: CbResult<String>)
        requires
            *endpoint == EndpointType::User ==> jwt is Some,
        ensures
            r is Ok,
            r matches Ok(s) ==> match *endpoint {
                EndpointType::Public => exists|t: u64|
                    s@ == subscription_json(
                        action@,
                        texts(product_ids@),
                        *channel,
                        "timestamp"@,
                        decimal(t as nat),
                    ),
                EndpointType::User => s@ == subscription_json(
                    action@,
                    texts(product_ids@),
                    *channel,
                    "jwt"@,
                    jwt.unwrap()@,
                ),
            },
    {
        let auth = match endpoint {
            EndpointType::Public => {
                let t = match now() {
                    Some(t) => t,
                    None => 0,
                };
                SubscriptionAuth::Timestamp(t)
            },
            EndpointType::User => SubscriptionAuth::Jwt(String::from_str(jwt.unwrap())),
        };
        let r = subscription_body(channel, product_ids, action, &auth);
        proof {
            if let SubscriptionAuth::Timestamp(t) = auth {
                assert(r matches Ok(s) ==> s@ == subscription_json(
                    action@,
                    texts(product_ids@),
                    *channel,
                    "timestamp"@,
                    decimal(t as nat),
                ));
            }
        }
        r
    }

    /// Records a subscription of the channel of the endpoint to the product ids.
    pub fn record_subscribe(
        &mut self,
        channel: &Channel,
        product_ids: &[String],
        endpoint: &EndpointType,
    )
        ensures
            final(self)@ == (ClientState {
                subscriptions: after_add(
                    old(self)@.subscriptions,
                    *endpoint,
                    *channel,
                    texts(product_ids@),
                ),
                ..old(self)@
            }),
    {
        proof {
            use_type_invariant(&*self);
        }
        let mut subscriptions = WebSocketSubscriptions::new();
        std::mem::swap(&mut subscriptions, &mut self.subscriptions);
        subscriptions.add(channel, product_ids, endpoint);
        self.subscriptions = subscriptions;
    }

    /// Records that the channel of the endpoint is unsubscribed from the product ids.
    pub fn record_unsubscribe(
        &mut self,
        channel: &Channel,
        product_ids: &[String],
        endpoint: &EndpointType,
    )
        ensures
            final(self)@ == (ClientState {
                subscriptions: after_remove(
                    old(self)@.subscriptions,
                    *endpoint,
                    *channel,
                    texts(product_ids@),
                ),
                ..old(self)@
            }),
    {
        proof {
            use_type_invariant(&*self);
        }
        let mut subscriptions = WebSocketSubscriptions::new();
        std::mem::swap(&mut subscriptions, &mut self.subscriptions);
        subscriptions.remove(channel, product_ids, endpoint);
        self.subscriptions = subscriptions;
    }

    /// The subscriptions to send again after reconnecting the endpoint: each channel of the
    /// endpoint that holds any, once, with its product ids, in the order of the channels.
    pub fn resubscriptions(&self, endpoint: &EndpointType) -> (r: Vec<ChannelSubscription>)
        ensures
            forall|i: int|
                0 <= i < r@.len() ==> self@.subscriptions.contains_key(
                    (*endpoint, #[trigger] r@[i].channel),
                ) && texts(r@[i].product_ids@) == self@.subscriptions[(*endpoint, r@[i].channel)],
            forall|c: Channel|
                #[trigger] self@.subscriptions.contains_key((*endpoint, c)) ==> exists|i: int|
                    0 <= i < r@.len() && #[trigger] r@[i].channel == c,
            forall|i: int, j: int|
                0 <= i < j < r@.len() ==> channel_index(#[trigger] r@[i].channel) < channel_index(
                    #[trigger] r@[j].channel,
                ),
    {
        proof {
            use_type_invariant(self);
        }
        self.subscriptions.get(endpoint)
    }

    /// The endpoints to reconnect after the stream was lost: the stream's own endpoint when it
    /// read from one, otherwise every endpoint that holds subscriptions.
    pub fn reconnect_targets(&self, single: Option<EndpointType>) -> (r: Vec<EndpointType>)
        ensures
            single matches Some(e) ==> r@ == seq![e],
            (single is None) ==> (r@.no_duplicates() && forall|e: EndpointType|
                r@.contains(e) <==> exists|c: Channel|
                    #[trigger] self@.subscriptions.contains_key((e, c))),
    {
        proof {
            use_type_invariant(self);
        }
        match single {
            Some(e) => {
                let mut r: Vec<EndpointType> = Vec::new();
                r.push(e);
                proof {
                    assert(r@ =~= seq![e]);
                }
                r
            },
            None => {
                let r = self.subscriptions.get_keys();
                proof {
                    assert forall|e: EndpointType|
                        r@.contains(e) <==> exists|c: Channel|
                            #[trigger] self@.subscriptions.contains_key((e, c)) by {
                        if r@.contains(e) {
                            let c = choose|c: Channel| #[trigger] self.subscriptions@.contains_key((e, c));
                            assert(self@.subscriptions.contains_key((e, c)));
                        }
                        if exists|c: Channel| #[trigger] self@.subscriptions.contains_key((e, c)) {
                            let c = choose|c: Channel| #[trigger] self@.subscriptions.contains_key((e, c));
                            assert(self.subscriptions@.contains_key((e, c)));
                        }
                    }
                }
                r
            },
        }
    }

    /// Starts reconnecting an endpoint with the client's number of attempts: an error when
    /// reconnection is disabled.
    pub fn reconnect_policy(&self) -> (r: CbResult<ReconnectPolicy>)
        ensures
            self@.max_retries == 0 ==> (r matches Err(e) && e@ == CbErrorView::BadConnection(
                "Auto-reconnect is disabled. Exiting..."@,
            )),
            self@.max_retries > 0 ==> (r matches Ok(p) && p.wf() && p@ == (ReconnectState {
                max_retries: self@.max_retries,
                retries: 0,
                delay: 2,
            })),
    {
        ReconnectPolicy::start(self.max_retries)
    }

    /// Whether candles can be watched: they come from the public connection, so an error when
    /// it is not enabled.
    pub fn watch_candles_check(&self) -> (r: CbResult<()>)
        ensures
            self@.enable_public ==> r is Ok,
            !self@.enable_public ==> (r matches Err(e) && e@ == CbErrorView::BadConnection(
                "Public connection is not enabled."@,
            )),
    {
        if !self.enable_public {
            return Err(CbError::BadConnection(String::from_str("Public connection is not enabled.")));
        }
        Ok(())
    }
}

} // verus!
