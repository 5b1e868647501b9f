//! # Coinbase Advanced REST client settings
//!
//! The builder of the REST client: its credentials and whether it uses the sandbox, and the
//! decision of which of its agents are authenticated.

use vstd::prelude::*;

use crate::config::CoinbaseConfig;
use crate::websocket::opt_text;

verus! {

/// The settings that a REST client builder collects.
pub struct RestSettings {
    pub api_key: Option<Seq<char>>,
    pub api_secret: Option<Seq<char>>,
    pub use_sandbox: bool,
}

/// Builds a new REST Client (RestClient) that directly interacts with the Coinbase Advanced API.
pub struct RestClientBuilder {
    api_key: Option<String>,
    api_secret: Option<String>,
    use_sandbox: bool,
}

impl View for RestClientBuilder {
    type V = RestSettings;

    closed spec fn view(&self) -> RestSettings {
        RestSettings {
            api_key: opt_text(self.api_key),
            api_secret: opt_text(self.api_secret),
            use_sandbox: self.use_sandbox,
        }
    }
}

impl Default for RestClientBuilder {
    fn default() -> (b: Self)
        ensures
            b@ == (RestSettings { api_key: None, api_secret: None, use_sandbox: false }),
    {
        RestClientBuilder::new()
    }
}

impl RestClientBuilder {
    /// Creates a new instance of a RestClientBuilder: no credentials, no sandbox.
    pub fn new() -> (b: Self)
        ensures
            b@ == (RestSettings { api_key: None, api_secret: None, use_sandbox: false }),
    {
        RestClientBuilder { api_key: None, api_secret: None, use_sandbox: false }
    }

    /// Uses the configuration to set up the client: its credentials and its sandbox setting.
    pub fn with_config(self, config: &CoinbaseConfig) -> (b: Self)
        ensures
            b@ == (RestSettings {
                api_key: Some(config.api_key@),
                api_secret: Some(config.api_secret@),
                use_sandbox: config.use_sandbox,
            }),
    {
        RestClientBuilder {
            api_key: Some(config.api_key.clone()),
            api_secret: Some(config.api_secret.clone()),
            use_sandbox: config.use_sandbox,
        }
    }

    /// Uses the provided key and secret to initialize the authentication.
    pub fn with_authentication(self, key: &str, secret: &str) -> (b: Self)
        ensures
            b@ == (RestSettings { api_key: Some(key@), api_secret: Some(secret@), ..self@ }),
    {
        RestClientBuilder {
            api_key: Some(String::from_str(key)),
            api_secret: Some(String::from_str(secret)),
            use_sandbox: self.use_sandbox,
        }
    }

    /// Sets the use_sandbox flag for the client.
    pub fn use_sandbox(self, use_sandbox: bool) -> (b: Self)
        ensures
            b@ == (RestSettings { use_sandbox, ..self@ }),
    {
        RestClientBuilder { use_sandbox, ..self }
    }

    /// Builds the RestClient: authenticated when both a key and a secret were given.
    pub fn build(self) -> (c: RestClient)
        ensures
            c@ == (RestClientState {
                credentials: match (self@.api_key, self@.api_secret) {
                    (Some(k), Some(s)) => Some((k, s)),
                    _ => None,
                },
                use_sandbox: self@.use_sandbox,
            }),
    {
        let credentials = match (self.api_key, self.api_secret) {
            (Some(k), Some(s)) => Some((k, s)),
            _ => None,
        };
        RestClient { credentials, use_sandbox: self.use_sandbox }
    }
}

/// What a REST client is made with: the credentials of its secure agent, present only when
/// the client is authenticated, and whether its agents use the sandbox.
pub struct RestClientState {
    pub credentials: Option<(Seq<char>, Seq<char>)>,
    pub use_sandbox: bool,
}

/// Represents a REST Client for interacting with the Coinbase Advanced API: the settings its
/// agents are made with.
pub struct RestClient {
    credentials: Option<(String, String)>,
    use_sandbox: bool,
}

impl View for RestClient {
    type V = RestClientState;

    closed spec fn view(&self) -> RestClientState {
        RestClientState {
            credentials: match self.credentials {
                Some((k, s)) => Some((k@, s@)),
                None => None,
            },
            use_sandbox: self.use_sandbox,
        }
    }
}

impl RestClient {
    /// Whether the client has a secure agent, which the authenticated endpoints need.
    pub fn is_authenticated(&self) -> (b: bool)
        ensures
            b == self@.credentials is Some,
    {
        self.credentials.is_some()
    }

    /// Whether the agents use the sandbox.
    pub fn uses_sandbox(&self) -> (b: bool)
        ensures
            b == self@.use_sandbox,
    {
        self.use_sandbox
    }

    /// The API key and secret of the secure agent, when the client is authenticated.
    pub fn credentials(&self) -> (c: Option<(&String, &String)>)
        ensures
            match c {
                Some((k, s)) => self@.credentials == Some((k@, s@)),
                None => self@.credentials is None,
            },
    {
        match &self.credentials {
            Some((k, s)) => Some((k, s)),
            None => None,
        }
    }
}

} // verus!
