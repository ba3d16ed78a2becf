use vstd::prelude::*;
use crate::auth::TokenServiceConfig;

verus! {

/// Process-wide settings.
#[derive(Clone, Debug, Default)]
pub struct App {
    pub log_level: String,
}

/// Retry policy of the backend client: how many retries, the per-call
/// timeout and the bounds of the exponential backoff, all in seconds.
#[derive(Clone, Copy, Debug, Default)]
pub struct Retry {
    pub count: u32,
    pub timeout: u64,
    pub wait: u64,
    pub max_wait: u64,
}

/// HTTP basic-auth credentials; used only when both parts are present.
#[derive(Clone, Debug, Default)]
pub struct Basic {
    pub user: Option<String>,
    pub password: Option<String>,
}

/// Client-credentials parameters for the identity endpoint.
#[derive(Clone, Debug, Default)]
pub struct ClientCredentials {
    pub token_url: String,
    pub client_id: String,
    pub client_secret: String,
}

/// The ways a connection may authenticate.
#[derive(Clone, Debug, Default)]
pub struct Auth {
    pub basic: Option<Basic>,
    pub client_credentials: Option<ClientCredentials>,
}

/// The query backend.
#[derive(Clone, Debug, Default)]
pub struct Server {
    pub base_url: String,
    pub auth: Option<Auth>,
    pub retry: Retry,
}

/// The message broker.
#[derive(Clone, Debug, Default)]
pub struct Broker {
    pub url: String,
    pub auth: Option<Auth>,
}

/// All settings of the relay.
#[derive(Clone, Debug, Default)]
pub struct AppConfig {
    pub app: App,
    pub feasibility: Server,
    pub broker: Broker,
}

impl AppConfig {
    /// Gathers the three sections of the settings.
    pub fn new(app: App, feasibility: Server, broker: Broker) -> (r: AppConfig)
        ensures
            r.app == app,
            r.feasibility == feasibility,
            r.broker == broker,
    {
        AppConfig { app, feasibility, broker }
    }
}

/// A user name and password that are both present.
#[derive(Clone, Debug)]
pub struct BasicCredentials {
    pub user: String,
    pub password: String,
}

/// The basic-auth pair configured in `auth`, if its user and password are
/// both set.
pub open spec fn spec_basic_of(auth: Option<Auth>) -> Option<(Seq<char>, Seq<char>)> {
    match auth {
        Some(a) => match a.basic {
            Some(b) => match (b.user, b.password) {
                (Some(u), Some(p)) => Some((u@, p@)),
                _ => None,
            },
            None => None,
        },
        None => None,
    }
}

/// The view of an optional credential pair.
pub open spec fn basic_view(c: Option<BasicCredentials>) -> Option<(Seq<char>, Seq<char>)> {
    match c {
        Some(b) => Some((b.user@, b.password@)),
        None => None,
    }
}

/// The view of a token-service configuration.
pub open spec fn token_config_view(c: TokenServiceConfig) -> (Seq<char>, Seq<char>, Seq<char>) {
    (c.token_url@, c.client_id@, c.client_secret@)
}

impl Server {
    /// The basic-auth credentials to send with every backend call: present
    /// only when both user and password are configured.
    pub fn basic_credentials(&self) -> (r: Option<BasicCredentials>)
        ensures
            basic_view(r) == spec_basic_of(self.auth),
    {
        match &self.auth {
            Some(auth) => match &auth.basic {
                Some(basic) => match (&basic.user, &basic.password) {
                    (Some(user), Some(password)) => Some(
                        BasicCredentials { user: user.clone(), password: password.clone() },
                    ),
                    _ => None,
                },
                None => None,
            },
            None => None,
        }
    }
}

impl Broker {
    /// The client-credentials parameters of the broker connection, if any:
    /// when present the connection carries a bearer credential.
    pub fn token_service_config(&self) -> (r: Option<TokenServiceConfig>)
        ensures
            r.is_some() == (self.auth.is_some() && self.auth.unwrap().client_credentials.is_some()),
            r.is_some() ==> ({
                let c = self.auth.unwrap().client_credentials.unwrap();
                token_config_view(r.unwrap()) == (c.token_url@, c.client_id@, c.client_secret@)
            }),
    {
        match &self.auth {
            Some(auth) => match &auth.client_credentials {
                Some(c) => Some(
                    TokenServiceConfig {
                        token_url: c.token_url.clone(),
                        client_id: c.client_id.clone(),
                        client_secret: c.client_secret.clone(),
                    },
                ),
                None => None,
            },
            None => None,
        }
    }
}

/// The value of the `Authorization` header that carries a bearer credential.
pub fn bearer_header(token: &str) -> (r: String)
    ensures
        r@ == "Bearer "@ + token@,
{
    let mut header = String::from_str("Bearer ");
    header.append(token);
    header
}

} // verus!
