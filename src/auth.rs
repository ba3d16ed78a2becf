use vstd::prelude::*;

verus! {

/// Where and as whom the client-credentials exchange is made.
#[derive(Clone, Debug)]
pub struct TokenServiceConfig {
    pub token_url: String,
    pub client_id: String,
    pub client_secret: String,
}

/// Why no credential could be had. A `NetworkError` (the identity endpoint
/// could not be reached) may be worth retrying; a `TokenError` (the exchange
/// was refused or its answer unusable) is not.
#[derive(Clone, Debug)]
pub enum TokenServiceError {
    TokenError(String),
    NetworkError(String),
}

/// A cached credential and the time, in seconds since the Unix epoch, at
/// which it stops being valid.
#[derive(Clone, Debug)]
pub struct TokenInfo {
    pub access_token: String,
    pub expires_at: u64,
}

/// What a successful client-credentials exchange returned: the credential
/// and, if the server reported one, its lifetime in seconds.
#[derive(Clone, Debug)]
pub struct TokenGrant {
    pub access_token: String,
    pub expires_in: Option<u64>,
}

/// How a client-credentials exchange failed: no HTTP exchange took place,
/// the server answered with an error, or anything else.
#[derive(Clone, Debug)]
pub enum LoginFailure {
    Request(String),
    ServerResponse(String),
    Other,
}

/// The error that a failed exchange is reported as.
pub open spec fn spec_login_error(f: LoginFailure) -> (bool, Seq<char>) {
    match f {
        LoginFailure::Request(m) => (true, m@),
        LoginFailure::ServerResponse(m) => (false, m@),
        LoginFailure::Other => (false, "Unexpected error"@),
    }
}

/// `(is it a NetworkError, its message)`.
pub open spec fn error_view(e: TokenServiceError) -> (bool, Seq<char>) {
    match e {
        TokenServiceError::NetworkError(m) => (true, m@),
        TokenServiceError::TokenError(m) => (false, m@),
    }
}

/// Classifies a failed exchange: a transport failure is a `NetworkError`,
/// everything else a `TokenError`.
pub fn login_error(f: LoginFailure) -> (r: TokenServiceError)
    ensures
        error_view(r) == spec_login_error(f),
{
    match f {
        LoginFailure::Request(m) => TokenServiceError::NetworkError(m),
        LoginFailure::ServerResponse(m) => TokenServiceError::TokenError(m),
        LoginFailure::Other => TokenServiceError::TokenError(String::from_str("Unexpected error")),
    }
}

/// The expiry of a credential obtained at `now` with the given lifetime;
/// a lifetime past the end of the clock never expires.
pub open spec fn spec_expiry(now: u64, lifetime: u64) -> u64 {
    if now + lifetime > u64::MAX {
        u64::MAX
    } else {
        (now + lifetime) as u64
    }
}

/// The outcome of an exchange made at `now`, as a record to cache or an
/// error: `(Some((credential, expiry)), _)` or `(None, (is network, message))`.
pub open spec fn spec_initialize(now: u64, login: Result<TokenGrant, LoginFailure>) -> Result<(Seq<char>, u64), (bool, Seq<char>)> {
    match login {
        Ok(grant) => match grant.expires_in {
            Some(lifetime) => Ok((grant.access_token@, spec_expiry(now, lifetime))),
            None => Err((false, "Token has no duration"@)),
        },
        Err(f) => Err(spec_login_error(f)),
    }
}

pub open spec fn info_view(r: Result<TokenInfo, TokenServiceError>) -> Result<(Seq<char>, u64), (bool, Seq<char>)> {
    match r {
        Ok(info) => Ok((info.access_token@, info.expires_at)),
        Err(e) => Err(error_view(e)),
    }
}

/// Turns the outcome of an exchange made at `now` into a record to cache.
/// An answer without a lifetime is refused.
pub fn initialize_service(now: u64, login: Result<TokenGrant, LoginFailure>) -> (r: Result<TokenInfo, TokenServiceError>)
    ensures
        info_view(r) == spec_initialize(now, login),
{
    match login {
        Ok(grant) => match grant.expires_in {
            Some(lifetime) => {
                let expires_at = now.saturating_add(lifetime);
                Ok(TokenInfo { access_token: grant.access_token, expires_at })
            },
            None => Err(TokenServiceError::TokenError(String::from_str("Token has no duration"))),
        },
        Err(f) => Err(login_error(f)),
    }
}

/// The view of a cache: the credential and its expiry, if one is held.
pub open spec fn cache_view(c: Option<TokenInfo>) -> Option<(Seq<char>, u64)> {
    match c {
        Some(info) => Some((info.access_token@, info.expires_at)),
        None => None,
    }
}

/// Whether a cache must be refreshed at `now`: it is empty, or its
/// credential has expired.
pub open spec fn needs_refresh(cache: Option<(Seq<char>, u64)>, now: u64) -> bool {
    match cache {
        Some((_, expires_at)) => expires_at <= now,
        None => true,
    }
}

/// The cache after an exchange made at `now`: replaced wholesale on
/// success, unchanged on failure.
pub open spec fn spec_after_login(cache: Option<(Seq<char>, u64)>, now: u64, login: Result<TokenGrant, LoginFailure>) -> Option<(Seq<char>, u64)> {
    match spec_initialize(now, login) {
        Ok(record) => Some(record),
        Err(_) => cache,
    }
}

/// A cache of at most one bearer credential, fetched again only when it is
/// missing or expired.
///
/// The service is meant to sit behind one lock held across a whole
/// `get_token` / `refresh` sequence: a caller that finds no valid credential
/// performs the exchange and hands its outcome to `refresh` before it
/// releases the lock, so that at most one exchange is in flight.
#[derive(Clone, Debug)]
pub struct TokenService {
    pub config: TokenServiceConfig,
    pub token_info: Option<TokenInfo>,
}

impl TokenService {
    pub open spec fn cache(&self) -> Option<(Seq<char>, u64)> {
        cache_view(self.token_info)
    }

    /// A service for `config` that holds no credential yet.
    pub fn new(config: TokenServiceConfig) -> (r: TokenService)
        ensures
            r.config == config,
            r.token_info is None,
    {
        TokenService { config, token_info: None }
    }

    /// The cached credential, if it is still valid at `now`; `None` means
    /// that an exchange must be made and handed to `refresh`.
    pub fn get_token(&self, now: u64) -> (r: Option<String>)
        ensures
            r is None <==> needs_refresh(self.cache(), now),
            r matches Some(t) ==> t@ == self.cache().unwrap().0,
    {
        match &self.token_info {
            Some(info) => {
                if info.expires_at <= now {
                    None
                } else {
                    Some(info.access_token.clone())
                }
            },
            None => None,
        }
    }

    /// Records the outcome of an exchange made at `now` and returns the new
    /// credential. On failure the cache is left as it was.
    pub fn refresh(&mut self, now: u64, login: Result<TokenGrant, LoginFailure>) -> (r: Result<String, TokenServiceError>)
        ensures
            final(self).config == old(self).config,
            final(self).cache() == spec_after_login(old(self).cache(), now, login),
            match spec_initialize(now, login) {
                Ok((token, _)) => r matches Ok(t) && t@ == token,
                Err(e) => r matches Err(err) && error_view(err) == e,
            },
    {
        match initialize_service(now, login) {
            Ok(info) => {
                let token = info.access_token.clone();
                self.token_info = Some(info);
                Ok(token)
            },
            Err(e) => Err(e),
        }
    }
}

/// Two callers that find no credential: the first makes the one exchange,
/// and the second, served after it under the lock, finds the credential that
/// exchange brought and makes none, as long as it is still valid when the
/// second caller looks.
pub proof fn lemma_one_exchange_for_empty_cache(now1: u64, grant: TokenGrant, now2: u64)
    requires
        grant.expires_in is Some,
        now2 < spec_expiry(now1, grant.expires_in.unwrap()),
    ensures
        needs_refresh(None, now1),
        !needs_refresh(spec_after_login(None, now1, Ok(grant)), now2),
        spec_after_login(None, now1, Ok(grant)).unwrap().0 == grant.access_token@,
{
}

/// A caller that finds the credential expired makes one new exchange; the
/// callers after it, while the new credential lasts, make none and receive
/// the new credential.
pub proof fn lemma_one_exchange_after_expiry(
    cache: Option<(Seq<char>, u64)>,
    now1: u64,
    grant: TokenGrant,
    now2: u64,
)
    requires
        cache is Some,
        cache.unwrap().1 <= now1,
        grant.expires_in is Some,
        now2 < spec_expiry(now1, grant.expires_in.unwrap()),
    ensures
        needs_refresh(cache, now1),
        !needs_refresh(spec_after_login(cache, now1, Ok(grant)), now2),
        spec_after_login(cache, now1, Ok(grant)).unwrap().0 == grant.access_token@,
{
}

/// A credential is served without an exchange exactly until its expiry.
pub proof fn lemma_valid_until_expiry(token: Seq<char>, expires_at: u64, now: u64)
    ensures
        needs_refresh(Some((token, expires_at)), now) <==> expires_at <= now,
{
}

} // verus!
