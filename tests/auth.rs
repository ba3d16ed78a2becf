use feasibility_relay::auth::{
    initialize_service, login_error, LoginFailure, TokenGrant, TokenService, TokenServiceConfig,
    TokenServiceError,
};

fn service() -> TokenService {
    TokenService::new(TokenServiceConfig {
        token_url: "https://idp.example/token".to_string(),
        client_id: "relay".to_string(),
        client_secret: "SECRET-REDACTED".to_string(),
    })
}

fn grant(token: &str, lifetime: Option<u64>) -> Result<TokenGrant, LoginFailure> {
    Ok(TokenGrant { access_token: token.to_string(), expires_in: lifetime })
}

#[test]
fn empty_cache_needs_one_exchange_shared_by_callers() {
    let mut s = service();
    assert!(s.token_info.is_none());
    // first caller, holding the lock, finds nothing and exchanges
    assert_eq!(s.get_token(1000), None);
    assert_eq!(s.refresh(1000, grant("t1", Some(60))).unwrap(), "t1");
    // second caller, served after it, makes no exchange
    assert_eq!(s.get_token(1000).as_deref(), Some("t1"));
    assert_eq!(s.get_token(1059).as_deref(), Some("t1"));
}

#[test]
fn expired_token_is_fetched_again() {
    let mut s = service();
    s.refresh(1000, grant("t1", Some(60))).unwrap();
    assert_eq!(s.token_info.as_ref().unwrap().expires_at, 1060);
    assert_eq!(s.get_token(1060), None);
    assert_eq!(s.refresh(1060, grant("t2", Some(60))).unwrap(), "t2");
    assert_eq!(s.get_token(1061).as_deref(), Some("t2"));
    assert_eq!(s.token_info.as_ref().unwrap().expires_at, 1120);
}

#[test]
fn grant_without_lifetime_is_refused() {
    let mut s = service();
    s.refresh(10, grant("old", Some(100))).unwrap();
    match s.refresh(20, grant("t", None)) {
        Err(TokenServiceError::TokenError(m)) => assert_eq!(m, "Token has no duration"),
        other => panic!("unexpected {:?}", other),
    }
    assert_eq!(s.get_token(20).as_deref(), Some("old"));
}

#[test]
fn login_failures_are_classified() {
    assert!(matches!(
        login_error(LoginFailure::Request("refused".to_string())),
        TokenServiceError::NetworkError(m) if m == "refused"
    ));
    assert!(matches!(
        login_error(LoginFailure::ServerResponse("invalid_client".to_string())),
        TokenServiceError::TokenError(m) if m == "invalid_client"
    ));
    assert!(matches!(
        login_error(LoginFailure::Other),
        TokenServiceError::TokenError(m) if m == "Unexpected error"
    ));
    let mut s = service();
    assert!(matches!(
        s.refresh(5, Err(LoginFailure::Request("dns".to_string()))),
        Err(TokenServiceError::NetworkError(_))
    ));
    assert!(s.token_info.is_none());
}

#[test]
fn lifetime_past_the_clock_never_expires() {
    let info = initialize_service(u64::MAX - 5, grant("t", Some(10))).unwrap();
    assert_eq!(info.expires_at, u64::MAX);
    let info = initialize_service(100, grant("t", Some(0))).unwrap();
    assert_eq!(info.expires_at, 100);
}
