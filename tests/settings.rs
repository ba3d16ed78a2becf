use feasibility_relay::client::{ClientError, RestClient};
use feasibility_relay::config::{
    bearer_header, App, AppConfig, Auth, Basic, Broker, ClientCredentials, Retry, Server,
};
use feasibility_relay::model::{FeasibilityRequest, QueryState, Timestamp};

fn server(auth: Option<Auth>, wait: u64, max_wait: u64) -> Server {
    Server {
        base_url: "http://localhost:8080/query/execute".to_string(),
        auth,
        retry: Retry { count: 3, timeout: 10, wait, max_wait },
    }
}

fn basic(user: Option<&str>, password: Option<&str>) -> Option<Auth> {
    Some(Auth {
        basic: Some(Basic {
            user: user.map(|u| u.to_string()),
            password: password.map(|p| p.to_string()),
        }),
        client_credentials: None,
    })
}

#[test]
fn client_takes_settings() {
    let c = RestClient::new(&server(None, 1, 30)).unwrap();
    assert_eq!(c.url, "http://localhost:8080/query/execute");
    assert_eq!(c.default_content_type, "application/fhir+json");
    assert!(c.basic_auth.is_none());
    assert_eq!((c.min_wait_secs, c.max_wait_secs, c.max_retries, c.timeout_secs), (1, 30, 3, 10));
}

#[test]
fn basic_auth_needs_user_and_password() {
    let c = RestClient::new(&server(basic(Some("u"), Some("p")), 1, 1)).unwrap();
    let b = c.basic_auth.unwrap();
    assert_eq!((b.user.as_str(), b.password.as_str()), ("u", "p"));
    assert!(RestClient::new(&server(basic(Some("u"), None), 1, 1)).unwrap().basic_auth.is_none());
    assert!(RestClient::new(&server(basic(None, Some("p")), 1, 1)).unwrap().basic_auth.is_none());
}

#[test]
fn inverted_retry_bounds_are_refused() {
    assert_eq!(RestClient::new(&server(None, 31, 30)).unwrap_err(), ClientError::RetryBounds);
}

#[test]
fn call_sends_query_only() {
    let c = RestClient::new(&server(None, 1, 2)).unwrap();
    let r = FeasibilityRequest {
        id: 5,
        date: Timestamp { secs: 0, nanos: 0 },
        query: "{\"a\":[1,2]}".to_string(),
        status: QueryState::Pending,
        result_code: None,
        result_body: None,
        result_duration: Some(3),
    };
    let call = c.prepare(&r);
    assert_eq!(call.url, "http://localhost:8080/query/execute");
    assert_eq!(call.content_type, "application/sq+json");
    assert_eq!(call.body, "{\"a\":[1,2]}");
}

#[test]
fn broker_credentials_and_bearer_header() {
    let broker = Broker {
        url: "ws://localhost:12345/".to_string(),
        auth: Some(Auth {
            basic: None,
            client_credentials: Some(ClientCredentials {
                token_url: "https://idp/token".to_string(),
                client_id: "id".to_string(),
                client_secret: "SECRET-REDACTED".to_string(),
            }),
        }),
    };
    let cfg = AppConfig::new(App { log_level: "info".to_string() }, server(None, 1, 2), broker);
    let t = cfg.broker.token_service_config().unwrap();
    assert_eq!(t.token_url, "https://idp/token");
    assert_eq!(t.client_id, "id");
    assert_eq!(t.client_secret, "SECRET-REDACTED");
    let plain = Broker { url: "ws://x/".to_string(), auth: None };
    assert!(plain.token_service_config().is_none());
    assert_eq!(bearer_header("abc"), "Bearer abc");
}
