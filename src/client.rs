use vstd::prelude::*;
use crate::config::{basic_view, spec_basic_of, BasicCredentials, Server};
use crate::model::FeasibilityRequest;

verus! {

/// What the backend answered: any HTTP status with its body text.
#[derive(Clone, Debug)]
pub struct BackendResponse {
    pub status: u16,
    pub body: String,
}

/// A backend call that got no HTTP response at all, once the retries were
/// spent (connection refused, timeout, broken transfer).
#[derive(Clone, Debug)]
pub enum ExecError {
    Network(String),
}

impl ExecError {
    pub open spec fn spec_message(&self) -> Seq<char> {
        match self {
            ExecError::Network(m) => m@,
        }
    }

    /// A human-readable account of the failure.
    pub fn message(&self) -> (r: String)
        ensures
            r@ == self.spec_message(),
    {
        match self {
            ExecError::Network(m) => m.clone(),
        }
    }
}

/// The status code that a completed envelope carries when the backend could
/// not be reached.
pub open spec fn failure_code() -> u16 {
    500
}

/// Relies on http::StatusCode::as_u16: `INTERNAL_SERVER_ERROR` is the code 500.
#[verifier::external_body]
fn internal_server_error() -> (r: u16)
    ensures
        r == failure_code(),
{
    http::StatusCode::INTERNAL_SERVER_ERROR.as_u16()
}

/// The code sent back for a request that could not be executed.
pub fn failure_status() -> (r: u16)
    ensures
        r == failure_code(),
{
    internal_server_error()
}

pub open spec fn spec_failure_body(err: &ExecError) -> Seq<char> {
    "Failed to execute request: "@ + err.spec_message()
}

/// The result body sent back for a request that could not be executed.
pub fn failure_body(err: &ExecError) -> (r: String)
    ensures
        r@ == spec_failure_body(err),
{
    let mut body = String::from_str("Failed to execute request: ");
    let message = err.message();
    body.append(message.as_str());
    body
}

/// Media type that every backend call declares for its body.
pub open spec fn spec_query_content_type() -> Seq<char> {
    "application/sq+json"@
}

/// Media type that the backend client sends by default.
pub open spec fn spec_default_content_type() -> Seq<char> {
    "application/fhir+json"@
}

/// A client setup is refused when its retry bounds are the wrong way round.
#[derive(Clone, Copy, Debug, PartialEq, Eq, Structural)]
pub enum ClientError {
    RetryBounds,
}

/// Everything the backend client is built from: the target, the headers
/// sent with every call, and the retry policy. The transport itself is
/// built from these by the program around the library.
#[derive(Clone, Debug)]
pub struct RestClient {
    pub url: String,
    pub default_content_type: String,
    pub basic_auth: Option<BasicCredentials>,
    pub min_wait_secs: u64,
    pub max_wait_secs: u64,
    pub max_retries: u32,
    pub timeout_secs: u64,
}

/// One backend call: a POST of `body` to `url`, declared as `content_type`.
#[derive(Clone, Debug)]
pub struct BackendCall {
    pub url: String,
    pub content_type: String,
    pub body: String,
}

impl RestClient {
    /// The backoff bounds are ordered, as the retry policy demands.
    pub open spec fn wf(&self) -> bool {
        self.min_wait_secs <= self.max_wait_secs
    }

    /// The client for `config`: basic auth only when user and password are
    /// both configured; retries as configured. Fails when the initial wait
    /// exceeds the maximal wait.
    pub fn new(config: &Server) -> (r: Result<RestClient, ClientError>)
        ensures
            r is Err <==> config.retry.wait > config.retry.max_wait,
            r matches Ok(c) ==> {
                &&& c.wf()
                &&& c.url@ == config.base_url@
                &&& c.default_content_type@ == spec_default_content_type()
                &&& basic_view(c.basic_auth) == spec_basic_of(config.auth)
                &&& c.min_wait_secs == config.retry.wait
                &&& c.max_wait_secs == config.retry.max_wait
                &&& c.max_retries == config.retry.count
                &&& c.timeout_secs == config.retry.timeout
            },
    {
        if config.retry.wait > config.retry.max_wait {
            return Err(ClientError::RetryBounds);
        }
        Ok(
            RestClient {
                url: config.base_url.clone(),
                default_content_type: String::from_str("application/fhir+json"),
                basic_auth: config.basic_credentials(),
                min_wait_secs: config.retry.wait,
                max_wait_secs: config.retry.max_wait,
                max_retries: config.retry.count,
                timeout_secs: config.retry.timeout,
            },
        )
    }

    /// The call that executes `request`: its query document alone is the
    /// body, sent to the configured URL as a query submission.
    pub fn prepare(&self, request: &FeasibilityRequest) -> (r: BackendCall)
        ensures
            r.url@ == self.url@,
            r.content_type@ == spec_query_content_type(),
            r.body@ == request.query@,
    {
        BackendCall {
            url: self.url.clone(),
            content_type: String::from_str("application/sq+json"),
            body: request.query.clone(),
        }
    }

    /// Completes `request` from the outcome of its backend call. Any HTTP
    /// response counts as an execution, whatever its status; only a call
    /// without a response is an error, and the request is then left as it
    /// was.
    pub fn execute(request: &mut FeasibilityRequest, outcome: Result<BackendResponse, ExecError>) -> (r: Result<(), ExecError>)
        ensures
            match outcome {
                Ok(resp) => {
                    &&& r is Ok
                    &&& final(request).same_request(old(request))
                    &&& final(request).spec_completed(resp.status, resp.body@)
                },
                Err(e) => r == Err::<(), ExecError>(e) && *final(request) == *old(request),
            },
    {
        match outcome {
            Ok(resp) => {
                request.complete(resp.status, resp.body);
                Ok(())
            },
            Err(e) => Err(e),
        }
    }
}

} // verus!
