use vstd::prelude::*;
use vstd::string::StringExecFns;

use reqwest_retry::RetryPolicy;

verus! {

/// Failures of a request to the service.
#[derive(Debug)]
pub enum ConnectionError {
    /// The connection failed, or transient failures outlasted the retries.
    RequestError(String),
    /// A middleware of the HTTP client failed.
    RequestMiddlewareError(String),
    UrlParsing(String),
    Deserialization(String),
    InvalidHeader(String),
    /// The server answered 403 Forbidden for the account.
    InvalidAccountIdentifier(String),
    /// A non-success status, or a body that does not parse; holds the body.
    UnexpectedResponse(String),
}


#[verifier::external_type_specification]
#[verifier::external_body]
pub struct ExUrlParseError(url::ParseError);

/// The endpoints of the service.
#[derive(Debug, Clone, Copy, PartialEq, Eq, Structural)]
pub enum QueryType {
    LoginRequest,
    TokenRequest,
    CloseSession,
    JsonQuery,
    ArrowQuery,
}

/// Path and `Accept` type of an endpoint.
#[derive(Debug)]
pub struct QueryContext {
    pub path: &'static str,
    pub accept_mime: &'static str,
}

#[derive(Debug, Clone, Copy, PartialEq, Eq, Structural)]
pub enum Method {
    Get,
    Post,
}

pub open spec fn path_of(q: QueryType) -> Seq<char> {
    match q {
        QueryType::LoginRequest => "session/v1/login-request"@,
        QueryType::TokenRequest => "session/token-request"@,
        QueryType::CloseSession => "session"@,
        QueryType::JsonQuery => "queries/v1/query-request"@,
        QueryType::ArrowQuery => "queries/v1/query-request"@,
    }
}

/// Login and JSON queries accept JSON; the others the binary result type.
pub open spec fn accept_of(q: QueryType) -> Seq<char> {
    match q {
        QueryType::LoginRequest | QueryType::JsonQuery => "application/json"@,
        _ => "application/snowflake"@,
    }
}

impl QueryType {
    pub fn query_context(&self) -> (r: QueryContext)
        ensures
            r.path@ == path_of(*self),
            r.accept_mime@ == accept_of(*self),
    {
        match self {
            QueryType::LoginRequest => QueryContext {
                path: "session/v1/login-request",
                accept_mime: "application/json",
            },
            QueryType::TokenRequest => QueryContext {
                path: "session/token-request",
                accept_mime: "application/snowflake",
            },
            QueryType::CloseSession => QueryContext {
                path: "session",
                accept_mime: "application/snowflake",
            },
            QueryType::JsonQuery => QueryContext {
                path: "queries/v1/query-request",
                accept_mime: "application/json",
            },
            QueryType::ArrowQuery => QueryContext {
                path: "queries/v1/query-request",
                accept_mime: "application/snowflake",
            },
        }
    }
}

/// `https://{account}.snowflakecomputing.com/{path}`
pub open spec fn base_url_of(account: Seq<char>, q: QueryType) -> Seq<char> {
    "https://"@ + account + ".snowflakecomputing.com/"@ + path_of(q)
}

pub fn base_url(account_identifier: &str, query_type: QueryType) -> (r: String)
    ensures
        r@ == base_url_of(account_identifier@, query_type),
{
    let context = query_type.query_context();
    let mut r = String::from_str("https://");
    r.append(account_identifier);
    r.append(".snowflakecomputing.com/");
    r.append(context.path);
    r
}

/// The URL text that `url::Url::parse_with_params` gives for a base and query
/// pairs; `None` when the base does not parse as an absolute URL.
pub uninterp spec fn url_with_params_of(
    base: Seq<char>,
    params: Seq<(Seq<char>, Seq<char>)>,
) -> Option<Seq<char>>;

pub open spec fn pairs_view(v: Seq<(String, String)>) -> Seq<(Seq<char>, Seq<char>)> {
    v.map_values(|p: (String, String)| (p.0@, p.1@))
}

/// Relies on `url::Url::parse_with_params`: parses `base` and appends the
/// pairs, percent-encoded, to its query.
#[verifier::external_body]
fn parse_with_params(base: &str, params: &Vec<(String, String)>) -> (r: Result<String, url::ParseError>)
    ensures
        match r {
            Ok(u) => url_with_params_of(base@, pairs_view(params@)) == Some(u@),
            Err(_) => url_with_params_of(base@, pairs_view(params@)) is None,
        },
{
    url::Url::parse_with_params(base, params.iter().map(|(k, v)| (k.as_str(), v.as_str())))
        .map(|u| u.to_string())
}

/// Identifiers that each attempt of a request carries.
#[derive(Debug)]
pub struct RequestIds {
    /// Unix seconds at dispatch.
    pub client_start_time: String,
    pub request_id: String,
    pub request_guid: String,
}

/// The query pairs of a request: its identifiers, then the caller's pairs.
pub open spec fn request_params_of(ids: RequestIds, extra: Seq<(Seq<char>, Seq<char>)>) -> Seq<
    (Seq<char>, Seq<char>),
> {
    seq![
        ("clientStartTime"@, ids.client_start_time@),
        ("requestId"@, ids.request_id@),
        ("request_guid"@, ids.request_guid@),
    ] + extra
}

/// The URL of one attempt of a request to `query_type` on the account.
pub fn request_url(
    query_type: QueryType,
    account_identifier: &str,
    ids: &RequestIds,
    extra_get_params: &Vec<(String, String)>,
) -> (r: Result<String, ConnectionError>)
    ensures
        match r {
            Ok(u) => url_with_params_of(
                base_url_of(account_identifier@, query_type),
                request_params_of(*ids, pairs_view(extra_get_params@)),
            ) == Some(u@),
            Err(e) => e is UrlParsing && url_with_params_of(
                base_url_of(account_identifier@, query_type),
                request_params_of(*ids, pairs_view(extra_get_params@)),
            ) is None,
        },
{
    let base = base_url(account_identifier, query_type);
    let mut params: Vec<(String, String)> = Vec::new();
    params.push((String::from_str("clientStartTime"), ids.client_start_time.clone()));
    params.push((String::from_str("requestId"), ids.request_id.clone()));
    params.push((String::from_str("request_guid"), ids.request_guid.clone()));
    let mut i: usize = 0;
    while i < extra_get_params.len()
        invariant
            i <= extra_get_params@.len(),
            params@.len() == 3 + i,
            pairs_view(params@) == request_params_of(*ids, pairs_view(extra_get_params@.subrange(0, i as int))),
        decreases extra_get_params@.len() - i,
    {
        let (k, v) = &extra_get_params[i];
        let ghost before = params@;
        let kc = k.clone();
        let vc = v.clone();
        params.push((kc, vc));
        assert(params@ =~= before.push((kc, vc)));
        assert(pairs_view(params@) =~= pairs_view(before).push((kc@, vc@)));
        assert(extra_get_params@.subrange(0, i + 1) =~= extra_get_params@.subrange(0, i as int).push(extra_get_params@[i as int]));
        assert(pairs_view(extra_get_params@.subrange(0, i + 1)) =~= pairs_view(extra_get_params@.subrange(0, i as int)).push((kc@, vc@)));
        assert(pairs_view(params@) =~= request_params_of(*ids, pairs_view(extra_get_params@.subrange(0, i + 1))));
        i = i + 1;
    }
    assert(extra_get_params@.subrange(0, i as int) =~= extra_get_params@);
    match parse_with_params(base.as_str(), &params) {
        Ok(u) => Ok(u),
        Err(e) => Err(ConnectionError::UrlParsing(e.to_string())),
    }
}

/// Retries a request gets after its first attempt.
pub const MAX_RETRIES: u32 = 3;

/// What an attempt came back with.
#[derive(Debug, Clone, Copy, PartialEq, Eq, Structural)]
pub enum AttemptOutcome {
    /// The server answered with this status.
    Status(u16),
    /// No answer: connection, DNS or TLS failure.
    ConnectFailed,
}

/// Whether an outcome is worth another attempt: no answer, 5xx, 408 or 429.
pub open spec fn is_transient(o: AttemptOutcome) -> bool {
    match o {
        AttemptOutcome::ConnectFailed => true,
        AttemptOutcome::Status(s) => (500 <= s && s < 600) || s == 408 || s == 429,
    }
}

/// What the dispatcher does after an attempt.
#[derive(Debug, Clone, Copy, PartialEq, Eq, Structural)]
pub enum RetryStep {
    /// Hand the answer to the caller.
    Deliver,
    /// Try again after this many milliseconds.
    RetryAfterMillis(u64),
    /// Stop: transient failures outlasted the retries.
    GiveUp,
}

/// Relies on `reqwest_retry::policies::ExponentialBackoff` built with at most
/// `max_retries` retries: it declines exactly when `n_past_retries` reached
/// that number, and otherwise gives a (jittered) wait in milliseconds.
#[verifier::external_body]
fn backoff_wait_millis(max_retries: u32, n_past_retries: u32) -> (r: Option<u64>)
    ensures
        r is None <==> n_past_retries >= max_retries,
{
    let policy = reqwest_retry::policies::ExponentialBackoff::builder().build_with_max_retries(max_retries);
    match policy.should_retry(std::time::SystemTime::now(), n_past_retries) {
        reqwest_retry::RetryDecision::Retry { execute_after } => Some(
            execute_after.duration_since(std::time::SystemTime::now()).map_or(0, |d| d.as_millis() as u64),
        ),
        reqwest_retry::RetryDecision::DoNotRetry => None,
    }
}

/// The kind of step taken after an attempt, with `n_past_retries` retries behind it.
pub open spec fn step_kind(o: AttemptOutcome, n_past_retries: nat) -> int {
    if !is_transient(o) {
        0
    } else if n_past_retries < MAX_RETRIES {
        1
    } else {
        2
    }
}

/// Decides what follows an attempt that had `n_past_retries` retries before it.
pub fn next_retry_step(outcome: AttemptOutcome, n_past_retries: u32) -> (r: RetryStep)
    ensures
        step_kind(outcome, n_past_retries as nat) == 0 ==> r == RetryStep::Deliver,
        step_kind(outcome, n_past_retries as nat) == 1 ==> r is RetryAfterMillis,
        step_kind(outcome, n_past_retries as nat) == 2 ==> r == RetryStep::GiveUp,
{
    let transient = match outcome {
        AttemptOutcome::ConnectFailed => true,
        AttemptOutcome::Status(s) => (500 <= s && s < 600) || s == 408 || s == 429,
    };
    if !transient {
        return RetryStep::Deliver;
    }
    match backoff_wait_millis(MAX_RETRIES, n_past_retries) {
        Some(ms) => RetryStep::RetryAfterMillis(ms),
        None => RetryStep::GiveUp,
    }
}

/// How a run of attempts ends: the answer of the attempt at an index is
/// delivered, or the retries run out, or the attempts given end first.
#[derive(Debug, Clone, Copy, PartialEq, Eq, Structural)]
pub enum DispatchEnd {
    Delivered(AttemptOutcome),
    Exhausted,
    Pending,
}

/// The end of a dispatch whose successive attempts come back as `outcomes`,
/// `n` retries having been made before the first of them.
pub open spec fn dispatch_end(outcomes: Seq<AttemptOutcome>, n: nat) -> DispatchEnd
    decreases outcomes.len(),
{
    if outcomes.len() == 0 {
        DispatchEnd::Pending
    } else {
        let k = step_kind(outcomes[0], n);
        if k == 0 {
            DispatchEnd::Delivered(outcomes[0])
        } else if k == 2 {
            DispatchEnd::Exhausted
        } else {
            dispatch_end(outcomes.drop_first(), n + 1)
        }
    }
}

/// The error of a dispatch whose retries ran out.
pub fn exhausted_error() -> (r: ConnectionError)
    ensures
        r is RequestError,
{
    ConnectionError::RequestError(String::from_str("transient failures outlasted the retries"))
}

proof fn lemma_delivered_from(o: Seq<AttemptOutcome>, j: nat, k: nat)
    requires
        j <= k <= MAX_RETRIES,
        k < o.len(),
        forall|i: int| j <= i < k ==> is_transient(#[trigger] o[i]),
        !is_transient(o[k as int]),
    ensures
        dispatch_end(o.subrange(j as int, o.len() as int), j) == DispatchEnd::Delivered(o[k as int]),
    decreases k - j,
{
    let s = o.subrange(j as int, o.len() as int);
    assert(s[0] == o[j as int]);
    if j < k {
        assert(s.drop_first() =~= o.subrange(j as int + 1, o.len() as int));
        lemma_delivered_from(o, j + 1, k);
    }
}

proof fn lemma_exhausted_from(o: Seq<AttemptOutcome>, j: nat)
    requires
        j <= MAX_RETRIES,
        o.len() > MAX_RETRIES,
        forall|i: int| j <= i <= MAX_RETRIES ==> is_transient(#[trigger] o[i]),
    ensures
        dispatch_end(o.subrange(j as int, o.len() as int), j) == DispatchEnd::Exhausted,
    decreases MAX_RETRIES - j,
{
    let s = o.subrange(j as int, o.len() as int);
    assert(s[0] == o[j as int]);
    if j < MAX_RETRIES {
        assert(s.drop_first() =~= o.subrange(j as int + 1, o.len() as int));
        lemma_exhausted_from(o, j + 1);
    }
}

/// A dispatch delivers the first answer that is no transient failure when at
/// most three transient failures come before it (503 three times, then 200,
/// delivers the 200); when the first four attempts all fail transiently (503
/// four times), it runs out of retries.
pub proof fn lemma_retry_budget(outcomes: Seq<AttemptOutcome>, k: nat)
    ensures
        k <= MAX_RETRIES && k < outcomes.len() && (forall|i: int|
            0 <= i < k ==> is_transient(#[trigger] outcomes[i])) && !is_transient(outcomes[k as int])
            ==> dispatch_end(outcomes, 0) == DispatchEnd::Delivered(outcomes[k as int]),
        outcomes.len() > MAX_RETRIES && (forall|i: int|
            0 <= i <= MAX_RETRIES ==> is_transient(#[trigger] outcomes[i]))
            ==> dispatch_end(outcomes, 0) == DispatchEnd::Exhausted,
{
    assert(outcomes.subrange(0, outcomes.len() as int) =~= outcomes);
    if k <= MAX_RETRIES && k < outcomes.len() && (forall|i: int|
        0 <= i < k ==> is_transient(#[trigger] outcomes[i])) && !is_transient(outcomes[k as int]) {
        lemma_delivered_from(outcomes, 0, k);
    }
    if outcomes.len() > MAX_RETRIES && (forall|i: int|
        0 <= i <= MAX_RETRIES ==> is_transient(#[trigger] outcomes[i])) {
        lemma_exhausted_from(outcomes, 0);
    }
}

/// The error that a delivered answer maps to: 403 names the account, any
/// other non-2xx status carries the body; a 2xx answer is no error.
pub fn status_error(status: u16, account_identifier: &str, body: &str) -> (r: Option<ConnectionError>)
    ensures
        status == 403 ==> (r matches Some(ConnectionError::InvalidAccountIdentifier(a)) && a@ == account_identifier@),
        status != 403 && !(200 <= status < 300) ==> (r matches Some(ConnectionError::UnexpectedResponse(b)) && b@ == body@),
        200 <= status < 300 ==> r is None,
{
    if status == 403 {
        Some(ConnectionError::InvalidAccountIdentifier(String::from_str(account_identifier)))
    } else if !(200 <= status && status < 300) {
        Some(ConnectionError::UnexpectedResponse(String::from_str(body)))
    } else {
        None
    }
}

} // verus!
