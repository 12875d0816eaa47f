//! Soroban RPC client: endpoint configuration, JSON-RPC call framing, the
//! retry policy of a request, interpretation of JSON-RPC replies, and the
//! decisions of Friendbot funding.
//!
//! The HTTP exchange itself is performed by the caller: a request is driven
//! by [`RequestRetry`], which says when to send, when to pause and what the
//! request finally yields.
use vstd::prelude::*;

use crate::error::{outcome_matches, ErrorModel, RpcError};
use crate::text::{
    contains_seq, contains_str, decimal_nat, take_chars, take_chars_str, trim, trim_end_char,
    trim_end_matches_char, trim_str, u64_to_decimal, law_trim_end_char_leaves_no_trailing,
};

verus! {

/// Network settings for an RPC endpoint.
#[derive(Debug, Clone)]
pub struct NetworkConfig {
    pub rpc_url: String,
    pub passphrase: String,
    pub timeout_secs: Option<u64>,
    pub pool_max_idle_per_host: Option<usize>,
}

/// Soroban RPC client: the normalised endpoint URL and the settings of the
/// HTTP connection pool that carries its requests.
#[derive(Debug)]
pub struct SorobanRpcClient {
    endpoint: String,
    timeout_secs: Option<u64>,
    pool_max_idle_per_host: Option<usize>,
}

/// Model of a [`SorobanRpcClient`].
pub struct ClientModel {
    pub endpoint: Seq<char>,
    pub timeout_secs: Option<u64>,
    pub pool_max_idle_per_host: Option<usize>,
}

impl View for SorobanRpcClient {
    type V = ClientModel;

    closed spec fn view(&self) -> ClientModel {
        ClientModel {
            endpoint: self.endpoint@,
            timeout_secs: self.timeout_secs,
            pool_max_idle_per_host: self.pool_max_idle_per_host,
        }
    }
}

/// An endpoint that does not end in `/`.
pub open spec fn is_normalised_endpoint(endpoint: Seq<char>) -> bool {
    endpoint.len() > 0 ==> endpoint.last() != '/'
}

impl Clone for SorobanRpcClient {
    /// A client with the same endpoint and settings.
    fn clone(&self) -> (c: Self)
        ensures
            c@ == self@,
    {
        proof {
            use_type_invariant(self);
        }
        SorobanRpcClient {
            endpoint: self.endpoint.clone(),
            timeout_secs: self.timeout_secs,
            pool_max_idle_per_host: self.pool_max_idle_per_host,
        }
    }
}

/// Request timeout, in seconds, of a client made by [`SorobanRpcClient::new`].
pub open spec fn default_timeout_secs() -> u64 {
    15
}

/// Idle connections kept per host by a client made by [`SorobanRpcClient::new`].
pub open spec fn default_pool_max_idle() -> usize {
    100
}

/// The `params` of a JSON-RPC call.
#[derive(Debug, Clone)]
pub enum RpcParams {
    /// No parameters (serialised as `null`).
    Empty,
    /// `{ "keys": [...] }`: the base64 XDR ledger keys to fetch.
    LedgerKeys(Vec<String>),
    /// Any other parameters, already serialised as JSON text.
    Json(String),
}

/// A JSON-RPC 2.0 call to be posted to `url` as
/// `{"jsonrpc": jsonrpc, "id": id, "method": method, "params": params}`,
/// with the `Accept-Encoding` header set to `accept_encoding`.
#[derive(Debug, Clone)]
pub struct RpcCall {
    pub url: String,
    pub jsonrpc: String,
    pub id: u64,
    pub method: String,
    pub params: RpcParams,
    pub accept_encoding: String,
}

/// Health check response from the node.
#[derive(Debug, Clone, PartialEq, Eq)]
pub struct HealthCheck {
    pub status: String,
}

/// Ledger info snapshot.
#[derive(Debug, Clone, PartialEq, Eq)]
pub struct LedgerInfo {
    pub id: String,
    pub protocol_version: u32,
    pub sequence: u32,
}

/// Storage response payload.
#[derive(Debug, Clone, PartialEq, Eq)]
pub struct StorageResponse {
    pub entries: Vec<LedgerEntryResult>,
    pub latest_ledger: u32,
}

/// One ledger entry of a storage response.
#[derive(Debug, Clone, PartialEq, Eq)]
pub struct LedgerEntryResult {
    pub key: String,
    pub xdr: String,
    pub last_modified_ledger_seq: u32,
    pub live_until_ledger_seq: Option<u32>,
}

/// The result of a Friendbot funding request.
#[derive(Debug, Clone, PartialEq, Eq)]
pub struct FundResult {
    pub address: String,
    pub status: String,
}

/// The error object of a JSON-RPC reply.
#[derive(Debug, Clone)]
pub struct JsonRpcError {
    pub message: String,
}

/// A JSON-RPC reply: a result, an error, both or neither.
#[derive(Debug)]
pub struct JsonRpcResponse<T> {
    pub result: Option<T>,
    pub error: Option<JsonRpcError>,
}

impl SorobanRpcClient {
    /// The endpoint of every client is normalised.
    #[verifier::type_invariant]
    spec fn endpoint_normalised(self) -> bool {
        is_normalised_endpoint(self.endpoint@)
    }

    /// Create a client from an explicit endpoint URL, with a 15 s request
    /// timeout and at most 100 idle connections per host.
    pub fn new(endpoint: &str) -> (c: Self)
        ensures
            c@.endpoint == trim_end_char(endpoint@, '/'),
            c@.timeout_secs == Some(default_timeout_secs()),
            c@.pool_max_idle_per_host == Some(default_pool_max_idle()),
    {
        Self::with_options(endpoint, Some(15), Some(100))
    }

    /// Create a client with explicit pool and timeout settings. Trailing
    /// `/` characters are removed from the endpoint.
    pub fn with_options(endpoint: &str, timeout_secs: Option<u64>, pool_max_idle: Option<usize>) -> (c: Self)
        ensures
            c@.endpoint == trim_end_char(endpoint@, '/'),
            c@.timeout_secs == timeout_secs,
            c@.pool_max_idle_per_host == pool_max_idle,
    {
        proof {
            law_trim_end_char_leaves_no_trailing(endpoint@, '/');
        }
        let endpoint = trim_end_matches_char(endpoint, '/');
        SorobanRpcClient { endpoint, timeout_secs, pool_max_idle_per_host: pool_max_idle }
    }

    /// Create a client from a [`NetworkConfig`].
    pub fn from_config(config: &NetworkConfig) -> (c: Self)
        ensures
            c@.endpoint == trim_end_char(config.rpc_url@, '/'),
            c@.timeout_secs == config.timeout_secs,
            c@.pool_max_idle_per_host == config.pool_max_idle_per_host,
    {
        Self::with_options(config.rpc_url.as_str(), config.timeout_secs, config.pool_max_idle_per_host)
    }

    /// Return the configured endpoint URL; it never ends in `/`.
    pub fn endpoint(&self) -> (r: &str)
        ensures
            r@ == self@.endpoint,
            is_normalised_endpoint(r@),
    {
        proof {
            use_type_invariant(self);
        }
        self.endpoint.as_str()
    }

    /// The request timeout in seconds, if any.
    pub fn timeout_secs(&self) -> (r: Option<u64>)
        ensures
            r == self@.timeout_secs,
    {
        self.timeout_secs
    }

    /// The maximum number of idle pooled connections per host, if limited.
    pub fn pool_max_idle_per_host(&self) -> (r: Option<usize>)
        ensures
            r == self@.pool_max_idle_per_host,
    {
        self.pool_max_idle_per_host
    }

    /// How long, in seconds, an idle pooled connection is kept.
    pub fn pool_idle_timeout_secs(&self) -> (r: u64)
        ensures
            r == 60,
    {
        60
    }

    /// Frame a JSON-RPC 2.0 call of `method` with `params` to the endpoint,
    /// asking for an uncompressed (`identity`) response body.
    pub fn request(&self, method: &str, params: RpcParams) -> (call: RpcCall)
        ensures
            call.url@ == self@.endpoint,
            call.jsonrpc@ == "2.0"@,
            call.id == 1,
            call.method@ == method@,
            call.params == params,
            call.accept_encoding@ == "identity"@,
    {
        RpcCall {
            url: self.endpoint.clone(),
            jsonrpc: String::from_str("2.0"),
            id: 1,
            method: String::from_str(method),
            params,
            accept_encoding: String::from_str("identity"),
        }
    }

    /// The call that checks the health of the node (`getHealth`).
    pub fn get_health(&self) -> (call: RpcCall)
        ensures
            call.url@ == self@.endpoint,
            call.method@ == "getHealth"@,
            call.params == RpcParams::Empty,
            call.jsonrpc@ == "2.0"@,
            call.id == 1,
            call.accept_encoding@ == "identity"@,
    {
        self.request("getHealth", RpcParams::Empty)
    }

    /// The call that fetches the latest ledger (`getLatestLedger`).
    pub fn get_ledger(&self) -> (call: RpcCall)
        ensures
            call.url@ == self@.endpoint,
            call.method@ == "getLatestLedger"@,
            call.params == RpcParams::Empty,
            call.jsonrpc@ == "2.0"@,
            call.id == 1,
            call.accept_encoding@ == "identity"@,
    {
        self.request("getLatestLedger", RpcParams::Empty)
    }

    /// The call that fetches ledger entries by key (`getLedgerEntries` with
    /// `{ "keys": keys }`). The contract id does not enter the call.
    pub fn get_contract_storage(&self, _contract_id: &str, keys: &[String]) -> (call: RpcCall)
        ensures
            call.url@ == self@.endpoint,
            call.method@ == "getLedgerEntries"@,
            call.params matches RpcParams::LedgerKeys(ks) && ks@ == keys@,
            call.jsonrpc@ == "2.0"@,
            call.id == 1,
            call.accept_encoding@ == "identity"@,
    {
        let mut ks: Vec<String> = Vec::new();
        let mut i: usize = 0;
        while i < keys.len()
            invariant
                i <= keys@.len(),
                ks@ == keys@.take(i as int),
            decreases keys@.len() - i,
        {
            ks.push(keys[i].clone());
            i = i + 1;
            assert(ks@ =~= keys@.take(i as int));
        }
        assert(keys@.take(keys@.len() as int) =~= keys@);
        self.request("getLedgerEntries", RpcParams::LedgerKeys(ks))
    }
}

/// Text of the error for a reply that carries neither result nor error.
pub open spec fn missing_result_text() -> Seq<char> {
    "Missing result in JSON-RPC response"@
}

/// What a JSON-RPC reply yields: its error message if it has an error
/// (even beside a result), else its result, else a missing-result error.
pub open spec fn reply_outcome<T>(reply: JsonRpcResponse<T>) -> Result<T, ErrorModel> {
    match reply.error {
        Some(e) => Err(ErrorModel::Rpc(e.message@)),
        None => match reply.result {
            Some(v) => Ok(v),
            None => Err(ErrorModel::Rpc(missing_result_text())),
        },
    }
}

/// Interpret a JSON-RPC reply.
pub fn interpret_reply<T>(reply: JsonRpcResponse<T>) -> (r: Result<T, RpcError>)
    ensures
        outcome_matches(r, reply_outcome(reply)),
{
    match reply.error {
        Some(e) => Err(RpcError::Rpc(e.message)),
        None => match reply.result {
            Some(v) => Ok(v),
            None => Err(RpcError::Rpc(String::from_str("Missing result in JSON-RPC response"))),
        },
    }
}

/// Largest number of times a request is sent.
pub open spec fn max_attempts() -> nat {
    2
}

/// Pause, in milliseconds, before a request is sent again.
pub open spec fn retry_pause_millis() -> u64 {
    500
}

/// Where a request stands.
#[derive(Debug, Clone, Copy, PartialEq, Eq)]
pub enum RequestPhase {
    /// Not started.
    Ready,
    /// Sent; waiting for the transport's outcome.
    AwaitingReply,
    /// A send failed and may be retried; pausing.
    BackingOff,
    /// Finished; the outcome has been handed out.
    Done,
}

/// What the transport reports to a request.
#[derive(Debug)]
pub enum RequestEvent<T> {
    /// Start the request.
    Begin,
    /// A reply with HTTP `status` arrived and its body was decoded.
    Replied { status: u16, reply: JsonRpcResponse<T> },
    /// A reply with HTTP `status` arrived but its body could not be decoded.
    ReplyUnreadable { status: u16, message: String },
    /// Sending failed; `retryable` when it timed out or could not connect.
    SendFailed { retryable: bool, message: String },
    /// The pause asked for by [`RequestAction::Sleep`] is over.
    PauseElapsed,
}

/// What the transport should do next.
#[derive(Debug)]
pub enum RequestAction<T> {
    /// Post the call.
    Send,
    /// Pause for `millis` milliseconds, then report `PauseElapsed`.
    Sleep { millis: u64 },
    /// The request is over, with this outcome.
    Finish(Result<T, RpcError>),
    /// The event does not apply in the current phase; nothing to do.
    Nothing,
}

/// The retry policy of a JSON-RPC request: at most two sends, a second one
/// only after a timeout or connection failure of the first and a pause of
/// 500 ms; a reply (or any other failure) ends the request.
#[derive(Debug)]
pub struct RequestRetry {
    phase: RequestPhase,
    failed_attempts: u32,
    last_error: Option<String>,
}

/// Model of a [`RequestRetry`].
pub struct RetryModel {
    pub phase: RequestPhase,
    pub failed_attempts: nat,
    pub last_error: Option<Seq<char>>,
}

impl View for RequestRetry {
    type V = RetryModel;

    closed spec fn view(&self) -> RetryModel {
        RetryModel {
            phase: self.phase,
            failed_attempts: self.failed_attempts as nat,
            last_error: match self.last_error {
                Some(m) => Some(m@),
                None => None,
            },
        }
    }
}

/// Model of a [`RequestAction`].
pub enum ActionModel<T> {
    Send,
    Sleep { millis: u64 },
    Finish(Result<T, ErrorModel>),
    Nothing,
}

/// The model of an action.
pub open spec fn action_model<T>(a: RequestAction<T>) -> ActionModel<T> {
    match a {
        RequestAction::Send => ActionModel::Send,
        RequestAction::Sleep { millis } => ActionModel::Sleep { millis },
        RequestAction::Finish(r) => ActionModel::Finish(
            match r {
                Ok(v) => Ok(v),
                Err(e) => Err(e@),
            },
        ),
        RequestAction::Nothing => ActionModel::Nothing,
    }
}

impl RetryModel {
    /// The state of a request that has not started.
    pub open spec fn initial() -> RetryModel {
        RetryModel { phase: RequestPhase::Ready, failed_attempts: 0, last_error: None }
    }

    /// The states a request can reach.
    pub open spec fn wf(self) -> bool {
        &&& self.failed_attempts <= max_attempts()
        &&& self.phase == RequestPhase::Ready ==> self.failed_attempts == 0
        &&& self.phase == RequestPhase::AwaitingReply ==> self.failed_attempts < max_attempts()
        &&& self.failed_attempts > 0 ==> self.last_error is Some
    }

    /// Decide after the pause (or at the start): send again while fewer than
    /// two sends have failed, else give up with the last send error.
    pub open spec fn resume<T>(self) -> (RetryModel, ActionModel<T>) {
        if self.failed_attempts < max_attempts() {
            (RetryModel { phase: RequestPhase::AwaitingReply, ..self }, ActionModel::Send)
        } else {
            (
                RetryModel { phase: RequestPhase::Done, ..self },
                ActionModel::Finish(Err(ErrorModel::Http(self.last_error.unwrap()))),
            )
        }
    }

    /// The transition on one event.
    pub open spec fn step<T>(self, event: RequestEvent<T>) -> (RetryModel, ActionModel<T>) {
        let done = RetryModel { phase: RequestPhase::Done, ..self };
        match (self.phase, event) {
            (RequestPhase::Ready, RequestEvent::Begin) => self.resume(),
            (RequestPhase::BackingOff, RequestEvent::PauseElapsed) => self.resume(),
            (RequestPhase::AwaitingReply, RequestEvent::Replied { reply, .. }) => (
                done,
                ActionModel::Finish(reply_outcome(reply)),
            ),
            (RequestPhase::AwaitingReply, RequestEvent::ReplyUnreadable { message, .. }) => (
                done,
                ActionModel::Finish(Err(ErrorModel::Http(message@))),
            ),
            (RequestPhase::AwaitingReply, RequestEvent::SendFailed { retryable, message }) => {
                if retryable {
                    (
                        RetryModel {
                            phase: RequestPhase::BackingOff,
                            failed_attempts: self.failed_attempts + 1,
                            last_error: Some(message@),
                        },
                        ActionModel::Sleep { millis: retry_pause_millis() },
                    )
                } else {
                    (done, ActionModel::Finish(Err(ErrorModel::Http(message@))))
                }
            },
            _ => (self, ActionModel::Nothing),
        }
    }
}

impl RequestRetry {
    /// Every reachable state is well formed.
    #[verifier::type_invariant]
    spec fn reachable(self) -> bool {
        self@.wf()
    }

    /// A request that has not started.
    pub fn new() -> (r: Self)
        ensures
            r@ == RetryModel::initial(),
    {
        RequestRetry { phase: RequestPhase::Ready, failed_attempts: 0, last_error: None }
    }

    /// The phase of the request.
    pub fn phase(&self) -> (p: RequestPhase)
        ensures
            p == self@.phase,
    {
        self.phase
    }

    /// How many sends have failed with a retryable error.
    pub fn failed_attempts(&self) -> (n: u32)
        ensures
            n == self@.failed_attempts,
    {
        self.failed_attempts
    }

    fn resume<T>(&mut self) -> (a: RequestAction<T>)
        requires
            old(self)@.phase == RequestPhase::Ready || old(self)@.phase
                == RequestPhase::BackingOff,
        ensures
            (final(self)@, action_model(a)) == old(self)@.resume::<T>(),
    {
        proof {
            use_type_invariant(&*self);
        }
        if self.failed_attempts < 2 {
            self.phase = RequestPhase::AwaitingReply;
            RequestAction::Send
        } else {
            self.phase = RequestPhase::Done;
            let m = match &self.last_error {
                Some(m) => m.clone(),
                None => String::new(),
            };
            RequestAction::Finish(Err(RpcError::Http(m)))
        }
    }

    /// Advance the request on one event and say what to do next.
    pub fn step<T>(&mut self, event: RequestEvent<T>) -> (a: RequestAction<T>)
        ensures
            (final(self)@, action_model(a)) == old(self)@.step(event),
    {
        proof {
            use_type_invariant(&*self);
        }
        match (self.phase, event) {
            (RequestPhase::Ready, RequestEvent::Begin) => self.resume(),
            (RequestPhase::BackingOff, RequestEvent::PauseElapsed) => self.resume(),
            (RequestPhase::AwaitingReply, RequestEvent::Replied { reply, .. }) => {
                self.phase = RequestPhase::Done;
                RequestAction::Finish(interpret_reply(reply))
            },
            (RequestPhase::AwaitingReply, RequestEvent::ReplyUnreadable { message, .. }) => {
                self.phase = RequestPhase::Done;
                RequestAction::Finish(Err(RpcError::Http(message)))
            },
            (RequestPhase::AwaitingReply, RequestEvent::SendFailed { retryable, message }) => {
                if retryable {
                    self.phase = RequestPhase::BackingOff;
                    self.last_error = Some(message);
                    self.failed_attempts = self.failed_attempts + 1;
                    RequestAction::Sleep { millis: 500 }
                } else {
                    self.phase = RequestPhase::Done;
                    RequestAction::Finish(Err(RpcError::Http(message)))
                }
            },
            _ => RequestAction::Nothing,
        }
    }
}


/// How many times the call is sent while a request in state `s` handles
/// `events` in order.
pub open spec fn sends_over<T>(s: RetryModel, events: Seq<RequestEvent<T>>) -> nat
    decreases events.len(),
{
    if events.len() == 0 {
        0
    } else {
        let (next, a) = s.step(events[0]);
        (if a is Send {
            1nat
        } else {
            0nat
        }) + sends_over(next, events.drop_first())
    }
}

/// How many more sends a request in state `s` may still make.
pub open spec fn send_budget(s: RetryModel) -> nat {
    match s.phase {
        RequestPhase::Ready => (max_attempts() - s.failed_attempts) as nat,
        RequestPhase::BackingOff => (max_attempts() - s.failed_attempts) as nat,
        RequestPhase::AwaitingReply => (max_attempts() - s.failed_attempts - 1) as nat,
        RequestPhase::Done => 0,
    }
}

proof fn lemma_step_spends_budget<T>(s: RetryModel, e: RequestEvent<T>)
    requires
        s.wf(),
    ensures
        s.step(e).0.wf(),
        send_budget(s.step(e).0) + (if s.step(e).1 is Send {
            1nat
        } else {
            0nat
        }) <= send_budget(s),
{
}

proof fn lemma_sends_within_budget<T>(s: RetryModel, events: Seq<RequestEvent<T>>)
    requires
        s.wf(),
    ensures
        sends_over(s, events) <= send_budget(s),
    decreases events.len(),
{
    if events.len() > 0 {
        lemma_step_spends_budget(s, events[0]);
        lemma_sends_within_budget(s.step(events[0]).0, events.drop_first());
    }
}

/// A request is sent at most twice, whatever the transport reports.
pub proof fn law_request_sent_at_most_twice<T>(events: Seq<RequestEvent<T>>)
    ensures
        sends_over(RetryModel::initial(), events) <= max_attempts(),
{
    lemma_sends_within_budget(RetryModel::initial(), events);
}

/// A request's outcome depends on the reply body only: two replies that
/// differ in HTTP status alone lead to the same state and action.
pub proof fn law_outcome_ignores_http_status<T>(
    s: RetryModel,
    reply: JsonRpcResponse<T>,
    message: String,
    status_a: u16,
    status_b: u16,
)
    ensures
        s.step(RequestEvent::Replied { status: status_a, reply }) == s.step(
            RequestEvent::Replied { status: status_b, reply },
        ),
        s.step(RequestEvent::<T>::ReplyUnreadable { status: status_a, message }) == s.step(
            RequestEvent::<T>::ReplyUnreadable { status: status_b, message },
        ),
{
}

/// A finished request ignores every further event.
pub proof fn law_finished_request_stays_finished<T>(s: RetryModel, e: RequestEvent<T>)
    requires
        s.phase == RequestPhase::Done,
    ensures
        s.step(e).0 == s,
        s.step(e).1 is Nothing,
{
}

/// Funding succeeds exactly when the status is 2xx and no refusal or error
/// marker occurs anywhere in the body; 429 is always a rate limit, and any
/// other non-2xx status is reported with its decimal code and the body's
/// first 200 characters.
pub proof fn law_friendbot_funded_exactly_without_markers(status: u16, body: Seq<char>)
    ensures
        friendbot_reply_error(status, body) is None <==> (200 <= status <= 299 && !contains_seq(
            body,
            "error"@,
        ) && !contains_seq(body, "ERROR"@) && !contains_seq(body, "account is already funded"@)
            && !contains_seq(body, "insufficient funds for rent exemption"@)),
        status == 429 ==> friendbot_reply_error(status, body) == Some(
            ErrorModel::Rpc(rate_limit_text()),
        ),
        status != 429 && !(200 <= status <= 299) ==> friendbot_reply_error(status, body) == Some(
            ErrorModel::Rpc("Friendbot returned HTTP "@ + decimal_nat(status as nat) + ": "@
                + body.take(min_len(body.len(), 200) as int)),
        ),
{
    assert(take_chars(body, quoted_body_len()) =~= body.take(min_len(body.len(), 200) as int));
}

/// The smaller of two lengths.
pub open spec fn min_len(a: nat, b: nat) -> nat {
    if a <= b {
        a
    } else {
        b
    }
}

/// A Friendbot URL is built exactly when both the URL and the address have
/// a non-white-space character; it is then the whole trimmed URL, followed
/// by `?addr=`, followed by the address as given.
pub proof fn law_friendbot_url_layout(friendbot_url: Seq<char>, address: Seq<char>)
    ensures
        friendbot_url_outcome(friendbot_url, address) is Ok <==> (trim(friendbot_url).len() > 0
            && trim(address).len() > 0),
        friendbot_url_outcome(friendbot_url, address) matches Ok(s) ==> ({
            let u = trim(friendbot_url);
            let q = "?addr="@;
            &&& s.len() == u.len() + q.len() + address.len()
            &&& s.subrange(0, u.len() as int) == u
            &&& s.subrange(u.len() as int, (u.len() + q.len()) as int) == q
            &&& s.subrange((u.len() + q.len()) as int, s.len() as int) == address
        }),
{
    if let Ok(s) = friendbot_url_outcome(friendbot_url, address) {
        let u = trim(friendbot_url);
        let q = "?addr="@;
        assert(s.subrange(0, u.len() as int) =~= u);
        assert(s.subrange(u.len() as int, (u.len() + q.len()) as int) =~= q);
        assert(s.subrange((u.len() + q.len()) as int, s.len() as int) =~= address);
    }
}

/// Text of the error for an empty Friendbot URL.
pub open spec fn empty_url_text() -> Seq<char> {
    "Friendbot URL is empty"@
}

/// Text of the error for an empty address.
pub open spec fn empty_address_text() -> Seq<char> {
    "Address is empty"@
}

/// Text of the error for a rate-limited Friendbot request (HTTP 429).
pub open spec fn rate_limit_text() -> Seq<char> {
    "Friendbot rate limit exceeded. Wait and try again."@
}

/// How many characters of a Friendbot body an error message quotes.
pub open spec fn quoted_body_len() -> nat {
    200
}

/// The Friendbot URL for an address: the trimmed Friendbot URL, then
/// `?addr=` and the address as given. Refused when either input is empty
/// or white space only, the URL being checked first.
pub open spec fn friendbot_url_outcome(friendbot_url: Seq<char>, address: Seq<char>) -> Result<Seq<char>, ErrorModel> {
    if trim(friendbot_url).len() == 0 {
        Err(ErrorModel::Rpc(empty_url_text()))
    } else if trim(address).len() == 0 {
        Err(ErrorModel::Rpc(empty_address_text()))
    } else {
        Ok(trim(friendbot_url) + "?addr="@ + address)
    }
}

/// The error for a Friendbot request that could not be sent: a timeout is
/// reported as such, anything else as a transport error.
pub open spec fn friendbot_send_error_model(timed_out: bool, message: Seq<char>) -> ErrorModel {
    if timed_out {
        ErrorModel::Rpc("Friendbot request timed out: "@ + message)
    } else {
        ErrorModel::Http(message)
    }
}

/// The error (if any) for a Friendbot reply with HTTP `status` and `body`:
/// 429 is a rate limit; any other status outside 200..=299 quotes the code
/// and the start of the body; a success whose body reports a refusal or an
/// error is refused. `None` means funded.
pub open spec fn friendbot_reply_error(status: u16, body: Seq<char>) -> Option<ErrorModel> {
    let quoted = take_chars(body, quoted_body_len());
    if status == 429 {
        Some(ErrorModel::Rpc(rate_limit_text()))
    } else if !(200 <= status <= 299) {
        Some(
            ErrorModel::Rpc(
                "Friendbot returned HTTP "@ + decimal_nat(status as nat) + ": "@ + quoted,
            ),
        )
    } else if contains_seq(body, "insufficient funds for rent exemption"@) || contains_seq(
        body,
        "account is already funded"@,
    ) {
        Some(ErrorModel::Rpc("Friendbot refused: "@ + quoted))
    } else if contains_seq(body, "ERROR"@) || contains_seq(body, "error"@) {
        Some(ErrorModel::Rpc("Friendbot error: "@ + quoted))
    } else {
        None
    }
}

/// Check the Friendbot inputs and build the funding URL.
pub fn friendbot_request_url(friendbot_url: &str, address: &str) -> (r: Result<String, RpcError>)
    ensures
        match r {
            Ok(u) => friendbot_url_outcome(friendbot_url@, address@) == Ok::<Seq<char>, ErrorModel>(u@),
            Err(e) => friendbot_url_outcome(friendbot_url@, address@) == Err::<Seq<char>, ErrorModel>(e@),
        },
{
    let url = trim_str(friendbot_url);
    if url.unicode_len() == 0 {
        return Err(RpcError::Rpc(String::from_str("Friendbot URL is empty")));
    }
    let addr = trim_str(address);
    if addr.unicode_len() == 0 {
        return Err(RpcError::Rpc(String::from_str("Address is empty")));
    }
    let full = url.concat("?addr=").concat(address);
    Ok(full)
}

/// The error for a Friendbot request that could not be sent.
pub fn friendbot_send_error(timed_out: bool, message: &str) -> (e: RpcError)
    ensures
        e@ == friendbot_send_error_model(timed_out, message@),
{
    if timed_out {
        RpcError::Rpc(String::from_str("Friendbot request timed out: ").concat(message))
    } else {
        RpcError::Http(String::from_str(message))
    }
}

/// Decide a Friendbot reply with HTTP `status` and `body` for `address`.
pub fn friendbot_outcome(address: &str, status: u16, body: &str) -> (r: Result<FundResult, RpcError>)
    ensures
        match r {
            Ok(f) => friendbot_reply_error(status, body@) is None && f.address@ == address@
                && f.status@ == "funded"@,
            Err(e) => friendbot_reply_error(status, body@) == Some(e@),
        },
{
    if status == 429 {
        return Err(RpcError::Rpc(String::from_str("Friendbot rate limit exceeded. Wait and try again.")));
    }
    if !(200 <= status && status <= 299) {
        let msg = String::from_str("Friendbot returned HTTP ").concat(
            u64_to_decimal(status as u64).as_str(),
        ).concat(": ").concat(take_chars_str(body, 200).as_str());
        return Err(RpcError::Rpc(msg));
    }
    if contains_str(body, "insufficient funds for rent exemption") || contains_str(
        body,
        "account is already funded",
    ) {
        let msg = String::from_str("Friendbot refused: ").concat(take_chars_str(body, 200).as_str());
        return Err(RpcError::Rpc(msg));
    }
    if contains_str(body, "ERROR") || contains_str(body, "error") {
        let msg = String::from_str("Friendbot error: ").concat(take_chars_str(body, 200).as_str());
        return Err(RpcError::Rpc(msg));
    }
    Ok(FundResult { address: String::from_str(address), status: String::from_str("funded") })
}

} // verus!
