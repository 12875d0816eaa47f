use sdkt_rpc::client::{
    friendbot_outcome, friendbot_request_url, friendbot_send_error, interpret_reply,
    HealthCheck, JsonRpcError, JsonRpcResponse, NetworkConfig, RequestAction, RequestEvent,
    RequestPhase, RequestRetry, RpcParams, SorobanRpcClient,
};
use sdkt_rpc::error::RpcError;
use sdkt_rpc::text::{
    contains_str, i64_to_decimal, take_chars_str, trim_end_matches_char, trim_str,
    u64_to_decimal,
};

const ADDRESS: &str = "GAAAAAAAAAAAAAAAAAAAAAAAAAAAAAAAAAAAAAAAAAAAAAAAAAAAAWHF";

fn message(e: &RpcError) -> String {
    e.message()
}

#[test]
fn new_sets_endpoint() {
    let c = SorobanRpcClient::new("http://localhost:8000");
    assert_eq!(c.endpoint(), "http://localhost:8000");
}

#[test]
fn from_config_sets_endpoint() {
    let cfg = NetworkConfig {
        rpc_url: "https://custom.example.com".to_string(),
        passphrase: "test".to_string(),
        timeout_secs: None,
        pool_max_idle_per_host: None,
    };
    let c = SorobanRpcClient::from_config(&cfg);
    assert_eq!(c.endpoint(), "https://custom.example.com");
    assert_eq!(c.timeout_secs(), None);
    assert_eq!(c.pool_max_idle_per_host(), None);
}

#[test]
fn new_uses_default_pool_settings() {
    let c = SorobanRpcClient::new("http://localhost:8000");
    assert_eq!(c.timeout_secs(), Some(15));
    assert_eq!(c.pool_max_idle_per_host(), Some(100));
    assert_eq!(c.pool_idle_timeout_secs(), 60);
}

#[test]
fn endpoint_trailing_slashes_are_removed() {
    let c = SorobanRpcClient::with_options("https://rpc.example.org///", Some(3), Some(7));
    assert_eq!(c.endpoint(), "https://rpc.example.org");
    assert_eq!(c.timeout_secs(), Some(3));
    assert_eq!(c.pool_max_idle_per_host(), Some(7));
    let again = SorobanRpcClient::new(c.endpoint());
    assert_eq!(again.endpoint(), c.endpoint());
    assert_eq!(SorobanRpcClient::new("///").endpoint(), "");
}

#[test]
fn get_ledger_entries_request_uses_keys_object() {
    let keys = vec!["AAAA".to_string()];
    let c = SorobanRpcClient::new("http://localhost:8000");
    let call = c.get_contract_storage("CONTRACT", &keys);
    assert_eq!(call.method, "getLedgerEntries");
    match call.params {
        RpcParams::LedgerKeys(ks) => assert_eq!(ks, vec!["AAAA".to_string()]),
        _ => panic!("keys must be sent as an object with a keys field"),
    }
}

#[test]
fn request_does_not_send_gzip_encoding_header() {
    let c = SorobanRpcClient::new("http://127.0.0.1:9");
    let call = c.get_health();
    assert_eq!(call.accept_encoding, "identity");
    assert!(!call.accept_encoding.contains("gzip"));
    assert!(!call.accept_encoding.contains("deflate"));
    assert_eq!(call.method, "getHealth");
    assert_eq!(call.jsonrpc, "2.0");
    assert_eq!(call.id, 1);
    assert_eq!(call.url, "http://127.0.0.1:9");
}

#[test]
fn get_ledger_call() {
    let call = SorobanRpcClient::new("http://h/").get_ledger();
    assert_eq!(call.method, "getLatestLedger");
    assert_eq!(call.url, "http://h");
    assert!(matches!(call.params, RpcParams::Empty));
}

#[test]
fn fund_account_success() {
    let url = friendbot_request_url("http://127.0.0.1:4000", ADDRESS).unwrap();
    assert!(url.contains("addr=GAAAAAAAAAAAAAAAAAAAAAAAAAAAAAAAAAAAAAAAAAAAAAAAAAAAAWHF"));
    let result = friendbot_outcome(ADDRESS, 200, r#"{"hash":"abc123","ledger":12345}"#).unwrap();
    assert_eq!(result.address, "GAAAAAAAAAAAAAAAAAAAAAAAAAAAAAAAAAAAAAAAAAAAAAAAAAAAAWHF");
    assert_eq!(result.status, "funded");
}

#[test]
fn fund_account_http_500() {
    let err = friendbot_outcome(ADDRESS, 500, r#"{"error":"internal"}"#).unwrap_err();
    assert!(message(&err).contains("500"));
}

#[test]
fn fund_account_rate_limit() {
    let err = friendbot_outcome(ADDRESS, 429, r#"{"error":"rate limited"}"#).unwrap_err();
    assert!(message(&err).contains("rate limit"));
}

#[test]
fn fund_account_empty_url_rejected() {
    let err = friendbot_request_url("", ADDRESS).unwrap_err();
    assert!(message(&err).contains("empty"));
}

#[test]
fn fund_account_empty_address_rejected() {
    let err = friendbot_request_url("http://localhost", "").unwrap_err();
    assert!(message(&err).contains("empty"));
}

#[test]
fn fund_account_malformed_response() {
    let err = friendbot_outcome(
        ADDRESS,
        200,
        r#"{"status":"ERROR","message":"internal failure"}"#,
    )
    .unwrap_err();
    assert!(message(&err).contains("error") || message(&err).contains("Error"));
}

#[test]
fn fund_account_http_4xx() {
    let err = friendbot_outcome(ADDRESS, 400, r#"{"error":"bad request"}"#).unwrap_err();
    assert!(message(&err).contains("400"));
}

#[test]
fn friendbot_url_is_trimmed_address_kept() {
    let url = friendbot_request_url("  https://friendbot.stellar.org \n", ADDRESS).unwrap();
    assert_eq!(url, format!("https://friendbot.stellar.org?addr={}", ADDRESS));
    let err = friendbot_request_url(" \t", ADDRESS).unwrap_err();
    assert_eq!(message(&err), "Friendbot URL is empty");
    let err = friendbot_request_url("   ", "   ").unwrap_err();
    assert_eq!(message(&err), "Friendbot URL is empty");
    let err = friendbot_request_url("http://x", "\u{3000}").unwrap_err();
    assert_eq!(message(&err), "Address is empty");
}

#[test]
fn friendbot_error_messages_quote_at_most_200_chars() {
    let body = "x".repeat(300);
    let err = friendbot_outcome(ADDRESS, 503, &body).unwrap_err();
    assert_eq!(message(&err), format!("Friendbot returned HTTP 503: {}", "x".repeat(200)));
    let err = friendbot_outcome(ADDRESS, 429, &body).unwrap_err();
    assert_eq!(message(&err), "Friendbot rate limit exceeded. Wait and try again.");
}

#[test]
fn friendbot_refusals() {
    let err = friendbot_outcome(ADDRESS, 200, "op: account is already funded").unwrap_err();
    assert_eq!(message(&err), "Friendbot refused: op: account is already funded");
    let err =
        friendbot_outcome(ADDRESS, 201, "insufficient funds for rent exemption").unwrap_err();
    assert!(message(&err).starts_with("Friendbot refused: "));
    let err = friendbot_outcome(ADDRESS, 299, "some error happened").unwrap_err();
    assert_eq!(message(&err), "Friendbot error: some error happened");
    let ok = friendbot_outcome(ADDRESS, 204, "Err0r-free").unwrap();
    assert_eq!(ok.status, "funded");
}

#[test]
fn friendbot_send_errors() {
    let e = friendbot_send_error(true, "deadline");
    assert_eq!(message(&e), "Friendbot request timed out: deadline");
    assert!(matches!(e, RpcError::Rpc(_)));
    let e = friendbot_send_error(false, "refused");
    assert!(matches!(e, RpcError::Http(ref m) if m == "refused"));
}

#[test]
fn reply_error_takes_precedence() {
    let reply = JsonRpcResponse {
        result: Some(HealthCheck { status: "ok".to_string() }),
        error: Some(JsonRpcError { message: "boom".to_string() }),
    };
    let err = interpret_reply(reply).unwrap_err();
    assert!(matches!(err, RpcError::Rpc(ref m) if m == "boom"));
    let reply: JsonRpcResponse<HealthCheck> = JsonRpcResponse { result: None, error: None };
    let err = interpret_reply(reply).unwrap_err();
    assert_eq!(message(&err), "Missing result in JSON-RPC response");
    let reply = JsonRpcResponse { result: Some(HealthCheck { status: "ok".to_string() }), error: None };
    assert_eq!(interpret_reply(reply).unwrap().status, "ok");
}

fn is_send(a: &RequestAction<HealthCheck>) -> bool {
    matches!(a, RequestAction::Send)
}

#[test]
fn request_retries_once_after_timeout() {
    let mut r = RequestRetry::new();
    assert!(is_send(&r.step(RequestEvent::Begin)));
    let a = r.step::<HealthCheck>(RequestEvent::SendFailed { retryable: true, message: "t1".to_string() });
    assert!(matches!(a, RequestAction::Sleep { millis: 500 }));
    assert!(is_send(&r.step(RequestEvent::PauseElapsed)));
    let a = r.step::<HealthCheck>(RequestEvent::SendFailed { retryable: true, message: "t2".to_string() });
    assert!(matches!(a, RequestAction::Sleep { millis: 500 }));
    match r.step::<HealthCheck>(RequestEvent::PauseElapsed) {
        RequestAction::Finish(Err(RpcError::Http(m))) => assert_eq!(m, "t2"),
        other => panic!("unexpected {:?}", other),
    }
    assert_eq!(r.phase(), RequestPhase::Done);
    assert_eq!(r.failed_attempts(), 2);
    // A finished request ignores further events.
    assert!(matches!(r.step::<HealthCheck>(RequestEvent::Begin), RequestAction::Nothing));
}

#[test]
fn request_succeeds_after_one_retry() {
    let mut r = RequestRetry::new();
    assert!(is_send(&r.step(RequestEvent::Begin)));
    r.step::<HealthCheck>(RequestEvent::SendFailed { retryable: true, message: "timeout".to_string() });
    assert!(is_send(&r.step(RequestEvent::PauseElapsed)));
    let reply = JsonRpcResponse { result: Some(HealthCheck { status: "healthy".to_string() }), error: None };
    match r.step(RequestEvent::Replied { status: 200, reply }) {
        RequestAction::Finish(Ok(h)) => assert_eq!(h.status, "healthy"),
        other => panic!("unexpected {:?}", other),
    }
}

#[test]
fn request_does_not_retry_other_failures() {
    let mut r = RequestRetry::new();
    assert!(is_send(&r.step(RequestEvent::Begin)));
    match r.step::<HealthCheck>(RequestEvent::SendFailed { retryable: false, message: "bad url".to_string() }) {
        RequestAction::Finish(Err(RpcError::Http(m))) => assert_eq!(m, "bad url"),
        other => panic!("unexpected {:?}", other),
    }
    let mut r = RequestRetry::new();
    r.step::<HealthCheck>(RequestEvent::Begin);
    match r.step::<HealthCheck>(RequestEvent::ReplyUnreadable { status: 502, message: "not json".to_string() }) {
        RequestAction::Finish(Err(RpcError::Http(m))) => assert_eq!(m, "not json"),
        other => panic!("unexpected {:?}", other),
    }
}

#[test]
fn request_ignores_out_of_order_events() {
    let mut r = RequestRetry::new();
    assert!(matches!(r.step::<HealthCheck>(RequestEvent::PauseElapsed), RequestAction::Nothing));
    assert_eq!(r.phase(), RequestPhase::Ready);
}

#[test]
fn text_operations_match_std() {
    for s in ["", "  a b  ", "\u{2003}x\u{85}", "\t\n", "abc"] {
        assert_eq!(trim_str(s), s.trim());
    }
    assert_eq!(trim_end_matches_char("a//", '/'), "a//".trim_end_matches('/'));
    assert!(contains_str("hello world", "o w"));
    assert!(contains_str("abc", ""));
    assert!(!contains_str("ab", "abc"));
    assert!(!contains_str("aXb", "ab"));
    assert_eq!(take_chars_str("héllo", 2), "hé");
    assert_eq!(take_chars_str("hi", 200), "hi");
    for n in [0u64, 7, 10, 429, u64::MAX] {
        assert_eq!(u64_to_decimal(n), n.to_string());
    }
    for n in [0i64, -1, 12345, i64::MIN, i64::MAX] {
        assert_eq!(i64_to_decimal(n), n.to_string());
    }
}

#[test]
fn error_messages() {
    assert_eq!(RpcError::SequenceOverflow.message(), "Sequence number overflow");
    assert_eq!(RpcError::Http("h".to_string()).message(), "h");
}

#[test]
fn reply_outcome_ignores_http_status() {
    let mut outcomes = Vec::new();
    for status in [200u16, 500u16] {
        let mut r = RequestRetry::new();
        r.step::<HealthCheck>(RequestEvent::Begin);
        let reply = JsonRpcResponse { result: Some(HealthCheck { status: "ok".to_string() }), error: None };
        match r.step(RequestEvent::Replied { status, reply }) {
            RequestAction::Finish(Ok(h)) => outcomes.push(h.status),
            other => panic!("unexpected {:?}", other),
        }
    }
    assert_eq!(outcomes, vec!["ok".to_string(), "ok".to_string()]);
}

#[test]
fn request_frames_json_params() {
    let c = SorobanRpcClient::new("http://h");
    let call = c.request("getEvents", RpcParams::Json(r#"{"startLedger":1}"#.to_string()));
    assert_eq!(call.method, "getEvents");
    match call.params {
        RpcParams::Json(text) => assert_eq!(text, r#"{"startLedger":1}"#),
        _ => panic!("params must be kept as given"),
    }
}

#[test]
fn cloned_client_keeps_endpoint() {
    let c = SorobanRpcClient::with_options("http://h//", None, Some(1));
    let d = c.clone();
    assert_eq!(d.endpoint(), "http://h");
    assert_eq!(d.pool_max_idle_per_host(), Some(1));
}
