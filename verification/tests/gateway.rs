use openclaw_linux::config::{GatewayConfig, GatewayMode};
use openclaw_linux::frames::{build_request_frame, response_error_message};
use openclaw_linux::gateway_process::{
    gateway_log_path, gateway_run_args, needs_generated_token, needs_local_gateway,
    start_timeout_message,
};
use openclaw_linux::gateway_rpc::{
    check_health, is_response_frame, new_request_id, operator_connect_request, request_id,
    response_outcome, responds_to, rpc_target, socket_url, FrameRead, read_frame,
};
use openclaw_linux::json::JsonValue;

fn s(x: &str) -> String {
    x.to_string()
}

fn obj(members: Vec<(&str, JsonValue)>) -> JsonValue {
    JsonValue::Object(members.into_iter().map(|(k, v)| (k.to_string(), v)).collect())
}

#[test]
fn request_frames() {
    assert_eq!(
        build_request_frame("req-1", "health", None),
        obj(vec![
            ("type", JsonValue::Str(s("req"))),
            ("id", JsonValue::Str(s("req-1"))),
            ("method", JsonValue::Str(s("health"))),
        ])
    );
    let f = build_request_frame("c", "wizard.start", Some(obj(vec![("mode", JsonValue::Str(s("local")))])));
    match f {
        JsonValue::Object(ms) => {
            assert_eq!(ms.len(), 4);
            assert_eq!(ms[3].0, "params");
        }
        _ => panic!("object expected"),
    }
    assert_eq!(request_id("req", 12345), "req-12345");
    assert_eq!(request_id("connect", 0), "connect-0");
}

#[test]
fn responses() {
    assert!(is_response_frame(&obj(vec![("type", JsonValue::Str(s("res")))])));
    assert!(!is_response_frame(&obj(vec![("type", JsonValue::Str(s("event")))])));
    assert!(!is_response_frame(&JsonValue::Null));
    let ok = response_outcome(true, None, None, "gateway request failed");
    assert_eq!(ok, Ok(JsonValue::Null));
    let ok = response_outcome(true, Some(JsonValue::Bool(true)), None, "x");
    assert_eq!(ok, Ok(JsonValue::Bool(true)));
    let err = obj(vec![("message", JsonValue::Str(s("denied")))]);
    assert_eq!(response_outcome(false, None, Some(&err), "gateway request failed"), Err(s("denied")));
    assert_eq!(
        response_outcome(false, None, None, "gateway connect failed"),
        Err(s("gateway connect failed"))
    );
    assert_eq!(response_error_message(Some(&JsonValue::Str(s("x"))), "fallback"), "fallback");
}

#[test]
fn health_fails_only_on_ok_false() {
    assert_eq!(check_health(&obj(vec![("ok", JsonValue::Bool(true))])), Ok(()));
    assert_eq!(check_health(&JsonValue::Null), Ok(()));
    assert_eq!(check_health(&obj(vec![("ok", JsonValue::Str(s("no")))])), Ok(()));
    assert_eq!(
        check_health(&obj(vec![("ok", JsonValue::Bool(false))])),
        Err(s("Gateway health check failed"))
    );
}

#[test]
fn operator_connect_uses_token_before_password() {
    let cfg = GatewayConfig { token: Some(s("t")), password: Some(s("p")), ..Default::default() };
    let p = operator_connect_request(&cfg);
    let JsonValue::Object(ms) = p else { panic!("object") };
    let auth = ms.iter().find(|(k, _)| k == "auth").map(|(_, v)| v.clone());
    assert_eq!(auth, Some(obj(vec![("token", JsonValue::Str(s("t")))])));
    let role = ms.iter().find(|(k, _)| k == "role").map(|(_, v)| v.clone());
    assert_eq!(role, Some(JsonValue::Str(s("operator"))));
    let cfg = GatewayConfig { password: Some(s("p")), ..Default::default() };
    let JsonValue::Object(ms) = operator_connect_request(&cfg) else { panic!("object") };
    let auth = ms.iter().find(|(k, _)| k == "auth").map(|(_, v)| v.clone());
    assert_eq!(auth, Some(obj(vec![("password", JsonValue::Str(s("p")))])));
    let JsonValue::Object(ms) = operator_connect_request(&GatewayConfig::default()) else { panic!("object") };
    assert!(ms.iter().all(|(k, _)| k != "auth"));
}

#[test]
fn local_gateway_process() {
    let cfg = GatewayConfig { mode: GatewayMode::Local, ..Default::default() };
    assert!(needs_local_gateway(&cfg));
    assert!(needs_generated_token(&cfg));
    let remote = GatewayConfig { mode: GatewayMode::Remote, token: Some(s("x")), ..Default::default() };
    assert!(!needs_local_gateway(&remote));
    assert!(!needs_generated_token(&remote));
    assert_eq!(
        gateway_run_args(18789),
        vec!["gateway", "run", "--bind", "loopback", "--port", "18789", "--force"]
    );
    assert_eq!(gateway_log_path(), "/tmp/openclaw/openclaw-linux-gateway.log");
    assert_eq!(
        start_timeout_message(),
        "Local gateway did not become ready in time. Check logs at /tmp/openclaw/openclaw-linux-gateway.log."
    );
}

#[test]
fn fresh_request_ids_carry_the_prefix_and_a_time() {
    let id = new_request_id("req");
    assert!(id.starts_with("req-"));
    let digits = &id["req-".len()..];
    assert!(!digits.is_empty() && digits.chars().all(|c| c.is_ascii_digit()));
    assert!(digits.parse::<u128>().unwrap() > 1_600_000_000_000_000_000);
}

#[test]
fn gateway_urls_are_parsed_before_connecting() {
    assert_eq!(rpc_target(&GatewayConfig::default()), Err(s("Gateway URL not configured")));
    let cfg = GatewayConfig { url: Some(s("ws://127.0.0.1:18789")), ..Default::default() };
    assert_eq!(rpc_target(&cfg), Ok(s("ws://127.0.0.1:18789/")));
    assert_eq!(socket_url("WSS://Gateway.Example.ts.net:443/path"), Ok(s("wss://gateway.example.ts.net/path")));
    assert!(socket_url("not a url").is_err());
}

#[test]
fn frames_read_while_waiting_for_a_response() {
    match read_frame(r#"{"type":"res","id":"req-1","ok":true}"#) {
        FrameRead::Response(v) => {
            assert_eq!(v.get("id"), Some(&JsonValue::Str(s("req-1"))));
            assert_eq!(v.get("ok"), Some(&JsonValue::Bool(true)));
        }
        _ => panic!("response expected"),
    }
    assert!(matches!(read_frame(r#"{"type":"event","event":"tick"}"#), FrameRead::NotResponse));
    assert!(matches!(read_frame("[1, 2]"), FrameRead::NotResponse));
    match read_frame("not json") {
        FrameRead::Unreadable(e) => assert!(!e.is_empty()),
        _ => panic!("unreadable expected"),
    }
}

#[test]
fn responds_to_matches_string_id() {
    let frame = obj(vec![("type", JsonValue::Str(s("res"))), ("id", JsonValue::Str(s("op-7")))]);
    assert!(responds_to(&frame, "op-7"));
    assert!(!responds_to(&frame, "op-8"));
    let no_id = obj(vec![("type", JsonValue::Str(s("res")))]);
    assert!(!responds_to(&no_id, "op-7"));
    let num_id = obj(vec![("id", JsonValue::Number(s("7")))]);
    assert!(!responds_to(&num_id, "7"));
}

#[test]
fn empty_frame_text_is_unreadable() {
    assert!(matches!(read_frame(""), FrameRead::Unreadable(_)));
}
