use openclaw_linux::node_runtime::{
    BridgeInvokeRequest, CanvasPort, NodeRuntime, describe_canvas_target, parse_canvas_url,
    preview_params,
};
use std::sync::{Arc, Mutex};

#[derive(Default)]
struct FakeCanvasPort {
    present_calls: Mutex<Vec<Option<String>>>,
    hide_calls: Mutex<usize>,
    navigate_calls: Mutex<Vec<String>>,
}

impl CanvasPort for FakeCanvasPort {
    fn present(&self, url: Option<String>) {
        let mut calls = self.present_calls.lock().expect("present calls lock");
        calls.push(url);
    }

    fn hide_canvas(&self) {
        let mut calls = self.hide_calls.lock().expect("hide calls lock");
        *calls += 1;
    }

    fn navigate(&self, url: String) {
        let mut calls = self.navigate_calls.lock().expect("navigate calls lock");
        calls.push(url);
    }
}

#[test]
fn parse_canvas_url_from_object_url() {
    let raw = r#"{"url":"https://example.com"}"#;
    assert_eq!(
        parse_canvas_url(Some(raw), true),
        Some("https://example.com".to_string())
    );
}

#[test]
fn parse_canvas_url_from_object_url_with_inline_html_string() {
    let raw = r#"{"url":"<html><body>hello</body></html>"}"#;
    assert_eq!(
        parse_canvas_url(Some(raw), true),
        Some("<html><body>hello</body></html>".to_string())
    );
}

#[test]
fn parse_canvas_url_rejects_target_alias() {
    let raw = r#"{"target":"https://example.com/a"}"#;
    assert_eq!(parse_canvas_url(Some(raw), true), None);
}

#[test]
fn parse_canvas_url_rejects_nested_params() {
    let raw = r#"{"params":{"url":"https://example.com/nested"}}"#;
    assert_eq!(parse_canvas_url(Some(raw), true), None);
}

#[test]
fn parse_canvas_url_rejects_json_string_payload() {
    let raw = r#""https://example.com/raw""#;
    assert_eq!(parse_canvas_url(Some(raw), true), None);
}

#[test]
fn parse_canvas_url_rejects_non_json_literal() {
    let raw = "<html><body>hello</body></html>";
    assert_eq!(parse_canvas_url(Some(raw), false), None);
}

#[test]
fn parse_canvas_url_trims_the_url_and_the_parameters() {
    let raw = "  {\"url\":\"  https://example.com/x \"}  ";
    assert_eq!(
        parse_canvas_url(Some(raw), true),
        Some("https://example.com/x".to_string())
    );
    assert_eq!(parse_canvas_url(Some("   "), true), None);
    assert_eq!(parse_canvas_url(None, true), None);
    assert_eq!(parse_canvas_url(Some(r#"{"url":"   "}"#), true), None);
}

#[test]
fn runtime_routes_commands_to_canvas_port() {
    let canvas = Arc::new(FakeCanvasPort::default());
    let runtime = NodeRuntime::new(canvas.clone());

    let present = runtime.handle_invoke(BridgeInvokeRequest {
        id: "1".to_string(),
        command: "canvas.present".to_string(),
        params_json: Some(r#"{"url":"https://example.com"}"#.to_string()),
    });
    assert!(present.ok);

    let hide = runtime.handle_invoke(BridgeInvokeRequest {
        id: "2".to_string(),
        command: "canvas.hide".to_string(),
        params_json: None,
    });
    assert!(hide.ok);

    let navigate = runtime.handle_invoke(BridgeInvokeRequest {
        id: "3".to_string(),
        command: "canvas.navigate".to_string(),
        params_json: Some(r#"{"url":"https://example.com/nav"}"#.to_string()),
    });
    assert!(navigate.ok);

    let present_calls = canvas.present_calls.lock().expect("present lock");
    assert_eq!(
        present_calls.as_slice(),
        &[Some("https://example.com".to_string())]
    );
    drop(present_calls);

    let hide_calls = canvas.hide_calls.lock().expect("hide lock");
    assert_eq!(*hide_calls, 1);
    drop(hide_calls);

    let navigate_calls = canvas.navigate_calls.lock().expect("navigate lock");
    assert_eq!(
        navigate_calls.as_slice(),
        &["https://example.com/nav".to_string()]
    );
}

#[test]
fn present_without_url_still_calls_present_with_none() {
    let canvas = Arc::new(FakeCanvasPort::default());
    let runtime = NodeRuntime::new(canvas.clone());

    let res = runtime.handle_invoke(BridgeInvokeRequest {
        id: "p-none".to_string(),
        command: "canvas.present".to_string(),
        params_json: None,
    });
    assert!(res.ok);

    let present_calls = canvas.present_calls.lock().expect("present lock");
    assert_eq!(present_calls.as_slice(), &[None]);
}

#[test]
fn navigate_missing_url_returns_invalid_request_and_does_not_navigate() {
    let canvas = Arc::new(FakeCanvasPort::default());
    let runtime = NodeRuntime::new(canvas.clone());

    let res = runtime.handle_invoke(BridgeInvokeRequest {
        id: "n-missing".to_string(),
        command: "canvas.navigate".to_string(),
        params_json: Some("{}".to_string()),
    });
    assert!(!res.ok);
    let err = res.error.expect("navigate should return error");
    assert_eq!(err.code, "invalid_request");
    assert!(err.message.contains("url required"));

    let navigate_calls = canvas.navigate_calls.lock().expect("navigate lock");
    assert!(navigate_calls.is_empty());
}

#[test]
fn unknown_command_returns_invalid_request() {
    let canvas = Arc::new(FakeCanvasPort::default());
    let runtime = NodeRuntime::new(canvas);

    let res = runtime.handle_invoke(BridgeInvokeRequest {
        id: "unknown".to_string(),
        command: "canvas.nonexistent".to_string(),
        params_json: None,
    });
    assert!(!res.ok);
    let err = res.error.expect("unknown command should return error");
    assert_eq!(err.code, "invalid_request");
    assert!(err.message.contains("unknown command"));
}

#[test]
fn responses_carry_the_request_id() {
    let canvas = Arc::new(FakeCanvasPort::default());
    let runtime = NodeRuntime::new(canvas);
    for (id, command) in [("a", "canvas.present"), ("b", "canvas.hide"), ("c", "bogus"), ("d", "canvas.eval")] {
        let res = runtime.handle_invoke(BridgeInvokeRequest {
            id: id.to_string(),
            command: command.to_string(),
            params_json: None,
        });
        assert_eq!(res.id, id);
    }
}

#[test]
fn unimplemented_canvas_command_is_unavailable() {
    let canvas = Arc::new(FakeCanvasPort::default());
    let runtime = NodeRuntime::new(canvas.clone());
    let res = runtime.handle_invoke(BridgeInvokeRequest {
        id: "s".to_string(),
        command: "canvas.snapshot".to_string(),
        params_json: None,
    });
    assert!(!res.ok);
    let err = res.error.expect("error");
    assert_eq!(err.code, "unavailable");
    assert!(canvas.present_calls.lock().unwrap().is_empty());
}

#[test]
fn preview_puts_parameters_on_one_line_and_cuts_them() {
    assert_eq!(preview_params("a\nb"), "a b");
    let long = "x".repeat(300);
    assert_eq!(preview_params(&long), format!("{}... (len=300)", "x".repeat(180)));
    let exact = "y".repeat(180);
    assert_eq!(preview_params(&exact), exact);
}

#[test]
fn describe_canvas_target_cases() {
    assert_eq!(describe_canvas_target(None), "(none)");
    assert_eq!(describe_canvas_target(Some("   ")), "(empty)");
    assert_eq!(describe_canvas_target(Some(" <html></html> ")), "<inline-html len=13>");
    assert_eq!(describe_canvas_target(Some(" https://example.com ")), "https://example.com");
    let long = "z".repeat(200);
    assert_eq!(describe_canvas_target(Some(&long)), format!("{}... (len=200)", "z".repeat(160)));
}

#[test]
fn advertised_commands_are_all_handled() {
    let canvas = Arc::new(FakeCanvasPort::default());
    let runtime = NodeRuntime::new(canvas);
    for command in openclaw_linux::node::caps::current_commands(true) {
        let res = runtime.handle_invoke(BridgeInvokeRequest {
            id: command.clone(),
            command: command.clone(),
            params_json: Some(r#"{"url":"https://example.com"}"#.to_string()),
        });
        assert!(res.ok, "{command} should be handled");
    }
}
