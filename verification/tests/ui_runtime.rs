use openclaw_linux::node::runtime::NodeRuntime;
use openclaw_linux::node_runtime::BridgeInvokeRequest;
use openclaw_linux::ui::{NodeStatusView, OnboardingViewState, UiControl};
use std::sync::{Arc, Mutex};

#[derive(Default)]
struct FakeUiControl {
    statuses: Mutex<Vec<NodeStatusView>>,
    present_calls: Mutex<Vec<Option<String>>>,
    hide_calls: Mutex<usize>,
    navigate_calls: Mutex<Vec<String>>,
}

impl UiControl for FakeUiControl {
    fn set_node_status(&self, status: NodeStatusView) {
        let mut statuses = self.statuses.lock().expect("status lock");
        statuses.push(status);
    }

    fn set_onboarding_state(&self, _state: OnboardingViewState) {}

    fn present_canvas(&self, url: Option<String>) {
        let mut calls = self.present_calls.lock().expect("present lock");
        calls.push(url);
    }

    fn hide_canvas(&self) {
        let mut calls = self.hide_calls.lock().expect("hide lock");
        *calls += 1;
    }

    fn navigate_canvas(&self, url: String) {
        let mut calls = self.navigate_calls.lock().expect("navigate lock");
        calls.push(url);
    }
}

#[test]
fn runtime_maps_present_to_ui_control() {
    let ui = Arc::new(FakeUiControl::default());
    let runtime = NodeRuntime::new(ui.clone());

    let res = runtime.handle_invoke(BridgeInvokeRequest {
        id: "p".to_string(),
        command: "canvas.present".to_string(),
        params_json: Some(r#"{"url":"https://example.com"}"#.to_string()),
    });
    assert!(res.ok);

    let present_calls = ui.present_calls.lock().expect("present lock");
    assert_eq!(
        present_calls.as_slice(),
        &[Some("https://example.com".to_string())]
    );
}

#[test]
fn runtime_maps_hide_to_ui_control() {
    let ui = Arc::new(FakeUiControl::default());
    let runtime = NodeRuntime::new(ui.clone());

    let res = runtime.handle_invoke(BridgeInvokeRequest {
        id: "h".to_string(),
        command: "canvas.hide".to_string(),
        params_json: None,
    });
    assert!(res.ok);

    let hide_calls = ui.hide_calls.lock().expect("hide lock");
    assert_eq!(*hide_calls, 1);
}

#[test]
fn runtime_maps_navigate_to_ui_control() {
    let ui = Arc::new(FakeUiControl::default());
    let runtime = NodeRuntime::new(ui.clone());

    let res = runtime.handle_invoke(BridgeInvokeRequest {
        id: "n".to_string(),
        command: "canvas.navigate".to_string(),
        params_json: Some(r#"{"url":"https://example.com/nav"}"#.to_string()),
    });
    assert!(res.ok);

    let navigate_calls = ui.navigate_calls.lock().expect("navigate lock");
    assert_eq!(
        navigate_calls.as_slice(),
        &["https://example.com/nav".to_string()]
    );
}
