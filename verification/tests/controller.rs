use openclaw_linux::config::GatewayConfig;
use openclaw_linux::node::controller::{
    NodeController, NodeStatus, configured_url, connect_options, record_disconnect, record_stop, status_after_connect,
};
use openclaw_linux::node::runtime::NodeRuntime;
use openclaw_linux::settings::AppSettings;
use openclaw_linux::ui::{NodeStatusView, OnboardingViewState, UiControl};
use std::sync::{Arc, Mutex};

struct QuietUi;

impl UiControl for QuietUi {
    fn set_node_status(&self, _status: NodeStatusView) {}
    fn set_onboarding_state(&self, _state: OnboardingViewState) {}
    fn present_canvas(&self, _url: Option<String>) {}
    fn hide_canvas(&self) {}
    fn navigate_canvas(&self, _url: String) {}
}

#[test]
fn no_url_means_not_configured() {
    let cfg = GatewayConfig { url: Some("   ".to_string()), ..Default::default() };
    match configured_url(&cfg) {
        Err(status) => {
            assert!(!status.connected);
            assert_eq!(status.last_error.as_deref(), Some("Gateway URL not configured"));
        }
        Ok(_) => panic!("no connect expected"),
    }
    assert!(configured_url(&GatewayConfig::default()).is_err());
    let cfg = GatewayConfig { url: Some(" ws://h:1 ".to_string()), ..Default::default() };
    assert_eq!(configured_url(&cfg).ok().as_deref(), Some(" ws://h:1 "));
}

#[test]
fn connect_options_follow_the_settings() {
    let cfg = GatewayConfig { url: Some("ws://127.0.0.1:18789".to_string()), ..Default::default() };
    let settings = AppSettings { canvas_enabled: false, ..AppSettings::default() };
    assert!(configured_url(&cfg).is_ok());
    let o = connect_options(&settings);
    assert_eq!(o.role, "node");
    assert_eq!(o.caps, vec!["screen".to_string()]);
    assert!(o.commands.is_empty());
    assert!(o.permissions.is_empty());
    assert_eq!(o.client_id, "node-host");
    assert_eq!(o.client_mode, "node");
    assert_eq!(o.client_display_name, "OpenClaw Linux");
    let o = connect_options(&AppSettings::default());
    assert_eq!(o.caps, vec!["canvas".to_string(), "screen".to_string()]);
    assert_eq!(o.commands.len(), 3);
}

#[test]
fn status_transitions() {
    let s = status_after_connect(Ok(()));
    assert!(s.connected && s.last_error.is_none());
    let mut s = status_after_connect(Err("refused".to_string()));
    assert!(!s.connected);
    assert_eq!(s.last_error.as_deref(), Some("refused"));
    s.connected = true;
    record_stop(&mut s);
    assert!(!s.connected);
    assert_eq!(s.last_error.as_deref(), Some("refused"));
    let mut s = NodeStatus { connected: true, last_error: None };
    record_disconnect(&mut s, "gateway closed connection".to_string());
    assert!(!s.connected);
    assert_eq!(s.last_error.as_deref(), Some("gateway closed connection"));
}

#[test]
fn controller_shares_its_status() {
    let settings = Arc::new(Mutex::new(AppSettings::default()));
    let runtime = Arc::new(NodeRuntime::new(Arc::new(QuietUi)));
    let controller = NodeController::new(settings.clone(), runtime);
    let status = controller.status();
    assert!(!status.lock().unwrap().connected);
    status.lock().unwrap().connected = true;
    let copy = controller.clone();
    assert!(copy.status().lock().unwrap().connected);
    assert!(Arc::ptr_eq(&controller.settings(), &settings));
}
