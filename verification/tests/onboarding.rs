use openclaw_linux::config::{GatewayConfig, GatewayMode};
use openclaw_linux::json::JsonValue;
use openclaw_linux::onboarding::{
    OnboardingEffect, OnboardingFlow, OnboardingOutcome, Pending, WizardNextResult,
    WizardStartResult, WizardStep, WizardStepOption, is_wizard_session_lost, map_step_type,
    map_wizard_step, runtime_plan, wizard_submit_params,
};
use openclaw_linux::settings::AppSettings;
use openclaw_linux::ui::{ConnectionMode, OnboardingPage, OnboardingViewState, OnboardingWizardStepType, UiEvent};

fn due() -> AppSettings {
    AppSettings::default()
}

fn shown(effects: &[OnboardingEffect], i: usize) -> OnboardingViewState {
    match &effects[i] {
        OnboardingEffect::Show(v) => v.clone(),
        _ => panic!("effect {i} is not Show"),
    }
}

fn s(x: &str) -> String {
    x.to_string()
}

fn started_flow(mode: GatewayMode) -> OnboardingFlow {
    let mut flow = OnboardingFlow::new();
    let config = GatewayConfig { mode, ..Default::default() };
    let effects = flow.bootstrap(&config, &due());
    assert_eq!(effects.len(), 1);
    flow
}

fn step(id: &str) -> WizardStep {
    WizardStep {
        id: s(id),
        step_type: s("text"),
        title: Some(s("Title")),
        message: None,
        options: None,
        initial_value: None,
        placeholder: Some(s("type here")),
        sensitive: None,
    }
}

/// A flow on the wizard page with a running session and a step.
fn flow_in_wizard() -> OnboardingFlow {
    let mut flow = started_flow(GatewayMode::Local);
    flow.handle_event(UiEvent::OnboardingSelectMode(ConnectionMode::Local));
    flow.handle_event(UiEvent::OnboardingNext);
    let e = flow.handle_event(UiEvent::OnboardingNext);
    assert!(matches!(e.as_slice(), [OnboardingEffect::Persist(_)]));
    let e = flow.resume(OnboardingOutcome::Persisted(Ok(())));
    assert_eq!(e.len(), 2);
    assert!(matches!(e[1], OnboardingEffect::Persist(_)));
    let e = flow.resume(OnboardingOutcome::Persisted(Ok(())));
    assert!(matches!(e.as_slice(), [OnboardingEffect::EnsureLocalGateway]));
    let e = flow.resume(OnboardingOutcome::GatewayReady(Ok(())));
    assert!(matches!(e.as_slice(), [OnboardingEffect::StartWizard]));
    let e = flow.resume(OnboardingOutcome::WizardStarted(Ok(WizardStartResult {
        session_id: s("sess-1"),
        done: false,
        step: Some(step("step-1")),
        status: Some(s("running")),
        error: None,
    })));
    assert_eq!(e.len(), 1);
    flow
}

#[test]
fn bootstrap_shows_welcome_when_onboarding_is_due() {
    let mut flow = OnboardingFlow::new();
    let config = GatewayConfig {
        mode: GatewayMode::Remote,
        remote_url: Some(s("wss://gw")),
        ..Default::default()
    };
    let effects = flow.bootstrap(&config, &due());
    assert_eq!(effects.len(), 1);
    let v = shown(&effects, 0);
    assert!(v.visible);
    assert_eq!(v.page, OnboardingPage::Welcome);
    assert_eq!(v.mode, ConnectionMode::Remote);
    assert_eq!(v.remote_url, "wss://gw");
    assert_eq!(v.remote_target, "");
    assert_eq!(
        v.status_message.as_deref(),
        Some("Use a reachable remote Gateway URL (for example wss://gateway.example.ts.net).")
    );
    assert!(!v.can_go_back);
    assert!(v.can_go_next);
    assert_eq!(v.next_label, "Next");
    assert!(!flow.runtime_started);
}

#[test]
fn bootstrap_starts_runtime_when_onboarding_was_seen() {
    let mut flow = OnboardingFlow::new();
    let mut settings = AppSettings::default();
    settings.mark_onboarding_seen();
    let effects = flow.bootstrap(&GatewayConfig::default(), &settings);
    assert_eq!(effects.len(), 2);
    assert!(!shown(&effects, 0).visible);
    assert!(matches!(effects[1], OnboardingEffect::StartRuntime));
    assert!(flow.runtime_started);
    // hidden onboarding ignores events
    assert!(flow.handle_event(UiEvent::OnboardingNext).is_empty());
}

#[test]
fn older_onboarding_version_shows_onboarding_again() {
    let settings = AppSettings { onboarding_seen: true, onboarding_version: 0, ..AppSettings::default() };
    assert!(settings.should_show_onboarding());
    let mut flow = OnboardingFlow::new();
    let effects = flow.bootstrap(&GatewayConfig::default(), &settings);
    assert_eq!(effects.len(), 1);
    assert!(flow.state.visible);
}

#[test]
fn remote_mode_requires_a_url() {
    let mut flow = started_flow(GatewayMode::Unconfigured);
    let e = flow.handle_event(UiEvent::OnboardingSelectMode(ConnectionMode::Remote));
    assert_eq!(e.len(), 1);
    let e = flow.handle_event(UiEvent::OnboardingNext);
    assert_eq!(shown(&e, 0).page, OnboardingPage::Connection);
    assert!(shown(&e, 0).can_go_back);
    flow.handle_event(UiEvent::OnboardingRemoteUrlChanged(s("   ")));
    let e = flow.handle_event(UiEvent::OnboardingNext);
    let v = shown(&e, 0);
    assert_eq!(v.page, OnboardingPage::Connection);
    assert_eq!(v.status_message.as_deref(), Some("Remote mode requires a Gateway URL."));
    assert_eq!(flow.pending, Pending::Idle);
}

#[test]
fn remote_choice_is_written_then_permissions_follow() {
    let mut flow = started_flow(GatewayMode::Unconfigured);
    flow.handle_event(UiEvent::OnboardingSelectMode(ConnectionMode::Remote));
    flow.handle_event(UiEvent::OnboardingNext);
    flow.handle_event(UiEvent::OnboardingRemoteUrlChanged(s("  wss://gw.example  ")));
    flow.handle_event(UiEvent::OnboardingRemoteTargetChanged(s("")));
    flow.handle_event(UiEvent::OnboardingRemoteIdentityChanged(s(" key ")));
    let e = flow.handle_event(UiEvent::OnboardingNext);
    match e.as_slice() {
        [OnboardingEffect::Persist(u)] => {
            assert_eq!(u.mode, GatewayMode::Remote);
            assert_eq!(u.remote_url.as_deref(), Some("wss://gw.example"));
            assert_eq!(u.remote_target, None);
            assert_eq!(u.remote_identity.as_deref(), Some("key"));
        }
        _ => panic!("persist expected"),
    }
    assert_eq!(flow.pending, Pending::PersistForNext);
    // events wait while the write is under way
    assert!(flow.handle_event(UiEvent::OnboardingBack).is_empty());
    let e = flow.resume(OnboardingOutcome::Persisted(Ok(())));
    let v = shown(&e, 0);
    assert_eq!(v.page, OnboardingPage::Permissions);
    assert_eq!(v.status_message, None);
    assert_eq!(flow.pending, Pending::Idle);
    // Back from the permissions in remote mode goes to the connection page
    let e = flow.handle_event(UiEvent::OnboardingBack);
    assert_eq!(shown(&e, 0).page, OnboardingPage::Connection);
}

#[test]
fn failed_write_is_shown_on_the_connection_page() {
    let mut flow = started_flow(GatewayMode::Unconfigured);
    flow.handle_event(UiEvent::OnboardingNext);
    flow.handle_event(UiEvent::OnboardingNext);
    let e = flow.resume(OnboardingOutcome::Persisted(Err(s("disk full"))));
    let v = shown(&e, 0);
    assert_eq!(v.page, OnboardingPage::Connection);
    assert_eq!(v.status_message.as_deref(), Some("disk full"));
}

#[test]
fn local_mode_runs_the_wizard() {
    let mut flow = flow_in_wizard();
    assert_eq!(flow.state.page, OnboardingPage::Wizard);
    assert_eq!(flow.state.wizard.session_id.as_deref(), Some("sess-1"));
    assert!(!flow.state.wizard.is_starting);
    assert!(!flow.state.can_go_next);
    let st = flow.state.wizard.step.clone().expect("step");
    assert_eq!(st.id, "step-1");
    assert_eq!(st.step_type, OnboardingWizardStepType::Text);
    assert_eq!(st.placeholder.as_deref(), Some("type here"));
    assert!(!st.sensitive);

    let e = flow.handle_event(UiEvent::OnboardingWizardSubmit(Some(JsonValue::Str(s("answer")))));
    assert_eq!(e.len(), 2);
    assert!(shown(&e, 0).wizard.is_submitting);
    match &e[1] {
        OnboardingEffect::SubmitWizard(p) => {
            assert_eq!(*p, wizard_submit_params("sess-1", "step-1", Some(JsonValue::Str(s("answer")))));
        }
        _ => panic!("submit expected"),
    }
    let e = flow.resume(OnboardingOutcome::WizardAdvanced(Ok(WizardNextResult {
        done: true,
        step: None,
        status: Some(s("done")),
        error: None,
    })));
    let v = shown(&e, 0);
    assert!(v.wizard.is_complete);
    assert_eq!(v.wizard.session_id, None);
    assert_eq!(v.page, OnboardingPage::Permissions);
    // Back from the permissions in local mode returns to the wizard
    let e = flow.handle_event(UiEvent::OnboardingBack);
    assert_eq!(shown(&e, 0).page, OnboardingPage::Wizard);
    assert!(shown(&e, 0).can_go_next);
}

#[test]
fn wizard_submit_params_shape() {
    let p = wizard_submit_params("s1", "st", None);
    assert_eq!(
        p,
        JsonValue::Object(vec![
            (s("sessionId"), JsonValue::Str(s("s1"))),
            (s("answer"), JsonValue::Object(vec![(s("stepId"), JsonValue::Str(s("st")))])),
        ])
    );
    let p = wizard_submit_params("s1", "st", Some(JsonValue::Bool(true)));
    assert_eq!(
        p,
        JsonValue::Object(vec![
            (s("sessionId"), JsonValue::Str(s("s1"))),
            (
                s("answer"),
                JsonValue::Object(vec![
                    (s("stepId"), JsonValue::Str(s("st"))),
                    (s("value"), JsonValue::Bool(true)),
                ])
            ),
        ])
    );
}

#[test]
fn lost_wizard_session_restarts_the_wizard() {
    let mut flow = flow_in_wizard();
    flow.handle_event(UiEvent::OnboardingWizardSubmit(None));
    let e = flow.resume(OnboardingOutcome::WizardAdvanced(Err(s("Error: Wizard NOT FOUND"))));
    assert_eq!(e.len(), 3);
    let lost = shown(&e, 0);
    assert_eq!(lost.wizard.error_message.as_deref(), Some("Wizard session lost. Restarting\u{2026}"));
    assert!(!lost.wizard.is_submitting);
    let restarting = shown(&e, 1);
    assert!(restarting.wizard.is_starting);
    assert_eq!(restarting.wizard.error_message, None);
    assert!(matches!(e[2], OnboardingEffect::Persist(_)));
    assert_eq!(flow.pending, Pending::PersistForWizard);
}

#[test]
fn other_wizard_errors_are_shown() {
    let mut flow = flow_in_wizard();
    flow.handle_event(UiEvent::OnboardingWizardSubmit(None));
    let e = flow.resume(OnboardingOutcome::WizardAdvanced(Err(s("timeout"))));
    let v = shown(&e, 0);
    assert_eq!(v.wizard.error_message.as_deref(), Some("timeout"));
    assert_eq!(v.wizard.session_id.as_deref(), Some("sess-1"));
    assert_eq!(v.page, OnboardingPage::Wizard);

    flow.handle_event(UiEvent::OnboardingWizardSubmit(None));
    let e = flow.resume(OnboardingOutcome::WizardNextUndecodable(s("missing field `done`")));
    assert_eq!(
        shown(&e, 0).wizard.error_message.as_deref(),
        Some("Wizard step decode failed: missing field `done`")
    );

    flow.handle_event(UiEvent::OnboardingWizardSubmit(None));
    let e = flow.resume(OnboardingOutcome::WizardAdvanced(Ok(WizardNextResult {
        done: false,
        step: None,
        status: Some(s("cancelled")),
        error: Some(s("cancelled by user")),
    })));
    let v = shown(&e, 0);
    assert_eq!(v.wizard.session_id, None);
    assert_eq!(v.wizard.error_message.as_deref(), Some("cancelled by user"));
    assert!(!v.wizard.is_complete);
    // without a session there is nothing to submit
    assert!(flow.handle_event(UiEvent::OnboardingWizardSubmit(None)).is_empty());
}

#[test]
fn wizard_start_failures() {
    let mut flow = flow_in_wizard();
    let e = flow.handle_event(UiEvent::OnboardingWizardRetry);
    assert_eq!(e.len(), 2);
    let e = flow.resume(OnboardingOutcome::Persisted(Err(s("read-only"))));
    let v = shown(&e, 0);
    assert!(!v.wizard.is_starting);
    assert_eq!(v.wizard.error_message.as_deref(), Some("read-only"));

    flow.handle_event(UiEvent::OnboardingWizardRetry);
    flow.resume(OnboardingOutcome::Persisted(Ok(())));
    let e = flow.resume(OnboardingOutcome::GatewayReady(Err(s("gateway down"))));
    assert_eq!(shown(&e, 0).wizard.error_message.as_deref(), Some("gateway down"));

    flow.handle_event(UiEvent::OnboardingWizardRetry);
    flow.resume(OnboardingOutcome::Persisted(Ok(())));
    flow.resume(OnboardingOutcome::GatewayReady(Ok(())));
    let e = flow.resume(OnboardingOutcome::WizardStartUndecodable(s("bad")));
    assert_eq!(shown(&e, 0).wizard.error_message.as_deref(), Some("Wizard start decode failed: bad"));
    // an outcome nobody waits for changes nothing
    assert!(flow.resume(OnboardingOutcome::GatewayReady(Ok(()))).is_empty());
}

#[test]
fn wizard_that_finishes_at_start_goes_to_permissions() {
    let mut flow = flow_in_wizard();
    flow.handle_event(UiEvent::OnboardingWizardRetry);
    flow.resume(OnboardingOutcome::Persisted(Ok(())));
    flow.resume(OnboardingOutcome::GatewayReady(Ok(())));
    let e = flow.resume(OnboardingOutcome::WizardStarted(Ok(WizardStartResult {
        session_id: s("sess-2"),
        done: false,
        step: None,
        status: Some(s("done")),
        error: None,
    })));
    let v = shown(&e, 0);
    assert!(v.wizard.is_complete);
    assert_eq!(v.page, OnboardingPage::Permissions);
    assert_eq!(v.wizard.session_id.as_deref(), Some("sess-2"));
}

#[test]
fn back_from_the_wizard_cancels_its_session() {
    let mut flow = flow_in_wizard();
    let e = flow.handle_event(UiEvent::OnboardingBack);
    assert_eq!(e.len(), 2);
    match &e[0] {
        OnboardingEffect::CancelWizard(id) => assert_eq!(id, "sess-1"),
        _ => panic!("cancel expected"),
    }
    let v = shown(&e, 1);
    assert_eq!(v.page, OnboardingPage::Connection);
    assert_eq!(v.wizard, Default::default());
    assert_eq!(
        v.status_message.as_deref(),
        Some("This machine will run or attach to a local OpenClaw Gateway.")
    );
}

#[test]
fn back_undoes_next_on_simple_pages() {
    let mut flow = started_flow(GatewayMode::Unconfigured);
    let e = flow.handle_event(UiEvent::OnboardingNext);
    assert_eq!(shown(&e, 0).page, OnboardingPage::Connection);
    let e = flow.handle_event(UiEvent::OnboardingBack);
    let v = shown(&e, 0);
    assert_eq!(v.page, OnboardingPage::Welcome);
    assert!(!v.can_go_back);
    assert_eq!(v.status_message, None);
}

#[test]
fn finishing_hides_onboarding_and_starts_runtime() {
    let mut flow = started_flow(GatewayMode::Unconfigured);
    flow.handle_event(UiEvent::OnboardingNext);
    flow.handle_event(UiEvent::OnboardingNext);
    flow.resume(OnboardingOutcome::Persisted(Ok(())));
    let e = flow.handle_event(UiEvent::OnboardingNext);
    let v = shown(&e, 0);
    assert_eq!(v.page, OnboardingPage::Ready);
    assert_eq!(v.next_label, "Finish");
    let e = flow.handle_event(UiEvent::OnboardingNext);
    assert_eq!(e.len(), 3);
    assert!(matches!(e[0], OnboardingEffect::FinishOnboarding));
    assert!(!shown(&e, 1).visible);
    assert!(matches!(e[2], OnboardingEffect::StartRuntime));
    assert!(flow.runtime_started);
}

#[test]
fn session_loss_is_recognised_in_any_case() {
    assert!(is_wizard_session_lost("wizard not found"));
    assert!(is_wizard_session_lost("ERR: Wizard Not Running yet"));
    assert!(!is_wizard_session_lost("wizard is fine"));
    assert!(!is_wizard_session_lost(""));
}

#[test]
fn step_types_and_steps_map_to_views() {
    assert_eq!(map_step_type("note"), OnboardingWizardStepType::Note);
    assert_eq!(map_step_type("multiselect"), OnboardingWizardStepType::Multiselect);
    assert_eq!(map_step_type("progress"), OnboardingWizardStepType::Progress);
    assert_eq!(map_step_type("weird"), OnboardingWizardStepType::Unsupported(s("weird")));
    let st = WizardStep {
        id: s("x"),
        step_type: s("select"),
        title: None,
        message: Some(s("pick")),
        options: Some(vec![WizardStepOption { value: JsonValue::Number(s("1")), label: s("One"), hint: Some(s("h")) }]),
        initial_value: Some(JsonValue::Number(s("1"))),
        placeholder: None,
        sensitive: Some(true),
    };
    let v = map_wizard_step(&st);
    assert_eq!(v.step_type, OnboardingWizardStepType::Select);
    assert_eq!(v.options.len(), 1);
    assert_eq!(v.options[0].label, "One");
    assert_eq!(v.options[0].hint.as_deref(), Some("h"));
    assert_eq!(v.initial_value, Some(JsonValue::Number(s("1"))));
    assert!(v.sensitive);
    assert_eq!(v.message.as_deref(), Some("pick"));
}

#[test]
fn runtime_plan_by_mode() {
    let p = runtime_plan(GatewayMode::Local);
    assert!(p.ensure_local_gateway && p.start_node);
    let p = runtime_plan(GatewayMode::Remote);
    assert!(!p.ensure_local_gateway && p.start_node);
    let p = runtime_plan(GatewayMode::Unconfigured);
    assert!(!p.ensure_local_gateway && !p.start_node);
}
