use openclaw_linux::json::JsonValue;
use openclaw_linux::ui::{
    ConnectionMode, NodeStatusView, OnboardingPage, OnboardingWizardOptionView,
    OnboardingWizardStepType,
};
use openclaw_linux::ui::OnboardingWizardViewState;
use openclaw_linux::ui_logic::{WizardPanel, initial_confirm, initial_text, wizard_panel};
use openclaw_linux::ui_logic::{
    CanvasCommand, CanvasUiAction, WizardInput, canonical_canvas_target, initial_select_index,
    initially_selected, page_heading, plan_canvas_actions, ready_summary, status_texts,
    submit_label, wizard_submit_value,
};

#[test]
fn present_without_url_only_shows_canvas() {
    let actions = plan_canvas_actions(CanvasCommand::Present { url: None });
    assert_eq!(actions, vec![CanvasUiAction::Show]);
}

#[test]
fn present_with_url_loads_then_shows_canvas() {
    let actions = plan_canvas_actions(CanvasCommand::Present {
        url: Some("https://example.com".to_string()),
    });
    assert_eq!(
        actions,
        vec![
            CanvasUiAction::Load(Some("https://example.com".to_string())),
            CanvasUiAction::Show,
        ]
    );
}

#[test]
fn navigate_always_loads_then_shows_canvas() {
    let actions = plan_canvas_actions(CanvasCommand::Navigate {
        url: "https://example.com".to_string(),
    });
    assert_eq!(
        actions,
        vec![
            CanvasUiAction::Load(Some("https://example.com".to_string())),
            CanvasUiAction::Show,
        ]
    );
}

#[test]
fn hide_only_hides_canvas() {
    assert_eq!(plan_canvas_actions(CanvasCommand::Hide), vec![CanvasUiAction::Hide]);
}

#[test]
fn canvas_target_is_trimmed_and_root_means_builtin_page() {
    assert_eq!(canonical_canvas_target(None), None);
    assert_eq!(canonical_canvas_target(Some("  ")), None);
    assert_eq!(canonical_canvas_target(Some(" / ")), None);
    assert_eq!(
        canonical_canvas_target(Some(" https://example.com/a ")),
        Some("https://example.com/a".to_string())
    );
}

#[test]
fn headings_summaries_and_labels() {
    assert_eq!(page_heading(OnboardingPage::Welcome), ("Welcome to OpenClaw", "Set up your Linux app and Gateway."));
    assert_eq!(page_heading(OnboardingPage::Ready).0, "All set");
    assert_eq!(
        ready_summary(ConnectionMode::Local),
        "Local mode selected. The Linux app will use the local Gateway."
    );
    assert_eq!(submit_label(&OnboardingWizardStepType::Action), "Run");
    assert_eq!(submit_label(&OnboardingWizardStepType::Text), "Continue");
}

#[test]
fn status_lines_show_connection_and_last_error() {
    let (a, b) = status_texts(&NodeStatusView { connected: true, last_error: None });
    assert_eq!(a, "Node mode: Connected");
    assert_eq!(b, "");
    let (a, b) = status_texts(&NodeStatusView {
        connected: false,
        last_error: Some("boom".to_string()),
    });
    assert_eq!(a, "Node mode: Disconnected");
    assert_eq!(b, "Last error: boom");
    let (_, b) = status_texts(&NodeStatusView { connected: false, last_error: Some(String::new()) });
    assert_eq!(b, "");
}

#[test]
fn wizard_submit_values_by_step_kind() {
    let text = wizard_submit_value(Some(&OnboardingWizardStepType::Text), &WizardInput::Text("hi".to_string()));
    assert_eq!(text, Some(JsonValue::Str("hi".to_string())));
    let confirm = wizard_submit_value(Some(&OnboardingWizardStepType::Confirm), &WizardInput::Confirm(true));
    assert_eq!(confirm, Some(JsonValue::Bool(true)));
    let select = wizard_submit_value(
        Some(&OnboardingWizardStepType::Select),
        &WizardInput::Select {
            active: Some(1),
            values: vec![JsonValue::Str("a".to_string()), JsonValue::Str("b".to_string())],
        },
    );
    assert_eq!(select, Some(JsonValue::Str("b".to_string())));
    let out_of_range = wizard_submit_value(
        Some(&OnboardingWizardStepType::Select),
        &WizardInput::Select { active: Some(5), values: vec![JsonValue::Null] },
    );
    assert_eq!(out_of_range, None);
    let multi = wizard_submit_value(
        Some(&OnboardingWizardStepType::Multiselect),
        &WizardInput::Multiselect(vec![
            (true, JsonValue::Str("x".to_string())),
            (false, JsonValue::Str("y".to_string())),
            (true, JsonValue::Str("z".to_string())),
        ]),
    );
    assert_eq!(
        multi,
        Some(JsonValue::Array(vec![JsonValue::Str("x".to_string()), JsonValue::Str("z".to_string())]))
    );
    let multi_wrong = wizard_submit_value(Some(&OnboardingWizardStepType::Multiselect), &WizardInput::Empty);
    assert_eq!(multi_wrong, Some(JsonValue::Array(vec![])));
    assert_eq!(
        wizard_submit_value(Some(&OnboardingWizardStepType::Action), &WizardInput::Empty),
        Some(JsonValue::Bool(true))
    );
    assert_eq!(wizard_submit_value(Some(&OnboardingWizardStepType::Note), &WizardInput::Empty), None);
    assert_eq!(wizard_submit_value(None, &WizardInput::Text("x".to_string())), None);
}

#[test]
fn select_starts_on_the_initial_value_or_the_first_option() {
    let options = vec![
        OnboardingWizardOptionView { value: JsonValue::Str("a".to_string()), label: "A".to_string(), hint: None },
        OnboardingWizardOptionView { value: JsonValue::Str("b".to_string()), label: "B".to_string(), hint: None },
    ];
    assert_eq!(initial_select_index(&options, Some(&JsonValue::Str("b".to_string()))), Some(1));
    assert_eq!(initial_select_index(&options, Some(&JsonValue::Str("c".to_string()))), Some(0));
    assert_eq!(initial_select_index(&options, None), Some(0));
    assert_eq!(initial_select_index(&Vec::new(), None), None);
}

#[test]
fn multiselect_ticks_values_listed_initially() {
    let initial = JsonValue::Array(vec![JsonValue::Str("a".to_string())]);
    assert!(initially_selected(Some(&initial), &JsonValue::Str("a".to_string())));
    assert!(!initially_selected(Some(&initial), &JsonValue::Str("b".to_string())));
    assert!(!initially_selected(Some(&JsonValue::Str("a".to_string())), &JsonValue::Str("a".to_string())));
    assert!(!initially_selected(None, &JsonValue::Str("a".to_string())));
}

#[test]
fn zero_initial_values_match_either_zero() {
    let options = vec![
        OnboardingWizardOptionView { value: JsonValue::Number("1".to_string()), label: "One".to_string(), hint: None },
        OnboardingWizardOptionView { value: JsonValue::Number("-0.0".to_string()), label: "Zero".to_string(), hint: None },
    ];
    assert_eq!(initial_select_index(&options, Some(&JsonValue::Number("0.0".to_string()))), Some(1));
    let initial = JsonValue::Array(vec![JsonValue::Number("0.0".to_string())]);
    assert!(initially_selected(Some(&initial), &JsonValue::Number("-0.0".to_string())));
}

#[test]
fn wizard_page_panels_and_initial_inputs() {
    let mut w = OnboardingWizardViewState::default();
    assert_eq!(wizard_panel(&w), WizardPanel::Waiting);
    w.step = Some(Default::default());
    assert_eq!(wizard_panel(&w), WizardPanel::Step);
    w.is_complete = true;
    assert_eq!(wizard_panel(&w), WizardPanel::Complete);
    w.is_starting = true;
    assert_eq!(wizard_panel(&w), WizardPanel::Starting);
    w.error_message = Some("boom".to_string());
    assert_eq!(wizard_panel(&w), WizardPanel::Error);
    assert_eq!(initial_text(Some(&JsonValue::Str("hi".to_string()))), Some("hi".to_string()));
    assert_eq!(initial_text(Some(&JsonValue::Bool(true))), None);
    assert_eq!(initial_text(None), None);
    assert!(initial_confirm(Some(&JsonValue::Bool(true))));
    assert!(!initial_confirm(Some(&JsonValue::Str("true".to_string()))));
    assert!(!initial_confirm(None));
}
