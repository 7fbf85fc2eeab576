//! What the core hands the user interface, and what it hears back.
use vstd::prelude::*;
use crate::json::JsonValue;

verus! {

/// The node's connection status as the UI shows it.
#[derive(Clone, Debug, Default)]
pub struct NodeStatusView {
    pub connected: bool,
    pub last_error: Option<String>,
}

/// The gateway mode that onboarding offers.
#[derive(Clone, Copy, Debug, Default, PartialEq, Eq, Structural)]
pub enum ConnectionMode {
    Local,
    Remote,
    #[default]
    Unconfigured,
}

/// The onboarding pages, in order.
#[derive(Clone, Copy, Debug, Default, PartialEq, Eq, Structural)]
pub enum OnboardingPage {
    #[default]
    Welcome,
    Connection,
    Wizard,
    Permissions,
    Ready,
}

/// One choice of a wizard step.
#[derive(Clone, Debug, Default, PartialEq)]
pub struct OnboardingWizardOptionView {
    pub value: JsonValue,
    pub label: String,
    pub hint: Option<String>,
}

/// The kinds of wizard step.
#[derive(Clone, Debug, Default, PartialEq, Eq)]
pub enum OnboardingWizardStepType {
    #[default]
    Note,
    Text,
    Confirm,
    Select,
    Multiselect,
    Progress,
    Action,
    Unsupported(String),
}

/// A wizard step as the UI renders it.
#[derive(Clone, Debug, Default, PartialEq)]
pub struct OnboardingWizardStepView {
    pub id: String,
    pub step_type: OnboardingWizardStepType,
    pub title: Option<String>,
    pub message: Option<String>,
    pub options: Vec<OnboardingWizardOptionView>,
    pub initial_value: Option<JsonValue>,
    pub placeholder: Option<String>,
    pub sensitive: bool,
}

/// The wizard part of the onboarding view.
#[derive(Clone, Debug, Default, PartialEq)]
pub struct OnboardingWizardViewState {
    pub session_id: Option<String>,
    pub is_starting: bool,
    pub is_submitting: bool,
    pub is_complete: bool,
    pub error_message: Option<String>,
    pub step: Option<OnboardingWizardStepView>,
}

/// Everything the onboarding view shows.
#[derive(Clone, Debug, Default, PartialEq)]
pub struct OnboardingViewState {
    pub visible: bool,
    pub page: OnboardingPage,
    pub mode: ConnectionMode,
    pub remote_url: String,
    pub remote_target: String,
    pub remote_identity: String,
    pub status_message: Option<String>,
    pub can_go_back: bool,
    pub can_go_next: bool,
    pub next_label: String,
    pub wizard: OnboardingWizardViewState,
}

/// What the user did.
#[derive(Clone, Debug)]
pub enum UiEvent {
    AppClosed,
    OnboardingBack,
    OnboardingNext,
    OnboardingSelectMode(ConnectionMode),
    OnboardingRemoteUrlChanged(String),
    OnboardingRemoteTargetChanged(String),
    OnboardingRemoteIdentityChanged(String),
    OnboardingWizardSubmit(Option<JsonValue>),
    OnboardingWizardRetry,
}

/// Where the UI delivers [`UiEvent`]s.
pub trait UiEventSink: Send + Sync {
    fn on_event(&self, event: UiEvent);
}

/// What the core asks of the UI.
pub trait UiControl: Send + Sync {
    fn set_node_status(&self, status: NodeStatusView);

    fn set_onboarding_state(&self, state: OnboardingViewState);

    fn present_canvas(&self, url: Option<String>);

    fn hide_canvas(&self);

    fn navigate_canvas(&self, url: String);
}

} // verus!
