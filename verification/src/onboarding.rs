//! The onboarding flow: the pages, the connection choice, and the setup
//! wizard that the gateway runs. The flow decides; the app performs what it
//! asks for (showing the view, writing the config, calling the gateway) and
//! hands back what came of it.
use vstd::prelude::*;
use crate::config::{GatewayConfig, GatewayConnectionUpdate, GatewayMode};
use crate::env::opt_str;
use crate::frames::{jstr, new_members, push_member};
use crate::json::{JsonValue, JsonView, view_members};
use crate::settings::AppSettings;
use crate::text::{contains, str_contains, str_eq, trim, trim_string, trimmed_nonempty, trimmed_or_none};
use crate::ui::{
    ConnectionMode, OnboardingPage, OnboardingViewState, OnboardingWizardOptionView,
    OnboardingWizardStepType, OnboardingWizardStepView, OnboardingWizardViewState, UiEvent,
};

verus! {

/// One choice of a wizard step, as the gateway sends it.
#[derive(Clone, Debug)]
pub struct WizardStepOption {
    pub value: JsonValue,
    pub label: String,
    pub hint: Option<String>,
}

/// A wizard step, as the gateway sends it.
#[derive(Clone, Debug)]
pub struct WizardStep {
    pub id: String,
    pub step_type: String,
    pub title: Option<String>,
    pub message: Option<String>,
    pub options: Option<Vec<WizardStepOption>>,
    pub initial_value: Option<JsonValue>,
    pub placeholder: Option<String>,
    pub sensitive: Option<bool>,
}

/// The answer to `wizard.start`.
#[derive(Clone, Debug)]
pub struct WizardStartResult {
    pub session_id: String,
    pub done: bool,
    pub step: Option<WizardStep>,
    pub status: Option<String>,
    pub error: Option<String>,
}

/// The answer to `wizard.next`.
#[derive(Clone, Debug)]
pub struct WizardNextResult {
    pub done: bool,
    pub step: Option<WizardStep>,
    pub status: Option<String>,
    pub error: Option<String>,
}

/// The step kind that a gateway step type names.
pub open spec fn step_type_named(name: Seq<char>) -> OnboardingWizardStepType {
    if name == "note"@ {
        OnboardingWizardStepType::Note
    } else if name == "text"@ {
        OnboardingWizardStepType::Text
    } else if name == "confirm"@ {
        OnboardingWizardStepType::Confirm
    } else if name == "select"@ {
        OnboardingWizardStepType::Select
    } else if name == "multiselect"@ {
        OnboardingWizardStepType::Multiselect
    } else if name == "progress"@ {
        OnboardingWizardStepType::Progress
    } else if name == "action"@ {
        OnboardingWizardStepType::Action
    } else {
        OnboardingWizardStepType::Unsupported(arbitrary())
    }
}

/// Whether `t` is the kind that `name` names (an unsupported kind keeps the
/// name).
pub open spec fn step_type_is(t: OnboardingWizardStepType, name: Seq<char>) -> bool {
    match step_type_named(name) {
        OnboardingWizardStepType::Unsupported(_) => t matches OnboardingWizardStepType::Unsupported(
            n,
        ) && n@ == name,
        k => t == k,
    }
}

pub fn map_step_type(name: &str) -> (r: OnboardingWizardStepType)
    ensures
        step_type_is(r, name@),
{
    if str_eq(name, "note") {
        OnboardingWizardStepType::Note
    } else if str_eq(name, "text") {
        OnboardingWizardStepType::Text
    } else if str_eq(name, "confirm") {
        OnboardingWizardStepType::Confirm
    } else if str_eq(name, "select") {
        OnboardingWizardStepType::Select
    } else if str_eq(name, "multiselect") {
        OnboardingWizardStepType::Multiselect
    } else if str_eq(name, "progress") {
        OnboardingWizardStepType::Progress
    } else if str_eq(name, "action") {
        OnboardingWizardStepType::Action
    } else {
        OnboardingWizardStepType::Unsupported(String::from_str(name))
    }
}

/// The same step type, string for string.
pub open spec fn same_step_type(a: OnboardingWizardStepType, b: OnboardingWizardStepType) -> bool {
    match (a, b) {
        (OnboardingWizardStepType::Unsupported(x), OnboardingWizardStepType::Unsupported(y)) => x@ == y@,
        (OnboardingWizardStepType::Unsupported(_), _) => false,
        (_, OnboardingWizardStepType::Unsupported(_)) => false,
        _ => a == b,
    }
}

pub open spec fn opt_json(o: Option<JsonValue>) -> Option<JsonView> {
    match o {
        Some(v) => Some(v@),
        None => None,
    }
}

/// An option view that shows the gateway's option.
pub open spec fn option_shows(v: OnboardingWizardOptionView, o: WizardStepOption) -> bool {
    v.value@ == o.value@ && v.label@ == o.label@ && opt_str(v.hint) == opt_str(o.hint)
}

/// `map_wizard_step`: the step as the UI renders it; missing options become
/// none, a missing `sensitive` is `false`.
pub open spec fn step_shows(v: OnboardingWizardStepView, s: WizardStep) -> bool {
    &&& v.id@ == s.id@
    &&& step_type_is(v.step_type, s.step_type@)
    &&& opt_str(v.title) == opt_str(s.title)
    &&& opt_str(v.message) == opt_str(s.message)
    &&& match s.options {
        Some(os) => v.options@.len() == os@.len() && forall|i: int|
            0 <= i < os@.len() ==> option_shows(#[trigger] v.options@[i], os@[i]),
        None => v.options@.len() == 0,
    }
    &&& opt_json(v.initial_value) == opt_json(s.initial_value)
    &&& opt_str(v.placeholder) == opt_str(s.placeholder)
    &&& v.sensitive == match s.sensitive {
        Some(b) => b,
        None => false,
    }
}

fn copy_opt_string(o: &Option<String>) -> (r: Option<String>)
    ensures
        r == *o,
{
    match o {
        Some(s) => Some(s.clone()),
        None => None,
    }
}

fn copy_opt_json(o: &Option<JsonValue>) -> (r: Option<JsonValue>)
    ensures
        opt_json(r) == opt_json(*o),
{
    match o {
        Some(v) => Some(v.deep_copy()),
        None => None,
    }
}

pub fn map_wizard_step(step: &WizardStep) -> (r: OnboardingWizardStepView)
    ensures
        step_shows(r, *step),
{
    let mut options: Vec<OnboardingWizardOptionView> = Vec::new();
    match &step.options {
        Some(os) => {
            let mut i: usize = 0;
            while i < os.len()
                invariant
                    i <= os@.len(),
                    options@.len() == i,
                    forall|j: int| 0 <= j < i ==> option_shows(#[trigger] options@[j], os@[j]),
                decreases os@.len() - i,
            {
                let o = &os[i];
                options.push(
                    OnboardingWizardOptionView {
                        value: o.value.deep_copy(),
                        label: o.label.clone(),
                        hint: copy_opt_string(&o.hint),
                    },
                );
                i = i + 1;
            }
        },
        None => {},
    }
    OnboardingWizardStepView {
        id: step.id.clone(),
        step_type: map_step_type(step.step_type.as_str()),
        title: copy_opt_string(&step.title),
        message: copy_opt_string(&step.message),
        options,
        initial_value: copy_opt_json(&step.initial_value),
        placeholder: copy_opt_string(&step.placeholder),
        sensitive: match step.sensitive {
            Some(b) => b,
            None => false,
        },
    }
}

/// Whether an error from the gateway means the wizard session is gone
/// (`wizard not found` or `wizard not running`, in any case).
pub open spec fn session_lost(lowered: Seq<char>) -> bool {
    contains(lowered, "wizard not found"@) || contains(lowered, "wizard not running"@)
}

/// What `str::to_lowercase` makes of the text.
pub uninterp spec fn lowercase(s: Seq<char>) -> Seq<char>;

/// Calls `str::to_lowercase`.
#[verifier::external_body]
fn to_lowercase(s: &str) -> (r: String)
    ensures
        r@ == lowercase(s@),
{
    s.to_lowercase()
}

pub fn is_wizard_session_lost(error: &str) -> (r: bool)
    ensures
        r == session_lost(lowercase(error@)),
{
    let lower = to_lowercase(error);
    str_contains(lower.as_str(), "wizard not found") || str_contains(lower.as_str(), "wizard not running")
}


/// The same step view: equal fields, values compared as JSON.
pub open spec fn step_same(a: OnboardingWizardStepView, b: OnboardingWizardStepView) -> bool {
    &&& a.id@ == b.id@
    &&& same_step_type(a.step_type, b.step_type)
    &&& opt_str(a.title) == opt_str(b.title)
    &&& opt_str(a.message) == opt_str(b.message)
    &&& a.options@.len() == b.options@.len()
    &&& forall|i: int|
        0 <= i < a.options@.len() ==> {
            let x = #[trigger] a.options@[i];
            let y = b.options@[i];
            x.value@ == y.value@ && x.label@ == y.label@ && opt_str(x.hint) == opt_str(y.hint)
        }
    &&& opt_json(a.initial_value) == opt_json(b.initial_value)
    &&& opt_str(a.placeholder) == opt_str(b.placeholder)
    &&& a.sensitive == b.sensitive
}

/// The same wizard view.
pub open spec fn wizard_same(a: OnboardingWizardViewState, b: OnboardingWizardViewState) -> bool {
    &&& opt_str(a.session_id) == opt_str(b.session_id)
    &&& a.is_starting == b.is_starting
    &&& a.is_submitting == b.is_submitting
    &&& a.is_complete == b.is_complete
    &&& opt_str(a.error_message) == opt_str(b.error_message)
    &&& match (a.step, b.step) {
        (Some(x), Some(y)) => step_same(x, y),
        (None, None) => true,
        _ => false,
    }
}

/// The same onboarding view, field for field.
pub open spec fn view_same(a: OnboardingViewState, b: OnboardingViewState) -> bool {
    &&& a.visible == b.visible
    &&& a.page == b.page
    &&& a.mode == b.mode
    &&& a.remote_url@ == b.remote_url@
    &&& a.remote_target@ == b.remote_target@
    &&& a.remote_identity@ == b.remote_identity@
    &&& opt_str(a.status_message) == opt_str(b.status_message)
    &&& a.can_go_back == b.can_go_back
    &&& a.can_go_next == b.can_go_next
    &&& a.next_label@ == b.next_label@
    &&& wizard_same(a.wizard, b.wizard)
}

fn copy_step_type(t: &OnboardingWizardStepType) -> (r: OnboardingWizardStepType)
    ensures
        same_step_type(r, *t),
{
    match t {
        OnboardingWizardStepType::Note => OnboardingWizardStepType::Note,
        OnboardingWizardStepType::Text => OnboardingWizardStepType::Text,
        OnboardingWizardStepType::Confirm => OnboardingWizardStepType::Confirm,
        OnboardingWizardStepType::Select => OnboardingWizardStepType::Select,
        OnboardingWizardStepType::Multiselect => OnboardingWizardStepType::Multiselect,
        OnboardingWizardStepType::Progress => OnboardingWizardStepType::Progress,
        OnboardingWizardStepType::Action => OnboardingWizardStepType::Action,
        OnboardingWizardStepType::Unsupported(n) => OnboardingWizardStepType::Unsupported(n.clone()),
    }
}

fn copy_step(s: &OnboardingWizardStepView) -> (r: OnboardingWizardStepView)
    ensures
        step_same(r, *s),
{
    let mut options: Vec<OnboardingWizardOptionView> = Vec::new();
    let mut i: usize = 0;
    while i < s.options.len()
        invariant
            i <= s.options@.len(),
            options@.len() == i,
            forall|j: int|
                0 <= j < i ==> {
                    let x = #[trigger] options@[j];
                    let y = s.options@[j];
                    x.value@ == y.value@ && x.label@ == y.label@ && opt_str(x.hint) == opt_str(y.hint)
                },
        decreases s.options@.len() - i,
    {
        let o = &s.options[i];
        options.push(
            OnboardingWizardOptionView {
                value: o.value.deep_copy(),
                label: o.label.clone(),
                hint: copy_opt_string(&o.hint),
            },
        );
        i = i + 1;
    }
    OnboardingWizardStepView {
        id: s.id.clone(),
        step_type: copy_step_type(&s.step_type),
        title: copy_opt_string(&s.title),
        message: copy_opt_string(&s.message),
        options,
        initial_value: copy_opt_json(&s.initial_value),
        placeholder: copy_opt_string(&s.placeholder),
        sensitive: s.sensitive,
    }
}

/// A copy of the view for the UI.
pub fn copy_view_state(s: &OnboardingViewState) -> (r: OnboardingViewState)
    ensures
        view_same(r, *s),
{
    OnboardingViewState {
        visible: s.visible,
        page: s.page,
        mode: s.mode,
        remote_url: s.remote_url.clone(),
        remote_target: s.remote_target.clone(),
        remote_identity: s.remote_identity.clone(),
        status_message: copy_opt_string(&s.status_message),
        can_go_back: s.can_go_back,
        can_go_next: s.can_go_next,
        next_label: s.next_label.clone(),
        wizard: OnboardingWizardViewState {
            session_id: copy_opt_string(&s.wizard.session_id),
            is_starting: s.wizard.is_starting,
            is_submitting: s.wizard.is_submitting,
            is_complete: s.wizard.is_complete,
            error_message: copy_opt_string(&s.wizard.error_message),
            step: match &s.wizard.step {
                Some(st) => Some(copy_step(st)),
                None => None,
            },
        },
    }
}


/// What the flow waits to hear back from the app.
#[derive(Clone, Copy, Debug, PartialEq, Eq, Structural)]
pub enum Pending {
    Idle,
    /// The connection choice is being written before leaving the connection page.
    PersistForNext,
    /// The connection choice is being written before the wizard starts.
    PersistForWizard,
    /// The local gateway is being started for the wizard.
    GatewayForWizard,
    /// `wizard.start` is running.
    WizardStart,
    /// `wizard.next` is running.
    WizardNext,
}

/// What the flow asks the app to do, in order.
pub enum OnboardingEffect {
    /// Show this view.
    Show(OnboardingViewState),
    /// Call `wizard.cancel` for this session; what comes of it does not matter.
    CancelWizard(String),
    /// Write this connection choice; hand back `Persisted`.
    Persist(GatewayConnectionUpdate),
    /// Make sure the local gateway runs; hand back `GatewayReady`.
    EnsureLocalGateway,
    /// Call `wizard.start` with `{"mode": "local"}`; hand back `WizardStarted`
    /// or `WizardStartUndecodable`.
    StartWizard,
    /// Call `wizard.next` with these parameters; hand back `WizardAdvanced` or
    /// `WizardNextUndecodable`.
    SubmitWizard(JsonValue),
    /// Record in the settings that onboarding was finished, and save them.
    FinishOnboarding,
    /// Start the node for the configured mode.
    StartRuntime,
}

/// What came of the effect the flow waits for.
pub enum OnboardingOutcome {
    Persisted(Result<(), String>),
    GatewayReady(Result<(), String>),
    /// The answer to `wizard.start`, or the call's error.
    WizardStarted(Result<WizardStartResult, String>),
    /// `wizard.start` answered with something that does not decode; the
    /// decoder's message.
    WizardStartUndecodable(String),
    /// The answer to `wizard.next`, or the call's error.
    WizardAdvanced(Result<WizardNextResult, String>),
    /// `wizard.next` answered with something that does not decode.
    WizardNextUndecodable(String),
}

/// The onboarding flow: the view, whether the node runtime was started, and
/// what the flow waits for.
pub struct OnboardingFlow {
    pub state: OnboardingViewState,
    pub runtime_started: bool,
    pub pending: Pending,
}

/// The note under the mode choice.
pub open spec fn conn_message(m: ConnectionMode) -> Seq<char> {
    match m {
        ConnectionMode::Local => "This machine will run or attach to a local OpenClaw Gateway."@,
        ConnectionMode::Remote => "Use a reachable remote Gateway URL (for example wss://gateway.example.ts.net)."@,
        ConnectionMode::Unconfigured => "Skip Gateway setup for now. You can configure Local or Remote later."@,
    }
}

/// `refresh_navigation`: Back everywhere but the first page; "Finish" on the
/// last page, else "Next"; Next is offered everywhere but on an unfinished
/// wizard.
pub open spec fn nav_ok(s: OnboardingViewState) -> bool {
    &&& s.can_go_back == (s.page != OnboardingPage::Welcome)
    &&& s.next_label@ == (if s.page == OnboardingPage::Ready {
        "Finish"@
    } else {
        "Next"@
    })
    &&& s.can_go_next == (if s.page == OnboardingPage::Wizard {
        s.wizard.is_complete
    } else {
        true
    })
}

/// The wizard with nothing going on (its default).
pub open spec fn wizard_cleared(w: OnboardingWizardViewState) -> bool {
    &&& w.session_id is None
    &&& !w.is_starting
    &&& !w.is_submitting
    &&& !w.is_complete
    &&& w.error_message is None
    &&& w.step is None
}

/// The wizard while `wizard.start` is under way.
pub open spec fn wizard_starting(w: OnboardingWizardViewState) -> bool {
    &&& w.session_id is None
    &&& w.is_starting
    &&& !w.is_submitting
    &&& !w.is_complete
    &&& w.error_message is None
    &&& w.step is None
}

pub open spec fn shows(e: OnboardingEffect, s: OnboardingViewState) -> bool {
    e matches OnboardingEffect::Show(x) && view_same(x, s)
}

pub open spec fn gateway_mode_of(m: ConnectionMode) -> GatewayMode {
    match m {
        ConnectionMode::Local => GatewayMode::Local,
        ConnectionMode::Remote => GatewayMode::Remote,
        ConnectionMode::Unconfigured => GatewayMode::Unconfigured,
    }
}

pub open spec fn connection_mode_of(m: GatewayMode) -> ConnectionMode {
    match m {
        GatewayMode::Local => ConnectionMode::Local,
        GatewayMode::Remote => ConnectionMode::Remote,
        GatewayMode::Unconfigured => ConnectionMode::Unconfigured,
    }
}

/// The connection choice that onboarding writes: the mode, and the remote fields
/// trimmed where they are not blank.
pub open spec fn update_for(u: GatewayConnectionUpdate, s: OnboardingViewState) -> bool {
    &&& u.mode == gateway_mode_of(s.mode)
    &&& opt_str(u.remote_url) == trimmed_nonempty(s.remote_url@)
    &&& opt_str(u.remote_target) == trimmed_nonempty(s.remote_target@)
    &&& opt_str(u.remote_identity) == trimmed_nonempty(s.remote_identity@)
}

pub open spec fn persists(e: OnboardingEffect, s: OnboardingViewState) -> bool {
    e matches OnboardingEffect::Persist(u) && update_for(u, s)
}

pub fn connection_update(s: &OnboardingViewState) -> (u: GatewayConnectionUpdate)
    ensures
        update_for(u, *s),
{
    GatewayConnectionUpdate {
        mode: match s.mode {
            ConnectionMode::Local => GatewayMode::Local,
            ConnectionMode::Remote => GatewayMode::Remote,
            ConnectionMode::Unconfigured => GatewayMode::Unconfigured,
        },
        remote_url: trimmed_or_none(s.remote_url.as_str()),
        remote_target: trimmed_or_none(s.remote_target.as_str()),
        remote_identity: trimmed_or_none(s.remote_identity.as_str()),
    }
}

fn conn_message_string(m: ConnectionMode) -> (r: String)
    ensures
        r@ == conn_message(m),
{
    match m {
        ConnectionMode::Local => String::from_str("This machine will run or attach to a local OpenClaw Gateway."),
        ConnectionMode::Remote => String::from_str(
            "Use a reachable remote Gateway URL (for example wss://gateway.example.ts.net).",
        ),
        ConnectionMode::Unconfigured => String::from_str(
            "Skip Gateway setup for now. You can configure Local or Remote later.",
        ),
    }
}

fn empty_wizard() -> (w: OnboardingWizardViewState)
    ensures
        wizard_cleared(w),
{
    OnboardingWizardViewState {
        session_id: None,
        is_starting: false,
        is_submitting: false,
        is_complete: false,
        error_message: None,
        step: None,
    }
}

/// Whether the wizard is finished: `done`, or the status `"done"`.
pub open spec fn finished(done: bool, status: Option<String>) -> bool {
    done || opt_str(status) == Some("done"@)
}

fn is_finished(done: bool, status: &Option<String>) -> (r: bool)
    ensures
        r == finished(done, *status),
{
    done || match status {
        Some(s) => str_eq(s.as_str(), "done"),
        None => false,
    }
}

pub open spec fn step_matches(v: Option<OnboardingWizardStepView>, s: Option<WizardStep>) -> bool {
    match (v, s) {
        (Some(x), Some(y)) => step_shows(x, y),
        (None, None) => true,
        _ => false,
    }
}

/// The wizard after the answer to `wizard.start`: the session, error and step of the answer; the
/// wizard is no longer starting or submitting; complete where finished.
pub open spec fn applied_start(w: OnboardingWizardViewState, r: WizardStartResult) -> bool {
    &&& !w.is_starting
    &&& !w.is_submitting
    &&& opt_str(w.session_id) == Some(r.session_id@)
    &&& opt_str(w.error_message) == opt_str(r.error)
    &&& step_matches(w.step, r.step)
    &&& w.is_complete == finished(r.done, r.status)
}

/// The wizard after the answer to `wizard.next`: the error and step of the answer; the session ends
/// where the wizard finished, was cancelled or failed.
pub open spec fn applied_next(w: OnboardingWizardViewState, old_w: OnboardingWizardViewState, r: WizardNextResult) -> bool {
    &&& w.is_starting == old_w.is_starting
    &&& !w.is_submitting
    &&& opt_str(w.error_message) == opt_str(r.error)
    &&& step_matches(w.step, r.step)
    &&& w.is_complete == finished(r.done, r.status)
    &&& opt_str(w.session_id) == (if finished(r.done, r.status) || opt_str(r.status) == Some(
        "cancelled"@,
    ) || opt_str(r.status) == Some("error"@) {
        None
    } else {
        opt_str(old_w.session_id)
    })
}

fn map_step_opt(s: &Option<WizardStep>) -> (r: Option<OnboardingWizardStepView>)
    ensures
        step_matches(r, *s),
{
    match s {
        Some(st) => Some(map_wizard_step(st)),
        None => None,
    }
}

impl OnboardingFlow {
    /// A hidden flow on the first page, before `bootstrap`.
    pub fn new() -> (r: Self)
        ensures
            !r.state.visible,
            r.state.page == OnboardingPage::Welcome,
            r.state.next_label@ == "Next"@,
            wizard_cleared(r.state.wizard),
            !r.runtime_started,
            r.pending == Pending::Idle,
    {
        OnboardingFlow {
            state: OnboardingViewState {
                visible: false,
                page: OnboardingPage::Welcome,
                mode: ConnectionMode::Unconfigured,
                remote_url: String::new(),
                remote_target: String::new(),
                remote_identity: String::new(),
                status_message: None,
                can_go_back: false,
                can_go_next: false,
                next_label: String::from_str("Next"),
                wizard: empty_wizard(),
            },
            runtime_started: false,
            pending: Pending::Idle,
        }
    }

    fn refresh_connection_message(&mut self)
        ensures
            final(self).state == (OnboardingViewState {
                status_message: final(self).state.status_message,
                ..old(self).state
            }),
            opt_str(final(self).state.status_message) == Some(conn_message(old(self).state.mode)),
            final(self).runtime_started == old(self).runtime_started,
            final(self).pending == old(self).pending,
    {
        self.state.status_message = Some(conn_message_string(self.state.mode));
    }

    fn refresh_navigation(&mut self)
        ensures
            final(self).state == (OnboardingViewState {
                can_go_back: final(self).state.can_go_back,
                can_go_next: final(self).state.can_go_next,
                next_label: final(self).state.next_label,
                ..old(self).state
            }),
            nav_ok(final(self).state),
            final(self).runtime_started == old(self).runtime_started,
            final(self).pending == old(self).pending,
    {
        self.state.can_go_back = self.state.page != OnboardingPage::Welcome;
        self.state.next_label = if self.state.page == OnboardingPage::Ready {
            String::from_str("Finish")
        } else {
            String::from_str("Next")
        };
        self.state.can_go_next = match self.state.page {
            OnboardingPage::Wizard => self.state.wizard.is_complete,
            _ => true,
        };
    }

    fn push_state(&self, effects: &mut Vec<OnboardingEffect>)
        ensures
            final(effects)@.len() == old(effects)@.len() + 1,
            final(effects)@.take(old(effects)@.len() as int) == old(effects)@,
            shows(final(effects)@.last(), self.state),
    {
        effects.push(OnboardingEffect::Show(copy_view_state(&self.state)));
        assert(final(effects)@.take(old(effects)@.len() as int) =~= old(effects)@);
    }
}


/// The page that Back leads to.
pub open spec fn back_page(s: OnboardingViewState) -> OnboardingPage {
    match s.page {
        OnboardingPage::Welcome => OnboardingPage::Welcome,
        OnboardingPage::Connection => OnboardingPage::Welcome,
        OnboardingPage::Wizard => OnboardingPage::Connection,
        OnboardingPage::Permissions => if s.mode == ConnectionMode::Local {
            OnboardingPage::Wizard
        } else {
            OnboardingPage::Connection
        },
        OnboardingPage::Ready => OnboardingPage::Permissions,
    }
}

/// The note after Back: the mode's note on the connection page, none
/// elsewhere (the first page keeps what it had).
pub open spec fn back_message(s: OnboardingViewState) -> Option<Seq<char>> {
    match s.page {
        OnboardingPage::Welcome => opt_str(s.status_message),
        _ => if back_page(s) == OnboardingPage::Connection {
            Some(conn_message(s.mode))
        } else {
            None
        },
    }
}

/// The view `t` is `s` with its navigation refreshed and the page, note and
/// wizard given.
pub open spec fn view_with(
    s: OnboardingViewState,
    t: OnboardingViewState,
    page: OnboardingPage,
    message: Option<Seq<char>>,
) -> bool {
    &&& t == (OnboardingViewState {
        page,
        status_message: t.status_message,
        can_go_back: t.can_go_back,
        can_go_next: t.can_go_next,
        next_label: t.next_label,
        wizard: t.wizard,
        ..s
    })
    &&& opt_str(t.status_message) == message
    &&& nav_ok(t)
}

/// Back: to the previous page (from a finished connection choice, to the
/// wizard only in local mode); leaving the wizard cancels its session and
/// clears it.
pub open spec fn back_step(o: OnboardingFlow, n: OnboardingFlow, e: Seq<OnboardingEffect>) -> bool {
    let s = o.state;
    let t = n.state;
    &&& view_with(s, t, back_page(s), back_message(s))
    &&& if s.page == OnboardingPage::Wizard {
        wizard_cleared(t.wizard)
    } else {
        t.wizard == s.wizard
    }
    &&& n.runtime_started == o.runtime_started
    &&& n.pending == o.pending
    &&& if s.page == OnboardingPage::Wizard && s.wizard.session_id is Some {
        e.len() == 2 && (e[0] matches OnboardingEffect::CancelWizard(id) && Some(id@) == opt_str(
            s.wizard.session_id,
        )) && shows(e[1], t)
    } else {
        e.len() == 1 && shows(e[0], t)
    }
}

/// Starting the wizard, up to writing the connection choice: a starting
/// wizard, shown, and the write asked for.
pub open spec fn wizard_begun(s: OnboardingViewState, n: OnboardingFlow, e: Seq<OnboardingEffect>) -> bool {
    let t = n.state;
    &&& t == (OnboardingViewState {
        can_go_back: t.can_go_back,
        can_go_next: t.can_go_next,
        next_label: t.next_label,
        wizard: t.wizard,
        ..s
    })
    &&& wizard_starting(t.wizard)
    &&& nav_ok(t)
    &&& n.pending == Pending::PersistForWizard
    &&& e.len() == 2
    &&& shows(e[0], t)
    &&& persists(e[1], t)
}

/// Starting the node runtime where it was not started yet.
pub open spec fn runtime_step(o_started: bool, n: OnboardingFlow, e: Seq<OnboardingEffect>) -> bool {
    &&& n.runtime_started
    &&& if o_started {
        e.len() == 0
    } else {
        e.len() == 1 && e[0] is StartRuntime
    }
}

/// Next on the last page: onboarding is recorded as finished, the view
/// hidden, and the runtime started where it was not.
pub open spec fn finish_step(o: OnboardingFlow, n: OnboardingFlow, e: Seq<OnboardingEffect>) -> bool {
    let s = o.state;
    let t = n.state;
    &&& t == (OnboardingViewState {
        visible: false,
        can_go_back: t.can_go_back,
        can_go_next: t.can_go_next,
        next_label: t.next_label,
        ..s
    })
    &&& nav_ok(t)
    &&& n.pending == o.pending
    &&& e.len() >= 2
    &&& e[0] is FinishOnboarding
    &&& shows(e[1], t)
    &&& runtime_step(o.runtime_started, n, e.skip(2))
}

/// Next: nothing where it is not offered; on the connection page, remote
/// mode without a URL stays with a note, otherwise the choice is written
/// first; on the last page onboarding finishes; elsewhere the next page.
pub open spec fn next_step(o: OnboardingFlow, n: OnboardingFlow, e: Seq<OnboardingEffect>) -> bool {
    let s = o.state;
    let t = n.state;
    if !s.can_go_next {
        n == o && e.len() == 0
    } else {
        match s.page {
            OnboardingPage::Connection => if s.mode == ConnectionMode::Remote && trim(s.remote_url@).len() == 0 {
                &&& view_with(s, t, s.page, Some("Remote mode requires a Gateway URL."@))
                &&& t.wizard == s.wizard
                &&& n.runtime_started == o.runtime_started
                &&& n.pending == o.pending
                &&& e.len() == 1 && shows(e[0], t)
            } else {
                &&& t == s
                &&& n.runtime_started == o.runtime_started
                &&& n.pending == Pending::PersistForNext
                &&& e.len() == 1 && persists(e[0], s)
            },
            OnboardingPage::Ready => finish_step(o, n, e),
            _ => {
                let page = if s.page == OnboardingPage::Welcome {
                    OnboardingPage::Connection
                } else if s.page == OnboardingPage::Wizard {
                    OnboardingPage::Permissions
                } else {
                    OnboardingPage::Ready
                };
                let message = if s.page == OnboardingPage::Welcome {
                    opt_str(s.status_message)
                } else {
                    None
                };
                &&& view_with(s, t, page, message)
                &&& t.wizard == s.wizard
                &&& n.runtime_started == o.runtime_started
                &&& n.pending == o.pending
                &&& e.len() == 1 && shows(e[0], t)
            },
        }
    }
}

impl OnboardingFlow {
    fn start_runtime_if_needed(&mut self, effects: &mut Vec<OnboardingEffect>)
        ensures
            final(self).state == old(self).state,
            final(self).pending == old(self).pending,
            final(effects)@.len() >= old(effects)@.len(),
            final(effects)@.take(old(effects)@.len() as int) == old(effects)@,
            runtime_step(old(self).runtime_started, *final(self), final(effects)@.skip(old(effects)@.len() as int)),
    {
        let ghost before = effects@;
        if !self.runtime_started {
            self.runtime_started = true;
            effects.push(OnboardingEffect::StartRuntime);
        }
        assert(effects@.take(before.len() as int) =~= before);
    }

    /// Starts the wizard: shows it starting and asks for the connection
    /// choice to be written.
    fn begin_wizard(&mut self, effects: &mut Vec<OnboardingEffect>)
        ensures
            final(effects)@.len() == old(effects)@.len() + 2,
            final(effects)@.take(old(effects)@.len() as int) == old(effects)@,
            wizard_begun(old(self).state, *final(self), final(effects)@.skip(old(effects)@.len() as int)),
            final(self).runtime_started == old(self).runtime_started,
    {
        let ghost before = effects@;
        self.state.wizard.error_message = None;
        self.state.wizard.is_starting = true;
        self.state.wizard.is_submitting = false;
        self.state.wizard.is_complete = false;
        self.state.wizard.step = None;
        self.state.wizard.session_id = None;
        self.refresh_navigation();
        self.push_state(effects);
        effects.push(OnboardingEffect::Persist(connection_update(&self.state)));
        self.pending = Pending::PersistForWizard;
        assert(effects@.take(before.len() as int) =~= before);
        assert(effects@.skip(before.len() as int)[0] == effects@[before.len() as int]);
    }

    fn handle_back(&mut self) -> (effects: Vec<OnboardingEffect>)
        ensures
            back_step(*old(self), *final(self), effects@),
    {
        let mut effects: Vec<OnboardingEffect> = Vec::new();
        let ghost s0 = self.state;
        match self.state.page {
            OnboardingPage::Welcome => {},
            OnboardingPage::Connection => {
                self.state.page = OnboardingPage::Welcome;
                self.state.status_message = None;
            },
            OnboardingPage::Wizard => {
                match &self.state.wizard.session_id {
                    Some(id) => effects.push(OnboardingEffect::CancelWizard(id.clone())),
                    None => {},
                }
                self.state.wizard = empty_wizard();
                self.state.page = OnboardingPage::Connection;
                self.refresh_connection_message();
            },
            OnboardingPage::Permissions => {
                self.state.page = if self.state.mode == ConnectionMode::Local {
                    OnboardingPage::Wizard
                } else {
                    OnboardingPage::Connection
                };
                if self.state.page == OnboardingPage::Connection {
                    self.refresh_connection_message();
                } else {
                    self.state.status_message = None;
                }
            },
            OnboardingPage::Ready => {
                self.state.page = OnboardingPage::Permissions;
                self.state.status_message = None;
            },
        }
        let ghost cancels = effects@;
        assert(cancels.len() == (if s0.page == OnboardingPage::Wizard && s0.wizard.session_id is Some { 1int } else { 0int }));
        self.refresh_navigation();
        self.push_state(&mut effects);
        assert(self.state.page == back_page(s0));
        assert(opt_str(self.state.status_message) == back_message(s0));
        assert(effects@.len() == cancels.len() + 1);
        assert(cancels.len() == 1 ==> effects@[0] == cancels[0]) by {
            if cancels.len() == 1 {
                assert(effects@.take(1)[0] == effects@[0]);
            }
        }
        effects
    }

    fn finish_onboarding(&mut self) -> (effects: Vec<OnboardingEffect>)
        ensures
            finish_step(*old(self), *final(self), effects@),
    {
        let mut effects: Vec<OnboardingEffect> = Vec::new();
        effects.push(OnboardingEffect::FinishOnboarding);
        let ghost first = effects@;
        self.state.visible = false;
        self.refresh_navigation();
        self.push_state(&mut effects);
        let ghost mid = effects@;
        assert(mid[0] == first[0]) by {
            assert(mid.take(1)[0] == mid[0]);
        }
        self.start_runtime_if_needed(&mut effects);
        assert(effects@[0] == mid[0] && effects@[1] == mid[1]) by {
            assert(effects@.take(2)[0] == effects@[0]);
            assert(effects@.take(2)[1] == effects@[1]);
        }
        assert(effects@.skip(2) =~= effects@.skip(mid.len() as int));
        effects
    }

    fn handle_next(&mut self) -> (effects: Vec<OnboardingEffect>)
        ensures
            next_step(*old(self), *final(self), effects@),
    {
        let mut effects: Vec<OnboardingEffect> = Vec::new();
        if !self.state.can_go_next {
            return effects;
        }
        match self.state.page {
            OnboardingPage::Welcome => {
                self.state.page = OnboardingPage::Connection;
            },
            OnboardingPage::Connection => {
                if self.state.mode == ConnectionMode::Remote && trim_string(
                    self.state.remote_url.as_str(),
                ).unicode_len() == 0 {
                    self.state.status_message = Some(String::from_str("Remote mode requires a Gateway URL."));
                    self.refresh_navigation();
                    self.push_state(&mut effects);
                    return effects;
                }
                effects.push(OnboardingEffect::Persist(connection_update(&self.state)));
                self.pending = Pending::PersistForNext;
                return effects;
            },
            OnboardingPage::Wizard => {
                self.state.page = OnboardingPage::Permissions;
                self.state.status_message = None;
            },
            OnboardingPage::Permissions => {
                self.state.page = OnboardingPage::Ready;
                self.state.status_message = None;
            },
            OnboardingPage::Ready => {
                return self.finish_onboarding();
            },
        }
        self.refresh_navigation();
        self.push_state(&mut effects);
        effects
    }
}


/// The parameters of `wizard.next`: the session, and the answer to the step,
/// with its value where there is one.
pub open spec fn submit_params(session: Seq<char>, step: Seq<char>, value: Option<JsonView>) -> JsonView {
    JsonView::Object(seq![("sessionId"@, jstr(session)), ("answer"@, JsonView::Object(answer_members(step, value)))])
}

/// The answer: the step, and the value where there is one.
pub open spec fn answer_members(step: Seq<char>, value: Option<JsonView>) -> Seq<(Seq<char>, JsonView)> {
    match value {
        Some(v) => seq![("stepId"@, jstr(step)), ("value"@, v)],
        None => seq![("stepId"@, jstr(step))],
    }
}

pub fn wizard_submit_params(session: &str, step: &str, value: Option<JsonValue>) -> (r: JsonValue)
    ensures
        r@ == submit_params(session@, step@, opt_json(value)),
{
    let ghost vv = opt_json(value);
    let mut answer = new_members();
    push_member(&mut answer, "stepId", JsonValue::Str(String::from_str(step)));
    match value {
        Some(v) => push_member(&mut answer, "value", v),
        None => {},
    }
    let mut ms = new_members();
    push_member(&mut ms, "sessionId", JsonValue::Str(String::from_str(session)));
    let ghost av = view_members(answer@);
    push_member(&mut ms, "answer", JsonValue::Object(answer));
    proof {
        assert(av =~= answer_members(step@, vv));
        assert(view_members(ms@) =~= seq![
            ("sessionId"@, jstr(session@)),
            ("answer"@, JsonView::Object(av)),
        ]);
    }
    JsonValue::Object(ms)
}

/// The view `t` is `s` with the wizard replaced, its navigation refreshed,
/// and the page moved on to the permissions when the wizard is complete.
pub open spec fn settled(s: OnboardingViewState, t: OnboardingViewState) -> bool {
    view_with(
        s,
        t,
        if t.wizard.is_complete {
            OnboardingPage::Permissions
        } else {
            s.page
        },
        opt_str(s.status_message),
    )
}

/// The wizard `w` is `o` with the error `msg` and no call running.
pub open spec fn wizard_failed(w: OnboardingWizardViewState, o: OnboardingWizardViewState, msg: Seq<char>) -> bool {
    &&& w == (OnboardingWizardViewState {
        is_starting: false,
        is_submitting: false,
        error_message: w.error_message,
        ..o
    })
    &&& opt_str(w.error_message) == Some(msg)
}

/// `o` and `n` differ only in the view's wizard, its navigation, and what
/// the flow waits for, which is nothing; the view is shown.
pub open spec fn shown_idle(o: OnboardingFlow, n: OnboardingFlow, e: Seq<OnboardingEffect>) -> bool {
    &&& n.runtime_started == o.runtime_started
    &&& n.pending == Pending::Idle
    &&& e.len() == 1
    &&& shows(e[0], n.state)
}

/// Submitting an answer: nothing without a session and a step; otherwise
/// the wizard is submitting, shown, and `wizard.next` asked for.
pub open spec fn submit_step(o: OnboardingFlow, value: Option<JsonView>, n: OnboardingFlow, e: Seq<OnboardingEffect>) -> bool {
    let s = o.state;
    let t = n.state;
    match (s.wizard.session_id, s.wizard.step) {
        (Some(id), Some(step)) => {
            &&& t == (OnboardingViewState {
                can_go_back: t.can_go_back,
                can_go_next: t.can_go_next,
                next_label: t.next_label,
                wizard: t.wizard,
                ..s
            })
            &&& t.wizard == (OnboardingWizardViewState {
                is_submitting: true,
                error_message: None,
                ..s.wizard
            })
            &&& nav_ok(t)
            &&& n.runtime_started == o.runtime_started
            &&& n.pending == Pending::WizardNext
            &&& e.len() == 2
            &&& shows(e[0], t)
            &&& e[1] matches OnboardingEffect::SubmitWizard(p) && p@ == submit_params(id@, step.id@, value)
        },
        _ => n == o && e.len() == 0,
    }
}

/// A `wizard.next` answer that finishes the wizard (`done`, or status
/// `"done"`), or whose status is `"cancelled"` or `"error"`, ends the wizard
/// session: the flow holds no session id afterwards, so a further submit
/// (`n2`, `e2`) changes nothing and sends nothing. Any other answer keeps
/// the session it was given for.
pub proof fn law_wizard_answer_ends_session(
    o: OnboardingFlow,
    r: WizardNextResult,
    n: OnboardingFlow,
    e: Seq<OnboardingEffect>,
    value: Option<JsonView>,
    n2: OnboardingFlow,
    e2: Seq<OnboardingEffect>,
)
    requires
        o.pending == Pending::WizardNext,
        resume_step(o, OnboardingOutcome::WizardAdvanced(Ok(r)), n, e),
    ensures
        ({
            let st = opt_str(r.status);
            r.done || st == Some("done"@) || st == Some("cancelled"@) || st == Some("error"@)
        }) ==> {
            &&& n.state.wizard.session_id is None
            &&& (submit_step(n, value, n2, e2) ==> n2 == n && e2.len() == 0)
        },
        ({
            let st = opt_str(r.status);
            !(r.done || st == Some("done"@) || st == Some("cancelled"@) || st == Some("error"@))
        }) ==> opt_str(n.state.wizard.session_id) == opt_str(o.state.wizard.session_id),
{
}

/// What the flow does with what came of the effect it waited for.
pub open spec fn resume_step(o: OnboardingFlow, out: OnboardingOutcome, n: OnboardingFlow, e: Seq<OnboardingEffect>) -> bool {
    let s = o.state;
    let t = n.state;
    match (o.pending, out) {
        (Pending::PersistForNext, OnboardingOutcome::Persisted(Ok(_))) => if s.mode == ConnectionMode::Local {
            &&& n.runtime_started == o.runtime_started
            &&& wizard_begun(
                OnboardingViewState { page: OnboardingPage::Wizard, status_message: None, ..s },
                n,
                e,
            )
        } else {
            &&& view_with(s, t, OnboardingPage::Permissions, None)
            &&& t.wizard == s.wizard
            &&& shown_idle(o, n, e)
        },
        (Pending::PersistForNext, OnboardingOutcome::Persisted(Err(msg))) => {
            &&& view_with(s, t, s.page, Some(msg@))
            &&& t.wizard == s.wizard
            &&& shown_idle(o, n, e)
        },
        (Pending::PersistForWizard, OnboardingOutcome::Persisted(Ok(_))) => {
            &&& n.state == s
            &&& n.runtime_started == o.runtime_started
            &&& n.pending == Pending::GatewayForWizard
            &&& e == seq![OnboardingEffect::EnsureLocalGateway]
        },
        (Pending::PersistForWizard, OnboardingOutcome::Persisted(Err(msg))) => {
            &&& view_with(s, t, s.page, opt_str(s.status_message))
            &&& wizard_failed(t.wizard, s.wizard, msg@)
            &&& shown_idle(o, n, e)
        },
        (Pending::GatewayForWizard, OnboardingOutcome::GatewayReady(Ok(_))) => {
            &&& n.state == s
            &&& n.runtime_started == o.runtime_started
            &&& n.pending == Pending::WizardStart
            &&& e == seq![OnboardingEffect::StartWizard]
        },
        (Pending::GatewayForWizard, OnboardingOutcome::GatewayReady(Err(msg))) => {
            &&& view_with(s, t, s.page, opt_str(s.status_message))
            &&& wizard_failed(t.wizard, s.wizard, msg@)
            &&& shown_idle(o, n, e)
        },
        (Pending::WizardStart, OnboardingOutcome::WizardStarted(Ok(r))) => {
            &&& settled(s, t)
            &&& applied_start(t.wizard, r)
            &&& shown_idle(o, n, e)
        },
        (Pending::WizardStart, OnboardingOutcome::WizardStarted(Err(msg))) => {
            &&& settled(s, t)
            &&& t.wizard == (OnboardingWizardViewState {
                is_starting: false,
                error_message: t.wizard.error_message,
                ..s.wizard
            })
            &&& opt_str(t.wizard.error_message) == Some(msg@)
            &&& shown_idle(o, n, e)
        },
        (Pending::WizardStart, OnboardingOutcome::WizardStartUndecodable(msg)) => {
            &&& settled(s, t)
            &&& t.wizard == (OnboardingWizardViewState {
                is_starting: false,
                error_message: t.wizard.error_message,
                ..s.wizard
            })
            &&& opt_str(t.wizard.error_message) == Some("Wizard start decode failed: "@ + msg@)
            &&& shown_idle(o, n, e)
        },
        (Pending::WizardNext, OnboardingOutcome::WizardAdvanced(Ok(r))) => {
            &&& settled(s, t)
            &&& applied_next(t.wizard, s.wizard, r)
            &&& shown_idle(o, n, e)
        },
        (Pending::WizardNext, OnboardingOutcome::WizardAdvanced(Err(msg))) => if session_lost(
            lowercase(msg@),
        ) {
            let lost = OnboardingViewState {
                wizard: OnboardingWizardViewState {
                    is_submitting: false,
                    error_message: e[0]->Show_0.wizard.error_message,
                    ..s.wizard
                },
                ..s
            };
            &&& opt_str(lost.wizard.error_message) == Some("Wizard session lost. Restarting\u{2026}"@)
            &&& e.len() == 3
            &&& shows(e[0], lost)
            &&& n.runtime_started == o.runtime_started
            &&& wizard_begun(lost, n, e.skip(1))
        } else {
            &&& settled(s, t)
            &&& t.wizard == (OnboardingWizardViewState {
                is_submitting: false,
                error_message: t.wizard.error_message,
                ..s.wizard
            })
            &&& opt_str(t.wizard.error_message) == Some(msg@)
            &&& shown_idle(o, n, e)
        },
        (Pending::WizardNext, OnboardingOutcome::WizardNextUndecodable(msg)) => {
            &&& settled(s, t)
            &&& t.wizard == (OnboardingWizardViewState {
                is_submitting: false,
                error_message: t.wizard.error_message,
                ..s.wizard
            })
            &&& opt_str(t.wizard.error_message) == Some("Wizard step decode failed: "@ + msg@)
            &&& shown_idle(o, n, e)
        },
        _ => n == o && e.len() == 0,
    }
}


fn apply_start(w: &mut OnboardingWizardViewState, r: &WizardStartResult)
    ensures
        applied_start(*final(w), *r),
{
    w.is_starting = false;
    w.is_submitting = false;
    w.session_id = Some(r.session_id.clone());
    w.error_message = copy_opt_string(&r.error);
    w.step = map_step_opt(&r.step);
    w.is_complete = is_finished(r.done, &r.status);
}

fn apply_next(w: &mut OnboardingWizardViewState, r: &WizardNextResult)
    ensures
        applied_next(*final(w), *old(w), *r),
{
    w.is_submitting = false;
    w.error_message = copy_opt_string(&r.error);
    w.step = map_step_opt(&r.step);
    w.is_complete = is_finished(r.done, &r.status);
    let ended = match &r.status {
        Some(st) => str_eq(st.as_str(), "cancelled") || str_eq(st.as_str(), "error"),
        None => false,
    };
    if w.is_complete || ended {
        w.session_id = None;
    }
}

impl OnboardingFlow {
    /// After a wizard answer: on to the permissions when the wizard is
    /// complete, navigation refreshed, the view shown, nothing awaited.
    fn settle(&mut self) -> (effects: Vec<OnboardingEffect>)
        ensures
            settled(old(self).state, final(self).state),
            final(self).state.wizard == old(self).state.wizard,
            final(self).runtime_started == old(self).runtime_started,
            final(self).pending == Pending::Idle,
            effects@.len() == 1,
            shows(effects@[0], final(self).state),
    {
        let mut effects: Vec<OnboardingEffect> = Vec::new();
        if self.state.wizard.is_complete {
            self.state.page = OnboardingPage::Permissions;
        }
        self.pending = Pending::Idle;
        self.refresh_navigation();
        self.push_state(&mut effects);
        effects
    }

    /// The view refreshed and shown, nothing awaited.
    fn show_idle(&mut self) -> (effects: Vec<OnboardingEffect>)
        ensures
            view_with(old(self).state, final(self).state, old(self).state.page, opt_str(old(self).state.status_message)),
            final(self).state.wizard == old(self).state.wizard,
            final(self).runtime_started == old(self).runtime_started,
            final(self).pending == Pending::Idle,
            effects@.len() == 1,
            shows(effects@[0], final(self).state),
    {
        let mut effects: Vec<OnboardingEffect> = Vec::new();
        self.pending = Pending::Idle;
        self.refresh_navigation();
        self.push_state(&mut effects);
        effects
    }

    fn handle_wizard_submit(&mut self, value: Option<JsonValue>) -> (effects: Vec<OnboardingEffect>)
        ensures
            submit_step(*old(self), opt_json(value), *final(self), effects@),
    {
        let mut effects: Vec<OnboardingEffect> = Vec::new();
        let session_id = match &self.state.wizard.session_id {
            Some(id) => id.clone(),
            None => return effects,
        };
        let step_id = match &self.state.wizard.step {
            Some(step) => step.id.clone(),
            None => return effects,
        };
        self.state.wizard.is_submitting = true;
        self.state.wizard.error_message = None;
        self.refresh_navigation();
        self.push_state(&mut effects);
        effects.push(OnboardingEffect::SubmitWizard(wizard_submit_params(session_id.as_str(), step_id.as_str(), value)));
        self.pending = Pending::WizardNext;
        proof {
            assert(effects@[0] == effects@.take(1)[0]);
        }
        effects
    }
}


impl OnboardingFlow {
    /// The wizard failed before or at its start: the error shown, nothing
    /// running.
    fn fail_wizard(&mut self, msg: String) -> (effects: Vec<OnboardingEffect>)
        ensures
            view_with(old(self).state, final(self).state, old(self).state.page, opt_str(old(self).state.status_message)),
            wizard_failed(final(self).state.wizard, old(self).state.wizard, msg@),
            final(self).runtime_started == old(self).runtime_started,
            final(self).pending == Pending::Idle,
            effects@.len() == 1,
            shows(effects@[0], final(self).state),
    {
        self.state.wizard.is_starting = false;
        self.state.wizard.is_submitting = false;
        self.state.wizard.error_message = Some(msg);
        self.show_idle()
    }

    fn resume_persisted_for_next(&mut self) -> (effects: Vec<OnboardingEffect>)
        requires
            old(self).pending == Pending::PersistForNext,
        ensures
            resume_step(*old(self), OnboardingOutcome::Persisted(Ok(())), *final(self), effects@),
    {
        if self.state.mode == ConnectionMode::Local {
            let mut effects: Vec<OnboardingEffect> = Vec::new();
            self.state.page = OnboardingPage::Wizard;
            self.state.status_message = None;
            self.state.wizard = empty_wizard();
            self.begin_wizard(&mut effects);
            assert(effects@.skip(0) =~= effects@);
            effects
        } else {
            self.state.page = OnboardingPage::Permissions;
            self.state.status_message = None;
            self.show_idle()
        }
    }

    fn resume_wizard_error(&mut self, msg: String) -> (effects: Vec<OnboardingEffect>)
        requires
            old(self).pending == Pending::WizardNext,
        ensures
            resume_step(*old(self), OnboardingOutcome::WizardAdvanced(Err(msg)), *final(self), effects@),
    {
        self.state.wizard.is_submitting = false;
        if is_wizard_session_lost(msg.as_str()) {
            let mut effects: Vec<OnboardingEffect> = Vec::new();
            self.state.wizard.error_message = Some(String::from_str("Wizard session lost. Restarting\u{2026}"));
            let ghost lost = self.state;
            self.push_state(&mut effects);
            self.begin_wizard(&mut effects);
            proof {
                assert(effects@[0] == effects@.take(1)[0]);
            }
            effects
        } else {
            self.state.wizard.error_message = Some(msg);
            self.settle()
        }
    }

    /// Takes in what came of the effect the flow waited for.
    pub fn resume(&mut self, outcome: OnboardingOutcome) -> (effects: Vec<OnboardingEffect>)
        ensures
            resume_step(*old(self), outcome, *final(self), effects@),
    {
        match (self.pending, outcome) {
            (Pending::PersistForNext, OnboardingOutcome::Persisted(Ok(()))) => self.resume_persisted_for_next(),
            (Pending::PersistForNext, OnboardingOutcome::Persisted(Err(msg))) => {
                self.state.status_message = Some(msg);
                self.show_idle()
            },
            (Pending::PersistForWizard, OnboardingOutcome::Persisted(Ok(()))) => {
                self.pending = Pending::GatewayForWizard;
                let effects = vec![OnboardingEffect::EnsureLocalGateway];
                assert(effects@ =~= seq![OnboardingEffect::EnsureLocalGateway]);
                effects
            },
            (Pending::PersistForWizard, OnboardingOutcome::Persisted(Err(msg))) => self.fail_wizard(msg),
            (Pending::GatewayForWizard, OnboardingOutcome::GatewayReady(Ok(()))) => {
                self.pending = Pending::WizardStart;
                let effects = vec![OnboardingEffect::StartWizard];
                assert(effects@ =~= seq![OnboardingEffect::StartWizard]);
                effects
            },
            (Pending::GatewayForWizard, OnboardingOutcome::GatewayReady(Err(msg))) => self.fail_wizard(msg),
            (Pending::WizardStart, OnboardingOutcome::WizardStarted(Ok(r))) => {
                apply_start(&mut self.state.wizard, &r);
                self.settle()
            },
            (Pending::WizardStart, OnboardingOutcome::WizardStarted(Err(msg))) => {
                self.state.wizard.is_starting = false;
                self.state.wizard.error_message = Some(msg);
                self.settle()
            },
            (Pending::WizardStart, OnboardingOutcome::WizardStartUndecodable(msg)) => {
                self.state.wizard.is_starting = false;
                self.state.wizard.error_message = Some(
                    String::from_str("Wizard start decode failed: ").concat(msg.as_str()),
                );
                self.settle()
            },
            (Pending::WizardNext, OnboardingOutcome::WizardAdvanced(Ok(r))) => {
                apply_next(&mut self.state.wizard, &r);
                self.settle()
            },
            (Pending::WizardNext, OnboardingOutcome::WizardAdvanced(Err(msg))) => self.resume_wizard_error(msg),
            (Pending::WizardNext, OnboardingOutcome::WizardNextUndecodable(msg)) => {
                self.state.wizard.is_submitting = false;
                self.state.wizard.error_message = Some(
                    String::from_str("Wizard step decode failed: ").concat(msg.as_str()),
                );
                self.settle()
            },
            _ => Vec::new(),
        }
    }
}


/// The text of an optional setting, empty where there is none.
pub open spec fn or_empty(o: Option<String>) -> Seq<char> {
    match o {
        Some(x) => x@,
        None => Seq::empty(),
    }
}

fn string_or_empty(o: &Option<String>) -> (r: String)
    ensures
        r@ == or_empty(*o),
{
    match o {
        Some(x) => x.clone(),
        None => String::new(),
    }
}

/// `bootstrap`: the mode and remote fields from the gateway config, the view
/// on the first page, shown where onboarding is due; where it is not, the
/// runtime starts.
pub open spec fn bootstrap_step(
    o: OnboardingFlow,
    gateway: GatewayConfig,
    settings: AppSettings,
    n: OnboardingFlow,
    e: Seq<OnboardingEffect>,
) -> bool {
    let s = o.state;
    let t = n.state;
    &&& t == (OnboardingViewState {
        visible: settings.onboarding_due(),
        page: OnboardingPage::Welcome,
        mode: connection_mode_of(gateway.mode),
        remote_url: t.remote_url,
        remote_target: t.remote_target,
        remote_identity: t.remote_identity,
        status_message: t.status_message,
        can_go_back: t.can_go_back,
        can_go_next: t.can_go_next,
        next_label: t.next_label,
        ..s
    })
    &&& t.remote_url@ == or_empty(gateway.remote_url)
    &&& t.remote_target@ == or_empty(gateway.remote_target)
    &&& t.remote_identity@ == or_empty(gateway.remote_identity)
    &&& opt_str(t.status_message) == Some(conn_message(t.mode))
    &&& nav_ok(t)
    &&& n.pending == o.pending
    &&& e.len() >= 1
    &&& shows(e[0], t)
    &&& if settings.onboarding_due() {
        e.len() == 1 && n.runtime_started == o.runtime_started
    } else {
        runtime_step(o.runtime_started, n, e.skip(1))
    }
}

/// What the flow does with an event from the view. Events count only while
/// onboarding is shown and nothing is awaited; the app holds them back
/// until then.
pub open spec fn event_step(o: OnboardingFlow, event: UiEvent, n: OnboardingFlow, e: Seq<OnboardingEffect>) -> bool {
    let s = o.state;
    let t = n.state;
    if !s.visible || o.pending != Pending::Idle {
        n == o && e.len() == 0
    } else {
        match event {
            UiEvent::OnboardingSelectMode(m) => {
                &&& t == (OnboardingViewState {
                    mode: m,
                    status_message: t.status_message,
                    can_go_back: t.can_go_back,
                    can_go_next: t.can_go_next,
                    next_label: t.next_label,
                    ..s
                })
                &&& opt_str(t.status_message) == Some(conn_message(m))
                &&& nav_ok(t)
                &&& n.runtime_started == o.runtime_started
                &&& n.pending == o.pending
                &&& e.len() == 1
                &&& shows(e[0], t)
            },
            UiEvent::OnboardingRemoteUrlChanged(u) => {
                &&& t == (OnboardingViewState { remote_url: u, ..s })
                &&& n.runtime_started == o.runtime_started
                &&& n.pending == o.pending
                &&& e.len() == 0
            },
            UiEvent::OnboardingRemoteTargetChanged(u) => {
                &&& t == (OnboardingViewState { remote_target: u, ..s })
                &&& n.runtime_started == o.runtime_started
                &&& n.pending == o.pending
                &&& e.len() == 0
            },
            UiEvent::OnboardingRemoteIdentityChanged(u) => {
                &&& t == (OnboardingViewState { remote_identity: u, ..s })
                &&& n.runtime_started == o.runtime_started
                &&& n.pending == o.pending
                &&& e.len() == 0
            },
            UiEvent::OnboardingBack => back_step(o, n, e),
            UiEvent::OnboardingNext => next_step(o, n, e),
            UiEvent::OnboardingWizardSubmit(v) => submit_step(o, opt_json(v), n, e),
            UiEvent::OnboardingWizardRetry => {
                &&& n.runtime_started == o.runtime_started
                &&& wizard_begun(s, n, e)
            },
            UiEvent::AppClosed => n == o && e.len() == 0,
        }
    }
}

impl OnboardingFlow {
    /// Loads the view from the gateway config and the settings; shows it.
    pub fn bootstrap(&mut self, gateway: &GatewayConfig, settings: &AppSettings) -> (effects: Vec<
        OnboardingEffect,
    >)
        ensures
            bootstrap_step(*old(self), *gateway, *settings, *final(self), effects@),
    {
        let mut effects: Vec<OnboardingEffect> = Vec::new();
        self.state.mode = match gateway.mode {
            GatewayMode::Local => ConnectionMode::Local,
            GatewayMode::Remote => ConnectionMode::Remote,
            GatewayMode::Unconfigured => ConnectionMode::Unconfigured,
        };
        self.state.remote_url = string_or_empty(&gateway.remote_url);
        self.state.remote_target = string_or_empty(&gateway.remote_target);
        self.state.remote_identity = string_or_empty(&gateway.remote_identity);
        let should_show = settings.should_show_onboarding();
        self.state.visible = should_show;
        self.state.page = OnboardingPage::Welcome;
        self.refresh_connection_message();
        self.refresh_navigation();
        self.push_state(&mut effects);
        if !should_show {
            let ghost mid = effects@;
            self.start_runtime_if_needed(&mut effects);
            proof {
                assert(effects@[0] == effects@.take(1)[0]);
                assert(effects@.skip(1) =~= effects@.skip(mid.len() as int));
            }
        }
        effects
    }

    /// Takes in an event from the view.
    pub fn handle_event(&mut self, event: UiEvent) -> (effects: Vec<OnboardingEffect>)
        ensures
            event_step(*old(self), event, *final(self), effects@),
    {
        if !self.state.visible || self.pending != Pending::Idle {
            return Vec::new();
        }
        match event {
            UiEvent::OnboardingSelectMode(mode) => {
                let mut effects: Vec<OnboardingEffect> = Vec::new();
                self.state.mode = mode;
                self.refresh_connection_message();
                self.refresh_navigation();
                self.push_state(&mut effects);
                effects
            },
            UiEvent::OnboardingRemoteUrlChanged(url) => {
                self.state.remote_url = url;
                Vec::new()
            },
            UiEvent::OnboardingRemoteTargetChanged(target) => {
                self.state.remote_target = target;
                Vec::new()
            },
            UiEvent::OnboardingRemoteIdentityChanged(identity) => {
                self.state.remote_identity = identity;
                Vec::new()
            },
            UiEvent::OnboardingBack => self.handle_back(),
            UiEvent::OnboardingNext => self.handle_next(),
            UiEvent::OnboardingWizardSubmit(value) => self.handle_wizard_submit(value),
            UiEvent::OnboardingWizardRetry => {
                let mut effects: Vec<OnboardingEffect> = Vec::new();
                self.begin_wizard(&mut effects);
                assert(effects@.skip(0) =~= effects@);
                effects
            },
            UiEvent::AppClosed => Vec::new(),
        }
    }
}

/// What starting the node runtime takes for a gateway mode.
#[derive(Clone, Copy, Debug, PartialEq, Eq, Structural)]
pub struct RuntimePlan {
    /// Make sure the local gateway runs first (a failure is only logged).
    pub ensure_local_gateway: bool,
    /// Start the node.
    pub start_node: bool,
}

/// `start_runtime_if_needed`: nothing without a gateway; the local gateway
/// and then the node in local mode; the node in remote mode.
pub fn runtime_plan(mode: GatewayMode) -> (r: RuntimePlan)
    ensures
        r.ensure_local_gateway == (mode == GatewayMode::Local),
        r.start_node == (mode != GatewayMode::Unconfigured),
{
    match mode {
        GatewayMode::Unconfigured => RuntimePlan { ensure_local_gateway: false, start_node: false },
        GatewayMode::Local => RuntimePlan { ensure_local_gateway: true, start_node: true },
        GatewayMode::Remote => RuntimePlan { ensure_local_gateway: false, start_node: true },
    }
}


/// Back undoes Next: from the first page, from the permissions page, and
/// from the wizard (which only local mode reaches), Next where it is
/// offered and then Back lead to the page one started on, with the mode,
/// the remote fields and the wizard as they were.
pub proof fn law_back_undoes_next(
    o: OnboardingFlow,
    m: OnboardingFlow,
    e1: Seq<OnboardingEffect>,
    n: OnboardingFlow,
    e2: Seq<OnboardingEffect>,
)
    requires
        o.state.can_go_next,
        o.state.page == OnboardingPage::Welcome || o.state.page == OnboardingPage::Permissions || (
        o.state.page == OnboardingPage::Wizard && o.state.mode == ConnectionMode::Local),
        next_step(o, m, e1),
        back_step(m, n, e2),
    ensures
        n.state.page == o.state.page,
        n.state.mode == o.state.mode,
        n.state.remote_url == o.state.remote_url,
        n.state.remote_target == o.state.remote_target,
        n.state.remote_identity == o.state.remote_identity,
        n.state.wizard == o.state.wizard,
{
}

/// Every step keeps the navigation consistent:
/// after Back, and after Next where it moves to another page, the view
/// offers Back exactly off the first page and Next exactly where it is not
/// an unfinished wizard.
pub proof fn law_navigation_consistent(o: OnboardingFlow, n: OnboardingFlow, e: Seq<OnboardingEffect>)
    requires
        back_step(o, n, e) || (next_step(o, n, e) && o.state.can_go_next && o.state.page != OnboardingPage::Connection),
    ensures
        nav_ok(n.state),
{
}


/// The node runtime is started at most once: finishing onboarding, or
/// bootstrapping where it is not due, asks for it only while it was not
/// started yet, and afterwards it counts as started.
pub proof fn law_runtime_starts_once(
    o: OnboardingFlow,
    gateway: GatewayConfig,
    settings: AppSettings,
    n: OnboardingFlow,
    e: Seq<OnboardingEffect>,
)
    requires
        finish_step(o, n, e) || (bootstrap_step(o, gateway, settings, n, e) && !settings.onboarding_due()),
    ensures
        n.runtime_started,
        o.runtime_started ==> forall|i: int| 0 <= i < e.len() ==> !(#[trigger] e[i] is StartRuntime),
{
    if o.runtime_started {
        if finish_step(o, n, e) {
            assert(e.skip(2).len() == 0);
            assert forall|i: int| 0 <= i < e.len() implies !(#[trigger] e[i] is StartRuntime) by {
                assert(i < 2);
            }
        } else {
            assert(e.skip(1).len() == 0);
            assert forall|i: int| 0 <= i < e.len() implies !(#[trigger] e[i] is StartRuntime) by {
                assert(i < 1);
            }
        }
    }
}


/// Starting the wizard settles. While the flow waits on the way to the
/// wizard's start (writing the connection choice, starting the local
/// gateway, `wizard.start`), the view stays as it was, starting. Once the
/// wait ends, whatever came back: the wizard is neither starting nor
/// submitting, it has an error or a session, the page is the permissions
/// page where the wizard is complete and unchanged otherwise, and that view
/// is shown.
pub proof fn law_wizard_start_settles(
    o: OnboardingFlow,
    out: OnboardingOutcome,
    n: OnboardingFlow,
    e: Seq<OnboardingEffect>,
)
    requires
        o.pending == Pending::PersistForWizard || o.pending == Pending::GatewayForWizard || o.pending
            == Pending::WizardStart,
        wizard_starting(o.state.wizard),
        resume_step(o, out, n, e),
    ensures
        n.pending != Pending::Idle ==> n.state == o.state && wizard_starting(n.state.wizard),
        n.pending == Pending::Idle ==> {
            let w = n.state.wizard;
            &&& !w.is_starting
            &&& !w.is_submitting
            &&& (w.error_message is Some || w.session_id is Some)
            &&& (w.is_complete ==> n.state.page == OnboardingPage::Permissions)
            &&& (!w.is_complete ==> n.state.page == o.state.page)
            &&& e.len() == 1
            &&& shows(e[0], n.state)
        },
{
}

/// Back, as the flow takes it from the view: from the first two pages to
/// the first page; from the wizard to the connection page, with the wizard
/// cleared and its session cancelled where it had one; from the permissions
/// to the wizard in local mode and to the connection page otherwise; from
/// the last page to the permissions. Back is then offered off the first
/// page, and Next is labelled "Next"; the new view is shown last.
pub proof fn law_back_pages(o: OnboardingFlow, n: OnboardingFlow, e: Seq<OnboardingEffect>)
    requires
        o.state.visible,
        o.pending == Pending::Idle,
        event_step(o, UiEvent::OnboardingBack, n, e),
    ensures
        (o.state.page == OnboardingPage::Welcome || o.state.page == OnboardingPage::Connection)
            ==> n.state.page == OnboardingPage::Welcome,
        o.state.page == OnboardingPage::Wizard ==> {
            &&& n.state.page == OnboardingPage::Connection
            &&& wizard_cleared(n.state.wizard)
            &&& (e[0] is CancelWizard <==> o.state.wizard.session_id is Some)
            &&& (o.state.wizard.session_id is Some ==> (e[0] matches OnboardingEffect::CancelWizard(id)
                && Some(id@) == opt_str(o.state.wizard.session_id)))
        },
        o.state.page != OnboardingPage::Wizard ==> n.state.wizard == o.state.wizard && e.len() == 1,
        o.state.page == OnboardingPage::Permissions ==> n.state.page == (if o.state.mode == ConnectionMode::Local {
            OnboardingPage::Wizard
        } else {
            OnboardingPage::Connection
        }),
        o.state.page == OnboardingPage::Ready ==> n.state.page == OnboardingPage::Permissions,
        n.state.can_go_back == (n.state.page != OnboardingPage::Welcome),
        n.state.next_label@ == "Next"@,
        e.len() >= 1,
        shows(e[e.len() - 1], n.state),
{
}

} // verus!
