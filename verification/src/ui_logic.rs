//! What the windows show and do: canvas actions, page headings, status
//! lines, and the value a wizard step submits.
use vstd::prelude::*;
use crate::env::opt_str;
use crate::json::{JsonValue, JsonView, json_equal, json_same, lemma_view_items, view_items};
use crate::text::{str_eq, trim, trim_string};
use crate::ui::{
    ConnectionMode, NodeStatusView, OnboardingPage, OnboardingWizardOptionView, OnboardingWizardStepType,
    OnboardingWizardViewState,
};

verus! {

/// A canvas request from the node runtime.
#[derive(Clone, Debug)]
#[allow(inconsistent_fields)]
pub enum CanvasCommand {
    Present { url: Option<String> },
    Hide,
    Navigate { url: String },
}

/// One thing done to the canvas window.
#[derive(Clone, Debug, PartialEq, Eq)]
pub enum CanvasUiAction {
    Load(Option<String>),
    Show,
    Hide,
}

/// What a canvas request does, in order: `present` loads its URL (where it
/// has one) and shows the window; `hide` hides it; `navigate` loads its URL
/// and shows the window.
pub open spec fn planned(command: CanvasCommand, actions: Seq<CanvasUiAction>) -> bool {
    match command {
        CanvasCommand::Present { url } => match url {
            Some(u) => actions.len() == 2 && actions[1] is Show && (actions[0] matches CanvasUiAction::Load(l) && opt_str(l)
                == Some(u@)),
            None => actions.len() == 1 && actions[0] is Show,
        },
        CanvasCommand::Hide => actions.len() == 1 && actions[0] is Hide,
        CanvasCommand::Navigate { url } => actions.len() == 2 && actions[1] is Show && (actions[0] matches CanvasUiAction::Load(
            l,
        ) && opt_str(l) == Some(url@)),
    }
}

pub fn plan_canvas_actions(command: CanvasCommand) -> (r: Vec<CanvasUiAction>)
    ensures
        planned(command, r@),
{
    let mut r: Vec<CanvasUiAction> = Vec::new();
    match command {
        CanvasCommand::Present { url } => {
            if url.is_some() {
                r.push(CanvasUiAction::Load(url));
            }
            r.push(CanvasUiAction::Show);
        },
        CanvasCommand::Hide => {
            r.push(CanvasUiAction::Hide);
        },
        CanvasCommand::Navigate { url } => {
            r.push(CanvasUiAction::Load(Some(url)));
            r.push(CanvasUiAction::Show);
        },
    }
    r
}

/// The URL the canvas loads for a target: the trimmed target, or none (the
/// built-in page) where it is blank or `/`.
pub open spec fn canonical_target(raw: Option<Seq<char>>) -> Option<Seq<char>> {
    let t = match raw {
        Some(r) => trim(r),
        None => Seq::empty(),
    };
    if t.len() == 0 || t == "/"@ {
        None
    } else {
        Some(t)
    }
}

pub fn canonical_canvas_target(raw: Option<&str>) -> (r: Option<String>)
    ensures
        opt_str(r) == canonical_target(
            match raw {
                Some(s) => Some(s@),
                None => None,
            },
        ),
{
    let t = match raw {
        Some(s) => trim_string(s),
        None => String::new(),
    };
    if t.unicode_len() == 0 || str_eq(t.as_str(), "/") {
        None
    } else {
        Some(t)
    }
}

/// The title and subtitle of each onboarding page.
pub open spec fn heading_of(page: OnboardingPage) -> (Seq<char>, Seq<char>) {
    match page {
        OnboardingPage::Welcome => ("Welcome to OpenClaw"@, "Set up your Linux app and Gateway."@),
        OnboardingPage::Connection => ("Choose Gateway mode"@, "Pick Local, Remote, or configure later."@),
        OnboardingPage::Wizard => ("Setup Wizard"@, "Guided setup from the Gateway."@),
        OnboardingPage::Permissions => ("Permissions"@, "Review desktop permissions required by OpenClaw."@),
        OnboardingPage::Ready => ("All set"@, "Finish onboarding and start using OpenClaw."@),
    }
}

pub fn page_heading(page: OnboardingPage) -> (r: (&'static str, &'static str))
    ensures
        (r.0@, r.1@) == heading_of(page),
{
    match page {
        OnboardingPage::Welcome => ("Welcome to OpenClaw", "Set up your Linux app and Gateway."),
        OnboardingPage::Connection => ("Choose Gateway mode", "Pick Local, Remote, or configure later."),
        OnboardingPage::Wizard => ("Setup Wizard", "Guided setup from the Gateway."),
        OnboardingPage::Permissions => ("Permissions", "Review desktop permissions required by OpenClaw."),
        OnboardingPage::Ready => ("All set", "Finish onboarding and start using OpenClaw."),
    }
}

/// What the last onboarding page says of the chosen mode.
pub open spec fn summary_of(mode: ConnectionMode) -> Seq<char> {
    match mode {
        ConnectionMode::Local => "Local mode selected. The Linux app will use the local Gateway."@,
        ConnectionMode::Remote => "Remote mode selected. The Linux app will connect to the configured remote Gateway."@,
        ConnectionMode::Unconfigured => "Gateway setup skipped. You can configure Local or Remote mode later."@,
    }
}

pub fn ready_summary(mode: ConnectionMode) -> (r: &'static str)
    ensures
        r@ == summary_of(mode),
{
    match mode {
        ConnectionMode::Local => "Local mode selected. The Linux app will use the local Gateway.",
        ConnectionMode::Remote => "Remote mode selected. The Linux app will connect to the configured remote Gateway.",
        ConnectionMode::Unconfigured => "Gateway setup skipped. You can configure Local or Remote mode later.",
    }
}

/// The two status lines: whether the node is connected, and its last error
/// (empty where there is none).
pub open spec fn status_lines(connected: bool, last_error: Option<Seq<char>>) -> (Seq<char>, Seq<char>) {
    let first = if connected {
        "Node mode: Connected"@
    } else {
        "Node mode: Disconnected"@
    };
    let e = match last_error {
        Some(e) => e,
        None => Seq::empty(),
    };
    (first, if e.len() == 0 { Seq::empty() } else { "Last error: "@ + e })
}

pub fn status_texts(status: &NodeStatusView) -> (r: (String, String))
    ensures
        (r.0@, r.1@) == status_lines(status.connected, opt_str(status.last_error)),
{
    let first = if status.connected {
        String::from_str("Node mode: Connected")
    } else {
        String::from_str("Node mode: Disconnected")
    };
    let second = match &status.last_error {
        Some(e) => if e.unicode_len() == 0 {
            String::new()
        } else {
            String::from_str("Last error: ").concat(e.as_str())
        },
        None => String::new(),
    };
    (first, second)
}

/// The label of a step's submit button.
pub fn submit_label(step_type: &OnboardingWizardStepType) -> (r: &'static str)
    ensures
        r@ == if step_type is Action {
            "Run"@
        } else {
            "Continue"@
        },
{
    match step_type {
        OnboardingWizardStepType::Action => "Run",
        _ => "Continue",
    }
}

/// What the input widgets of a wizard step hold.
pub enum WizardInput {
    Empty,
    Text(String),
    Confirm(bool),
    Select { active: Option<u32>, values: Vec<JsonValue> },
    Multiselect(Vec<(bool, JsonValue)>),
}

/// The selected values of a multiselect, in order.
pub open spec fn selected_values(rows: Seq<(bool, JsonValue)>) -> Seq<JsonView>
    decreases rows.len(),
{
    if rows.len() == 0 {
        Seq::empty()
    } else if rows.last().0 {
        selected_values(rows.drop_last()).push(rows.last().1@)
    } else {
        selected_values(rows.drop_last())
    }
}

/// `wizard_submit_value`: a text step submits its text, a confirm step
/// whether it is ticked, a select step the chosen option's value, a
/// multiselect the ticked options' values (an empty list where its rows are
/// missing), an action `true`; other steps, or input of the wrong kind,
/// submit nothing.
pub open spec fn submit_value(step_type: Option<OnboardingWizardStepType>, input: WizardInput) -> Option<JsonView> {
    match step_type {
        Some(OnboardingWizardStepType::Text) => match input {
            WizardInput::Text(t) => Some(JsonView::Str(t@)),
            _ => None,
        },
        Some(OnboardingWizardStepType::Confirm) => match input {
            WizardInput::Confirm(b) => Some(JsonView::Bool(b)),
            _ => None,
        },
        Some(OnboardingWizardStepType::Select) => match input {
            WizardInput::Select { active, values } => match active {
                Some(i) => if (i as int) < values@.len() {
                    Some(values@[i as int]@)
                } else {
                    None
                },
                None => None,
            },
            _ => None,
        },
        Some(OnboardingWizardStepType::Multiselect) => match input {
            WizardInput::Multiselect(rows) => Some(JsonView::Array(selected_values(rows@))),
            _ => Some(JsonView::Array(Seq::empty())),
        },
        Some(OnboardingWizardStepType::Action) => Some(JsonView::Bool(true)),
        _ => None,
    }
}

pub open spec fn opt_json(o: Option<JsonValue>) -> Option<JsonView> {
    match o {
        Some(v) => Some(v@),
        None => None,
    }
}

/// What a step submits is what the user gave: a confirm step the state of
/// its checkbox (so ticked and unticked submit different answers), a text
/// step its text, a select step the value of the chosen option.
pub proof fn law_submit_echoes_input(ticked: bool, text: String, active: u32, values: Vec<JsonValue>)
    ensures
        submit_value(Some(OnboardingWizardStepType::Confirm), WizardInput::Confirm(ticked))
            == Some(JsonView::Bool(ticked)),
        submit_value(Some(OnboardingWizardStepType::Confirm), WizardInput::Confirm(true))
            != submit_value(Some(OnboardingWizardStepType::Confirm), WizardInput::Confirm(false)),
        submit_value(Some(OnboardingWizardStepType::Text), WizardInput::Text(text)) == Some(JsonView::Str(text@)),
        (active as int) < values@.len() ==> submit_value(
            Some(OnboardingWizardStepType::Select),
            WizardInput::Select { active: Some(active), values },
        ) == Some(values@[active as int]@),
{
}

pub fn wizard_submit_value(step_type: Option<&OnboardingWizardStepType>, input: &WizardInput) -> (r: Option<JsonValue>)
    ensures
        opt_json(r) == submit_value(
            match step_type {
                Some(t) => Some(*t),
                None => None,
            },
            *input,
        ),
{
    match step_type {
        Some(OnboardingWizardStepType::Text) => match input {
            WizardInput::Text(t) => Some(JsonValue::Str(t.clone())),
            _ => None,
        },
        Some(OnboardingWizardStepType::Confirm) => match input {
            WizardInput::Confirm(b) => Some(JsonValue::Bool(*b)),
            _ => None,
        },
        Some(OnboardingWizardStepType::Select) => match input {
            WizardInput::Select { active, values } => match active {
                Some(i) => {
                    let i = *i as usize;
                    if i < values.len() {
                        Some(values[i].deep_copy())
                    } else {
                        None
                    }
                },
                None => None,
            },
            _ => None,
        },
        Some(OnboardingWizardStepType::Multiselect) => match input {
            WizardInput::Multiselect(rows) => {
                let mut items: Vec<JsonValue> = Vec::new();
                let mut i: usize = 0;
                while i < rows.len()
                    invariant
                        i <= rows@.len(),
                        view_items(items@) == selected_values(rows@.take(i as int)),
                    decreases rows@.len() - i,
                {
                    proof {
                        assert(rows@.take(i + 1).drop_last() =~= rows@.take(i as int));
                        assert(rows@.take(i + 1).last() == rows@[i as int]);
                        lemma_view_items(items@);
                    }
                    if rows[i].0 {
                        let ghost before = items@;
                        items.push(rows[i].1.deep_copy());
                        proof {
                            lemma_view_items(items@);
                            lemma_view_items(before);
                            assert(view_items(items@) =~= view_items(before).push(rows@[i as int].1@));
                        }
                    }
                    i = i + 1;
                }
                assert(rows@.take(rows@.len() as int) =~= rows@);
                Some(JsonValue::Array(items))
            },
            _ => {
                let items: Vec<JsonValue> = Vec::new();
                assert(view_items(items@) =~= Seq::empty());
                Some(JsonValue::Array(items))
            },
        },
        Some(OnboardingWizardStepType::Action) => Some(JsonValue::Bool(true)),
        _ => None,
    }
}

/// The option a select step starts on: the first whose value is the step's
/// initial value, else the first option, else none.
pub open spec fn initial_index(options: Seq<OnboardingWizardOptionView>, initial: Option<JsonView>) -> Option<int> {
    let m = match initial {
        Some(v) => first_with_value(options, v),
        None => -1,
    };
    if m >= 0 {
        Some(m)
    } else if options.len() > 0 {
        Some(0)
    } else {
        None
    }
}

/// The index of the first option whose value equals `v` (as `Value`'s `==`
/// compares), or -1.
pub open spec fn first_with_value(options: Seq<OnboardingWizardOptionView>, v: JsonView) -> int
    decreases options.len(),
{
    if options.len() == 0 {
        -1
    } else if json_same(v, options[0].value@) {
        0
    } else {
        let r = first_with_value(options.drop_first(), v);
        if r < 0 {
            -1
        } else {
            r + 1
        }
    }
}

pub fn initial_select_index(options: &Vec<OnboardingWizardOptionView>, initial: Option<&JsonValue>) -> (r: Option<usize>)
    ensures
        match r {
            Some(i) => initial_index(options@, match initial {
                Some(v) => Some(v@),
                None => None,
            }) == Some(i as int),
            None => initial_index(options@, match initial {
                Some(v) => Some(v@),
                None => None,
            }) is None,
        },
{
    match initial {
        Some(v) => {
            let mut i: usize = 0;
            assert(options@.skip(0) =~= options@);
            while i < options.len()
                invariant
                    i <= options@.len(),
                    initial == Some(v),
                    first_with_value(options@, v@) == (if first_with_value(options@.skip(i as int), v@) < 0 {
                        -1
                    } else {
                        first_with_value(options@.skip(i as int), v@) + i
                    }),
                decreases options@.len() - i,
            {
                assert(options@.skip(i as int).drop_first() =~= options@.skip(i + 1));
                assert(options@.skip(i as int)[0] == options@[i as int]);
                if json_equal(v, &options[i].value) {
                    return Some(i);
                }
                i = i + 1;
            }
            assert(options@.skip(i as int).len() == 0);
        },
        None => {},
    }
    if options.len() > 0 {
        Some(0)
    } else {
        None
    }
}

/// Whether a multiselect option starts ticked: the step's initial value is
/// a list with an item equal to its value (as `Value`'s `==` compares).
pub open spec fn initially_ticked(initial: Option<JsonView>, value: JsonView) -> bool {
    match initial {
        Some(JsonView::Array(items)) => holds_equal(items, value),
        _ => false,
    }
}

/// Whether the list has an item equal to `value` (as `Value`'s `==` compares).
pub open spec fn holds_equal(items: Seq<JsonView>, value: JsonView) -> bool {
    exists|i: int| 0 <= i < items.len() && json_same(#[trigger] items[i], value)
}

pub fn initially_selected(initial: Option<&JsonValue>, value: &JsonValue) -> (r: bool)
    ensures
        r == initially_ticked(
            match initial {
                Some(v) => Some(v@),
                None => None,
            },
            value@,
        ),
{
    match initial {
        Some(JsonValue::Array(items)) => {
            proof {
                lemma_view_items(items@);
            }
            let mut i: usize = 0;
            while i < items.len()
                invariant
                    i <= items@.len(),
                    initial matches Some(iv) && iv@ == JsonView::Array(view_items(items@)),
                    view_items(items@).len() == items@.len(),
                    forall|j: int| 0 <= j < items@.len() ==> #[trigger] view_items(items@)[j] == items@[j]@,
                    forall|j: int| 0 <= j < i ==> !json_same(#[trigger] view_items(items@)[j], value@),
                decreases items@.len() - i,
            {
                if json_equal(&items[i], value) {
                    let ghost seq = view_items(items@);
                    assert(0 <= i < seq.len() && json_same(seq[i as int], value@));
                    assert(holds_equal(seq, value@));
                    return true;
                }
                i = i + 1;
            }
            false
        },
        _ => false,
    }
}


/// What the wizard page shows, in order of precedence.
#[derive(Clone, Copy, Debug, PartialEq, Eq, Structural)]
pub enum WizardPanel {
    /// The error, with a button to retry.
    Error,
    /// A spinner while the wizard starts.
    Starting,
    /// The note that the wizard is complete.
    Complete,
    /// The current step and its input.
    Step,
    /// The note that a step is awaited.
    Waiting,
}

/// The wizard page: an error first, then a starting wizard, then a complete
/// one, then the current step; otherwise the page waits for a step.
pub fn wizard_panel(w: &OnboardingWizardViewState) -> (r: WizardPanel)
    ensures
        r == (if w.error_message is Some {
            WizardPanel::Error
        } else if w.is_starting {
            WizardPanel::Starting
        } else if w.is_complete {
            WizardPanel::Complete
        } else if w.step is Some {
            WizardPanel::Step
        } else {
            WizardPanel::Waiting
        }),
{
    if w.error_message.is_some() {
        WizardPanel::Error
    } else if w.is_starting {
        WizardPanel::Starting
    } else if w.is_complete {
        WizardPanel::Complete
    } else if w.step.is_some() {
        WizardPanel::Step
    } else {
        WizardPanel::Waiting
    }
}

/// The text a text step's entry starts with: the initial value where it is a
/// string.
pub fn initial_text(initial: Option<&JsonValue>) -> (r: Option<String>)
    ensures
        opt_str(r) == match initial {
            Some(v) => v@.as_str(),
            None => None,
        },
{
    match initial {
        Some(v) => match v.as_str() {
            Some(t) => Some(t.clone()),
            None => None,
        },
        None => None,
    }
}

/// Whether a confirm step starts ticked: its initial value is `true`.
pub fn initial_confirm(initial: Option<&JsonValue>) -> (r: bool)
    ensures
        r == (match initial {
            Some(v) => v@.as_bool() == Some(true),
            None => false,
        }),
{
    match initial {
        Some(v) => match v.as_bool() {
            Some(b) => b,
            None => false,
        },
        None => false,
    }
}

} // verus!
