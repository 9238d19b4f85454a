//! The send-message plan: a state machine that opens a chat, focuses its
//! editor, types or pastes the payload and waits until the send shows.
//!
//! Each call of `select_action` reads one snapshot of the screen and decides
//! the next step. Opening a chat and pasting a file or image are work done
//! outside: the plan hands them out as a `PlanStep`, and after opening a chat
//! the caller reports the outcome to `resume_after_open`.
use vstd::prelude::*;

use crate::a11y::{
    any_node, chat_list_click_point, chat_list_item, center, contains_message, edit_send_pair, named,
    edit_send_pair_in, find_edit_send_pair, first_send_button, forest_has_send_button,
    has_send_button, has_state, is_send_button, node_has_state, opened_chat_matches,
    opened_chat_spec, tree_has_name, tree_has_send_button, A11yNode, Bounds,
};

verus! {

broadcast use vstd::string::group_string_axioms;

/// The send-message plan.
pub struct SendMessagePlan;

/// What to send, and to which chat.
pub struct SendMessageParams {
    pub chat_id: String,
    pub chat_name: Option<String>,
    pub message: Option<String>,
    pub image_path: Option<String>,
    pub image_mime: Option<String>,
    pub file_path: Option<String>,
}

/// Where the plan stands.
#[derive(Clone, Copy, Debug, PartialEq, Eq, Structural)]
pub enum SendMessagePhase {
    Opening,
    Focusing,
    Inputting,
    Confirming,
    Done,
}

/// The outcome of opening a chat.
#[derive(Clone, Copy, Debug, PartialEq, Eq, Structural)]
pub struct OpenChatResult {
    pub ok: bool,
    pub skipped: Option<bool>,
}

/// The state the plan carries from one call to the next.
#[derive(Clone, Copy, Debug, PartialEq, Eq, Structural)]
pub struct SendMessagePlanState {
    pub phase: SendMessagePhase,
    pub open_result: Option<OpenChatResult>,
    pub open_attempts: u8,
    pub confirm_attempts: u32,
    pub send_retries: u8,
}

/// What the plan reads of the desktop besides the accessibility tree: whether
/// a popup is up (and recognised), the state of the main window, and the
/// main window's frame (its screen rectangle), if it has one.
pub struct PlanObservation {
    pub popup: bool,
    pub main_state_id: Option<String>,
    pub main_window_frame: Option<Bounds>,
}

/// One keystroke-level step of a UI sequence.
pub enum Keystroke {
    Wait { ms: u64 },
    Key { combo: String },
    Type { text: String, selector: Option<String> },
}

/// A UI action the plan asks for.
pub enum Action {
    DismissPopup,
    WaitShort,
    ClickBounds(Bounds),
    Sequence(Vec<Keystroke>),
}

/// An action together with the frame of the window it is meant for: the
/// main window's frame, for every action the plan selects.
pub struct SelectedAction {
    pub action: Action,
    pub frame: Option<Bounds>,
}

/// A helper program run with fixed arguments before an action.
pub struct PasteCommand {
    pub program: String,
    pub args: Vec<String>,
}

/// What one call of the plan decides.
pub enum PlanStep {
    /// Return this action (or none) to the caller.
    Finish(Option<SelectedAction>),
    /// Open the chat of the parameters, then report to `resume_after_open`.
    OpenChat { force: bool, click: Option<(i64, i64)> },
    /// Run the command, then return the action.
    Paste { command: PasteCommand, then: SelectedAction },
}

pub enum KeystrokeView {
    Wait(u64),
    Key(Seq<char>),
    Type(Seq<char>, Option<Seq<char>>),
}

pub enum ActionView {
    DismissPopup,
    WaitShort,
    ClickBounds(Bounds),
    Sequence(Seq<KeystrokeView>),
}

pub struct SelectedActionView {
    pub action: ActionView,
    pub frame: Option<Bounds>,
}

pub enum PlanStepView {
    Finish(Option<SelectedActionView>),
    OpenChat { force: bool, click: Option<(i64, i64)> },
    Paste { program: Seq<char>, args: Seq<Seq<char>>, then: SelectedActionView },
}

impl View for Keystroke {
    type V = KeystrokeView;

    open spec fn view(&self) -> KeystrokeView {
        match self {
            Keystroke::Wait { ms } => KeystrokeView::Wait(*ms),
            Keystroke::Key { combo } => KeystrokeView::Key(combo@),
            Keystroke::Type { text, selector } => KeystrokeView::Type(
                text@,
                match selector {
                    Some(s) => Some(s@),
                    None => None,
                },
            ),
        }
    }
}

impl View for Action {
    type V = ActionView;

    open spec fn view(&self) -> ActionView {
        match self {
            Action::DismissPopup => ActionView::DismissPopup,
            Action::WaitShort => ActionView::WaitShort,
            Action::ClickBounds(b) => ActionView::ClickBounds(*b),
            Action::Sequence(v) => ActionView::Sequence(v@.map_values(|k: Keystroke| k@)),
        }
    }
}

impl View for SelectedAction {
    type V = SelectedActionView;

    open spec fn view(&self) -> SelectedActionView {
        SelectedActionView { action: self.action@, frame: self.frame }
    }
}

pub open spec fn option_action_view(a: Option<SelectedAction>) -> Option<SelectedActionView> {
    match a {
        Some(x) => Some(x@),
        None => None,
    }
}

impl View for PlanStep {
    type V = PlanStepView;

    open spec fn view(&self) -> PlanStepView {
        match self {
            PlanStep::Finish(a) => PlanStepView::Finish(option_action_view(*a)),
            PlanStep::OpenChat { force, click } => PlanStepView::OpenChat {
                force: *force,
                click: *click,
            },
            PlanStep::Paste { command, then } => PlanStepView::Paste {
                program: command.program@,
                args: command.args@.map_values(|s: String| s@),
                then: then@,
            },
        }
    }
}

// ---------------------------------------------------------------------------
// The plan as a transition function on plain values.

pub open spec fn main_is(obs: PlanObservation, id: Seq<char>) -> bool {
    match obs.main_state_id {
        Some(s) => s@ == id,
        None => false,
    }
}

/// The action, for the main window's frame.
pub open spec fn selected(obs: PlanObservation, a: ActionView) -> SelectedActionView {
    SelectedActionView { action: a, frame: obs.main_window_frame }
}

/// Return the action (for the main window's frame), or none.
pub open spec fn finish(obs: PlanObservation, a: Option<ActionView>) -> PlanStepView {
    match a {
        Some(x) => PlanStepView::Finish(Some(selected(obs, x))),
        None => PlanStepView::Finish(None),
    }
}

pub open spec fn wait_short(obs: PlanObservation) -> PlanStepView {
    finish(obs, Some(ActionView::WaitShort))
}

/// Wait half a second, then press Return: sends a pasted file or image.
pub open spec fn submit_paste() -> ActionView {
    ActionView::Sequence(seq![KeystrokeView::Wait(500), KeystrokeView::Key("Return"@)])
}

/// Type the message, wait a moment, press Return.
pub open spec fn type_and_submit(text: Seq<char>) -> ActionView {
    ActionView::Sequence(
        seq![
            KeystrokeView::Type(text, None),
            KeystrokeView::Wait(100),
            KeystrokeView::Key("Return"@),
        ],
    )
}

pub open spec fn with_phase(
    st: SendMessagePlanState,
    phase: SendMessagePhase,
) -> SendMessagePlanState {
    SendMessagePlanState { phase, ..st }
}

/// The send may be taken as done: a text message once it shows in the chat,
/// a file or image once the send button has gone grey.
pub open spec fn can_finish(
    message_visible: bool,
    send_button_disabled: bool,
    has_non_text_payload: bool,
) -> bool {
    if has_non_text_payload {
        send_button_disabled
    } else {
        message_visible
    }
}

pub open spec fn inputting_spec(
    st: SendMessagePlanState,
    p: SendMessageParams,
    obs: PlanObservation,
    tree: A11yNode,
) -> (SendMessagePlanState, PlanStepView) {
    if edit_send_pair(tree) is None {
        (st, finish(obs, None))
    } else {
        let next = with_phase(st, SendMessagePhase::Confirming);
        match (p.file_path, p.image_path, p.message) {
            (Some(fp), _, _) => (
                next,
                PlanStepView::Paste {
                    program: "paste-file"@,
                    args: seq![fp@],
                    then: selected(obs, submit_paste()),
                },
            ),
            (None, Some(ip), _) => (
                next,
                PlanStepView::Paste {
                    program: "paste-image"@,
                    args: match p.image_mime {
                        Some(m) => seq![ip@, m@],
                        None => seq![ip@],
                    },
                    then: selected(obs, submit_paste()),
                },
            ),
            (None, None, Some(m)) => (next, finish(obs, Some(type_and_submit(m@)))),
            (None, None, None) => (next, finish(obs, None)),
        }
    }
}

pub open spec fn focusing_spec(
    st: SendMessagePlanState,
    p: SendMessageParams,
    obs: PlanObservation,
    tree: A11yNode,
) -> (SendMessagePlanState, PlanStepView) {
    if !main_is(obs, "chat_open"@) {
        (st, finish(obs, None))
    } else if p.chat_name is Some && !opened_chat_spec(tree, p.chat_name->0@) {
        if st.open_attempts < 2 {
            (
                SendMessagePlanState {
                    open_attempts: (st.open_attempts + 1) as u8,
                    phase: SendMessagePhase::Opening,
                    ..st
                },
                wait_short(obs),
            )
        } else {
            (st, finish(obs, None))
        }
    } else {
        match edit_send_pair(tree) {
            None => (st, finish(obs, None)),
            Some((edit, _)) => {
                let next = with_phase(st, SendMessagePhase::Inputting);
                if has_state(edit, "FOCUSED"@) {
                    inputting_spec(next, p, obs, tree)
                } else {
                    match edit.bounds {
                        Some(b) => (next, finish(obs, Some(ActionView::ClickBounds(b)))),
                        None => (next, finish(obs, None)),
                    }
                }
            },
        }
    }
}

/// The confirmation check passes on this snapshot: the rule of `can_finish`
/// applied to the message showing in the chat, the send button being grey,
/// and the payload holding a file or image.
pub open spec fn confirmation_passes(p: SendMessageParams, tree: A11yNode) -> bool {
    let message_visible = match p.message {
        Some(m) => tree_has_name(tree, m@),
        None => false,
    };
    let send_button_disabled = match edit_send_pair(tree) {
        Some((_, send)) => has_state(send, "DISABLED"@),
        None => false,
    };
    can_finish(message_visible, send_button_disabled, p.image_path is Some || p.file_path is Some)
}

/// This call of `select_action` counts one more confirmation check: no popup
/// is in the way, the plan is confirming, and the check does not pass.
pub open spec fn confirm_counts(
    st: SendMessagePlanState,
    p: SendMessageParams,
    obs: PlanObservation,
    tree: A11yNode,
) -> bool {
    !obs.popup && st.phase == SendMessagePhase::Confirming && !confirmation_passes(p, tree)
}

pub open spec fn confirming_spec(
    st: SendMessagePlanState,
    p: SendMessageParams,
    obs: PlanObservation,
    tree: A11yNode,
) -> (SendMessagePlanState, PlanStepView) {
    if confirmation_passes(p, tree) {
        (with_phase(st, SendMessagePhase::Done), wait_short(obs))
    } else {
        let attempts = st.confirm_attempts + 1;
        if attempts >= 10 {
            if p.message is Some && st.send_retries < 1 {
                (
                    SendMessagePlanState {
                        send_retries: (st.send_retries + 1) as u8,
                        confirm_attempts: 0,
                        phase: SendMessagePhase::Inputting,
                        ..st
                    },
                    wait_short(obs),
                )
            } else {
                (SendMessagePlanState { confirm_attempts: attempts as u32, ..st }, finish(obs, None))
            }
        } else {
            (SendMessagePlanState { confirm_attempts: attempts as u32, ..st }, wait_short(obs))
        }
    }
}

/// The click point handed to the chat opener.
pub open spec fn chat_click_spec(tree: A11yNode) -> Option<(i64, i64)> {
    match chat_list_item(tree, false) {
        Some(item) => match item.bounds {
            Some(b) => Some((center(b).0 as i64, center(b).1 as i64)),
            None => None,
        },
        None => None,
    }
}

pub open spec fn phase_spec(
    st: SendMessagePlanState,
    p: SendMessageParams,
    obs: PlanObservation,
    tree: A11yNode,
) -> (SendMessagePlanState, PlanStepView) {
    match st.phase {
        SendMessagePhase::Opening => {
            if !main_is(obs, "chat"@) && !main_is(obs, "chat_open"@) {
                (st, finish(obs, None))
            } else {
                (
                    st,
                    PlanStepView::OpenChat {
                        force: main_is(obs, "chat"@),
                        click: chat_click_spec(tree),
                    },
                )
            }
        },
        SendMessagePhase::Focusing => focusing_spec(st, p, obs, tree),
        SendMessagePhase::Inputting => inputting_spec(st, p, obs, tree),
        SendMessagePhase::Confirming => confirming_spec(st, p, obs, tree),
        SendMessagePhase::Done => (st, finish(obs, None)),
    }
}

/// One call of `select_action`: a recognised popup is dismissed first;
/// otherwise the current phase decides.
pub open spec fn select_spec(
    st: SendMessagePlanState,
    p: SendMessageParams,
    obs: PlanObservation,
    tree: A11yNode,
) -> (SendMessagePlanState, PlanStepView) {
    if obs.popup {
        (st, finish(obs, Some(ActionView::DismissPopup)))
    } else {
        phase_spec(st, p, obs, tree)
    }
}

/// What the plan does once the chat opener has answered.
pub open spec fn resume_spec(
    st: SendMessagePlanState,
    p: SendMessageParams,
    obs: PlanObservation,
    tree: A11yNode,
    opened: OpenChatResult,
) -> (SendMessagePlanState, PlanStepView) {
    if !opened.ok {
        (st, finish(obs, None))
    } else {
        let next = SendMessagePlanState {
            open_result: Some(opened),
            phase: SendMessagePhase::Focusing,
            ..st
        };
        if opened.skipped != Some(true) {
            (next, wait_short(obs))
        } else {
            focusing_spec(next, p, obs, tree)
        }
    }
}

// ---------------------------------------------------------------------------
// Searches used by the plan.

proof fn lemma_first_send_button_in_forest(s: Seq<A11yNode>)
    requires
        first_send_button(s) is Some,
    ensures
        forest_has_send_button(s),
    decreases s.len(),
{
    if !is_send_button(s[0]) {
        lemma_first_send_button_in_forest(s.drop_first());
    } else {
        assert(tree_has_send_button(s[0]));
    }
}

proof fn lemma_pair_has_send_button(node: A11yNode)
    requires
        edit_send_pair(node) is Some,
    ensures
        tree_has_send_button(node),
    decreases node, 1int,
{
    if let Some(c) = node.children {
        if first_send_button(c@) is Some {
            lemma_first_send_button_in_forest(c@);
        } else {
            lemma_pair_in_has_send_button(c@);
        }
    }
}

proof fn lemma_pair_in_has_send_button(s: Seq<A11yNode>)
    requires
        edit_send_pair_in(s) is Some,
    ensures
        forest_has_send_button(s),
    decreases s, 0int,
{
    if edit_send_pair(s[0]) is Some {
        lemma_pair_has_send_button(s[0]);
    } else {
        lemma_pair_in_has_send_button(s.drop_first());
    }
}

/// Wherever the editor-and-button pair is found, the tree holds a send button:
/// looking for the button first never hides a pair.
pub proof fn lemma_pair_implies_send_button(tree: A11yNode)
    ensures
        edit_send_pair(tree) is Some ==> tree_has_send_button(tree),
{
    if edit_send_pair(tree) is Some {
        lemma_pair_has_send_button(tree);
    }
}

/// The editor and send button of the chat: present only when the tree has a
/// "Send(S)" button; then the first parent (depth-first) whose children hold
/// both an editable text field and that button.
pub fn find_edit_and_send_button(a11y: &A11yNode) -> (r: Option<(&A11yNode, &A11yNode)>)
    ensures
        match r {
            Some((e, b)) => edit_send_pair(*a11y) == Some((*e, *b)),
            None => edit_send_pair(*a11y) is None,
        },
{
    if !has_send_button(a11y) {
        proof {
            lemma_pair_implies_send_button(*a11y);
        }
        return None;
    }
    let send_btn = a11y;
    find_edit_near_send(a11y, send_btn)
}

/// The editor-and-button pair of `root`; the send button already found is
/// not needed to locate it.
pub fn find_edit_near_send<'a>(root: &'a A11yNode, _send_btn: &A11yNode) -> (r: Option<
    (&'a A11yNode, &'a A11yNode),
>)
    ensures
        match r {
            Some((e, b)) => edit_send_pair(*root) == Some((*e, *b)),
            None => edit_send_pair(*root) is None,
        },
{
    find_edit_send_pair(root)
}

/// The send can be taken as done: a text message once it shows in the chat,
/// a file or image once the send button has gone grey.
pub fn confirmation_can_finish(
    message_visible: bool,
    send_button_disabled: bool,
    has_non_text_payload: bool,
) -> (r: bool)
    ensures
        r == can_finish(message_visible, send_button_disabled, has_non_text_payload),
{
    if has_non_text_payload {
        send_button_disabled
    } else {
        message_visible
    }
}

// ---------------------------------------------------------------------------
// Executable plan.

/// The action, for the main window's frame.
fn select(obs: &PlanObservation, action: Action) -> (r: SelectedAction)
    ensures
        r@ == selected(*obs, action@),
{
    SelectedAction { action, frame: obs.main_window_frame }
}

fn main_state_is(obs: &PlanObservation, id: &str) -> (r: bool)
    ensures
        r == main_is(*obs, id@),
{
    match &obs.main_state_id {
        Some(s) => crate::text::str_eq(s.as_str(), id),
        None => false,
    }
}

fn owned(s: &str) -> (r: String)
    ensures
        r@ == s@,
{
    s.to_owned()
}

fn copy_string(s: &String) -> (r: String)
    ensures
        r@ == s@,
{
    s.clone()
}

fn paste_submit() -> (a: Action)
    ensures
        a@ == submit_paste(),
{
    let mut v: Vec<Keystroke> = Vec::new();
    v.push(Keystroke::Wait { ms: 500 });
    v.push(Keystroke::Key { combo: owned("Return") });
    let a = Action::Sequence(v);
    assert(a@ == submit_paste()) by {
        assert(v@.map_values(|k: Keystroke| k@) =~= seq![
            KeystrokeView::Wait(500),
            KeystrokeView::Key("Return"@),
        ]);
    }
    a
}

fn typed_submit(text: &String) -> (a: Action)
    ensures
        a@ == type_and_submit(text@),
{
    let mut v: Vec<Keystroke> = Vec::new();
    v.push(Keystroke::Type { text: copy_string(text), selector: None });
    v.push(Keystroke::Wait { ms: 100 });
    v.push(Keystroke::Key { combo: owned("Return") });
    let a = Action::Sequence(v);
    assert(a@ == type_and_submit(text@)) by {
        assert(v@.map_values(|k: Keystroke| k@) =~= seq![
            KeystrokeView::Type(text@, None),
            KeystrokeView::Wait(100),
            KeystrokeView::Key("Return"@),
        ]);
    }
    a
}

fn inputting(
    st: &mut SendMessagePlanState,
    p: &SendMessageParams,
    obs: &PlanObservation,
    a11y: &A11yNode,
) -> (r: PlanStep)
    ensures
        (*final(st), r@) == inputting_spec(*old(st), *p, *obs, *a11y),
{
    if find_edit_and_send_button(a11y).is_none() {
        return PlanStep::Finish(None);
    }
    st.phase = SendMessagePhase::Confirming;
    if let Some(fp) = &p.file_path {
        let mut args: Vec<String> = Vec::new();
        args.push(copy_string(fp));
        let step = PlanStep::Paste {
            command: PasteCommand { program: owned("paste-file"), args },
            then: select(obs, paste_submit()),
        };
        assert(args@.map_values(|s: String| s@) =~= seq![fp@]);
        return step;
    }
    if let Some(ip) = &p.image_path {
        let mut args: Vec<String> = Vec::new();
        args.push(copy_string(ip));
        if let Some(mime) = &p.image_mime {
            args.push(copy_string(mime));
            assert(args@.map_values(|s: String| s@) =~= seq![ip@, mime@]);
        } else {
            assert(args@.map_values(|s: String| s@) =~= seq![ip@]);
        }
        let step = PlanStep::Paste {
            command: PasteCommand { program: owned("paste-image"), args },
            then: select(obs, paste_submit()),
        };
        return step;
    }
    if let Some(msg) = &p.message {
        st.phase = SendMessagePhase::Confirming;
        return PlanStep::Finish(Some(select(obs, typed_submit(msg))));
    }
    PlanStep::Finish(None)
}

fn focusing(
    st: &mut SendMessagePlanState,
    p: &SendMessageParams,
    obs: &PlanObservation,
    a11y: &A11yNode,
) -> (r: PlanStep)
    ensures
        (*final(st), r@) == focusing_spec(*old(st), *p, *obs, *a11y),
{
    if !main_state_is(obs, "chat_open") {
        return PlanStep::Finish(None);
    }
    if let Some(chat_name) = &p.chat_name {
        if !opened_chat_matches(a11y, chat_name.as_str()) {
            if st.open_attempts < 2 {
                st.open_attempts += 1;
                st.phase = SendMessagePhase::Opening;
                return PlanStep::Finish(Some(select(obs, Action::WaitShort)));
            }
            return PlanStep::Finish(None);
        }
    }
    let found = find_edit_and_send_button(a11y);
    let (edit_node, _) = match found {
        Some(f) => f,
        None => return PlanStep::Finish(None),
    };
    st.phase = SendMessagePhase::Inputting;
    let is_focused = node_has_state(edit_node, "FOCUSED");
    if is_focused {
        return inputting(st, p, obs, a11y);
    }
    if let Some(bounds) = &edit_node.bounds {
        return PlanStep::Finish(Some(select(obs, Action::ClickBounds(*bounds))));
    }
    PlanStep::Finish(None)
}

fn confirming(
    st: &mut SendMessagePlanState,
    p: &SendMessageParams,
    obs: &PlanObservation,
    a11y: &A11yNode,
) -> (r: PlanStep)
    requires
        !confirmation_passes(*p, *a11y) ==> old(st).confirm_attempts < u32::MAX,
    ensures
        (*final(st), r@) == confirming_spec(*old(st), *p, *obs, *a11y),
{
    let message_visible = match &p.message {
        Some(message) => contains_message(a11y, message.as_str()),
        None => false,
    };
    let send_button_disabled = match find_edit_and_send_button(a11y) {
        Some((_, send_btn)) => node_has_state(send_btn, "DISABLED"),
        None => false,
    };
    let has_non_text_payload = p.image_path.is_some() || p.file_path.is_some();
    if confirmation_can_finish(message_visible, send_button_disabled, has_non_text_payload) {
        st.phase = SendMessagePhase::Done;
        return PlanStep::Finish(Some(select(obs, Action::WaitShort)));
    }
    st.confirm_attempts += 1;
    if st.confirm_attempts >= 10 {
        if p.message.is_some() && st.send_retries < 1 {
            st.send_retries += 1;
            st.confirm_attempts = 0;
            st.phase = SendMessagePhase::Inputting;
            return PlanStep::Finish(Some(select(obs, Action::WaitShort)));
        }
        return PlanStep::Finish(None);
    }
    PlanStep::Finish(Some(select(obs, Action::WaitShort)))
}

impl SendMessagePlan {
    /// The plan's name.
    pub fn id(&self) -> (r: &'static str)
        ensures
            r@ == "send_message"@,
    {
        "send_message"
    }

    /// A fresh plan: opening the chat, nothing tried yet.
    pub fn initial_plan_state(&self) -> (r: SendMessagePlanState)
        ensures
            r == initial_state(),
    {
        SendMessagePlanState {
            phase: SendMessagePhase::Opening,
            open_result: None,
            open_attempts: 0,
            confirm_attempts: 0,
            send_retries: 0,
        }
    }

    /// The message has been sent and seen.
    pub fn is_goal_reached(&self, plan_state: &SendMessagePlanState) -> (r: bool)
        ensures
            r == (plan_state.phase == SendMessagePhase::Done),
    {
        match plan_state.phase {
            SendMessagePhase::Done => true,
            _ => false,
        }
    }

    /// Whether `select_action` on these arguments counts one more
    /// confirmation check (and so needs room in the count for it).
    pub fn confirm_would_count(
        &self,
        observed: &PlanObservation,
        params: &SendMessageParams,
        plan_state: &SendMessagePlanState,
        a11y: &A11yNode,
    ) -> (r: bool)
        ensures
            r == confirm_counts(*plan_state, *params, *observed, *a11y),
    {
        if observed.popup {
            return false;
        }
        match plan_state.phase {
            SendMessagePhase::Confirming => {},
            _ => return false,
        }
        let message_visible = match &params.message {
            Some(message) => contains_message(a11y, message.as_str()),
            None => false,
        };
        let send_button_disabled = match find_edit_and_send_button(a11y) {
            Some((_, send_btn)) => node_has_state(send_btn, "DISABLED"),
            None => false,
        };
        let has_non_text_payload = params.image_path.is_some() || params.file_path.is_some();
        !confirmation_can_finish(message_visible, send_button_disabled, has_non_text_payload)
    }

    /// The next step of the plan for one snapshot of the desktop.
    pub fn select_action(
        &self,
        observed: &PlanObservation,
        params: &SendMessageParams,
        plan_state: &mut SendMessagePlanState,
        a11y: &A11yNode,
    ) -> (r: PlanStep)
        requires
            confirm_counts(*old(plan_state), *params, *observed, *a11y) ==> old(
                plan_state,
            ).confirm_attempts < u32::MAX,
        ensures
            (*final(plan_state), r@) == select_spec(*old(plan_state), *params, *observed, *a11y),
    {
        if observed.popup {
            return PlanStep::Finish(Some(select(observed, Action::DismissPopup)));
        }
        match plan_state.phase {
            SendMessagePhase::Opening => {
                let is_chat = main_state_is(observed, "chat");
                if !is_chat && !main_state_is(observed, "chat_open") {
                    return PlanStep::Finish(None);
                }
                let click = chat_list_click_point(a11y);
                PlanStep::OpenChat { force: is_chat, click }
            },
            SendMessagePhase::Focusing => focusing(plan_state, params, observed, a11y),
            SendMessagePhase::Inputting => inputting(plan_state, params, observed, a11y),
            SendMessagePhase::Confirming => confirming(plan_state, params, observed, a11y),
            SendMessagePhase::Done => PlanStep::Finish(None),
        }
    }

    /// Continues the plan once the chat opener has answered: a failure stops
    /// the plan for this round; a fresh open waits for the window; a chat that
    /// was already open goes straight on to focusing its editor.
    pub fn resume_after_open(
        &self,
        observed: &PlanObservation,
        params: &SendMessageParams,
        plan_state: &mut SendMessagePlanState,
        a11y: &A11yNode,
        opened: OpenChatResult,
    ) -> (r: PlanStep)
        ensures
            (*final(plan_state), r@) == resume_spec(
                *old(plan_state),
                *params,
                *observed,
                *a11y,
                opened,
            ),
    {
        if !opened.ok {
            return PlanStep::Finish(None);
        }
        let skipped = match opened.skipped {
            Some(s) => s,
            None => false,
        };
        plan_state.open_result = Some(opened);
        plan_state.phase = SendMessagePhase::Focusing;
        if !skipped {
            return PlanStep::Finish(Some(select(observed, Action::WaitShort)));
        }
        focusing(plan_state, params, observed, a11y)
    }
}


// ---------------------------------------------------------------------------
// Laws of the plan.

/// A recognised popup is dismissed before anything else, whatever the phase,
/// in the main window's frame, and the plan state is left as it was.
pub proof fn law_popup_dismissed_first(
    st: SendMessagePlanState,
    p: SendMessageParams,
    obs: PlanObservation,
    tree: A11yNode,
)
    requires
        obs.popup,
    ensures
        select_spec(st, p, obs, tree) == (st, finish(obs, Some(ActionView::DismissPopup))),
{
}

/// Once done, the plan asks for nothing more and its state no longer changes
/// (unless a popup has to be dismissed).
pub proof fn law_done_is_final(
    st: SendMessagePlanState,
    p: SendMessageParams,
    obs: PlanObservation,
    tree: A11yNode,
)
    requires
        st.phase == SendMessagePhase::Done,
    ensures
        select_spec(st, p, obs, tree).0 == st,
        !obs.popup ==> select_spec(st, p, obs, tree).1 == finish(obs, None),
{
}

/// The plan reopens a chat at most twice and resends a message at most once:
/// these bounds, once they hold, hold after every step, and each step adds at
/// most one to either count.
pub proof fn law_retries_bounded(
    st: SendMessagePlanState,
    p: SendMessageParams,
    obs: PlanObservation,
    tree: A11yNode,
    opened: OpenChatResult,
)
    requires
        st.open_attempts <= 2,
        st.send_retries <= 1,
    ensures
        select_spec(st, p, obs, tree).0.open_attempts <= 2,
        select_spec(st, p, obs, tree).0.send_retries <= 1,
        resume_spec(st, p, obs, tree, opened).0.open_attempts <= 2,
        resume_spec(st, p, obs, tree, opened).0.send_retries <= 1,
        st.open_attempts <= select_spec(st, p, obs, tree).0.open_attempts <= st.open_attempts + 1,
        st.send_retries <= select_spec(st, p, obs, tree).0.send_retries <= st.send_retries + 1,
        st.open_attempts <= resume_spec(st, p, obs, tree, opened).0.open_attempts
            <= st.open_attempts + 1,
        resume_spec(st, p, obs, tree, opened).0.send_retries == st.send_retries,
{
}

/// The step's action, if it has one, carries the main window's frame.
pub open spec fn carries_main_frame(step: PlanStepView, obs: PlanObservation) -> bool {
    match step {
        PlanStepView::Finish(Some(a)) => a.frame == obs.main_window_frame,
        PlanStepView::Paste { then, .. } => then.frame == obs.main_window_frame,
        _ => true,
    }
}

/// Every action the plan selects is meant for the main window: it carries
/// the main window's frame.
pub proof fn law_actions_carry_main_frame(
    st: SendMessagePlanState,
    p: SendMessageParams,
    obs: PlanObservation,
    tree: A11yNode,
    opened: OpenChatResult,
)
    ensures
        carries_main_frame(select_spec(st, p, obs, tree).1, obs),
        carries_main_frame(resume_spec(st, p, obs, tree, opened).1, obs),
{
}

/// The plan counts its confirmation checks one at a time: a step adds at most
/// one to the count, or starts it again from zero.
pub proof fn law_confirm_attempts_step(
    st: SendMessagePlanState,
    p: SendMessageParams,
    obs: PlanObservation,
    tree: A11yNode,
    opened: OpenChatResult,
)
    requires
        confirm_counts(st, p, obs, tree) ==> st.confirm_attempts < u32::MAX,
    ensures
        select_spec(st, p, obs, tree).0.confirm_attempts == st.confirm_attempts
            || select_spec(st, p, obs, tree).0.confirm_attempts == st.confirm_attempts + 1
            || select_spec(st, p, obs, tree).0.confirm_attempts == 0,
        resume_spec(st, p, obs, tree, opened).0.confirm_attempts == st.confirm_attempts,
{
}

/// A text message counts as sent as soon as it shows in the chat, whether or
/// not the editor and send button can be seen; a file or image only once the
/// send button has gone grey.
pub proof fn law_confirmation_rule(message_visible: bool, send_button_disabled: bool)
    ensures
        can_finish(message_visible, send_button_disabled, false) == message_visible,
        can_finish(message_visible, send_button_disabled, true) == send_button_disabled,
{
}

/// The plan is done only after a confirmation check that passed.
pub proof fn law_done_only_when_confirmed(
    st: SendMessagePlanState,
    p: SendMessageParams,
    obs: PlanObservation,
    tree: A11yNode,
    opened: OpenChatResult,
)
    requires
        st.phase != SendMessagePhase::Done,
    ensures
        select_spec(st, p, obs, tree).0.phase == SendMessagePhase::Done ==> {
            &&& st.phase == SendMessagePhase::Confirming
            &&& can_finish(
                match p.message {
                    Some(m) => tree_has_name(tree, m@),
                    None => false,
                },
                match edit_send_pair(tree) {
                    Some((_, send)) => has_state(send, "DISABLED"@),
                    None => false,
                },
                p.image_path is Some || p.file_path is Some,
            )
        },
        resume_spec(st, p, obs, tree, opened).0.phase != SendMessagePhase::Done,
{
}

/// Confirming a text (no image, no file, no popup): the send is taken as
/// done, with a short wait, as soon as some node of the tree is named exactly
/// the message, whether or not the editor and send button can be seen.
/// Otherwise the check is counted; the tenth failed check types the text once
/// more, and after that resend the plan gives up.
pub proof fn law_text_confirmed_when_shown(
    st: SendMessagePlanState,
    p: SendMessageParams,
    obs: PlanObservation,
    tree: A11yNode,
)
    requires
        !obs.popup,
        st.phase == SendMessagePhase::Confirming,
        p.image_path is None,
        p.file_path is None,
        p.message is Some,
        st.confirm_attempts < u32::MAX,
    ensures
        any_node(tree, named(p.message->0@)) ==> select_spec(st, p, obs, tree) == (
            SendMessagePlanState { phase: SendMessagePhase::Done, ..st },
            PlanStepView::Finish(
                Some(SelectedActionView { action: ActionView::WaitShort, frame: obs.main_window_frame }),
            ),
        ),
        !any_node(tree, named(p.message->0@)) && st.confirm_attempts + 1 < 10 ==> select_spec(
            st,
            p,
            obs,
            tree,
        ) == (
            SendMessagePlanState { confirm_attempts: (st.confirm_attempts + 1) as u32, ..st },
            PlanStepView::Finish(
                Some(SelectedActionView { action: ActionView::WaitShort, frame: obs.main_window_frame }),
            ),
        ),
        !any_node(tree, named(p.message->0@)) && st.confirm_attempts + 1 >= 10 && st.send_retries
            < 1 ==> select_spec(st, p, obs, tree) == (
            SendMessagePlanState {
                phase: SendMessagePhase::Inputting,
                confirm_attempts: 0,
                send_retries: (st.send_retries + 1) as u8,
                ..st
            },
            PlanStepView::Finish(
                Some(SelectedActionView { action: ActionView::WaitShort, frame: obs.main_window_frame }),
            ),
        ),
        !any_node(tree, named(p.message->0@)) && st.confirm_attempts + 1 >= 10 && st.send_retries
            >= 1 ==> select_spec(st, p, obs, tree) == (
            SendMessagePlanState { confirm_attempts: (st.confirm_attempts + 1) as u32, ..st },
            PlanStepView::Finish(None),
        ),
{
    crate::a11y::law_message_search_finds_any_node(tree, p.message->0@);
}

/// Every confirmation step without a popup: the check passes for a file or
/// image when the send button beside the editor is `DISABLED`, for a text
/// when some node is named exactly the message, and never without payload.
/// A passing check ends the plan with a short wait. A failing one is counted;
/// the tenth in a row sends a text once more (at most once in all), and
/// otherwise gives up with no action.
pub proof fn law_confirming_step(
    st: SendMessagePlanState,
    p: SendMessageParams,
    obs: PlanObservation,
    tree: A11yNode,
)
    requires
        !obs.popup,
        st.phase == SendMessagePhase::Confirming,
        st.confirm_attempts < u32::MAX,
    ensures
        ({
            let passes = if p.image_path is Some || p.file_path is Some {
                edit_send_pair(tree) is Some && has_state((edit_send_pair(tree)->0).1, "DISABLED"@)
            } else {
                p.message is Some && any_node(tree, named(p.message->0@))
            };
            let wait = PlanStepView::Finish(
                Some(SelectedActionView { action: ActionView::WaitShort, frame: obs.main_window_frame }),
            );
            let counted = SendMessagePlanState {
                confirm_attempts: (st.confirm_attempts + 1) as u32,
                ..st
            };
            let r = select_spec(st, p, obs, tree);
            &&& passes ==> r == (SendMessagePlanState { phase: SendMessagePhase::Done, ..st }, wait)
            &&& !passes && st.confirm_attempts + 1 < 10 ==> r == (counted, wait)
            &&& !passes && st.confirm_attempts + 1 >= 10 && p.message is Some && st.send_retries
                < 1 ==> r == (
                SendMessagePlanState {
                    phase: SendMessagePhase::Inputting,
                    confirm_attempts: 0,
                    send_retries: (st.send_retries + 1) as u8,
                    ..st
                },
                wait,
            )
            &&& !passes && st.confirm_attempts + 1 >= 10 && !(p.message is Some && st.send_retries
                < 1) ==> r == (counted, PlanStepView::Finish(None))
        }),
{
    if let Some(m) = p.message {
        crate::a11y::law_message_search_finds_any_node(tree, m@);
    }
}

/// Confirming a file or image (no popup): the send is done exactly when the
/// send button beside the editor carries the `DISABLED` state.
pub proof fn law_payload_confirmed_when_button_greys(
    st: SendMessagePlanState,
    p: SendMessageParams,
    obs: PlanObservation,
    tree: A11yNode,
)
    requires
        !obs.popup,
        st.phase == SendMessagePhase::Confirming,
        p.image_path is Some || p.file_path is Some,
    ensures
        (select_spec(st, p, obs, tree).0.phase == SendMessagePhase::Done) == (edit_send_pair(tree) is Some
            && has_state((edit_send_pair(tree)->0).1, "DISABLED"@)),
{
}

/// Entering the payload, once the editor and send button are in the tree
/// (no popup): a file is pasted with `paste-file`; else an image with
/// `paste-image`, its path and then its mime type, if any; either paste is
/// followed by a half-second wait and Return. Only without file and image is
/// the text typed, then a short wait and Return. The plan then confirms.
/// Without the editor and send button nothing is done.
pub proof fn law_inputting_payload_order(
    st: SendMessagePlanState,
    p: SendMessageParams,
    obs: PlanObservation,
    tree: A11yNode,
)
    requires
        !obs.popup,
        st.phase == SendMessagePhase::Inputting,
    ensures
        ({
            let next = SendMessagePlanState { phase: SendMessagePhase::Confirming, ..st };
            let submit = SelectedActionView {
                action: ActionView::Sequence(
                    seq![KeystrokeView::Wait(500), KeystrokeView::Key("Return"@)],
                ),
                frame: obs.main_window_frame,
            };
            let r = select_spec(st, p, obs, tree);
            &&& edit_send_pair(tree) is None ==> r == (st, PlanStepView::Finish(None))
            &&& edit_send_pair(tree) is Some && p.file_path is Some ==> r == (
                next,
                PlanStepView::Paste {
                    program: "paste-file"@,
                    args: seq![p.file_path->0@],
                    then: submit,
                },
            )
            &&& edit_send_pair(tree) is Some && p.file_path is None && p.image_path is Some ==> r == (
                next,
                PlanStepView::Paste {
                    program: "paste-image"@,
                    args: if p.image_mime is Some {
                        seq![p.image_path->0@, p.image_mime->0@]
                    } else {
                        seq![p.image_path->0@]
                    },
                    then: submit,
                },
            )
            &&& edit_send_pair(tree) is Some && p.file_path is None && p.image_path is None
                && p.message is Some ==> r == (
                next,
                PlanStepView::Finish(
                    Some(
                        SelectedActionView {
                            action: ActionView::Sequence(
                                seq![
                                    KeystrokeView::Type(p.message->0@, None),
                                    KeystrokeView::Wait(100),
                                    KeystrokeView::Key("Return"@),
                                ],
                            ),
                            frame: obs.main_window_frame,
                        },
                    ),
                ),
            )
            &&& edit_send_pair(tree) is Some && p.file_path is None && p.image_path is None
                && p.message is None ==> r == (next, PlanStepView::Finish(None))
        }),
{
}

/// The plan has reached the phases that type into the chat.
pub open spec fn entered_input(st: SendMessagePlanState) -> bool {
    st.phase == SendMessagePhase::Inputting || st.phase == SendMessagePhase::Confirming
}

/// The payload is only ever entered into the chat named in the parameters:
/// the plan leaves the focusing phase for input only when a frame of the
/// tree is titled with that chat's (trimmed) name.
pub proof fn law_input_only_into_named_chat(
    st: SendMessagePlanState,
    p: SendMessageParams,
    obs: PlanObservation,
    tree: A11yNode,
    opened: OpenChatResult,
)
    requires
        p.chat_name is Some,
    ensures
        st.phase == SendMessagePhase::Focusing && entered_input(select_spec(st, p, obs, tree).0)
            ==> opened_chat_spec(tree, p.chat_name->0@),
        !entered_input(st) && entered_input(resume_spec(st, p, obs, tree, opened).0)
            ==> opened_chat_spec(
            tree,
            p.chat_name->0@,
        ),
{
}

pub open spec fn initial_state() -> SendMessagePlanState {
    SendMessagePlanState {
        phase: SendMessagePhase::Opening,
        open_result: None,
        open_attempts: 0,
        confirm_attempts: 0,
        send_retries: 0,
    }
}

} // verus!
