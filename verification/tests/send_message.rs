use agent_server::a11y::{chat_list_click_point, contains_message, find_edit_send_pair, opened_chat_matches, A11yNode, Bounds};
use agent_server::send_message::{
    confirmation_can_finish, find_edit_and_send_button, Action, Keystroke, OpenChatResult,
    PlanObservation, PlanStep, SelectedAction, SendMessageParams, SendMessagePhase,
    SendMessagePlan,
};

const FRAME: Bounds = Bounds { x: 0, y: 0, width: 1280, height: 800 };

/// The action of a finished step, checked to carry the main window's frame.
fn finished(step: PlanStep) -> Option<Action> {
    match step {
        PlanStep::Finish(selected) => selected.map(|s| {
            assert_eq!(s.frame, Some(FRAME));
            s.action
        }),
        _ => panic!("expected a finished step"),
    }
}

fn node(role: &str, name: &str, states: &[&str], children: Vec<A11yNode>) -> A11yNode {
    A11yNode {
        role: role.into(),
        name: name.into(),
        bounds: None,
        states: if states.is_empty() { None } else { Some(states.iter().map(|s| s.to_string()).collect()) },
        children: if children.is_empty() { None } else { Some(children) },
    }
}

fn chat_window(title: &str, editor_states: &[&str], send_states: &[&str], messages: &[&str]) -> A11yNode {
    let mut editor = node("text", "", editor_states, vec![]);
    editor.bounds = Some(Bounds { x: 100, y: 600, width: 400, height: 40 });
    let history: Vec<A11yNode> = messages.iter().map(|m| node("list-item", m, &[], vec![])).collect();
    let mut item = node("list-item", "Chat A", &[], vec![]);
    item.bounds = Some(Bounds { x: 10, y: 20, width: 101, height: 31 });
    node(
        "desktop-frame",
        "main",
        &[],
        vec![node(
            "frame",
            title,
            &[],
            vec![
                node("list", "Chats", &[], vec![item]),
                node("list", "Messages", &[], history),
                node("panel", "input", &[], vec![editor, node("push-button", "Send(S)", send_states, vec![])]),
            ],
        )],
    )
}

fn params(message: Option<&str>, image: Option<&str>, file: Option<&str>) -> SendMessageParams {
    SendMessageParams {
        chat_id: "chat-1".into(),
        chat_name: Some("Team".into()),
        message: message.map(|m| m.into()),
        image_path: image.map(|m| m.into()),
        image_mime: image.map(|_| "image/png".to_string()),
        file_path: file.map(|m| m.into()),
    }
}

fn observed(main: &str) -> PlanObservation {
    PlanObservation { popup: false, main_state_id: Some(main.into()), main_window_frame: Some(FRAME) }
}

#[test]
fn sent_message_is_confirmed_even_when_editor_controls_are_temporarily_missing() {
    assert!(confirmation_can_finish(true, false, false));
    assert!(!confirmation_can_finish(false, true, false));
}

#[test]
fn image_send_is_confirmed_by_disabled_send_button() {
    assert!(confirmation_can_finish(false, true, true));
}

#[test]
fn stale_chat_window_is_not_accepted_as_target() {
    let tree = A11yNode {
        role: "desktop-frame".into(),
        name: "main".into(),
        bounds: None,
        states: None,
        children: Some(vec![A11yNode {
            role: "frame".into(),
            name: "群测试".into(),
            bounds: None,
            states: None,
            children: None,
        }]),
    };

    assert!(opened_chat_matches(&tree, "群测试"));
    assert!(!opened_chat_matches(&tree, "uncle篮球队"));
}

#[test]
fn chat_frame_title_may_carry_member_count_and_name_is_trimmed() {
    let tree = chat_window("Team(12)", &["EDITABLE"], &[], &[]);
    assert!(opened_chat_matches(&tree, "  Team\n"));
    assert!(!opened_chat_matches(&tree, "Tea"));
    assert!(!opened_chat_matches(&tree, " \t "));
}

#[test]
fn editor_and_send_button_are_found_together() {
    let tree = chat_window("Team", &["EDITABLE", "FOCUSED"], &[], &[]);
    let (edit, send) = find_edit_send_pair(&tree).unwrap();
    assert_eq!(edit.role, "text");
    assert_eq!(send.name, "Send(S)");
    assert!(find_edit_and_send_button(&tree).is_some());
    let without_editor = chat_window("Team", &[], &[], &[]);
    assert!(find_edit_send_pair(&without_editor).is_none());
    assert!(find_edit_and_send_button(&without_editor).is_none());
}

#[test]
fn message_is_searched_in_the_whole_tree() {
    let tree = chat_window("Team", &["EDITABLE"], &[], &["hello", "world"]);
    assert!(contains_message(&tree, "world"));
    assert!(!contains_message(&tree, "wor"));
}

#[test]
fn chat_list_click_point_is_the_rounded_centre() {
    let tree = chat_window("Team", &["EDITABLE"], &[], &[]);
    // 10 + 101/2 = 60.5 rounds to 61; 20 + 31/2 = 35.5 rounds to 36
    assert_eq!(chat_list_click_point(&tree), Some((61, 36)));
}

#[test]
fn initial_state_and_goal() {
    let plan = SendMessagePlan;
    let st = plan.initial_plan_state();
    assert_eq!(st.phase, SendMessagePhase::Opening);
    assert_eq!((st.open_attempts, st.confirm_attempts, st.send_retries), (0, 0, 0));
    assert!(!plan.is_goal_reached(&st));
    assert_eq!(plan.id(), "send_message");
}

#[test]
fn popup_is_dismissed_first() {
    let plan = SendMessagePlan;
    let mut st = plan.initial_plan_state();
    st.phase = SendMessagePhase::Done;
    let before = st;
    let obs = PlanObservation { popup: true, main_state_id: Some("chat_open".into()), main_window_frame: Some(FRAME) };
    let tree = chat_window("Team", &["EDITABLE"], &[], &[]);
    let step = plan.select_action(&obs, &params(Some("hi"), None, None), &mut st, &tree);
    assert!(matches!(finished(step), Some(Action::DismissPopup)));
    assert_eq!(st, before);
}

#[test]
fn text_message_goes_through_every_phase() {
    let plan = SendMessagePlan;
    let p = params(Some("hi"), None, None);
    let mut st = plan.initial_plan_state();
    let tree = chat_window("Team", &["EDITABLE"], &[], &[]);

    // opening: the chat opener is asked for, forced from the chat list
    let step = plan.select_action(&observed("chat"), &p, &mut st, &tree);
    match step {
        PlanStep::OpenChat { force, click } => {
            assert!(force);
            assert_eq!(click, Some((61, 36)));
        }
        _ => panic!("expected an open request"),
    }
    let step = plan.resume_after_open(&observed("chat"), &p, &mut st, &tree, OpenChatResult { ok: true, skipped: None });
    assert!(matches!(finished(step), Some(Action::WaitShort)));
    assert_eq!(st.phase, SendMessagePhase::Focusing);

    // focusing: the editor is not focused, so it is clicked
    let step = plan.select_action(&observed("chat_open"), &p, &mut st, &tree);
    match finished(step) {
        Some(Action::ClickBounds(b)) => assert_eq!(b, Bounds { x: 100, y: 600, width: 400, height: 40 }),
        _ => panic!("expected a click on the editor"),
    }
    assert_eq!(st.phase, SendMessagePhase::Inputting);

    // inputting: type, wait, press Return
    let step = plan.select_action(&observed("chat_open"), &p, &mut st, &tree);
    match finished(step) {
        Some(Action::Sequence(keys)) => {
            assert_eq!(keys.len(), 3);
            assert!(matches!(&keys[0], Keystroke::Type { text, selector: None } if text == "hi"));
            assert!(matches!(&keys[1], Keystroke::Wait { ms: 100 }));
            assert!(matches!(&keys[2], Keystroke::Key { combo } if combo == "Return"));
        }
        _ => panic!("expected the typing sequence"),
    }
    assert_eq!(st.phase, SendMessagePhase::Confirming);

    // confirming: not visible yet, then visible
    let step = plan.select_action(&observed("chat_open"), &p, &mut st, &tree);
    assert!(matches!(finished(step), Some(Action::WaitShort)));
    assert_eq!(st.confirm_attempts, 1);
    let sent = chat_window("Team", &["EDITABLE"], &[], &["hi"]);
    let step = plan.select_action(&observed("chat_open"), &p, &mut st, &sent);
    assert!(matches!(finished(step), Some(Action::WaitShort)));
    assert_eq!(st.phase, SendMessagePhase::Done);
    assert!(plan.is_goal_reached(&st));

    // done: nothing more
    let step = plan.select_action(&observed("chat_open"), &p, &mut st, &sent);
    assert!(matches!(finished(step), None));
}

#[test]
fn already_open_chat_with_focused_editor_goes_straight_to_input() {
    let plan = SendMessagePlan;
    let p = params(Some("hi"), None, None);
    let mut st = plan.initial_plan_state();
    let tree = chat_window("Team", &["EDITABLE", "FOCUSED"], &[], &[]);
    let step = plan.select_action(&observed("chat_open"), &p, &mut st, &tree);
    assert!(matches!(step, PlanStep::OpenChat { force: false, .. }));
    let step = plan.resume_after_open(&observed("chat_open"), &p, &mut st, &tree, OpenChatResult { ok: true, skipped: Some(true) });
    assert!(matches!(finished(step), Some(Action::Sequence(_))));
    assert_eq!(st.phase, SendMessagePhase::Confirming);
    assert_eq!(st.open_result, Some(OpenChatResult { ok: true, skipped: Some(true) }));
}

#[test]
fn failed_open_stops_without_changing_state() {
    let plan = SendMessagePlan;
    let p = params(Some("hi"), None, None);
    let mut st = plan.initial_plan_state();
    let tree = chat_window("Team", &["EDITABLE"], &[], &[]);
    let before = st;
    let step = plan.resume_after_open(&observed("chat"), &p, &mut st, &tree, OpenChatResult { ok: false, skipped: None });
    assert!(matches!(finished(step), None));
    assert_eq!(st, before);
    let step = plan.select_action(&observed("contacts"), &p, &mut st, &tree);
    assert!(matches!(finished(step), None));
}

#[test]
fn wrong_chat_is_reopened_at_most_twice() {
    let plan = SendMessagePlan;
    let p = params(Some("hi"), None, None);
    let mut st = plan.initial_plan_state();
    st.phase = SendMessagePhase::Focusing;
    let other = chat_window("Other", &["EDITABLE"], &[], &[]);
    for attempt in 1..=2u8 {
        let step = plan.select_action(&observed("chat_open"), &p, &mut st, &other);
        assert!(matches!(finished(step), Some(Action::WaitShort)));
        assert_eq!(st.phase, SendMessagePhase::Opening);
        assert_eq!(st.open_attempts, attempt);
        st.phase = SendMessagePhase::Focusing;
    }
    let step = plan.select_action(&observed("chat_open"), &p, &mut st, &other);
    assert!(matches!(finished(step), None));
    assert_eq!(st.open_attempts, 2);
    assert_eq!(st.phase, SendMessagePhase::Focusing);
}

#[test]
fn image_is_pasted_then_confirmed_by_disabled_button() {
    let plan = SendMessagePlan;
    let p = params(None, Some("/tmp/a.png"), None);
    let mut st = plan.initial_plan_state();
    st.phase = SendMessagePhase::Inputting;
    let tree = chat_window("Team", &["EDITABLE"], &[], &[]);
    let step = plan.select_action(&observed("chat_open"), &p, &mut st, &tree);
    match step {
        PlanStep::Paste { command, then: SelectedAction { action: Action::Sequence(keys), frame } } => {
            assert_eq!(frame, Some(FRAME));
            assert_eq!(command.program, "paste-image");
            assert_eq!(command.args, vec!["/tmp/a.png".to_string(), "image/png".to_string()]);
            assert!(matches!(&keys[0], Keystroke::Wait { ms: 500 }));
            assert!(matches!(&keys[1], Keystroke::Key { combo } if combo == "Return"));
        }
        _ => panic!("expected a paste"),
    }
    assert_eq!(st.phase, SendMessagePhase::Confirming);
    let greyed = chat_window("Team", &["EDITABLE"], &["DISABLED"], &[]);
    let step = plan.select_action(&observed("chat_open"), &p, &mut st, &greyed);
    assert!(matches!(finished(step), Some(Action::WaitShort)));
    assert_eq!(st.phase, SendMessagePhase::Done);
}

#[test]
fn file_takes_precedence_over_image_and_text() {
    let plan = SendMessagePlan;
    let p = params(Some("hi"), Some("/tmp/a.png"), Some("/tmp/report.pdf"));
    let mut st = plan.initial_plan_state();
    st.phase = SendMessagePhase::Inputting;
    let tree = chat_window("Team", &["EDITABLE"], &[], &[]);
    match plan.select_action(&observed("chat_open"), &p, &mut st, &tree) {
        PlanStep::Paste { command, .. } => {
            assert_eq!(command.program, "paste-file");
            assert_eq!(command.args, vec!["/tmp/report.pdf".to_string()]);
        }
        _ => panic!("expected a file paste"),
    }
}

#[test]
fn unconfirmed_text_is_resent_once_then_given_up() {
    let plan = SendMessagePlan;
    let p = params(Some("hi"), None, None);
    let mut st = plan.initial_plan_state();
    st.phase = SendMessagePhase::Confirming;
    let tree = chat_window("Team", &["EDITABLE"], &[], &[]);
    for _ in 0..9 {
        assert!(matches!(finished(plan.select_action(&observed("chat_open"), &p, &mut st, &tree)), Some(Action::WaitShort)));
    }
    assert_eq!(st.confirm_attempts, 9);
    assert!(matches!(finished(plan.select_action(&observed("chat_open"), &p, &mut st, &tree)), Some(Action::WaitShort)));
    assert_eq!((st.phase, st.confirm_attempts, st.send_retries), (SendMessagePhase::Inputting, 0, 1));
    st.phase = SendMessagePhase::Confirming;
    for _ in 0..9 {
        plan.select_action(&observed("chat_open"), &p, &mut st, &tree);
    }
    assert!(matches!(finished(plan.select_action(&observed("chat_open"), &p, &mut st, &tree)), None));
    assert_eq!((st.confirm_attempts, st.send_retries), (10, 1));
}

#[test]
fn actions_carry_the_main_window_frame_or_none() {
    let plan = SendMessagePlan;
    let p = params(Some("hi"), None, None);
    let mut st = plan.initial_plan_state();
    st.phase = SendMessagePhase::Confirming;
    let sent = chat_window("Team", &["EDITABLE"], &[], &["hi"]);
    let obs = PlanObservation { popup: false, main_state_id: Some("chat_open".into()), main_window_frame: None };
    match plan.select_action(&obs, &p, &mut st, &sent) {
        PlanStep::Finish(Some(SelectedAction { action: Action::WaitShort, frame })) => assert_eq!(frame, None),
        _ => panic!("expected the final wait"),
    }
    assert_eq!(st.phase, SendMessagePhase::Done);
}

#[test]
fn only_a_failed_confirmation_check_is_counted() {
    let plan = SendMessagePlan;
    let p = params(Some("hi"), None, None);
    let mut st = plan.initial_plan_state();
    st.phase = SendMessagePhase::Confirming;
    let unsent = chat_window("Team", &["EDITABLE"], &[], &[]);
    let sent = chat_window("Team", &["EDITABLE"], &[], &["hi"]);
    let popup = PlanObservation { popup: true, main_state_id: Some("chat_open".into()), main_window_frame: Some(FRAME) };
    assert!(plan.confirm_would_count(&observed("chat_open"), &p, &st, &unsent));
    assert!(!plan.confirm_would_count(&observed("chat_open"), &p, &st, &sent));
    assert!(!plan.confirm_would_count(&popup, &p, &st, &unsent));
    let mut inputting = st;
    inputting.phase = SendMessagePhase::Inputting;
    assert!(!plan.confirm_would_count(&observed("chat_open"), &p, &inputting, &unsent));
    // a full count is no obstacle where the check passes or a popup comes first
    st.confirm_attempts = u32::MAX;
    let mut done = st;
    assert!(matches!(finished(plan.select_action(&observed("chat_open"), &p, &mut done, &sent)), Some(Action::WaitShort)));
    assert_eq!(done.phase, SendMessagePhase::Done);
    let mut kept = st;
    assert!(matches!(finished(plan.select_action(&popup, &p, &mut kept, &unsent)), Some(Action::DismissPopup)));
    assert_eq!(kept, st);
}
