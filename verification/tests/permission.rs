use aqbot_agent_runtime::payload::FrontendEvent;
use aqbot_agent_runtime::permission::{
    agent_approve, agent_respond_ask, answer_result, approval_result, approval_status,
    ask_answer, ask_user, read_reply, AskEnd, GateAction, GateInput, PermissionAction,
    PermissionDecision, PermissionGate, RiskLevel,
};
use aqbot_agent_runtime::running::Slots;

fn text(s: &str) -> String {
    s.to_string()
}

fn gate(cancelled: bool, full_access: bool, cwd: &str) -> (PermissionGate, Vec<GateAction>) {
    PermissionGate::new(
        text("conv"),
        text("Bash"),
        serde_json::from_str("{\"command\":\"ls\"}").unwrap(),
        cancelled,
        full_access,
        text(cwd),
    )
}

fn reason(actions: &Vec<GateAction>) -> String {
    match actions.last() {
        Some(GateAction::Decide(PermissionDecision::Deny(reason))) => reason.clone(),
        _ => panic!("not denied"),
    }
}

fn is_allowed(actions: &Vec<GateAction>) -> bool {
    matches!(actions.last(), Some(GateAction::Decide(PermissionDecision::Allow)))
}

#[test]
fn a_cancelled_agent_may_use_no_tool() {
    let (mut gate, actions) = gate(true, true, "");
    assert_eq!(reason(&actions), "Agent cancelled");
    assert_eq!(gate.step(GateInput::AllowedChecked(true)).len(), 0);
}

#[test]
fn paths_are_checked_unless_access_is_full_or_there_is_no_directory() {
    let (mut first, actions) = gate(false, false, "/w");
    assert!(matches!(&actions[0], GateAction::CheckPath { cwd } if cwd == "/w"));
    let actions = first.step(GateInput::PathChecked(Some(PermissionDecision::Deny(text("outside")))));
    assert_eq!(reason(&actions), "outside");
    let (mut second, _) = gate(false, false, "/w");
    let actions = second.step(GateInput::PathChecked(None));
    assert!(matches!(&actions[0], GateAction::CheckAllowed));
    let (_, actions) = gate(false, true, "/w");
    assert!(matches!(&actions[0], GateAction::CheckAllowed));
    let (_, actions) = gate(false, false, "");
    assert!(matches!(&actions[0], GateAction::CheckAllowed));
}

#[test]
fn remembered_tools_and_modes_need_no_question() {
    let (mut remembered, _) = gate(false, true, "");
    assert!(is_allowed(&remembered.step(GateInput::AllowedChecked(true))));
    let (mut automatic, _) = gate(false, true, "");
    automatic.step(GateInput::AllowedChecked(false));
    let actions = automatic.step(GateInput::Classified {
        risk: RiskLevel::ReadOnly,
        action: PermissionAction::AutoAllow,
    });
    assert!(is_allowed(&actions));
    let (mut hard, _) = gate(false, true, "");
    hard.step(GateInput::AllowedChecked(false));
    let actions = hard.step(GateInput::Classified {
        risk: RiskLevel::Execute,
        action: PermissionAction::HardDeny,
    });
    assert_eq!(reason(&actions), "Operation not permitted");
}

fn asked(execution_id: Option<&str>) -> PermissionGate {
    let (mut gate, _) = gate(false, true, "");
    gate.step(GateInput::AllowedChecked(false));
    let actions = gate.step(GateInput::Classified {
        risk: RiskLevel::Write,
        action: PermissionAction::RequireApproval,
    });
    assert!(matches!(&actions[0], GateAction::MakeId));
    let actions = gate.step(GateInput::IdMade { id: text("7"), message_id: Some(text("m1")) });
    assert_eq!(actions.len(), 2);
    assert!(matches!(
        &actions[0],
        GateAction::StoreRequest { request_id } if request_id == "perm_7"
    ));
    assert!(matches!(
        &actions[1],
        GateAction::CreateExecution { message_id: Some(m), tool_name, input_preview }
            if m == "m1" && tool_name == "Bash" && input_preview == "{\"command\":\"ls\"}"
    ));
    let actions = gate.step(GateInput::ExecutionSaved {
        execution_id: execution_id.map(text),
        message_id: None,
    });
    assert_eq!(actions.len(), 2);
    match &actions[0] {
        GateAction::Emit(FrontendEvent::PermissionRequest(p)) => {
            assert_eq!(p.tool_use_id, "perm_7");
            assert_eq!(p.risk_level, "write");
            assert_eq!(p.assistant_message_id, "");
            assert_eq!(p.input["command"], "ls");
        }
        _ => panic!("no request"),
    }
    assert!(matches!(
        &actions[1],
        GateAction::AwaitReply { request_id } if request_id == "perm_7"
    ));
    gate
}

#[test]
fn replies_of_the_user_decide() {
    let actions = asked(Some("e1")).step(GateInput::Replied(Some(text("allow_once"))));
    assert_eq!(actions.len(), 2);
    assert!(matches!(
        &actions[0],
        GateAction::SetApproval { execution_id, approved: true } if execution_id == "e1"
    ));
    assert!(is_allowed(&actions));
    let actions = asked(Some("e1")).step(GateInput::Replied(Some(text("allow_always"))));
    assert_eq!(actions.len(), 3);
    assert!(matches!(
        &actions[0],
        GateAction::RememberAllowed { conversation_id, tool_name }
            if conversation_id == "conv" && tool_name == "Bash"
    ));
    assert!(is_allowed(&actions));
    let actions = asked(Some("e1")).step(GateInput::Replied(Some(text("deny"))));
    assert!(matches!(&actions[0], GateAction::SetApproval { approved: false, .. }));
    assert_eq!(reason(&actions), "User denied permission");
    let actions = asked(None).step(GateInput::Replied(Some(text("maybe"))));
    assert_eq!(actions.len(), 1);
    assert_eq!(reason(&actions), "Unknown decision: maybe");
    let actions = asked(None).step(GateInput::Replied(None));
    assert_eq!(reason(&actions), "Permission request cancelled");
}

#[test]
fn cancelling_withdraws_the_request() {
    let actions = asked(Some("e1")).step(GateInput::Cancelled);
    assert_eq!(actions.len(), 3);
    assert!(matches!(
        &actions[0],
        GateAction::DropRequest { request_id } if request_id == "perm_7"
    ));
    assert!(matches!(&actions[1], GateAction::SetApproval { approved: false, .. }));
    assert_eq!(reason(&actions), "Agent cancelled");
}

#[test]
fn a_long_input_is_stored_up_to_the_last_whole_character() {
    let long = format!("{}é", "x".repeat(498));
    let (mut gate, _) = PermissionGate::new(
        text("conv"),
        text("Bash"),
        serde_json::Value::String(long),
        false,
        true,
        text(""),
    );
    gate.step(GateInput::AllowedChecked(false));
    gate.step(GateInput::Classified {
        risk: RiskLevel::Write,
        action: PermissionAction::RequireApproval,
    });
    let actions = gate.step(GateInput::IdMade { id: text("7"), message_id: None });
    assert!(matches!(&actions[0], GateAction::StoreRequest { .. }));
    assert!(matches!(
        &actions[1],
        GateAction::CreateExecution { input_preview, .. }
            if *input_preview == format!("\"{}…", "x".repeat(498))
    ));
}

#[test]
fn approvals_go_to_the_waiting_request() {
    let mut pending: Slots<u8> = Slots::new();
    pending.insert(text("perm_1"), 42);
    assert_eq!(
        agent_approve(&mut pending, "perm_1", "yes"),
        Err(text("Invalid decision: yes"))
    );
    assert_eq!(
        agent_approve(&mut pending, "perm_2", "deny"),
        Err(text("No pending permission request for tool_use_id: perm_2"))
    );
    assert_eq!(agent_approve(&mut pending, "perm_1", "allow_always"), Ok(42));
    assert_eq!(
        agent_approve(&mut pending, "perm_1", "allow_once"),
        Err(text("No pending permission request for tool_use_id: perm_1"))
    );
    assert_eq!(approval_result(true), Ok(()));
    assert_eq!(approval_result(false), Err(text("Permission channel closed")));
}

#[test]
fn answers_go_to_the_waiting_question() {
    let mut pending: Slots<u8> = Slots::new();
    pending.insert(text("ask_1"), 7);
    assert_eq!(agent_respond_ask(&mut pending, "ask_1"), Ok(7));
    assert_eq!(
        agent_respond_ask(&mut pending, "ask_1"),
        Err(text("No pending ask request for ask_id: ask_1"))
    );
    assert_eq!(answer_result(true), Ok(()));
    assert_eq!(answer_result(false), Err(text("Ask user channel closed")));
}

#[test]
fn questions_are_shown_and_answered() {
    let (ask_id, event) = ask_user(
        text("conv"),
        &None,
        "9",
        text("Which?"),
        Some(vec![text("a"), text("b")]),
    );
    assert_eq!(ask_id, "ask_9");
    match event {
        FrontendEvent::AskUser(p) => {
            assert_eq!(p.ask_id, "ask_9");
            assert_eq!(p.question, "Which?");
            assert_eq!(p.assistant_message_id, "");
            assert_eq!(p.options, Some(vec![text("a"), text("b")]));
        }
        _ => panic!("no question"),
    }
    assert_eq!(ask_answer(AskEnd::Replied(Some(text("a")))), (false, Ok(text("a"))));
    assert_eq!(
        ask_answer(AskEnd::Replied(None)),
        (false, Err(text("Ask user channel closed")))
    );
    assert_eq!(ask_answer(AskEnd::Cancelled), (true, Err(text("Agent cancelled"))));
}

#[test]
fn known_words_are_read_as_decisions() {
    assert!(matches!(read_reply(Some("allow_once")), PermissionDecision::Allow));
    assert!(matches!(read_reply(Some("deny")), PermissionDecision::Deny(_)));
    assert_eq!(approval_status(true), "approved");
    assert_eq!(approval_status(false), "denied");
    assert_eq!(RiskLevel::ReadOnly.as_str(), "read_only");
    assert_eq!(RiskLevel::Write.as_str(), "write");
    assert_eq!(RiskLevel::Execute.as_str(), "execute");
}
