use aqbot_agent_runtime::cancel::{agent_cancel, CancelAction, CancelInput};
use aqbot_agent_runtime::payload::UsdCost;
use aqbot_agent_runtime::session::AgentSession;

fn text(s: &str) -> String {
    s.to_string()
}

#[test]
fn cancelling_stops_the_agent_once_the_session_is_idle() {
    let session = AgentSession {
        id: text("s1"),
        conversation_id: text("conv"),
        cwd: None,
        permission_mode: text("default"),
        runtime_status: text("running"),
        sdk_context_json: None,
        sdk_context_backup_json: None,
        total_tokens: 0,
        total_cost_usd: UsdCost { bits: 0 },
        created_at: text(""),
        updated_at: text(""),
    };
    let actions = agent_cancel(CancelInput::SessionLoaded(Ok(Some(session))));
    assert_eq!(actions.len(), 1);
    assert!(matches!(&actions[0], CancelAction::SetIdle { session_id } if session_id == "s1"));
    let actions = agent_cancel(CancelInput::IdleSet(None));
    assert_eq!(actions.len(), 3);
    assert!(matches!(&actions[0], CancelAction::CancelToken));
    assert!(matches!(&actions[1], CancelAction::StopRunning));
    assert!(matches!(&actions[2], CancelAction::Finish(None)));
}

#[test]
fn cancelling_fails_without_a_session() {
    let actions = agent_cancel(CancelInput::SessionLoaded(Ok(None)));
    assert!(matches!(
        &actions[0],
        CancelAction::Finish(Some(e)) if e == "Agent session not found"
    ));
    let actions = agent_cancel(CancelInput::SessionLoaded(Err(text("db"))));
    assert!(matches!(&actions[0], CancelAction::Finish(Some(e)) if e == "db"));
    let actions = agent_cancel(CancelInput::IdleSet(Some(text("db"))));
    assert_eq!(actions.len(), 1);
    assert!(matches!(&actions[0], CancelAction::Finish(Some(e)) if e == "db"));
}
