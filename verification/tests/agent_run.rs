use aqbot_agent_runtime::agent_run::AgentRun;
use aqbot_agent_runtime::payload::{AgentUsagePayload, FrontendEvent, UsdCost};
use aqbot_agent_runtime::stream::{Block, RunAction, RunInput, ToolStatus, ToolUse};

fn text(s: &str) -> String {
    s.to_string()
}

fn run(first_message: bool) -> AgentRun {
    AgentRun::new(text("conv"), text("user-msg"), 41, text("model"), first_message)
}

fn result(answer: &str) -> RunInput {
    RunInput::Result {
        text: text(answer),
        usage: AgentUsagePayload { input_tokens: 10, output_tokens: 5 },
        num_turns: 2,
        cost: UsdCost { bits: 0.25f64.to_bits() },
    }
}

fn tool(id: &str) -> Block {
    Block::ToolUse(ToolUse {
        id: text(id),
        name: text("Bash"),
        input: serde_json::from_str("{\"command\":\"ls\"}").unwrap(),
    })
}

#[test]
fn first_delta_creates_the_assistant_message() {
    let mut run = run(false);
    let actions = run.step(RunInput::TextDelta(text("Hi")));
    assert_eq!(actions.len(), 1);
    assert!(matches!(
        &actions[0],
        RunAction::CreateMessage { parent_id, created_at: Some(42), content }
            if parent_id == "user-msg" && content == "Hi"
    ));
    let actions = run.step(RunInput::MessageSaved(Some(text("m1"))));
    assert_eq!(actions.len(), 5);
    assert!(matches!(&actions[0], RunAction::PublishMessageId(id) if id == "m1"));
    assert!(matches!(
        &actions[1],
        RunAction::Emit(FrontendEvent::MessageId(p))
            if p.conversation_id == "conv" && p.assistant_message_id == "m1"
    ));
    assert!(matches!(&actions[2], RunAction::CountMessage));
    assert!(matches!(
        &actions[3],
        RunAction::UpdateMessage { id, content } if id == "m1" && content == "Hi"
    ));
    assert!(matches!(
        &actions[4],
        RunAction::Emit(FrontendEvent::StreamText(p))
            if p.text == "Hi" && p.assistant_message_id == "m1"
    ));
    let actions = run.step(RunInput::TextDelta(text(" there")));
    assert_eq!(actions.len(), 2);
    assert!(matches!(
        &actions[0],
        RunAction::UpdateMessage { content, .. } if content == "Hi there"
    ));
}

#[test]
fn streamed_text_is_not_taken_from_the_whole_message_again() {
    let mut run = run(false);
    run.step(RunInput::TextDelta(text("Hi")));
    run.step(RunInput::MessageSaved(Some(text("m1"))));
    let actions = run.step(RunInput::Assistant(vec![Block::Text(text("Hi")), Block::Other]));
    assert_eq!(actions.len(), 1);
    assert!(matches!(
        &actions[0],
        RunAction::UpdateMessage { content, .. } if content == "Hi"
    ));
    let actions = run.step(RunInput::Assistant(vec![Block::Text(text(" again"))]));
    assert_eq!(actions.len(), 2);
    assert!(matches!(
        &actions[0],
        RunAction::Emit(FrontendEvent::StreamText(p)) if p.text == " again"
    ));
    assert!(matches!(
        &actions[1],
        RunAction::UpdateMessage { content, .. } if content == "Hi again"
    ));
}

#[test]
fn tool_calls_are_recorded_and_marked_in_the_text() {
    let mut run = run(false);
    let actions = run.step(RunInput::Assistant(vec![
        Block::Thinking(text("plan")),
        tool("t1"),
        tool("t2"),
    ]));
    assert_eq!(actions.len(), 2);
    assert!(matches!(
        &actions[0],
        RunAction::Emit(FrontendEvent::StreamThinking(p))
            if p.thinking == "plan" && p.assistant_message_id == ""
    ));
    let actions = run.step(RunInput::MessageSaved(Some(text("m1"))));
    assert_eq!(actions.len(), 4);
    assert!(matches!(
        &actions[3],
        RunAction::CreateToolExecution { message_id: Some(m), tool_name, input_preview }
            if m == "m1" && tool_name == "Bash" && input_preview == "{\"command\":\"ls\"}"
    ));
    let actions = run.step(RunInput::ToolExecutionSaved(Some(text("e1"))));
    assert_eq!(actions.len(), 3);
    assert!(matches!(
        &actions[0],
        RunAction::Emit(FrontendEvent::StreamText(p)) if p.text
            == "\n\n<tool-call data-aqbot=\"1\" id=\"e1\" name=\"Bash\">ls</tool-call>\n\n"
    ));
    assert!(matches!(
        &actions[1],
        RunAction::Emit(FrontendEvent::ToolUse(p))
            if p.tool_use_id == "t1" && p.execution_id == Some(text("e1"))
    ));
    let actions = run.step(RunInput::ToolExecutionSaved(None));
    assert_eq!(actions.len(), 3);
    assert!(matches!(
        &actions[2],
        RunAction::UpdateMessage { content, .. } if content == concat_marks().as_str()
    ));
    let actions = run.step(RunInput::ToolStart {
        tool_use_id: text("t1"),
        tool_name: text("Bash"),
        input: serde_json::Value::Null,
    });
    assert!(matches!(
        &actions[1],
        RunAction::SetToolStatus { execution_id, status: ToolStatus::Running, output: None, error: None }
            if execution_id == "e1"
    ));
    let actions = run.step(RunInput::ToolStart {
        tool_use_id: text("t2"),
        tool_name: text("Bash"),
        input: serde_json::Value::Null,
    });
    assert_eq!(actions.len(), 1);
    assert!(matches!(&actions[0], RunAction::Emit(FrontendEvent::ToolStart(_))));
}

fn concat_marks() -> String {
    let mut all = text("<think data-aqbot=\"1\">\nplan\n</think>\n\n");
    all.push_str("\n\n<tool-call data-aqbot=\"1\" id=\"e1\" name=\"Bash\">ls</tool-call>\n\n");
    all.push_str("\n\n<tool-call data-aqbot=\"1\" id=\"t2\" name=\"Bash\">ls</tool-call>\n\n");
    all
}

#[test]
fn tool_results_are_stored_with_a_preview() {
    let mut run = run(false);
    run.step(RunInput::Assistant(vec![tool("t1")]));
    run.step(RunInput::MessageSaved(Some(text("m1"))));
    run.step(RunInput::ToolExecutionSaved(Some(text("e1"))));
    let long = "x".repeat(501);
    let actions = run.step(RunInput::ToolResult {
        tool_use_id: text("t1"),
        tool_name: text("Bash"),
        content: long.clone(),
        is_error: true,
    });
    assert_eq!(actions.len(), 2);
    assert!(matches!(
        &actions[0],
        RunAction::Emit(FrontendEvent::ToolResult(p)) if p.is_error && p.content == long
    ));
    assert!(matches!(
        &actions[1],
        RunAction::SetToolStatus { status: ToolStatus::Failed, output: Some(o), error: Some(e), .. }
            if *o == format!("{}…", "x".repeat(500)) && *e == long
    ));
    let actions = run.step(RunInput::ToolResult {
        tool_use_id: text("t1"),
        tool_name: text("Bash"),
        content: text("ok"),
        is_error: false,
    });
    assert!(matches!(
        &actions[1],
        RunAction::SetToolStatus { status: ToolStatus::Success, output: Some(o), error: None, .. }
            if o == "ok"
    ));
    assert_eq!(ToolStatus::Running.as_str(), "running");
    assert_eq!(ToolStatus::Success.as_str(), "success");
    assert_eq!(ToolStatus::Failed.as_str(), "failed");
}

#[test]
fn a_preview_is_cut_before_a_character_that_has_no_room() {
    let mut run = run(false);
    run.step(RunInput::Assistant(vec![tool("t1")]));
    run.step(RunInput::MessageSaved(Some(text("m1"))));
    run.step(RunInput::ToolExecutionSaved(Some(text("e1"))));
    let actions = run.step(RunInput::ToolResult {
        tool_use_id: text("t1"),
        tool_name: text("Bash"),
        content: format!("{}é", "x".repeat(499)) + "tail",
        is_error: false,
    });
    assert!(matches!(
        &actions[1],
        RunAction::SetToolStatus { status: ToolStatus::Success, output: Some(o), error: None, .. }
            if *o == format!("{}…", "x".repeat(499))
    ));
    assert!(!run.ended());
}

#[test]
fn permission_requests_status_and_limits_are_passed_on() {
    let mut run = run(false);
    run.step(RunInput::Assistant(vec![tool("t1")]));
    run.step(RunInput::MessageSaved(None));
    run.step(RunInput::ToolExecutionSaved(Some(text("e1"))));
    let actions = run.step(RunInput::PermissionRequest {
        tool_use_id: text("t1"),
        tool_name: text("Bash"),
        input: serde_json::Value::Null,
    });
    assert!(matches!(
        &actions[0],
        RunAction::Emit(FrontendEvent::PermissionRequest(p))
            if p.risk_level == "execute" && p.assistant_message_id == ""
    ));
    assert!(matches!(
        &actions[1],
        RunAction::SetToolPending { execution_id } if execution_id == "e1"
    ));
    let actions = run.step(RunInput::Status(text("busy")));
    assert!(matches!(
        &actions[0],
        RunAction::Emit(FrontendEvent::Status(p)) if p.message == "busy"
    ));
    let actions = run.step(RunInput::RateLimit { retry_after_ms: 7, message: text("slow") });
    assert!(matches!(
        &actions[0],
        RunAction::Emit(FrontendEvent::RateLimit(p)) if p.retry_after_ms == 7
    ));
    assert_eq!(run.step(RunInput::Other).len(), 0);
}

#[test]
fn a_turn_reports_its_result_and_releases_the_session() {
    let mut run = run(false);
    run.step(RunInput::ThinkingDelta(text("hm")));
    run.step(RunInput::MessageSaved(Some(text("m1"))));
    assert_eq!(run.step(result("42")).len(), 0);
    let actions = run.step(RunInput::Closed { crashed: false });
    assert_eq!(actions.len(), 4);
    let content = "<think data-aqbot=\"1\">\nhm\n</think>\n\n42";
    assert!(matches!(
        &actions[0],
        RunAction::UpdateMessage { id, content: c } if id == "m1" && c == content
    ));
    assert!(matches!(
        &actions[1],
        RunAction::RecordUsage { id, input_tokens: 10, output_tokens: 5 } if id == "m1"
    ));
    match &actions[2] {
        RunAction::Emit(FrontendEvent::Done(p)) => {
            assert_eq!(p.text, content);
            assert_eq!(p.thinking, Some(text("hm")));
            assert_eq!(p.model, Some(text("model")));
            assert_eq!(p.session_id, None);
            assert_eq!(p.num_turns, Some(2));
            assert_eq!(p.cost_usd.map(|c| f64::from_bits(c.bits)), Some(0.25));
            assert_eq!(p.usage.map(|u| u.output_tokens), Some(5));
        }
        _ => panic!("no closing event"),
    }
    assert!(matches!(&actions[3], RunAction::SaveSession { tokens: 15, .. }));
    assert!(run.ended());
    assert_eq!(run.step(RunInput::TextDelta(text("late"))).len(), 0);
}

#[test]
fn a_result_without_a_message_creates_one_at_the_end() {
    let mut run = run(false);
    run.step(result("answer"));
    let actions = run.step(RunInput::Closed { crashed: true });
    assert!(matches!(
        &actions[0],
        RunAction::CreateMessage { created_at: None, content, .. } if content == "answer"
    ));
    let actions = run.step(RunInput::MessageSaved(Some(text("m9"))));
    assert_eq!(actions.len(), 4);
    assert!(matches!(&actions[0], RunAction::CountMessage));
    assert!(matches!(
        &actions[2],
        RunAction::Emit(FrontendEvent::Done(p)) if p.assistant_message_id == "m9"
    ));
}

#[test]
fn an_empty_result_is_reported_without_a_message() {
    let mut run = run(false);
    run.step(result(""));
    let actions = run.step(RunInput::Closed { crashed: false });
    assert_eq!(actions.len(), 2);
    assert!(matches!(
        &actions[0],
        RunAction::Emit(FrontendEvent::Done(p)) if p.text == "" && p.assistant_message_id == ""
    ));
    assert!(matches!(&actions[1], RunAction::SaveSession { .. }));
}

#[test]
fn the_first_turn_gets_a_title() {
    let mut run = run(true);
    run.step(RunInput::TextDelta(text("Hi")));
    run.step(RunInput::MessageSaved(Some(text("m1"))));
    run.step(result("Hi"));
    let actions = run.step(RunInput::Closed { crashed: false });
    assert!(matches!(
        &actions[3],
        RunAction::Emit(FrontendEvent::TitleGenerating(p)) if p.generating && p.error.is_none()
    ));
    assert!(matches!(&actions[4], RunAction::GenerateTitle { result } if result == "Hi"));
    let actions = run.step(RunInput::TitleGenerated(Ok(text("Greeting"))));
    assert!(matches!(&actions[0], RunAction::SaveTitle { title } if title == "Greeting"));
    let actions = run.step(RunInput::TitleSaved(None));
    assert_eq!(actions.len(), 3);
    assert!(matches!(
        &actions[0],
        RunAction::Emit(FrontendEvent::TitleUpdated(p)) if p.title == "Greeting"
    ));
    assert!(matches!(
        &actions[1],
        RunAction::Emit(FrontendEvent::TitleGenerating(p)) if !p.generating
    ));
    assert!(matches!(&actions[2], RunAction::SaveSession { tokens: 15, .. }));
    assert!(run.ended());
}

#[test]
fn a_title_that_fails_is_told_and_the_session_still_saved() {
    let mut first = run(true);
    first.step(result("Hi"));
    first.step(RunInput::Closed { crashed: false });
    first.step(RunInput::MessageSaved(None));
    let actions = first.step(RunInput::TitleGenerated(Err(text("no model"))));
    assert!(matches!(
        &actions[0],
        RunAction::Emit(FrontendEvent::TitleGenerating(p)) if p.error == Some(text("no model"))
    ));
    assert!(matches!(&actions[1], RunAction::SaveSession { .. }));
    let mut second = run(true);
    second.step(result("Hi"));
    second.step(RunInput::Closed { crashed: false });
    second.step(RunInput::MessageSaved(None));
    second.step(RunInput::TitleGenerated(Ok(text("T"))));
    let actions = second.step(RunInput::TitleSaved(Some(text("disk full"))));
    assert!(matches!(
        &actions[0],
        RunAction::Emit(FrontendEvent::TitleGenerating(p))
            if p.error == Some(text("Failed to save title: disk full"))
    ));
}

#[test]
fn a_turn_without_a_result_ends_with_an_error() {
    let mut crashed = run(false);
    let actions = crashed.step(RunInput::Closed { crashed: true });
    assert!(matches!(
        &actions[0],
        RunAction::Emit(FrontendEvent::Error(p)) if p.message == "Agent task crashed unexpectedly"
    ));
    assert!(matches!(&actions[1], RunAction::SetIdle));
    let mut closed = run(false);
    let actions = closed.step(RunInput::Closed { crashed: false });
    assert!(matches!(
        &actions[0],
        RunAction::Emit(FrontendEvent::Error(p))
            if p.message == "Agent ended unexpectedly without producing a result"
                && p.assistant_message_id.is_none()
    ));
    assert!(closed.ended());
}

#[test]
fn a_stale_context_is_forgotten_on_its_error() {
    let mut stale = run(false);
    let actions = stale.step(RunInput::Error(text(
        "reasoning_content is required in thinking mode",
    )));
    assert_eq!(actions.len(), 3);
    assert!(matches!(&actions[0], RunAction::ClearContext));
    let mut other = run(false);
    let actions = other.step(RunInput::Error(text("thinking mode is off")));
    assert_eq!(actions.len(), 2);
    assert!(matches!(
        &actions[0],
        RunAction::Emit(FrontendEvent::Error(p)) if p.message == "thinking mode is off"
    ));
    assert!(matches!(&actions[1], RunAction::SetIdle));
}

#[test]
fn token_counts_wrap_like_casts() {
    let mut wide = run(false);
    wide.step(RunInput::TextDelta(text("Hi")));
    wide.step(RunInput::MessageSaved(Some(text("m1"))));
    wide.step(RunInput::Result {
        text: text("Hi"),
        usage: AgentUsagePayload { input_tokens: u64::MAX, output_tokens: 0 },
        num_turns: 1,
        cost: UsdCost { bits: 0 },
    });
    let actions = wide.step(RunInput::Closed { crashed: false });
    assert!(matches!(&actions[1], RunAction::RecordUsage { input_tokens: -1, .. }));
    assert!(matches!(&actions[3], RunAction::SaveSession { tokens: -1, .. }));
}
