use aqbot_agent_runtime::cli::{deepseek_names, AgentNames, CliAgent, CliOutcome, Word};
use aqbot_agent_runtime::cli_turn::{CliAction, CliInput, CliTurn};
use aqbot_agent_runtime::deepseek::{
    DeepSeekExecJson, DeepSeekSavedContentBlock, DeepSeekSavedMessage, DeepSeekSavedSession,
    DeepSeekSavedSessionMetadata, SessionEntry,
};
use aqbot_agent_runtime::payload::{AgentDonePayload, FrontendEvent};

fn text(s: &str) -> String {
    s.to_string()
}

fn begin(agent: CliAgent, cwd: Option<&str>, resumed: Option<&str>) -> CliTurn {
    let names = match agent {
        CliAgent::ClaudeCode => AgentNames { label: text("Coder"), command: text("coder") },
        CliAgent::DeepSeekTui => deepseek_names(),
    };
    let (turn, action) = CliTurn::new(
        agent,
        names,
        text("conv"),
        text("s1"),
        text("u1"),
        9,
        text("do it"),
        None,
        Some(text("m")),
        cwd.map(text),
        resumed.map(text),
    );
    assert!(matches!(
        action,
        CliAction::CreateMessage { parent_id, created_at: 10, content }
            if parent_id == "u1" && content == ""
    ));
    turn
}

fn started(agent: CliAgent, resumed: Option<&str>) -> CliTurn {
    let mut turn = begin(agent, None, resumed);
    let actions = turn.step(CliInput::MessageSaved(Some(text("a1"))));
    assert_eq!(actions.len(), 3);
    assert!(matches!(
        &actions[0],
        CliAction::Emit(FrontendEvent::MessageId(p)) if p.assistant_message_id == "a1"
    ));
    assert!(matches!(&actions[1], CliAction::CountMessage));
    assert!(matches!(&actions[2], CliAction::Locate));
    let actions = turn.step(CliInput::Located { windows: false, extension: None });
    assert!(matches!(&actions[0], CliAction::Run { cwd: None, limit_secs: 600, .. }));
    turn
}

fn finished(success: bool, out: &str) -> CliInput {
    CliInput::Ran(CliOutcome::Finished {
        success,
        code: Some(3),
        stdout: out.as_bytes().to_vec(),
        stderr: Vec::new(),
    })
}

fn done(action: &CliAction) -> &AgentDonePayload {
    match action {
        CliAction::Emit(FrontendEvent::Done(payload)) => payload,
        _ => panic!("no closing event"),
    }
}

#[test]
fn a_text_agent_stores_and_reports_what_it_printed() {
    let mut turn = started(CliAgent::ClaudeCode, Some("never"));
    let actions = turn.step(finished(true, " hello \n"));
    assert_eq!(actions.len(), 3);
    assert!(matches!(
        &actions[0],
        CliAction::UpdateMessage { id, content } if id == "a1" && content == "hello"
    ));
    let payload = done(&actions[1]);
    assert_eq!(payload.text, "hello");
    assert_eq!(payload.model, Some(text("m")));
    assert_eq!(payload.session_id, None);
    assert_eq!(payload.num_turns, Some(1));
    assert!(payload.usage.is_none() && payload.cost_usd.is_none());
    assert!(matches!(&actions[2], CliAction::SetIdle { session_id } if session_id == "s1"));
    assert!(turn.ended());
    assert_eq!(turn.step(finished(true, "again")).len(), 0);
}

#[test]
fn a_turn_without_a_message_is_still_reported() {
    let mut turn = begin(CliAgent::ClaudeCode, None, None);
    let actions = turn.step(CliInput::MessageSaved(None));
    assert_eq!(actions.len(), 1);
    let actions = turn.step(CliInput::NotLocated { search_path: text("/bin") });
    assert_eq!(actions.len(), 2);
    assert_eq!(
        done(&actions[0]).text,
        "Coder failed: could not locate the `coder` command.\n\nPATH: /bin"
    );
    assert_eq!(done(&actions[0]).assistant_message_id, "");
}

#[test]
fn the_working_directory_is_checked_before_the_run() {
    let mut turn = begin(CliAgent::DeepSeekTui, Some("/w"), Some("old"));
    turn.step(CliInput::MessageSaved(Some(text("a1"))));
    let actions = turn.step(CliInput::Located { windows: true, extension: Some(text("cmd")) });
    assert!(matches!(&actions[0], CliAction::CheckDirectory { cwd } if cwd == "/w"));
    let actions = turn.step(CliInput::DirectoryChecked(true));
    match &actions[0] {
        CliAction::Run { command, cwd, .. } => {
            assert_eq!(*cwd, Some(text("/w")));
            assert!(matches!(&command.program, Word::Text(t) if t == "cmd.exe"));
            assert!(matches!(&command.args[1], Word::CommandPath));
            assert!(matches!(&command.args[2], Word::Text(t) if t == "--resume"));
            assert!(matches!(&command.args[3], Word::Text(t) if t == "old"));
        }
        _ => panic!("no run"),
    }
    let mut turn = begin(CliAgent::DeepSeekTui, Some("/w"), Some("old"));
    turn.step(CliInput::MessageSaved(Some(text("a1"))));
    turn.step(CliInput::Located { windows: false, extension: None });
    let actions = turn.step(CliInput::DirectoryChecked(false));
    let payload = done(&actions[1]);
    assert_eq!(
        payload.text,
        "DeepSeek TUI failed: working directory does not exist or is not a directory.\n\n/w"
    );
    assert_eq!(payload.model, None);
    assert_eq!(payload.session_id, Some(text("old")));
}

#[test]
fn a_failed_deepseek_run_keeps_the_session() {
    let mut turn = started(CliAgent::DeepSeekTui, Some("old"));
    let actions = turn.step(finished(false, "oops"));
    assert!(matches!(
        &actions[0],
        CliAction::UpdateMessageAndThinking { content, thinking: None, .. }
            if content == "DeepSeek TUI failed with exit code 3.\n\noops"
    ));
    assert_eq!(done(&actions[1]).session_id, Some(text("old")));
    assert_eq!(done(&actions[1]).model, Some(text("m")));
    assert!(matches!(&actions[2], CliAction::SetIdle { .. }));
    let mut turn = started(CliAgent::DeepSeekTui, None);
    let actions = turn.step(CliInput::Ran(CliOutcome::TimedOut));
    assert_eq!(done(&actions[1]).text, "DeepSeek TUI timed out after 10 minutes.");
}

fn saved() -> DeepSeekSavedSession {
    DeepSeekSavedSession {
        metadata: DeepSeekSavedSessionMetadata { id: text("real"), model: None },
        messages: vec![DeepSeekSavedMessage {
            role: text("assistant"),
            content: vec![
                DeepSeekSavedContentBlock::Thinking { thinking: text("why") },
                DeepSeekSavedContentBlock::Text { text: text("because") },
            ],
        }],
    }
}

#[test]
fn a_deepseek_run_is_reported_from_its_newest_session() {
    let mut turn = started(CliAgent::DeepSeekTui, None);
    let actions = turn.step(finished(true, "{}"));
    assert!(matches!(&actions[0], CliAction::ParseOutput { text } if text == "{}"));
    let parsed = DeepSeekExecJson { model: None, success: None, output: None };
    let actions = turn.step(CliInput::OutputParsed(Some(parsed)));
    assert!(matches!(&actions[0], CliAction::ListSessions));
    let entries = vec![Some(SessionEntry {
        stem: Some(text("file")),
        extension: Some(text("json")),
        modified: None,
    })];
    let actions = turn.step(CliInput::SessionsListed(Some(entries)));
    assert!(matches!(&actions[0], CliAction::LoadSession { session_id } if session_id == "file"));
    let actions = turn.step(CliInput::SessionLoaded(Some(saved())));
    assert!(matches!(
        &actions[0],
        CliAction::SerializeContext(c)
            if c.deepseek_session_id == Some(text("real")) && c.deepseek_model == Some(text("m"))
    ));
    let actions = turn.step(CliInput::ContextSerialized(Some(text("{ctx}"))));
    assert_eq!(actions.len(), 3);
    assert!(matches!(
        &actions[0],
        CliAction::UpdateMessageAndThinking { id, content, thinking: Some(t) }
            if id == "a1" && t == "why"
                && content == "<think data-aqbot=\"1\">\nwhy\n</think>\n\nbecause"
    ));
    assert_eq!(done(&actions[1]).text, "because");
    assert_eq!(done(&actions[1]).thinking, Some(text("why")));
    assert_eq!(done(&actions[1]).session_id, Some(text("real")));
    assert!(matches!(
        &actions[2],
        CliAction::SaveContext { session_id, context } if session_id == "s1" && context == "{ctx}"
    ));
    assert!(turn.ended());
}

#[test]
fn a_deepseek_run_without_any_session_stores_no_context() {
    let mut turn = started(CliAgent::DeepSeekTui, None);
    turn.step(finished(true, "plain"));
    turn.step(CliInput::OutputParsed(None));
    let actions = turn.step(CliInput::SessionsListed(None));
    assert_eq!(actions.len(), 3);
    assert_eq!(done(&actions[1]).text, "plain");
    assert!(matches!(&actions[2], CliAction::SetIdle { .. }));
    let mut resumed = started(CliAgent::DeepSeekTui, Some("old"));
    resumed.step(finished(true, "plain"));
    let actions = resumed.step(CliInput::OutputParsed(None));
    assert!(matches!(&actions[0], CliAction::LoadSession { session_id } if session_id == "old"));
    let actions = resumed.step(CliInput::SessionLoaded(None));
    assert!(matches!(&actions[0], CliAction::SerializeContext(_)));
    let actions = resumed.step(CliInput::ContextSerialized(None));
    assert!(matches!(&actions[2], CliAction::SetIdle { .. }));
}
