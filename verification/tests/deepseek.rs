use std::path::PathBuf;

use aqbot_agent_runtime::deepseek::{
    deepseek_sessions_dir, empty_context, extract_latest_deepseek_reply,
    latest_deepseek_session_file, report_success, resolve_deepseek_session_file, DeepSeekExecJson,
    DeepSeekSavedContentBlock, DeepSeekSavedMessage, DeepSeekSavedSession,
    DeepSeekSavedSessionMetadata, SessionEntry,
};
use aqbot_agent_runtime::location::Location;

fn text(s: &str) -> String {
    s.to_string()
}

fn steps(place: Option<Location<PathBuf>>) -> Vec<String> {
    match place {
        Some(Location::Below { steps, .. }) => steps,
        _ => panic!("no place"),
    }
}

fn thought(s: &str) -> DeepSeekSavedContentBlock {
    DeepSeekSavedContentBlock::Thinking { thinking: text(s) }
}

fn said(s: &str) -> DeepSeekSavedContentBlock {
    DeepSeekSavedContentBlock::Text { text: text(s) }
}

fn session(messages: Vec<DeepSeekSavedMessage>) -> DeepSeekSavedSession {
    DeepSeekSavedSession {
        metadata: DeepSeekSavedSessionMetadata { id: text("real-id"), model: Some(text("saved")) },
        messages,
    }
}

fn message(role: &str, content: Vec<DeepSeekSavedContentBlock>) -> DeepSeekSavedMessage {
    DeepSeekSavedMessage { role: text(role), content }
}

#[test]
fn the_last_assistant_message_is_the_reply() {
    let saved = session(vec![
        message("assistant", vec![said("old")]),
        message(
            "assistant",
            vec![
                thought("a"),
                said("x"),
                DeepSeekSavedContentBlock::Other,
                thought("b"),
                said("y"),
            ],
        ),
        message("user", vec![said("later")]),
    ]);
    assert_eq!(
        extract_latest_deepseek_reply(&saved),
        Some((Some(text("a\n\nb")), Some(text("x\n\ny"))))
    );
    let silent = session(vec![message("assistant", vec![DeepSeekSavedContentBlock::Other])]);
    assert_eq!(extract_latest_deepseek_reply(&silent), Some((None, None)));
    let none = session(vec![message("user", vec![said("x")])]);
    assert_eq!(extract_latest_deepseek_reply(&none), None);
}

#[test]
fn sessions_lie_below_the_home_directory() {
    let home = PathBuf::from("/home/me");
    assert_eq!(steps(deepseek_sessions_dir(Some(&home))), vec![".deepseek", "sessions"]);
    assert!(deepseek_sessions_dir::<PathBuf>(None).is_none());
    assert_eq!(
        steps(resolve_deepseek_session_file(Some(&home), "abc")),
        vec![".deepseek", "sessions", "abc.json"]
    );
    assert!(resolve_deepseek_session_file::<PathBuf>(None, "abc").is_none());
}

fn entry(stem: &str, extension: &str, modified: Option<i128>) -> Option<SessionEntry> {
    Some(SessionEntry { stem: Some(text(stem)), extension: Some(text(extension)), modified })
}

#[test]
fn the_newest_session_file_is_picked() {
    let entries = vec![
        entry("a", "json", Some(5)),
        entry("b", "txt", Some(100)),
        entry("c", "json", Some(9)),
        entry("d", "json", Some(9)),
        entry("e", "json", None),
    ];
    assert_eq!(latest_deepseek_session_file(&entries), Some(2));
    let old = vec![entry("a", "json", Some(-5)), entry("b", "json", None)];
    assert_eq!(latest_deepseek_session_file(&old), Some(1));
    let no_session = vec![entry("b", "txt", Some(100))];
    assert_eq!(latest_deepseek_session_file(&no_session), None);
    let unreadable = vec![entry("a", "json", Some(5)), None];
    assert_eq!(latest_deepseek_session_file(&unreadable), None);
}

#[test]
fn a_saved_session_is_reported_before_the_printed_result() {
    let saved = session(vec![message("assistant", vec![thought("why"), said("because")])]);
    let parsed =
        DeepSeekExecJson { model: Some(text("printed")), success: None, output: Some(text("out")) };
    let report = report_success(
        "DeepSeek TUI",
        "stdout",
        Some(parsed),
        &Some(text("asked")),
        Some(text("file-id")),
        Some(saved),
    );
    assert_eq!(report.text, "because");
    assert_eq!(report.thinking, Some(text("why")));
    assert_eq!(report.model, Some(text("saved")));
    assert_eq!(report.session_id, Some(text("real-id")));
    let context = report.context.unwrap();
    assert_eq!(context.deepseek_session_id, Some(text("real-id")));
    assert_eq!(context.deepseek_model, Some(text("saved")));
}

#[test]
fn the_printed_result_is_reported_without_a_session() {
    let parsed = DeepSeekExecJson { model: None, success: Some(false), output: Some(text("out")) };
    let report = report_success("DeepSeek TUI", "stdout", Some(parsed), &Some(text("asked")), None, None);
    assert_eq!(report.text, "out");
    assert_eq!(report.model, Some(text("asked")));
    assert_eq!(report.session_id, None);
    assert!(report.context.is_none());
    let blank = DeepSeekExecJson { model: None, success: None, output: Some(text(" ")) };
    let report = report_success("DeepSeek TUI", "stdout", Some(blank), &None, Some(text("id")), None);
    assert_eq!(report.text, "stdout");
    assert_eq!(report.session_id, Some(text("id")));
    let report = report_success("DeepSeek TUI", "", None, &None, None, None);
    assert_eq!(report.text, "DeepSeek TUI completed without text output.");
}

#[test]
fn an_unused_session_has_an_empty_context() {
    let context = empty_context();
    assert_eq!(context.deepseek_session_id, None);
    assert_eq!(context.deepseek_model, None);
}
