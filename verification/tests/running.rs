use aqbot_agent_runtime::running::{AllowedTools, RunningAgents, Slots};

#[test]
fn a_late_end_keeps_the_new_run() {
    let mut running = RunningAgents::new();
    assert!(!running.is_running("c"));
    running.start("c".to_string(), "run1".to_string());
    running.cancel("c");
    assert!(!running.is_running("c"));
    running.start("c".to_string(), "run2".to_string());
    running.finish("c", "run1");
    assert!(running.is_running("c"));
    running.finish("other", "run2");
    assert!(running.is_running("c"));
    running.finish("c", "run2");
    assert!(!running.is_running("c"));
    running.finish("c", "run2");
    assert!(!running.is_running("c"));
}

#[test]
fn waiting_values_are_taken_once() {
    let mut slots: Slots<u8> = Slots::new();
    slots.insert("a".to_string(), 1);
    slots.insert("b".to_string(), 2);
    slots.insert("a".to_string(), 3);
    assert_eq!(slots.take("a"), Some(3));
    assert_eq!(slots.take("a"), None);
    assert_eq!(slots.take("b"), Some(2));
    assert_eq!(slots.take("c"), None);
}

#[test]
fn tools_are_allowed_per_conversation() {
    let mut allowed = AllowedTools::new();
    assert!(!allowed.allows("c", "Bash"));
    allowed.allow("c".to_string(), "Bash".to_string());
    allowed.allow("c".to_string(), "Bash".to_string());
    assert!(allowed.allows("c", "Bash"));
    assert!(!allowed.allows("d", "Bash"));
    assert!(!allowed.allows("c", "Write"));
}
