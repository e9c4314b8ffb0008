use aqbot_agent_runtime::transcript::{build_agent_content_with_thinking, Transcript};

#[test]
fn reasoning_is_shown_in_blocks() {
    let mut transcript = Transcript::new();
    transcript.push_thinking("one ");
    transcript.push_thinking("two");
    transcript.push_text("answer");
    transcript.push_thinking("three");
    assert_eq!(
        transcript.text(),
        "<think data-aqbot=\"1\">\none two\n</think>\n\nanswer\n\n<think data-aqbot=\"1\">\nthree"
    );
    assert_eq!(transcript.thinking(), Some("one twothree".to_string()));
}

#[test]
fn final_content_closes_the_block_and_adds_a_new_result() {
    let mut transcript = Transcript::new();
    transcript.push_thinking("hm");
    assert_eq!(
        transcript.finish("done"),
        "<think data-aqbot=\"1\">\nhm\n</think>\n\ndone"
    );
    assert_eq!(transcript.finish("hm"), "<think data-aqbot=\"1\">\nhm\n</think>\n\n");
    assert_eq!(transcript.finish(""), "<think data-aqbot=\"1\">\nhm\n</think>\n\n");
}

#[test]
fn a_result_that_was_shown_is_not_shown_again() {
    let mut transcript = Transcript::new();
    transcript.push_text("The answer is 42.");
    assert_eq!(transcript.finish("answer is"), "The answer is 42.");
    assert_eq!(transcript.finish("43"), "The answer is 42.43");
    assert_eq!(transcript.thinking(), None);
}

#[test]
fn an_empty_transcript_shows_the_result_alone() {
    let transcript = Transcript::new();
    assert_eq!(transcript.finish("r"), "r");
    assert_eq!(transcript.finish(""), "");
}

#[test]
fn content_embeds_trimmed_thinking() {
    assert_eq!(
        build_agent_content_with_thinking("text", Some(" why \n")),
        "<think data-aqbot=\"1\">\nwhy\n</think>\n\ntext"
    );
    assert_eq!(build_agent_content_with_thinking("text", Some("  ")), "text");
    assert_eq!(build_agent_content_with_thinking("text", None), "text");
}
