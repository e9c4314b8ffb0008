use aqbot_agent_runtime::tool_input::{
    get_tool_input_summary, input_preview, json_field_text, summarize_fields,
    truncate_preview,
};

fn json(text: &str) -> serde_json::Value {
    serde_json::from_str(text).unwrap()
}

#[test]
fn summary_prefers_commands_and_paths() {
    let input = json(r#"{"content":"c","command":"ls -l","path":"/p"}"#);
    assert_eq!(get_tool_input_summary("Bash", &input), "ls -l");
    let input = json(r#"{"file_path":"/f","pattern":"x"}"#);
    assert_eq!(get_tool_input_summary("Grep", &input), "/f");
    let input = json(r#"{"path":"/p","file_path":"/f"}"#);
    assert_eq!(get_tool_input_summary("Read", &input), "/p");
    let input = json(r#"{"query":"q","pattern":"x"}"#);
    assert_eq!(get_tool_input_summary("Grep", &input), "x");
    let input = json(r#"{"content":"c","query":"q"}"#);
    assert_eq!(get_tool_input_summary("Search", &input), "q");
}

#[test]
fn summary_is_cut_by_characters() {
    let long = "é".repeat(100);
    let command = json(&format!("{{\"command\":\"{}\"}}", long));
    assert_eq!(get_tool_input_summary("Bash", &command), "é".repeat(80));
    let content = json(&format!("{{\"content\":\"{}\"}}", long));
    assert_eq!(get_tool_input_summary("Write", &content), "é".repeat(60));
    let path = json(&format!("{{\"path\":\"{}\"}}", long));
    assert_eq!(get_tool_input_summary("Read", &path), long);
}

#[test]
fn summary_falls_back_to_any_string_and_then_the_name() {
    let input = json(r#"{"a":1,"b":"second","c":"third"}"#);
    assert_eq!(get_tool_input_summary("Tool", &input), "second");
    assert_eq!(get_tool_input_summary("Tool", &json(r#"{"a":1,"command":2}"#)), "Tool");
    assert_eq!(get_tool_input_summary("Tool", &json("[\"x\"]")), "Tool");
    assert_eq!(get_tool_input_summary("Tool", &json("null")), "Tool");
}

#[test]
fn fields_are_summarized_without_json() {
    let fields = vec![
        ("x".to_string(), None),
        ("pattern".to_string(), Some("p".to_string())),
    ];
    assert_eq!(summarize_fields("Tool", &fields), "p");
    assert_eq!(summarize_fields("Tool", &Vec::new()), "Tool");
}

#[test]
fn previews_show_a_prefix_with_an_ellipsis() {
    assert_eq!(truncate_preview("abc", 3), "abc");
    assert_eq!(truncate_preview("abcd", 3), "abc…");
    assert_eq!(truncate_preview("éa", 2), "é…");
    assert_eq!(truncate_preview("aé", 3), "aé");
    assert_eq!(truncate_preview("", 0), "");
}

#[test]
fn previews_cut_no_character_in_two() {
    assert_eq!(truncate_preview("aé", 2), "a…");
    assert_eq!(truncate_preview("é", 1), "…");
    assert_eq!(truncate_preview("ab", 0), "…");
    assert_eq!(truncate_preview("a€b", 3), "a…");
    assert_eq!(truncate_preview("a€b", 4), "a€…");
    for max_len in 0..4 {
        assert_eq!(truncate_preview("\u{1f600}", max_len), "…");
    }
    assert_eq!(truncate_preview("\u{1f600}", 4), "\u{1f600}");
    assert_eq!(truncate_preview("\u{1f600}x", 4), "\u{1f600}…");
}

#[test]
fn inputs_are_previewed_as_compact_json() {
    let input = json("{ \"b\" : [1, 2], \"a\" : \"x\" }");
    assert_eq!(input_preview(&input, 500), "{\"a\":\"x\",\"b\":[1,2]}");
    assert_eq!(input_preview(&input, 4), "{\"a\"…");
    assert_eq!(input_preview(&json("\"é\""), 2), "\"…");
}

#[test]
fn a_string_field_is_found_by_its_key() {
    let input = json(r#"{"db_checksum":"abc","n":1}"#);
    assert_eq!(json_field_text(&input, "db_checksum"), Some("abc".to_string()));
    assert_eq!(json_field_text(&input, "n"), None);
    assert_eq!(json_field_text(&input, "missing"), None);
    assert_eq!(json_field_text(&json("\"abc\""), "db_checksum"), None);
}
