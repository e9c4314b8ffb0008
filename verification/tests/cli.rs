use std::path::PathBuf;

use aqbot_agent_runtime::cli::{
    agent_command, build_cli_command, command_candidates, deepseek_names, describe_outcome,
    is_auto_mode, map_claude_code_permission_mode, pick_command, printed_text, AgentNames,
    CliAgent, CliOutcome, CommandLine, Word,
};
use aqbot_agent_runtime::location::Location;

fn path_of(place: &Location<PathBuf>) -> PathBuf {
    match place {
        Location::Explicit(path) => PathBuf::from(path),
        Location::Below { base, steps } => {
            let mut path = base.to_path_buf();
            for step in steps {
                path.push(step);
            }
            path
        }
    }
}

fn words(command: &CommandLine) -> Vec<String> {
    let mut all = vec![&command.program];
    all.extend(command.args.iter());
    all.iter()
        .map(|word| match word {
            Word::Text(text) => text.clone(),
            Word::CommandPath => "<command>".to_string(),
        })
        .collect()
}

#[test]
fn permission_modes_are_mapped_to_options() {
    assert_eq!(map_claude_code_permission_mode(None), "default");
    assert_eq!(map_claude_code_permission_mode(Some("accept_edits")), "acceptEdits");
    assert_eq!(map_claude_code_permission_mode(Some("acceptEdits")), "acceptEdits");
    assert_eq!(map_claude_code_permission_mode(Some("full_access")), "bypassPermissions");
    assert_eq!(
        map_claude_code_permission_mode(Some("bypassPermissions")),
        "bypassPermissions"
    );
    assert_eq!(map_claude_code_permission_mode(Some("plan")), "plan");
    assert_eq!(map_claude_code_permission_mode(Some("auto")), "auto");
    assert_eq!(map_claude_code_permission_mode(Some("dont_ask")), "dontAsk");
    assert_eq!(map_claude_code_permission_mode(Some("dontAsk")), "dontAsk");
    assert_eq!(map_claude_code_permission_mode(Some("anything")), "default");
}

#[test]
fn some_permission_modes_run_deepseek_without_questions() {
    for mode in ["accept_edits", "acceptEdits", "full_access", "bypassPermissions", "auto"] {
        assert!(is_auto_mode(Some(mode)));
    }
    assert!(!is_auto_mode(Some("plan")));
    assert!(!is_auto_mode(None));
}

#[test]
fn commands_are_looked_for_in_the_search_path_first() {
    let dirs = vec![PathBuf::from("/a"), PathBuf::from("/b")];
    let home = PathBuf::from("/home/me");
    let places: Vec<PathBuf> = command_candidates(CliAgent::ClaudeCode, "coder", &dirs, Some(&home))
        .iter()
        .map(path_of)
        .collect();
    assert_eq!(
        places,
        vec![
            PathBuf::from("/a/coder.cmd"),
            PathBuf::from("/a/coder.exe"),
            PathBuf::from("/a/coder"),
            PathBuf::from("/a/coder.ps1"),
            PathBuf::from("/b/coder.cmd"),
            PathBuf::from("/b/coder.exe"),
            PathBuf::from("/b/coder"),
            PathBuf::from("/b/coder.ps1"),
            home.join("AppData").join("Roaming").join("npm").join("coder.cmd"),
            PathBuf::from(r"C:\nvm4w\nodejs\coder.cmd"),
        ]
    );
    let none: Vec<PathBuf> = Vec::new();
    let places: Vec<PathBuf> = command_candidates(CliAgent::DeepSeekTui, &deepseek_names().command, &none, None)
        .iter()
        .map(path_of)
        .collect();
    assert_eq!(
        places,
        vec![
            PathBuf::from(r"C:\nvm4w\nodejs\deepseek-tui.cmd"),
            PathBuf::from(r"C:\nvm4w\nodejs\deepseek-tui.ps1"),
        ]
    );
}

#[test]
fn the_first_file_is_the_command() {
    assert_eq!(pick_command(&vec![false, true, true]), Some(1));
    assert_eq!(pick_command(&vec![false, false]), None);
    assert_eq!(pick_command(&Vec::new()), None);
}

#[test]
fn scripts_run_through_their_interpreter_on_windows() {
    assert_eq!(
        words(&build_cli_command(true, Some("CMD"))),
        vec!["cmd.exe", "/C", "<command>"]
    );
    assert_eq!(
        words(&build_cli_command(true, Some("bat"))),
        vec!["cmd.exe", "/C", "<command>"]
    );
    assert_eq!(
        words(&build_cli_command(true, Some("Ps1"))),
        vec![
            "powershell.exe",
            "-NoProfile",
            "-ExecutionPolicy",
            "Bypass",
            "-File",
            "<command>"
        ]
    );
    assert_eq!(words(&build_cli_command(true, Some("exe"))), vec!["<command>"]);
    assert_eq!(words(&build_cli_command(true, None)), vec!["<command>"]);
    assert_eq!(words(&build_cli_command(false, Some("cmd"))), vec!["<command>"]);
}

#[test]
fn a_text_agent_gets_its_arguments() {
    let command = agent_command(
        CliAgent::ClaudeCode,
        build_cli_command(false, None),
        "do it",
        Some("full_access"),
        Some(" opus "),
        Some("ignored"),
    );
    assert_eq!(
        words(&command),
        vec![
            "<command>",
            "-p",
            "do it",
            "--output-format",
            "text",
            "--permission-mode",
            "bypassPermissions",
            "--model",
            "opus"
        ]
    );
}

#[test]
fn deepseek_resumes_its_session() {
    let command = agent_command(
        CliAgent::DeepSeekTui,
        build_cli_command(false, None),
        "do it",
        Some("auto"),
        Some("v3"),
        Some(" abc "),
    );
    assert_eq!(
        words(&command),
        vec![
            "<command>", "--resume", "abc", "exec", "--auto", "--model", "v3", "--json", "do it"
        ]
    );
    let command = agent_command(
        CliAgent::DeepSeekTui,
        build_cli_command(false, None),
        "do it",
        None,
        Some("  "),
        Some(""),
    );
    assert_eq!(words(&command), vec!["<command>", "exec", "--json", "do it"]);
}

#[test]
fn printed_bytes_are_read_leniently() {
    assert_eq!(printed_text(&b"  ok\n".to_vec()), "ok");
    assert_eq!(printed_text(&vec![b'a', 0xff, b'b']), "a\u{fffd}b");
}

fn finished(success: bool, code: Option<i32>, out: &str, err: &str) -> CliOutcome {
    CliOutcome::Finished {
        success,
        code,
        stdout: out.as_bytes().to_vec(),
        stderr: err.as_bytes().to_vec(),
    }
}

#[test]
fn outcomes_are_described() {
    let agent = &AgentNames { label: "Coder".to_string(), command: "coder".to_string() };
    assert_eq!(describe_outcome(agent, &finished(true, Some(0), " hi \n", "warn")), "hi");
    assert_eq!(
        describe_outcome(agent, &finished(true, Some(0), " \n", "")),
        "Coder completed without text output."
    );
    assert_eq!(
        describe_outcome(agent, &finished(false, Some(-2), "out", "err")),
        "Coder failed with exit code -2.\n\nout\n\nerr"
    );
    assert_eq!(
        describe_outcome(agent, &finished(false, None, "", "err")),
        "Coder failed with exit code unknown.\n\nerr"
    );
    assert_eq!(
        describe_outcome(agent, &CliOutcome::NotStarted { error: "denied".to_string() }),
        "Coder failed: could not start the `coder` command.\n\ndenied"
    );
    assert_eq!(
        describe_outcome(agent, &CliOutcome::TimedOut),
        "Coder timed out after 10 minutes."
    );
    assert_eq!(
        describe_outcome(
            &deepseek_names(),
            &CliOutcome::NotLocated { search_path: "/bin".to_string() }
        ),
        "DeepSeek TUI failed: could not locate the `deepseek-tui` command.\n\nPATH: /bin"
    );
    assert_eq!(
        describe_outcome(
            &deepseek_names(),
            &CliOutcome::BadDirectory { cwd: "/x".to_string() }
        ),
        "DeepSeek TUI failed: working directory does not exist or is not a directory.\n\n/x"
    );
}
