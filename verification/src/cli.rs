//! Command-line agents: where their commands are looked for, how they are called, and what
//! their outcome tells the user.
use vstd::prelude::*;
use vstd::string::*;
use vstd::utf8::*;

use crate::location::{below, Location, LocationView};
use crate::text::{
    ascii_lowered, decode_lossy, i32_text, is_lowered_to, lossy_text, opt_view, same_text,
    signed_decimal, trim, trimmed, views,
};

verus! {

/// A command-line agent.
#[derive(Clone, Copy, Debug, PartialEq, Eq, Structural)]
pub enum CliAgent {
    ClaudeCode,
    DeepSeekTui,
}

/// What an agent is called. The host program knows the names of the agents that it offers.
#[derive(Debug)]
pub struct AgentNames {
    /// The name that the user sees.
    pub label: String,
    /// The name of the command.
    pub command: String,
}

/// The names of an agent as sequences of characters.
pub struct NamesView {
    pub label: Seq<char>,
    pub command: Seq<char>,
}

impl View for AgentNames {
    type V = NamesView;

    open spec fn view(&self) -> NamesView {
        NamesView { label: self.label@, command: self.command@ }
    }
}

/// The names of DeepSeek TUI.
pub fn deepseek_names() -> (names: AgentNames)
    ensures
        names@ == (NamesView { label: "DeepSeek TUI"@, command: "deepseek-tui"@ }),
{
    AgentNames { label: "DeepSeek TUI".to_owned(), command: "deepseek-tui".to_owned() }
}

// ---------------------------------------------------------------------------------------
// Permission modes
// ---------------------------------------------------------------------------------------

/// The value of the `--permission-mode` option for a permission mode.
pub open spec fn claude_mode(mode: Option<Seq<char>>) -> Seq<char> {
    let mode = match mode {
        Some(mode) => mode,
        None => "default"@,
    };
    if mode == "accept_edits"@ || mode == "acceptEdits"@ {
        "acceptEdits"@
    } else if mode == "full_access"@ || mode == "bypassPermissions"@ {
        "bypassPermissions"@
    } else if mode == "plan"@ {
        "plan"@
    } else if mode == "auto"@ {
        "auto"@
    } else if mode == "dont_ask"@ || mode == "dontAsk"@ {
        "dontAsk"@
    } else {
        "default"@
    }
}

/// Maps a permission mode to the value of the `--permission-mode` option.
pub fn map_claude_code_permission_mode(mode: Option<&str>) -> (mapped: &'static str)
    ensures
        mapped@ == claude_mode(opt_view(mode)),
{
    let mode = match mode {
        Some(mode) => mode,
        None => "default",
    };
    if same_text(mode, "accept_edits") || same_text(mode, "acceptEdits") {
        "acceptEdits"
    } else if same_text(mode, "full_access") || same_text(mode, "bypassPermissions") {
        "bypassPermissions"
    } else if same_text(mode, "plan") {
        "plan"
    } else if same_text(mode, "auto") {
        "auto"
    } else if same_text(mode, "dont_ask") || same_text(mode, "dontAsk") {
        "dontAsk"
    } else {
        "default"
    }
}

/// Whether DeepSeek TUI may act without asking.
pub open spec fn auto_mode(mode: Option<Seq<char>>) -> bool {
    match mode {
        Some(mode) => {
            ||| mode == "accept_edits"@
            ||| mode == "acceptEdits"@
            ||| mode == "full_access"@
            ||| mode == "bypassPermissions"@
            ||| mode == "auto"@
        },
        None => false,
    }
}

/// Whether a permission mode lets DeepSeek TUI act without asking.
pub fn is_auto_mode(mode: Option<&str>) -> (auto: bool)
    ensures
        auto == auto_mode(opt_view(mode)),
{
    match mode {
        Some(mode) => same_text(mode, "accept_edits") || same_text(mode, "acceptEdits")
            || same_text(mode, "full_access") || same_text(mode, "bypassPermissions")
            || same_text(mode, "auto"),
        None => false,
    }
}

// ---------------------------------------------------------------------------------------
// Finding the command
// ---------------------------------------------------------------------------------------

/// The names that a command can have in a directory of the search path, best first.
pub open spec fn command_names(command: Seq<char>) -> Seq<Seq<char>> {
    seq![command + ".cmd"@, command + ".exe"@, command, command + ".ps1"@]
}

/// The places of a command in the directories of the search path.
pub open spec fn path_candidates<B>(command: Seq<char>, dirs: Seq<B>) -> Seq<LocationView<B>>
    decreases dirs.len(),
{
    if dirs.len() == 0 {
        Seq::empty()
    } else {
        path_candidates(command, dirs.drop_last()) + Seq::new(
            4,
            |i: int|
                LocationView::Below { base: dirs.last(), steps: seq![command_names(command)[i]] },
        )
    }
}

/// The place of a command below the home directory of the user.
pub open spec fn home_candidates<B>(command: Seq<char>, home: Option<B>) -> Seq<LocationView<B>> {
    match home {
        Some(home) => seq![
            LocationView::Below {
                base: home,
                steps: seq!["AppData"@, "Roaming"@, "npm"@, command + ".cmd"@],
            },
        ],
        None => Seq::empty(),
    }
}

/// The places where a command is looked for whatever the search path says.
pub open spec fn fixed_candidates<B>(agent: CliAgent, command: Seq<char>) -> Seq<LocationView<B>> {
    match agent {
        CliAgent::ClaudeCode => seq![
            LocationView::Explicit("C:\\nvm4w\\nodejs\\"@ + command + ".cmd"@),
        ],
        CliAgent::DeepSeekTui => seq![
            LocationView::Explicit("C:\\nvm4w\\nodejs\\"@ + command + ".cmd"@),
            LocationView::Explicit("C:\\nvm4w\\nodejs\\"@ + command + ".ps1"@),
        ],
    }
}

/// The places where an agent's command is looked for, best first.
pub open spec fn candidates<B>(
    agent: CliAgent,
    command: Seq<char>,
    dirs: Seq<B>,
    home: Option<B>,
) -> Seq<LocationView<B>> {
    path_candidates(command, dirs) + home_candidates(command, home) + fixed_candidates(
        agent,
        command,
    )
}

fn suffixed(name: &str, suffix: &str) -> (text: String)
    ensures
        text@ == name@ + suffix@,
{
    let mut text = name.to_owned();
    text.append(suffix);
    text
}

fn fixed_place(command: &str, extension: &str) -> (path: String)
    ensures
        path@ == "C:\\nvm4w\\nodejs\\"@ + command@ + extension@,
{
    let mut path = "C:\\nvm4w\\nodejs\\".to_owned();
    path.append(command);
    path.append(extension);
    path
}

/// Lists the places where an agent's command is looked for, best first.
pub fn command_candidates<'a, B>(
    agent: CliAgent,
    command: &str,
    path_dirs: &'a Vec<B>,
    home: Option<&'a B>,
) -> (places: Vec<Location<'a, B>>)
    ensures
        views(places@) == candidates(
            agent,
            command@,
            path_dirs@,
            match home {
                Some(home) => Some(*home),
                None => None,
            },
        ),
{
    let mut places: Vec<Location<'a, B>> = Vec::new();
    assert(path_dirs@.take(0) =~= Seq::empty());
    assert(views(places@) =~= Seq::empty());
    let mut i: usize = 0;
    while i < path_dirs.len()
        invariant
            i <= path_dirs.len(),
            views(places@) == path_candidates(command@, path_dirs@.take(i as int)),
        decreases path_dirs.len() - i,
    {
        let ghost before = views(places@);
        let dir = &path_dirs[i];
        places.push(below(dir, suffixed(command, ".cmd").as_str()));
        places.push(below(dir, suffixed(command, ".exe").as_str()));
        places.push(below(dir, command));
        places.push(below(dir, suffixed(command, ".ps1").as_str()));
        proof {
            let dirs = path_dirs@.take(i + 1);
            assert(dirs.drop_last() =~= path_dirs@.take(i as int));
            assert(dirs.last() == *dir);
            let added = Seq::new(
                4,
                |k: int|
                    LocationView::Below { base: *dir, steps: seq![command_names(command@)[k]] },
            );
            assert(views(places@) =~= before + added);
        }
        i = i + 1;
    }
    assert(path_dirs@.take(i as int) =~= path_dirs@);
    let ghost in_path = views(places@);
    let ghost home_value: Option<B> = match home {
        Some(home) => Some(*home),
        None => None,
    };
    if let Some(home) = home {
        let mut steps: Vec<String> = Vec::new();
        steps.push("AppData".to_owned());
        steps.push("Roaming".to_owned());
        steps.push("npm".to_owned());
        steps.push(suffixed(command, ".cmd"));
        assert(views(steps@) =~= seq!["AppData"@, "Roaming"@, "npm"@, command@ + ".cmd"@]);
        places.push(Location::Below { base: home, steps });
    }
    assert(views(places@) =~= in_path + home_candidates(command@, home_value));
    let ghost found = views(places@);
    places.push(Location::Explicit(fixed_place(command, ".cmd")));
    if agent == CliAgent::DeepSeekTui {
        places.push(Location::Explicit(fixed_place(command, ".ps1")));
    }
    assert(views(places@) =~= found + fixed_candidates(agent, command@));
    places
}

/// The first place that holds a file.
pub open spec fn first_file(files: Seq<bool>) -> Option<int>
    decreases files.len(),
{
    if files.len() == 0 {
        None
    } else {
        match first_file(files.drop_last()) {
            Some(i) => Some(i),
            None => if files.last() {
                Some(files.len() - 1)
            } else {
                None
            },
        }
    }
}

/// Picks the first place that holds a file.
pub fn pick_command(files: &Vec<bool>) -> (index: Option<usize>)
    ensures
        match index {
            Some(i) => first_file(files@) == Some(i as int),
            None => first_file(files@) is None,
        },
{
    let mut found: Option<usize> = None;
    assert(files@.take(0) =~= Seq::empty());
    let mut i: usize = 0;
    while i < files.len()
        invariant
            i <= files.len(),
            match found {
                Some(k) => first_file(files@.take(i as int)) == Some(k as int),
                None => first_file(files@.take(i as int)) is None,
            },
        decreases files.len() - i,
    {
        assert(files@.take(i + 1).drop_last() =~= files@.take(i as int));
        if found.is_none() && files[i] {
            found = Some(i);
        }
        i = i + 1;
    }
    assert(files@.take(i as int) =~= files@);
    found
}

/// The chosen place is the best one that holds a file; none is chosen only where none holds
/// one.
pub proof fn best_command_is_picked(files: Seq<bool>, at: int)
    requires
        0 <= at < files.len(),
        files[at],
    ensures
        first_file(files) matches Some(i) && 0 <= i <= at && files[i],
    decreases files.len(),
{
    if at < files.len() - 1 {
        best_command_is_picked(files.drop_last(), at);
    } else {
        if first_file(files.drop_last()) is Some {
            picked_is_a_file(files.drop_last());
        }
    }
}

proof fn picked_is_a_file(files: Seq<bool>)
    requires
        first_file(files) is Some,
    ensures
        0 <= first_file(files)->0 < files.len(),
        files[first_file(files)->0],
    decreases files.len(),
{
    if first_file(files.drop_last()) is Some {
        picked_is_a_file(files.drop_last());
    }
}

// ---------------------------------------------------------------------------------------
// Calling the command
// ---------------------------------------------------------------------------------------

/// A word of a command line: a text, or the path of the agent's command.
pub enum Word {
    Text(String),
    CommandPath,
}

/// A word, its text as a sequence of characters.
pub enum WordView {
    Text(Seq<char>),
    CommandPath,
}

impl View for Word {
    type V = WordView;

    open spec fn view(&self) -> WordView {
        match self {
            Word::Text(text) => WordView::Text(text@),
            Word::CommandPath => WordView::CommandPath,
        }
    }
}

/// A program and its arguments.
pub struct CommandLine {
    pub program: Word,
    pub args: Vec<Word>,
}

/// A command line, its words as views.
pub struct CommandLineView {
    pub program: WordView,
    pub args: Seq<WordView>,
}

impl View for CommandLine {
    type V = CommandLineView;

    open spec fn view(&self) -> CommandLineView {
        CommandLineView { program: self.program@, args: views(self.args@) }
    }
}

/// How a command file is started. Windows runs scripts through their interpreter.
pub open spec fn launcher(windows: bool, extension: Option<Seq<char>>) -> CommandLineView {
    let extension = match extension {
        Some(extension) => ascii_lowered(extension),
        None => Seq::empty(),
    };
    if windows && (extension == "cmd"@ || extension == "bat"@) {
        CommandLineView {
            program: WordView::Text("cmd.exe"@),
            args: seq![WordView::Text("/C"@), WordView::CommandPath],
        }
    } else if windows && extension == "ps1"@ {
        CommandLineView {
            program: WordView::Text("powershell.exe"@),
            args: seq![
                WordView::Text("-NoProfile"@),
                WordView::Text("-ExecutionPolicy"@),
                WordView::Text("Bypass"@),
                WordView::Text("-File"@),
                WordView::CommandPath,
            ],
        }
    } else {
        CommandLineView { program: WordView::CommandPath, args: Seq::empty() }
    }
}

fn word(text: &str) -> (word: Word)
    ensures
        word@ == WordView::Text(text@),
{
    Word::Text(text.to_owned())
}

/// Builds the command line that starts a command file with the given extension.
pub fn build_cli_command(windows: bool, extension: Option<&str>) -> (command: CommandLine)
    ensures
        command@ == launcher(windows, opt_view(extension)),
{
    let extension = match extension {
        Some(extension) => extension,
        None => "",
    };
    proof {
        reveal_strlit("");
        assert(ascii_lowered(""@) =~= Seq::empty());
    }
    let mut args: Vec<Word> = Vec::new();
    assert(views(args@) =~= Seq::empty());
    if windows && (is_lowered_to(extension, "cmd") || is_lowered_to(extension, "bat")) {
        args.push(word("/C"));
        args.push(Word::CommandPath);
        assert(views(args@) =~= seq![WordView::Text("/C"@), WordView::CommandPath]);
        return CommandLine { program: word("cmd.exe"), args };
    }
    if windows && is_lowered_to(extension, "ps1") {
        args.push(word("-NoProfile"));
        args.push(word("-ExecutionPolicy"));
        args.push(word("Bypass"));
        args.push(word("-File"));
        args.push(Word::CommandPath);
        assert(views(args@) =~= seq![
            WordView::Text("-NoProfile"@),
            WordView::Text("-ExecutionPolicy"@),
            WordView::Text("Bypass"@),
            WordView::Text("-File"@),
            WordView::CommandPath,
        ]);
        return CommandLine { program: word("powershell.exe"), args };
    }
    CommandLine { program: Word::CommandPath, args }
}

/// Two words that hand a value to an option, unless the value is missing or blank.
pub open spec fn option_words(option: Seq<char>, value: Option<Seq<char>>) -> Seq<WordView> {
    match value {
        Some(value) if trimmed(value).len() > 0 => seq![
            WordView::Text(option),
            WordView::Text(trimmed(value)),
        ],
        _ => Seq::empty(),
    }
}

/// The arguments of an agent that prints its answer as text.
pub open spec fn claude_words(
    prompt: Seq<char>,
    permission_mode: Option<Seq<char>>,
    model: Option<Seq<char>>,
) -> Seq<WordView> {
    seq![
        WordView::Text("-p"@),
        WordView::Text(prompt),
        WordView::Text("--output-format"@),
        WordView::Text("text"@),
        WordView::Text("--permission-mode"@),
        WordView::Text(claude_mode(permission_mode)),
    ] + option_words("--model"@, model)
}

/// The arguments of DeepSeek TUI, which prints a JSON result and resumes sessions.
pub open spec fn deepseek_words(
    prompt: Seq<char>,
    permission_mode: Option<Seq<char>>,
    model: Option<Seq<char>>,
    session_id: Option<Seq<char>>,
) -> Seq<WordView> {
    let auto = if auto_mode(permission_mode) {
        seq![WordView::Text("--auto"@)]
    } else {
        Seq::empty()
    };
    option_words("--resume"@, session_id) + seq![WordView::Text("exec"@)] + auto + option_words(
        "--model"@,
        model,
    ) + seq![WordView::Text("--json"@), WordView::Text(prompt)]
}

/// The arguments of an agent.
pub open spec fn agent_words(
    agent: CliAgent,
    prompt: Seq<char>,
    permission_mode: Option<Seq<char>>,
    model: Option<Seq<char>>,
    session_id: Option<Seq<char>>,
) -> Seq<WordView> {
    match agent {
        CliAgent::ClaudeCode => claude_words(prompt, permission_mode, model),
        CliAgent::DeepSeekTui => deepseek_words(prompt, permission_mode, model, session_id),
    }
}

fn push_option(args: &mut Vec<Word>, option: &str, value: Option<&str>)
    ensures
        views(final(args)@) == views(old(args)@) + option_words(option@, opt_view(value)),
{
    if let Some(value) = value {
        let value_text = trim(value);
        if !value_text.as_str().is_empty() {
            args.push(word(option));
            args.push(Word::Text(value_text));
        }
    }
    assert(views(args@) =~= views(old(args)@) + option_words(option@, opt_view(value)));
}

fn push_word(args: &mut Vec<Word>, text: &str)
    ensures
        views(final(args)@) == views(old(args)@).push(WordView::Text(text@)),
{
    args.push(word(text));
    assert(views(args@) =~= views(old(args)@).push(WordView::Text(text@)));
}

/// Adds the agent's arguments to the command line that starts its command.
pub fn agent_command(
    agent: CliAgent,
    launcher: CommandLine,
    prompt: &str,
    permission_mode: Option<&str>,
    model: Option<&str>,
    session_id: Option<&str>,
) -> (command: CommandLine)
    ensures
        command@.program == launcher@.program,
        command@.args == launcher@.args + agent_words(
            agent,
            prompt@,
            opt_view(permission_mode),
            opt_view(model),
            opt_view(session_id),
        ),
{
    let mut command = launcher;
    let ghost words = agent_words(
        agent,
        prompt@,
        opt_view(permission_mode),
        opt_view(model),
        opt_view(session_id),
    );
    match agent {
        CliAgent::ClaudeCode => {
            push_word(&mut command.args, "-p");
            push_word(&mut command.args, prompt);
            push_word(&mut command.args, "--output-format");
            push_word(&mut command.args, "text");
            push_word(&mut command.args, "--permission-mode");
            push_word(&mut command.args, map_claude_code_permission_mode(permission_mode));
            push_option(&mut command.args, "--model", model);
        },
        CliAgent::DeepSeekTui => {
            push_option(&mut command.args, "--resume", session_id);
            push_word(&mut command.args, "exec");
            if is_auto_mode(permission_mode) {
                push_word(&mut command.args, "--auto");
            }
            push_option(&mut command.args, "--model", model);
            push_word(&mut command.args, "--json");
            push_word(&mut command.args, prompt);
        },
    }
    assert(command@.args =~= launcher@.args + words);
    command
}

// ---------------------------------------------------------------------------------------
// Outcomes
// ---------------------------------------------------------------------------------------

/// How the call of an agent's command came out.
pub enum CliOutcome {
    /// The command was not found; the search path.
    NotLocated { search_path: String },
    /// The working directory is none.
    BadDirectory { cwd: String },
    /// The command could not be started; the error.
    NotStarted { error: String },
    /// The command ran for too long.
    TimedOut,
    /// The command has run.
    Finished { success: bool, code: Option<i32>, stdout: Vec<u8>, stderr: Vec<u8> },
}

/// An outcome, its texts as sequences of characters.
pub enum CliOutcomeView {
    NotLocated { search_path: Seq<char> },
    BadDirectory { cwd: Seq<char> },
    NotStarted { error: Seq<char> },
    TimedOut,
    Finished { success: bool, code: Option<i32>, stdout: Seq<u8>, stderr: Seq<u8> },
}

impl View for CliOutcome {
    type V = CliOutcomeView;

    open spec fn view(&self) -> CliOutcomeView {
        match self {
            CliOutcome::NotLocated { search_path } => CliOutcomeView::NotLocated {
                search_path: search_path@,
            },
            CliOutcome::BadDirectory { cwd } => CliOutcomeView::BadDirectory { cwd: cwd@ },
            CliOutcome::NotStarted { error } => CliOutcomeView::NotStarted { error: error@ },
            CliOutcome::TimedOut => CliOutcomeView::TimedOut,
            CliOutcome::Finished { success, code, stdout, stderr } => CliOutcomeView::Finished {
                success: *success,
                code: *code,
                stdout: stdout@,
                stderr: stderr@,
            },
        }
    }
}

/// The text that a command has printed.
pub open spec fn printed(bytes: Seq<u8>) -> Seq<char> {
    trimmed(lossy_text(bytes))
}

/// Reads the text that a command has printed.
pub fn printed_text(bytes: &Vec<u8>) -> (text: String)
    ensures
        text@ == printed(bytes@),
        valid_utf8(bytes@) ==> text@ == trimmed(decode_utf8(bytes@)),
{
    let text = decode_lossy(bytes.as_slice());
    trim(text.as_str())
}

/// The name of an exit code.
pub open spec fn code_name(code: Option<i32>) -> Seq<char> {
    match code {
        Some(code) => signed_decimal(code as int),
        None => "unknown"@,
    }
}

/// What a command that has failed tells the user: its exit code and all that it has printed.
pub open spec fn failure_text(
    label: Seq<char>,
    code: Option<i32>,
    out: Seq<char>,
    err: Seq<char>,
) -> Seq<char> {
    let gap = if out.len() > 0 && err.len() > 0 {
        "\n\n"@
    } else {
        Seq::empty()
    };
    label + " failed with exit code "@ + code_name(code) + ".\n\n"@ + out + gap + err
}

/// What a command that printed `out` and succeeded tells the user.
pub open spec fn success_text(label: Seq<char>, out: Seq<char>) -> Seq<char> {
    if out.len() == 0 {
        label + " completed without text output."@
    } else {
        out
    }
}

/// What an outcome tells the user, where the agent has no transcript of its own.
pub open spec fn outcome_text(names: NamesView, outcome: CliOutcomeView) -> Seq<char> {
    match outcome {
        CliOutcomeView::NotLocated { search_path } => names.label
            + " failed: could not locate the `"@ + names.command + "` command.\n\nPATH: "@
            + search_path,
        CliOutcomeView::BadDirectory { cwd } => names.label
            + " failed: working directory does not exist or is not a directory.\n\n"@ + cwd,
        CliOutcomeView::NotStarted { error } => names.label + " failed: could not start the `"@
            + names.command + "` command.\n\n"@ + error,
        CliOutcomeView::TimedOut => names.label + " timed out after 10 minutes."@,
        CliOutcomeView::Finished { success, code, stdout, stderr } => if success {
            success_text(names.label, printed(stdout))
        } else {
            failure_text(names.label, code, printed(stdout), printed(stderr))
        },
    }
}

/// Tells the user how a command that succeeded came out.
pub fn describe_success(label: &str, out: &str) -> (text: String)
    ensures
        text@ == success_text(label@, out@),
{
    if out.is_empty() {
        suffixed(label, " completed without text output.")
    } else {
        out.to_owned()
    }
}

fn describe_failure(label: &str, code: Option<i32>, out: &str, err: &str) -> (text: String)
    ensures
        text@ == failure_text(label@, code, out@, err@),
{
    let mut text = suffixed(label, " failed with exit code ");
    match code {
        Some(code) => {
            text.append(i32_text(code).as_str());
        },
        None => {
            text.append("unknown");
        },
    }
    text.append(".\n\n");
    text.append(out);
    if !out.is_empty() && !err.is_empty() {
        text.append("\n\n");
    }
    text.append(err);
    assert(text@ =~= failure_text(label@, code, out@, err@));
    text
}

/// Tells the user how the call of an agent's command came out, where the agent has no
/// transcript of its own.
pub fn describe_outcome(names: &AgentNames, outcome: &CliOutcome) -> (text: String)
    ensures
        text@ == outcome_text(names@, outcome@),
{
    match outcome {
        CliOutcome::NotLocated { search_path } => {
            let mut text = suffixed(names.label.as_str(), " failed: could not locate the `");
            text.append(names.command.as_str());
            text.append("` command.\n\nPATH: ");
            text.append(search_path.as_str());
            text
        },
        CliOutcome::BadDirectory { cwd } => {
            let mut text = suffixed(
                names.label.as_str(),
                " failed: working directory does not exist or is not a directory.\n\n",
            );
            text.append(cwd.as_str());
            text
        },
        CliOutcome::NotStarted { error } => {
            let mut text = suffixed(names.label.as_str(), " failed: could not start the `");
            text.append(names.command.as_str());
            text.append("` command.\n\n");
            text.append(error.as_str());
            text
        },
        CliOutcome::TimedOut => suffixed(names.label.as_str(), " timed out after 10 minutes."),
        CliOutcome::Finished { success, code, stdout, stderr } => {
            let out = printed_text(stdout);
            if *success {
                describe_success(names.label.as_str(), out.as_str())
            } else {
                let err = printed_text(stderr);
                describe_failure(names.label.as_str(), *code, out.as_str(), err.as_str())
            }
        },
    }
}

/// Every outcome tells the user something.
pub proof fn every_outcome_says_something(names: NamesView, outcome: CliOutcomeView)
    ensures
        outcome_text(names, outcome).len() > 0,
{
    reveal_strlit("` command.\n\nPATH: ");
    reveal_strlit("` command.\n\n");
    reveal_strlit(" failed: working directory does not exist or is not a directory.\n\n");
    reveal_strlit(" timed out after 10 minutes.");
    reveal_strlit(" completed without text output.");
    reveal_strlit(".\n\n");
}

/// A session that is resumed is named first, and without one the agent starts a new session:
/// its arguments are the same as for a blank name.
pub proof fn resumed_session_is_named_first(
    prompt: Seq<char>,
    permission_mode: Option<Seq<char>>,
    model: Option<Seq<char>>,
    session_id: Seq<char>,
)
    ensures
        ({
            let words = deepseek_words(prompt, permission_mode, model, Some(session_id));
            let fresh = deepseek_words(prompt, permission_mode, model, None);
            if trimmed(session_id).len() > 0 {
                words == seq![
                    WordView::Text("--resume"@),
                    WordView::Text(trimmed(session_id)),
                ] + fresh
            } else {
                words == fresh
            }
        }),
{
    let words = deepseek_words(prompt, permission_mode, model, Some(session_id));
    let fresh = deepseek_words(prompt, permission_mode, model, None);
    if trimmed(session_id).len() > 0 {
        assert(words =~= seq![
            WordView::Text("--resume"@),
            WordView::Text(trimmed(session_id)),
        ] + fresh);
    }
}

/// Every agent gets the prompt as one word, whatever it holds.
pub proof fn prompt_is_one_word(
    agent: CliAgent,
    prompt: Seq<char>,
    permission_mode: Option<Seq<char>>,
    model: Option<Seq<char>>,
    session_id: Option<Seq<char>>,
)
    ensures
        agent_words(agent, prompt, permission_mode, model, session_id).contains(
            WordView::Text(prompt),
        ),
{
    let words = agent_words(agent, prompt, permission_mode, model, session_id);
    match agent {
        CliAgent::ClaudeCode => {
            assert(words[1] == WordView::Text(prompt));
        },
        CliAgent::DeepSeekTui => {
            assert(words[words.len() - 1] == WordView::Text(prompt));
        },
    }
}

/// The launcher of a command names the command itself exactly once.
pub proof fn launcher_names_the_command_once(windows: bool, extension: Option<Seq<char>>)
    ensures
        ({
            let line = launcher(windows, extension);
            &&& line.program == WordView::CommandPath ==> line.args.len() == 0
            &&& line.program != WordView::CommandPath ==> line.args.len() > 0 && line.args.last()
                == WordView::CommandPath && !line.args.drop_last().contains(WordView::CommandPath)
        }),
{
    let line = launcher(windows, extension);
    if line.program != WordView::CommandPath {
        let front = line.args.drop_last();
        assert forall|i: int| 0 <= i < front.len() implies front[i] != WordView::CommandPath by {}
    }
}

} // verus!
