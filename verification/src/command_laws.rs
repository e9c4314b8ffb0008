//! What holds of the calls of command-line agents: where a command is looked for, which words it
//! gets, what its outcome tells, and which reply of a saved session is reported.
use vstd::prelude::*;

use crate::cli::{
    agent_words, auto_mode, candidates, claude_mode, code_name, first_file, launcher,
    outcome_text, path_candidates, printed, CliAgent, CliOutcomeView, CommandLineView, NamesView,
    WordView,
};
use crate::deepseek::{
    last_assistant, latest_reply, session_place, success_report, text_parts, thinking_parts, ExecView,
    SavedBlockView, SavedMessageView, SavedSessionView,
};
use crate::location::LocationView;
use crate::text::{ascii_lowered, joined, signed_decimal, trimmed};

verus! {

// ---------------------------------------------------------------------------------------
// Permission modes
// ---------------------------------------------------------------------------------------

proof fn mode_words_differ()
    ensures
        "accept_edits"@.len() == 12,
        "acceptEdits"@.len() == 11 && "acceptEdits"@[0] == 'a',
        "full_access"@.len() == 11 && "full_access"@[0] == 'f',
        "bypassPermissions"@.len() == 17,
        "plan"@.len() == 4 && "plan"@[0] == 'p',
        "auto"@.len() == 4 && "auto"@[0] == 'a',
        "dont_ask"@.len() == 8,
        "dontAsk"@.len() == 7 && "dontAsk"@[1] == 'o',
        "default"@.len() == 7 && "default"@[1] == 'e',
{
    reveal_strlit("accept_edits");
    reveal_strlit("acceptEdits");
    reveal_strlit("full_access");
    reveal_strlit("bypassPermissions");
    reveal_strlit("plan");
    reveal_strlit("auto");
    reveal_strlit("dont_ask");
    reveal_strlit("dontAsk");
    reveal_strlit("default");
}

/// A mode is mapped to the option that means the same, under either of its two spellings, and
/// every other word to the default.
pub proof fn modes_keep_their_meaning(mode: Seq<char>)
    ensures
        claude_mode(None) == "default"@,
        claude_mode(Some(mode)) == "acceptEdits"@ <==> mode == "accept_edits"@ || mode
            == "acceptEdits"@,
        claude_mode(Some(mode)) == "bypassPermissions"@ <==> mode == "full_access"@ || mode
            == "bypassPermissions"@,
        claude_mode(Some(mode)) == "plan"@ <==> mode == "plan"@,
        claude_mode(Some(mode)) == "auto"@ <==> mode == "auto"@,
        claude_mode(Some(mode)) == "dontAsk"@ <==> mode == "dont_ask"@ || mode == "dontAsk"@,
        claude_mode(Some(mode)) == "default"@ <==> !(mode == "accept_edits"@ || mode
            == "acceptEdits"@ || mode == "full_access"@ || mode == "bypassPermissions"@ || mode
            == "plan"@ || mode == "auto"@ || mode == "dont_ask"@ || mode == "dontAsk"@),
{
    mode_words_differ();
}

/// DeepSeek TUI acts without asking in the modes that let the other agent edit, act freely or
/// choose for itself, and in no other.
pub proof fn both_agents_act_freely_in_the_same_modes(mode: Option<Seq<char>>)
    ensures
        auto_mode(mode) <==> claude_mode(mode) == "acceptEdits"@ || claude_mode(mode)
            == "bypassPermissions"@ || claude_mode(mode) == "auto"@,
{
    mode_words_differ();
    if let Some(word) = mode {
        modes_keep_their_meaning(word);
    }
}

// ---------------------------------------------------------------------------------------
// Finding the command
// ---------------------------------------------------------------------------------------

/// The ending of a command's file name, by its rank.
pub open spec fn ending(rank: int) -> Seq<char> {
    if rank == 0 {
        ".cmd"@
    } else if rank == 1 {
        ".exe"@
    } else if rank == 2 {
        Seq::empty()
    } else {
        ".ps1"@
    }
}

proof fn path_places<B>(command: Seq<char>, dirs: Seq<B>, at: int, rank: int)
    requires
        0 <= at < dirs.len(),
        0 <= rank < 4,
    ensures
        path_candidates(command, dirs).len() == 4 * dirs.len(),
        path_candidates(command, dirs)[4 * at + rank] == (LocationView::Below {
            base: dirs[at],
            steps: seq![command + ending(rank)],
        }),
    decreases dirs.len(),
{
    assert(command + Seq::<char>::empty() =~= command);
    if dirs.len() == 1 {
        assert(path_candidates(command, dirs.drop_last()).len() == 0);
    } else {
        path_places(
            command,
            dirs.drop_last(),
            if at < dirs.len() - 1 {
                at
            } else {
                0
            },
            rank,
        );
    }
}

proof fn path_places_count<B>(command: Seq<char>, dirs: Seq<B>)
    ensures
        path_candidates(command, dirs).len() == 4 * dirs.len(),
    decreases dirs.len(),
{
    if dirs.len() > 0 {
        path_places_count(command, dirs.drop_last());
    }
}

/// A command is looked for in each directory of the search path in turn, there under each of
/// its endings in turn, then below the home directory, and then where its installer puts it.
pub proof fn a_command_is_looked_for_in_turn<B>(
    agent: CliAgent,
    command: Seq<char>,
    dirs: Seq<B>,
    home: Option<B>,
    at: int,
    rank: int,
)
    requires
        0 <= rank < 4,
    ensures
        ({
            let places = candidates(agent, command, dirs, home);
            let n = 4 * dirs.len();
            let m: int = n + if home is Some {
                1int
            } else {
                0
            };
            &&& 0 <= at < dirs.len() ==> places[4 * at + rank] == (LocationView::Below {
                base: dirs[at],
                steps: seq![command + ending(rank)],
            })
            &&& home matches Some(home) ==> places[n as int] == (LocationView::Below {
                base: home,
                steps: seq!["AppData"@, "Roaming"@, "npm"@, command + ".cmd"@],
            })
            &&& places[m] == LocationView::<B>::Explicit(
                "C:\\nvm4w\\nodejs\\"@ + command + ".cmd"@,
            )
            &&& agent is DeepSeekTui ==> places.len() == m + 2 && places[m + 1] == LocationView::<
                B,
            >::Explicit("C:\\nvm4w\\nodejs\\"@ + command + ".ps1"@)
            &&& agent is ClaudeCode ==> places.len() == m + 1
        }),
{
    path_places_count(command, dirs);
    if 0 <= at < dirs.len() {
        path_places(command, dirs, at, rank);
    }
}

/// Where no place holds a file, no command is picked.
pub proof fn no_file_is_no_command(files: Seq<bool>)
    requires
        forall|i: int| 0 <= i < files.len() ==> !(#[trigger] files[i]),
    ensures
        first_file(files) is None,
    decreases files.len(),
{
    if files.len() > 0 {
        assert forall|i: int| 0 <= i < files.len() - 1 implies !(#[trigger] files.drop_last()[i]) by {
            assert(!files[i]);
        }
        assert(!files[files.len() - 1]);
        no_file_is_no_command(files.drop_last());
    }
}

// ---------------------------------------------------------------------------------------
// Calling the command
// ---------------------------------------------------------------------------------------

/// Windows runs batch files with its command interpreter and PowerShell scripts with
/// PowerShell, however their endings are written; anything else is run by itself.
pub proof fn scripts_run_in_their_interpreter(windows: bool, extension: Option<Seq<char>>)
    ensures
        ({
            let is_a = |kind: Seq<char>| extension is Some && ascii_lowered(extension->0) == kind;
            let line = launcher(windows, extension);
            if windows && (is_a("cmd"@) || is_a("bat"@)) {
                line == (CommandLineView {
                    program: WordView::Text("cmd.exe"@),
                    args: seq![WordView::Text("/C"@), WordView::CommandPath],
                })
            } else if windows && is_a("ps1"@) {
                line == (CommandLineView {
                    program: WordView::Text("powershell.exe"@),
                    args: seq![
                        WordView::Text("-NoProfile"@),
                        WordView::Text("-ExecutionPolicy"@),
                        WordView::Text("Bypass"@),
                        WordView::Text("-File"@),
                        WordView::CommandPath,
                    ],
                })
            } else {
                line == (CommandLineView { program: WordView::CommandPath, args: Seq::empty() })
            }
        }),
{
    reveal_strlit("cmd");
    reveal_strlit("bat");
    reveal_strlit("ps1");
    assert("cmd"@.len() == 3 && "bat"@.len() == 3 && "ps1"@.len() == 3);
}

/// Whether a text is there and holds more than white space.
pub open spec fn says_something(text: Option<Seq<char>>) -> bool {
    text is Some && trimmed(text->0).len() > 0
}

/// An agent that prints text gets the prompt, the format and the mode, and the model where one
/// is named; it resumes nothing.
pub proof fn a_text_agent_gets_its_words(
    prompt: Seq<char>,
    mode: Option<Seq<char>>,
    model: Option<Seq<char>>,
    session_id: Option<Seq<char>>,
)
    ensures
        ({
            let words = agent_words(CliAgent::ClaudeCode, prompt, mode, model, session_id);
            let always = seq![
                WordView::Text("-p"@),
                WordView::Text(prompt),
                WordView::Text("--output-format"@),
                WordView::Text("text"@),
                WordView::Text("--permission-mode"@),
                WordView::Text(claude_mode(mode)),
            ];
            if says_something(model) {
                words == always.push(WordView::Text("--model"@)).push(
                    WordView::Text(trimmed(model->0)),
                )
            } else {
                words == always
            }
        }),
{
    let words = agent_words(CliAgent::ClaudeCode, prompt, mode, model, session_id);
    let always = seq![
        WordView::Text("-p"@),
        WordView::Text(prompt),
        WordView::Text("--output-format"@),
        WordView::Text("text"@),
        WordView::Text("--permission-mode"@),
        WordView::Text(claude_mode(mode)),
    ];
    if says_something(model) {
        assert(words =~= always.push(WordView::Text("--model"@)).push(
            WordView::Text(trimmed(model->0)),
        ));
    } else {
        assert(words =~= always);
    }
}

/// The words of DeepSeek TUI stand in their order: the session that it resumes, where one is
/// named, then its command, that it need not ask, where the mode says so, the model, where one
/// is named, that the result be JSON, and the prompt at the end.
pub proof fn deepseek_gets_its_words(
    prompt: Seq<char>,
    mode: Option<Seq<char>>,
    model: Option<Seq<char>>,
    session_id: Option<Seq<char>>,
)
    ensures
        ({
            let words = agent_words(CliAgent::DeepSeekTui, prompt, mode, model, session_id);
            let a: int = if says_something(session_id) {
                2
            } else {
                0
            };
            let b: int = if auto_mode(mode) {
                a + 2
            } else {
                a + 1
            };
            let c: int = if says_something(model) {
                b + 2
            } else {
                b
            };
            &&& words.len() == c + 2
            &&& says_something(session_id) ==> words[0] == WordView::Text("--resume"@) && words[1]
                == WordView::Text(trimmed(session_id->0))
            &&& words[a] == WordView::Text("exec"@)
            &&& auto_mode(mode) ==> words[a + 1] == WordView::Text("--auto"@)
            &&& says_something(model) ==> words[b] == WordView::Text("--model"@) && words[b + 1]
                == WordView::Text(trimmed(model->0))
            &&& words[c] == WordView::Text("--json"@)
            &&& words[c + 1] == WordView::Text(prompt)
        }),
{
}

// ---------------------------------------------------------------------------------------
// Outcomes
// ---------------------------------------------------------------------------------------

/// Each outcome tells the user which agent it is about and what went wrong, with all that was
/// printed. Where both outputs say something they are paragraphs of their own.
pub proof fn an_outcome_tells_what_happened(
    names: NamesView,
    place: Seq<char>,
    code: Option<i32>,
    stdout: Seq<u8>,
    stderr: Seq<u8>,
)
    ensures
        outcome_text(names, CliOutcomeView::NotLocated { search_path: place }) == names.label
            + " failed: could not locate the `"@ + names.command + "` command.\n\nPATH: "@ + place,
        outcome_text(names, CliOutcomeView::BadDirectory { cwd: place }) == names.label
            + " failed: working directory does not exist or is not a directory.\n\n"@ + place,
        outcome_text(names, CliOutcomeView::NotStarted { error: place }) == names.label
            + " failed: could not start the `"@ + names.command + "` command.\n\n"@ + place,
        outcome_text(names, CliOutcomeView::TimedOut) == names.label
            + " timed out after 10 minutes."@,
        ({
            let out = printed(stdout);
            let err = printed(stderr);
            let head = names.label + " failed with exit code "@ + match code {
                Some(code) => signed_decimal(code as int),
                None => "unknown"@,
            } + ".\n\n"@;
            let succeeded = outcome_text(
                names,
                CliOutcomeView::Finished { success: true, code, stdout, stderr },
            );
            let failed = outcome_text(
                names,
                CliOutcomeView::Finished { success: false, code, stdout, stderr },
            );
            &&& succeeded == if out.len() > 0 {
                out
            } else {
                names.label + " completed without text output."@
            }
            &&& failed == if out.len() > 0 && err.len() > 0 {
                head + out + "\n\n"@ + err
            } else if out.len() > 0 {
                head + out
            } else {
                head + err
            }
        }),
{
    let out = printed(stdout);
    let err = printed(stderr);
    let head = names.label + " failed with exit code "@ + code_name(code) + ".\n\n"@;
    let failed = outcome_text(
        names,
        CliOutcomeView::Finished { success: false, code, stdout, stderr },
    );
    if out.len() > 0 && err.len() > 0 {
        assert(failed =~= head + out + "\n\n"@ + err);
    } else if out.len() > 0 {
        assert(failed =~= head + out);
    } else {
        assert(failed =~= head + err);
    }
}

// ---------------------------------------------------------------------------------------
// The reply of a saved session
// ---------------------------------------------------------------------------------------

proof fn last_is_found(messages: Seq<SavedMessageView>, at: int)
    requires
        0 <= at < messages.len(),
        messages[at].role == "assistant"@,
        forall|i: int| at < i < messages.len() ==> (#[trigger] messages[i]).role != "assistant"@,
    ensures
        last_assistant(messages) == Some(messages[at]),
    decreases messages.len(),
{
    if at < messages.len() - 1 {
        assert(messages[messages.len() - 1].role != "assistant"@);
        assert forall|i: int| at < i < messages.len() - 1 implies (
        #[trigger] messages.drop_last()[i]).role != "assistant"@ by {
            assert(messages[i].role != "assistant"@);
        }
        last_is_found(messages.drop_last(), at);
    }
}

proof fn nothing_is_found(messages: Seq<SavedMessageView>)
    requires
        forall|i: int| 0 <= i < messages.len() ==> (#[trigger] messages[i]).role != "assistant"@,
    ensures
        last_assistant(messages) is None,
    decreases messages.len(),
{
    if messages.len() > 0 {
        assert(messages[messages.len() - 1].role != "assistant"@);
        assert forall|i: int| 0 <= i < messages.len() - 1 implies (
        #[trigger] messages.drop_last()[i]).role != "assistant"@ by {
            assert(messages[i].role != "assistant"@);
        }
        nothing_is_found(messages.drop_last());
    }
}

/// The reasoning in the blocks of a message, in their order.
pub open spec fn thoughts_of(content: Seq<SavedBlockView>) -> Seq<Seq<char>> {
    content.filter(|block: SavedBlockView| block is Thinking).map_values(
        |block: SavedBlockView| block->thinking,
    )
}

/// The texts in the blocks of a message, in their order.
pub open spec fn texts_of(content: Seq<SavedBlockView>) -> Seq<Seq<char>> {
    content.filter(|block: SavedBlockView| block is Text).map_values(
        |block: SavedBlockView| block->text,
    )
}

proof fn parts_are_in_order(content: Seq<SavedBlockView>)
    ensures
        thinking_parts(content) == thoughts_of(content),
        text_parts(content) == texts_of(content),
    decreases content.len(),
{
    reveal(Seq::filter);
    if content.len() > 0 {
        parts_are_in_order(content.drop_last());
    }
    assert(thinking_parts(content) =~= thoughts_of(content));
    assert(text_parts(content) =~= texts_of(content));
}

/// The reply of a session is its last message by the assistant: the reasoning in it and the
/// text in it, each in paragraphs, and each missing where the message has none of it.
pub proof fn the_last_message_is_the_reply(messages: Seq<SavedMessageView>, at: int)
    requires
        0 <= at < messages.len(),
        messages[at].role == "assistant"@,
        forall|i: int| at < i < messages.len() ==> (#[trigger] messages[i]).role != "assistant"@,
    ensures
        ({
            let thoughts = thoughts_of(messages[at].content);
            let texts = texts_of(messages[at].content);
            latest_reply(messages) == Some(
                (
                    if thoughts.len() > 0 {
                        Some(joined(thoughts, "\n\n"@))
                    } else {
                        None
                    },
                    if texts.len() > 0 {
                        Some(joined(texts, "\n\n"@))
                    } else {
                        None
                    },
                ),
            )
        }),
{
    last_is_found(messages, at);
    parts_are_in_order(messages[at].content);
}

/// A session in which the assistant has said nothing has no reply.
pub proof fn no_message_is_no_reply(messages: Seq<SavedMessageView>)
    requires
        forall|i: int| 0 <= i < messages.len() ==> (#[trigger] messages[i]).role != "assistant"@,
    ensures
        latest_reply(messages) is None,
{
    nothing_is_found(messages);
}

/// The report of a run goes by the saved session first, then by the printed result, and then by
/// what was asked for or printed.
pub proof fn a_report_goes_by_the_saved_session_first(
    label: Seq<char>,
    out: Seq<char>,
    parsed: Option<ExecView>,
    model: Option<Seq<char>>,
    session_id: Option<Seq<char>>,
    saved: Option<SavedSessionView>,
)
    ensures
        ({
            let report = success_report(label, out, parsed, model, session_id, saved);
            let (thinking, text) = match saved {
                Some(session) => match latest_reply(session.messages) {
                    Some(reply) => reply,
                    None => (None, None),
                },
                None => (None, None),
            };
            let said = if text is Some {
                text
            } else if parsed is Some {
                parsed->0.output
            } else {
                None
            };
            &&& report.text == if says_something(said) {
                said->0
            } else if out.len() > 0 {
                out
            } else {
                label + " completed without text output."@
            }
            &&& report.thinking == thinking
            &&& report.model == if saved is Some && saved->0.model is Some {
                saved->0.model
            } else if parsed is Some && parsed->0.model is Some {
                parsed->0.model
            } else {
                model
            }
            &&& report.session_id == if saved is Some {
                Some(saved->0.id)
            } else {
                session_id
            }
        }),
{
}

/// A saved session lies among the sessions below the home directory, under its id.
pub proof fn a_session_lies_under_its_id<B>(home: B, session_id: Seq<char>)
    ensures
        session_place(home, session_id) == (LocationView::Below {
            base: home,
            steps: seq![".deepseek"@, "sessions"@, session_id + ".json"@],
        }),
{
}

} // verus!
