//! What holds of every turn of a command-line agent, whatever the answers are.
use vstd::prelude::*;

use crate::cli::{
    agent_words, launcher, outcome_text, printed, CliAgent, CliOutcomeView, CommandLineView,
    NamesView,
};
use crate::cli_turn::{
    cli_start, cli_step, CliActionView, CliInputView, CliPhaseView, CliTurnView,
};
use crate::deepseek::{
    all_read, is_session, latest_session_is_newest, modified_at, newest, success_report,
    ContextView, ExecView, SavedSessionView, SessionEntry,
};
use crate::payload::EventView;
use crate::text::{opt_view, text_or_empty};
use crate::transcript::content_with_thinking;

verus! {

/// The state and all actions of a turn after some answers.
pub open spec fn cli_run(start: CliTurnView, inputs: Seq<CliInputView>) -> (
    CliTurnView,
    Seq<CliActionView>,
)
    decreases inputs.len(),
{
    if inputs.len() == 0 {
        (start, Seq::empty())
    } else {
        let (s, actions) = cli_run(start, inputs.drop_last());
        let (next, more) = cli_step(s, inputs.last());
        (next, actions + more)
    }
}

/// Whether an action closes a turn for the user.
pub open spec fn is_done(action: CliActionView) -> bool {
    action matches CliActionView::Emit(event) && event is Done
}

/// Whether an action releases the session.
pub open spec fn is_released(action: CliActionView) -> bool {
    action is SaveContext || action is SetIdle
}

/// How many steps a turn has made.
pub open spec fn cli_rank(phase: CliPhaseView) -> int {
    match phase {
        CliPhaseView::SavingMessage => 0,
        CliPhaseView::Locating => 1,
        CliPhaseView::CheckingDirectory { .. } => 2,
        CliPhaseView::Running => 3,
        CliPhaseView::Parsing { .. } => 4,
        CliPhaseView::Listing { .. } => 5,
        CliPhaseView::LoadingSession { .. } => 6,
        CliPhaseView::Serializing { .. } => 7,
        CliPhaseView::Ended => 8,
    }
}

/// An answer carries a turn forward or changes nothing, and a turn that is over stays as it
/// is.
pub proof fn a_turn_only_goes_forward(s: CliTurnView, input: CliInputView)
    ensures
        ({
            let (next, actions) = cli_step(s, input);
            &&& cli_rank(next.phase) > cli_rank(s.phase) || (next == s && actions.len() == 0)
            &&& s.phase is Ended ==> next == s && actions.len() == 0
        }),
{
}

/// What holds of the actions of a turn at each point.
spec fn turn_ok(s: CliTurnView, actions: Seq<CliActionView>) -> bool {
    let n = actions.len() as int;
    if s.phase is Ended {
        &&& n >= 2
        &&& is_done(actions[n - 2])
        &&& is_released(actions[n - 1])
        &&& forall|k: int| 0 <= k < n - 2 ==> !is_done(#[trigger] actions[k])
        &&& forall|k: int| 0 <= k < n - 2 ==> !is_released(#[trigger] actions[k])
    } else {
        &&& forall|k: int| 0 <= k < n ==> !is_done(#[trigger] actions[k])
        &&& forall|k: int| 0 <= k < n ==> !is_released(#[trigger] actions[k])
    }
}

proof fn step_keeps_turn(s: CliTurnView, actions: Seq<CliActionView>, input: CliInputView)
    requires
        turn_ok(s, actions),
    ensures
        turn_ok(cli_step(s, input).0, actions + cli_step(s, input).1),
{
    let (next, more) = cli_step(s, input);
    let all = actions + more;
    if s.phase is Ended {
        assert(all =~= actions);
    } else {
        assert(turn_ok(next, more));
        assert forall|k: int| 0 <= k < all.len() implies #[trigger] all[k] == if k
            < actions.len() {
            actions[k]
        } else {
            more[k - actions.len()]
        } by {}
    }
}

/// A turn that is over has told the user its result exactly once and then released its
/// session, as its last two actions. A turn that is not over has done neither.
pub proof fn a_turn_ends_with_its_report(start: CliTurnView, inputs: Seq<CliInputView>, k: int)
    requires
        !(start.phase is Ended),
    ensures
        ({
            let (s, actions) = cli_run(start, inputs);
            let n = actions.len();
            &&& s.phase is Ended ==> n >= 2 && is_done(actions[n - 2]) && is_released(
                actions[n - 1],
            )
            &&& 0 <= k < n && is_done(actions[k]) ==> s.phase is Ended && k == n - 2
            &&& 0 <= k < n && is_released(actions[k]) ==> s.phase is Ended && k == n - 1
        }),
{
    run_keeps_turn(start, inputs);
}

proof fn run_keeps_turn(start: CliTurnView, inputs: Seq<CliInputView>)
    requires
        !(start.phase is Ended),
    ensures
        turn_ok(cli_run(start, inputs).0, cli_run(start, inputs).1),
    decreases inputs.len(),
{
    if inputs.len() > 0 {
        run_keeps_turn(start, inputs.drop_last());
        let (s, actions) = cli_run(start, inputs.drop_last());
        step_keeps_turn(s, actions, inputs.last());
    }
}

/// What the user is told is what is stored: the closing event and the stored message hold the
/// same reply.
pub proof fn reported_reply_is_stored(s: CliTurnView, input: CliInputView)
    requires
        !(s.phase is Ended),
        s.message_id is Some,
    ensures
        ({
            let (next, actions) = cli_step(s, input);
            next.phase is Ended ==> actions.len() == 3 && match actions[1] {
                CliActionView::Emit(
                    EventView::Done { assistant_message_id, text, thinking, .. },
                ) => {
                    &&& assistant_message_id == s.message_id->0
                    &&& match s.agent {
                        CliAgent::ClaudeCode => actions[0] == (CliActionView::UpdateMessage {
                            id: assistant_message_id,
                            content: text,
                        }),
                        CliAgent::DeepSeekTui => actions[0] == (
                        CliActionView::UpdateMessageAndThinking {
                            id: assistant_message_id,
                            content: content_with_thinking(text, thinking),
                            thinking,
                        }),
                    }
                },
                _ => false,
            }
        }),
{
    let (next, actions) = cli_step(s, input);
    if next.phase is Ended {
        assert(text_or_empty(s.message_id) == s.message_id->0);
    }
}

/// A command runs in a working directory only after that directory was found to be one, and
/// without one only where the turn has none.
pub proof fn command_runs_in_a_checked_directory(s: CliTurnView, input: CliInputView, k: int)
    requires
        0 <= k < cli_step(s, input).1.len(),
        cli_step(s, input).1[k] is Run,
    ensures
        match cli_step(s, input).1[k] {
            CliActionView::Run { cwd: Some(dir), .. } => {
                &&& input == CliInputView::DirectoryChecked(true)
                &&& s.phase matches CliPhaseView::CheckingDirectory { cwd, .. } && cwd == dir
            },
            CliActionView::Run { cwd: None, .. } => s.cwd is None,
            _ => true,
        },
{
}

/// A failed run of DeepSeek TUI keeps the session that the turn resumed and stores no new
/// context.
pub proof fn failed_run_keeps_the_session(s: CliTurnView, outcome: CliOutcomeView)
    requires
        s.phase is Running,
        s.agent == CliAgent::DeepSeekTui,
        !(outcome matches CliOutcomeView::Finished { success: true, .. }),
    ensures
        ({
            let (next, actions) = cli_step(s, CliInputView::Ran(outcome));
            &&& next.phase is Ended
            &&& actions.last() == (CliActionView::SetIdle { session_id: s.session_id })
            &&& match actions[actions.len() - 2] {
                CliActionView::Emit(EventView::Done { session_id, .. }) => session_id == s.resumed,
                _ => false,
            }
        }),
{
}

/// Whether an entry of the directory is a saved session, and when it was last modified: the
/// epoch where that is not known.
pub open spec fn session_time(entry: Option<SessionEntry>) -> Option<int> {
    match entry {
        Some(entry) => if opt_view(entry.extension) == Some("json"@) {
            match entry.modified {
                Some(time) => Some(time as int),
                None => Some(0),
            }
        } else {
            None
        },
        None => None,
    }
}

/// Whether an entry is the saved session that was modified last: no other one is newer, and
/// none in front of it is as new.
pub open spec fn is_newest_session(entries: Seq<Option<SessionEntry>>, at: int) -> bool {
    &&& 0 <= at < entries.len()
    &&& session_time(entries[at]) matches Some(time) && forall|i: int|
        0 <= i < entries.len() ==> match session_time(#[trigger] entries[i]) {
            Some(other) => other < time || (other == time && i >= at),
            None => true,
        }
}

/// A fresh turn goes on with the session that was modified last, which is the one that its
/// command has just written: that session is read, under the name of its file. Where a file
/// could not be read, or none is a saved session, or its name is no text, no session is read
/// and the turn ends with what was printed.
pub proof fn the_newest_session_is_read(
    s: CliTurnView,
    out: Seq<char>,
    parsed: Option<ExecView>,
    entries: Seq<Option<SessionEntry>>,
    at: int,
)
    requires
        s.phase == (CliPhaseView::Listing { out, parsed }),
    ensures
        ({
            let (next, actions) = cli_step(s, CliInputView::SessionsListed(Some(entries)));
            let readable = forall|i: int| 0 <= i < entries.len() ==> (#[trigger] entries[i]) is Some;
            &&& readable && is_newest_session(entries, at) ==> match opt_view(
                entries[at]->0.stem,
            ) {
                Some(name) => actions == seq![CliActionView::LoadSession { session_id: name }],
                None => next.phase is Ended,
            }
            &&& actions.len() == 1 && (actions[0] matches CliActionView::LoadSession { session_id })
                ==> readable && exists|i: int|
                #[trigger] is_newest_session(entries, i) && opt_view(entries[i]->0.stem) == Some(
                    actions[0]->LoadSession_session_id,
                )
            &&& !readable || (forall|i: int|
                0 <= i < entries.len() ==> session_time(#[trigger] entries[i]) is None)
                ==> next.phase is Ended
        }),
        cli_step(s, CliInputView::SessionsListed(None)).0.phase is Ended,
{
    latest_session_is_newest(entries);
    assert forall|i: int| 0 <= i < entries.len() && (#[trigger] entries[i]) is Some implies (
    session_time(entries[i]) is Some <==> is_session(entries[i]->0@)) && (is_session(
        entries[i]->0@,
    ) ==> session_time(entries[i]) == Some(modified_at(entries[i]->0@))) by {}
    if all_read(entries) {
        if let Some(best) = newest(entries) {
            assert(is_newest_session(entries, best));
            if is_newest_session(entries, at) {
                assert(entries[at] is Some && entries[best] is Some);
                assert(at == best);
            }
        }
    }
}

/// A turn that resumes a session goes on with that one and looks for no other.
pub proof fn a_resumed_session_is_read(
    s: CliTurnView,
    out: Seq<char>,
    parsed: Option<ExecView>,
    session_id: Seq<char>,
)
    requires
        s.phase == (CliPhaseView::Parsing { out }),
        s.resumed == Some(session_id),
    ensures
        cli_step(s, CliInputView::OutputParsed(parsed)).1 == seq![
            CliActionView::LoadSession { session_id },
        ],
{
}

/// A turn begins with an empty message that answers the user's, one moment after it. It knows
/// what it was told, and only DeepSeek TUI resumes a session.
pub proof fn a_turn_begins_with_an_empty_message(
    agent: CliAgent,
    names: NamesView,
    conversation_id: Seq<char>,
    session_id: Seq<char>,
    user_message_id: Seq<char>,
    user_created_at: i64,
    prompt: Seq<char>,
    permission_mode: Option<Seq<char>>,
    model: Option<Seq<char>>,
    cwd: Option<Seq<char>>,
    resumed: Option<Seq<char>>,
)
    requires
        user_created_at < i64::MAX,
    ensures
        ({
            let (s, action) = cli_start(
                agent,
                names,
                conversation_id,
                session_id,
                user_message_id,
                user_created_at,
                prompt,
                permission_mode,
                model,
                cwd,
                resumed,
            );
            &&& s.phase is SavingMessage
            &&& s.agent == agent && s.names == names
            &&& s.conversation_id == conversation_id && s.session_id == session_id
            &&& s.prompt == prompt && s.permission_mode == permission_mode && s.model == model
            &&& s.cwd == cwd && s.message_id is None
            &&& agent is DeepSeekTui ==> s.resumed == resumed
            &&& agent is ClaudeCode ==> s.resumed is None
            &&& action matches CliActionView::CreateMessage { parent_id, created_at, content } && {
                &&& parent_id == user_message_id
                &&& created_at == user_created_at + 1
                &&& content.len() == 0
            }
        }),
{
}

/// A stored message is made known and counted before the command is looked for; one that could
/// not be stored is passed over.
pub proof fn a_stored_message_is_made_known(s: CliTurnView, id: Seq<char>)
    requires
        s.phase is SavingMessage,
    ensures
        cli_step(s, CliInputView::MessageSaved(Some(id))) == (
            CliTurnView { message_id: Some(id), phase: CliPhaseView::Locating, ..s },
            seq![
                CliActionView::Emit(
                    EventView::MessageId {
                        conversation_id: s.conversation_id,
                        assistant_message_id: id,
                    },
                ),
                CliActionView::CountMessage,
                CliActionView::Locate,
            ],
        ),
        cli_step(s, CliInputView::MessageSaved(None)) == (
            CliTurnView { phase: CliPhaseView::Locating, ..s },
            seq![CliActionView::Locate],
        ),
{
}

/// Whether an action runs the command of a turn for at most ten minutes: with the words that
/// start a file of its kind, followed by those for the agent.
pub open spec fn runs_command(
    action: CliActionView,
    s: CliTurnView,
    windows: bool,
    extension: Option<Seq<char>>,
) -> bool {
    action matches CliActionView::Run { command, cwd, limit_secs } && {
        let start = launcher(windows, extension);
        &&& command.program == start.program
        &&& command.args == start.args + agent_words(
            s.agent,
            s.prompt,
            s.permission_mode,
            s.model,
            s.resumed,
        )
        &&& cwd == s.cwd
        &&& limit_secs == 600
    }
}

/// A command that was found is run with the words of the turn in the working directory of the
/// turn, once that is known to be one.
pub proof fn a_found_command_is_run(
    s: CliTurnView,
    windows: bool,
    extension: Option<Seq<char>>,
)
    requires
        s.phase is Locating,
    ensures
        ({
            let (next, actions) = cli_step(s, CliInputView::Located { windows, extension });
            let (running, later) = cli_step(next, CliInputView::DirectoryChecked(true));
            &&& actions.len() == 1
            &&& s.cwd is None ==> next.phase is Running && runs_command(
                actions[0],
                s,
                windows,
                extension,
            )
            &&& s.cwd matches Some(cwd) ==> {
                &&& actions[0] == (CliActionView::CheckDirectory { cwd })
                &&& running.phase is Running
                &&& later.len() == 1 && runs_command(later[0], s, windows, extension)
            }
        }),
{
}

/// Whether a turn ends with a reply: the reply is stored where there is a message, the closing
/// event tells it, and the session is released last.
pub open spec fn is_told(
    s: CliTurnView,
    next: CliTurnView,
    actions: Seq<CliActionView>,
    text: Seq<char>,
    thinking: Option<Seq<char>>,
    model: Option<Seq<char>>,
    session_id: Option<Seq<char>>,
    release: CliActionView,
) -> bool {
    let n: int = if s.message_id is Some {
        1
    } else {
        0
    };
    &&& next.phase is Ended
    &&& actions.len() == n + 2
    &&& actions[n] == CliActionView::Emit(
        EventView::Done {
            conversation_id: s.conversation_id,
            assistant_message_id: text_or_empty(s.message_id),
            text,
            thinking,
            model,
            session_id,
            usage: None,
            num_turns: Some(1),
            cost_usd: None,
        },
    )
    &&& actions[n + 1] == release
}

/// A command that was not found, has no directory to run in or did not succeed is reported with
/// what happened. The report names the session that the turn resumed and the model that was
/// asked for, but DeepSeek TUI names none for want of a directory. No context is stored.
pub proof fn a_failure_is_reported(
    s: CliTurnView,
    search_path: Seq<char>,
    command: CommandLineView,
    cwd: Seq<char>,
    outcome: CliOutcomeView,
)
    ensures
        s.phase is Locating ==> ({
            let (next, actions) = cli_step(s, CliInputView::NotLocated { search_path });
            is_told(
                s,
                next,
                actions,
                outcome_text(s.names, CliOutcomeView::NotLocated { search_path }),
                None,
                s.model,
                s.resumed,
                CliActionView::SetIdle { session_id: s.session_id },
            )
        }),
        s.phase == (CliPhaseView::CheckingDirectory { command, cwd }) ==> ({
            let (next, actions) = cli_step(s, CliInputView::DirectoryChecked(false));
            is_told(
                s,
                next,
                actions,
                outcome_text(s.names, CliOutcomeView::BadDirectory { cwd }),
                None,
                if s.agent is DeepSeekTui {
                    None
                } else {
                    s.model
                },
                s.resumed,
                CliActionView::SetIdle { session_id: s.session_id },
            )
        }),
        s.phase is Running && !(outcome is BadDirectory) && (s.agent is ClaudeCode || !(
        outcome matches CliOutcomeView::Finished { success: true, .. })) ==> ({
            let (next, actions) = cli_step(s, CliInputView::Ran(outcome));
            is_told(
                s,
                next,
                actions,
                outcome_text(s.names, outcome),
                None,
                s.model,
                s.resumed,
                CliActionView::SetIdle { session_id: s.session_id },
            )
        }),
{
}

/// What DeepSeek TUI printed on success is read as its result, and then its session is looked
/// for, unless the turn resumes one.
pub proof fn a_printed_result_is_read(
    s: CliTurnView,
    code: Option<i32>,
    stdout: Seq<u8>,
    stderr: Seq<u8>,
    parsed: Option<ExecView>,
)
    requires
        s.phase is Running,
        s.agent is DeepSeekTui,
    ensures
        ({
            let (next, actions) = cli_step(
                s,
                CliInputView::Ran(
                    CliOutcomeView::Finished { success: true, code, stdout, stderr },
                ),
            );
            let (listing, later) = cli_step(next, CliInputView::OutputParsed(parsed));
            &&& actions == seq![CliActionView::ParseOutput { text: printed(stdout) }]
            &&& s.resumed is None ==> later == seq![CliActionView::ListSessions] && listing.phase
                == (CliPhaseView::Listing { out: printed(stdout), parsed })
            &&& s.resumed matches Some(session_id) ==> later == seq![
                CliActionView::LoadSession { session_id },
            ] && listing.phase == (CliPhaseView::LoadingSession {
                out: printed(stdout),
                parsed,
                session_id,
            })
        }),
{
}

/// A run with a session is reported by that session, and the session and the model of the
/// report are stored for the next turn, where they can be written as text.
pub proof fn a_session_is_reported_and_stored(
    s: CliTurnView,
    out: Seq<char>,
    parsed: Option<ExecView>,
    session_id: Seq<char>,
    saved: Option<SavedSessionView>,
    json: Option<Seq<char>>,
)
    requires
        s.phase == (CliPhaseView::LoadingSession { out, parsed, session_id }),
    ensures
        ({
            let report = success_report(
                s.names.label,
                out,
                parsed,
                s.model,
                Some(session_id),
                saved,
            );
            let (next, actions) = cli_step(s, CliInputView::SessionLoaded(saved));
            let (ended, later) = cli_step(next, CliInputView::ContextSerialized(json));
            &&& actions == seq![
                CliActionView::SerializeContext(
                    ContextView {
                        deepseek_session_id: Some(
                            if saved is Some {
                                saved->0.id
                            } else {
                                session_id
                            },
                        ),
                        deepseek_model: report.model,
                    },
                ),
            ]
            &&& is_told(
                s,
                ended,
                later,
                report.text,
                report.thinking,
                report.model,
                report.session_id,
                match json {
                    Some(context) => CliActionView::SaveContext {
                        session_id: s.session_id,
                        context,
                    },
                    None => CliActionView::SetIdle { session_id: s.session_id },
                },
            )
        }),
{
}

/// A run without any session is reported by what it printed, and nothing is stored for the next
/// turn.
pub proof fn a_run_without_a_session_is_reported(
    s: CliTurnView,
    out: Seq<char>,
    parsed: Option<ExecView>,
)
    requires
        s.phase == (CliPhaseView::Listing { out, parsed }),
    ensures
        ({
            let report = success_report(s.names.label, out, parsed, s.model, None, None);
            let (next, actions) = cli_step(s, CliInputView::SessionsListed(None));
            is_told(
                s,
                next,
                actions,
                report.text,
                None,
                report.model,
                None,
                CliActionView::SetIdle { session_id: s.session_id },
            )
        }),
{
}

/// Whether an answer is what a turn waits for.
pub open spec fn is_turn_answer(phase: CliPhaseView, input: CliInputView) -> bool {
    match phase {
        CliPhaseView::SavingMessage => input is MessageSaved,
        CliPhaseView::Locating => input is Located || input is NotLocated,
        CliPhaseView::CheckingDirectory { .. } => input is DirectoryChecked,
        CliPhaseView::Running => input is Ran,
        CliPhaseView::Parsing { .. } => input is OutputParsed,
        CliPhaseView::Listing { .. } => input is SessionsListed,
        CliPhaseView::LoadingSession { .. } => input is SessionLoaded,
        CliPhaseView::Serializing { .. } => input is ContextSerialized,
        CliPhaseView::Ended => false,
    }
}

/// A turn keeps to what it was told, and an answer that it does not wait for changes nothing.
pub proof fn a_turn_keeps_to_its_task(s: CliTurnView, input: CliInputView)
    ensures
        !is_turn_answer(s.phase, input) ==> cli_step(s, input) == (
            s,
            Seq::<CliActionView>::empty(),
        ),
        cli_step(s, input).0 == (CliTurnView {
            phase: cli_step(s, input).0.phase,
            message_id: cli_step(s, input).0.message_id,
            ..s
        }),
        s.message_id is Some && !(s.phase is SavingMessage) ==> cli_step(s, input).0.message_id
            == s.message_id,
{
}

} // verus!
