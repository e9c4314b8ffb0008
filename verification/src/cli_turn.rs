//! One turn of a command-line agent, from the empty assistant message to the stored reply.
//!
//! The answers to the actions come in as [`CliInput`]; each gives a list of [`CliAction`] to
//! perform in order. An action that has an answer is always the last of its list, and its
//! answer is the next input.
use vstd::prelude::*;
use vstd::string::*;

use crate::cli::{
    agent_command, agent_words, build_cli_command, describe_outcome, launcher, outcome_text,
    printed, printed_text, AgentNames, CliAgent, CliOutcome, CliOutcomeView, CommandLine,
    CommandLineView, NamesView,
};
use crate::deepseek::{
    latest_deepseek_session_file, latest_session, report_success, success_report, CliReport,
    ContextView, DeepSeekExecJson, DeepSeekSavedSession, DeepSeekSessionContext, ExecView,
    ReportView, SavedSessionView, SessionEntry,
};
use crate::payload::{AgentDonePayload, AgentMessageIdPayload, EventView, FrontendEvent};
use crate::text::{copy_or_empty, copy_text, opt_view, text_or_empty, views};
use crate::transcript::{build_agent_content_with_thinking, content_with_thinking};

verus! {

/// The greatest number of seconds that a command may run: ten minutes.
pub const RUN_SECONDS: u64 = 600;

/// The answer to an action.
pub enum CliInput {
    /// The answer to `CreateMessage`: the id of the new message.
    MessageSaved(Option<String>),
    /// The answer to `Locate`: the command was found, its file has this extension, and the
    /// system is Windows or not.
    Located { windows: bool, extension: Option<String> },
    /// The answer to `Locate`: the command was not found on this search path.
    NotLocated { search_path: String },
    /// The answer to `CheckDirectory`: whether it is a directory.
    DirectoryChecked(bool),
    /// The answer to `Run`.
    Ran(CliOutcome),
    /// The answer to `ParseOutput`: the result, where the text holds one.
    OutputParsed(Option<DeepSeekExecJson>),
    /// The answer to `ListSessions`: the files, where the directory could be read.
    SessionsListed(Option<Vec<Option<SessionEntry>>>),
    /// The answer to `LoadSession`: the session, where it could be read.
    SessionLoaded(Option<DeepSeekSavedSession>),
    /// The answer to `SerializeContext`: the text to store, where there is one.
    ContextSerialized(Option<String>),
}

/// An answer, its texts as sequences of characters.
pub enum CliInputView {
    MessageSaved(Option<Seq<char>>),
    Located { windows: bool, extension: Option<Seq<char>> },
    NotLocated { search_path: Seq<char> },
    DirectoryChecked(bool),
    Ran(CliOutcomeView),
    OutputParsed(Option<ExecView>),
    SessionsListed(Option<Seq<Option<SessionEntry>>>),
    SessionLoaded(Option<SavedSessionView>),
    ContextSerialized(Option<Seq<char>>),
}

impl View for CliInput {
    type V = CliInputView;

    open spec fn view(&self) -> CliInputView {
        match self {
            CliInput::MessageSaved(id) => CliInputView::MessageSaved(opt_view(*id)),
            CliInput::Located { windows, extension } => CliInputView::Located {
                windows: *windows,
                extension: opt_view(*extension),
            },
            CliInput::NotLocated { search_path } => CliInputView::NotLocated {
                search_path: search_path@,
            },
            CliInput::DirectoryChecked(found) => CliInputView::DirectoryChecked(*found),
            CliInput::Ran(outcome) => CliInputView::Ran(outcome@),
            CliInput::OutputParsed(parsed) => CliInputView::OutputParsed(opt_view(*parsed)),
            CliInput::SessionsListed(entries) => CliInputView::SessionsListed(opt_view(*entries)),
            CliInput::SessionLoaded(session) => CliInputView::SessionLoaded(opt_view(*session)),
            CliInput::ContextSerialized(json) => CliInputView::ContextSerialized(opt_view(*json)),
        }
    }
}

/// Something to do for a turn.
#[allow(inconsistent_fields)]
pub enum CliAction {
    /// Store a new assistant message under the user's message; answered by `MessageSaved`.
    CreateMessage { parent_id: String, created_at: i64, content: String },
    /// Send an event to the user interface.
    Emit(FrontendEvent),
    /// Count one more message of the conversation.
    CountMessage,
    /// Look for the agent's command; answered by `Located` or `NotLocated`.
    Locate,
    /// See whether a path is a directory; answered by `DirectoryChecked`.
    CheckDirectory { cwd: String },
    /// Run a command, for a number of seconds at most; answered by `Ran`.
    Run { command: CommandLine, cwd: Option<String>, limit_secs: u64 },
    /// Read the result that the command printed; answered by `OutputParsed`.
    ParseOutput { text: String },
    /// List the saved sessions; answered by `SessionsListed`.
    ListSessions,
    /// Read a saved session; answered by `SessionLoaded`.
    LoadSession { session_id: String },
    /// Write a context as text; answered by `ContextSerialized`.
    SerializeContext(DeepSeekSessionContext),
    /// Store the content of a message.
    UpdateMessage { id: String, content: String },
    /// Store the content and the thinking of a message.
    UpdateMessageAndThinking { id: String, content: String, thinking: Option<String> },
    /// Store the agent's context in the session, with no usage, and mark it as idle.
    SaveContext { session_id: String, context: String },
    /// Mark the session as idle.
    SetIdle { session_id: String },
}

/// An action, its texts as sequences of characters.
#[allow(inconsistent_fields)]
pub enum CliActionView {
    CreateMessage { parent_id: Seq<char>, created_at: i64, content: Seq<char> },
    Emit(EventView),
    CountMessage,
    Locate,
    CheckDirectory { cwd: Seq<char> },
    Run { command: CommandLineView, cwd: Option<Seq<char>>, limit_secs: u64 },
    ParseOutput { text: Seq<char> },
    ListSessions,
    LoadSession { session_id: Seq<char> },
    SerializeContext(ContextView),
    UpdateMessage { id: Seq<char>, content: Seq<char> },
    UpdateMessageAndThinking { id: Seq<char>, content: Seq<char>, thinking: Option<Seq<char>> },
    SaveContext { session_id: Seq<char>, context: Seq<char> },
    SetIdle { session_id: Seq<char> },
}

impl View for CliAction {
    type V = CliActionView;

    open spec fn view(&self) -> CliActionView {
        match self {
            CliAction::CreateMessage { parent_id, created_at, content } =>
                CliActionView::CreateMessage {
                    parent_id: parent_id@,
                    created_at: *created_at,
                    content: content@,
                },
            CliAction::Emit(event) => CliActionView::Emit(event@),
            CliAction::CountMessage => CliActionView::CountMessage,
            CliAction::Locate => CliActionView::Locate,
            CliAction::CheckDirectory { cwd } => CliActionView::CheckDirectory { cwd: cwd@ },
            CliAction::Run { command, cwd, limit_secs } => CliActionView::Run {
                command: command@,
                cwd: opt_view(*cwd),
                limit_secs: *limit_secs,
            },
            CliAction::ParseOutput { text } => CliActionView::ParseOutput { text: text@ },
            CliAction::ListSessions => CliActionView::ListSessions,
            CliAction::LoadSession { session_id } => CliActionView::LoadSession {
                session_id: session_id@,
            },
            CliAction::SerializeContext(context) => CliActionView::SerializeContext(context@),
            CliAction::UpdateMessage { id, content } => CliActionView::UpdateMessage {
                id: id@,
                content: content@,
            },
            CliAction::UpdateMessageAndThinking { id, content, thinking } =>
                CliActionView::UpdateMessageAndThinking {
                    id: id@,
                    content: content@,
                    thinking: opt_view(*thinking),
                },
            CliAction::SaveContext { session_id, context } => CliActionView::SaveContext {
                session_id: session_id@,
                context: context@,
            },
            CliAction::SetIdle { session_id } => CliActionView::SetIdle {
                session_id: session_id@,
            },
        }
    }
}

/// What a turn waits for.
pub enum CliPhase {
    SavingMessage,
    Locating,
    CheckingDirectory { command: CommandLine, cwd: String },
    Running,
    Parsing { out: String },
    Listing { out: String, parsed: Option<DeepSeekExecJson> },
    LoadingSession { out: String, parsed: Option<DeepSeekExecJson>, session_id: String },
    Serializing { report: CliReport },
    Ended,
}

/// A phase, its texts as sequences of characters.
pub enum CliPhaseView {
    SavingMessage,
    Locating,
    CheckingDirectory { command: CommandLineView, cwd: Seq<char> },
    Running,
    Parsing { out: Seq<char> },
    Listing { out: Seq<char>, parsed: Option<ExecView> },
    LoadingSession { out: Seq<char>, parsed: Option<ExecView>, session_id: Seq<char> },
    Serializing { report: ReportView },
    Ended,
}

impl View for CliPhase {
    type V = CliPhaseView;

    open spec fn view(&self) -> CliPhaseView {
        match self {
            CliPhase::SavingMessage => CliPhaseView::SavingMessage,
            CliPhase::Locating => CliPhaseView::Locating,
            CliPhase::CheckingDirectory { command, cwd } => CliPhaseView::CheckingDirectory {
                command: command@,
                cwd: cwd@,
            },
            CliPhase::Running => CliPhaseView::Running,
            CliPhase::Parsing { out } => CliPhaseView::Parsing { out: out@ },
            CliPhase::Listing { out, parsed } => CliPhaseView::Listing {
                out: out@,
                parsed: opt_view(*parsed),
            },
            CliPhase::LoadingSession { out, parsed, session_id } => CliPhaseView::LoadingSession {
                out: out@,
                parsed: opt_view(*parsed),
                session_id: session_id@,
            },
            CliPhase::Serializing { report } => CliPhaseView::Serializing { report: report@ },
            CliPhase::Ended => CliPhaseView::Ended,
        }
    }
}

/// The state of a turn.
pub struct CliTurnView {
    pub agent: CliAgent,
    pub names: NamesView,
    pub conversation_id: Seq<char>,
    pub session_id: Seq<char>,
    pub prompt: Seq<char>,
    pub permission_mode: Option<Seq<char>>,
    pub model: Option<Seq<char>>,
    /// The working directory.
    pub cwd: Option<Seq<char>>,
    /// The agent's own session that the turn resumes.
    pub resumed: Option<Seq<char>>,
    /// The stored assistant message.
    pub message_id: Option<Seq<char>>,
    pub phase: CliPhaseView,
}

/// A state that waits for something else.
pub open spec fn cli_waiting(s: CliTurnView, phase: CliPhaseView) -> CliTurnView {
    CliTurnView { phase, ..s }
}

/// The storing of the reply in the assistant message, where there is one.
pub open spec fn reply_actions(s: CliTurnView, report: ReportView) -> Seq<CliActionView> {
    match (s.message_id, s.agent) {
        (Some(id), CliAgent::ClaudeCode) => seq![
            CliActionView::UpdateMessage { id, content: report.text },
        ],
        (Some(id), CliAgent::DeepSeekTui) => seq![
            CliActionView::UpdateMessageAndThinking {
                id,
                content: content_with_thinking(report.text, report.thinking),
                thinking: report.thinking,
            },
        ],
        (None, _) => Seq::empty(),
    }
}

/// The closing event of a turn.
pub open spec fn done_event(s: CliTurnView, report: ReportView) -> CliActionView {
    CliActionView::Emit(
        EventView::Done {
            conversation_id: s.conversation_id,
            assistant_message_id: text_or_empty(s.message_id),
            text: report.text,
            thinking: report.thinking,
            model: report.model,
            session_id: report.session_id,
            usage: None,
            num_turns: Some(1),
            cost_usd: None,
        },
    )
}

/// The release of the session, with the context for the next turn where there is one.
pub open spec fn release_action(s: CliTurnView, context: Option<Seq<char>>) -> CliActionView {
    match context {
        Some(context) => CliActionView::SaveContext { session_id: s.session_id, context },
        None => CliActionView::SetIdle { session_id: s.session_id },
    }
}

/// The end of a turn.
pub open spec fn cli_finish(s: CliTurnView, report: ReportView, context: Option<Seq<char>>) -> (
    CliTurnView,
    Seq<CliActionView>,
) {
    (
        cli_waiting(s, CliPhaseView::Ended),
        reply_actions(s, report).push(done_event(s, report)).push(release_action(s, context)),
    )
}

/// The end of a turn that has a report; its context is written as text first.
pub open spec fn cli_report(s: CliTurnView, report: ReportView) -> (
    CliTurnView,
    Seq<CliActionView>,
) {
    match report.context {
        Some(context) => (
            cli_waiting(s, CliPhaseView::Serializing { report }),
            seq![CliActionView::SerializeContext(context)],
        ),
        None => cli_finish(s, report, None),
    }
}

/// The report of an outcome that leaves nothing to resume.
pub open spec fn plain_report(s: CliTurnView, outcome: CliOutcomeView) -> ReportView {
    ReportView {
        text: outcome_text(s.names, outcome),
        thinking: None,
        model: if s.agent == CliAgent::DeepSeekTui && outcome is BadDirectory {
            None
        } else {
            s.model
        },
        session_id: s.resumed,
        context: None,
    }
}

/// The session of the newest saved file.
pub open spec fn newest_id(entries: Option<Seq<Option<SessionEntry>>>) -> Option<Seq<char>> {
    match entries {
        Some(entries) => match latest_session(entries) {
            Some(i) => entries[i]->0@.stem,
            None => None,
        },
        None => None,
    }
}

/// Runs the command.
pub open spec fn run_command(
    s: CliTurnView,
    command: CommandLineView,
    cwd: Option<Seq<char>>,
) -> (CliTurnView, Seq<CliActionView>) {
    (
        cli_waiting(s, CliPhaseView::Running),
        seq![CliActionView::Run { command, cwd, limit_secs: RUN_SECONDS }],
    )
}

/// Reads the session that a run belongs to.
pub open spec fn load_session(
    s: CliTurnView,
    out: Seq<char>,
    parsed: Option<ExecView>,
    session_id: Option<Seq<char>>,
) -> (CliTurnView, Seq<CliActionView>) {
    match session_id {
        Some(session_id) => (
            cli_waiting(s, CliPhaseView::LoadingSession { out, parsed, session_id }),
            seq![CliActionView::LoadSession { session_id }],
        ),
        None => cli_report(s, success_report(s.names.label, out, parsed, s.model, None, None)),
    }
}

/// The command line of a turn.
pub open spec fn turn_command(
    s: CliTurnView,
    windows: bool,
    extension: Option<Seq<char>>,
) -> CommandLineView {
    let start = launcher(windows, extension);
    CommandLineView {
        program: start.program,
        args: start.args + agent_words(s.agent, s.prompt, s.permission_mode, s.model, s.resumed),
    }
}

/// A turn that has just begun, and its first action: an empty assistant message, dated right
/// after the user's message. Only DeepSeek TUI resumes sessions.
pub open spec fn cli_start(
    agent: CliAgent,
    names: NamesView,
    conversation_id: Seq<char>,
    session_id: Seq<char>,
    user_message_id: Seq<char>,
    user_created_at: i64,
    prompt: Seq<char>,
    permission_mode: Option<Seq<char>>,
    model: Option<Seq<char>>,
    cwd: Option<Seq<char>>,
    resumed: Option<Seq<char>>,
) -> (CliTurnView, CliActionView) {
    (
        CliTurnView {
            agent,
            names,
            conversation_id,
            session_id,
            prompt,
            permission_mode,
            model,
            cwd,
            resumed: match agent {
                CliAgent::ClaudeCode => None,
                CliAgent::DeepSeekTui => resumed,
            },
            message_id: None,
            phase: CliPhaseView::SavingMessage,
        },
        CliActionView::CreateMessage {
            parent_id: user_message_id,
            created_at: (user_created_at + 1) as i64,
            content: Seq::empty(),
        },
    )
}

/// What an answer does to a turn. An answer that is not waited for does nothing.
pub open spec fn cli_step(s: CliTurnView, input: CliInputView) -> (
    CliTurnView,
    Seq<CliActionView>,
) {
    match (s.phase, input) {
        (CliPhaseView::SavingMessage, CliInputView::MessageSaved(Some(id))) => (
            CliTurnView { message_id: Some(id), phase: CliPhaseView::Locating, ..s },
            seq![
                CliActionView::Emit(
                    EventView::MessageId {
                        conversation_id: s.conversation_id,
                        assistant_message_id: id,
                    },
                ),
                CliActionView::CountMessage,
                CliActionView::Locate,
            ],
        ),
        (CliPhaseView::SavingMessage, CliInputView::MessageSaved(None)) => (
            cli_waiting(s, CliPhaseView::Locating),
            seq![CliActionView::Locate],
        ),
        (CliPhaseView::Locating, CliInputView::NotLocated { search_path }) => cli_finish(
            s,
            plain_report(s, CliOutcomeView::NotLocated { search_path }),
            None,
        ),
        (CliPhaseView::Locating, CliInputView::Located { windows, extension }) => {
            let command = turn_command(s, windows, extension);
            match s.cwd {
                Some(cwd) => (
                    cli_waiting(s, CliPhaseView::CheckingDirectory { command, cwd }),
                    seq![CliActionView::CheckDirectory { cwd }],
                ),
                None => run_command(s, command, None),
            }
        },
        (
            CliPhaseView::CheckingDirectory { command, cwd },
            CliInputView::DirectoryChecked(found),
        ) => if found {
            run_command(s, command, Some(cwd))
        } else {
            cli_finish(s, plain_report(s, CliOutcomeView::BadDirectory { cwd }), None)
        },
        (CliPhaseView::Running, CliInputView::Ran(outcome)) => match (s.agent, outcome) {
            (
                CliAgent::DeepSeekTui,
                CliOutcomeView::Finished { success: true, code: _, stdout, stderr: _ },
            ) => (
                cli_waiting(s, CliPhaseView::Parsing { out: printed(stdout) }),
                seq![CliActionView::ParseOutput { text: printed(stdout) }],
            ),
            _ => cli_finish(s, plain_report(s, outcome), None),
        },
        (CliPhaseView::Parsing { out }, CliInputView::OutputParsed(parsed)) => if s.resumed is Some {
            load_session(s, out, parsed, s.resumed)
        } else {
            (
                cli_waiting(s, CliPhaseView::Listing { out, parsed }),
                seq![CliActionView::ListSessions],
            )
        },
        (CliPhaseView::Listing { out, parsed }, CliInputView::SessionsListed(entries)) =>
            load_session(s, out, parsed, newest_id(entries)),
        (
            CliPhaseView::LoadingSession { out, parsed, session_id },
            CliInputView::SessionLoaded(saved),
        ) => cli_report(
            s,
            success_report(s.names.label, out, parsed, s.model, Some(session_id), saved),
        ),
        (CliPhaseView::Serializing { report }, CliInputView::ContextSerialized(json)) =>
            cli_finish(s, report, json),
        _ => (s, Seq::empty()),
    }
}

/// A turn of a command-line agent that is under way.
pub struct CliTurn {
    agent: CliAgent,
    names: AgentNames,
    conversation_id: String,
    session_id: String,
    prompt: String,
    permission_mode: Option<String>,
    model: Option<String>,
    cwd: Option<String>,
    resumed: Option<String>,
    message_id: Option<String>,
    phase: CliPhase,
}

impl View for CliTurn {
    type V = CliTurnView;

    closed spec fn view(&self) -> CliTurnView {
        CliTurnView {
            agent: self.agent,
            names: self.names@,
            conversation_id: self.conversation_id@,
            session_id: self.session_id@,
            prompt: self.prompt@,
            permission_mode: opt_view(self.permission_mode),
            model: opt_view(self.model),
            cwd: opt_view(self.cwd),
            resumed: opt_view(self.resumed),
            message_id: opt_view(self.message_id),
            phase: self.phase@,
        }
    }
}

fn as_text(text: &Option<String>) -> (view: Option<&str>)
    ensures
        opt_view(view) == opt_view(*text),
{
    match text {
        Some(text) => Some(text.as_str()),
        None => None,
    }
}

impl CliTurn {
    /// Begins a turn.
    pub fn new(
        agent: CliAgent,
        names: AgentNames,
        conversation_id: String,
        session_id: String,
        user_message_id: String,
        user_created_at: i64,
        prompt: String,
        permission_mode: Option<String>,
        model: Option<String>,
        cwd: Option<String>,
        resumed: Option<String>,
    ) -> (result: (CliTurn, CliAction))
        requires
            user_created_at < i64::MAX,
        ensures
            (result.0@, result.1@) == cli_start(
                agent,
                names@,
                conversation_id@,
                session_id@,
                user_message_id@,
                user_created_at,
                prompt@,
                opt_view(permission_mode),
                opt_view(model),
                opt_view(cwd),
                opt_view(resumed),
            ),
    {
        let resumed = match agent {
            CliAgent::ClaudeCode => None,
            CliAgent::DeepSeekTui => resumed,
        };
        let turn = CliTurn {
            agent,
            names,
            conversation_id,
            session_id,
            prompt,
            permission_mode,
            model,
            cwd,
            resumed,
            message_id: None,
            phase: CliPhase::SavingMessage,
        };
        let content = String::new();
        assert(content@ =~= Seq::empty());
        (
            turn,
            CliAction::CreateMessage {
                parent_id: user_message_id,
                created_at: user_created_at + 1,
                content,
            },
        )
    }

    /// Whether the turn is over.
    pub fn ended(&self) -> (ended: bool)
        ensures
            ended == (self@.phase is Ended),
    {
        match self.phase {
            CliPhase::Ended => true,
            _ => false,
        }
    }

    fn go_on(&mut self, phase: CliPhase, action: CliAction) -> (actions: Vec<CliAction>)
        ensures
            final(self)@ == cli_waiting(old(self)@, phase@),
            views(actions@) == seq![action@],
    {
        self.phase = phase;
        let mut actions: Vec<CliAction> = Vec::new();
        actions.push(action);
        assert(views(actions@) =~= seq![action@]);
        actions
    }

    fn finish(&mut self, report: CliReport, context: Option<String>) -> (actions: Vec<CliAction>)
        ensures
            (final(self)@, views(actions@)) == cli_finish(
                old(self)@,
                report@,
                opt_view(context),
            ),
    {
        self.phase = CliPhase::Ended;
        let mut actions: Vec<CliAction> = Vec::new();
        if let Some(id) = &self.message_id {
            match self.agent {
                CliAgent::ClaudeCode => {
                    actions.push(
                        CliAction::UpdateMessage { id: id.clone(), content: report.text.clone() },
                    );
                },
                CliAgent::DeepSeekTui => {
                    let content = build_agent_content_with_thinking(
                        report.text.as_str(),
                        as_text(&report.thinking),
                    );
                    actions.push(
                        CliAction::UpdateMessageAndThinking {
                            id: id.clone(),
                            content,
                            thinking: copy_text(&report.thinking),
                        },
                    );
                },
            }
        }
        assert(views(actions@) =~= reply_actions(old(self)@, report@));
        let ghost replied = views(actions@);
        let ghost told = report@;
        let done = CliAction::Emit(
            FrontendEvent::Done(
                AgentDonePayload {
                    conversation_id: self.conversation_id.clone(),
                    assistant_message_id: copy_or_empty(&self.message_id),
                    text: report.text,
                    thinking: report.thinking,
                    model: report.model,
                    session_id: report.session_id,
                    usage: None,
                    num_turns: Some(1),
                    cost_usd: None,
                },
            ),
        );
        assert(done@ == done_event(old(self)@, told));
        actions.push(done);
        assert(views(actions@) =~= replied.push(done@));
        let session_id = self.session_id.clone();
        let release = match context {
            Some(context) => CliAction::SaveContext { session_id, context },
            None => CliAction::SetIdle { session_id },
        };
        assert(release@ == release_action(old(self)@, opt_view(context)));
        actions.push(release);
        assert(views(actions@) =~= replied.push(done@).push(release@));
        actions
    }

    fn report(&mut self, report: CliReport) -> (actions: Vec<CliAction>)
        ensures
            (final(self)@, views(actions@)) == cli_report(old(self)@, report@),
    {
        match &report.context {
            Some(context) => {
                let context = DeepSeekSessionContext {
                    deepseek_session_id: copy_text(&context.deepseek_session_id),
                    deepseek_model: copy_text(&context.deepseek_model),
                };
                self.go_on(
                    CliPhase::Serializing { report },
                    CliAction::SerializeContext(context),
                )
            },
            None => self.finish(report, None),
        }
    }

    fn finish_plainly(&mut self, outcome: &CliOutcome) -> (actions: Vec<CliAction>)
        ensures
            (final(self)@, views(actions@)) == cli_finish(
                old(self)@,
                plain_report(old(self)@, outcome@),
                None,
            ),
    {
        let bad_directory = match outcome {
            CliOutcome::BadDirectory { .. } => true,
            _ => false,
        };
        let model = if self.agent == CliAgent::DeepSeekTui && bad_directory {
            None
        } else {
            copy_text(&self.model)
        };
        let report = CliReport {
            text: describe_outcome(&self.names, outcome),
            thinking: None,
            model,
            session_id: copy_text(&self.resumed),
            context: None,
        };
        self.finish(report, None)
    }

    fn load(
        &mut self,
        out: String,
        parsed: Option<DeepSeekExecJson>,
        session_id: Option<String>,
    ) -> (actions: Vec<CliAction>)
        ensures
            (final(self)@, views(actions@)) == load_session(
                old(self)@,
                out@,
                opt_view(parsed),
                opt_view(session_id),
            ),
    {
        match session_id {
            Some(session_id) => {
                let action = CliAction::LoadSession { session_id: session_id.clone() };
                self.go_on(CliPhase::LoadingSession { out, parsed, session_id }, action)
            },
            None => {
                let report = report_success(
                    self.names.label.as_str(),
                    out.as_str(),
                    parsed,
                    &self.model,
                    None,
                    None,
                );
                self.report(report)
            },
        }
    }

    /// Takes the answer to the last action and says what to do.
    pub fn step(&mut self, input: CliInput) -> (actions: Vec<CliAction>)
        ensures
            (final(self)@, views(actions@)) == cli_step(old(self)@, input@),
    {
        let mut phase = CliPhase::Ended;
        core::mem::swap(&mut self.phase, &mut phase);
        match (phase, input) {
            (CliPhase::SavingMessage, CliInput::MessageSaved(id)) => match id {
                Some(id) => {
                    let mut actions: Vec<CliAction> = Vec::new();
                    actions.push(
                        CliAction::Emit(
                            FrontendEvent::MessageId(
                                AgentMessageIdPayload {
                                    conversation_id: self.conversation_id.clone(),
                                    assistant_message_id: id.clone(),
                                },
                            ),
                        ),
                    );
                    actions.push(CliAction::CountMessage);
                    actions.push(CliAction::Locate);
                    self.message_id = Some(id);
                    self.phase = CliPhase::Locating;
                    assert(views(actions@) =~= cli_step(old(self)@, input@).1);
                    actions
                },
                None => self.go_on(CliPhase::Locating, CliAction::Locate),
            },
            (CliPhase::Locating, CliInput::NotLocated { search_path }) => self.finish_plainly(
                &CliOutcome::NotLocated { search_path },
            ),
            (CliPhase::Locating, CliInput::Located { windows, extension }) => {
                let command = agent_command(
                    self.agent,
                    build_cli_command(windows, as_text(&extension)),
                    self.prompt.as_str(),
                    as_text(&self.permission_mode),
                    as_text(&self.model),
                    as_text(&self.resumed),
                );
                match copy_text(&self.cwd) {
                    Some(cwd) => {
                        let action = CliAction::CheckDirectory { cwd: cwd.clone() };
                        self.go_on(CliPhase::CheckingDirectory { command, cwd }, action)
                    },
                    None => self.go_on(
                        CliPhase::Running,
                        CliAction::Run { command, cwd: None, limit_secs: RUN_SECONDS },
                    ),
                }
            },
            (CliPhase::CheckingDirectory { command, cwd }, CliInput::DirectoryChecked(found)) => {
                if found {
                    self.go_on(
                        CliPhase::Running,
                        CliAction::Run { command, cwd: Some(cwd), limit_secs: RUN_SECONDS },
                    )
                } else {
                    self.finish_plainly(&CliOutcome::BadDirectory { cwd })
                }
            },
            (CliPhase::Running, CliInput::Ran(outcome)) => match (self.agent, outcome) {
                (
                    CliAgent::DeepSeekTui,
                    CliOutcome::Finished { success: true, code: _, stdout, stderr: _ },
                ) => {
                    let out = printed_text(&stdout);
                    let text = out.clone();
                    self.go_on(CliPhase::Parsing { out }, CliAction::ParseOutput { text })
                },
                (_, outcome) => self.finish_plainly(&outcome),
            },
            (CliPhase::Parsing { out }, CliInput::OutputParsed(parsed)) => match copy_text(
                &self.resumed,
            ) {
                Some(session_id) => self.load(out, parsed, Some(session_id)),
                None => self.go_on(CliPhase::Listing { out, parsed }, CliAction::ListSessions),
            },
            (CliPhase::Listing { out, parsed }, CliInput::SessionsListed(entries)) => {
                let session_id = match &entries {
                    Some(entries) => match latest_deepseek_session_file(entries) {
                        Some(index) => match &entries[index] {
                            Some(entry) => copy_text(&entry.stem),
                            None => None,
                        },
                        None => None,
                    },
                    None => None,
                };
                self.load(out, parsed, session_id)
            },
            (
                CliPhase::LoadingSession { out, parsed, session_id },
                CliInput::SessionLoaded(saved),
            ) => {
                let report = report_success(
                    self.names.label.as_str(),
                    out.as_str(),
                    parsed,
                    &self.model,
                    Some(session_id),
                    saved,
                );
                self.report(report)
            },
            (CliPhase::Serializing { report }, CliInput::ContextSerialized(json)) => self.finish(
                report,
                json,
            ),
            (phase, _) => {
                self.phase = phase;
                let none: Vec<CliAction> = Vec::new();
                assert(views(none@) =~= Seq::empty());
                none
            },
        }
    }
}

} // verus!
