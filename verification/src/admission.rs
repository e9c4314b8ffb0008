//! The way of a prompt from the user to a running agent: which checks it passes, what is
//! stored on the way, and where it is refused.
//!
//! Each [`AdmissionInput`] is the answer to the last action and gives the next actions.
use vstd::prelude::*;
use vstd::string::*;

use crate::payload::{EventView, FrontendEvent, TitleUpdatedPayload};
use crate::registry::{
    chat_adapter, create_adapter, provider_type_to_registry_key, registry_key, rerank_only,
    AdapterKind, ProviderType,
};
use crate::session::{AgentSession, SessionView};
use crate::text::{first_chars, opt_view, take_chars, trim, trimmed, views};

verus! {

/// Which agent a prompt is for.
#[derive(Clone, Copy, Debug, PartialEq, Eq, Structural)]
pub enum TurnKind {
    /// The built-in agent, which talks to a configured provider.
    BuiltIn,
    /// A command-line agent.
    CommandLine,
}

/// The answer of a step that either succeeds with a value or fails with an error.
pub open spec fn result_view<T: View>(result: Result<T, String>) -> Result<T::V, Seq<char>> {
    match result {
        Ok(value) => Ok(value@),
        Err(error) => Err(error@),
    }
}

/// The stored message of the user.
pub struct UserMessage {
    pub id: String,
    pub created_at: i64,
}

/// The stored message of the user, its id as a sequence of characters.
pub struct UserMessageView {
    pub id: Seq<char>,
    pub created_at: i64,
}

impl View for UserMessage {
    type V = UserMessageView;

    open spec fn view(&self) -> UserMessageView {
        UserMessageView { id: self.id@, created_at: self.created_at }
    }
}

/// The answer to an action. An `Option` is the error of an action that has no result.
pub enum AdmissionInput {
    SessionLoaded(Result<Option<AgentSession>, String>),
    RunningChecked(bool),
    RunningMarked(Option<String>),
    PromptSaved(Result<UserMessage, String>),
    /// The number of messages that the conversation has, the new one not counted.
    ConversationLoaded(Result<i64, String>),
    MessageCounted(Option<String>),
    TitleSaved(Option<String>),
    ProviderLoaded(Result<ProviderType, String>),
    KeyLoaded(Option<String>),
    KeyDecrypted(Option<String>),
    BridgeBuilt(Option<String>),
    ConversationReloaded(Option<String>),
    AgentBuilt(Option<String>),
}

/// An answer, its texts as sequences of characters.
pub enum AdmissionInputView {
    SessionLoaded(Result<Option<SessionView>, Seq<char>>),
    RunningChecked(bool),
    RunningMarked(Option<Seq<char>>),
    PromptSaved(Result<UserMessageView, Seq<char>>),
    ConversationLoaded(Result<i64, Seq<char>>),
    MessageCounted(Option<Seq<char>>),
    TitleSaved(Option<Seq<char>>),
    ProviderLoaded(Result<ProviderType, Seq<char>>),
    KeyLoaded(Option<Seq<char>>),
    KeyDecrypted(Option<Seq<char>>),
    BridgeBuilt(Option<Seq<char>>),
    ConversationReloaded(Option<Seq<char>>),
    AgentBuilt(Option<Seq<char>>),
}

impl View for AdmissionInput {
    type V = AdmissionInputView;

    open spec fn view(&self) -> AdmissionInputView {
        match self {
            AdmissionInput::SessionLoaded(Ok(session)) => AdmissionInputView::SessionLoaded(
                Ok(opt_view(*session)),
            ),
            AdmissionInput::SessionLoaded(Err(error)) => AdmissionInputView::SessionLoaded(
                Err(error@),
            ),
            AdmissionInput::RunningChecked(running) => AdmissionInputView::RunningChecked(
                *running,
            ),
            AdmissionInput::RunningMarked(error) => AdmissionInputView::RunningMarked(
                opt_view(*error),
            ),
            AdmissionInput::PromptSaved(message) => AdmissionInputView::PromptSaved(
                result_view(*message),
            ),
            AdmissionInput::ConversationLoaded(Ok(count)) =>
                AdmissionInputView::ConversationLoaded(Ok(*count)),
            AdmissionInput::ConversationLoaded(Err(error)) =>
                AdmissionInputView::ConversationLoaded(Err(error@)),
            AdmissionInput::MessageCounted(error) => AdmissionInputView::MessageCounted(
                opt_view(*error),
            ),
            AdmissionInput::TitleSaved(error) => AdmissionInputView::TitleSaved(opt_view(*error)),
            AdmissionInput::ProviderLoaded(Ok(kind)) => AdmissionInputView::ProviderLoaded(
                Ok(*kind),
            ),
            AdmissionInput::ProviderLoaded(Err(error)) => AdmissionInputView::ProviderLoaded(
                Err(error@),
            ),
            AdmissionInput::KeyLoaded(error) => AdmissionInputView::KeyLoaded(opt_view(*error)),
            AdmissionInput::KeyDecrypted(error) => AdmissionInputView::KeyDecrypted(
                opt_view(*error),
            ),
            AdmissionInput::BridgeBuilt(error) => AdmissionInputView::BridgeBuilt(
                opt_view(*error),
            ),
            AdmissionInput::ConversationReloaded(error) =>
                AdmissionInputView::ConversationReloaded(opt_view(*error)),
            AdmissionInput::AgentBuilt(error) => AdmissionInputView::AgentBuilt(opt_view(*error)),
        }
    }
}

/// Something to do for a prompt. Every action but `Emit`, `Start` and `Refuse` is answered by
/// the input of the like name.
pub enum AdmissionAction {
    LoadSession,
    /// See whether an agent runs for the conversation.
    CheckRunning,
    /// Store that the session runs.
    MarkRunning { session_id: String },
    SavePrompt { prompt: String },
    LoadConversation,
    /// Count one more message of the conversation.
    CountMessage,
    SaveTitle { title: String },
    Emit(FrontendEvent),
    LoadProvider,
    LoadKey,
    DecryptKey,
    /// Connect the agent to the adapter of its provider.
    BuildBridge { adapter: AdapterKind, provider: &'static str },
    ReloadConversation,
    BuildAgent,
    /// Start the agent.
    Start,
    /// Refuse the prompt with an error.
    Refuse(String),
}

/// An action, its texts as sequences of characters.
pub enum AdmissionActionView {
    LoadSession,
    CheckRunning,
    MarkRunning { session_id: Seq<char> },
    SavePrompt { prompt: Seq<char> },
    LoadConversation,
    CountMessage,
    SaveTitle { title: Seq<char> },
    Emit(EventView),
    LoadProvider,
    LoadKey,
    DecryptKey,
    BuildBridge { adapter: AdapterKind, provider: Seq<char> },
    ReloadConversation,
    BuildAgent,
    Start,
    Refuse(Seq<char>),
}

impl View for AdmissionAction {
    type V = AdmissionActionView;

    open spec fn view(&self) -> AdmissionActionView {
        match self {
            AdmissionAction::LoadSession => AdmissionActionView::LoadSession,
            AdmissionAction::CheckRunning => AdmissionActionView::CheckRunning,
            AdmissionAction::MarkRunning { session_id } => AdmissionActionView::MarkRunning {
                session_id: session_id@,
            },
            AdmissionAction::SavePrompt { prompt } => AdmissionActionView::SavePrompt {
                prompt: prompt@,
            },
            AdmissionAction::LoadConversation => AdmissionActionView::LoadConversation,
            AdmissionAction::CountMessage => AdmissionActionView::CountMessage,
            AdmissionAction::SaveTitle { title } => AdmissionActionView::SaveTitle {
                title: title@,
            },
            AdmissionAction::Emit(event) => AdmissionActionView::Emit(event@),
            AdmissionAction::LoadProvider => AdmissionActionView::LoadProvider,
            AdmissionAction::LoadKey => AdmissionActionView::LoadKey,
            AdmissionAction::DecryptKey => AdmissionActionView::DecryptKey,
            AdmissionAction::BuildBridge { adapter, provider } =>
                AdmissionActionView::BuildBridge { adapter: *adapter, provider: provider@ },
            AdmissionAction::ReloadConversation => AdmissionActionView::ReloadConversation,
            AdmissionAction::BuildAgent => AdmissionActionView::BuildAgent,
            AdmissionAction::Start => AdmissionActionView::Start,
            AdmissionAction::Refuse(error) => AdmissionActionView::Refuse(error@),
        }
    }
}

/// How far a prompt has come; each phase but the last two waits for one answer.
#[derive(Clone, Copy, Debug, PartialEq, Eq, Structural)]
pub enum AdmissionPhase {
    LoadingSession,
    CheckingRunning,
    MarkingRunning,
    SavingPrompt,
    LoadingConversation,
    CountingMessage,
    SavingTitle,
    LoadingProvider,
    LoadingKey,
    DecryptingKey,
    BuildingBridge,
    ReloadingConversation,
    BuildingAgent,
    Admitted,
    Refused,
}

/// The state of a prompt on its way.
pub struct AdmissionView {
    pub kind: TurnKind,
    pub conversation_id: Seq<char>,
    pub prompt: Seq<char>,
    pub session: Option<SessionView>,
    pub user_message: Option<UserMessageView>,
    /// Whether the prompt is the first message of its conversation.
    pub first_message: bool,
    pub provider: Option<ProviderType>,
    pub phase: AdmissionPhase,
}

/// The greatest number of characters of a prompt that become a title.
pub const TITLE_CHARS: usize = 30;

/// The title that a conversation gets from its first prompt: the prompt, or its beginning.
pub open spec fn title_of_prompt(prompt: Seq<char>) -> Seq<char> {
    if prompt.len() > TITLE_CHARS {
        first_chars(prompt, TITLE_CHARS as nat) + "..."@
    } else {
        prompt
    }
}

/// Makes a title from the first prompt of a conversation.
pub fn fallback_title(prompt: &str) -> (title: String)
    ensures
        title@ == title_of_prompt(prompt@),
{
    if prompt.unicode_len() > TITLE_CHARS {
        let mut title = take_chars(prompt, TITLE_CHARS);
        title.append("...");
        title
    } else {
        prompt.to_owned()
    }
}

/// The working directory of a turn: the requested one, else the session's, unless blank.
pub open spec fn turn_cwd(requested: Option<Seq<char>>, session: Option<Seq<char>>) -> Option<
    Seq<char>,
> {
    let cwd = if requested is Some {
        requested
    } else {
        session
    };
    match cwd {
        Some(dir) if trimmed(dir).len() > 0 => Some(dir),
        _ => None,
    }
}

/// Picks the working directory of a turn.
pub fn effective_cwd(requested: Option<String>, session: Option<String>) -> (cwd: Option<String>)
    ensures
        opt_view(cwd) == turn_cwd(opt_view(requested), opt_view(session)),
{
    let cwd = match requested {
        Some(dir) => Some(dir),
        None => session,
    };
    match cwd {
        Some(dir) => {
            if trim(dir.as_str()).as_str().is_empty() {
                None
            } else {
                Some(dir)
            }
        },
        None => None,
    }
}

/// What an agent is told of the skills that it has: their summary, unless that is empty.
pub fn skills_summary(summary: String) -> (shown: Option<String>)
    ensures
        opt_view(shown) == if summary@.len() == 0 {
            None
        } else {
            Some(summary@)
        },
{
    if summary.as_str().is_empty() {
        None
    } else {
        Some(summary)
    }
}

/// The prompt takes the next step.
pub open spec fn goes_on(s: AdmissionView, phase: AdmissionPhase, action: AdmissionActionView) -> (
    AdmissionView,
    Seq<AdmissionActionView>,
) {
    (AdmissionView { phase, ..s }, seq![action])
}

/// The prompt is refused.
pub open spec fn is_refused(s: AdmissionView, error: Seq<char>) -> (
    AdmissionView,
    Seq<AdmissionActionView>,
) {
    goes_on(s, AdmissionPhase::Refused, AdmissionActionView::Refuse(error))
}

/// The prompt takes the next step unless the last one failed.
pub open spec fn goes_on_unless(
    s: AdmissionView,
    error: Option<Seq<char>>,
    phase: AdmissionPhase,
    action: AdmissionActionView,
) -> (AdmissionView, Seq<AdmissionActionView>) {
    match error {
        Some(error) => is_refused(s, error),
        None => goes_on(s, phase, action),
    }
}

/// The prompt is stored: a command-line agent starts, the built-in one still needs its
/// provider.
pub open spec fn after_prompt(s: AdmissionView) -> (AdmissionView, Seq<AdmissionActionView>) {
    match s.kind {
        TurnKind::CommandLine => goes_on(s, AdmissionPhase::Admitted, AdmissionActionView::Start),
        TurnKind::BuiltIn => goes_on(
            s,
            AdmissionPhase::LoadingProvider,
            AdmissionActionView::LoadProvider,
        ),
    }
}

/// A prompt that has just been entered. A command-line agent takes no blank prompt.
pub open spec fn admission_start(kind: TurnKind, conversation_id: Seq<char>, prompt: Seq<char>) -> (
    AdmissionView,
    Seq<AdmissionActionView>,
) {
    let s = AdmissionView {
        kind,
        conversation_id,
        prompt,
        session: None,
        user_message: None,
        first_message: false,
        provider: None,
        phase: AdmissionPhase::LoadingSession,
    };
    if kind == TurnKind::CommandLine && trimmed(prompt).len() == 0 {
        is_refused(s, "Prompt is empty"@)
    } else {
        goes_on(s, AdmissionPhase::LoadingSession, AdmissionActionView::LoadSession)
    }
}

/// What an answer does to a prompt on its way. An answer that is not waited for does nothing.
pub open spec fn admission_step(s: AdmissionView, input: AdmissionInputView) -> (
    AdmissionView,
    Seq<AdmissionActionView>,
) {
    match (s.phase, input) {
        (AdmissionPhase::LoadingSession, AdmissionInputView::SessionLoaded(Err(error))) =>
            is_refused(s, error),
        (AdmissionPhase::LoadingSession, AdmissionInputView::SessionLoaded(Ok(None))) =>
            is_refused(s, "Agent session not found. Please switch to Agent mode first."@),
        (AdmissionPhase::LoadingSession, AdmissionInputView::SessionLoaded(Ok(Some(session)))) =>
            goes_on(
                AdmissionView { session: Some(session), ..s },
                AdmissionPhase::CheckingRunning,
                AdmissionActionView::CheckRunning,
            ),
        (AdmissionPhase::CheckingRunning, AdmissionInputView::RunningChecked(running)) =>
            if running {
                is_refused(s, "Agent is already running"@)
            } else {
                goes_on(
                    s,
                    AdmissionPhase::MarkingRunning,
                    AdmissionActionView::MarkRunning { session_id: s.session->0.id },
                )
            },
        (AdmissionPhase::MarkingRunning, AdmissionInputView::RunningMarked(error)) =>
            goes_on_unless(
                s,
                error,
                AdmissionPhase::SavingPrompt,
                AdmissionActionView::SavePrompt { prompt: s.prompt },
            ),
        (AdmissionPhase::SavingPrompt, AdmissionInputView::PromptSaved(Err(error))) =>
            is_refused(s, error),
        (AdmissionPhase::SavingPrompt, AdmissionInputView::PromptSaved(Ok(message))) => goes_on(
            AdmissionView { user_message: Some(message), ..s },
            AdmissionPhase::LoadingConversation,
            AdmissionActionView::LoadConversation,
        ),
        (
            AdmissionPhase::LoadingConversation,
            AdmissionInputView::ConversationLoaded(Err(error)),
        ) => is_refused(s, error),
        (AdmissionPhase::LoadingConversation, AdmissionInputView::ConversationLoaded(Ok(count))) =>
            goes_on(
                AdmissionView { first_message: count <= 1, ..s },
                AdmissionPhase::CountingMessage,
                AdmissionActionView::CountMessage,
            ),
        (AdmissionPhase::CountingMessage, AdmissionInputView::MessageCounted(Some(error))) =>
            is_refused(s, error),
        (AdmissionPhase::CountingMessage, AdmissionInputView::MessageCounted(None)) =>
            if s.first_message {
                goes_on(
                    s,
                    AdmissionPhase::SavingTitle,
                    AdmissionActionView::SaveTitle { title: title_of_prompt(s.prompt) },
                )
            } else {
                after_prompt(s)
            },
        (AdmissionPhase::SavingTitle, AdmissionInputView::TitleSaved(Some(_))) => after_prompt(s),
        (AdmissionPhase::SavingTitle, AdmissionInputView::TitleSaved(None)) => {
            let event = EventView::TitleUpdated {
                conversation_id: s.conversation_id,
                title: title_of_prompt(s.prompt),
            };
            let (next, rest) = after_prompt(s);
            (next, seq![AdmissionActionView::Emit(event)] + rest)
        },
        (AdmissionPhase::LoadingProvider, AdmissionInputView::ProviderLoaded(Err(error))) =>
            is_refused(s, error),
        (AdmissionPhase::LoadingProvider, AdmissionInputView::ProviderLoaded(Ok(kind))) => goes_on(
            AdmissionView { provider: Some(kind), ..s },
            AdmissionPhase::LoadingKey,
            AdmissionActionView::LoadKey,
        ),
        (AdmissionPhase::LoadingKey, AdmissionInputView::KeyLoaded(error)) => goes_on_unless(
            s,
            error,
            AdmissionPhase::DecryptingKey,
            AdmissionActionView::DecryptKey,
        ),
        (AdmissionPhase::DecryptingKey, AdmissionInputView::KeyDecrypted(Some(error))) =>
            is_refused(s, error),
        (AdmissionPhase::DecryptingKey, AdmissionInputView::KeyDecrypted(None)) =>
            if rerank_only(s.provider->0) {
                is_refused(s, "Rerank-only providers cannot be used as agent chat providers"@)
            } else {
                goes_on(
                    s,
                    AdmissionPhase::BuildingBridge,
                    AdmissionActionView::BuildBridge {
                        adapter: chat_adapter(s.provider->0),
                        provider: registry_key(s.provider->0),
                    },
                )
            },
        (AdmissionPhase::BuildingBridge, AdmissionInputView::BridgeBuilt(error)) => goes_on_unless(
            s,
            error,
            AdmissionPhase::ReloadingConversation,
            AdmissionActionView::ReloadConversation,
        ),
        (
            AdmissionPhase::ReloadingConversation,
            AdmissionInputView::ConversationReloaded(error),
        ) => goes_on_unless(
            s,
            error,
            AdmissionPhase::BuildingAgent,
            AdmissionActionView::BuildAgent,
        ),
        (AdmissionPhase::BuildingAgent, AdmissionInputView::AgentBuilt(error)) => goes_on_unless(
            s,
            error,
            AdmissionPhase::Admitted,
            AdmissionActionView::Start,
        ),
        _ => (s, Seq::empty()),
    }
}

/// How far a phase is on the way; the two ends count as the farthest.
pub open spec fn rank(phase: AdmissionPhase) -> int {
    match phase {
        AdmissionPhase::LoadingSession => 0,
        AdmissionPhase::CheckingRunning => 1,
        AdmissionPhase::MarkingRunning => 2,
        AdmissionPhase::SavingPrompt => 3,
        AdmissionPhase::LoadingConversation => 4,
        AdmissionPhase::CountingMessage => 5,
        AdmissionPhase::SavingTitle => 6,
        AdmissionPhase::LoadingProvider => 7,
        AdmissionPhase::LoadingKey => 8,
        AdmissionPhase::DecryptingKey => 9,
        AdmissionPhase::BuildingBridge => 10,
        AdmissionPhase::ReloadingConversation => 11,
        AdmissionPhase::BuildingAgent => 12,
        AdmissionPhase::Admitted => 13,
        AdmissionPhase::Refused => 13,
    }
}

/// What holds of every prompt on its way: what earlier steps have found is there.
pub open spec fn admission_inv(s: AdmissionView) -> bool {
    &&& rank(s.phase) >= 1 && !(s.phase is Refused) ==> s.session is Some
    &&& rank(s.phase) >= 4 && !(s.phase is Refused) ==> s.user_message is Some
    &&& 8 <= rank(s.phase) && !(s.phase is Refused) && s.kind == TurnKind::BuiltIn
        ==> s.provider is Some
    &&& 7 <= rank(s.phase) <= 12 ==> s.kind == TurnKind::BuiltIn
    &&& s.kind == TurnKind::CommandLine && !(s.phase is Refused) ==> trimmed(s.prompt).len() > 0
}

/// A prompt on its way to an agent.
pub struct Admission {
    kind: TurnKind,
    conversation_id: String,
    prompt: String,
    session: Option<AgentSession>,
    user_message: Option<UserMessage>,
    first_message: bool,
    provider: Option<ProviderType>,
    phase: AdmissionPhase,
}

impl View for Admission {
    type V = AdmissionView;

    closed spec fn view(&self) -> AdmissionView {
        AdmissionView {
            kind: self.kind,
            conversation_id: self.conversation_id@,
            prompt: self.prompt@,
            session: opt_view(self.session),
            user_message: opt_view(self.user_message),
            first_message: self.first_message,
            provider: self.provider,
            phase: self.phase,
        }
    }
}

impl Admission {
    /// Takes a prompt of the user.
    pub fn new(kind: TurnKind, conversation_id: String, prompt: String) -> (result: (
        Admission,
        AdmissionAction,
    ))
        ensures
            admission_inv(result.0@),
            (result.0@, seq![result.1@]) == admission_start(kind, conversation_id@, prompt@),
    {
        let blank = trim(prompt.as_str()).as_str().is_empty();
        let mut admission = Admission {
            kind,
            conversation_id,
            prompt,
            session: None,
            user_message: None,
            first_message: false,
            provider: None,
            phase: AdmissionPhase::LoadingSession,
        };
        if kind == TurnKind::CommandLine && blank {
            admission.phase = AdmissionPhase::Refused;
            (admission, AdmissionAction::Refuse("Prompt is empty".to_owned()))
        } else {
            (admission, AdmissionAction::LoadSession)
        }
    }

    /// The session of the conversation, once it is known.
    pub fn session(&self) -> (session: Option<&AgentSession>)
        ensures
            opt_view(session) == self@.session,
    {
        self.session.as_ref()
    }

    /// The stored message of the user, once it is known.
    pub fn user_message(&self) -> (message: Option<&UserMessage>)
        ensures
            opt_view(message) == self@.user_message,
    {
        self.user_message.as_ref()
    }

    /// Whether the prompt is the first message of its conversation, once that is known.
    pub fn first_message(&self) -> (first: bool)
        ensures
            first == self@.first_message,
    {
        self.first_message
    }

    fn refuse(&mut self, error: String) -> (actions: Vec<AdmissionAction>)
        ensures
            (final(self)@, views(actions@)) == is_refused(old(self)@, error@),
    {
        self.phase = AdmissionPhase::Refused;
        let mut actions: Vec<AdmissionAction> = Vec::new();
        actions.push(AdmissionAction::Refuse(error));
        assert(views(actions@) =~= is_refused(old(self)@, error@).1);
        actions
    }

    fn go_on(&mut self, phase: AdmissionPhase, action: AdmissionAction) -> (actions: Vec<
        AdmissionAction,
    >)
        ensures
            (final(self)@, views(actions@)) == goes_on(old(self)@, phase, action@),
    {
        self.phase = phase;
        let mut actions: Vec<AdmissionAction> = Vec::new();
        actions.push(action);
        assert(views(actions@) =~= seq![action@]);
        actions
    }

    fn go_on_unless(
        &mut self,
        error: Option<String>,
        phase: AdmissionPhase,
        action: AdmissionAction,
    ) -> (actions: Vec<AdmissionAction>)
        ensures
            (final(self)@, views(actions@)) == goes_on_unless(
                old(self)@,
                opt_view(error),
                phase,
                action@,
            ),
    {
        match error {
            Some(error) => self.refuse(error),
            None => self.go_on(phase, action),
        }
    }

    fn go_on_after_prompt(&mut self) -> (actions: Vec<AdmissionAction>)
        ensures
            (final(self)@, views(actions@)) == after_prompt(old(self)@),
    {
        match self.kind {
            TurnKind::CommandLine => self.go_on(AdmissionPhase::Admitted, AdmissionAction::Start),
            TurnKind::BuiltIn => self.go_on(
                AdmissionPhase::LoadingProvider,
                AdmissionAction::LoadProvider,
            ),
        }
    }

    /// Takes the answer to the last action and says what to do.
    pub fn step(&mut self, input: AdmissionInput) -> (actions: Vec<AdmissionAction>)
        requires
            admission_inv(old(self)@),
        ensures
            admission_inv(final(self)@),
            (final(self)@, views(actions@)) == admission_step(old(self)@, input@),
    {
        let none: Vec<AdmissionAction> = Vec::new();
        assert(views(none@) =~= Seq::empty());
        match (self.phase, input) {
            (AdmissionPhase::LoadingSession, AdmissionInput::SessionLoaded(loaded)) => match loaded {
                Err(error) => self.refuse(error),
                Ok(None) => self.refuse(
                    "Agent session not found. Please switch to Agent mode first.".to_owned(),
                ),
                Ok(Some(session)) => {
                    self.session = Some(session);
                    self.go_on(AdmissionPhase::CheckingRunning, AdmissionAction::CheckRunning)
                },
            },
            (AdmissionPhase::CheckingRunning, AdmissionInput::RunningChecked(running)) => {
                if running {
                    return self.refuse("Agent is already running".to_owned());
                }
                let session_id = match &self.session {
                    Some(session) => session.id.clone(),
                    None => String::new(),
                };
                self.go_on(
                    AdmissionPhase::MarkingRunning,
                    AdmissionAction::MarkRunning { session_id },
                )
            },
            (AdmissionPhase::MarkingRunning, AdmissionInput::RunningMarked(error)) => {
                let prompt = self.prompt.clone();
                self.go_on_unless(
                    error,
                    AdmissionPhase::SavingPrompt,
                    AdmissionAction::SavePrompt { prompt },
                )
            },
            (AdmissionPhase::SavingPrompt, AdmissionInput::PromptSaved(saved)) => match saved {
                Err(error) => self.refuse(error),
                Ok(message) => {
                    self.user_message = Some(message);
                    self.go_on(
                        AdmissionPhase::LoadingConversation,
                        AdmissionAction::LoadConversation,
                    )
                },
            },
            (AdmissionPhase::LoadingConversation, AdmissionInput::ConversationLoaded(loaded)) =>
                match loaded {
                    Err(error) => self.refuse(error),
                    Ok(count) => {
                        self.first_message = count <= 1;
                        self.go_on(
                            AdmissionPhase::CountingMessage,
                            AdmissionAction::CountMessage,
                        )
                    },
                },
            (AdmissionPhase::CountingMessage, AdmissionInput::MessageCounted(error)) => match error {
                Some(error) => self.refuse(error),
                None => {
                    if self.first_message {
                        let title = fallback_title(self.prompt.as_str());
                        self.go_on(
                            AdmissionPhase::SavingTitle,
                            AdmissionAction::SaveTitle { title },
                        )
                    } else {
                        self.go_on_after_prompt()
                    }
                },
            },
            (AdmissionPhase::SavingTitle, AdmissionInput::TitleSaved(error)) => match error {
                Some(_) => self.go_on_after_prompt(),
                None => {
                    let mut actions: Vec<AdmissionAction> = Vec::new();
                    actions.push(
                        AdmissionAction::Emit(
                            FrontendEvent::TitleUpdated(
                                TitleUpdatedPayload {
                                    conversation_id: self.conversation_id.clone(),
                                    title: fallback_title(self.prompt.as_str()),
                                },
                            ),
                        ),
                    );
                    let ghost first = views(actions@);
                    let mut rest = self.go_on_after_prompt();
                    let ghost last = views(rest@);
                    actions.append(&mut rest);
                    assert(views(actions@) =~= first + last);
                    assert(views(actions@) =~= admission_step(old(self)@, input@).1);
                    actions
                },
            },
            (AdmissionPhase::LoadingProvider, AdmissionInput::ProviderLoaded(loaded)) => match loaded {
                Err(error) => self.refuse(error),
                Ok(kind) => {
                    self.provider = Some(kind);
                    self.go_on(AdmissionPhase::LoadingKey, AdmissionAction::LoadKey)
                },
            },
            (AdmissionPhase::LoadingKey, AdmissionInput::KeyLoaded(error)) => self.go_on_unless(
                error,
                AdmissionPhase::DecryptingKey,
                AdmissionAction::DecryptKey,
            ),
            (AdmissionPhase::DecryptingKey, AdmissionInput::KeyDecrypted(error)) => {
                if let Some(error) = error {
                    return self.refuse(error);
                }
                match self.provider {
                    Some(kind) => match create_adapter(&kind) {
                        Ok(adapter) => self.go_on(
                            AdmissionPhase::BuildingBridge,
                            AdmissionAction::BuildBridge {
                                adapter,
                                provider: provider_type_to_registry_key(&kind),
                            },
                        ),
                        Err(error) => self.refuse(error),
                    },
                    None => none,
                }
            },
            (AdmissionPhase::BuildingBridge, AdmissionInput::BridgeBuilt(error)) =>
                self.go_on_unless(
                    error,
                    AdmissionPhase::ReloadingConversation,
                    AdmissionAction::ReloadConversation,
                ),
            (AdmissionPhase::ReloadingConversation, AdmissionInput::ConversationReloaded(error)) =>
                self.go_on_unless(
                    error,
                    AdmissionPhase::BuildingAgent,
                    AdmissionAction::BuildAgent,
                ),
            (AdmissionPhase::BuildingAgent, AdmissionInput::AgentBuilt(error)) =>
                self.go_on_unless(error, AdmissionPhase::Admitted, AdmissionAction::Start),
            _ => none,
        }
    }
}

} // verus!
