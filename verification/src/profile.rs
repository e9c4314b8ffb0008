//! Agent profiles: how a conversation gets one, and how a profile and its runs are shown as a
//! session.
use vstd::prelude::*;
use vstd::string::*;

use crate::location::{two_below, Location, LocationView};
use crate::payload::UsdCost;
use crate::session::{AgentSession, SessionView};
use crate::text::{opt_view, same_text};

verus! {

/// The place of a conversation's workspace, below the home directory of the application.
pub open spec fn workspace_place<B>(home: B, conversation_id: Seq<char>) -> LocationView<B> {
    LocationView::Below { base: home, steps: seq!["workspace"@, conversation_id] }
}

/// The workspace that a conversation gets by default.
pub fn default_workspace_root<'a, B>(home: &'a B, conversation_id: &str) -> (place: Location<'a, B>)
    ensures
        place@ == workspace_place(*home, conversation_id@),
{
    two_below(home, "workspace", conversation_id)
}

/// What is known of the workspace of a conversation.
pub enum WorkspaceInput {
    /// The workspace is wanted.
    Requested,
    /// The answer to `Create`.
    Created(Result<(), String>),
    /// The answer to `ShowPath`: the path, unless it is no Unicode.
    PathShown(Option<String>),
}

/// What is known, its texts as sequences of characters.
pub enum WorkspaceInputView {
    Requested,
    Created(Result<(), Seq<char>>),
    PathShown(Option<Seq<char>>),
}

impl View for WorkspaceInput {
    type V = WorkspaceInputView;

    open spec fn view(&self) -> WorkspaceInputView {
        match self {
            WorkspaceInput::Requested => WorkspaceInputView::Requested,
            WorkspaceInput::Created(Ok(_)) => WorkspaceInputView::Created(Ok(())),
            WorkspaceInput::Created(Err(error)) => WorkspaceInputView::Created(Err(error@)),
            WorkspaceInput::PathShown(path) => WorkspaceInputView::PathShown(opt_view(*path)),
        }
    }
}

/// Something to do for the workspace of a conversation.
pub enum WorkspaceAction<'a, B> {
    /// Create a directory and those above it, if they do not exist; answered by `Created`.
    Create(Location<'a, B>),
    /// Write the path of a place as text; answered by `PathShown`.
    ShowPath(Location<'a, B>),
    /// The path of the workspace, or why there is none.
    Finish(Result<String, String>),
}

/// An action, its texts as sequences of characters.
pub enum WorkspaceActionView<B> {
    Create(LocationView<B>),
    ShowPath(LocationView<B>),
    Finish(Result<Seq<char>, Seq<char>>),
}

impl<'a, B> View for WorkspaceAction<'a, B> {
    type V = WorkspaceActionView<B>;

    open spec fn view(&self) -> WorkspaceActionView<B> {
        match self {
            WorkspaceAction::Create(place) => WorkspaceActionView::Create(place@),
            WorkspaceAction::ShowPath(place) => WorkspaceActionView::ShowPath(place@),
            WorkspaceAction::Finish(Ok(path)) => WorkspaceActionView::Finish(Ok(path@)),
            WorkspaceAction::Finish(Err(error)) => WorkspaceActionView::Finish(Err(error@)),
        }
    }
}

/// What to do for the workspace of a conversation: it is created at its place, and the user is
/// told the path of that place.
pub open spec fn workspace_next<B>(
    home: B,
    conversation_id: Seq<char>,
    input: WorkspaceInputView,
) -> WorkspaceActionView<B> {
    match input {
        WorkspaceInputView::Requested => WorkspaceActionView::Create(
            workspace_place(home, conversation_id),
        ),
        WorkspaceInputView::Created(Ok(_)) => WorkspaceActionView::ShowPath(
            workspace_place(home, conversation_id),
        ),
        WorkspaceInputView::Created(Err(error)) => WorkspaceActionView::Finish(
            Err("Failed to create workspace: "@ + error),
        ),
        WorkspaceInputView::PathShown(Some(path)) => WorkspaceActionView::Finish(Ok(path)),
        WorkspaceInputView::PathShown(None) => WorkspaceActionView::Finish(
            Err("Invalid path encoding"@),
        ),
    }
}

/// Takes what is known of the workspace of a conversation and says what to do.
pub fn agent_ensure_workspace<'a, B>(
    home: &'a B,
    conversation_id: &str,
    input: WorkspaceInput,
) -> (action: WorkspaceAction<'a, B>)
    ensures
        action@ == workspace_next(*home, conversation_id@, input@),
{
    match input {
        WorkspaceInput::Requested => WorkspaceAction::Create(
            default_workspace_root(home, conversation_id),
        ),
        WorkspaceInput::Created(Ok(_)) => WorkspaceAction::ShowPath(
            default_workspace_root(home, conversation_id),
        ),
        WorkspaceInput::Created(Err(error)) => {
            let mut message = "Failed to create workspace: ".to_owned();
            message.append(error.as_str());
            WorkspaceAction::Finish(Err(message))
        },
        WorkspaceInput::PathShown(Some(path)) => WorkspaceAction::Finish(Ok(path)),
        WorkspaceInput::PathShown(None) => WorkspaceAction::Finish(
            Err("Invalid path encoding".to_owned()),
        ),
    }
}

/// All actions for the workspace of a conversation, given whether it could be created and what
/// its path is.
pub open spec fn workspace_run<B>(
    home: B,
    conversation_id: Seq<char>,
    created: Result<(), Seq<char>>,
    path: Option<Seq<char>>,
) -> Seq<WorkspaceActionView<B>> {
    let first = workspace_next(home, conversation_id, WorkspaceInputView::Requested);
    let second = workspace_next(home, conversation_id, WorkspaceInputView::Created(created));
    if second is ShowPath {
        seq![
            first,
            second,
            workspace_next(home, conversation_id, WorkspaceInputView::PathShown(path)),
        ]
    } else {
        seq![first, second]
    }
}

/// The directory that is made is the default workspace of the conversation. A path is told
/// only where that directory could be made, and it is the path of the same place; else the user
/// is told what went wrong.
pub proof fn a_told_workspace_was_made<B>(
    home: B,
    conversation_id: Seq<char>,
    created: Result<(), Seq<char>>,
    path: Option<Seq<char>>,
)
    ensures
        ({
            let actions = workspace_run(home, conversation_id, created, path);
            let place = workspace_place(home, conversation_id);
            &&& actions[0] == WorkspaceActionView::Create(place)
            &&& match actions.last() {
                WorkspaceActionView::Finish(Ok(told)) => {
                    &&& created is Ok
                    &&& actions.len() == 3 && actions[1] == WorkspaceActionView::ShowPath(place)
                    &&& path == Some(told)
                },
                WorkspaceActionView::Finish(Err(message)) => {
                    ||| created matches Err(error) && message == "Failed to create workspace: "@
                        + error
                    ||| created is Ok && path is None && message == "Invalid path encoding"@
                },
                _ => false,
            }
        }),
{
}

// ---------------------------------------------------------------------------------------
// Getting a profile
// ---------------------------------------------------------------------------------------

/// The answer to an action. A profile `P` is carried and never looked into.
pub enum ProfileInput<P> {
    /// The stored profile of the conversation.
    ProfileLoaded(Result<Option<P>, String>),
    /// The answer to `LoadSession`.
    SessionLoaded(Result<Option<AgentSession>, String>),
    /// The answer to `FromSession` or `Create`.
    ProfileStored(Result<P, String>),
}

/// Something to do for a profile.
pub enum ProfileAction<'a, B, P> {
    /// Load the session of the conversation; answered by `SessionLoaded`.
    LoadSession,
    /// Store a profile made of the session; answered by `ProfileStored`.
    FromSession(AgentSession),
    /// Store a new profile; answered by `ProfileStored`.
    Create { workspace: Location<'a, B>, permission_mode: &'static str, runtime: &'static str },
    /// The profile, or why there is none.
    Finish(Result<P, String>),
}

/// Whether an action is the one that an answer leads to: a stored profile is used as it is, an
/// existing session is turned into one, and only then a new one is made.
pub open spec fn profile_next<B, P>(
    home: B,
    conversation_id: Seq<char>,
    input: ProfileInput<P>,
    action: ProfileAction<B, P>,
) -> bool {
    match input {
        ProfileInput::ProfileLoaded(Err(error)) => action matches ProfileAction::Finish(
            Err(shown),
        ) && shown@ == error@,
        ProfileInput::ProfileLoaded(Ok(Some(profile))) => action == ProfileAction::Finish::<B, P>(
            Ok(profile),
        ),
        ProfileInput::ProfileLoaded(Ok(None)) => action is LoadSession,
        ProfileInput::SessionLoaded(Err(error)) => action matches ProfileAction::Finish(
            Err(shown),
        ) && shown@ == error@,
        ProfileInput::SessionLoaded(Ok(Some(session))) => action matches ProfileAction::FromSession(
            source,
        ) && source@ == session@,
        ProfileInput::SessionLoaded(Ok(None)) => action matches ProfileAction::Create {
            workspace,
            permission_mode,
            runtime,
        } && workspace@ == workspace_place(home, conversation_id) && permission_mode@ == "default"@
            && runtime@ == "sdk"@,
        ProfileInput::ProfileStored(Ok(profile)) => action == ProfileAction::Finish::<B, P>(
            Ok(profile),
        ),
        ProfileInput::ProfileStored(Err(error)) => action matches ProfileAction::Finish(
            Err(shown),
        ) && shown@ == error@,
    }
}

/// Takes the stored profile of a conversation, and then the answer to the last action, and
/// says what to do.
pub fn get_or_create_profile<'a, B, P>(
    home: &'a B,
    conversation_id: &str,
    input: ProfileInput<P>,
) -> (action: ProfileAction<'a, B, P>)
    ensures
        profile_next(*home, conversation_id@, input, action),
{
    match input {
        ProfileInput::ProfileLoaded(Err(error)) => ProfileAction::Finish(Err(error)),
        ProfileInput::ProfileLoaded(Ok(Some(profile))) => ProfileAction::Finish(Ok(profile)),
        ProfileInput::ProfileLoaded(Ok(None)) => ProfileAction::LoadSession,
        ProfileInput::SessionLoaded(Err(error)) => ProfileAction::Finish(Err(error)),
        ProfileInput::SessionLoaded(Ok(Some(session))) => ProfileAction::FromSession(session),
        ProfileInput::SessionLoaded(Ok(None)) => ProfileAction::Create {
            workspace: default_workspace_root(home, conversation_id),
            permission_mode: "default",
            runtime: "sdk",
        },
        ProfileInput::ProfileStored(stored) => ProfileAction::Finish(stored),
    }
}

/// A profile is made from the session only where none is stored, and from the defaults only
/// where there is no session either; a stored one is handed out as it is.
pub proof fn a_profile_is_made_only_where_none_is_stored<B, P>(
    home: B,
    conversation_id: Seq<char>,
    input: ProfileInput<P>,
    action: ProfileAction<B, P>,
)
    requires
        profile_next(home, conversation_id, input, action),
    ensures
        action is Create <==> (input matches ProfileInput::SessionLoaded(Ok(None))),
        action is FromSession <==> (input matches ProfileInput::SessionLoaded(Ok(Some(_)))),
        action is LoadSession <==> (input matches ProfileInput::ProfileLoaded(Ok(None))),
        input matches ProfileInput::ProfileLoaded(Ok(Some(profile))) ==> action
            == ProfileAction::Finish::<B, P>(Ok(profile)),
{
}

/// Takes the stored profile and says whether the session is to be updated too. An error of
/// that update is no error of the profile's.
pub fn update_profile_from_legacy_inputs<P>(stored: Result<P, String>) -> (result: (
    bool,
    Result<P, String>,
))
    ensures
        result.1 == stored,
        result.0 == (stored is Ok),
{
    (stored.is_ok(), stored)
}

// ---------------------------------------------------------------------------------------
// A profile as a session
// ---------------------------------------------------------------------------------------

/// What a session shows of a profile.
#[derive(Debug)]
pub struct AgentProfile {
    pub id: String,
    pub conversation_id: String,
    pub workspace_root: Option<String>,
    pub permission_mode: String,
    pub created_at: String,
    pub updated_at: String,
}

/// A profile, its texts as sequences of characters.
pub struct ProfileView {
    pub id: Seq<char>,
    pub conversation_id: Seq<char>,
    pub workspace_root: Option<Seq<char>>,
    pub permission_mode: Seq<char>,
    pub created_at: Seq<char>,
    pub updated_at: Seq<char>,
}

impl View for AgentProfile {
    type V = ProfileView;

    open spec fn view(&self) -> ProfileView {
        ProfileView {
            id: self.id@,
            conversation_id: self.conversation_id@,
            workspace_root: opt_view(self.workspace_root),
            permission_mode: self.permission_mode@,
            created_at: self.created_at@,
            updated_at: self.updated_at@,
        }
    }
}

/// What a session shows of the latest run of a conversation.
#[derive(Debug)]
pub struct LatestRun {
    pub status: String,
    pub sdk_context_json: Option<String>,
    pub started_at: String,
    pub finished_at: Option<String>,
}

/// A run, its texts as sequences of characters.
pub struct LatestRunView {
    pub status: Seq<char>,
    pub sdk_context_json: Option<Seq<char>>,
    pub started_at: Seq<char>,
    pub finished_at: Option<Seq<char>>,
}

impl View for LatestRun {
    type V = LatestRunView;

    open spec fn view(&self) -> LatestRunView {
        LatestRunView {
            status: self.status@,
            sdk_context_json: opt_view(self.sdk_context_json),
            started_at: self.started_at@,
            finished_at: opt_view(self.finished_at),
        }
    }
}

/// The status of a session whose latest run has a status.
pub open spec fn session_status(status: Seq<char>) -> Seq<char> {
    if status == "queued"@ || status == "starting"@ || status == "running"@ {
        "running"@
    } else if status == "waiting_approval"@ || status == "waiting_input"@ {
        "waiting_approval"@
    } else if status == "failed"@ {
        "error"@
    } else if status == "completed"@ {
        "completed"@
    } else if status == "cancelled"@ {
        "idle"@
    } else {
        status
    }
}

/// Maps the status of a run to that of its session.
pub fn map_run_status(status: &str) -> (mapped: String)
    ensures
        mapped@ == session_status(status@),
{
    let known = if same_text(status, "queued") || same_text(status, "starting") || same_text(
        status,
        "running",
    ) {
        "running"
    } else if same_text(status, "waiting_approval") || same_text(status, "waiting_input") {
        "waiting_approval"
    } else if same_text(status, "failed") {
        "error"
    } else if same_text(status, "completed") {
        "completed"
    } else if same_text(status, "cancelled") {
        "idle"
    } else {
        status
    };
    known.to_owned()
}

/// A number of tokens, brought into the range of a session's counter.
pub open spec fn clamped_tokens(tokens: i64) -> int {
    if tokens < i32::MIN {
        i32::MIN as int
    } else if tokens > i32::MAX {
        i32::MAX as int
    } else {
        tokens as int
    }
}

fn clamp_tokens(tokens: i64) -> (clamped: i32)
    ensures
        clamped == clamped_tokens(tokens),
{
    if tokens < i32::MIN as i64 {
        i32::MIN
    } else if tokens > i32::MAX as i64 {
        i32::MAX
    } else {
        tokens as i32
    }
}

/// The session that shows a profile, its latest run and the usage of all its runs.
pub open spec fn compat_view(
    profile: ProfileView,
    run: Option<LatestRunView>,
    tokens: i64,
    cost: UsdCost,
) -> SessionView {
    SessionView {
        id: profile.id,
        conversation_id: profile.conversation_id,
        cwd: profile.workspace_root,
        permission_mode: profile.permission_mode,
        runtime_status: match run {
            Some(run) => session_status(run.status),
            None => "idle"@,
        },
        sdk_context_json: match run {
            Some(run) => run.sdk_context_json,
            None => None,
        },
        sdk_context_backup_json: None,
        total_tokens: clamped_tokens(tokens) as i32,
        total_cost_usd: cost,
        created_at: profile.created_at,
        updated_at: match run {
            Some(run) => match run.finished_at {
                Some(time) => time,
                None => run.started_at,
            },
            None => profile.updated_at,
        },
    }
}

/// Shows a profile, its latest run and the usage of all its runs as a session.
pub fn compat_session(
    profile: AgentProfile,
    run: Option<LatestRun>,
    tokens: i64,
    cost: UsdCost,
) -> (session: AgentSession)
    ensures
        session@ == compat_view(profile@, opt_view(run), tokens, cost),
{
    let (runtime_status, sdk_context_json, updated_at) = match run {
        Some(run) => (
            map_run_status(run.status.as_str()),
            run.sdk_context_json,
            match run.finished_at {
                Some(time) => time,
                None => run.started_at,
            },
        ),
        None => ("idle".to_owned(), None, profile.updated_at),
    };
    AgentSession {
        id: profile.id,
        conversation_id: profile.conversation_id,
        cwd: profile.workspace_root,
        permission_mode: profile.permission_mode,
        runtime_status,
        sdk_context_json,
        sdk_context_backup_json: None,
        total_tokens: clamp_tokens(tokens),
        total_cost_usd: cost,
        created_at: profile.created_at,
        updated_at,
    }
}

/// What has been found out for a session so far.
#[allow(inconsistent_fields)]
pub enum CompatInput {
    /// The profile of the conversation.
    ProfileFound(Result<AgentProfile, String>),
    /// The answer to `LoadRun`.
    RunLoaded { profile: AgentProfile, run: Result<Option<LatestRun>, String> },
    /// The answer to `LoadUsage`: the tokens and the cost of all runs.
    UsageLoaded {
        profile: AgentProfile,
        run: Option<LatestRun>,
        usage: Result<(i64, UsdCost), String>,
    },
}

/// What to find out next.
pub enum CompatAction {
    /// Load the latest run of the conversation; answered by `RunLoaded`.
    LoadRun(AgentProfile),
    /// Add up the usage of the conversation; answered by `UsageLoaded`.
    LoadUsage { profile: AgentProfile, run: Option<LatestRun> },
    /// The session, or why there is none.
    Finish(Result<Option<AgentSession>, String>),
}

/// Whether an action is the one that an answer leads to. A conversation with no profile has no
/// session, which is no error.
pub open spec fn compat_next(input: CompatInput, action: CompatAction) -> bool {
    match input {
        CompatInput::ProfileFound(Err(_)) => action matches CompatAction::Finish(Ok(None)),
        CompatInput::ProfileFound(Ok(profile)) => action matches CompatAction::LoadRun(kept)
            && kept@ == profile@,
        CompatInput::RunLoaded { profile: _, run: Err(error) } => action
            matches CompatAction::Finish(Err(shown)) && shown@ == error@,
        CompatInput::RunLoaded { profile, run: Ok(run) } => action
            matches CompatAction::LoadUsage { profile: kept, run: kept_run } && kept@ == profile@
            && opt_view(kept_run) == opt_view(run),
        CompatInput::UsageLoaded { profile: _, run: _, usage: Err(error) } => action
            matches CompatAction::Finish(Err(shown)) && shown@ == error@,
        CompatInput::UsageLoaded { profile, run, usage: Ok((tokens, cost)) } => action
            matches CompatAction::Finish(Ok(Some(session))) && session@ == compat_view(
            profile@,
            opt_view(run),
            tokens,
            cost,
        ),
    }
}

/// Takes what has been found out for a session and says what to find out next.
pub fn get_compat_session(input: CompatInput) -> (action: CompatAction)
    ensures
        compat_next(input, action),
{
    match input {
        CompatInput::ProfileFound(Err(_)) => CompatAction::Finish(Ok(None)),
        CompatInput::ProfileFound(Ok(profile)) => CompatAction::LoadRun(profile),
        CompatInput::RunLoaded { profile: _, run: Err(error) } => CompatAction::Finish(Err(error)),
        CompatInput::RunLoaded { profile, run: Ok(run) } => CompatAction::LoadUsage {
            profile,
            run,
        },
        CompatInput::UsageLoaded { profile: _, run: _, usage: Err(error) } => CompatAction::Finish(
            Err(error),
        ),
        CompatInput::UsageLoaded { profile, run, usage: Ok((tokens, cost)) } =>
            CompatAction::Finish(Ok(Some(compat_session(profile, run, tokens, cost)))),
    }
}

/// Mapping a status twice is mapping it once.
pub proof fn status_mapping_is_stable(status: Seq<char>)
    ensures
        session_status(session_status(status)) == session_status(status),
{
    reveal_strlit("running");
    reveal_strlit("queued");
    reveal_strlit("starting");
    reveal_strlit("waiting_approval");
    reveal_strlit("waiting_input");
    reveal_strlit("failed");
    reveal_strlit("error");
    reveal_strlit("completed");
    reveal_strlit("cancelled");
    reveal_strlit("idle");
    assert("error"@.len() == 5);
    assert("idle"@.len() == 4);
    assert("running"@.len() == 7);
    assert("queued"@.len() == 6);
    assert("starting"@.len() == 8);
    assert("waiting_approval"@.len() == 16);
    assert("waiting_input"@.len() == 13);
    assert("failed"@.len() == 6);
    assert("completed"@.len() == 9);
    assert("cancelled"@.len() == 9);
    assert("completed"@[1] == 'o');
    assert("cancelled"@[1] == 'a');
}

/// A session shows no more tokens than its counter can hold, and small totals as they are.
pub proof fn shown_tokens_are_in_range(tokens: i64)
    ensures
        i32::MIN <= clamped_tokens(tokens) <= i32::MAX,
        i32::MIN <= tokens <= i32::MAX ==> clamped_tokens(tokens) == tokens,
{
}

/// The workspace of a conversation is a directory of its own below the home directory.
pub proof fn a_workspace_belongs_to_its_conversation<B>(
    home: B,
    conversation_id: Seq<char>,
    other: Seq<char>,
)
    ensures
        workspace_place(home, conversation_id) == (LocationView::Below {
            base: home,
            steps: seq!["workspace"@, conversation_id],
        }),
        workspace_place(home, conversation_id) == workspace_place(home, other) ==> conversation_id
            == other,
{
    if workspace_place(home, conversation_id) == workspace_place(home, other) {
        assert(seq!["workspace"@, conversation_id][1] == seq!["workspace"@, other][1]);
    }
}

/// A profile that is made of a session is made of that very session; a new one works in the
/// workspace of its conversation and asks before it acts; and an error is told as it is.
pub proof fn a_profile_is_made_of_what_was_found<B, P>(
    home: B,
    conversation_id: Seq<char>,
    input: ProfileInput<P>,
    action: ProfileAction<B, P>,
)
    requires
        profile_next(home, conversation_id, input, action),
    ensures
        match (input, action) {
            (ProfileInput::SessionLoaded(Ok(Some(session))), ProfileAction::FromSession(source)) =>
                source@ == session@,
            (
                ProfileInput::SessionLoaded(Ok(None)),
                ProfileAction::Create { workspace, permission_mode, runtime },
            ) => {
                &&& workspace@ == (LocationView::Below {
                    base: home,
                    steps: seq!["workspace"@, conversation_id],
                })
                &&& permission_mode@ == "default"@
                &&& runtime@ == "sdk"@
            },
            (ProfileInput::ProfileLoaded(Ok(None)), ProfileAction::LoadSession) => true,
            (ProfileInput::ProfileLoaded(Ok(Some(profile))), ProfileAction::Finish(Ok(told))) =>
                told == profile,
            (ProfileInput::ProfileStored(Ok(profile)), ProfileAction::Finish(Ok(told))) => told
                == profile,
            (ProfileInput::ProfileLoaded(Err(error)), ProfileAction::Finish(Err(told))) => told@
                == error@,
            (ProfileInput::SessionLoaded(Err(error)), ProfileAction::Finish(Err(told))) => told@
                == error@,
            (ProfileInput::ProfileStored(Err(error)), ProfileAction::Finish(Err(told))) => told@
                == error@,
            _ => false,
        },
{
}

/// A session is running while its run is on its way, waits while its run does, is in error where
/// the run failed, completed where it is, and idle once it was cancelled; any other status is
/// shown as it is.
pub proof fn a_session_shows_how_its_run_is_doing(status: Seq<char>)
    ensures
        ({
            let shown = session_status(status);
            let runs = status == "queued"@ || status == "starting"@ || status == "running"@;
            let waits = status == "waiting_approval"@ || status == "waiting_input"@;
            &&& shown == "running"@ <==> runs
            &&& shown == "waiting_approval"@ <==> waits
            &&& shown == "error"@ <==> status == "failed"@ || status == "error"@
            &&& shown == "completed"@ <==> status == "completed"@
            &&& shown == "idle"@ <==> status == "cancelled"@ || status == "idle"@
            &&& !runs && !waits && status != "failed"@ && status != "cancelled"@ ==> shown
                == status
        }),
{
    reveal_strlit("running");
    reveal_strlit("queued");
    reveal_strlit("starting");
    reveal_strlit("waiting_approval");
    reveal_strlit("waiting_input");
    reveal_strlit("failed");
    reveal_strlit("error");
    reveal_strlit("completed");
    reveal_strlit("cancelled");
    reveal_strlit("idle");
    assert("error"@.len() == 5);
    assert("idle"@.len() == 4);
    assert("running"@.len() == 7);
    assert("queued"@.len() == 6);
    assert("starting"@.len() == 8);
    assert("waiting_approval"@.len() == 16);
    assert("waiting_input"@.len() == 13);
    assert("failed"@.len() == 6 && "failed"@[0] == 'f');
    assert("queued"@[0] == 'q');
    assert("completed"@.len() == 9 && "completed"@[1] == 'o');
    assert("cancelled"@.len() == 9 && "cancelled"@[1] == 'a');
}

/// A session shows its profile, the context and the status of the latest run, and when that run
/// was finished or else started; without a run it is idle and as old as its profile.
pub proof fn a_session_shows_its_profile_and_run(
    profile: ProfileView,
    run: LatestRunView,
    tokens: i64,
    cost: UsdCost,
)
    ensures
        ({
            let shown = compat_view(profile, Some(run), tokens, cost);
            let idle = compat_view(profile, None, tokens, cost);
            &&& shown.id == profile.id && idle.id == profile.id
            &&& shown.conversation_id == profile.conversation_id && idle.conversation_id
                == profile.conversation_id
            &&& shown.cwd == profile.workspace_root && idle.cwd == profile.workspace_root
            &&& shown.permission_mode == profile.permission_mode && idle.permission_mode
                == profile.permission_mode
            &&& shown.created_at == profile.created_at && idle.created_at == profile.created_at
            &&& shown.total_cost_usd == cost && idle.total_cost_usd == cost
            &&& shown.sdk_context_backup_json is None && idle.sdk_context_backup_json is None
            &&& shown.runtime_status == session_status(run.status)
            &&& idle.runtime_status == "idle"@
            &&& shown.sdk_context_json == run.sdk_context_json && idle.sdk_context_json is None
            &&& run.finished_at matches Some(time) ==> shown.updated_at == time
            &&& run.finished_at is None ==> shown.updated_at == run.started_at
            &&& idle.updated_at == profile.updated_at
            &&& shown.total_tokens == idle.total_tokens
            &&& tokens > i32::MAX ==> shown.total_tokens == i32::MAX
            &&& tokens < i32::MIN ==> shown.total_tokens == i32::MIN
            &&& i32::MIN <= tokens <= i32::MAX ==> shown.total_tokens == tokens
        }),
{
}

/// A conversation without a profile has no session, and that is no error; every later error is
/// told as it is, and what was found stays with the search for the rest.
pub proof fn a_session_is_found_step_by_step(input: CompatInput, action: CompatAction)
    requires
        compat_next(input, action),
    ensures
        match (input, action) {
            (CompatInput::ProfileFound(Err(_)), CompatAction::Finish(Ok(None))) => true,
            (CompatInput::ProfileFound(Ok(profile)), CompatAction::LoadRun(kept)) => kept@
                == profile@,
            (
                CompatInput::RunLoaded { profile, run: Ok(run) },
                CompatAction::LoadUsage { profile: kept, run: latest },
            ) => kept@ == profile@ && opt_view(latest) == opt_view(run),
            (
                CompatInput::RunLoaded { run: Err(error), .. },
                CompatAction::Finish(Err(told)),
            ) => told@ == error@,
            (
                CompatInput::UsageLoaded { usage: Err(error), .. },
                CompatAction::Finish(Err(told)),
            ) => told@ == error@,
            (
                CompatInput::UsageLoaded { profile, usage: Ok(_), .. },
                CompatAction::Finish(Ok(Some(session))),
            ) => session@.id == profile@.id && session@.conversation_id
                == profile@.conversation_id,
            _ => false,
        },
{
}

} // verus!
