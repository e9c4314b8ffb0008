//! The cancellation of an agent.
use vstd::prelude::*;
use vstd::string::*;

use crate::session::{AgentSession, SessionView};
use crate::text::{opt_view, views};

verus! {

/// The answer to an action.
pub enum CancelInput {
    /// The answer to `LoadSession`.
    SessionLoaded(Result<Option<AgentSession>, String>),
    /// The answer to `SetIdle`: the error, where there was one.
    IdleSet(Option<String>),
}

/// An answer, its texts as sequences of characters.
pub enum CancelInputView {
    SessionLoaded(Result<Option<SessionView>, Seq<char>>),
    IdleSet(Option<Seq<char>>),
}

impl View for CancelInput {
    type V = CancelInputView;

    open spec fn view(&self) -> CancelInputView {
        match self {
            CancelInput::SessionLoaded(Ok(session)) => CancelInputView::SessionLoaded(
                Ok(opt_view(*session)),
            ),
            CancelInput::SessionLoaded(Err(error)) => CancelInputView::SessionLoaded(Err(error@)),
            CancelInput::IdleSet(error) => CancelInputView::IdleSet(opt_view(*error)),
        }
    }
}

/// Something to do for a cancellation.
pub enum CancelAction {
    /// Mark a session as idle; answered by `IdleSet`.
    SetIdle { session_id: String },
    /// Take the cancellation token of the conversation, and cancel it where there is one.
    CancelToken,
    /// Whatever runs for the conversation no longer counts as running.
    StopRunning,
    /// The result of the cancellation: the error, where there was one.
    Finish(Option<String>),
}

/// An action, its texts as sequences of characters.
pub enum CancelActionView {
    SetIdle { session_id: Seq<char> },
    CancelToken,
    StopRunning,
    Finish(Option<Seq<char>>),
}

impl View for CancelAction {
    type V = CancelActionView;

    open spec fn view(&self) -> CancelActionView {
        match self {
            CancelAction::SetIdle { session_id } => CancelActionView::SetIdle {
                session_id: session_id@,
            },
            CancelAction::CancelToken => CancelActionView::CancelToken,
            CancelAction::StopRunning => CancelActionView::StopRunning,
            CancelAction::Finish(error) => CancelActionView::Finish(opt_view(*error)),
        }
    }
}

/// What an answer leads to.
pub open spec fn cancel_actions(input: CancelInputView) -> Seq<CancelActionView> {
    match input {
        CancelInputView::SessionLoaded(Err(error)) => seq![CancelActionView::Finish(Some(error))],
        CancelInputView::SessionLoaded(Ok(None)) => seq![
            CancelActionView::Finish(Some("Agent session not found"@)),
        ],
        CancelInputView::SessionLoaded(Ok(Some(session))) => seq![
            CancelActionView::SetIdle { session_id: session.id },
        ],
        CancelInputView::IdleSet(Some(error)) => seq![CancelActionView::Finish(Some(error))],
        CancelInputView::IdleSet(None) => seq![
            CancelActionView::CancelToken,
            CancelActionView::StopRunning,
            CancelActionView::Finish(None),
        ],
    }
}

/// Takes the session of the conversation, and then the answer to the last action, and says
/// what to do.
pub fn agent_cancel(input: CancelInput) -> (actions: Vec<CancelAction>)
    ensures
        views(actions@) == cancel_actions(input@),
{
    let mut actions: Vec<CancelAction> = Vec::new();
    match input {
        CancelInput::SessionLoaded(Err(error)) => {
            actions.push(CancelAction::Finish(Some(error)));
        },
        CancelInput::SessionLoaded(Ok(None)) => {
            actions.push(CancelAction::Finish(Some("Agent session not found".to_owned())));
        },
        CancelInput::SessionLoaded(Ok(Some(session))) => {
            actions.push(CancelAction::SetIdle { session_id: session.id });
        },
        CancelInput::IdleSet(Some(error)) => {
            actions.push(CancelAction::Finish(Some(error)));
        },
        CancelInput::IdleSet(None) => {
            actions.push(CancelAction::CancelToken);
            actions.push(CancelAction::StopRunning);
            actions.push(CancelAction::Finish(None));
        },
    }
    assert(views(actions@) =~= cancel_actions(input@));
    actions
}

/// A cancellation that fails stops no agent, and one that succeeds stops the agent before it
/// reports success.
pub proof fn cancellation_is_all_or_nothing(input: CancelInputView)
    ensures
        ({
            let actions = cancel_actions(input);
            &&& actions.contains(CancelActionView::StopRunning) <==> actions.last()
                == CancelActionView::Finish(None)
            &&& actions.contains(CancelActionView::CancelToken) <==> actions.contains(
                CancelActionView::StopRunning,
            )
            &&& actions.last() == CancelActionView::Finish(None) <==> input
                == CancelInputView::IdleSet(None)
        }),
{
    let actions = cancel_actions(input);
    if input == CancelInputView::IdleSet(None) {
        assert(actions[0] == CancelActionView::CancelToken);
        assert(actions[1] == CancelActionView::StopRunning);
    }
}

/// A session that is there is set idle, and the error of a step that fails is the error of the
/// cancellation.
pub proof fn a_cancellation_reports_its_errors(
    session: SessionView,
    error: Seq<char>,
)
    ensures
        cancel_actions(CancelInputView::SessionLoaded(Ok(Some(session)))) == seq![
            CancelActionView::SetIdle { session_id: session.id },
        ],
        cancel_actions(CancelInputView::SessionLoaded(Ok(None))) == seq![
            CancelActionView::Finish(Some("Agent session not found"@)),
        ],
        cancel_actions(CancelInputView::SessionLoaded(Err(error))) == seq![
            CancelActionView::Finish(Some(error)),
        ],
        cancel_actions(CancelInputView::IdleSet(Some(error))) == seq![
            CancelActionView::Finish(Some(error)),
        ],
        cancel_actions(CancelInputView::IdleSet(None)) == seq![
            CancelActionView::CancelToken,
            CancelActionView::StopRunning,
            CancelActionView::Finish(None),
        ],
{
}

} // verus!
