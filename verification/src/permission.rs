//! Whether an agent may use a tool: the checks, the request to the user, and the reply.
//!
//! The answers to the actions come in as [`GateInput`]; each gives a list of [`GateAction`]
//! to perform in order. An action that has an answer is always the last of its list.
use vstd::prelude::*;
use vstd::string::*;

use crate::payload::{
    AgentAskUserPayload, AgentPermissionRequestPayload, EventView, FrontendEvent,
};
use crate::running::Slots;
use crate::stream::PREVIEW_BYTES;
use crate::text::{copy_text, opt_view, same_text, text_or_empty, views};
use crate::tool_input::{input_preview, preview, stored_input};

verus! {

/// Whether a tool may be used.
pub enum PermissionDecision {
    Allow,
    /// The tool may be used with another input.
    AllowWithModifiedInput(serde_json::Value),
    /// The tool may not be used; the reason.
    Deny(String),
}

/// A decision, its text as a sequence of characters.
pub enum DecisionView {
    Allow,
    AllowWithModifiedInput(serde_json::Value),
    Deny(Seq<char>),
}

impl View for PermissionDecision {
    type V = DecisionView;

    open spec fn view(&self) -> DecisionView {
        match self {
            PermissionDecision::Allow => DecisionView::Allow,
            PermissionDecision::AllowWithModifiedInput(input) =>
                DecisionView::AllowWithModifiedInput(*input),
            PermissionDecision::Deny(reason) => DecisionView::Deny(reason@),
        }
    }
}

/// What a tool can do.
#[derive(Clone, Copy, Debug, PartialEq, Eq, Structural)]
pub enum RiskLevel {
    ReadOnly,
    Write,
    Execute,
}

impl RiskLevel {
    /// The name of the level.
    pub open spec fn name(self) -> Seq<char> {
        match self {
            RiskLevel::ReadOnly => "read_only"@,
            RiskLevel::Write => "write"@,
            RiskLevel::Execute => "execute"@,
        }
    }

    /// The name of the level.
    pub fn as_str(self) -> (name: &'static str)
        ensures
            name@ == self.name(),
    {
        match self {
            RiskLevel::ReadOnly => "read_only",
            RiskLevel::Write => "write",
            RiskLevel::Execute => "execute",
        }
    }
}

/// What the permission mode says of a tool.
#[derive(Clone, Copy, Debug, PartialEq, Eq, Structural)]
pub enum PermissionAction {
    AutoAllow,
    RequireApproval,
    HardDeny,
}

/// The answer to an action.
pub enum GateInput {
    /// The answer to `CheckPath`: the decision, where the path settles the matter.
    PathChecked(Option<PermissionDecision>),
    /// The answer to `CheckAllowed`.
    AllowedChecked(bool),
    /// The answer to `Classify`.
    Classified { risk: RiskLevel, action: PermissionAction },
    /// The answer to `MakeId`: a fresh id, and the id of the assistant message.
    IdMade { id: String, message_id: Option<String> },
    /// The answer to `CreateExecution`: the id of the record, and the id of the assistant
    /// message by now.
    ExecutionSaved { execution_id: Option<String>, message_id: Option<String> },
    /// The answer to `AwaitReply`: the user's word, or nothing where none can come any more.
    Replied(Option<String>),
    /// The answer to `AwaitReply`: the agent was cancelled.
    Cancelled,
}

/// An answer, its texts as sequences of characters.
#[allow(inconsistent_fields)]
pub enum GateInputView {
    PathChecked(Option<DecisionView>),
    AllowedChecked(bool),
    Classified { risk: RiskLevel, action: PermissionAction },
    IdMade { id: Seq<char>, message_id: Option<Seq<char>> },
    ExecutionSaved { execution_id: Option<Seq<char>>, message_id: Option<Seq<char>> },
    Replied(Option<Seq<char>>),
    Cancelled,
}

impl View for GateInput {
    type V = GateInputView;

    open spec fn view(&self) -> GateInputView {
        match self {
            GateInput::PathChecked(decision) => GateInputView::PathChecked(opt_view(*decision)),
            GateInput::AllowedChecked(allowed) => GateInputView::AllowedChecked(*allowed),
            GateInput::Classified { risk, action } => GateInputView::Classified {
                risk: *risk,
                action: *action,
            },
            GateInput::IdMade { id, message_id } => GateInputView::IdMade {
                id: id@,
                message_id: opt_view(*message_id),
            },
            GateInput::ExecutionSaved { execution_id, message_id } =>
                GateInputView::ExecutionSaved {
                    execution_id: opt_view(*execution_id),
                    message_id: opt_view(*message_id),
                },
            GateInput::Replied(reply) => GateInputView::Replied(opt_view(*reply)),
            GateInput::Cancelled => GateInputView::Cancelled,
        }
    }
}

/// Something to do for a decision.
pub enum GateAction {
    /// Check the paths that the tool touches against the working directory; answered by
    /// `PathChecked`.
    CheckPath { cwd: String },
    /// See whether the user has allowed the tool for good; answered by `AllowedChecked`.
    CheckAllowed,
    /// Find out what the tool can do and what the mode says of that; answered by
    /// `Classified`.
    Classify,
    /// Make a fresh id; answered by `IdMade`.
    MakeId,
    /// Let a request wait for its reply.
    StoreRequest { request_id: String },
    /// Store a record of the request; answered by `ExecutionSaved`.
    CreateExecution { message_id: Option<String>, tool_name: String, input_preview: String },
    /// Send an event to the user interface.
    Emit(FrontendEvent),
    /// Wait for the reply to a request; answered by `Replied` or `Cancelled`.
    AwaitReply { request_id: String },
    /// Let a request wait no longer.
    DropRequest { request_id: String },
    /// Remember that the user has allowed the tool for good.
    RememberAllowed { conversation_id: String, tool_name: String },
    /// Store whether the request was approved.
    SetApproval { execution_id: String, approved: bool },
    /// The decision.
    Decide(PermissionDecision),
}

/// An action, its texts as sequences of characters.
#[allow(inconsistent_fields)]
pub enum GateActionView {
    CheckPath { cwd: Seq<char> },
    CheckAllowed,
    Classify,
    MakeId,
    StoreRequest { request_id: Seq<char> },
    CreateExecution {
        message_id: Option<Seq<char>>,
        tool_name: Seq<char>,
        input_preview: Seq<char>,
    },
    Emit(EventView),
    AwaitReply { request_id: Seq<char> },
    DropRequest { request_id: Seq<char> },
    RememberAllowed { conversation_id: Seq<char>, tool_name: Seq<char> },
    SetApproval { execution_id: Seq<char>, approved: bool },
    Decide(DecisionView),
}

impl View for GateAction {
    type V = GateActionView;

    open spec fn view(&self) -> GateActionView {
        match self {
            GateAction::CheckPath { cwd } => GateActionView::CheckPath { cwd: cwd@ },
            GateAction::CheckAllowed => GateActionView::CheckAllowed,
            GateAction::Classify => GateActionView::Classify,
            GateAction::MakeId => GateActionView::MakeId,
            GateAction::StoreRequest { request_id } => GateActionView::StoreRequest {
                request_id: request_id@,
            },
            GateAction::CreateExecution { message_id, tool_name, input_preview } =>
                GateActionView::CreateExecution {
                    message_id: opt_view(*message_id),
                    tool_name: tool_name@,
                    input_preview: input_preview@,
                },
            GateAction::Emit(event) => GateActionView::Emit(event@),
            GateAction::AwaitReply { request_id } => GateActionView::AwaitReply {
                request_id: request_id@,
            },
            GateAction::DropRequest { request_id } => GateActionView::DropRequest {
                request_id: request_id@,
            },
            GateAction::RememberAllowed { conversation_id, tool_name } =>
                GateActionView::RememberAllowed {
                    conversation_id: conversation_id@,
                    tool_name: tool_name@,
                },
            GateAction::SetApproval { execution_id, approved } => GateActionView::SetApproval {
                execution_id: execution_id@,
                approved: *approved,
            },
            GateAction::Decide(decision) => GateActionView::Decide(decision@),
        }
    }
}

/// What a decision waits for.
pub enum GatePhase {
    CheckingPath,
    CheckingAllowed,
    Classifying,
    MakingId { risk: RiskLevel },
    SavingExecution { risk: RiskLevel, request_id: String },
    Waiting { request_id: String, execution_id: Option<String> },
    Decided,
}

/// A phase, its texts as sequences of characters.
#[allow(inconsistent_fields)]
pub enum GatePhaseView {
    CheckingPath,
    CheckingAllowed,
    Classifying,
    MakingId { risk: RiskLevel },
    SavingExecution { risk: RiskLevel, request_id: Seq<char> },
    Waiting { request_id: Seq<char>, execution_id: Option<Seq<char>> },
    Decided,
}

impl View for GatePhase {
    type V = GatePhaseView;

    open spec fn view(&self) -> GatePhaseView {
        match self {
            GatePhase::CheckingPath => GatePhaseView::CheckingPath,
            GatePhase::CheckingAllowed => GatePhaseView::CheckingAllowed,
            GatePhase::Classifying => GatePhaseView::Classifying,
            GatePhase::MakingId { risk } => GatePhaseView::MakingId { risk: *risk },
            GatePhase::SavingExecution { risk, request_id } => GatePhaseView::SavingExecution {
                risk: *risk,
                request_id: request_id@,
            },
            GatePhase::Waiting { request_id, execution_id } => GatePhaseView::Waiting {
                request_id: request_id@,
                execution_id: opt_view(*execution_id),
            },
            GatePhase::Decided => GatePhaseView::Decided,
        }
    }
}

/// The state of a decision.
pub struct GateView {
    pub conversation_id: Seq<char>,
    pub tool_name: Seq<char>,
    pub input: serde_json::Value,
    pub phase: GatePhaseView,
}

/// A state that waits for something else.
pub open spec fn gate_waiting(s: GateView, phase: GatePhaseView) -> GateView {
    GateView { phase, ..s }
}

/// The decision has been made.
pub open spec fn decided(s: GateView, decision: DecisionView) -> (GateView, Seq<GateActionView>) {
    (gate_waiting(s, GatePhaseView::Decided), seq![GateActionView::Decide(decision)])
}

/// The decision that a reply of the user means.
pub open spec fn reply_decision(reply: Option<Seq<char>>) -> DecisionView {
    match reply {
        Some(word) => if word == "allow_once"@ || word == "allow_always"@ {
            DecisionView::Allow
        } else if word == "deny"@ {
            DecisionView::Deny("User denied permission"@)
        } else {
            DecisionView::Deny("Unknown decision: "@ + word)
        },
        None => DecisionView::Deny("Permission request cancelled"@),
    }
}

/// The storing of a decision, where the request has a record.
pub open spec fn approval_actions(
    execution_id: Option<Seq<char>>,
    decision: DecisionView,
) -> Seq<GateActionView> {
    match execution_id {
        Some(execution_id) => seq![
            GateActionView::SetApproval { execution_id, approved: !(decision is Deny) },
        ],
        None => Seq::empty(),
    }
}

/// The actions of a decision that a request has led to.
pub open spec fn closing_actions(
    first: Seq<GateActionView>,
    execution_id: Option<Seq<char>>,
    decision: DecisionView,
) -> Seq<GateActionView> {
    (first + approval_actions(execution_id, decision)).push(GateActionView::Decide(decision))
}

/// A decision that has just begun: a cancelled agent gets none, and the paths are checked
/// unless the agent has full access or no working directory.
pub open spec fn gate_start(
    conversation_id: Seq<char>,
    tool_name: Seq<char>,
    input: serde_json::Value,
    cancelled: bool,
    full_access: bool,
    cwd: Seq<char>,
) -> (GateView, Seq<GateActionView>) {
    let s = GateView { conversation_id, tool_name, input, phase: GatePhaseView::CheckingAllowed };
    if cancelled {
        decided(s, DecisionView::Deny("Agent cancelled"@))
    } else if !full_access && cwd.len() > 0 {
        (
            gate_waiting(s, GatePhaseView::CheckingPath),
            seq![GateActionView::CheckPath { cwd }],
        )
    } else {
        (s, seq![GateActionView::CheckAllowed])
    }
}

/// What an answer does to a decision. An answer that is not waited for does nothing.
pub open spec fn gate_step(s: GateView, input: GateInputView) -> (GateView, Seq<GateActionView>) {
    match (s.phase, input) {
        (GatePhaseView::CheckingPath, GateInputView::PathChecked(Some(decision))) => decided(
            s,
            decision,
        ),
        (GatePhaseView::CheckingPath, GateInputView::PathChecked(None)) => (
            gate_waiting(s, GatePhaseView::CheckingAllowed),
            seq![GateActionView::CheckAllowed],
        ),
        (GatePhaseView::CheckingAllowed, GateInputView::AllowedChecked(allowed)) => if allowed {
            decided(s, DecisionView::Allow)
        } else {
            (gate_waiting(s, GatePhaseView::Classifying), seq![GateActionView::Classify])
        },
        (GatePhaseView::Classifying, GateInputView::Classified { risk, action }) => match action {
            PermissionAction::AutoAllow => decided(s, DecisionView::Allow),
            PermissionAction::HardDeny => decided(
                s,
                DecisionView::Deny("Operation not permitted"@),
            ),
            PermissionAction::RequireApproval => (
                gate_waiting(s, GatePhaseView::MakingId { risk }),
                seq![GateActionView::MakeId],
            ),
        },
        (GatePhaseView::MakingId { risk }, GateInputView::IdMade { id, message_id }) => {
            let request_id = "perm_"@ + id;
            (
                gate_waiting(s, GatePhaseView::SavingExecution { risk, request_id }),
                seq![
                    GateActionView::StoreRequest { request_id },
                    GateActionView::CreateExecution {
                        message_id,
                        tool_name: s.tool_name,
                        input_preview: preview(stored_input(s.input), PREVIEW_BYTES as nat),
                    },
                ],
            )
        },
        (
            GatePhaseView::SavingExecution { risk, request_id },
            GateInputView::ExecutionSaved { execution_id, message_id },
        ) => (
            gate_waiting(s, GatePhaseView::Waiting { request_id, execution_id }),
            seq![
                GateActionView::Emit(
                    EventView::PermissionRequest {
                        conversation_id: s.conversation_id,
                        assistant_message_id: text_or_empty(message_id),
                        tool_use_id: request_id,
                        tool_name: s.tool_name,
                        input: s.input,
                        risk_level: risk.name(),
                    },
                ),
                GateActionView::AwaitReply { request_id },
            ],
        ),
        (GatePhaseView::Waiting { request_id, execution_id }, GateInputView::Replied(reply)) => {
            let first = if reply == Some("allow_always"@) {
                seq![
                    GateActionView::RememberAllowed {
                        conversation_id: s.conversation_id,
                        tool_name: s.tool_name,
                    },
                ]
            } else {
                Seq::empty()
            };
            (
                gate_waiting(s, GatePhaseView::Decided),
                closing_actions(first, execution_id, reply_decision(reply)),
            )
        },
        (GatePhaseView::Waiting { request_id, execution_id }, GateInputView::Cancelled) => (
            gate_waiting(s, GatePhaseView::Decided),
            closing_actions(
                seq![GateActionView::DropRequest { request_id }],
                execution_id,
                DecisionView::Deny("Agent cancelled"@),
            ),
        ),
        _ => (s, Seq::empty()),
    }
}

/// A decision that is under way.
pub struct PermissionGate {
    conversation_id: String,
    tool_name: String,
    input: serde_json::Value,
    phase: GatePhase,
}

impl View for PermissionGate {
    type V = GateView;

    closed spec fn view(&self) -> GateView {
        GateView {
            conversation_id: self.conversation_id@,
            tool_name: self.tool_name@,
            input: self.input,
            phase: self.phase@,
        }
    }
}

fn one_action(action: GateAction) -> (actions: Vec<GateAction>)
    ensures
        views(actions@) == seq![action@],
{
    let mut actions: Vec<GateAction> = Vec::new();
    actions.push(action);
    assert(views(actions@) =~= seq![action@]);
    actions
}

fn push_closing(
    actions: &mut Vec<GateAction>,
    execution_id: Option<String>,
    decision: PermissionDecision,
)
    ensures
        views(final(actions)@) == closing_actions(
            views(old(actions)@),
            opt_view(execution_id),
            decision@,
        ),
{
    let ghost first = views(actions@);
    if let Some(execution_id) = execution_id {
        let approved = match &decision {
            PermissionDecision::Deny(_) => false,
            _ => true,
        };
        actions.push(GateAction::SetApproval { execution_id, approved });
    }
    assert(views(actions@) =~= first + approval_actions(opt_view(execution_id), decision@));
    let ghost stored = views(actions@);
    actions.push(GateAction::Decide(decision));
    assert(views(actions@) =~= stored.push(GateActionView::Decide(decision@)));
}

/// Reads the user's reply to a permission request.
pub fn read_reply(reply: Option<&str>) -> (decision: PermissionDecision)
    ensures
        decision@ == reply_decision(opt_view(reply)),
{
    match reply {
        Some(word) => {
            if same_text(word, "allow_once") || same_text(word, "allow_always") {
                PermissionDecision::Allow
            } else if same_text(word, "deny") {
                PermissionDecision::Deny("User denied permission".to_owned())
            } else {
                let mut reason = "Unknown decision: ".to_owned();
                reason.append(word);
                PermissionDecision::Deny(reason)
            }
        },
        None => PermissionDecision::Deny("Permission request cancelled".to_owned()),
    }
}

impl PermissionGate {
    /// Begins a decision.
    pub fn new(
        conversation_id: String,
        tool_name: String,
        input: serde_json::Value,
        cancelled: bool,
        full_access: bool,
        cwd: String,
    ) -> (result: (PermissionGate, Vec<GateAction>))
        ensures
            (result.0@, views(result.1@)) == gate_start(
                conversation_id@,
                tool_name@,
                input,
                cancelled,
                full_access,
                cwd@,
            ),
    {
        let mut gate = PermissionGate {
            conversation_id,
            tool_name,
            input,
            phase: GatePhase::CheckingAllowed,
        };
        if cancelled {
            gate.phase = GatePhase::Decided;
            let decision = PermissionDecision::Deny("Agent cancelled".to_owned());
            (gate, one_action(GateAction::Decide(decision)))
        } else if !full_access && !cwd.as_str().is_empty() {
            gate.phase = GatePhase::CheckingPath;
            (gate, one_action(GateAction::CheckPath { cwd }))
        } else {
            (gate, one_action(GateAction::CheckAllowed))
        }
    }

    fn go_on(&mut self, phase: GatePhase, action: GateAction) -> (actions: Vec<GateAction>)
        ensures
            final(self)@ == gate_waiting(old(self)@, phase@),
            views(actions@) == seq![action@],
    {
        self.phase = phase;
        one_action(action)
    }

    fn decide(&mut self, decision: PermissionDecision) -> (actions: Vec<GateAction>)
        ensures
            (final(self)@, views(actions@)) == decided(old(self)@, decision@),
    {
        self.go_on(GatePhase::Decided, GateAction::Decide(decision))
    }

    fn request(&mut self, risk: RiskLevel, id: String, message_id: Option<String>) -> (actions: Vec<
        GateAction,
    >)
        requires
            old(self)@.phase is Decided,
        ensures
            (final(self)@, views(actions@)) == gate_step(
                gate_waiting(old(self)@, GatePhaseView::MakingId { risk }),
                GateInputView::IdMade { id: id@, message_id: opt_view(message_id) },
            ),
    {
        let mut request_id = "perm_".to_owned();
        request_id.append(id.as_str());
        let mut actions = one_action(GateAction::StoreRequest { request_id: request_id.clone() });
        let ghost first = views(actions@);
        self.phase = GatePhase::SavingExecution { risk, request_id };
        let next = GateAction::CreateExecution {
            message_id,
            tool_name: self.tool_name.clone(),
            input_preview: input_preview(&self.input, PREVIEW_BYTES),
        };
        actions.push(next);
        assert(views(actions@) =~= first.push(next@));
        assert(views(actions@) =~= gate_step(
            gate_waiting(old(self)@, GatePhaseView::MakingId { risk }),
            GateInputView::IdMade { id: id@, message_id: opt_view(message_id) },
        ).1);
        actions
    }

    /// Takes the answer to the last action and says what to do.
    pub fn step(&mut self, input: GateInput) -> (actions: Vec<GateAction>)
        ensures
            (final(self)@, views(actions@)) == gate_step(old(self)@, input@),
    {
        let mut phase = GatePhase::Decided;
        core::mem::swap(&mut self.phase, &mut phase);
        match (phase, input) {
            (GatePhase::CheckingPath, GateInput::PathChecked(decision)) => match decision {
                Some(decision) => self.decide(decision),
                None => self.go_on(GatePhase::CheckingAllowed, GateAction::CheckAllowed),
            },
            (GatePhase::CheckingAllowed, GateInput::AllowedChecked(allowed)) => {
                if allowed {
                    self.decide(PermissionDecision::Allow)
                } else {
                    self.go_on(GatePhase::Classifying, GateAction::Classify)
                }
            },
            (GatePhase::Classifying, GateInput::Classified { risk, action }) => match action {
                PermissionAction::AutoAllow => self.decide(PermissionDecision::Allow),
                PermissionAction::HardDeny => self.decide(
                    PermissionDecision::Deny("Operation not permitted".to_owned()),
                ),
                PermissionAction::RequireApproval => self.go_on(
                    GatePhase::MakingId { risk },
                    GateAction::MakeId,
                ),
            },
            (GatePhase::MakingId { risk }, GateInput::IdMade { id, message_id }) => self.request(
                risk,
                id,
                message_id,
            ),
            (
                GatePhase::SavingExecution { risk, request_id },
                GateInput::ExecutionSaved { execution_id, message_id },
            ) => {
                let assistant_message_id = match message_id {
                    Some(id) => id,
                    None => {
                        let none = String::new();
                        assert(none@ =~= Seq::empty());
                        none
                    },
                };
                let mut actions = one_action(
                    GateAction::Emit(
                        FrontendEvent::PermissionRequest(
                            AgentPermissionRequestPayload {
                                conversation_id: self.conversation_id.clone(),
                                assistant_message_id,
                                tool_use_id: request_id.clone(),
                                tool_name: self.tool_name.clone(),
                                input: self.input.clone(),
                                risk_level: risk.as_str().to_owned(),
                            },
                        ),
                    ),
                );
                let ghost first = views(actions@);
                let wait = GateAction::AwaitReply { request_id: request_id.clone() };
                actions.push(wait);
                assert(views(actions@) =~= first.push(wait@));
                self.phase = GatePhase::Waiting { request_id, execution_id };
                assert(views(actions@) =~= gate_step(old(self)@, input@).1);
                actions
            },
            (GatePhase::Waiting { request_id: _, execution_id }, GateInput::Replied(reply)) => {
                let mut actions: Vec<GateAction> = Vec::new();
                assert(views(actions@) =~= Seq::empty());
                let decision = match &reply {
                    Some(word) => {
                        if same_text(word.as_str(), "allow_always") {
                            actions = one_action(
                                GateAction::RememberAllowed {
                                    conversation_id: self.conversation_id.clone(),
                                    tool_name: self.tool_name.clone(),
                                },
                            );
                        }
                        read_reply(Some(word.as_str()))
                    },
                    None => read_reply(None),
                };
                push_closing(&mut actions, execution_id, decision);
                actions
            },
            (GatePhase::Waiting { request_id, execution_id }, GateInput::Cancelled) => {
                let mut actions = one_action(GateAction::DropRequest { request_id });
                push_closing(
                    &mut actions,
                    execution_id,
                    PermissionDecision::Deny("Agent cancelled".to_owned()),
                );
                actions
            },
            (phase, _) => {
                self.phase = phase;
                let none: Vec<GateAction> = Vec::new();
                assert(views(none@) =~= Seq::empty());
                none
            },
        }
    }
}

/// The stored word for a decision on a request.
pub fn approval_status(approved: bool) -> (status: &'static str)
    ensures
        status@ == if approved {
            "approved"@
        } else {
            "denied"@
        },
{
    if approved {
        "approved"
    } else {
        "denied"
    }
}

// ---------------------------------------------------------------------------------------
// Replies of the user
// ---------------------------------------------------------------------------------------

/// Whether a word is a decision that the user can send.
pub open spec fn known_decision(decision: Seq<char>) -> bool {
    decision == "allow_once"@ || decision == "allow_always"@ || decision == "deny"@
}

/// Takes the sender that waits for a decision of the user. The decision has to be a known
/// one, and the request has to wait.
pub fn agent_approve<T>(
    pending: &mut Slots<T>,
    tool_use_id: &str,
    decision: &str,
) -> (sender: Result<T, String>)
    requires
        old(pending).wf(),
    ensures
        final(pending).wf(),
        match sender {
            Ok(sender) => {
                &&& known_decision(decision@)
                &&& old(pending)@.contains_key(tool_use_id@)
                &&& sender == old(pending)@[tool_use_id@]
                &&& final(pending)@ == old(pending)@.remove(tool_use_id@)
            },
            Err(error) => {
                &&& final(pending)@ == old(pending)@
                &&& if known_decision(decision@) {
                    !old(pending)@.contains_key(tool_use_id@) && error@
                        == "No pending permission request for tool_use_id: "@ + tool_use_id@
                } else {
                    error@ == "Invalid decision: "@ + decision@
                }
            },
        },
{
    if !(same_text(decision, "allow_once") || same_text(decision, "allow_always") || same_text(
        decision,
        "deny",
    )) {
        let mut error = "Invalid decision: ".to_owned();
        error.append(decision);
        return Err(error);
    }
    match pending.take(tool_use_id) {
        Some(sender) => Ok(sender),
        None => {
            assert(pending@ =~= old(pending)@);
            let mut error = "No pending permission request for tool_use_id: ".to_owned();
            error.append(tool_use_id);
            Err(error)
        },
    }
}

/// What the user is told once a decision was sent on, or could not be.
pub fn approval_result(delivered: bool) -> (result: Result<(), String>)
    ensures
        match result {
            Ok(_) => delivered,
            Err(error) => !delivered && error@ == "Permission channel closed"@,
        },
{
    if delivered {
        Ok(())
    } else {
        Err("Permission channel closed".to_owned())
    }
}

/// Takes the sender that waits for an answer of the user.
pub fn agent_respond_ask<T>(pending: &mut Slots<T>, ask_id: &str) -> (sender: Result<T, String>)
    requires
        old(pending).wf(),
    ensures
        final(pending).wf(),
        match sender {
            Ok(sender) => {
                &&& old(pending)@.contains_key(ask_id@)
                &&& sender == old(pending)@[ask_id@]
                &&& final(pending)@ == old(pending)@.remove(ask_id@)
            },
            Err(error) => {
                &&& !old(pending)@.contains_key(ask_id@)
                &&& final(pending)@ == old(pending)@
                &&& error@ == "No pending ask request for ask_id: "@ + ask_id@
            },
        },
{
    match pending.take(ask_id) {
        Some(sender) => Ok(sender),
        None => {
            assert(pending@ =~= old(pending)@);
            let mut error = "No pending ask request for ask_id: ".to_owned();
            error.append(ask_id);
            Err(error)
        },
    }
}

/// What the user is told once an answer was sent on, or could not be.
pub fn answer_result(delivered: bool) -> (result: Result<(), String>)
    ensures
        match result {
            Ok(_) => delivered,
            Err(error) => !delivered && error@ == "Ask user channel closed"@,
        },
{
    if delivered {
        Ok(())
    } else {
        Err("Ask user channel closed".to_owned())
    }
}

// ---------------------------------------------------------------------------------------
// Questions to the user
// ---------------------------------------------------------------------------------------

/// The id of a question.
pub open spec fn ask_id_of(id: Seq<char>) -> Seq<char> {
    "ask_"@ + id
}

/// Makes the id of a question from a fresh id, and the event that shows the question.
pub fn ask_user(
    conversation_id: String,
    message_id: &Option<String>,
    id: &str,
    question: String,
    options: Option<Vec<String>>,
) -> (result: (String, FrontendEvent))
    ensures
        result.0@ == ask_id_of(id@),
        result.1@ == (EventView::AskUser {
            conversation_id: conversation_id@,
            assistant_message_id: text_or_empty(opt_view(*message_id)),
            ask_id: ask_id_of(id@),
            question: question@,
            options,
        }),
{
    let mut ask_id = "ask_".to_owned();
    ask_id.append(id);
    let assistant_message_id = match copy_text(message_id) {
        Some(id) => id,
        None => {
            let none = String::new();
            assert(none@ =~= Seq::empty());
            none
        },
    };
    let event = FrontendEvent::AskUser(
        AgentAskUserPayload {
            conversation_id,
            assistant_message_id,
            ask_id: ask_id.clone(),
            question,
            options,
        },
    );
    (ask_id, event)
}

/// How the wait for an answer to a question ended.
pub enum AskEnd {
    /// The user's word, or nothing where none can come any more.
    Replied(Option<String>),
    /// The agent was cancelled.
    Cancelled,
}

/// The answer to a question, and whether the question has to be withdrawn.
pub fn ask_answer(end: AskEnd) -> (result: (bool, Result<String, String>))
    ensures
        result.0 == (end is Cancelled),
        match end {
            AskEnd::Replied(Some(answer)) => result.1 matches Ok(text) && text@ == answer@,
            AskEnd::Replied(None) => result.1 matches Err(error) && error@
                == "Ask user channel closed"@,
            AskEnd::Cancelled => result.1 matches Err(error) && error@ == "Agent cancelled"@,
        },
{
    match end {
        AskEnd::Replied(Some(answer)) => (false, Ok(answer)),
        AskEnd::Replied(None) => (false, Err("Ask user channel closed".to_owned())),
        AskEnd::Cancelled => (true, Err("Agent cancelled".to_owned())),
    }
}

} // verus!
