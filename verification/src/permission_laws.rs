//! What holds of every decision on a tool, whatever the answers are.
use vstd::prelude::*;

use crate::payload::EventView;
use crate::permission::{
    ask_id_of, gate_start, gate_step, known_decision, reply_decision, DecisionView, GateActionView,
    GateInputView, GatePhaseView, GateView, PermissionAction, RiskLevel,
};
use crate::text::text_or_empty;
use crate::tool_input::{preview, stored_input};

verus! {

/// The state and all actions of a decision after some answers.
pub open spec fn gate_run(
    start: (GateView, Seq<GateActionView>),
    inputs: Seq<GateInputView>,
) -> (GateView, Seq<GateActionView>)
    decreases inputs.len(),
{
    if inputs.len() == 0 {
        start
    } else {
        let (s, actions) = gate_run(start, inputs.drop_last());
        let (next, more) = gate_step(s, inputs.last());
        (next, actions + more)
    }
}

/// Whether an answer lets a tool be used: the path check hands down a decision, the user has
/// allowed the tool for good, the mode allows it, or the user allows it now.
pub open spec fn grants(input: GateInputView) -> bool {
    match input {
        GateInputView::PathChecked(Some(decision)) => !(decision is Deny),
        GateInputView::AllowedChecked(allowed) => allowed,
        GateInputView::Classified { action, .. } => action == PermissionAction::AutoAllow,
        GateInputView::Replied(Some(word)) => word == "allow_once"@ || word == "allow_always"@,
        _ => false,
    }
}

/// Whether a decision lets the tool be used.
pub open spec fn is_grant(action: GateActionView) -> bool {
    action matches GateActionView::Decide(decision) && !(decision is Deny)
}

spec fn some_grant(inputs: Seq<GateInputView>) -> bool {
    exists|i: int| 0 <= i < inputs.len() && grants(#[trigger] inputs[i])
}

spec fn path_passed(inputs: Seq<GateInputView>) -> bool {
    exists|i: int| 0 <= i < inputs.len() && path_let_through(#[trigger] inputs[i])
}

/// Whether a path check raised no objection.
pub open spec fn path_let_through(input: GateInputView) -> bool {
    match input {
        GateInputView::PathChecked(Some(decision)) => !(decision is Deny),
        GateInputView::PathChecked(None) => true,
        _ => false,
    }
}

/// What holds at each point of a decision that began with a path check, or without one.
spec fn gate_ok(
    path_check: bool,
    s: GateView,
    actions: Seq<GateActionView>,
    inputs: Seq<GateInputView>,
) -> bool {
    let n = actions.len() as int;
    &&& s.phase is Decided <==> n > 0 && actions[n - 1] is Decide
    &&& forall|k: int| 0 <= k < n - 1 ==> !((#[trigger] actions[k]) is Decide)
    &&& n > 0 && is_grant(actions[n - 1]) ==> some_grant(inputs)
    &&& path_check && n > 0 && is_grant(actions[n - 1]) ==> path_passed(inputs)
    &&& path_check && !(s.phase is Decided) && !(s.phase is CheckingPath) ==> path_passed(inputs)
}

proof fn longer_inputs(inputs: Seq<GateInputView>, input: GateInputView)
    ensures
        some_grant(inputs) ==> some_grant(inputs.push(input)),
        path_passed(inputs) ==> path_passed(inputs.push(input)),
        grants(input) ==> some_grant(inputs.push(input)),
        path_let_through(input) ==> path_passed(inputs.push(input)),
{
    let longer = inputs.push(input);
    assert(longer[inputs.len() as int] == input);
    if some_grant(inputs) {
        let i = choose|i: int| 0 <= i < inputs.len() && grants(#[trigger] inputs[i]);
        assert(grants(longer[i]));
    }
    if path_passed(inputs) {
        let i = choose|i: int| 0 <= i < inputs.len() && path_let_through(#[trigger] inputs[i]);
        assert(path_let_through(longer[i]));
    }
}

proof fn step_keeps_gate(
    path_check: bool,
    s: GateView,
    actions: Seq<GateActionView>,
    inputs: Seq<GateInputView>,
    input: GateInputView,
)
    requires
        gate_ok(path_check, s, actions, inputs),
    ensures
        gate_ok(
            path_check,
            gate_step(s, input).0,
            actions + gate_step(s, input).1,
            inputs.push(input),
        ),
{
    let (next, more) = gate_step(s, input);
    let all = actions + more;
    longer_inputs(inputs, input);
    if more.len() == 0 {
        assert(all =~= actions);
    } else {
        assert(!(s.phase is Decided));
        assert(all[all.len() - 1] == more[more.len() - 1]);
        assert forall|k: int| 0 <= k < all.len() - 1 implies !((#[trigger] all[k]) is Decide) by {
            if k < actions.len() {
                assert(all[k] == actions[k]);
            } else {
                assert(all[k] == more[k - actions.len()]);
            }
        }
    }
}

proof fn run_keeps_gate(
    path_check: bool,
    start: (GateView, Seq<GateActionView>),
    inputs: Seq<GateInputView>,
)
    requires
        gate_ok(path_check, start.0, start.1, Seq::empty()),
    ensures
        gate_ok(path_check, gate_run(start, inputs).0, gate_run(start, inputs).1, inputs),
    decreases inputs.len(),
{
    if inputs.len() > 0 {
        let before = inputs.drop_last();
        run_keeps_gate(path_check, start, before);
        let (s, actions) = gate_run(start, before);
        step_keeps_gate(path_check, s, actions, before, inputs.last());
        assert(before.push(inputs.last()) =~= inputs);
    } else {
        assert(inputs =~= Seq::empty());
    }
}

/// A decision is made once, as the last action: nothing follows it.
pub proof fn a_tool_is_decided_on_once(
    conversation_id: Seq<char>,
    tool_name: Seq<char>,
    input: serde_json::Value,
    cancelled: bool,
    full_access: bool,
    cwd: Seq<char>,
    inputs: Seq<GateInputView>,
    k: int,
)
    ensures
        ({
            let start = gate_start(conversation_id, tool_name, input, cancelled, full_access, cwd);
            let (s, actions) = gate_run(start, inputs);
            &&& s.phase is Decided <==> actions.len() > 0 && actions.last() is Decide
            &&& 0 <= k < actions.len() && actions[k] is Decide ==> k == actions.len() - 1
        }),
{
    let start = gate_start(conversation_id, tool_name, input, cancelled, full_access, cwd);
    run_keeps_gate(false, start, inputs);
}

/// A tool is allowed only for a reason: one of the answers grants it.
pub proof fn a_tool_is_allowed_for_a_reason(
    conversation_id: Seq<char>,
    tool_name: Seq<char>,
    input: serde_json::Value,
    cancelled: bool,
    full_access: bool,
    cwd: Seq<char>,
    inputs: Seq<GateInputView>,
)
    ensures
        ({
            let start = gate_start(conversation_id, tool_name, input, cancelled, full_access, cwd);
            let (_, actions) = gate_run(start, inputs);
            actions.len() > 0 && is_grant(actions.last()) ==> exists|i: int|
                0 <= i < inputs.len() && grants(#[trigger] inputs[i])
        }),
{
    let start = gate_start(conversation_id, tool_name, input, cancelled, full_access, cwd);
    run_keeps_gate(false, start, inputs);
    let (_, actions) = gate_run(start, inputs);
    if actions.len() > 0 {
        assert(actions.last() == actions[actions.len() - 1]);
    }
}

/// Without full access a tool is allowed in a working directory only after the check of its
/// paths raised no objection.
pub proof fn paths_are_checked_first(
    conversation_id: Seq<char>,
    tool_name: Seq<char>,
    input: serde_json::Value,
    cwd: Seq<char>,
    inputs: Seq<GateInputView>,
)
    requires
        cwd.len() > 0,
    ensures
        ({
            let start = gate_start(conversation_id, tool_name, input, false, false, cwd);
            let (_, actions) = gate_run(start, inputs);
            actions.len() > 0 && is_grant(actions.last()) ==> exists|i: int|
                0 <= i < inputs.len() && path_let_through(#[trigger] inputs[i])
        }),
{
    let start = gate_start(conversation_id, tool_name, input, false, false, cwd);
    run_keeps_gate(true, start, inputs);
    let (_, actions) = gate_run(start, inputs);
    if actions.len() > 0 {
        assert(actions.last() == actions[actions.len() - 1]);
    }
}

/// A cancelled agent may use no tool: not when it asks, and not while the user thinks about
/// it. A request that waited is withdrawn.
pub proof fn a_cancelled_agent_is_denied(
    conversation_id: Seq<char>,
    tool_name: Seq<char>,
    input: serde_json::Value,
    full_access: bool,
    cwd: Seq<char>,
    s: GateView,
)
    ensures
        gate_start(conversation_id, tool_name, input, true, full_access, cwd).1 == seq![
            GateActionView::Decide(DecisionView::Deny("Agent cancelled"@)),
        ],
        s.phase matches GatePhaseView::Waiting { request_id, .. } ==> {
            let actions = gate_step(s, GateInputView::Cancelled).1;
            &&& actions.last() == GateActionView::Decide(DecisionView::Deny("Agent cancelled"@))
            &&& actions[0] == (GateActionView::DropRequest { request_id })
        },
{
}

/// The record of a request agrees with the decision.
pub proof fn record_agrees_with_the_decision(s: GateView, input: GateInputView, k: int)
    requires
        0 <= k < gate_step(s, input).1.len(),
        gate_step(s, input).1[k] is SetApproval,
    ensures
        ({
            let actions = gate_step(s, input).1;
            &&& actions.last() is Decide
            &&& actions[k]->approved == is_grant(actions.last())
        }),
{
}

/// A tool that the user allows for good is remembered, and the next time it is allowed with
/// no question.
pub proof fn a_tool_allowed_for_good_is_not_asked_about(
    waiting: GateView,
    asking: GateView,
)
    requires
        waiting.phase is Waiting,
        asking.phase is CheckingAllowed,
    ensures
        gate_step(waiting, GateInputView::Replied(Some("allow_always"@))).1[0] == (
        GateActionView::RememberAllowed {
            conversation_id: waiting.conversation_id,
            tool_name: waiting.tool_name,
        }),
        gate_step(waiting, GateInputView::Replied(Some("allow_always"@))).1.last()
            == GateActionView::Decide(DecisionView::Allow),
        gate_step(asking, GateInputView::AllowedChecked(true)).1 == seq![
            GateActionView::Decide(DecisionView::Allow),
        ],
{
}

/// Each decision that the user can send is understood.
pub proof fn known_decisions_are_understood(decision: Seq<char>)
    requires
        known_decision(decision),
    ensures
        reply_decision(Some(decision)) == DecisionView::Allow || reply_decision(Some(decision))
            == DecisionView::Deny("User denied permission"@),
        reply_decision(Some(decision)) == DecisionView::Allow <==> decision != "deny"@,
{
    reveal_strlit("deny");
    reveal_strlit("allow_once");
    reveal_strlit("allow_always");
    if decision == "deny"@ {
        assert("deny"@.len() == 4);
        assert("allow_once"@.len() == 10);
        assert("allow_always"@.len() == 12);
    }
}

/// Whether an answer, given to an action, is a reason to deny the tool with some words: the
/// check of the paths said so, the mode forbids the tool, the user did not allow it or gave no
/// answer, or the agent was cancelled meanwhile.
pub open spec fn is_reason_to_deny(
    action: GateActionView,
    answer: GateInputView,
    words: Seq<char>,
) -> bool {
    match (action, answer) {
        (GateActionView::CheckPath { .. }, GateInputView::PathChecked(Some(decision))) => decision
            == DecisionView::Deny(words),
        (GateActionView::Classify, GateInputView::Classified { action, .. }) => action
            == PermissionAction::HardDeny && words == "Operation not permitted"@,
        (GateActionView::AwaitReply { .. }, GateInputView::Replied(Some(word))) => {
            &&& word != "allow_once"@ && word != "allow_always"@
            &&& words == if word == "deny"@ {
                "User denied permission"@
            } else {
                "Unknown decision: "@ + word
            }
        },
        (GateActionView::AwaitReply { .. }, GateInputView::Replied(None)) => words
            == "Permission request cancelled"@,
        (GateActionView::AwaitReply { .. }, GateInputView::Cancelled) => words
            == "Agent cancelled"@,
        _ => false,
    }
}

/// Whether one of the answers is a reason to deny the tool with some words.
pub open spec fn denied_for_a_reason(
    start: (GateView, Seq<GateActionView>),
    inputs: Seq<GateInputView>,
    words: Seq<char>,
) -> bool {
    exists|k: int|
        0 <= k < inputs.len() && is_reason_to_deny(
            gate_run(start, inputs.take(k)).1.last(),
            #[trigger] inputs[k],
            words,
        )
}

/// What a decision waits for is what it has asked for last.
spec fn asks_what_it_awaits(s: GateView, last: GateActionView) -> bool {
    match s.phase {
        GatePhaseView::CheckingPath => last is CheckPath,
        GatePhaseView::CheckingAllowed => last is CheckAllowed,
        GatePhaseView::Classifying => last is Classify,
        GatePhaseView::MakingId { .. } => last is MakeId,
        GatePhaseView::SavingExecution { .. } => last is CreateExecution,
        GatePhaseView::Waiting { request_id, .. } => last == (GateActionView::AwaitReply {
            request_id,
        }),
        GatePhaseView::Decided => last is Decide,
    }
}

proof fn reason_stays(
    start: (GateView, Seq<GateActionView>),
    inputs: Seq<GateInputView>,
    input: GateInputView,
    words: Seq<char>,
)
    ensures
        denied_for_a_reason(start, inputs, words) ==> denied_for_a_reason(
            start,
            inputs.push(input),
            words,
        ),
        is_reason_to_deny(gate_run(start, inputs).1.last(), input, words) ==> denied_for_a_reason(
            start,
            inputs.push(input),
            words,
        ),
{
    let longer = inputs.push(input);
    assert(longer.take(inputs.len() as int) =~= inputs);
    assert(longer[inputs.len() as int] == input);
    if denied_for_a_reason(start, inputs, words) {
        let k = choose|k: int|
            0 <= k < inputs.len() && is_reason_to_deny(
                gate_run(start, inputs.take(k)).1.last(),
                #[trigger] inputs[k],
                words,
            );
        assert(longer.take(k) =~= inputs.take(k));
        assert(longer[k] == inputs[k]);
    }
}

proof fn one_step_of_a_denial(s: GateView, last: GateActionView, input: GateInputView)
    requires
        asks_what_it_awaits(s, last),
    ensures
        ({
            let (next, more) = gate_step(s, input);
            let now = if more.len() > 0 {
                more.last()
            } else {
                last
            };
            &&& asks_what_it_awaits(next, now)
            &&& more.len() == 0 ==> next == s
            &&& more.len() > 0 ==> (now matches GateActionView::Decide(decision) ==> (decision
                matches DecisionView::Deny(words) ==> is_reason_to_deny(last, input, words)))
        }),
{
}

proof fn run_denies_for_a_reason(
    start: (GateView, Seq<GateActionView>),
    inputs: Seq<GateInputView>,
)
    requires
        start.1.len() > 0,
        asks_what_it_awaits(start.0, start.1.last()),
    ensures
        ({
            let (s, actions) = gate_run(start, inputs);
            &&& actions.len() > 0
            &&& asks_what_it_awaits(s, actions.last())
            &&& !(start.0.phase is Decided) ==> (actions.last() matches GateActionView::Decide(
                decision,
            ) ==> (decision matches DecisionView::Deny(words) ==> denied_for_a_reason(
                start,
                inputs,
                words,
            )))
        }),
    decreases inputs.len(),
{
    if inputs.len() > 0 {
        let before = inputs.drop_last();
        run_denies_for_a_reason(start, before);
        let (s, actions) = gate_run(start, before);
        one_step_of_a_denial(s, actions.last(), inputs.last());
        let more = gate_step(s, inputs.last()).1;
        assert(before.push(inputs.last()) =~= inputs);
        assert((actions + more).last() == if more.len() > 0 {
            more.last()
        } else {
            actions.last()
        });
        if let GateActionView::Decide(DecisionView::Deny(words)) = (actions + more).last() {
            reason_stays(start, before, inputs.last(), words);
        }
    }
}

/// A tool is denied only for a reason, and the agent is told that reason: its paths were
/// refused, the mode forbids the tool, the user did not allow it or gave no answer, or the
/// agent was cancelled.
pub proof fn a_tool_is_denied_for_a_reason(
    conversation_id: Seq<char>,
    tool_name: Seq<char>,
    input: serde_json::Value,
    cancelled: bool,
    full_access: bool,
    cwd: Seq<char>,
    inputs: Seq<GateInputView>,
    words: Seq<char>,
)
    requires
        gate_run(
            gate_start(conversation_id, tool_name, input, cancelled, full_access, cwd),
            inputs,
        ).1.last() == GateActionView::Decide(DecisionView::Deny(words)),
    ensures
        if cancelled {
            words == "Agent cancelled"@
        } else {
            denied_for_a_reason(
                gate_start(conversation_id, tool_name, input, cancelled, full_access, cwd),
                inputs,
                words,
            )
        },
{
    let start = gate_start(conversation_id, tool_name, input, cancelled, full_access, cwd);
    run_denies_for_a_reason(start, inputs);
    if cancelled {
        cancelled_from_the_start(start, inputs);
    }
}

proof fn cancelled_from_the_start(
    start: (GateView, Seq<GateActionView>),
    inputs: Seq<GateInputView>,
)
    requires
        start.0.phase is Decided,
    ensures
        gate_run(start, inputs) == start,
    decreases inputs.len(),
{
    if inputs.len() > 0 {
        cancelled_from_the_start(start, inputs.drop_last());
        assert(start.1 + Seq::<GateActionView>::empty() =~= start.1);
    }
}

/// Where the mode requires an approval, the user is asked, whatever the tool can do: nothing is
/// decided before, the request is stored under a name of its own, recorded and shown with what
/// the tool can do, and then the reply of the user decides.
pub proof fn an_approval_is_asked_for(
    s: GateView,
    risk: RiskLevel,
    id: Seq<char>,
    message_id: Option<Seq<char>>,
    execution_id: Option<Seq<char>>,
    later_id: Option<Seq<char>>,
    reply: Option<Seq<char>>,
)
    requires
        s.phase is Classifying,
    ensures
        ({
            let (asked, first) = gate_step(
                s,
                GateInputView::Classified { risk, action: PermissionAction::RequireApproval },
            );
            let (named, second) = gate_step(asked, GateInputView::IdMade { id, message_id });
            let (shown, third) = gate_step(
                named,
                GateInputView::ExecutionSaved { execution_id, message_id: later_id },
            );
            let (_, fourth) = gate_step(shown, GateInputView::Replied(reply));
            let request_id = "perm_"@ + id;
            &&& first == seq![GateActionView::MakeId]
            &&& second == seq![
                GateActionView::StoreRequest { request_id },
                GateActionView::CreateExecution {
                    message_id,
                    tool_name: s.tool_name,
                    input_preview: preview(stored_input(s.input), 500),
                },
            ]
            &&& third == seq![
                GateActionView::Emit(
                    EventView::PermissionRequest {
                        conversation_id: s.conversation_id,
                        assistant_message_id: text_or_empty(later_id),
                        tool_use_id: request_id,
                        tool_name: s.tool_name,
                        input: s.input,
                        risk_level: match risk {
                            RiskLevel::ReadOnly => "read_only"@,
                            RiskLevel::Write => "write"@,
                            RiskLevel::Execute => "execute"@,
                        },
                    },
                ),
                GateActionView::AwaitReply { request_id },
            ]
            &&& fourth.last() == GateActionView::Decide(DecisionView::Allow) <==> reply == Some(
                "allow_once"@,
            ) || reply == Some("allow_always"@)
            &&& fourth.contains(
                GateActionView::RememberAllowed {
                    conversation_id: s.conversation_id,
                    tool_name: s.tool_name,
                },
            ) <==> reply == Some("allow_always"@)
            &&& execution_id matches Some(execution_id) ==> fourth.contains(
                GateActionView::SetApproval {
                    execution_id,
                    approved: reply == Some("allow_once"@) || reply == Some("allow_always"@),
                },
            )
        }),
{
    let (asked, first) = gate_step(
        s,
        GateInputView::Classified { risk, action: PermissionAction::RequireApproval },
    );
    let (named, second) = gate_step(asked, GateInputView::IdMade { id, message_id });
    let (shown, third) = gate_step(
        named,
        GateInputView::ExecutionSaved { execution_id, message_id: later_id },
    );
    let (_, fourth) = gate_step(shown, GateInputView::Replied(reply));
    reveal_strlit("allow_once");
    reveal_strlit("allow_always");
    assert("allow_once"@.len() != "allow_always"@.len());
    assert(fourth.last() == fourth[fourth.len() - 1]);
    if reply == Some("allow_always"@) {
        assert(fourth[0] is RememberAllowed);
    }
    if execution_id is Some {
        assert(fourth[fourth.len() - 2] is SetApproval);
    }
}

/// What the mode allows by itself is allowed with no question, and what it forbids is denied
/// with none.
pub proof fn the_mode_decides_by_itself(s: GateView, risk: RiskLevel)
    requires
        s.phase is Classifying,
    ensures
        gate_step(
            s,
            GateInputView::Classified { risk, action: PermissionAction::AutoAllow },
        ).1 == seq![GateActionView::Decide(DecisionView::Allow)],
        gate_step(
            s,
            GateInputView::Classified { risk, action: PermissionAction::HardDeny },
        ).1 == seq![GateActionView::Decide(DecisionView::Deny("Operation not permitted"@))],
{
}

/// A tool that is not remembered is judged by the mode, and only then; a path check that has
/// nothing to say leads to the remembered tools, and one that decides is final.
pub proof fn checks_come_in_turn(s: GateView, decision: DecisionView)
    ensures
        s.phase is CheckingPath ==> {
            &&& gate_step(s, GateInputView::PathChecked(Some(decision))).1 == seq![
                GateActionView::Decide(decision),
            ]
            &&& gate_step(s, GateInputView::PathChecked(None)).1 == seq![
                GateActionView::CheckAllowed,
            ]
            &&& gate_step(s, GateInputView::PathChecked(None)).0.phase is CheckingAllowed
        },
        s.phase is CheckingAllowed ==> {
            &&& gate_step(s, GateInputView::AllowedChecked(false)).1 == seq![
                GateActionView::Classify,
            ]
            &&& gate_step(s, GateInputView::AllowedChecked(false)).0.phase is Classifying
        },
{
}

/// A decision begins with the check of the paths if and only if there is a working directory
/// and the agent has no full access; a cancelled agent is denied before any check.
pub proof fn a_decision_begins_with_its_checks(
    conversation_id: Seq<char>,
    tool_name: Seq<char>,
    input: serde_json::Value,
    cancelled: bool,
    full_access: bool,
    cwd: Seq<char>,
)
    ensures
        ({
            let (s, actions) = gate_start(
                conversation_id,
                tool_name,
                input,
                cancelled,
                full_access,
                cwd,
            );
            &&& s.conversation_id == conversation_id
            &&& s.tool_name == tool_name
            &&& s.input == input
            &&& actions.len() == 1
            &&& actions[0] is Decide <==> cancelled
            &&& actions[0] is Decide ==> s.phase is Decided
            &&& actions[0] == (GateActionView::CheckPath { cwd }) <==> !cancelled && !full_access
                && cwd.len() > 0
            &&& actions[0] is CheckPath ==> s.phase is CheckingPath
            &&& actions[0] is CheckAllowed <==> !cancelled && (full_access || cwd.len() == 0)
            &&& actions[0] is CheckAllowed ==> s.phase is CheckingAllowed
        }),
{
}

/// What ends a request is done in order: a tool allowed for good is remembered, or a cancelled
/// request is withdrawn, then the decision is recorded where there is a record, and then the
/// agent is told. No decision outlives its request.
pub proof fn a_request_ends_in_order(
    s: GateView,
    request_id: Seq<char>,
    execution_id: Option<Seq<char>>,
    reply: Option<Seq<char>>,
)
    requires
        s.phase == (GatePhaseView::Waiting { request_id, execution_id }),
    ensures
        ({
            let (answered, told) = gate_step(s, GateInputView::Replied(reply));
            let (stopped, ends) = gate_step(s, GateInputView::Cancelled);
            let allowed = reply == Some("allow_once"@) || reply == Some("allow_always"@);
            let decision = if allowed {
                DecisionView::Allow
            } else if reply == Some("deny"@) {
                DecisionView::Deny("User denied permission"@)
            } else if reply is Some {
                DecisionView::Deny("Unknown decision: "@ + reply->0)
            } else {
                DecisionView::Deny("Permission request cancelled"@)
            };
            let remembers = if reply == Some("allow_always"@) {
                seq![
                    GateActionView::RememberAllowed {
                        conversation_id: s.conversation_id,
                        tool_name: s.tool_name,
                    },
                ]
            } else {
                Seq::empty()
            };
            let records = |approved: bool|
                match execution_id {
                    Some(execution_id) => seq![
                        GateActionView::SetApproval { execution_id, approved },
                    ],
                    None => Seq::empty(),
                };
            &&& answered.phase is Decided
            &&& told == remembers + records(allowed) + seq![GateActionView::Decide(decision)]
            &&& stopped.phase is Decided
            &&& ends == seq![GateActionView::DropRequest { request_id }] + records(false) + seq![
                GateActionView::Decide(DecisionView::Deny("Agent cancelled"@)),
            ]
        }),
{
    reveal_strlit("deny");
    reveal_strlit("allow_once");
    reveal_strlit("allow_always");
    assert("deny"@.len() == 4);
    assert("allow_once"@.len() == 10);
    assert("allow_always"@.len() == 12);
    let told = gate_step(s, GateInputView::Replied(reply)).1;
    let ends = gate_step(s, GateInputView::Cancelled).1;
    let allowed = reply == Some("allow_once"@) || reply == Some("allow_always"@);
    match execution_id {
        Some(execution_id) => {
            assert(ends =~= seq![GateActionView::DropRequest { request_id }] + seq![
                GateActionView::SetApproval { execution_id, approved: false },
            ] + seq![GateActionView::Decide(DecisionView::Deny("Agent cancelled"@))]);
        },
        None => {
            assert(ends =~= seq![GateActionView::DropRequest { request_id }] + Seq::empty() + seq![
                GateActionView::Decide(DecisionView::Deny("Agent cancelled"@)),
            ]);
        },
    }
}

/// Whether an answer is what a decision waits for.
pub open spec fn is_expected(phase: GatePhaseView, input: GateInputView) -> bool {
    match phase {
        GatePhaseView::CheckingPath => input is PathChecked,
        GatePhaseView::CheckingAllowed => input is AllowedChecked,
        GatePhaseView::Classifying => input is Classified,
        GatePhaseView::MakingId { .. } => input is IdMade,
        GatePhaseView::SavingExecution { .. } => input is ExecutionSaved,
        GatePhaseView::Waiting { .. } => input is Replied || input is Cancelled,
        GatePhaseView::Decided => false,
    }
}

/// An answer that is not waited for changes nothing, and what a decision is about never
/// changes.
pub proof fn a_decision_keeps_to_its_tool(s: GateView, input: GateInputView)
    ensures
        !is_expected(s.phase, input) ==> gate_step(s, input) == (
            s,
            Seq::<GateActionView>::empty(),
        ),
        gate_step(s, input).0.conversation_id == s.conversation_id,
        gate_step(s, input).0.tool_name == s.tool_name,
        gate_step(s, input).0.input == s.input,
{
}

/// The id of a question is told from that of a permission request by how it begins.
pub proof fn questions_and_requests_have_different_ids(id: Seq<char>, other: Seq<char>)
    ensures
        ask_id_of(id) == "ask_"@ + id,
        ask_id_of(id) != "perm_"@ + other,
        ask_id_of(id) == ask_id_of(other) ==> id == other,
{
    reveal_strlit("ask_");
    reveal_strlit("perm_");
    assert(ask_id_of(id)[0] == 'a');
    assert(("perm_"@ + other)[0] == 'p');
    if ask_id_of(id) == ask_id_of(other) {
        assert(ask_id_of(id).skip(4) =~= id);
        assert(ask_id_of(other).skip(4) =~= other);
    }
}

} // verus!
