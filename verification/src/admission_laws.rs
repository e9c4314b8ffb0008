//! What holds of every way of a prompt to an agent, whatever the answers are.
use vstd::prelude::*;

use crate::admission::{
    admission_inv, admission_start, admission_step, rank, title_of_prompt, turn_cwd,
    AdmissionActionView, AdmissionInputView, AdmissionView, TurnKind, TITLE_CHARS,
};
use crate::registry::rerank_only;
use crate::text::trimmed;

verus! {

/// The state and all actions of a prompt after some answers.
pub open spec fn admission_run(
    kind: TurnKind,
    conversation_id: Seq<char>,
    prompt: Seq<char>,
    inputs: Seq<AdmissionInputView>,
) -> (AdmissionView, Seq<AdmissionActionView>)
    decreases inputs.len(),
{
    if inputs.len() == 0 {
        admission_start(kind, conversation_id, prompt)
    } else {
        let (s, actions) = admission_run(kind, conversation_id, prompt, inputs.drop_last());
        let (next, more) = admission_step(s, inputs.last());
        (next, actions + more)
    }
}

/// Whether an action changes what is stored.
pub open spec fn stores(action: AdmissionActionView) -> bool {
    ||| action is MarkRunning
    ||| action is SavePrompt
    ||| action is CountMessage
    ||| action is SaveTitle
}

/// Whether the conversation was found to have no running agent.
spec fn found_free(inputs: Seq<AdmissionInputView>) -> bool {
    inputs.contains(AdmissionInputView::RunningChecked(false))
}

/// What holds of the actions of a prompt at each point of its way.
spec fn way_ok(
    s: AdmissionView,
    actions: Seq<AdmissionActionView>,
    inputs: Seq<AdmissionInputView>,
) -> bool {
    &&& admission_inv(s)
    &&& 2 <= rank(s.phase) && !(s.phase is Refused) ==> found_free(inputs)
    &&& forall|k: int|
        0 <= k < actions.len() && stores(#[trigger] actions[k]) ==> found_free(inputs)
    &&& forall|k: int|
        0 <= k < actions.len() && #[trigger] actions[k] is Start ==> s.phase is Admitted && k
            == actions.len() - 1
    &&& forall|k: int|
        0 <= k < actions.len() && #[trigger] actions[k] is Refuse ==> s.phase is Refused && k
            == actions.len() - 1
    &&& s.phase is Admitted ==> actions.len() > 0 && actions.last() is Start
    &&& s.phase is Refused ==> actions.len() > 0 && actions.last() is Refuse
    &&& s.phase is Admitted && s.kind == TurnKind::BuiltIn ==> !rerank_only(s.provider->0)
    &&& 10 <= rank(s.phase) && !(s.phase is Refused) && s.kind == TurnKind::BuiltIn
        ==> !rerank_only(s.provider->0)
}

/// One answer keeps [`way_ok`].
proof fn step_keeps_way(
    s: AdmissionView,
    actions: Seq<AdmissionActionView>,
    inputs: Seq<AdmissionInputView>,
    input: AdmissionInputView,
)
    requires
        way_ok(s, actions, inputs),
    ensures
        way_ok(
            admission_step(s, input).0,
            actions + admission_step(s, input).1,
            inputs.push(input),
        ),
{
    let (next, more) = admission_step(s, input);
    let all = actions + more;
    let longer = inputs.push(input);
    assert(found_free(inputs) ==> found_free(longer)) by {
        if found_free(inputs) {
            let i = choose|i: int|
                0 <= i < inputs.len() && inputs[i] == AdmissionInputView::RunningChecked(false);
            assert(longer[i] == inputs[i]);
        }
    }
    assert(input == AdmissionInputView::RunningChecked(false) ==> found_free(longer)) by {
        assert(longer[inputs.len() as int] == input);
    }
    assert forall|k: int| 0 <= k < all.len() && stores(#[trigger] all[k]) implies found_free(
        longer,
    ) by {
        if k < actions.len() {
            assert(all[k] == actions[k]);
        } else {
            assert(all[k] == more[k - actions.len()]);
        }
    }
    assert forall|k: int| 0 <= k < all.len() && #[trigger] all[k] is Start implies next.phase
        is Admitted && k == all.len() - 1 by {
        if k < actions.len() {
            assert(all[k] == actions[k]);
        } else {
            assert(all[k] == more[k - actions.len()]);
        }
    }
    assert forall|k: int| 0 <= k < all.len() && #[trigger] all[k] is Refuse implies next.phase
        is Refused && k == all.len() - 1 by {
        if k < actions.len() {
            assert(all[k] == actions[k]);
        } else {
            assert(all[k] == more[k - actions.len()]);
        }
    }
}

/// Every prompt is on a way as [`way_ok`] says.
proof fn run_is_ok(
    kind: TurnKind,
    conversation_id: Seq<char>,
    prompt: Seq<char>,
    inputs: Seq<AdmissionInputView>,
)
    ensures
        way_ok(
            admission_run(kind, conversation_id, prompt, inputs).0,
            admission_run(kind, conversation_id, prompt, inputs).1,
            inputs,
        ),
        admission_run(kind, conversation_id, prompt, inputs).0.kind == kind,
        admission_run(kind, conversation_id, prompt, inputs).0.prompt == prompt,
        admission_run(kind, conversation_id, prompt, inputs).0.conversation_id == conversation_id,
    decreases inputs.len(),
{
    if inputs.len() > 0 {
        let before = inputs.drop_last();
        run_is_ok(kind, conversation_id, prompt, before);
        let (s, actions) = admission_run(kind, conversation_id, prompt, before);
        step_keeps_way(s, actions, before, inputs.last());
        assert(before.push(inputs.last()) =~= inputs);
    }
}

/// Nothing is stored for a prompt before its conversation was found to have no running agent.
pub proof fn nothing_is_stored_while_another_runs(
    kind: TurnKind,
    conversation_id: Seq<char>,
    prompt: Seq<char>,
    inputs: Seq<AdmissionInputView>,
)
    ensures
        ({
            let (_, actions) = admission_run(kind, conversation_id, prompt, inputs);
            (exists|k: int| 0 <= k < actions.len() && stores(#[trigger] actions[k]))
                ==> inputs.contains(AdmissionInputView::RunningChecked(false))
        }),
{
    run_is_ok(kind, conversation_id, prompt, inputs);
}

/// A prompt starts an agent or is refused, never both, and it does so last and once: no
/// action follows, and no earlier action is the like.
pub proof fn a_prompt_is_decided_once(
    kind: TurnKind,
    conversation_id: Seq<char>,
    prompt: Seq<char>,
    inputs: Seq<AdmissionInputView>,
    k: int,
)
    ensures
        ({
            let (s, actions) = admission_run(kind, conversation_id, prompt, inputs);
            &&& (s.phase is Admitted <==> actions.len() > 0 && actions.last() is Start)
            &&& (s.phase is Refused <==> actions.len() > 0 && actions.last() is Refuse)
            &&& 0 <= k < actions.len() && (actions[k] is Start || actions[k] is Refuse) ==> k
                == actions.len() - 1
        }),
{
    run_is_ok(kind, conversation_id, prompt, inputs);
    let (s, actions) = admission_run(kind, conversation_id, prompt, inputs);
    if actions.len() > 0 {
        assert(actions.last() == actions[actions.len() - 1]);
    }
}

/// An agent that starts has a session, a stored prompt, and, where it is the built-in one, a
/// provider that can chat. A command-line agent starts on no blank prompt.
pub proof fn a_started_agent_has_what_it_needs(
    kind: TurnKind,
    conversation_id: Seq<char>,
    prompt: Seq<char>,
    inputs: Seq<AdmissionInputView>,
)
    ensures
        ({
            let (s, _) = admission_run(kind, conversation_id, prompt, inputs);
            s.phase is Admitted ==> {
                &&& s.session is Some
                &&& s.user_message is Some
                &&& kind == TurnKind::BuiltIn ==> s.provider is Some && !rerank_only(s.provider->0)
                &&& kind == TurnKind::CommandLine ==> trimmed(prompt).len() > 0
            }
        }),
{
    run_is_ok(kind, conversation_id, prompt, inputs);
}

/// An answer either carries a prompt forward or changes nothing. A decided prompt stays as it
/// is.
pub proof fn a_prompt_only_goes_forward(s: AdmissionView, input: AdmissionInputView)
    ensures
        ({
            let (next, actions) = admission_step(s, input);
            &&& rank(next.phase) > rank(s.phase) || (next == s && actions.len() == 0)
            &&& s.phase is Admitted || s.phase is Refused ==> next == s && actions.len() == 0
        }),
{
}

/// While an agent runs for a conversation, a second prompt is refused.
pub proof fn a_second_prompt_is_refused(
    runs: Map<Seq<char>, Seq<char>>,
    run_id: Seq<char>,
    s: AdmissionView,
)
    requires
        s.phase is CheckingRunning,
    ensures
        ({
            let started = runs.insert(s.conversation_id, run_id);
            let (next, actions) = admission_step(
                s,
                AdmissionInputView::RunningChecked(started.contains_key(s.conversation_id)),
            );
            &&& next.phase is Refused
            &&& actions == seq![AdmissionActionView::Refuse("Agent is already running"@)]
        }),
{
}

/// A title shows the beginning of its prompt and is at most three characters longer than the
/// limit.
pub proof fn title_shows_the_prompt(prompt: Seq<char>)
    ensures
        title_of_prompt(prompt).len() <= TITLE_CHARS + 3,
        prompt.len() <= TITLE_CHARS ==> title_of_prompt(prompt) == prompt,
        prompt.len() > TITLE_CHARS ==> title_of_prompt(prompt).take(TITLE_CHARS as int)
            == prompt.take(TITLE_CHARS as int),
        prompt.len() > 30 ==> title_of_prompt(prompt) == prompt.take(30) + "..."@,
        prompt.len() <= 30 ==> title_of_prompt(prompt) == prompt,
{
    reveal_strlit("...");
    if prompt.len() > TITLE_CHARS {
        assert(title_of_prompt(prompt).take(TITLE_CHARS as int) =~= prompt.take(
            TITLE_CHARS as int,
        ));
    }
}

/// A turn never runs in a blank directory, and a usable request wins over the session.
pub proof fn requested_directory_wins(requested: Option<Seq<char>>, session: Option<Seq<char>>)
    ensures
        turn_cwd(requested, session) matches Some(dir) ==> trimmed(dir).len() > 0,
        requested is Some && trimmed(requested->0).len() > 0 ==> turn_cwd(requested, session)
            == requested,
        requested is None ==> turn_cwd(requested, session) == turn_cwd(session, None),
        requested is Some && trimmed(requested->0).len() == 0 ==> turn_cwd(requested, session)
            is None,
        requested is None && session is Some && trimmed(session->0).len() > 0 ==> turn_cwd(
            requested,
            session,
        ) == session,
{
}

} // verus!
