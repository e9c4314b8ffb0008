//! What holds of every agent turn, whatever the agent sends and the store answers.
use vstd::prelude::*;

use crate::payload::EventView;
use crate::stream::{
    block_events, input_in_range, on_assistant, on_closed, on_delta, on_final_saved, on_message,
    on_message_saved, on_tool_saved, run_inv, run_start, run_step, wrap_up, ActionView, BlockView,
    CauseView, OutcomeView, PhaseView, RunInputView, RunView, ToolUseView,
};
use crate::text::occurs_in;
use crate::transcript::{
    every_piece_is_shown, final_content, final_content_is_complete, occurs_in_longer, rendered,
    rendering_only_grows, Piece,
};

verus! {

/// The state of a turn after some inputs.
pub open spec fn run_state(start: RunView, inputs: Seq<RunInputView>) -> RunView
    decreases inputs.len(),
{
    if inputs.len() == 0 {
        start
    } else {
        run_step(run_state(start, inputs.drop_last()), inputs.last()).0
    }
}

/// All actions of a turn after some inputs.
pub open spec fn run_actions(start: RunView, inputs: Seq<RunInputView>) -> Seq<ActionView>
    decreases inputs.len(),
{
    if inputs.len() == 0 {
        Seq::empty()
    } else {
        run_actions(start, inputs.drop_last()) + run_step(
            run_state(start, inputs.drop_last()),
            inputs.last(),
        ).1
    }
}

/// Whether every input is in range.
pub open spec fn inputs_in_range(inputs: Seq<RunInputView>) -> bool {
    forall|i: int| 0 <= i < inputs.len() ==> input_in_range(#[trigger] inputs[i])
}

/// An event that tells the user interface that the turn is over.
pub open spec fn is_closing(action: ActionView) -> bool {
    action matches ActionView::Emit(event) && (event is Done || event is Error)
}

/// An action that frees the session for the next turn.
pub open spec fn is_release(action: ActionView) -> bool {
    action is SetIdle || action is SaveSession
}

/// Whether the closing event of a turn is still to come.
pub open spec fn before_closing(phase: PhaseView) -> bool {
    phase is Listening || phase is SavingMessage || phase is SavingTool || phase is SavingFinal
}

/// The content that waits to be stored is the final one.
pub open spec fn final_is_pending(s: RunView) -> bool {
    s.phase matches PhaseView::SavingFinal { content } ==> content == final_content(
        s.pieces,
        s.outcome->0.text,
    )
}

/// A turn that is over does nothing more.
pub proof fn ended_turn_is_silent(s: RunView, input: RunInputView)
    requires
        s.phase is Ended,
    ensures
        run_step(s, input) == (s, Seq::<ActionView>::empty()),
{
}

/// The events of a message's blocks are streamed pieces.
proof fn block_events_are_streamed(s: RunView, blocks: Seq<BlockView>)
    ensures
        forall|i: int|
            0 <= i < block_events(s, blocks).len() ==> {
                let action = #[trigger] block_events(s, blocks)[i];
                action matches ActionView::Emit(event) && (event is StreamText
                    || event is StreamThinking)
            },
    decreases blocks.len(),
{
    if blocks.len() > 0 {
        block_events_are_streamed(s, blocks.drop_last());
    }
}

/// What one step of a turn can do, in one place.
spec fn step_ok(s: RunView, input: RunInputView, next: RunView, actions: Seq<ActionView>) -> bool {
    &&& run_inv(next)
    &&& final_is_pending(next)
    &&& s.message_id is Some ==> next.message_id == s.message_id
    &&& s.pieces.is_prefix_of(next.pieces)
    &&& next.outcome is Some ==> s.outcome is Some || input is Result
    &&& !before_closing(s.phase) ==> !before_closing(next.phase) && next.pieces == s.pieces
        && next.outcome == s.outcome
    &&& s.phase is Ended ==> next == s && actions.len() == 0
    &&& forall|i: int|
        0 <= i < actions.len() ==> action_ok(s, next, actions, #[trigger] actions[i], i)
    &&& forall|i: int, j: int|
        0 <= i < j < actions.len() && is_closing(#[trigger] actions[i]) ==> !is_closing(
            #[trigger] actions[j],
        )
    &&& next.phase is Ended && !(s.phase is Ended) ==> actions.len() > 0 && is_release(
        actions.last(),
    )
}

/// What one action of a step can be.
spec fn action_ok(
    s: RunView,
    next: RunView,
    actions: Seq<ActionView>,
    action: ActionView,
    i: int,
) -> bool {
    &&& is_closing(action) ==> before_closing(s.phase) && !before_closing(next.phase)
    &&& is_release(action) ==> i == actions.len() - 1 && next.phase is Ended
    &&& action is CreateMessage ==> s.message_id is None
    &&& done_ok(next, action)
}

/// A report carries what a turn has shown and its result.
spec fn done_ok(s: RunView, action: ActionView) -> bool {
    action matches ActionView::Emit(EventView::Done { text, .. }) ==> s.outcome is Some && text
        == final_content(s.pieces, s.outcome->0.text)
}

proof fn assistant_facts(s: RunView, blocks: Seq<BlockView>)
    requires
        run_inv(s),
        s.phase is Listening,
    ensures
        ({
            let (next, actions) = on_assistant(s, blocks);
            step_ok(s, RunInputView::Assistant(blocks), next, actions)
        }),
{
    block_events_are_streamed(s, blocks);
}

proof fn delta_facts(s: RunView, piece: Piece)
    requires
        run_inv(s),
        s.phase is Listening,
    ensures
        ({
            let (next, actions) = on_delta(s, piece);
            let input = match piece {
                Piece::Thought(text) => RunInputView::ThinkingDelta(text),
                Piece::Plain(text) => RunInputView::TextDelta(text),
            };
            step_ok(s, input, next, actions)
        }),
{
}

proof fn closed_facts(s: RunView, crashed: bool)
    requires
        run_inv(s),
        s.phase is Listening,
    ensures
        ({
            let (next, actions) = on_closed(s, crashed);
            step_ok(s, RunInputView::Closed { crashed }, next, actions)
        }),
{
}

proof fn listening_facts(s: RunView, input: RunInputView)
    requires
        run_inv(s),
        input_in_range(input),
        s.phase is Listening,
        !(input is Assistant || input is ThinkingDelta || input is TextDelta || input is Closed),
    ensures
        ({
            let (next, actions) = on_message(s, input);
            step_ok(s, input, next, actions)
        }),
{
}

proof fn message_saved_facts(s: RunView, cause: CauseView, id: Option<Seq<char>>)
    requires
        run_inv(s),
        s.phase == PhaseView::SavingMessage(cause),
    ensures
        ({
            let (next, actions) = on_message_saved(s, cause, id);
            step_ok(s, RunInputView::MessageSaved(id), next, actions)
        }),
{
}

proof fn tool_saved_facts(s: RunView, tools: Seq<ToolUseView>, at: int, id: Option<Seq<char>>)
    requires
        run_inv(s),
        s.phase == (PhaseView::SavingTool { tools, next: at }),
    ensures
        ({
            let (next, actions) = on_tool_saved(s, tools, at, id);
            step_ok(s, RunInputView::ToolExecutionSaved(id), next, actions)
        }),
{
}

proof fn final_saved_facts(s: RunView, content: Seq<char>, id: Option<Seq<char>>)
    requires
        run_inv(s),
        final_is_pending(s),
        s.phase == (PhaseView::SavingFinal { content }),
    ensures
        ({
            let (next, actions) = on_final_saved(s, s.outcome->0, content, id);
            step_ok(s, RunInputView::MessageSaved(id), next, actions)
        }),
{
}

proof fn title_facts(s: RunView, input: RunInputView)
    requires
        run_inv(s),
        s.phase is Titling || s.phase is SavingTitle || s.phase is Ended,
    ensures
        ({
            let (next, actions) = run_step(s, input);
            step_ok(s, input, next, actions)
        }),
{
}

proof fn step_facts(s: RunView, input: RunInputView)
    requires
        run_inv(s),
        final_is_pending(s),
        input_in_range(input),
    ensures
        step_ok(s, input, run_step(s, input).0, run_step(s, input).1),
{
    match (s.phase, input) {
        (PhaseView::Listening, RunInputView::Assistant(blocks)) => assistant_facts(s, blocks),
        (PhaseView::Listening, RunInputView::ThinkingDelta(text)) => delta_facts(
            s,
            Piece::Thought(text),
        ),
        (PhaseView::Listening, RunInputView::TextDelta(text)) => delta_facts(
            s,
            Piece::Plain(text),
        ),
        (PhaseView::Listening, RunInputView::Closed { crashed }) => closed_facts(s, crashed),
        (PhaseView::Listening, _) => listening_facts(s, input),
        (PhaseView::SavingMessage(cause), RunInputView::MessageSaved(id)) => message_saved_facts(
            s,
            cause,
            id,
        ),
        (PhaseView::SavingTool { tools, next }, RunInputView::ToolExecutionSaved(id)) =>
            tool_saved_facts(s, tools, next, id),
        (PhaseView::SavingFinal { content }, RunInputView::MessageSaved(id)) => final_saved_facts(
            s,
            content,
            id,
        ),
        (PhaseView::Titling, _) => title_facts(s, input),
        (PhaseView::SavingTitle { .. }, _) => title_facts(s, input),
        (PhaseView::Ended, _) => title_facts(s, input),
        _ => {
            assert(run_step(s, input) == (s, Seq::<ActionView>::empty()));
        },
    }
}

/// What holds of a turn after any inputs, in one place.
spec fn history_ok(
    start: RunView,
    inputs: Seq<RunInputView>,
    s: RunView,
    actions: Seq<ActionView>,
) -> bool {
    &&& run_inv(s)
    &&& final_is_pending(s)
    &&& s.outcome is Some ==> start.outcome is Some || exists|k: int|
        0 <= k < inputs.len() && #[trigger] inputs[k] is Result
    &&& forall|i: int|
        0 <= i < actions.len() ==> {
            let action = #[trigger] actions[i];
            &&& is_closing(action) ==> !before_closing(s.phase)
            &&& is_release(action) ==> i == actions.len() - 1 && s.phase is Ended
            &&& done_ok(s, action)
        }
    &&& forall|i: int, j: int|
        0 <= i < j < actions.len() && is_closing(#[trigger] actions[i]) ==> !is_closing(
            #[trigger] actions[j],
        )
    &&& s.phase is Ended ==> actions.len() > 0 && is_release(actions.last())
}

proof fn history_extends(
    start: RunView,
    inputs: Seq<RunInputView>,
    s: RunView,
    actions: Seq<ActionView>,
    input: RunInputView,
    next: RunView,
    more: Seq<ActionView>,
)
    requires
        history_ok(start, inputs, s, actions),
        step_ok(s, input, next, more),
    ensures
        history_ok(start, inputs.push(input), next, actions + more),
{
    let all = actions + more;
    let longer = inputs.push(input);
    if next.outcome is Some && start.outcome is None {
        if s.outcome is Some {
            let k = choose|k: int| 0 <= k < inputs.len() && #[trigger] inputs[k] is Result;
            assert(longer[k] is Result);
        } else {
            assert(longer[inputs.len() as int] is Result);
        }
    }
    if s.phase is Ended {
        assert(all =~= actions);
    }
    assert forall|i: int| 0 <= i < all.len() implies {
        let action = #[trigger] all[i];
        &&& is_closing(action) ==> !before_closing(next.phase)
        &&& is_release(action) ==> i == all.len() - 1 && next.phase is Ended
        &&& done_ok(next, action)
    } by {
        if i < actions.len() {
            assert(all[i] == actions[i]);
        } else {
            assert(all[i] == more[i - actions.len()]);
        }
    }
    assert forall|i: int, j: int|
        0 <= i < j < all.len() && is_closing(#[trigger] all[i]) implies !is_closing(
        #[trigger] all[j],
    ) by {
        if j < actions.len() {
            assert(all[i] == actions[i] && all[j] == actions[j]);
        } else if i < actions.len() {
            assert(all[i] == actions[i] && all[j] == more[j - actions.len()]);
        } else {
            assert(all[i] == more[i - actions.len()] && all[j] == more[j - actions.len()]);
        }
    }
}

proof fn run_facts(start: RunView, inputs: Seq<RunInputView>)
    requires
        run_inv(start),
        final_is_pending(start),
        before_closing(start.phase),
        inputs_in_range(inputs),
    ensures
        history_ok(start, inputs, run_state(start, inputs), run_actions(start, inputs)),
    decreases inputs.len(),
{
    if inputs.len() > 0 {
        let earlier = inputs.drop_last();
        let input = inputs.last();
        assert(inputs_in_range(earlier)) by {
            assert forall|i: int| 0 <= i < earlier.len() implies input_in_range(
                #[trigger] earlier[i],
            ) by {
                assert(earlier[i] == inputs[i]);
            }
        }
        run_facts(start, earlier);
        let s = run_state(start, earlier);
        assert(inputs[inputs.len() - 1] == input);
        step_facts(s, input);
        let (next, more) = run_step(s, input);
        history_extends(start, earlier, s, run_actions(start, earlier), input, next, more);
        assert(earlier.push(input) =~= inputs);
    }
}

/// A turn tells the user interface at most once that it is over.
pub proof fn turn_closes_at_most_once(
    conversation_id: Seq<char>,
    user_message_id: Seq<char>,
    user_created_at: i64,
    model_id: Seq<char>,
    first_message: bool,
    inputs: Seq<RunInputView>,
    i: int,
    j: int,
)
    requires
        inputs_in_range(inputs),
    ensures
        ({
            let start = run_start(
                conversation_id,
                user_message_id,
                user_created_at,
                model_id,
                first_message,
            );
            let actions = run_actions(start, inputs);
            0 <= i < j < actions.len() ==> !(is_closing(actions[i]) && is_closing(actions[j]))
        }),
{
    let start = run_start(
        conversation_id,
        user_message_id,
        user_created_at,
        model_id,
        first_message,
    );
    run_facts(start, inputs);
}

/// A turn frees its session as its very last action, and a turn that is over has done so.
pub proof fn session_is_released_last(
    conversation_id: Seq<char>,
    user_message_id: Seq<char>,
    user_created_at: i64,
    model_id: Seq<char>,
    first_message: bool,
    inputs: Seq<RunInputView>,
)
    requires
        inputs_in_range(inputs),
    ensures
        ({
            let start = run_start(
                conversation_id,
                user_message_id,
                user_created_at,
                model_id,
                first_message,
            );
            let s = run_state(start, inputs);
            let actions = run_actions(start, inputs);
            &&& forall|i: int|
                0 <= i < actions.len() && is_release(#[trigger] actions[i]) ==> i
                    == actions.len() - 1 && s.phase is Ended
            &&& s.phase is Ended ==> actions.len() > 0 && is_release(actions.last())
        }),
{
    let start = run_start(
        conversation_id,
        user_message_id,
        user_created_at,
        model_id,
        first_message,
    );
    run_facts(start, inputs);
}

/// A turn is reported as done only after the agent has given a result, and the report
/// carries everything the turn has shown and the result.
pub proof fn done_reports_everything(
    conversation_id: Seq<char>,
    user_message_id: Seq<char>,
    user_created_at: i64,
    model_id: Seq<char>,
    first_message: bool,
    inputs: Seq<RunInputView>,
    at: int,
)
    requires
        inputs_in_range(inputs),
        ({
            let start = run_start(
                conversation_id,
                user_message_id,
                user_created_at,
                model_id,
                first_message,
            );
            let actions = run_actions(start, inputs);
            0 <= at < actions.len() && (actions[at] matches ActionView::Emit(event)
                && event is Done)
        }),
    ensures
        exists|k: int| 0 <= k < inputs.len() && #[trigger] inputs[k] is Result,
        ({
            let start = run_start(
                conversation_id,
                user_message_id,
                user_created_at,
                model_id,
                first_message,
            );
            let s = run_state(start, inputs);
            run_actions(start, inputs)[at] matches ActionView::Emit(EventView::Done { text, .. })
                && rendered(s.pieces).is_prefix_of(text) && occurs_in(s.outcome->0.text, text)
        }),
{
    let start = run_start(
        conversation_id,
        user_message_id,
        user_created_at,
        model_id,
        first_message,
    );
    run_facts(start, inputs);
    let s = run_state(start, inputs);
    final_content_is_complete(s.pieces, s.outcome->0.text);
}

/// The pieces that a turn has after some of its inputs stay with all of them.
proof fn pieces_stay(start: RunView, inputs: Seq<RunInputView>, k: int)
    requires
        run_inv(start),
        final_is_pending(start),
        before_closing(start.phase),
        inputs_in_range(inputs),
        0 <= k <= inputs.len(),
    ensures
        run_state(start, inputs.take(k)).pieces.is_prefix_of(run_state(start, inputs).pieces),
    decreases inputs.len(),
{
    if k == inputs.len() {
        assert(inputs.take(k) =~= inputs);
    } else {
        let earlier = inputs.drop_last();
        assert(inputs_in_range(earlier)) by {
            assert forall|i: int| 0 <= i < earlier.len() implies input_in_range(
                #[trigger] earlier[i],
            ) by {
                assert(earlier[i] == inputs[i]);
            }
        }
        pieces_stay(start, earlier, k);
        assert(earlier.take(k) =~= inputs.take(k));
        run_facts(start, earlier);
        assert(inputs[inputs.len() - 1] == inputs.last());
        step_facts(run_state(start, earlier), inputs.last());
        let few = run_state(start, inputs.take(k)).pieces;
        let all = run_state(start, inputs).pieces;
        assert(few =~= all.subrange(0, few.len() as int));
    }
}

/// Nothing that was streamed is lost: a piece of answer text or reasoning that reached a
/// listening turn occurs in the text of the report.
pub proof fn streamed_text_reaches_the_report(
    conversation_id: Seq<char>,
    user_message_id: Seq<char>,
    user_created_at: i64,
    model_id: Seq<char>,
    first_message: bool,
    inputs: Seq<RunInputView>,
    k: int,
    text: Seq<char>,
    at: int,
)
    requires
        inputs_in_range(inputs),
        ({
            let start = run_start(
                conversation_id,
                user_message_id,
                user_created_at,
                model_id,
                first_message,
            );
            let actions = run_actions(start, inputs);
            &&& 0 <= k < inputs.len()
            &&& inputs[k] == RunInputView::TextDelta(text) || inputs[k]
                == RunInputView::ThinkingDelta(text)
            &&& run_state(start, inputs.take(k)).phase is Listening
            &&& 0 <= at < actions.len()
            &&& actions[at] matches ActionView::Emit(event) && event is Done
        }),
    ensures
        ({
            let start = run_start(
                conversation_id,
                user_message_id,
                user_created_at,
                model_id,
                first_message,
            );
            run_actions(start, inputs)[at] matches ActionView::Emit(
                EventView::Done { text: report, .. },
            ) && occurs_in(text, report)
        }),
{
    let start = run_start(
        conversation_id,
        user_message_id,
        user_created_at,
        model_id,
        first_message,
    );
    run_facts(start, inputs);
    let s = run_state(start, inputs);
    let upto = inputs.take(k + 1);
    assert(upto.drop_last() =~= inputs.take(k));
    let shown = run_state(start, upto).pieces;
    pieces_stay(start, inputs, k + 1);
    let i = shown.len() - 1;
    assert(shown[i].text() == text);
    assert(s.pieces[i] == shown[i]);
    every_piece_is_shown(s.pieces, i);
    final_content_is_complete(s.pieces, s.outcome->0.text);
    occurs_in_longer(text, rendered(s.pieces), final_content(s.pieces, s.outcome->0.text));
}

/// What a turn has shown stays: more inputs only append to the text of the message.
pub proof fn shown_text_only_grows(s: RunView, input: RunInputView)
    requires
        run_inv(s),
        final_is_pending(s),
        input_in_range(input),
    ensures
        rendered(s.pieces).is_prefix_of(rendered(run_step(s, input).0.pieces)),
{
    step_facts(s, input);
    let next = run_step(s, input).0;
    let more = next.pieces.skip(s.pieces.len() as int);
    assert(s.pieces + more =~= next.pieces);
    rendering_only_grows(s.pieces, more);
}

/// A turn has one assistant message: it asks for one only while it knows of none, and it
/// never forgets the one that it has.
pub proof fn one_assistant_message(s: RunView, input: RunInputView)
    requires
        run_inv(s),
        final_is_pending(s),
        input_in_range(input),
    ensures
        s.message_id is Some ==> run_step(s, input).0.message_id == s.message_id,
        forall|i: int|
            0 <= i < run_step(s, input).1.len() && #[trigger] run_step(s, input).1[i]
                is CreateMessage ==> s.message_id is None,
{
    step_facts(s, input);
}

/// The inputs of a turn lead only to states that a turn can be in.
pub proof fn turn_stays_sound(
    conversation_id: Seq<char>,
    user_message_id: Seq<char>,
    user_created_at: i64,
    model_id: Seq<char>,
    first_message: bool,
    inputs: Seq<RunInputView>,
)
    requires
        inputs_in_range(inputs),
    ensures
        ({
            let start = run_start(
                conversation_id,
                user_message_id,
                user_created_at,
                model_id,
                first_message,
            );
            run_inv(run_state(start, inputs)) && final_is_pending(run_state(start, inputs))
        }),
{
    let start = run_start(
        conversation_id,
        user_message_id,
        user_created_at,
        model_id,
        first_message,
    );
    run_facts(start, inputs);
}

/// A streamed piece is shown and reported once: the whole message that follows the streamed
/// pieces adds neither text nor events of its own.
pub proof fn streamed_text_is_not_repeated(s: RunView, blocks: Seq<BlockView>)
    requires
        s.phase is Listening,
        s.streamed,
    ensures
        ({
            let (next, actions) = run_step(s, RunInputView::Assistant(blocks));
            &&& next.pieces == s.pieces
            &&& forall|i: int|
                0 <= i < actions.len() ==> !(#[trigger] actions[i] matches ActionView::Emit(event)
                    && (event is StreamText || event is StreamThinking))
        }),
{
}

/// Tool calls are recorded only once the assistant message that asks for them was created, or
/// its creation was tried: a message that has to be created comes first.
pub proof fn message_comes_before_its_tools(s: RunView, blocks: Seq<BlockView>)
    requires
        s.phase is Listening,
        s.message_id is None,
    ensures
        ({
            let (next, actions) = run_step(s, RunInputView::Assistant(blocks));
            &&& next.phase is SavingMessage
            &&& actions.len() > 0 && actions.last() is CreateMessage
            &&& forall|i: int|
                0 <= i < actions.len() ==> !((#[trigger] actions[i]) is CreateToolExecution)
        }),
{
    block_events_are_streamed(s, blocks);
}

/// A turn whose agent sends no more messages is answered: the user gets an error, or the
/// closing event, at once or as soon as the final message is stored.
pub proof fn a_closed_turn_is_answered(s: RunView, crashed: bool, id: Option<Seq<char>>)
    requires
        run_inv(s),
        s.phase is Listening,
    ensures
        ({
            let (next, actions) = run_step(s, RunInputView::Closed { crashed });
            if next.phase is SavingFinal {
                let later = run_step(next, RunInputView::MessageSaved(id)).1;
                exists|i: int| 0 <= i < later.len() && is_closing(#[trigger] later[i])
            } else {
                exists|i: int| 0 <= i < actions.len() && is_closing(#[trigger] actions[i])
            }
        }),
{
    let (next, actions) = run_step(s, RunInputView::Closed { crashed });
    match s.outcome {
        None => {
            assert(is_closing(actions[0]));
        },
        Some(outcome) => {
            if next.phase is SavingFinal {
                let (_, later) = run_step(next, RunInputView::MessageSaved(id));
                match id {
                    Some(_) => {
                        assert(is_closing(later[2]));
                    },
                    None => {
                        assert(is_closing(later[0]));
                    },
                }
            } else if final_content(s.pieces, outcome.text).len() == 0 {
                match s.message_id {
                    Some(_) => {
                        assert(is_closing(actions[1]));
                    },
                    None => {
                        assert(is_closing(actions[0]));
                    },
                }
            } else {
                assert(is_closing(actions[2]));
            }
        },
    }
}

/// An event that tells the user interface that the turn has failed.
pub open spec fn is_failure(action: ActionView) -> bool {
    action matches ActionView::Emit(event) && event is Error
}

/// Whether an input came while the turn listened to the agent.
#[verifier::opaque]
pub open spec fn heard(start: RunView, inputs: Seq<RunInputView>, k: int) -> bool {
    0 <= k < inputs.len() && run_state(start, inputs.take(k)).phase is Listening
}

/// Whether the agent told the turn that it has failed.
pub open spec fn agent_failed(start: RunView, inputs: Seq<RunInputView>) -> bool {
    exists|k: int| heard(start, inputs, k) && #[trigger] inputs[k] is Error
}

/// Whether the agent gave the turn a result.
pub open spec fn agent_gave_result(start: RunView, inputs: Seq<RunInputView>) -> bool {
    exists|k: int| heard(start, inputs, k) && #[trigger] inputs[k] is Result
}

/// How one step of a turn closes it, if it does.
spec fn close_ok(s: RunView, input: RunInputView, next: RunView, actions: Seq<ActionView>) -> bool {
    &&& next.outcome is Some <==> s.outcome is Some || (s.phase is Listening && input is Result)
    &&& s.phase is Listening && input is Error ==> next.phase is Ended
    &&& s.phase is Listening && input is Result ==> next.phase is Listening
    &&& before_closing(s.phase) && !before_closing(next.phase) ==> exists|i: int|
        {
            &&& 0 <= i < actions.len()
            &&& is_closing(#[trigger] actions[i])
            &&& is_failure(actions[i]) <==> (s.phase is Listening && input is Error)
                || s.outcome is None
        }
}

proof fn wrap_up_closes(s: RunView, outcome: OutcomeView, content: Seq<char>) -> (at: int)
    ensures
        0 <= at < wrap_up(s, outcome, content).1.len(),
        is_closing(wrap_up(s, outcome, content).1[at]),
        !is_failure(wrap_up(s, outcome, content).1[at]),
{
    if s.message_id is Some {
        1
    } else {
        0
    }
}

proof fn step_closes(s: RunView, input: RunInputView)
    requires
        run_inv(s),
    ensures
        close_ok(s, input, run_step(s, input).0, run_step(s, input).1),
{
    let (next, actions) = run_step(s, input);
    match (s.phase, input) {
        (PhaseView::Listening, RunInputView::Error(message)) => {
            let at = actions.len() - 2;
            assert(is_closing(actions[at]) && is_failure(actions[at]));
        },
        (PhaseView::Listening, RunInputView::Closed { crashed }) => match s.outcome {
            None => {
                assert(is_closing(actions[0]) && is_failure(actions[0]));
            },
            Some(outcome) => {
                let content = final_content(s.pieces, outcome.text);
                let at = wrap_up_closes(s, outcome, content);
                if content.len() == 0 {
                    assert(is_closing(actions[at]));
                } else if s.message_id is Some {
                    assert(actions[at + 1] == wrap_up(s, outcome, content).1[at]);
                    assert(is_closing(actions[at + 1]));
                }
            },
        },
        (PhaseView::SavingFinal { content }, RunInputView::MessageSaved(id)) => {
            let outcome = s.outcome->0;
            match id {
                Some(_) => {
                    let known = RunView { message_id: id, ..s };
                    let at = wrap_up_closes(known, outcome, content);
                    assert(actions[at + 1] == wrap_up(known, outcome, content).1[at]);
                    assert(is_closing(actions[at + 1]));
                },
                None => {
                    let at = wrap_up_closes(s, outcome, content);
                    assert(is_closing(actions[at]));
                },
            }
        },
        _ => {},
    }
}

/// What has been heard stays so with one more input, which is heard where the turn listens.
pub(crate) proof fn heard_with_one_more(start: RunView, inputs: Seq<RunInputView>)
    requires
        inputs.len() > 0,
    ensures
        forall|k: int|
            0 <= k < inputs.len() - 1 ==> heard(start, inputs.drop_last(), k) == #[trigger] heard(
                start,
                inputs,
                k,
            ),
        forall|k: int| #[trigger] heard(start, inputs, k) ==> 0 <= k < inputs.len(),
        forall|k: int| #[trigger]
            heard(start, inputs.drop_last(), k) ==> 0 <= k < inputs.len() - 1,
        heard(start, inputs, inputs.len() - 1) == (run_state(start, inputs.drop_last()).phase
            is Listening),
{
    reveal(heard);
    let earlier = inputs.drop_last();
    assert(inputs.take(inputs.len() - 1) =~= earlier);
    assert forall|k: int| 0 <= k < inputs.len() - 1 implies heard(start, earlier, k)
        == #[trigger] heard(start, inputs, k) by {
        assert(inputs.take(k) =~= earlier.take(k));
    }
}

/// The agent has failed or given a result with one more input where it had before, or where
/// that input is heard and says so.
proof fn agent_with_one_more(start: RunView, inputs: Seq<RunInputView>, listened: bool)
    requires
        inputs.len() > 0,
        listened == heard(start, inputs, inputs.len() - 1),
        forall|k: int|
            0 <= k < inputs.len() - 1 ==> heard(start, inputs.drop_last(), k) == #[trigger] heard(
                start,
                inputs,
                k,
            ),
        forall|k: int| #[trigger] heard(start, inputs, k) ==> 0 <= k < inputs.len(),
        forall|k: int| #[trigger]
            heard(start, inputs.drop_last(), k) ==> 0 <= k < inputs.len() - 1,
    ensures
        agent_failed(start, inputs) <==> agent_failed(start, inputs.drop_last()) || (listened
            && inputs.last() is Error),
        agent_gave_result(start, inputs) <==> agent_gave_result(start, inputs.drop_last()) || (
        listened && inputs.last() is Result),
{
    let earlier = inputs.drop_last();
    assert(inputs[inputs.len() - 1] == inputs.last());
    if agent_failed(start, earlier) {
        let k = choose|k: int| heard(start, earlier, k) && #[trigger] earlier[k] is Error;
        assert(heard(start, inputs, k) && inputs[k] is Error);
    }
    if agent_gave_result(start, earlier) {
        let k = choose|k: int| heard(start, earlier, k) && #[trigger] earlier[k] is Result;
        assert(heard(start, inputs, k) && inputs[k] is Result);
    }
    if agent_failed(start, inputs) {
        let k = choose|k: int| heard(start, inputs, k) && #[trigger] inputs[k] is Error;
        assert(k < inputs.len() - 1 ==> earlier[k] is Error);
    }
    if agent_gave_result(start, inputs) {
        let k = choose|k: int| heard(start, inputs, k) && #[trigger] inputs[k] is Result;
        assert(k < inputs.len() - 1 ==> earlier[k] is Result);
    }
}

/// What the closing event of a turn is, in one place.
spec fn closing_ok(
    s: RunView,
    actions: Seq<ActionView>,
    agent_failed: bool,
    gave_result: bool,
) -> bool {
    &&& s.outcome is Some <==> gave_result
    &&& before_closing(s.phase) ==> !agent_failed && forall|i: int|
        0 <= i < actions.len() ==> !is_closing(#[trigger] actions[i])
    &&& !before_closing(s.phase) ==> exists|i: int|
        {
            &&& 0 <= i < actions.len()
            &&& is_closing(#[trigger] actions[i])
            &&& is_failure(actions[i]) <==> agent_failed || !gave_result
        }
}

proof fn closing_extends(
    s: RunView,
    done: Seq<ActionView>,
    agent_failed: bool,
    gave_result: bool,
    input: RunInputView,
    next: RunView,
    more: Seq<ActionView>,
)
    requires
        closing_ok(s, done, agent_failed, gave_result),
        step_ok(s, input, next, more),
        close_ok(s, input, next, more),
    ensures
        closing_ok(
            next,
            done + more,
            agent_failed || (s.phase is Listening && input is Error),
            gave_result || (s.phase is Listening && input is Result),
        ),
{
    let all = done + more;
    if !before_closing(s.phase) {
        let i = choose|i: int|
            {
                &&& 0 <= i < done.len()
                &&& is_closing(#[trigger] done[i])
                &&& is_failure(done[i]) <==> agent_failed || !gave_result
            };
        assert(all[i] == done[i]);
        assert(is_closing(all[i]));
    } else if before_closing(next.phase) {
        assert forall|i: int| 0 <= i < all.len() implies !is_closing(#[trigger] all[i]) by {
            if i < done.len() {
                assert(all[i] == done[i]);
            } else {
                assert(all[i] == more[i - done.len()]);
            }
        }
    } else {
        let i = choose|i: int|
            {
                &&& 0 <= i < more.len()
                &&& is_closing(#[trigger] more[i])
                &&& is_failure(more[i]) <==> (s.phase is Listening && input is Error)
                    || s.outcome is None
            };
        assert(all[done.len() + i] == more[i]);
        assert(is_closing(all[done.len() + i]));
    }
}

proof fn closing_facts(start: RunView, inputs: Seq<RunInputView>)
    requires
        run_inv(start),
        final_is_pending(start),
        start.phase is Listening,
        start.outcome is None,
        inputs_in_range(inputs),
    ensures
        closing_ok(
            run_state(start, inputs),
            run_actions(start, inputs),
            agent_failed(start, inputs),
            agent_gave_result(start, inputs),
        ),
    decreases inputs.len(),
{
    if inputs.len() > 0 {
        let earlier = inputs.drop_last();
        let input = inputs.last();
        assert(inputs_in_range(earlier)) by {
            assert forall|i: int| 0 <= i < earlier.len() implies input_in_range(
                #[trigger] earlier[i],
            ) by {
                assert(earlier[i] == inputs[i]);
            }
        }
        closing_facts(start, earlier);
        run_facts(start, earlier);
        let s = run_state(start, earlier);
        heard_with_one_more(start, inputs);
        agent_with_one_more(start, inputs, s.phase is Listening);
        assert(inputs[inputs.len() - 1] == input);
        step_facts(s, input);
        step_closes(s, input);
        let (next, more) = run_step(s, input);
        closing_extends(
            s,
            run_actions(start, earlier),
            agent_failed(start, earlier),
            agent_gave_result(start, earlier),
            input,
            next,
            more,
        );
    } else {
        reveal(heard);
    }
}

/// A turn that is over has told the user interface so exactly once: with an error where the
/// agent has failed or gave no result, else with a report. Before that it has not.
pub proof fn an_ended_turn_has_one_closing_event(
    conversation_id: Seq<char>,
    user_message_id: Seq<char>,
    user_created_at: i64,
    model_id: Seq<char>,
    first_message: bool,
    inputs: Seq<RunInputView>,
) -> (at: int)
    requires
        inputs_in_range(inputs),
    ensures
        ({
            let start = run_start(
                conversation_id,
                user_message_id,
                user_created_at,
                model_id,
                first_message,
            );
            let s = run_state(start, inputs);
            let actions = run_actions(start, inputs);
            &&& before_closing(s.phase) ==> forall|i: int|
                0 <= i < actions.len() ==> !is_closing(#[trigger] actions[i])
            &&& !before_closing(s.phase) ==> {
                &&& 0 <= at < actions.len()
                &&& forall|i: int|
                    0 <= i < actions.len() ==> (is_closing(#[trigger] actions[i]) <==> i == at)
                &&& actions[at] matches ActionView::Emit(event) && if agent_failed(start, inputs)
                    || !agent_gave_result(start, inputs) {
                    event is Error
                } else {
                    event is Done
                }
            }
        }),
{
    let start = run_start(
        conversation_id,
        user_message_id,
        user_created_at,
        model_id,
        first_message,
    );
    run_facts(start, inputs);
    closing_facts(start, inputs);
    let actions = run_actions(start, inputs);
    choose|i: int|
        {
            &&& 0 <= i < actions.len()
            &&& is_closing(#[trigger] actions[i])
            &&& is_failure(actions[i]) <==> agent_failed(start, inputs) || !agent_gave_result(
                start,
                inputs,
            )
        }
}

/// Whether an action is the closing event of a message with a content.
pub open spec fn done_with(action: ActionView, id: Seq<char>, content: Seq<char>) -> bool {
    action matches ActionView::Emit(
        EventView::Done { assistant_message_id, text, .. },
    ) && assistant_message_id == id && text == content
}

/// What a turn reports is what it stores: the closing event carries the final content of the
/// assistant message, under the id of that message.
pub proof fn reported_content_is_stored(s: RunView, crashed: bool, saved: Option<Seq<char>>)
    requires
        s.phase is Listening,
        s.outcome is Some,
        final_content(s.pieces, s.outcome->0.text).len() > 0,
    ensures
        ({
            let content = final_content(s.pieces, s.outcome->0.text);
            let (next, actions) = run_step(s, RunInputView::Closed { crashed });
            match s.message_id {
                Some(id) => {
                    &&& actions.len() > 2
                    &&& actions[0] == (ActionView::UpdateMessage { id, content })
                    &&& done_with(actions[2], id, content)
                },
                None => {
                    let (_, later) = run_step(next, RunInputView::MessageSaved(saved));
                    &&& actions == seq![
                        ActionView::CreateMessage {
                            parent_id: s.user_message_id,
                            created_at: None,
                            content,
                        },
                    ]
                    &&& match saved {
                        Some(id) => done_with(later[2], id, content),
                        None => done_with(later[0], Seq::empty(), content),
                    }
                },
            }
        }),
{
}

} // verus!
