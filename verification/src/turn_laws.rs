//! What a turn shows and stores of each message of the agent, and how it ends.
use vstd::prelude::*;

use crate::payload::EventView;
use crate::stream::{
    block_events, block_pieces, on_assistant, on_closed, on_delta, on_message, on_message_saved,
    on_tool_saved, run_inv, run_start, run_step, signed_32, signed_64, ActionView, BlockView,
    CauseView, OutcomeView, PhaseView, RunInputView, RunView, ToolStatus,
    ToolUseView,
};
use crate::stream_laws::{heard, heard_with_one_more, run_actions, run_state};
use crate::text::{occurs_in, text_or_empty, trimmed};
use crate::transcript::{final_content, rendered, thoughts, Piece};

verus! {

// ---------------------------------------------------------------------------------------
// Messages that are passed on
// ---------------------------------------------------------------------------------------

/// A status line and a request to wait are passed on as they came, and change nothing.
pub proof fn a_note_is_passed_on(s: RunView, message: Seq<char>, retry_after_ms: u64)
    requires
        s.phase is Listening,
    ensures
        run_step(s, RunInputView::Status(message)) == (
            s,
            seq![
                ActionView::Emit(
                    EventView::Status { conversation_id: s.conversation_id, message },
                ),
            ],
        ),
        run_step(s, RunInputView::RateLimit { retry_after_ms, message }) == (
            s,
            seq![
                ActionView::Emit(
                    EventView::RateLimit {
                        conversation_id: s.conversation_id,
                        retry_after_ms,
                        message,
                    },
                ),
            ],
        ),
        run_step(s, RunInputView::Other) == (s, Seq::<ActionView>::empty()),
{
}

/// Whether an input answers an action of a turn.
pub open spec fn is_answer(input: RunInputView) -> bool {
    input is MessageSaved || input is ToolExecutionSaved || input is TitleGenerated
        || input is TitleSaved
}

/// Whether an input is what a turn waits for.
pub open spec fn is_awaited(phase: PhaseView, input: RunInputView) -> bool {
    match phase {
        PhaseView::Listening => !is_answer(input),
        PhaseView::SavingMessage(_) => input is MessageSaved,
        PhaseView::SavingTool { .. } => input is ToolExecutionSaved,
        PhaseView::SavingFinal { .. } => input is MessageSaved,
        PhaseView::Titling => input is TitleGenerated,
        PhaseView::SavingTitle { .. } => input is TitleSaved,
        PhaseView::Ended => false,
    }
}

/// What a turn does not wait for changes nothing and leads to nothing.
pub proof fn what_is_not_awaited_is_passed_over(s: RunView, input: RunInputView)
    requires
        !is_awaited(s.phase, input),
    ensures
        run_step(s, input) == (s, Seq::<ActionView>::empty()),
{
}

/// What a turn was begun with stays the same throughout.
pub proof fn a_turn_keeps_to_its_conversation(s: RunView, input: RunInputView)
    ensures
        ({
            let next = run_step(s, input).0;
            &&& next.conversation_id == s.conversation_id
            &&& next.user_message_id == s.user_message_id
            &&& next.created_at == s.created_at
            &&& next.model_id == s.model_id
            &&& next.first_message == s.first_message
        }),
{
}

/// The conversation that an event is about.
pub open spec fn conversation_of(event: EventView) -> Seq<char> {
    match event {
        EventView::Done { conversation_id, .. } => conversation_id,
        EventView::Error { conversation_id, .. } => conversation_id,
        EventView::ToolStart { conversation_id, .. } => conversation_id,
        EventView::ToolUse { conversation_id, .. } => conversation_id,
        EventView::ToolResult { conversation_id, .. } => conversation_id,
        EventView::PermissionRequest { conversation_id, .. } => conversation_id,
        EventView::AskUser { conversation_id, .. } => conversation_id,
        EventView::Status { conversation_id, .. } => conversation_id,
        EventView::RateLimit { conversation_id, .. } => conversation_id,
        EventView::StreamThinking { conversation_id, .. } => conversation_id,
        EventView::StreamText { conversation_id, .. } => conversation_id,
        EventView::MessageId { conversation_id, .. } => conversation_id,
        EventView::TitleUpdated { conversation_id, .. } => conversation_id,
        EventView::TitleGenerating { conversation_id, .. } => conversation_id,
    }
}

/// Whether an action belongs to the turn of a user's message: an event names its conversation,
/// and a new message answers the user's, one moment later or at no set time.
pub open spec fn belongs_to(
    action: ActionView,
    conversation_id: Seq<char>,
    user_message_id: Seq<char>,
    user_created_at: i64,
) -> bool {
    match action {
        ActionView::Emit(event) => conversation_of(event) == conversation_id,
        ActionView::CreateMessage { parent_id, created_at, .. } => {
            &&& parent_id == user_message_id
            &&& created_at is None || created_at->0 == user_created_at + 1
        },
        _ => true,
    }
}

proof fn blocks_belong(s: RunView, blocks: Seq<BlockView>)
    ensures
        forall|i: int|
            0 <= i < block_events(s, blocks).len() ==> (#[trigger] block_events(s, blocks)[i]
                matches ActionView::Emit(event) && conversation_of(event) == s.conversation_id),
    decreases blocks.len(),
{
    if blocks.len() > 0 {
        blocks_belong(s, blocks.drop_last());
    }
}

/// Whether each of some actions belongs to the turn of a user's message.
spec fn all_belong(actions: Seq<ActionView>, s: RunView, user_created_at: i64) -> bool {
    forall|i: int|
        0 <= i < actions.len() ==> belongs_to(
            #[trigger] actions[i],
            s.conversation_id,
            s.user_message_id,
            user_created_at,
        )
}

proof fn all_of_both_belong(
    few: Seq<ActionView>,
    more: Seq<ActionView>,
    s: RunView,
    user_created_at: i64,
)
    requires
        all_belong(few, s, user_created_at),
        all_belong(more, s, user_created_at),
    ensures
        all_belong(few + more, s, user_created_at),
{
}

proof fn answers_belong(s: RunView, input: RunInputView, user_created_at: i64)
    requires
        s.created_at == user_created_at + 1,
        s.phase is Titling || s.phase is SavingTitle || s.phase is SavingFinal,
    ensures
        all_belong(run_step(s, input).1, s, user_created_at),
{
}

proof fn saved_message_belongs(
    s: RunView,
    cause: CauseView,
    id: Option<Seq<char>>,
    user_created_at: i64,
)
    requires
        s.created_at == user_created_at + 1,
    ensures
        all_belong(on_message_saved(s, cause, id).1, s, user_created_at),
{
}

proof fn saved_tool_belongs(
    s: RunView,
    tools: Seq<ToolUseView>,
    at: int,
    id: Option<Seq<char>>,
    user_created_at: i64,
)
    requires
        s.created_at == user_created_at + 1,
    ensures
        all_belong(on_tool_saved(s, tools, at, id).1, s, user_created_at),
{
}

proof fn assistant_belongs(s: RunView, blocks: Seq<BlockView>, user_created_at: i64)
    requires
        s.created_at == user_created_at + 1,
    ensures
        all_belong(on_assistant(s, blocks).1, s, user_created_at),
{
    blocks_belong(s, blocks);
}

proof fn closed_belongs(s: RunView, crashed: bool, user_created_at: i64)
    requires
        s.created_at == user_created_at + 1,
    ensures
        all_belong(on_closed(s, crashed).1, s, user_created_at),
{
}

proof fn delta_belongs(s: RunView, piece: Piece, user_created_at: i64)
    requires
        s.created_at == user_created_at + 1,
    ensures
        all_belong(on_delta(s, piece).1, s, user_created_at),
{
}

proof fn message_belongs(s: RunView, input: RunInputView, user_created_at: i64)
    requires
        s.created_at == user_created_at + 1,
    ensures
        all_belong(on_message(s, input).1, s, user_created_at),
{
    match input {
        RunInputView::Assistant(blocks) => {
            assistant_belongs(s, blocks, user_created_at);
        },
        RunInputView::ThinkingDelta(text) => {
            delta_belongs(s, Piece::Thought(text), user_created_at);
        },
        RunInputView::TextDelta(text) => {
            delta_belongs(s, Piece::Plain(text), user_created_at);
        },
        RunInputView::Closed { crashed } => {
            closed_belongs(s, crashed, user_created_at);
        },
        _ => {},
    }
}

proof fn one_step_belongs(s: RunView, input: RunInputView, user_created_at: i64)
    requires
        s.created_at == user_created_at + 1,
    ensures
        all_belong(run_step(s, input).1, s, user_created_at),
{
    match (s.phase, input) {
        (PhaseView::Listening, _) => {
            message_belongs(s, input, user_created_at);
        },
        (PhaseView::SavingMessage(cause), RunInputView::MessageSaved(id)) => {
            saved_message_belongs(s, cause, id, user_created_at);
        },
        (PhaseView::SavingTool { tools, next }, RunInputView::ToolExecutionSaved(id)) => {
            saved_tool_belongs(s, tools, next, id, user_created_at);
        },
        (PhaseView::SavingFinal { .. }, _) => {
            answers_belong(s, input, user_created_at);
        },
        (PhaseView::Titling, _) => {
            answers_belong(s, input, user_created_at);
        },
        (PhaseView::SavingTitle { .. }, _) => {
            answers_belong(s, input, user_created_at);
        },
        _ => {},
    }
}

/// Every event of a turn names its conversation, and every message that it creates answers the
/// user's message, one moment after it or at no set time.
pub proof fn every_action_belongs_to_the_turn(
    conversation_id: Seq<char>,
    user_message_id: Seq<char>,
    user_created_at: i64,
    model_id: Seq<char>,
    first_message: bool,
    inputs: Seq<RunInputView>,
)
    requires
        user_created_at < i64::MAX,
    ensures
        ({
            let start = run_start(
                conversation_id,
                user_message_id,
                user_created_at,
                model_id,
                first_message,
            );
            let s = run_state(start, inputs);
            let actions = run_actions(start, inputs);
            &&& s.conversation_id == conversation_id
            &&& s.user_message_id == user_message_id
            &&& s.created_at == user_created_at + 1
            &&& s.model_id == model_id
            &&& s.first_message == first_message
            &&& forall|i: int|
                0 <= i < actions.len() ==> belongs_to(
                    #[trigger] actions[i],
                    conversation_id,
                    user_message_id,
                    user_created_at,
                )
        }),
    decreases inputs.len(),
{
    let start = run_start(
        conversation_id,
        user_message_id,
        user_created_at,
        model_id,
        first_message,
    );
    if inputs.len() > 0 {
        every_action_belongs_to_the_turn(
            conversation_id,
            user_message_id,
            user_created_at,
            model_id,
            first_message,
            inputs.drop_last(),
        );
        let s = run_state(start, inputs.drop_last());
        a_turn_keeps_to_its_conversation(s, inputs.last());
        one_step_belongs(s, inputs.last(), user_created_at);
        all_of_both_belong(
            run_actions(start, inputs.drop_last()),
            run_step(s, inputs.last()).1,
            s,
            user_created_at,
        );
    }
}

// ---------------------------------------------------------------------------------------
// What is shown
// ---------------------------------------------------------------------------------------

/// The event that shows a piece of a message.
pub open spec fn shows(
    conversation_id: Seq<char>,
    message_id: Option<Seq<char>>,
    piece: Piece,
) -> ActionView {
    match piece {
        Piece::Thought(thinking) => ActionView::Emit(
            EventView::StreamThinking {
                conversation_id,
                assistant_message_id: text_or_empty(message_id),
                thinking,
            },
        ),
        Piece::Plain(text) => ActionView::Emit(
            EventView::StreamText {
                conversation_id,
                assistant_message_id: text_or_empty(message_id),
                text,
            },
        ),
    }
}

/// The message that brings a piece while it is streamed.
pub open spec fn brings(piece: Piece) -> RunInputView {
    match piece {
        Piece::Thought(thinking) => RunInputView::ThinkingDelta(thinking),
        Piece::Plain(text) => RunInputView::TextDelta(text),
    }
}

/// A streamed piece is added to the message, which is stored with it, and then shown; where
/// there is no message yet it is created first, and its id is made known.
pub proof fn a_streamed_piece_is_stored_and_shown(
    s: RunView,
    piece: Piece,
    saved: Option<Seq<char>>,
)
    requires
        s.phase is Listening,
    ensures
        ({
            let (next, actions) = run_step(s, brings(piece));
            let content = rendered(s.pieces.push(piece));
            &&& next.pieces == s.pieces.push(piece)
            &&& next.streamed
            &&& match s.message_id {
                Some(id) => {
                    &&& next == (RunView { pieces: next.pieces, streamed: true, ..s })
                    &&& actions == seq![
                        ActionView::UpdateMessage { id, content },
                        shows(s.conversation_id, Some(id), piece),
                    ]
                },
                None => {
                    let (known, later) = run_step(next, RunInputView::MessageSaved(saved));
                    &&& actions == seq![
                        ActionView::CreateMessage {
                            parent_id: s.user_message_id,
                            created_at: Some(s.created_at),
                            content,
                        },
                    ]
                    &&& known == (RunView {
                        pieces: next.pieces,
                        streamed: true,
                        message_id: saved,
                        ..s
                    })
                    &&& later == match saved {
                        Some(id) => seq![
                            ActionView::PublishMessageId(id),
                            ActionView::Emit(
                                EventView::MessageId {
                                    conversation_id: s.conversation_id,
                                    assistant_message_id: id,
                                },
                            ),
                            ActionView::CountMessage,
                            ActionView::UpdateMessage { id, content },
                            shows(s.conversation_id, Some(id), piece),
                        ],
                        None => seq![shows(s.conversation_id, None, piece)],
                    }
                },
            }
        }),
{
    let (next, actions) = run_step(s, brings(piece));
    match s.message_id {
        Some(id) => {
            assert(actions =~= seq![
                ActionView::UpdateMessage { id, content: rendered(s.pieces.push(piece)) },
                shows(s.conversation_id, Some(id), piece),
            ]);
        },
        None => {
            let (known, later) = run_step(next, RunInputView::MessageSaved(saved));
            match saved {
                Some(id) => {
                    assert(later =~= seq![
                        ActionView::PublishMessageId(id),
                        ActionView::Emit(
                            EventView::MessageId {
                                conversation_id: s.conversation_id,
                                assistant_message_id: id,
                            },
                        ),
                        ActionView::CountMessage,
                        ActionView::UpdateMessage { id, content: rendered(s.pieces.push(piece)) },
                        shows(s.conversation_id, Some(id), piece),
                    ]);
                },
                None => {
                    assert(later =~= seq![shows(s.conversation_id, None, piece)]);
                },
            }
        },
    }
}

/// The pieces of a whole message: its blocks of reasoning and text, in their order.
pub open spec fn pieces_in(blocks: Seq<BlockView>) -> Seq<Piece> {
    blocks.filter(|block: BlockView| block is Thinking || block is Text).map_values(
        |block: BlockView|
            if block is Thinking {
                Piece::Thought(block->Thinking_0)
            } else {
                Piece::Plain(block->Text_0)
            },
    )
}

proof fn blocks_are_shown(s: RunView, blocks: Seq<BlockView>)
    ensures
        block_pieces(blocks) == pieces_in(blocks),
        block_events(s, blocks) == pieces_in(blocks).map_values(
            |piece: Piece| shows(s.conversation_id, s.message_id, piece),
        ),
    decreases blocks.len(),
{
    reveal(Seq::filter);
    if blocks.len() > 0 {
        blocks_are_shown(s, blocks.drop_last());
    }
    assert(block_pieces(blocks) =~= pieces_in(blocks));
    assert(block_events(s, blocks) =~= pieces_in(blocks).map_values(
        |piece: Piece| shows(s.conversation_id, s.message_id, piece),
    ));
}

/// A whole message of which nothing was streamed is shown block by block in its order, and is
/// part of the message as it is stored from then on. The next whole message is again shown
/// unless pieces of it are streamed first.
pub proof fn a_whole_message_is_shown_block_by_block(
    s: RunView,
    blocks: Seq<BlockView>,
    saved: Option<Seq<char>>,
)
    requires
        s.phase is Listening,
    ensures
        ({
            let (next, actions) = run_step(s, RunInputView::Assistant(blocks));
            let added = if s.streamed {
                Seq::<Piece>::empty()
            } else {
                pieces_in(blocks)
            };
            let content = rendered(s.pieces + added);
            let n = added.len();
            &&& next.pieces == s.pieces + added
            &&& !next.streamed
            &&& actions.len() > n
            &&& forall|i: int|
                0 <= i < n ==> #[trigger] actions[i] == shows(
                    s.conversation_id,
                    s.message_id,
                    added[i],
                )
            &&& match s.message_id {
                Some(id) => actions[n as int] == (ActionView::UpdateMessage { id, content }),
                None => {
                    let later = run_step(next, RunInputView::MessageSaved(saved)).1;
                    &&& actions.len() == n + 1
                    &&& actions[n as int] == (ActionView::CreateMessage {
                        parent_id: s.user_message_id,
                        created_at: Some(s.created_at),
                        content,
                    })
                    &&& saved matches Some(id) ==> {
                        &&& later.len() >= 3
                        &&& later[0] == ActionView::PublishMessageId(id)
                        &&& later[1] == ActionView::Emit(
                            EventView::MessageId {
                                conversation_id: s.conversation_id,
                                assistant_message_id: id,
                            },
                        )
                        &&& later[2] is CountMessage
                    }
                    &&& saved is None ==> later.len() <= 1 && (later.len() == 1 ==> later[0]
                        is CreateToolExecution)
                },
            }
        }),
{
    blocks_are_shown(s, blocks);
    let added = if s.streamed {
        Seq::<Piece>::empty()
    } else {
        pieces_in(blocks)
    };
    assert(s.pieces + Seq::<Piece>::empty() =~= s.pieces);
    let next = run_step(s, RunInputView::Assistant(blocks)).0;
    assert(next.pieces =~= s.pieces + added);
}

/// Once the last call of a message is recorded, the message is stored with all its markers.
pub proof fn marked_calls_are_stored(s: RunView, record: Option<Seq<char>>)
    requires
        run_inv(s),
        s.phase is SavingTool,
    ensures
        ({
            let (next, actions) = run_step(s, RunInputView::ToolExecutionSaved(record));
            next.phase is Listening && s.message_id is Some ==> actions.last() == (
            ActionView::UpdateMessage { id: s.message_id->0, content: rendered(next.pieces) })
        }),
{
}

// ---------------------------------------------------------------------------------------
// How a turn ends
// ---------------------------------------------------------------------------------------

/// Whether a heard input gives the agent's result, and no later one does.
pub open spec fn is_last_result(start: RunView, inputs: Seq<RunInputView>, k: int) -> bool {
    &&& heard(start, inputs, k)
    &&& inputs[k] is Result
    &&& forall|j: int| k < j && heard(start, inputs, j) ==> !(#[trigger] inputs[j] is Result)
}

proof fn result_stays(s: RunView, input: RunInputView)
    ensures
        s.phase is Listening && input is Result || run_step(s, input).0.outcome == s.outcome,
{
}

/// Of several results of the agent the last one counts, with all that it tells.
pub proof fn the_last_result_counts(start: RunView, inputs: Seq<RunInputView>, k: int)
    requires
        is_last_result(start, inputs, k),
    ensures
        inputs[k] matches RunInputView::Result { text, usage, num_turns, cost } && run_state(
            start,
            inputs,
        ).outcome == Some(OutcomeView { text, usage, num_turns, cost }),
    decreases inputs.len(),
{
    reveal(heard);
    let last = inputs.len() - 1;
    let earlier = inputs.drop_last();
    let s = run_state(start, earlier);
    assert(inputs.take(last) =~= earlier);
    if k == last {
        assert(s.phase is Listening);
    } else {
        assert(earlier.take(k) =~= inputs.take(k));
        assert forall|j: int| k < j && heard(start, earlier, j) implies !(
        #[trigger] earlier[j] is Result) by {
            assert(earlier.take(j) =~= inputs.take(j));
            assert(heard(start, inputs, j));
            assert(inputs[j] == earlier[j]);
        }
        the_last_result_counts(start, earlier, k);
        result_stays(s, inputs[last]);
        if s.phase is Listening {
            assert(heard(start, inputs, last));
        }
    }
}

/// Whether a stored number is another one as far as it fits in some bits, with its sign.
pub open spec fn keeps_low_bits(stored: int, number: int, bound: int) -> bool {
    &&& (stored - number) % bound == 0
    &&& -bound <= 2 * stored < bound
}

/// A number that fits is kept as it is, and another one up to what does not fit.
pub proof fn numbers_keep_their_low_bits(number: int)
    ensures
        keeps_low_bits(signed_64(number), number, 0x1_0000_0000_0000_0000),
        keeps_low_bits(signed_32(number), number, 0x1_0000_0000),
        -0x8000_0000_0000_0000 <= number < 0x8000_0000_0000_0000 ==> signed_64(number) == number,
        -0x8000_0000 <= number < 0x8000_0000 ==> signed_32(number) == number,
{
}

/// Whether an action stores the tokens and the cost of a result in the session.
pub open spec fn saves(action: ActionView, result: OutcomeView) -> bool {
    action matches ActionView::SaveSession { tokens, cost } && {
        &&& keeps_low_bits(
            tokens,
            result.usage.input_tokens + result.usage.output_tokens,
            0x1_0000_0000,
        )
        &&& cost == result.cost
    }
}

/// Whether a turn reports a result: the tokens are stored with its message, where there is one,
/// the closing event tells all of it, and then a title is asked for or the session is stored.
pub open spec fn is_reported(
    s: RunView,
    message_id: Option<Seq<char>>,
    result: OutcomeView,
    content: Seq<char>,
    next: RunView,
    actions: Seq<ActionView>,
) -> bool {
    let at: int = if message_id is Some {
        1
    } else {
        0
    };
    &&& actions.len() > at + 1
    &&& message_id matches Some(id) ==> (actions[0] matches ActionView::RecordUsage {
        id: stored,
        input_tokens,
        output_tokens,
    } && {
        &&& stored == id
        &&& keeps_low_bits(
            input_tokens,
            result.usage.input_tokens as int,
            0x1_0000_0000_0000_0000,
        )
        &&& keeps_low_bits(
            output_tokens,
            result.usage.output_tokens as int,
            0x1_0000_0000_0000_0000,
        )
    })
    &&& actions[at] == ActionView::Emit(
        EventView::Done {
            conversation_id: s.conversation_id,
            assistant_message_id: text_or_empty(message_id),
            text: content,
            thinking: if trimmed(thoughts(s.pieces)).len() == 0 {
                None
            } else {
                Some(thoughts(s.pieces))
            },
            model: Some(s.model_id),
            session_id: None,
            usage: Some(result.usage),
            num_turns: Some(result.num_turns),
            cost_usd: Some(result.cost),
        },
    )
    &&& if s.first_message {
        &&& next.phase is Titling
        &&& actions.len() == at + 3
        &&& actions[at + 1] == ActionView::Emit(
            EventView::TitleGenerating {
                conversation_id: s.conversation_id,
                generating: true,
                error: None,
            },
        )
        &&& actions[at + 2] == (ActionView::GenerateTitle { result: result.text })
    } else {
        &&& next.phase is Ended
        &&& actions.len() == at + 2
        &&& saves(actions[at + 1], result)
    }
    &&& next.outcome == Some(result)
}

/// A turn with a result stores the finished message, unless it is empty, and reports the result
/// with everything that it tells; a message that has to be created for it is counted.
pub proof fn a_result_is_reported(s: RunView, crashed: bool, saved: Option<Seq<char>>)
    requires
        s.phase is Listening,
        s.outcome is Some,
    ensures
        ({
            let result = s.outcome->0;
            let content = final_content(s.pieces, result.text);
            let (next, actions) = run_step(s, RunInputView::Closed { crashed });
            if content.len() == 0 {
                is_reported(s, s.message_id, result, content, next, actions)
            } else if s.message_id is Some {
                &&& actions.len() > 0
                &&& actions[0] == (ActionView::UpdateMessage { id: s.message_id->0, content })
                &&& is_reported(s, s.message_id, result, content, next, actions.skip(1))
            } else {
                let (ended, later) = run_step(next, RunInputView::MessageSaved(saved));
                &&& actions == seq![
                    ActionView::CreateMessage {
                        parent_id: s.user_message_id,
                        created_at: None,
                        content,
                    },
                ]
                &&& match saved {
                    Some(_) => {
                        &&& later.len() > 0
                        &&& later[0] is CountMessage
                        &&& is_reported(s, saved, result, content, ended, later.skip(1))
                    },
                    None => is_reported(s, None, result, content, ended, later),
                }
            }
        }),
{
    let result = s.outcome->0;
    numbers_keep_their_low_bits(result.usage.input_tokens as int);
    numbers_keep_their_low_bits(result.usage.output_tokens as int);
    numbers_keep_their_low_bits(result.usage.input_tokens + result.usage.output_tokens);
}

/// A generated title is stored and then shown; where that fails the user interface gets the
/// reason. Either way the session is stored, and the turn is over.
pub proof fn a_title_is_stored_and_shown(
    s: RunView,
    title: Seq<char>,
    error: Seq<char>,
)
    requires
        s.phase is Titling,
        s.outcome is Some,
    ensures
        ({
            let (asked, stores) = run_step(s, RunInputView::TitleGenerated(Ok(title)));
            let (told, tells) = run_step(asked, RunInputView::TitleSaved(None));
            let (refused, excuses) = run_step(asked, RunInputView::TitleSaved(Some(error)));
            let (failed, reasons) = run_step(s, RunInputView::TitleGenerated(Err(error)));
            &&& stores == seq![ActionView::SaveTitle { title }]
            &&& told.phase is Ended && refused.phase is Ended && failed.phase is Ended
            &&& tells.len() == 3
            &&& tells[0] == ActionView::Emit(
                EventView::TitleUpdated { conversation_id: s.conversation_id, title },
            )
            &&& tells[1] == ActionView::Emit(
                EventView::TitleGenerating {
                    conversation_id: s.conversation_id,
                    generating: false,
                    error: None,
                },
            )
            &&& saves(tells[2], s.outcome->0)
            &&& excuses.len() == 2
            &&& excuses[0] == ActionView::Emit(
                EventView::TitleGenerating {
                    conversation_id: s.conversation_id,
                    generating: false,
                    error: Some("Failed to save title: "@ + error),
                },
            )
            &&& saves(excuses[1], s.outcome->0)
            &&& reasons.len() == 2
            &&& reasons[0] == ActionView::Emit(
                EventView::TitleGenerating {
                    conversation_id: s.conversation_id,
                    generating: false,
                    error: Some(error),
                },
            )
            &&& saves(reasons[1], s.outcome->0)
        }),
{
    let result = s.outcome->0;
    numbers_keep_their_low_bits(result.usage.input_tokens + result.usage.output_tokens);
}

/// Whether a turn ends with a failure: the error is shown with the message that it belongs to,
/// and the session becomes idle.
pub open spec fn is_failed(
    s: RunView,
    message: Seq<char>,
    next: RunView,
    actions: Seq<ActionView>,
) -> bool {
    &&& next.phase is Ended
    &&& actions == seq![
        ActionView::Emit(
            EventView::Error {
                conversation_id: s.conversation_id,
                assistant_message_id: s.message_id,
                message,
            },
        ),
        ActionView::SetIdle,
    ]
}

/// An error of the agent is shown word for word. The stored context is forgotten first where
/// the error says that the provider refuses it, and only there.
pub proof fn an_error_is_shown_word_for_word(s: RunView, message: Seq<char>)
    requires
        s.phase is Listening,
    ensures
        ({
            let (next, actions) = run_step(s, RunInputView::Error(message));
            if occurs_in("reasoning_content"@, message) && occurs_in("thinking mode"@, message) {
                &&& actions.len() > 0
                &&& actions[0] is ClearContext
                &&& is_failed(s, message, next, actions.skip(1))
            } else {
                is_failed(s, message, next, actions)
            }
        }),
{
    let (next, actions) = run_step(s, RunInputView::Error(message));
    if occurs_in("reasoning_content"@, message) && occurs_in("thinking mode"@, message) {
        assert(actions.skip(1) =~= seq![
            ActionView::Emit(
                EventView::Error {
                    conversation_id: s.conversation_id,
                    assistant_message_id: s.message_id,
                    message,
                },
            ),
            ActionView::SetIdle,
        ]);
    }
}

/// A turn whose agent stops without a result fails, and tells a crash from a silent end.
pub proof fn a_turn_without_a_result_fails(s: RunView, crashed: bool)
    requires
        s.phase is Listening,
        s.outcome is None,
    ensures
        ({
            let (next, actions) = run_step(s, RunInputView::Closed { crashed });
            is_failed(
                s,
                if crashed {
                    "Agent task crashed unexpectedly"@
                } else {
                    "Agent ended unexpectedly without producing a result"@
                },
                next,
                actions,
            )
        }),
{
}

// ---------------------------------------------------------------------------------------
// When a whole message repeats what was streamed
// ---------------------------------------------------------------------------------------

/// Whether a heard input is a streamed piece.
pub open spec fn is_delta(input: RunInputView) -> bool {
    input is ThinkingDelta || input is TextDelta
}

/// Whether a piece was streamed since the last whole message.
pub open spec fn streams_since_message(start: RunView, inputs: Seq<RunInputView>, k: int) -> bool {
    &&& heard(start, inputs, k)
    &&& is_delta(inputs[k])
    &&& forall|j: int| k < j && heard(start, inputs, j) ==> !(#[trigger] inputs[j] is Assistant)
}

proof fn one_step_streams(s: RunView, input: RunInputView)
    ensures
        s.phase is Listening && is_delta(input) ==> run_step(s, input).0.streamed,
        s.phase is Listening && input is Assistant ==> !run_step(s, input).0.streamed,
        !(s.phase is Listening && (is_delta(input) || input is Assistant)) ==> run_step(
            s,
            input,
        ).0.streamed == s.streamed,
{
}

/// Whether a piece was streamed since the last whole message, with one more input.
proof fn streamed_with_one_more(start: RunView, inputs: Seq<RunInputView>)
    requires
        inputs.len() > 0,
        forall|k: int|
            0 <= k < inputs.len() - 1 ==> heard(start, inputs.drop_last(), k) == #[trigger] heard(
                start,
                inputs,
                k,
            ),
        forall|k: int| #[trigger] heard(start, inputs, k) ==> 0 <= k < inputs.len(),
        forall|k: int| #[trigger]
            heard(start, inputs.drop_last(), k) ==> 0 <= k < inputs.len() - 1,
    ensures
        ({
            let last = inputs.len() - 1;
            let before = exists|k: int| #[trigger]
                streams_since_message(start, inputs.drop_last(), k);
            let now = exists|k: int| #[trigger] streams_since_message(start, inputs, k);
            now == if heard(start, inputs, last) && is_delta(inputs[last]) {
                true
            } else if heard(start, inputs, last) && inputs[last] is Assistant {
                false
            } else {
                before
            }
        }),
{
    let last = inputs.len() - 1;
    let earlier = inputs.drop_last();
    if heard(start, inputs, last) && is_delta(inputs[last]) {
        assert(streams_since_message(start, inputs, last));
    } else if heard(start, inputs, last) && inputs[last] is Assistant {
        assert forall|k: int| !#[trigger] streams_since_message(start, inputs, k) by {
            assert(inputs[last] is Assistant);
        }
    } else {
        assert forall|k: int| #[trigger] streams_since_message(start, inputs, k) implies
            streams_since_message(start, earlier, k) by {
            assert(k != last);
            assert(heard(start, inputs, k));
            assert(earlier[k] == inputs[k]);
            assert forall|j: int| k < j && heard(start, earlier, j) implies !(
            #[trigger] earlier[j] is Assistant) by {
                assert(heard(start, inputs, j));
                assert(inputs[j] == earlier[j]);
            }
        }
        assert forall|k: int| #[trigger] streams_since_message(start, earlier, k) implies
            streams_since_message(start, inputs, k) by {
            assert(heard(start, earlier, k));
            assert(heard(start, inputs, k));
            assert(earlier[k] == inputs[k]);
            assert forall|j: int| k < j && heard(start, inputs, j) implies !(
            #[trigger] inputs[j] is Assistant) by {
                if j != last {
                    assert(heard(start, earlier, j));
                    assert(inputs[j] == earlier[j]);
                }
            }
        }
        if exists|k: int| #[trigger] streams_since_message(start, inputs, k) {
            let k = choose|k: int| #[trigger] streams_since_message(start, inputs, k);
            assert(streams_since_message(start, earlier, k));
        }
        if exists|k: int| #[trigger] streams_since_message(start, earlier, k) {
            let k = choose|k: int| #[trigger] streams_since_message(start, earlier, k);
            assert(streams_since_message(start, inputs, k));
        }
    }
}

/// A turn takes the next whole message for a repetition if and only if a piece was streamed
/// since the last one.
pub proof fn a_repetition_follows_streamed_pieces(start: RunView, inputs: Seq<RunInputView>)
    requires
        !start.streamed,
    ensures
        run_state(start, inputs).streamed <==> exists|k: int| #[trigger]
            streams_since_message(start, inputs, k),
    decreases inputs.len(),
{
    if inputs.len() > 0 {
        let s = run_state(start, inputs.drop_last());
        a_repetition_follows_streamed_pieces(start, inputs.drop_last());
        heard_with_one_more(start, inputs);
        one_step_streams(s, inputs.last());
        streamed_with_one_more(start, inputs);
    } else {
        assert forall|k: int| !#[trigger] streams_since_message(start, inputs, k) by {
            reveal(heard);
        }
    }
}

// ---------------------------------------------------------------------------------------
// How a turn begins
// ---------------------------------------------------------------------------------------

/// A turn begins to listen with nothing shown, stored, recorded or given.
pub proof fn a_turn_begins_with_nothing(
    conversation_id: Seq<char>,
    user_message_id: Seq<char>,
    user_created_at: i64,
    model_id: Seq<char>,
    first_message: bool,
)
    ensures
        ({
            let s = run_start(
                conversation_id,
                user_message_id,
                user_created_at,
                model_id,
                first_message,
            );
            &&& s.phase is Listening
            &&& s.pieces.len() == 0
            &&& !s.streamed
            &&& s.message_id is None
            &&& s.outcome is None
            &&& forall|call: Seq<char>| !#[trigger] s.executions.contains_key(call)
        }),
{
}

/// A tool call is stored as running, as a success or as failed.
pub proof fn a_status_is_stored_by_its_name(status: ToolStatus)
    ensures
        status.name() == "running"@ || status.name() == "success"@ || status.name() == "failed"@,
        status is Running ==> status.name() == "running"@,
        status is Success ==> status.name() == "success"@,
        status is Failed ==> status.name() == "failed"@,
{
}

} // verus!
