//! What holds of the tool calls of every agent turn: each one is recorded once, and its record
//! is kept up to date however many other calls there are.
use vstd::prelude::*;

use crate::payload::EventView;
use crate::stream::{
    block_tools, run_step, ActionView, BlockView, PhaseView, RunInputView, RunView, ToolStatus,
    ToolUseView,
};
use crate::stream_laws::run_state;
use crate::text::text_or_empty;
use crate::tool_input::{input_summary, json_fields, preview, stored_input};

verus! {

/// The tool call whose record a turn has asked for.
pub open spec fn awaited_call(s: RunView) -> Option<ToolUseView> {
    match s.phase {
        PhaseView::SavingTool { tools, next } => Some(tools[next]),
        _ => None,
    }
}

/// Whether the answer at an index says that the call with an id got a record.
pub open spec fn records(
    start: RunView,
    inputs: Seq<RunInputView>,
    at: int,
    call: Seq<char>,
    record: Seq<char>,
) -> bool {
    &&& 0 <= at < inputs.len()
    &&& inputs[at] == RunInputView::ToolExecutionSaved(Some(record))
    &&& awaited_call(run_state(start, inputs.take(at))) matches Some(tool) && tool.id == call
}

/// Whether no answer from one index up to another gives the call with an id a record.
pub open spec fn records_nothing(
    start: RunView,
    inputs: Seq<RunInputView>,
    from: int,
    to: int,
    call: Seq<char>,
) -> bool {
    forall|at: int, record: Seq<char>|
        from <= at < to ==> !#[trigger] records(start, inputs, at, call, record)
}

/// Only the answer to the request for a call's record changes what is known of that call, and
/// it changes nothing else.
proof fn one_step_of_the_records(s: RunView, input: RunInputView, call: Seq<char>)
    ensures
        ({
            let next = run_step(s, input).0;
            let asked = awaited_call(s) matches Some(tool) && tool.id == call;
            match input {
                RunInputView::ToolExecutionSaved(Some(record)) if asked => {
                    next.executions.contains_key(call) && next.executions[call] == record
                },
                _ => {
                    &&& next.executions.contains_key(call) == s.executions.contains_key(call)
                    &&& s.executions.contains_key(call) ==> next.executions[call]
                        == s.executions[call]
                },
            }
        }),
{
}

proof fn record_is_kept(
    start: RunView,
    inputs: Seq<RunInputView>,
    at: int,
    call: Seq<char>,
    record: Seq<char>,
    now: int,
)
    requires
        records(start, inputs, at, call, record),
        at < now <= inputs.len(),
        records_nothing(start, inputs, at + 1, now, call),
    ensures
        ({
            let known = run_state(start, inputs.take(now)).executions;
            known.contains_key(call) && known[call] == record
        }),
    decreases now - at,
{
    let last = now - 1;
    assert(inputs.take(now).drop_last() =~= inputs.take(last));
    assert(inputs.take(now).last() == inputs[last]);
    let s = run_state(start, inputs.take(last));
    one_step_of_the_records(s, inputs[last], call);
    if last > at {
        record_is_kept(start, inputs, at, call, record, last);
        if let RunInputView::ToolExecutionSaved(Some(other)) = inputs[last] {
            assert(!records(start, inputs, last, call, other));
        }
    }
}

proof fn no_record_is_made_up(
    start: RunView,
    inputs: Seq<RunInputView>,
    call: Seq<char>,
    now: int,
)
    requires
        0 <= now <= inputs.len(),
        !start.executions.contains_key(call),
        records_nothing(start, inputs, 0, now, call),
    ensures
        !run_state(start, inputs.take(now)).executions.contains_key(call),
    decreases now,
{
    if now == 0 {
        assert(inputs.take(0) =~= Seq::empty());
    } else {
        let last = now - 1;
        assert(inputs.take(now).drop_last() =~= inputs.take(last));
        assert(inputs.take(now).last() == inputs[last]);
        no_record_is_made_up(start, inputs, call, last);
        one_step_of_the_records(run_state(start, inputs.take(last)), inputs[last], call);
        if let RunInputView::ToolExecutionSaved(Some(other)) = inputs[last] {
            assert(!records(start, inputs, last, call, other));
        }
    }
}

/// The event that an input about a tool call gives.
pub open spec fn is_event_of(s: RunView, input: RunInputView, event: EventView) -> bool {
    match (input, event) {
        (
            RunInputView::ToolStart { tool_use_id, tool_name, input },
            EventView::ToolStart {
                conversation_id,
                assistant_message_id,
                tool_use_id: shown_id,
                tool_name: shown_name,
                input: shown_input,
            },
        ) => {
            &&& conversation_id == s.conversation_id
            &&& assistant_message_id == text_or_empty(s.message_id)
            &&& shown_id == tool_use_id && shown_name == tool_name && shown_input == input
        },
        (
            RunInputView::ToolResult { tool_use_id, tool_name, content, is_error },
            EventView::ToolResult {
                conversation_id,
                assistant_message_id,
                tool_use_id: shown_id,
                tool_name: shown_name,
                content: shown_content,
                is_error: shown_error,
            },
        ) => {
            &&& conversation_id == s.conversation_id
            &&& assistant_message_id == text_or_empty(s.message_id)
            &&& shown_id == tool_use_id && shown_name == tool_name
            &&& shown_content == content && shown_error == is_error
        },
        (
            RunInputView::PermissionRequest { tool_use_id, tool_name, input },
            EventView::PermissionRequest {
                conversation_id,
                assistant_message_id,
                tool_use_id: shown_id,
                tool_name: shown_name,
                input: shown_input,
                risk_level,
            },
        ) => {
            &&& conversation_id == s.conversation_id
            &&& assistant_message_id == text_or_empty(s.message_id)
            &&& shown_id == tool_use_id && shown_name == tool_name && shown_input == input
            &&& risk_level == "execute"@
        },
        _ => false,
    }
}

/// The id of the tool call that an input is about.
pub open spec fn call_of(input: RunInputView) -> Option<Seq<char>> {
    match input {
        RunInputView::ToolStart { tool_use_id, .. } => Some(tool_use_id),
        RunInputView::ToolResult { tool_use_id, .. } => Some(tool_use_id),
        RunInputView::PermissionRequest { tool_use_id, .. } => Some(tool_use_id),
        _ => None,
    }
}

/// Whether an action stores in a record what an input about its call tells.
pub open spec fn updates_record(
    input: RunInputView,
    record: Seq<char>,
    action: ActionView,
) -> bool {
    match input {
        RunInputView::ToolStart { .. } => action == (ActionView::SetToolStatus {
            execution_id: record,
            status: ToolStatus::Running,
            output: None,
            error: None,
        }),
        RunInputView::ToolResult { content, is_error, .. } => match action {
            ActionView::SetToolStatus { execution_id, status, output, error } => {
                &&& execution_id == record
                &&& status == ToolStatus::Failed <==> is_error
                &&& status == ToolStatus::Success <==> !is_error
                &&& output == Some(preview(content, 500))
                &&& error == if is_error {
                    Some(content)
                } else {
                    None
                }
            },
            _ => false,
        },
        RunInputView::PermissionRequest { .. } => action == (ActionView::SetToolPending {
            execution_id: record,
        }),
        _ => false,
    }
}

/// A call that got a record has it for the rest of the turn, however many other calls are
/// recorded meanwhile: each later start, result or permission request of that call is shown and
/// stored in that very record, and in no other.
pub proof fn a_recorded_call_is_followed(
    start: RunView,
    inputs: Seq<RunInputView>,
    at: int,
    call: Seq<char>,
    record: Seq<char>,
    now: int,
)
    requires
        records(start, inputs, at, call, record),
        at < now < inputs.len(),
        records_nothing(start, inputs, at + 1, now, call),
        run_state(start, inputs.take(now)).phase is Listening,
        call_of(inputs[now]) == Some(call),
    ensures
        ({
            let s = run_state(start, inputs.take(now));
            let (next, actions) = run_step(s, inputs[now]);
            &&& next == s
            &&& actions.len() == 2
            &&& actions[0] matches ActionView::Emit(event) && is_event_of(s, inputs[now], event)
            &&& updates_record(inputs[now], record, actions[1])
        }),
{
    record_is_kept(start, inputs, at, call, record, now);
}

/// A call that got no record is shown all the same, and nothing is stored of it.
pub proof fn an_unrecorded_call_is_only_shown(
    start: RunView,
    inputs: Seq<RunInputView>,
    call: Seq<char>,
    now: int,
)
    requires
        !start.executions.contains_key(call),
        0 <= now < inputs.len(),
        records_nothing(start, inputs, 0, now, call),
        run_state(start, inputs.take(now)).phase is Listening,
        call_of(inputs[now]) == Some(call),
    ensures
        ({
            let s = run_state(start, inputs.take(now));
            let (next, actions) = run_step(s, inputs[now]);
            &&& next == s
            &&& actions.len() == 1
            &&& actions[0] matches ActionView::Emit(event) && is_event_of(s, inputs[now], event)
        }),
{
    no_record_is_made_up(start, inputs, call, now);
}

/// The tool calls among the blocks of a message, in their order.
pub open spec fn calls_in(blocks: Seq<BlockView>) -> Seq<ToolUseView> {
    blocks.filter(|block: BlockView| block is ToolUse).map_values(
        |block: BlockView| block->ToolUse_0,
    )
}

proof fn tools_are_the_calls(blocks: Seq<BlockView>)
    ensures
        block_tools(blocks) == calls_in(blocks),
    decreases blocks.len(),
{
    reveal(Seq::filter);
    if blocks.len() > 0 {
        tools_are_the_calls(blocks.drop_last());
    }
    assert(block_tools(blocks) =~= calls_in(blocks));
}

/// Whether an action asks for the record of a tool call under a message.
pub open spec fn asks_for_record(
    action: ActionView,
    message_id: Option<Seq<char>>,
    tool: ToolUseView,
) -> bool {
    action == (ActionView::CreateToolExecution {
        message_id,
        tool_name: tool.name,
        input_preview: preview(stored_input(tool.input), 500),
    })
}

/// Whether a turn waits for the record of one of the calls of a message, and has just asked for
/// it.
pub open spec fn waits_for_call(
    s: RunView,
    actions: Seq<ActionView>,
    calls: Seq<ToolUseView>,
    at: int,
) -> bool {
    &&& s.phase == (PhaseView::SavingTool { tools: calls, next: at })
    &&& actions.len() > 0 && asks_for_record(actions.last(), s.message_id, calls[at])
}

/// Every tool call of a message is recorded, one after another in their order: the first once
/// the message is stored, or its storing was tried, and each next one when the one before it
/// was answered. After the last the turn listens again.
pub proof fn every_call_is_recorded_in_order(
    s: RunView,
    blocks: Seq<BlockView>,
    message: Option<Seq<char>>,
    calls: Seq<ToolUseView>,
    at: int,
    record: Option<Seq<char>>,
)
    ensures
        s.phase is Listening && s.message_id is Some ==> {
            let (next, actions) = run_step(s, RunInputView::Assistant(blocks));
            if calls_in(blocks).len() == 0 {
                next.phase is Listening
            } else {
                waits_for_call(next, actions, calls_in(blocks), 0)
            }
        },
        s.phase is Listening && s.message_id is None ==> {
            let asked = run_step(s, RunInputView::Assistant(blocks)).0;
            let (next, actions) = run_step(asked, RunInputView::MessageSaved(message));
            &&& next.message_id == message
            &&& if calls_in(blocks).len() == 0 {
                next.phase is Listening
            } else {
                waits_for_call(next, actions, calls_in(blocks), 0)
            }
        },
        s.phase == (PhaseView::SavingTool { tools: calls, next: at }) ==> {
            let (next, actions) = run_step(s, RunInputView::ToolExecutionSaved(record));
            if at + 1 < calls.len() {
                waits_for_call(next, actions, calls, at + 1)
            } else {
                next.phase is Listening
            }
        },
{
    tools_are_the_calls(blocks);
}

/// The marker of a recorded call names its record, that of an unrecorded one the call itself;
/// it is shown at once, and the user interface is told of the call.
pub proof fn a_call_is_marked_in_the_text(
    s: RunView,
    tool: ToolUseView,
    record: Option<Seq<char>>,
)
    requires
        awaited_call(s) == Some(tool),
    ensures
        ({
            let (next, actions) = run_step(s, RunInputView::ToolExecutionSaved(record));
            let named = match record {
                Some(id) => id,
                None => tool.id,
            };
            let marker = "\n\n<tool-call data-aqbot=\"1\" id=\""@ + named + "\" name=\""@
                + tool.name + "\">"@ + input_summary(tool.name, json_fields(tool.input))
                + "</tool-call>\n\n"@;
            &&& next.pieces.len() == s.pieces.len() + 1
            &&& s.pieces == next.pieces.drop_last()
            &&& next.pieces.last() is Plain && next.pieces.last().text() == marker
            &&& actions.len() >= 2
            &&& actions[0] == ActionView::Emit(
                EventView::StreamText {
                    conversation_id: s.conversation_id,
                    assistant_message_id: text_or_empty(s.message_id),
                    text: marker,
                },
            )
            &&& actions[1] == ActionView::Emit(
                EventView::ToolUse {
                    conversation_id: s.conversation_id,
                    assistant_message_id: text_or_empty(s.message_id),
                    tool_use_id: tool.id,
                    tool_name: tool.name,
                    input: tool.input,
                    execution_id: record,
                },
            )
        }),
{
    let (next, _) = run_step(s, RunInputView::ToolExecutionSaved(record));
    assert(next.pieces.drop_last() =~= s.pieces);
}

} // verus!
