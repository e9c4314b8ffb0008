//! One agent turn, from the first message of the agent to the stored result: which events
//! the user interface gets, what is stored, and when the turn is over.
//!
//! The agent's messages and the answers of the store come in as [`RunInput`]; each gives a
//! list of [`RunAction`] to perform in order. An action that has an answer is always the last
//! of its list, and its answer is the next input.
use vstd::prelude::*;

use crate::payload::{AgentUsagePayload, EventView, FrontendEvent, UsdCost};
use crate::text::{occurs_in, opt_view, text_or_empty, views};
use crate::tool_input::{input_summary, json_fields, preview, stored_input};
use crate::transcript::{final_content, rendered, shown_thinking, Piece};

verus! {

/// The greatest number of bytes of a tool's input or output that is stored.
pub const PREVIEW_BYTES: usize = 500;

/// A tool call that the assistant asks for.
pub struct ToolUse {
    pub id: String,
    pub name: String,
    pub input: serde_json::Value,
}

/// A tool call, its texts as sequences of characters.
pub struct ToolUseView {
    pub id: Seq<char>,
    pub name: Seq<char>,
    pub input: serde_json::Value,
}

impl View for ToolUse {
    type V = ToolUseView;

    open spec fn view(&self) -> ToolUseView {
        ToolUseView { id: self.id@, name: self.name@, input: self.input }
    }
}

/// One block of an assistant message of the agent.
pub enum Block {
    Thinking(String),
    Text(String),
    ToolUse(ToolUse),
    Other,
}

/// A block, its texts as sequences of characters.
pub enum BlockView {
    Thinking(Seq<char>),
    Text(Seq<char>),
    ToolUse(ToolUseView),
    Other,
}

impl View for Block {
    type V = BlockView;

    open spec fn view(&self) -> BlockView {
        match self {
            Block::Thinking(text) => BlockView::Thinking(text@),
            Block::Text(text) => BlockView::Text(text@),
            Block::ToolUse(tool) => BlockView::ToolUse(tool@),
            Block::Other => BlockView::Other,
        }
    }
}

/// A message of the agent, or the answer to an action.
pub enum RunInput {
    /// A whole assistant message.
    Assistant(Vec<Block>),
    /// A tool begins to run.
    ToolStart { tool_use_id: String, tool_name: String, input: serde_json::Value },
    /// A tool has finished.
    ToolResult { tool_use_id: String, tool_name: String, content: String, is_error: bool },
    /// The agent waits for a permission.
    PermissionRequest { tool_use_id: String, tool_name: String, input: serde_json::Value },
    /// A status or progress line.
    Status(String),
    /// The provider asks to wait.
    RateLimit { retry_after_ms: u64, message: String },
    /// The agent's result.
    Result { text: String, usage: AgentUsagePayload, num_turns: u32, cost: UsdCost },
    /// The agent has failed.
    Error(String),
    /// A streamed piece of reasoning.
    ThinkingDelta(String),
    /// A streamed piece of answer text.
    TextDelta(String),
    /// Any other message.
    Other,
    /// No more messages come; whether the agent's task failed.
    Closed { crashed: bool },
    /// The answer to `CreateMessage`: the id of the new message.
    MessageSaved(Option<String>),
    /// The answer to `CreateToolExecution`: the id of the new record.
    ToolExecutionSaved(Option<String>),
    /// The answer to `GenerateTitle`: the title or an error.
    TitleGenerated(Result<String, String>),
    /// The answer to `SaveTitle`: the error, where there was one.
    TitleSaved(Option<String>),
}

/// An input, its texts as sequences of characters.
#[allow(inconsistent_fields)]
pub enum RunInputView {
    Assistant(Seq<BlockView>),
    ToolStart { tool_use_id: Seq<char>, tool_name: Seq<char>, input: serde_json::Value },
    ToolResult {
        tool_use_id: Seq<char>,
        tool_name: Seq<char>,
        content: Seq<char>,
        is_error: bool,
    },
    PermissionRequest { tool_use_id: Seq<char>, tool_name: Seq<char>, input: serde_json::Value },
    Status(Seq<char>),
    RateLimit { retry_after_ms: u64, message: Seq<char> },
    Result { text: Seq<char>, usage: AgentUsagePayload, num_turns: u32, cost: UsdCost },
    Error(Seq<char>),
    ThinkingDelta(Seq<char>),
    TextDelta(Seq<char>),
    Other,
    Closed { crashed: bool },
    MessageSaved(Option<Seq<char>>),
    ToolExecutionSaved(Option<Seq<char>>),
    TitleGenerated(Result<Seq<char>, Seq<char>>),
    TitleSaved(Option<Seq<char>>),
}

impl View for RunInput {
    type V = RunInputView;

    open spec fn view(&self) -> RunInputView {
        match self {
            RunInput::Assistant(blocks) => RunInputView::Assistant(views(blocks@)),
            RunInput::ToolStart { tool_use_id, tool_name, input } => RunInputView::ToolStart {
                tool_use_id: tool_use_id@,
                tool_name: tool_name@,
                input: *input,
            },
            RunInput::ToolResult { tool_use_id, tool_name, content, is_error } =>
                RunInputView::ToolResult {
                    tool_use_id: tool_use_id@,
                    tool_name: tool_name@,
                    content: content@,
                    is_error: *is_error,
                },
            RunInput::PermissionRequest { tool_use_id, tool_name, input } =>
                RunInputView::PermissionRequest {
                    tool_use_id: tool_use_id@,
                    tool_name: tool_name@,
                    input: *input,
                },
            RunInput::Status(message) => RunInputView::Status(message@),
            RunInput::RateLimit { retry_after_ms, message } => RunInputView::RateLimit {
                retry_after_ms: *retry_after_ms,
                message: message@,
            },
            RunInput::Result { text, usage, num_turns, cost } => RunInputView::Result {
                text: text@,
                usage: *usage,
                num_turns: *num_turns,
                cost: *cost,
            },
            RunInput::Error(message) => RunInputView::Error(message@),
            RunInput::ThinkingDelta(thinking) => RunInputView::ThinkingDelta(thinking@),
            RunInput::TextDelta(text) => RunInputView::TextDelta(text@),
            RunInput::Other => RunInputView::Other,
            RunInput::Closed { crashed } => RunInputView::Closed { crashed: *crashed },
            RunInput::MessageSaved(id) => RunInputView::MessageSaved(opt_view(*id)),
            RunInput::ToolExecutionSaved(id) => RunInputView::ToolExecutionSaved(opt_view(*id)),
            RunInput::TitleGenerated(Ok(title)) => RunInputView::TitleGenerated(Ok(title@)),
            RunInput::TitleGenerated(Err(error)) => RunInputView::TitleGenerated(Err(error@)),
            RunInput::TitleSaved(error) => RunInputView::TitleSaved(opt_view(*error)),
        }
    }
}

/// How far the execution of a tool has come.
#[derive(Clone, Copy, Debug, PartialEq, Eq, Structural)]
pub enum ToolStatus {
    Running,
    Success,
    Failed,
}

impl ToolStatus {
    /// The stored name of the status.
    pub open spec fn name(self) -> Seq<char> {
        match self {
            ToolStatus::Running => "running"@,
            ToolStatus::Success => "success"@,
            ToolStatus::Failed => "failed"@,
        }
    }

    /// The stored name of the status.
    pub fn as_str(self) -> (name: &'static str)
        ensures
            name@ == self.name(),
    {
        match self {
            ToolStatus::Running => "running",
            ToolStatus::Success => "success",
            ToolStatus::Failed => "failed",
        }
    }
}

/// Something to do for a turn.
pub enum RunAction {
    /// Send an event to the user interface.
    Emit(FrontendEvent),
    /// Store a new assistant message under the user's message; answered by `MessageSaved`.
    CreateMessage { parent_id: String, created_at: Option<i64>, content: String },
    /// Let the permission and question dialogs know the id of the assistant message.
    PublishMessageId(String),
    /// Count one more message of the conversation.
    CountMessage,
    /// Store the content of a message.
    UpdateMessage { id: String, content: String },
    /// Store a record of a tool call; answered by `ToolExecutionSaved`.
    CreateToolExecution { message_id: Option<String>, tool_name: String, input_preview: String },
    /// Store how far a tool call has come.
    SetToolStatus {
        execution_id: String,
        status: ToolStatus,
        output: Option<String>,
        error: Option<String>,
    },
    /// Store that a tool call waits for an approval.
    SetToolPending { execution_id: String },
    /// Forget the stored context of the agent.
    ClearContext,
    /// Mark the session as idle.
    SetIdle,
    /// Store the tokens that a message has used.
    RecordUsage { id: String, input_tokens: i64, output_tokens: i64 },
    /// Generate a title from the user's prompt and the result; answered by `TitleGenerated`.
    GenerateTitle { result: String },
    /// Store the title of the conversation; answered by `TitleSaved`.
    SaveTitle { title: String },
    /// Store the agent's context and usage in the session and mark it as idle.
    SaveSession { tokens: i32, cost: UsdCost },
}

/// An action, its texts as sequences of characters.
#[allow(inconsistent_fields)]
pub enum ActionView {
    Emit(EventView),
    CreateMessage { parent_id: Seq<char>, created_at: Option<i64>, content: Seq<char> },
    PublishMessageId(Seq<char>),
    CountMessage,
    UpdateMessage { id: Seq<char>, content: Seq<char> },
    CreateToolExecution {
        message_id: Option<Seq<char>>,
        tool_name: Seq<char>,
        input_preview: Seq<char>,
    },
    SetToolStatus {
        execution_id: Seq<char>,
        status: ToolStatus,
        output: Option<Seq<char>>,
        error: Option<Seq<char>>,
    },
    SetToolPending { execution_id: Seq<char> },
    ClearContext,
    SetIdle,
    RecordUsage { id: Seq<char>, input_tokens: int, output_tokens: int },
    GenerateTitle { result: Seq<char> },
    SaveTitle { title: Seq<char> },
    SaveSession { tokens: int, cost: UsdCost },
}

impl View for RunAction {
    type V = ActionView;

    open spec fn view(&self) -> ActionView {
        match self {
            RunAction::Emit(event) => ActionView::Emit(event@),
            RunAction::CreateMessage { parent_id, created_at, content } =>
                ActionView::CreateMessage {
                    parent_id: parent_id@,
                    created_at: *created_at,
                    content: content@,
                },
            RunAction::PublishMessageId(id) => ActionView::PublishMessageId(id@),
            RunAction::CountMessage => ActionView::CountMessage,
            RunAction::UpdateMessage { id, content } => ActionView::UpdateMessage {
                id: id@,
                content: content@,
            },
            RunAction::CreateToolExecution { message_id, tool_name, input_preview } =>
                ActionView::CreateToolExecution {
                    message_id: opt_view(*message_id),
                    tool_name: tool_name@,
                    input_preview: input_preview@,
                },
            RunAction::SetToolStatus { execution_id, status, output, error } =>
                ActionView::SetToolStatus {
                    execution_id: execution_id@,
                    status: *status,
                    output: opt_view(*output),
                    error: opt_view(*error),
                },
            RunAction::SetToolPending { execution_id } => ActionView::SetToolPending {
                execution_id: execution_id@,
            },
            RunAction::ClearContext => ActionView::ClearContext,
            RunAction::SetIdle => ActionView::SetIdle,
            RunAction::RecordUsage { id, input_tokens, output_tokens } =>
                ActionView::RecordUsage {
                    id: id@,
                    input_tokens: *input_tokens as int,
                    output_tokens: *output_tokens as int,
                },
            RunAction::GenerateTitle { result } => ActionView::GenerateTitle { result: result@ },
            RunAction::SaveTitle { title } => ActionView::SaveTitle { title: title@ },
            RunAction::SaveSession { tokens, cost } => ActionView::SaveSession {
                tokens: *tokens as int,
                cost: *cost,
            },
        }
    }
}

/// What the assistant message is being created for.
pub enum Cause {
    /// A whole message, with the tool calls that it asks for.
    Assistant(Vec<ToolUse>),
    /// A streamed piece of reasoning.
    Thinking(String),
    /// A streamed piece of answer text.
    Text(String),
}

/// A cause, its texts as sequences of characters.
pub enum CauseView {
    Assistant(Seq<ToolUseView>),
    Thinking(Seq<char>),
    Text(Seq<char>),
}

impl View for Cause {
    type V = CauseView;

    open spec fn view(&self) -> CauseView {
        match self {
            Cause::Assistant(tools) => CauseView::Assistant(views(tools@)),
            Cause::Thinking(text) => CauseView::Thinking(text@),
            Cause::Text(text) => CauseView::Text(text@),
        }
    }
}

/// What a turn waits for.
pub enum Phase {
    /// The next message of the agent.
    Listening,
    /// The answer to the creation of the assistant message.
    SavingMessage(Cause),
    /// The answer to the record of the tool call at an index.
    SavingTool { tools: Vec<ToolUse>, next: usize },
    /// The answer to the creation of the message with the final content.
    SavingFinal { content: String },
    /// A generated title.
    Titling,
    /// The answer to the storing of a title.
    SavingTitle { title: String },
    /// Nothing: the turn is over.
    Ended,
}

/// A phase, its texts as sequences of characters.
pub enum PhaseView {
    Listening,
    SavingMessage(CauseView),
    SavingTool { tools: Seq<ToolUseView>, next: int },
    SavingFinal { content: Seq<char> },
    Titling,
    SavingTitle { title: Seq<char> },
    Ended,
}

impl View for Phase {
    type V = PhaseView;

    open spec fn view(&self) -> PhaseView {
        match self {
            Phase::Listening => PhaseView::Listening,
            Phase::SavingMessage(cause) => PhaseView::SavingMessage(cause@),
            Phase::SavingTool { tools, next } => PhaseView::SavingTool {
                tools: views(tools@),
                next: *next as int,
            },
            Phase::SavingFinal { content } => PhaseView::SavingFinal { content: content@ },
            Phase::Titling => PhaseView::Titling,
            Phase::SavingTitle { title } => PhaseView::SavingTitle { title: title@ },
            Phase::Ended => PhaseView::Ended,
        }
    }
}

/// The agent's result.
pub struct Outcome {
    pub text: String,
    pub usage: AgentUsagePayload,
    pub num_turns: u32,
    pub cost: UsdCost,
}

/// The agent's result, its text as a sequence of characters.
pub struct OutcomeView {
    pub text: Seq<char>,
    pub usage: AgentUsagePayload,
    pub num_turns: u32,
    pub cost: UsdCost,
}

impl View for Outcome {
    type V = OutcomeView;

    open spec fn view(&self) -> OutcomeView {
        OutcomeView {
            text: self.text@,
            usage: self.usage,
            num_turns: self.num_turns,
            cost: self.cost,
        }
    }
}

/// The state of a turn.
pub struct RunView {
    pub conversation_id: Seq<char>,
    pub user_message_id: Seq<char>,
    pub created_at: i64,
    pub model_id: Seq<char>,
    pub first_message: bool,
    /// What the assistant message consists of so far.
    pub pieces: Seq<Piece>,
    /// Whether the message that is under way has been streamed in pieces.
    pub streamed: bool,
    /// The stored assistant message.
    pub message_id: Option<Seq<char>>,
    /// The stored records of tool calls by the id of the call.
    pub executions: Map<Seq<char>, Seq<char>>,
    pub outcome: Option<OutcomeView>,
    pub phase: PhaseView,
}

// ---------------------------------------------------------------------------------------
// What a turn does
// ---------------------------------------------------------------------------------------

/// A state that waits for something else.
pub open spec fn waiting(s: RunView, phase: PhaseView) -> RunView {
    RunView { phase, ..s }
}

/// The event of a streamed piece of answer text.
pub open spec fn text_event(s: RunView, text: Seq<char>) -> ActionView {
    ActionView::Emit(
        EventView::StreamText {
            conversation_id: s.conversation_id,
            assistant_message_id: text_or_empty(s.message_id),
            text,
        },
    )
}

/// The event of a streamed piece of reasoning.
pub open spec fn thinking_event(s: RunView, thinking: Seq<char>) -> ActionView {
    ActionView::Emit(
        EventView::StreamThinking {
            conversation_id: s.conversation_id,
            assistant_message_id: text_or_empty(s.message_id),
            thinking,
        },
    )
}

/// The event of an error.
pub open spec fn error_event(s: RunView, message: Seq<char>) -> ActionView {
    ActionView::Emit(
        EventView::Error {
            conversation_id: s.conversation_id,
            assistant_message_id: s.message_id,
            message,
        },
    )
}

/// The event of a title's generation.
pub open spec fn title_event(
    s: RunView,
    generating: bool,
    error: Option<Seq<char>>,
) -> ActionView {
    ActionView::Emit(
        EventView::TitleGenerating { conversation_id: s.conversation_id, generating, error },
    )
}

/// The pieces that blocks of a message show.
pub open spec fn block_pieces(blocks: Seq<BlockView>) -> Seq<Piece>
    decreases blocks.len(),
{
    if blocks.len() == 0 {
        Seq::empty()
    } else {
        let before = block_pieces(blocks.drop_last());
        match blocks.last() {
            BlockView::Thinking(text) => before.push(Piece::Thought(text)),
            BlockView::Text(text) => before.push(Piece::Plain(text)),
            _ => before,
        }
    }
}

/// The events that blocks of a message give.
pub open spec fn block_events(s: RunView, blocks: Seq<BlockView>) -> Seq<ActionView>
    decreases blocks.len(),
{
    if blocks.len() == 0 {
        Seq::empty()
    } else {
        let before = block_events(s, blocks.drop_last());
        match blocks.last() {
            BlockView::Thinking(text) => before.push(thinking_event(s, text)),
            BlockView::Text(text) => before.push(text_event(s, text)),
            _ => before,
        }
    }
}

/// The tool calls that blocks of a message ask for.
pub open spec fn block_tools(blocks: Seq<BlockView>) -> Seq<ToolUseView>
    decreases blocks.len(),
{
    if blocks.len() == 0 {
        Seq::empty()
    } else {
        let before = block_tools(blocks.drop_last());
        match blocks.last() {
            BlockView::ToolUse(tool) => before.push(tool),
            _ => before,
        }
    }
}

/// The creation of the assistant message with what it shows so far.
pub open spec fn create_action(s: RunView) -> ActionView {
    ActionView::CreateMessage {
        parent_id: s.user_message_id,
        created_at: Some(s.created_at),
        content: rendered(s.pieces),
    }
}

/// The storing of what the assistant message shows so far.
pub open spec fn update_actions(s: RunView) -> Seq<ActionView> {
    match s.message_id {
        Some(id) => seq![ActionView::UpdateMessage { id, content: rendered(s.pieces) }],
        None => Seq::empty(),
    }
}

/// Asks for the record of the tool call at an index.
pub open spec fn request_tool(s: RunView, tools: Seq<ToolUseView>, next: int) -> (
    RunView,
    Seq<ActionView>,
) {
    let tool = tools[next];
    (
        waiting(s, PhaseView::SavingTool { tools, next }),
        seq![
            ActionView::CreateToolExecution {
                message_id: s.message_id,
                tool_name: tool.name,
                input_preview: preview(stored_input(tool.input), PREVIEW_BYTES as nat),
            },
        ],
    )
}

/// Turns to the tool calls of a message, where it asks for any.
pub open spec fn start_tools(s: RunView, tools: Seq<ToolUseView>) -> (RunView, Seq<ActionView>) {
    if tools.len() == 0 {
        (waiting(s, PhaseView::Listening), Seq::empty())
    } else {
        request_tool(s, tools, 0)
    }
}

/// A whole message of the assistant. Text that has been streamed already is not shown again.
pub open spec fn on_assistant(s: RunView, blocks: Seq<BlockView>) -> (RunView, Seq<ActionView>) {
    let events = if s.streamed {
        Seq::empty()
    } else {
        block_events(s, blocks)
    };
    let shown = RunView {
        pieces: if s.streamed {
            s.pieces
        } else {
            s.pieces + block_pieces(blocks)
        },
        streamed: false,
        ..s
    };
    let tools = block_tools(blocks);
    if s.message_id is None {
        (
            waiting(shown, PhaseView::SavingMessage(CauseView::Assistant(tools))),
            events.push(create_action(shown)),
        )
    } else {
        let (next, rest) = start_tools(shown, tools);
        (next, events + update_actions(shown) + rest)
    }
}

/// A streamed piece of reasoning or answer text.
pub open spec fn on_delta(s: RunView, piece: Piece) -> (RunView, Seq<ActionView>) {
    let shown = RunView { pieces: s.pieces.push(piece), streamed: true, ..s };
    let (cause, event) = match piece {
        Piece::Thought(text) => (CauseView::Thinking(text), thinking_event(shown, text)),
        Piece::Plain(text) => (CauseView::Text(text), text_event(shown, text)),
    };
    if s.message_id is None {
        (
            waiting(shown, PhaseView::SavingMessage(cause)),
            seq![create_action(shown)],
        )
    } else {
        (shown, update_actions(shown).push(event))
    }
}

/// What follows the creation of the assistant message.
pub open spec fn on_message_saved(s: RunView, cause: CauseView, id: Option<Seq<char>>) -> (
    RunView,
    Seq<ActionView>,
) {
    let known = RunView { message_id: id, phase: PhaseView::Listening, ..s };
    let news = match id {
        Some(id) => seq![
            ActionView::PublishMessageId(id),
            ActionView::Emit(
                EventView::MessageId {
                    conversation_id: s.conversation_id,
                    assistant_message_id: id,
                },
            ),
            ActionView::CountMessage,
        ],
        None => Seq::empty(),
    };
    match cause {
        CauseView::Assistant(tools) => {
            let (next, rest) = start_tools(known, tools);
            (next, news + rest)
        },
        CauseView::Thinking(text) => (
            known,
            news + update_actions(known).push(thinking_event(known, text)),
        ),
        CauseView::Text(text) => (
            known,
            news + update_actions(known).push(text_event(known, text)),
        ),
    }
}

/// The marker of a tool call in the text of a message.
pub open spec fn tool_marker(tag: Seq<char>, name: Seq<char>, summary: Seq<char>) -> Seq<char> {
    "\n\n<tool-call data-aqbot=\"1\" id=\""@ + tag + "\" name=\""@ + name + "\">"@ + summary
        + "</tool-call>\n\n"@
}

/// What follows the record of the tool call at an index.
pub open spec fn on_tool_saved(
    s: RunView,
    tools: Seq<ToolUseView>,
    at: int,
    execution_id: Option<Seq<char>>,
) -> (RunView, Seq<ActionView>) {
    let tool = tools[at];
    let tag = match execution_id {
        Some(id) => id,
        None => tool.id,
    };
    let marker = tool_marker(tag, tool.name, input_summary(tool.name, json_fields(tool.input)));
    let marked = RunView {
        pieces: s.pieces.push(Piece::Plain(marker)),
        executions: match execution_id {
            Some(id) => s.executions.insert(tool.id, id),
            None => s.executions,
        },
        ..s
    };
    let events = seq![
        text_event(s, marker),
        ActionView::Emit(
            EventView::ToolUse {
                conversation_id: s.conversation_id,
                assistant_message_id: text_or_empty(s.message_id),
                tool_use_id: tool.id,
                tool_name: tool.name,
                input: tool.input,
                execution_id,
            },
        ),
    ];
    if at + 1 < tools.len() {
        let (next, rest) = request_tool(marked, tools, at + 1);
        (next, events + rest)
    } else {
        (waiting(marked, PhaseView::Listening), events + update_actions(marked))
    }
}

/// A tool begins to run.
pub open spec fn on_tool_start(
    s: RunView,
    tool_use_id: Seq<char>,
    tool_name: Seq<char>,
    input: serde_json::Value,
) -> Seq<ActionView> {
    let event = ActionView::Emit(
        EventView::ToolStart {
            conversation_id: s.conversation_id,
            assistant_message_id: text_or_empty(s.message_id),
            tool_use_id,
            tool_name,
            input,
        },
    );
    if s.executions.contains_key(tool_use_id) {
        seq![
            event,
            ActionView::SetToolStatus {
                execution_id: s.executions[tool_use_id],
                status: ToolStatus::Running,
                output: None,
                error: None,
            },
        ]
    } else {
        seq![event]
    }
}

/// A tool has finished.
pub open spec fn on_tool_result(
    s: RunView,
    tool_use_id: Seq<char>,
    tool_name: Seq<char>,
    content: Seq<char>,
    is_error: bool,
) -> Seq<ActionView> {
    let event = ActionView::Emit(
        EventView::ToolResult {
            conversation_id: s.conversation_id,
            assistant_message_id: text_or_empty(s.message_id),
            tool_use_id,
            tool_name,
            content,
            is_error,
        },
    );
    if s.executions.contains_key(tool_use_id) {
        seq![
            event,
            ActionView::SetToolStatus {
                execution_id: s.executions[tool_use_id],
                status: if is_error {
                    ToolStatus::Failed
                } else {
                    ToolStatus::Success
                },
                output: Some(preview(content, PREVIEW_BYTES as nat)),
                error: if is_error {
                    Some(content)
                } else {
                    None
                },
            },
        ]
    } else {
        seq![event]
    }
}

/// The agent waits for a permission.
pub open spec fn on_permission_request(
    s: RunView,
    tool_use_id: Seq<char>,
    tool_name: Seq<char>,
    input: serde_json::Value,
) -> Seq<ActionView> {
    let event = ActionView::Emit(
        EventView::PermissionRequest {
            conversation_id: s.conversation_id,
            assistant_message_id: text_or_empty(s.message_id),
            tool_use_id,
            tool_name,
            input,
            risk_level: "execute"@,
        },
    );
    if s.executions.contains_key(tool_use_id) {
        seq![
            event,
            ActionView::SetToolPending { execution_id: s.executions[tool_use_id] },
        ]
    } else {
        seq![event]
    }
}

/// Whether an error of the agent comes from a stored context that the provider refuses.
pub open spec fn is_stale_context_error(message: Seq<char>) -> bool {
    occurs_in("reasoning_content"@, message) && occurs_in("thinking mode"@, message)
}

/// The turn ends with an error.
pub open spec fn failed(s: RunView, message: Seq<char>) -> (RunView, Seq<ActionView>) {
    (waiting(s, PhaseView::Ended), seq![error_event(s, message), ActionView::SetIdle])
}

/// The agent has failed.
pub open spec fn on_error(s: RunView, message: Seq<char>) -> (RunView, Seq<ActionView>) {
    let (next, rest) = failed(s, message);
    if is_stale_context_error(message) {
        (next, seq![ActionView::ClearContext] + rest)
    } else {
        (next, rest)
    }
}

/// The low 64 bits of a number as a signed number.
pub open spec fn signed_64(n: int) -> int {
    let low = n % 0x1_0000_0000_0000_0000;
    if low < 0x8000_0000_0000_0000 {
        low
    } else {
        low - 0x1_0000_0000_0000_0000
    }
}

/// The low 32 bits of a number as a signed number.
pub open spec fn signed_32(n: int) -> int {
    let low = n % 0x1_0000_0000;
    if low < 0x8000_0000 {
        low
    } else {
        low - 0x1_0000_0000
    }
}

/// The last action of a turn with a result.
pub open spec fn save_session(outcome: OutcomeView) -> ActionView {
    ActionView::SaveSession {
        tokens: signed_32(outcome.usage.input_tokens + outcome.usage.output_tokens),
        cost: outcome.cost,
    }
}

/// The message has its final content: the result is reported, and the first turn of a
/// conversation gets a title.
pub open spec fn wrap_up(s: RunView, outcome: OutcomeView, content: Seq<char>) -> (
    RunView,
    Seq<ActionView>,
) {
    let usage = match s.message_id {
        Some(id) => seq![
            ActionView::RecordUsage {
                id,
                input_tokens: signed_64(outcome.usage.input_tokens as int),
                output_tokens: signed_64(outcome.usage.output_tokens as int),
            },
        ],
        None => Seq::empty(),
    };
    let done = ActionView::Emit(
        EventView::Done {
            conversation_id: s.conversation_id,
            assistant_message_id: text_or_empty(s.message_id),
            text: content,
            thinking: shown_thinking(s.pieces),
            model: Some(s.model_id),
            session_id: None,
            usage: Some(outcome.usage),
            num_turns: Some(outcome.num_turns),
            cost_usd: Some(outcome.cost),
        },
    );
    if s.first_message {
        (
            waiting(s, PhaseView::Titling),
            usage.push(done).push(title_event(s, true, None)).push(
                ActionView::GenerateTitle { result: outcome.text },
            ),
        )
    } else {
        (
            waiting(s, PhaseView::Ended),
            usage.push(done).push(save_session(outcome)),
        )
    }
}

/// No more messages of the agent come.
pub open spec fn on_closed(s: RunView, crashed: bool) -> (RunView, Seq<ActionView>) {
    match s.outcome {
        None => if crashed {
            failed(s, "Agent task crashed unexpectedly"@)
        } else {
            failed(s, "Agent ended unexpectedly without producing a result"@)
        },
        Some(outcome) => {
            let content = final_content(s.pieces, outcome.text);
            if content.len() == 0 {
                wrap_up(s, outcome, content)
            } else {
                match s.message_id {
                    Some(id) => {
                        let (next, rest) = wrap_up(s, outcome, content);
                        (next, seq![ActionView::UpdateMessage { id, content }] + rest)
                    },
                    None => (
                        waiting(s, PhaseView::SavingFinal { content }),
                        seq![
                            ActionView::CreateMessage {
                                parent_id: s.user_message_id,
                                created_at: None,
                                content,
                            },
                        ],
                    ),
                }
            }
        },
    }
}

/// What follows the creation of the message with the final content.
pub open spec fn on_final_saved(
    s: RunView,
    outcome: OutcomeView,
    content: Seq<char>,
    id: Option<Seq<char>>,
) -> (RunView, Seq<ActionView>) {
    match id {
        Some(_) => {
            let (next, rest) = wrap_up(RunView { message_id: id, ..s }, outcome, content);
            (next, seq![ActionView::CountMessage] + rest)
        },
        None => wrap_up(s, outcome, content),
    }
}

/// What follows the generation of a title.
pub open spec fn on_title(
    s: RunView,
    outcome: OutcomeView,
    title: Result<Seq<char>, Seq<char>>,
) -> (RunView, Seq<ActionView>) {
    match title {
        Ok(title) => (
            waiting(s, PhaseView::SavingTitle { title }),
            seq![ActionView::SaveTitle { title }],
        ),
        Err(error) => (
            waiting(s, PhaseView::Ended),
            seq![title_event(s, false, Some(error)), save_session(outcome)],
        ),
    }
}

/// What follows the storing of a title.
pub open spec fn on_title_saved(
    s: RunView,
    outcome: OutcomeView,
    title: Seq<char>,
    error: Option<Seq<char>>,
) -> (RunView, Seq<ActionView>) {
    (
        waiting(s, PhaseView::Ended),
        match error {
            Some(error) => seq![
                title_event(s, false, Some("Failed to save title: "@ + error)),
                save_session(outcome),
            ],
            None => seq![
                ActionView::Emit(
                    EventView::TitleUpdated { conversation_id: s.conversation_id, title },
                ),
                title_event(s, false, None),
                save_session(outcome),
            ],
        },
    )
}

/// What a message of the agent does to a turn that listens.
pub open spec fn on_message(s: RunView, input: RunInputView) -> (RunView, Seq<ActionView>) {
    match input {
        RunInputView::Assistant(blocks) => on_assistant(s, blocks),
        RunInputView::ToolStart { tool_use_id, tool_name, input } => (
            s,
            on_tool_start(s, tool_use_id, tool_name, input),
        ),
        RunInputView::ToolResult { tool_use_id, tool_name, content, is_error } => (
            s,
            on_tool_result(s, tool_use_id, tool_name, content, is_error),
        ),
        RunInputView::PermissionRequest { tool_use_id, tool_name, input } => (
            s,
            on_permission_request(s, tool_use_id, tool_name, input),
        ),
        RunInputView::Status(message) => (
            s,
            seq![
                ActionView::Emit(
                    EventView::Status { conversation_id: s.conversation_id, message },
                ),
            ],
        ),
        RunInputView::RateLimit { retry_after_ms, message } => (
            s,
            seq![
                ActionView::Emit(
                    EventView::RateLimit {
                        conversation_id: s.conversation_id,
                        retry_after_ms,
                        message,
                    },
                ),
            ],
        ),
        RunInputView::Result { text, usage, num_turns, cost } => (
            RunView { outcome: Some(OutcomeView { text, usage, num_turns, cost }), ..s },
            Seq::empty(),
        ),
        RunInputView::Error(message) => on_error(s, message),
        RunInputView::ThinkingDelta(text) => on_delta(s, Piece::Thought(text)),
        RunInputView::TextDelta(text) => on_delta(s, Piece::Plain(text)),
        RunInputView::Closed { crashed } => on_closed(s, crashed),
        _ => (s, Seq::empty()),
    }
}

/// What an input does to a turn: the next state and the actions to perform. An input that
/// the turn does not wait for does nothing.
pub open spec fn run_step(s: RunView, input: RunInputView) -> (RunView, Seq<ActionView>) {
    match (s.phase, input) {
        (PhaseView::Listening, _) => on_message(s, input),
        (PhaseView::SavingMessage(cause), RunInputView::MessageSaved(id)) => on_message_saved(
            s,
            cause,
            id,
        ),
        (
            PhaseView::SavingTool { tools, next },
            RunInputView::ToolExecutionSaved(id),
        ) => on_tool_saved(s, tools, next, id),
        (PhaseView::SavingFinal { content }, RunInputView::MessageSaved(id)) => on_final_saved(
            s,
            s.outcome->0,
            content,
            id,
        ),
        (PhaseView::Titling, RunInputView::TitleGenerated(title)) => on_title(
            s,
            s.outcome->0,
            title,
        ),
        (PhaseView::SavingTitle { title }, RunInputView::TitleSaved(error)) => on_title_saved(
            s,
            s.outcome->0,
            title,
            error,
        ),
        _ => (s, Seq::empty()),
    }
}

/// Whether the tokens of a result can be added up.
pub open spec fn input_in_range(input: RunInputView) -> bool {
    input matches RunInputView::Result { usage, .. } ==> usage.input_tokens + usage.output_tokens
        <= u64::MAX
}

/// What holds of every state of a turn.
pub open spec fn run_inv(s: RunView) -> bool {
    &&& s.phase matches PhaseView::SavingTool { tools, next } ==> 0 <= next < tools.len()
    &&& (s.phase is SavingFinal || s.phase is Titling || s.phase is SavingTitle)
        ==> s.outcome is Some
    &&& s.phase is SavingMessage ==> s.message_id is None
    &&& s.phase is SavingFinal ==> s.message_id is None
    &&& s.outcome matches Some(outcome) ==> outcome.usage.input_tokens
        + outcome.usage.output_tokens <= u64::MAX
}

/// A turn to which no message of the agent has come yet.
pub open spec fn run_start(
    conversation_id: Seq<char>,
    user_message_id: Seq<char>,
    user_created_at: i64,
    model_id: Seq<char>,
    first_message: bool,
) -> RunView {
    RunView {
        conversation_id,
        user_message_id,
        created_at: (user_created_at + 1) as i64,
        model_id,
        first_message,
        pieces: Seq::empty(),
        streamed: false,
        message_id: None,
        executions: Map::empty(),
        outcome: None,
        phase: PhaseView::Listening,
    }
}

} // verus!
