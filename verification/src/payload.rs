//! The events that the runtime sends to the user interface, and their payloads.
use vstd::prelude::*;

use crate::text::opt_view;

verus! {

/// An amount in US dollars as the bit pattern of its double-precision number. The runtime
/// carries such amounts and never computes with them.
#[derive(Clone, Copy, Debug, PartialEq, Eq, Structural)]
pub struct UsdCost {
    pub bits: u64,
}

/// The tokens that a turn has used.
#[derive(Clone, Copy, Debug, PartialEq, Eq, Structural)]
pub struct AgentUsagePayload {
    pub input_tokens: u64,
    pub output_tokens: u64,
}

/// The closing event of an agent turn.
#[derive(Debug)]
pub struct AgentDonePayload {
    pub conversation_id: String,
    pub assistant_message_id: String,
    pub text: String,
    pub thinking: Option<String>,
    pub model: Option<String>,
    pub session_id: Option<String>,
    pub usage: Option<AgentUsagePayload>,
    pub num_turns: Option<u32>,
    pub cost_usd: Option<UsdCost>,
}

/// An error that ended an agent turn.
#[derive(Debug)]
pub struct AgentErrorPayload {
    pub conversation_id: String,
    pub assistant_message_id: Option<String>,
    pub message: String,
}

/// A tool begins to run.
#[derive(Debug)]
pub struct AgentToolStartPayload {
    pub conversation_id: String,
    pub assistant_message_id: String,
    pub tool_use_id: String,
    pub tool_name: String,
    pub input: serde_json::Value,
}

/// The assistant asks for a tool.
#[derive(Debug)]
pub struct AgentToolUsePayload {
    pub conversation_id: String,
    pub assistant_message_id: String,
    pub tool_use_id: String,
    pub tool_name: String,
    pub input: serde_json::Value,
    pub execution_id: Option<String>,
}

/// A tool has finished.
#[derive(Debug)]
pub struct AgentToolResultPayload {
    pub conversation_id: String,
    pub assistant_message_id: String,
    pub tool_use_id: String,
    pub tool_name: String,
    pub content: String,
    pub is_error: bool,
}

/// The user is asked to permit a tool call.
#[derive(Debug)]
pub struct AgentPermissionRequestPayload {
    pub conversation_id: String,
    pub assistant_message_id: String,
    pub tool_use_id: String,
    pub tool_name: String,
    pub input: serde_json::Value,
    pub risk_level: String,
}

/// The agent asks the user a question.
#[derive(Debug)]
pub struct AgentAskUserPayload {
    pub conversation_id: String,
    pub assistant_message_id: String,
    pub ask_id: String,
    pub question: String,
    pub options: Option<Vec<String>>,
}

/// A status line of the agent.
#[derive(Debug)]
pub struct AgentStatusPayload {
    pub conversation_id: String,
    pub message: String,
}

/// The provider asks to wait.
#[derive(Debug)]
pub struct AgentRateLimitPayload {
    pub conversation_id: String,
    pub retry_after_ms: u64,
    pub message: String,
}

/// A piece of streamed reasoning.
#[derive(Debug)]
pub struct AgentThinkingPayload {
    pub conversation_id: String,
    pub assistant_message_id: String,
    pub thinking: String,
}

/// A piece of streamed answer text.
#[derive(Debug)]
pub struct AgentTextPayload {
    pub conversation_id: String,
    pub assistant_message_id: String,
    pub text: String,
}

/// The assistant message of a turn has been stored.
#[derive(Debug)]
pub struct AgentMessageIdPayload {
    pub conversation_id: String,
    pub assistant_message_id: String,
}

/// A conversation has a new title.
#[derive(Debug)]
pub struct TitleUpdatedPayload {
    pub conversation_id: String,
    pub title: String,
}

/// The generation of a title begins or ends.
#[derive(Debug)]
pub struct TitleGeneratingPayload {
    pub conversation_id: String,
    pub generating: bool,
    pub error: Option<String>,
}

/// An event for the user interface.
#[derive(Debug)]
pub enum FrontendEvent {
    Done(AgentDonePayload),
    Error(AgentErrorPayload),
    ToolStart(AgentToolStartPayload),
    ToolUse(AgentToolUsePayload),
    ToolResult(AgentToolResultPayload),
    PermissionRequest(AgentPermissionRequestPayload),
    AskUser(AgentAskUserPayload),
    Status(AgentStatusPayload),
    RateLimit(AgentRateLimitPayload),
    StreamThinking(AgentThinkingPayload),
    StreamText(AgentTextPayload),
    MessageId(AgentMessageIdPayload),
    TitleUpdated(TitleUpdatedPayload),
    TitleGenerating(TitleGeneratingPayload),
}

/// An event for the user interface, its texts as sequences of characters.
#[allow(inconsistent_fields)]
pub enum EventView {
    Done {
        conversation_id: Seq<char>,
        assistant_message_id: Seq<char>,
        text: Seq<char>,
        thinking: Option<Seq<char>>,
        model: Option<Seq<char>>,
        session_id: Option<Seq<char>>,
        usage: Option<AgentUsagePayload>,
        num_turns: Option<u32>,
        cost_usd: Option<UsdCost>,
    },
    Error {
        conversation_id: Seq<char>,
        assistant_message_id: Option<Seq<char>>,
        message: Seq<char>,
    },
    ToolStart {
        conversation_id: Seq<char>,
        assistant_message_id: Seq<char>,
        tool_use_id: Seq<char>,
        tool_name: Seq<char>,
        input: serde_json::Value,
    },
    ToolUse {
        conversation_id: Seq<char>,
        assistant_message_id: Seq<char>,
        tool_use_id: Seq<char>,
        tool_name: Seq<char>,
        input: serde_json::Value,
        execution_id: Option<Seq<char>>,
    },
    ToolResult {
        conversation_id: Seq<char>,
        assistant_message_id: Seq<char>,
        tool_use_id: Seq<char>,
        tool_name: Seq<char>,
        content: Seq<char>,
        is_error: bool,
    },
    PermissionRequest {
        conversation_id: Seq<char>,
        assistant_message_id: Seq<char>,
        tool_use_id: Seq<char>,
        tool_name: Seq<char>,
        input: serde_json::Value,
        risk_level: Seq<char>,
    },
    AskUser {
        conversation_id: Seq<char>,
        assistant_message_id: Seq<char>,
        ask_id: Seq<char>,
        question: Seq<char>,
        options: Option<Vec<String>>,
    },
    Status {
        conversation_id: Seq<char>,
        message: Seq<char>,
    },
    RateLimit {
        conversation_id: Seq<char>,
        retry_after_ms: u64,
        message: Seq<char>,
    },
    StreamThinking {
        conversation_id: Seq<char>,
        assistant_message_id: Seq<char>,
        thinking: Seq<char>,
    },
    StreamText {
        conversation_id: Seq<char>,
        assistant_message_id: Seq<char>,
        text: Seq<char>,
    },
    MessageId {
        conversation_id: Seq<char>,
        assistant_message_id: Seq<char>,
    },
    TitleUpdated {
        conversation_id: Seq<char>,
        title: Seq<char>,
    },
    TitleGenerating {
        conversation_id: Seq<char>,
        generating: bool,
        error: Option<Seq<char>>,
    },
}

impl View for AgentDonePayload {
    type V = EventView;

    open spec fn view(&self) -> EventView {
        EventView::Done {
            conversation_id: self.conversation_id@,
            assistant_message_id: self.assistant_message_id@,
            text: self.text@,
            thinking: opt_view(self.thinking),
            model: opt_view(self.model),
            session_id: opt_view(self.session_id),
            usage: self.usage,
            num_turns: self.num_turns,
            cost_usd: self.cost_usd,
        }
    }
}

impl View for AgentErrorPayload {
    type V = EventView;

    open spec fn view(&self) -> EventView {
        EventView::Error {
            conversation_id: self.conversation_id@,
            assistant_message_id: opt_view(self.assistant_message_id),
            message: self.message@,
        }
    }
}

impl View for AgentToolStartPayload {
    type V = EventView;

    open spec fn view(&self) -> EventView {
        EventView::ToolStart {
            conversation_id: self.conversation_id@,
            assistant_message_id: self.assistant_message_id@,
            tool_use_id: self.tool_use_id@,
            tool_name: self.tool_name@,
            input: self.input,
        }
    }
}

impl View for AgentToolUsePayload {
    type V = EventView;

    open spec fn view(&self) -> EventView {
        EventView::ToolUse {
            conversation_id: self.conversation_id@,
            assistant_message_id: self.assistant_message_id@,
            tool_use_id: self.tool_use_id@,
            tool_name: self.tool_name@,
            input: self.input,
            execution_id: opt_view(self.execution_id),
        }
    }
}

impl View for AgentToolResultPayload {
    type V = EventView;

    open spec fn view(&self) -> EventView {
        EventView::ToolResult {
            conversation_id: self.conversation_id@,
            assistant_message_id: self.assistant_message_id@,
            tool_use_id: self.tool_use_id@,
            tool_name: self.tool_name@,
            content: self.content@,
            is_error: self.is_error,
        }
    }
}

impl View for AgentPermissionRequestPayload {
    type V = EventView;

    open spec fn view(&self) -> EventView {
        EventView::PermissionRequest {
            conversation_id: self.conversation_id@,
            assistant_message_id: self.assistant_message_id@,
            tool_use_id: self.tool_use_id@,
            tool_name: self.tool_name@,
            input: self.input,
            risk_level: self.risk_level@,
        }
    }
}

impl View for AgentAskUserPayload {
    type V = EventView;

    open spec fn view(&self) -> EventView {
        EventView::AskUser {
            conversation_id: self.conversation_id@,
            assistant_message_id: self.assistant_message_id@,
            ask_id: self.ask_id@,
            question: self.question@,
            options: self.options,
        }
    }
}

impl View for AgentStatusPayload {
    type V = EventView;

    open spec fn view(&self) -> EventView {
        EventView::Status {
            conversation_id: self.conversation_id@,
            message: self.message@,
        }
    }
}

impl View for AgentRateLimitPayload {
    type V = EventView;

    open spec fn view(&self) -> EventView {
        EventView::RateLimit {
            conversation_id: self.conversation_id@,
            retry_after_ms: self.retry_after_ms,
            message: self.message@,
        }
    }
}

impl View for AgentThinkingPayload {
    type V = EventView;

    open spec fn view(&self) -> EventView {
        EventView::StreamThinking {
            conversation_id: self.conversation_id@,
            assistant_message_id: self.assistant_message_id@,
            thinking: self.thinking@,
        }
    }
}

impl View for AgentTextPayload {
    type V = EventView;

    open spec fn view(&self) -> EventView {
        EventView::StreamText {
            conversation_id: self.conversation_id@,
            assistant_message_id: self.assistant_message_id@,
            text: self.text@,
        }
    }
}

impl View for AgentMessageIdPayload {
    type V = EventView;

    open spec fn view(&self) -> EventView {
        EventView::MessageId {
            conversation_id: self.conversation_id@,
            assistant_message_id: self.assistant_message_id@,
        }
    }
}

impl View for TitleUpdatedPayload {
    type V = EventView;

    open spec fn view(&self) -> EventView {
        EventView::TitleUpdated {
            conversation_id: self.conversation_id@,
            title: self.title@,
        }
    }
}

impl View for TitleGeneratingPayload {
    type V = EventView;

    open spec fn view(&self) -> EventView {
        EventView::TitleGenerating {
            conversation_id: self.conversation_id@,
            generating: self.generating,
            error: opt_view(self.error),
        }
    }
}

impl View for FrontendEvent {
    type V = EventView;

    open spec fn view(&self) -> EventView {
        match self {
            FrontendEvent::Done(payload) => payload@,
            FrontendEvent::Error(payload) => payload@,
            FrontendEvent::ToolStart(payload) => payload@,
            FrontendEvent::ToolUse(payload) => payload@,
            FrontendEvent::ToolResult(payload) => payload@,
            FrontendEvent::PermissionRequest(payload) => payload@,
            FrontendEvent::AskUser(payload) => payload@,
            FrontendEvent::Status(payload) => payload@,
            FrontendEvent::RateLimit(payload) => payload@,
            FrontendEvent::StreamThinking(payload) => payload@,
            FrontendEvent::StreamText(payload) => payload@,
            FrontendEvent::MessageId(payload) => payload@,
            FrontendEvent::TitleUpdated(payload) => payload@,
            FrontendEvent::TitleGenerating(payload) => payload@,
        }
    }
}

/// The channel on which an event is sent.
pub open spec fn channel_name(event: EventView) -> Seq<char> {
    match event {
        EventView::Done { .. } => "agent-done"@,
        EventView::Error { .. } => "agent-error"@,
        EventView::ToolStart { .. } => "agent-tool-start"@,
        EventView::ToolUse { .. } => "agent-tool-use"@,
        EventView::ToolResult { .. } => "agent-tool-result"@,
        EventView::PermissionRequest { .. } => "agent-permission-request"@,
        EventView::AskUser { .. } => "agent-ask-user"@,
        EventView::Status { .. } => "agent-status"@,
        EventView::RateLimit { .. } => "agent-rate-limit"@,
        EventView::StreamThinking { .. } => "agent-stream-thinking"@,
        EventView::StreamText { .. } => "agent-stream-text"@,
        EventView::MessageId { .. } => "agent-message-id"@,
        EventView::TitleUpdated { .. } => "conversation-title-updated"@,
        EventView::TitleGenerating { .. } => "conversation-title-generating"@,
    }
}

impl FrontendEvent {
    /// The channel on which the event is sent.
    pub fn channel(&self) -> (name: &'static str)
        ensures
            name@ == channel_name(self@),
    {
        match self {
            FrontendEvent::Done(_) => "agent-done",
            FrontendEvent::Error(_) => "agent-error",
            FrontendEvent::ToolStart(_) => "agent-tool-start",
            FrontendEvent::ToolUse(_) => "agent-tool-use",
            FrontendEvent::ToolResult(_) => "agent-tool-result",
            FrontendEvent::PermissionRequest(_) => "agent-permission-request",
            FrontendEvent::AskUser(_) => "agent-ask-user",
            FrontendEvent::Status(_) => "agent-status",
            FrontendEvent::RateLimit(_) => "agent-rate-limit",
            FrontendEvent::StreamThinking(_) => "agent-stream-thinking",
            FrontendEvent::StreamText(_) => "agent-stream-text",
            FrontendEvent::MessageId(_) => "agent-message-id",
            FrontendEvent::TitleUpdated(_) => "conversation-title-updated",
            FrontendEvent::TitleGenerating(_) => "conversation-title-generating",
        }
    }
}

/// Every kind of event has a channel of its own, named after what it tells.
pub proof fn each_kind_of_event_has_its_channel(event: EventView)
    ensures
        event is Done ==> channel_name(event) == "agent-done"@,
        event is Error ==> channel_name(event) == "agent-error"@,
        event is ToolStart ==> channel_name(event) == "agent-tool-start"@,
        event is ToolUse ==> channel_name(event) == "agent-tool-use"@,
        event is ToolResult ==> channel_name(event) == "agent-tool-result"@,
        event is PermissionRequest ==> channel_name(event) == "agent-permission-request"@,
        event is AskUser ==> channel_name(event) == "agent-ask-user"@,
        event is Status ==> channel_name(event) == "agent-status"@,
        event is RateLimit ==> channel_name(event) == "agent-rate-limit"@,
        event is StreamThinking ==> channel_name(event) == "agent-stream-thinking"@,
        event is StreamText ==> channel_name(event) == "agent-stream-text"@,
        event is MessageId ==> channel_name(event) == "agent-message-id"@,
        event is TitleUpdated ==> channel_name(event) == "conversation-title-updated"@,
        event is TitleGenerating ==> channel_name(event) == "conversation-title-generating"@,
{
}

} // verus!
