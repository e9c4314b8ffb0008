use aqbot_agent_runtime::payload::{
    AgentAskUserPayload, AgentDonePayload, AgentErrorPayload, AgentMessageIdPayload,
    AgentPermissionRequestPayload, AgentRateLimitPayload, AgentStatusPayload, AgentTextPayload,
    AgentThinkingPayload, AgentToolResultPayload, AgentToolStartPayload, AgentToolUsePayload,
    FrontendEvent, TitleGeneratingPayload, TitleUpdatedPayload,
};

fn s() -> String {
    "x".to_string()
}

#[test]
fn every_event_has_its_channel() {
    let events = vec![
        FrontendEvent::Done(AgentDonePayload {
            conversation_id: s(),
            assistant_message_id: s(),
            text: s(),
            thinking: None,
            model: None,
            session_id: None,
            usage: None,
            num_turns: None,
            cost_usd: None,
        }),
        FrontendEvent::Error(AgentErrorPayload {
            conversation_id: s(),
            assistant_message_id: None,
            message: s(),
        }),
        FrontendEvent::ToolStart(AgentToolStartPayload {
            conversation_id: s(),
            assistant_message_id: s(),
            tool_use_id: s(),
            tool_name: s(),
            input: serde_json::Value::Null,
        }),
        FrontendEvent::ToolUse(AgentToolUsePayload {
            conversation_id: s(),
            assistant_message_id: s(),
            tool_use_id: s(),
            tool_name: s(),
            input: serde_json::Value::Null,
            execution_id: None,
        }),
        FrontendEvent::ToolResult(AgentToolResultPayload {
            conversation_id: s(),
            assistant_message_id: s(),
            tool_use_id: s(),
            tool_name: s(),
            content: s(),
            is_error: false,
        }),
        FrontendEvent::PermissionRequest(AgentPermissionRequestPayload {
            conversation_id: s(),
            assistant_message_id: s(),
            tool_use_id: s(),
            tool_name: s(),
            input: serde_json::Value::Null,
            risk_level: s(),
        }),
        FrontendEvent::AskUser(AgentAskUserPayload {
            conversation_id: s(),
            assistant_message_id: s(),
            ask_id: s(),
            question: s(),
            options: None,
        }),
        FrontendEvent::Status(AgentStatusPayload { conversation_id: s(), message: s() }),
        FrontendEvent::RateLimit(AgentRateLimitPayload {
            conversation_id: s(),
            retry_after_ms: 1,
            message: s(),
        }),
        FrontendEvent::StreamThinking(AgentThinkingPayload {
            conversation_id: s(),
            assistant_message_id: s(),
            thinking: s(),
        }),
        FrontendEvent::StreamText(AgentTextPayload {
            conversation_id: s(),
            assistant_message_id: s(),
            text: s(),
        }),
        FrontendEvent::MessageId(AgentMessageIdPayload {
            conversation_id: s(),
            assistant_message_id: s(),
        }),
        FrontendEvent::TitleUpdated(TitleUpdatedPayload { conversation_id: s(), title: s() }),
        FrontendEvent::TitleGenerating(TitleGeneratingPayload {
            conversation_id: s(),
            generating: true,
            error: None,
        }),
    ];
    let channels: Vec<&str> = events.iter().map(|event| event.channel()).collect();
    assert_eq!(
        channels,
        vec![
            "agent-done",
            "agent-error",
            "agent-tool-start",
            "agent-tool-use",
            "agent-tool-result",
            "agent-permission-request",
            "agent-ask-user",
            "agent-status",
            "agent-rate-limit",
            "agent-stream-thinking",
            "agent-stream-text",
            "agent-message-id",
            "conversation-title-updated",
            "conversation-title-generating",
        ]
    );
}
