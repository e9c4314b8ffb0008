//! The stored agent session of a conversation.
use vstd::prelude::*;

use crate::payload::UsdCost;
use crate::text::opt_view;

verus! {

/// The agent session of a conversation.
#[derive(Debug)]
pub struct AgentSession {
    pub id: String,
    pub conversation_id: String,
    pub cwd: Option<String>,
    pub permission_mode: String,
    pub runtime_status: String,
    pub sdk_context_json: Option<String>,
    pub sdk_context_backup_json: Option<String>,
    pub total_tokens: i32,
    pub total_cost_usd: UsdCost,
    pub created_at: String,
    pub updated_at: String,
}

/// A session, its texts as sequences of characters.
pub struct SessionView {
    pub id: Seq<char>,
    pub conversation_id: Seq<char>,
    pub cwd: Option<Seq<char>>,
    pub permission_mode: Seq<char>,
    pub runtime_status: Seq<char>,
    pub sdk_context_json: Option<Seq<char>>,
    pub sdk_context_backup_json: Option<Seq<char>>,
    pub total_tokens: i32,
    pub total_cost_usd: UsdCost,
    pub created_at: Seq<char>,
    pub updated_at: Seq<char>,
}

impl View for AgentSession {
    type V = SessionView;

    open spec fn view(&self) -> SessionView {
        SessionView {
            id: self.id@,
            conversation_id: self.conversation_id@,
            cwd: opt_view(self.cwd),
            permission_mode: self.permission_mode@,
            runtime_status: self.runtime_status@,
            sdk_context_json: opt_view(self.sdk_context_json),
            sdk_context_backup_json: opt_view(self.sdk_context_backup_json),
            total_tokens: self.total_tokens,
            total_cost_usd: self.total_cost_usd,
            created_at: self.created_at@,
            updated_at: self.updated_at@,
        }
    }
}

} // verus!
