use aqbot_agent_runtime::admission::{
    effective_cwd, fallback_title, skills_summary, Admission, AdmissionAction, AdmissionInput,
    TurnKind, UserMessage,
};
use aqbot_agent_runtime::payload::{FrontendEvent, UsdCost};
use aqbot_agent_runtime::registry::{AdapterKind, ProviderType};
use aqbot_agent_runtime::session::AgentSession;

fn text(s: &str) -> String {
    s.to_string()
}

fn session() -> AgentSession {
    AgentSession {
        id: text("s1"),
        conversation_id: text("conv"),
        cwd: Some(text("/work")),
        permission_mode: text("default"),
        runtime_status: text("idle"),
        sdk_context_json: None,
        sdk_context_backup_json: None,
        total_tokens: 0,
        total_cost_usd: UsdCost { bits: 0 },
        created_at: text("then"),
        updated_at: text("now"),
    }
}

fn saved() -> AdmissionInput {
    AdmissionInput::PromptSaved(Ok(UserMessage { id: text("u1"), created_at: 5 }))
}

fn refusal(actions: &Vec<AdmissionAction>) -> String {
    match actions.last() {
        Some(AdmissionAction::Refuse(error)) => error.clone(),
        _ => panic!("not refused"),
    }
}

fn up_to_conversation(kind: TurnKind, prompt: &str) -> Admission {
    let (mut admission, first) = Admission::new(kind, text("conv"), text(prompt));
    assert!(matches!(first, AdmissionAction::LoadSession));
    let actions = admission.step(AdmissionInput::SessionLoaded(Ok(Some(session()))));
    assert!(matches!(&actions[0], AdmissionAction::CheckRunning));
    let actions = admission.step(AdmissionInput::RunningChecked(false));
    assert!(matches!(
        &actions[0],
        AdmissionAction::MarkRunning { session_id } if session_id == "s1"
    ));
    let actions = admission.step(AdmissionInput::RunningMarked(None));
    assert!(matches!(
        &actions[0],
        AdmissionAction::SavePrompt { prompt: p } if p == prompt
    ));
    let actions = admission.step(saved());
    assert!(matches!(&actions[0], AdmissionAction::LoadConversation));
    admission
}

#[test]
fn a_blank_prompt_is_refused_for_command_line_agents_only() {
    let (_, action) = Admission::new(TurnKind::CommandLine, text("conv"), text(" \n"));
    assert!(matches!(action, AdmissionAction::Refuse(e) if e == "Prompt is empty"));
    let (_, action) = Admission::new(TurnKind::BuiltIn, text("conv"), text(" \n"));
    assert!(matches!(action, AdmissionAction::LoadSession));
}

#[test]
fn a_prompt_needs_a_session_that_is_free() {
    let (mut admission, _) = Admission::new(TurnKind::BuiltIn, text("conv"), text("hi"));
    let actions = admission.step(AdmissionInput::SessionLoaded(Ok(None)));
    assert_eq!(
        refusal(&actions),
        "Agent session not found. Please switch to Agent mode first."
    );
    assert_eq!(admission.step(AdmissionInput::RunningChecked(false)).len(), 0);
    let (mut admission, _) = Admission::new(TurnKind::BuiltIn, text("conv"), text("hi"));
    let actions = admission.step(AdmissionInput::SessionLoaded(Err(text("db down"))));
    assert_eq!(refusal(&actions), "db down");
    let (mut admission, _) = Admission::new(TurnKind::CommandLine, text("conv"), text("hi"));
    admission.step(AdmissionInput::SessionLoaded(Ok(Some(session()))));
    let actions = admission.step(AdmissionInput::RunningChecked(true));
    assert_eq!(refusal(&actions), "Agent is already running");
}

#[test]
fn a_first_prompt_becomes_the_title() {
    let mut admission = up_to_conversation(TurnKind::CommandLine, "hello");
    let actions = admission.step(AdmissionInput::ConversationLoaded(Ok(1)));
    assert!(matches!(&actions[0], AdmissionAction::CountMessage));
    let actions = admission.step(AdmissionInput::MessageCounted(None));
    assert!(matches!(&actions[0], AdmissionAction::SaveTitle { title } if title == "hello"));
    let actions = admission.step(AdmissionInput::TitleSaved(None));
    assert_eq!(actions.len(), 2);
    assert!(matches!(
        &actions[0],
        AdmissionAction::Emit(FrontendEvent::TitleUpdated(p))
            if p.title == "hello" && p.conversation_id == "conv"
    ));
    assert!(matches!(&actions[1], AdmissionAction::Start));
    assert!(admission.first_message());
    assert_eq!(admission.user_message().map(|m| m.created_at), Some(5));
    assert_eq!(admission.session().map(|s| s.id.clone()), Some(text("s1")));
}

#[test]
fn a_title_that_cannot_be_saved_stops_nothing() {
    let mut admission = up_to_conversation(TurnKind::CommandLine, "hello");
    admission.step(AdmissionInput::ConversationLoaded(Ok(0)));
    admission.step(AdmissionInput::MessageCounted(None));
    let actions = admission.step(AdmissionInput::TitleSaved(Some(text("no"))));
    assert_eq!(actions.len(), 1);
    assert!(matches!(&actions[0], AdmissionAction::Start));
}

#[test]
fn a_later_prompt_leaves_the_title() {
    let mut admission = up_to_conversation(TurnKind::CommandLine, "hello");
    admission.step(AdmissionInput::ConversationLoaded(Ok(2)));
    let actions = admission.step(AdmissionInput::MessageCounted(None));
    assert_eq!(actions.len(), 1);
    assert!(matches!(&actions[0], AdmissionAction::Start));
    assert!(!admission.first_message());
    assert_eq!(admission.step(AdmissionInput::MessageCounted(None)).len(), 0);
}

fn up_to_provider() -> Admission {
    let mut admission = up_to_conversation(TurnKind::BuiltIn, "hello");
    admission.step(AdmissionInput::ConversationLoaded(Ok(7)));
    let actions = admission.step(AdmissionInput::MessageCounted(None));
    assert!(matches!(&actions[0], AdmissionAction::LoadProvider));
    admission
}

#[test]
fn the_built_in_agent_needs_provider_key_bridge_and_agent() {
    let mut admission = up_to_provider();
    let actions = admission.step(AdmissionInput::ProviderLoaded(Ok(ProviderType::Custom)));
    assert!(matches!(&actions[0], AdmissionAction::LoadKey));
    let actions = admission.step(AdmissionInput::KeyLoaded(None));
    assert!(matches!(&actions[0], AdmissionAction::DecryptKey));
    let actions = admission.step(AdmissionInput::KeyDecrypted(None));
    assert!(matches!(
        &actions[0],
        AdmissionAction::BuildBridge { adapter: AdapterKind::OpenAI, provider: "openai" }
    ));
    let actions = admission.step(AdmissionInput::BridgeBuilt(None));
    assert!(matches!(&actions[0], AdmissionAction::ReloadConversation));
    let actions = admission.step(AdmissionInput::ConversationReloaded(None));
    assert!(matches!(&actions[0], AdmissionAction::BuildAgent));
    let actions = admission.step(AdmissionInput::AgentBuilt(None));
    assert!(matches!(&actions[0], AdmissionAction::Start));
}

#[test]
fn a_rerank_only_provider_is_refused() {
    let mut admission = up_to_provider();
    admission.step(AdmissionInput::ProviderLoaded(Ok(ProviderType::Cohere)));
    admission.step(AdmissionInput::KeyLoaded(None));
    let actions = admission.step(AdmissionInput::KeyDecrypted(None));
    assert_eq!(
        refusal(&actions),
        "Rerank-only providers cannot be used as agent chat providers"
    );
}

#[test]
fn each_failed_step_refuses_the_prompt_with_its_error() {
    let mut admission = up_to_provider();
    assert_eq!(
        refusal(&admission.step(AdmissionInput::ProviderLoaded(Err(text("p"))))),
        "p"
    );
    let mut admission = up_to_provider();
    admission.step(AdmissionInput::ProviderLoaded(Ok(ProviderType::Gemini)));
    assert_eq!(refusal(&admission.step(AdmissionInput::KeyLoaded(Some(text("k"))))), "k");
    let mut admission = up_to_provider();
    admission.step(AdmissionInput::ProviderLoaded(Ok(ProviderType::Gemini)));
    admission.step(AdmissionInput::KeyLoaded(None));
    assert_eq!(refusal(&admission.step(AdmissionInput::KeyDecrypted(Some(text("d"))))), "d");
    let mut admission = up_to_provider();
    admission.step(AdmissionInput::ProviderLoaded(Ok(ProviderType::Gemini)));
    admission.step(AdmissionInput::KeyLoaded(None));
    admission.step(AdmissionInput::KeyDecrypted(None));
    assert_eq!(refusal(&admission.step(AdmissionInput::BridgeBuilt(Some(text("b"))))), "b");
    let mut admission = up_to_conversation(TurnKind::BuiltIn, "x");
    assert_eq!(
        refusal(&admission.step(AdmissionInput::ConversationLoaded(Err(text("c"))))),
        "c"
    );
    let mut admission = up_to_conversation(TurnKind::BuiltIn, "x");
    admission.step(AdmissionInput::ConversationLoaded(Ok(3)));
    assert_eq!(refusal(&admission.step(AdmissionInput::MessageCounted(Some(text("m"))))), "m");
}

#[test]
fn long_prompts_make_short_titles() {
    assert_eq!(fallback_title(&"é".repeat(30)), "é".repeat(30));
    assert_eq!(fallback_title(&"é".repeat(31)), format!("{}...", "é".repeat(30)));
}

#[test]
fn the_requested_directory_wins_over_the_session() {
    assert_eq!(effective_cwd(Some(text("/a")), Some(text("/b"))), Some(text("/a")));
    assert_eq!(effective_cwd(None, Some(text("/b"))), Some(text("/b")));
    assert_eq!(effective_cwd(Some(text("  ")), Some(text("/b"))), None);
    assert_eq!(effective_cwd(None, None), None);
}

#[test]
fn an_agent_without_skills_is_told_of_none() {
    assert_eq!(skills_summary(text("")), None);
    assert_eq!(skills_summary(text(" ")), Some(text(" ")));
    assert_eq!(skills_summary(text("- search")), Some(text("- search")));
}
