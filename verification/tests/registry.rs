use aqbot_agent_runtime::registry::{
    create_adapter, provider_type_to_registry_key, AdapterKind, ProviderRegistry, ProviderType,
};

#[test]
fn default_registry_knows_its_adapters() {
    let registry = ProviderRegistry::create_default();
    assert_eq!(registry.get("openai"), Some(&AdapterKind::OpenAI));
    assert_eq!(registry.get("openai_responses"), Some(&AdapterKind::OpenAIResponses));
    assert_eq!(registry.get("anthropic"), Some(&AdapterKind::Anthropic));
    assert_eq!(registry.get("gemini"), Some(&AdapterKind::Gemini));
    assert_eq!(registry.get("missing"), None);
}

#[test]
fn every_provider_type_is_served_by_the_default_registry() {
    let registry = ProviderRegistry::create_default();
    for provider_type in [
        ProviderType::OpenAI,
        ProviderType::OpenAIResponses,
        ProviderType::Anthropic,
        ProviderType::Gemini,
        ProviderType::Jina,
        ProviderType::Cohere,
        ProviderType::Voyage,
        ProviderType::Custom,
    ] {
        assert!(registry.get(provider_type_to_registry_key(&provider_type)).is_some());
    }
}

#[test]
fn provider_types_have_registry_keys() {
    assert_eq!(provider_type_to_registry_key(&ProviderType::OpenAI), "openai");
    assert_eq!(
        provider_type_to_registry_key(&ProviderType::OpenAIResponses),
        "openai_responses"
    );
    assert_eq!(provider_type_to_registry_key(&ProviderType::Anthropic), "anthropic");
    assert_eq!(provider_type_to_registry_key(&ProviderType::Gemini), "gemini");
    assert_eq!(provider_type_to_registry_key(&ProviderType::Jina), "jina");
    assert_eq!(provider_type_to_registry_key(&ProviderType::Cohere), "cohere");
    assert_eq!(provider_type_to_registry_key(&ProviderType::Voyage), "voyage");
    assert_eq!(provider_type_to_registry_key(&ProviderType::Custom), "openai");
}

#[test]
fn rerank_only_providers_cannot_chat() {
    let refusal = "Rerank-only providers cannot be used as agent chat providers".to_string();
    assert_eq!(create_adapter(&ProviderType::Jina), Err(refusal.clone()));
    assert_eq!(create_adapter(&ProviderType::Cohere), Err(refusal.clone()));
    assert_eq!(create_adapter(&ProviderType::Voyage), Err(refusal));
    assert_eq!(create_adapter(&ProviderType::Custom), Ok(AdapterKind::OpenAI));
    assert_eq!(create_adapter(&ProviderType::OpenAI), Ok(AdapterKind::OpenAI));
    assert_eq!(create_adapter(&ProviderType::Gemini), Ok(AdapterKind::Gemini));
    assert_eq!(create_adapter(&ProviderType::Anthropic), Ok(AdapterKind::Anthropic));
    assert_eq!(
        create_adapter(&ProviderType::OpenAIResponses),
        Ok(AdapterKind::OpenAIResponses)
    );
}

#[test]
fn a_registered_adapter_replaces_an_earlier_one() {
    let mut registry: ProviderRegistry<u8> = ProviderRegistry::default();
    assert_eq!(registry.get("a"), None);
    registry.register("a", 1);
    registry.register("b", 2);
    registry.register("a", 3);
    assert_eq!(registry.get("a"), Some(&3));
    assert_eq!(registry.get("b"), Some(&2));
    let empty: ProviderRegistry<u8> = ProviderRegistry::new();
    assert_eq!(empty.get("a"), None);
}
