//! Provider types, the adapters that serve them, and the registry of adapters by name.
use vstd::hash_map::StringHashMap;
use vstd::prelude::*;

verus! {

/// The kind of a configured model provider.
#[derive(Clone, Copy, Debug, PartialEq, Eq, Structural)]
pub enum ProviderType {
    OpenAI,
    OpenAIResponses,
    Anthropic,
    Gemini,
    Jina,
    Cohere,
    Voyage,
    Custom,
}

/// The adapter that speaks a provider's protocol.
#[derive(Clone, Copy, Debug, PartialEq, Eq, Structural)]
pub enum AdapterKind {
    OpenAI,
    OpenAIResponses,
    Anthropic,
    Gemini,
    Jina,
    Cohere,
    Voyage,
}

/// The name under which the adapter of a provider type is registered.
pub open spec fn registry_key(provider_type: ProviderType) -> Seq<char> {
    match provider_type {
        ProviderType::OpenAI => "openai"@,
        ProviderType::OpenAIResponses => "openai_responses"@,
        ProviderType::Anthropic => "anthropic"@,
        ProviderType::Gemini => "gemini"@,
        ProviderType::Jina => "jina"@,
        ProviderType::Cohere => "cohere"@,
        ProviderType::Voyage => "voyage"@,
        ProviderType::Custom => "openai"@,
    }
}

/// The name under which the adapter of a provider type is registered.
pub fn provider_type_to_registry_key(pt: &ProviderType) -> (key: &'static str)
    ensures
        key@ == registry_key(*pt),
{
    match pt {
        ProviderType::OpenAI => "openai",
        ProviderType::OpenAIResponses => "openai_responses",
        ProviderType::Anthropic => "anthropic",
        ProviderType::Gemini => "gemini",
        ProviderType::Jina => "jina",
        ProviderType::Cohere => "cohere",
        ProviderType::Voyage => "voyage",
        ProviderType::Custom => "openai",
    }
}

/// Whether a provider type only reranks and cannot lead a chat.
pub open spec fn rerank_only(provider_type: ProviderType) -> bool {
    provider_type is Jina || provider_type is Cohere || provider_type is Voyage
}

/// The adapter that leads an agent chat with a provider that can.
pub open spec fn chat_adapter(provider_type: ProviderType) -> AdapterKind {
    match provider_type {
        ProviderType::Anthropic => AdapterKind::Anthropic,
        ProviderType::Gemini => AdapterKind::Gemini,
        ProviderType::OpenAIResponses => AdapterKind::OpenAIResponses,
        _ => AdapterKind::OpenAI,
    }
}

/// Picks the adapter that leads an agent chat with a provider.
pub fn create_adapter(pt: &ProviderType) -> (adapter: Result<AdapterKind, String>)
    ensures
        adapter is Ok <==> !rerank_only(*pt),
        adapter matches Ok(kind) ==> kind == chat_adapter(*pt),
        adapter matches Err(message) ==> message@
            == "Rerank-only providers cannot be used as agent chat providers"@,
{
    match pt {
        ProviderType::OpenAI | ProviderType::Custom => Ok(AdapterKind::OpenAI),
        ProviderType::Anthropic => Ok(AdapterKind::Anthropic),
        ProviderType::Gemini => Ok(AdapterKind::Gemini),
        ProviderType::OpenAIResponses => Ok(AdapterKind::OpenAIResponses),
        ProviderType::Jina | ProviderType::Cohere | ProviderType::Voyage => Err(
            "Rerank-only providers cannot be used as agent chat providers".to_owned(),
        ),
    }
}

/// Adapters by name.
#[verifier::reject_recursive_types(A)]
pub struct ProviderRegistry<A> {
    adapters: StringHashMap<A>,
}

impl<A> View for ProviderRegistry<A> {
    type V = Map<Seq<char>, A>;

    closed spec fn view(&self) -> Map<Seq<char>, A> {
        self.adapters@
    }
}

impl<A> ProviderRegistry<A> {
    /// An empty registry.
    pub fn new() -> (registry: ProviderRegistry<A>)
        ensures
            registry@ == Map::<Seq<char>, A>::empty(),
    {
        ProviderRegistry { adapters: StringHashMap::new() }
    }

    /// Registers an adapter under a name, in place of an earlier one of that name.
    pub fn register(&mut self, provider_type: &str, adapter: A)
        ensures
            final(self)@ == old(self)@.insert(provider_type@, adapter),
    {
        self.adapters.insert(provider_type.to_owned(), adapter);
    }

    /// Looks an adapter up by name.
    pub fn get(&self, provider_type: &str) -> (adapter: Option<&A>)
        ensures
            adapter == (if self@.contains_key(provider_type@) {
                Some(&self@[provider_type@])
            } else {
                None
            }),
    {
        self.adapters.get(provider_type)
    }
}

/// The adapters that are registered from the start.
pub open spec fn default_adapters() -> Map<Seq<char>, AdapterKind> {
    Map::<Seq<char>, AdapterKind>::empty().insert("openai"@, AdapterKind::OpenAI).insert(
        "openai_responses"@,
        AdapterKind::OpenAIResponses,
    ).insert("anthropic"@, AdapterKind::Anthropic).insert("gemini"@, AdapterKind::Gemini).insert(
        "jina"@,
        AdapterKind::Jina,
    ).insert("cohere"@, AdapterKind::Cohere).insert("voyage"@, AdapterKind::Voyage)
}

impl ProviderRegistry<AdapterKind> {
    /// A registry with every adapter under its name.
    pub fn create_default() -> (registry: ProviderRegistry<AdapterKind>)
        ensures
            registry@ == default_adapters(),
    {
        let mut registry: ProviderRegistry<AdapterKind> = ProviderRegistry::new();
        registry.register("openai", AdapterKind::OpenAI);
        registry.register("openai_responses", AdapterKind::OpenAIResponses);
        registry.register("anthropic", AdapterKind::Anthropic);
        registry.register("gemini", AdapterKind::Gemini);
        registry.register("jina", AdapterKind::Jina);
        registry.register("cohere", AdapterKind::Cohere);
        registry.register("voyage", AdapterKind::Voyage);
        registry
    }
}

impl<A> Default for ProviderRegistry<A> {
    /// An empty registry.
    fn default() -> (registry: ProviderRegistry<A>)
        ensures
            registry@ == Map::<Seq<char>, A>::empty(),
    {
        ProviderRegistry::new()
    }
}

/// The default names are pairwise different.
proof fn default_names_differ()
    ensures
        "openai"@.len() == 6,
        "openai_responses"@.len() == 16,
        "anthropic"@.len() == 9,
        "gemini"@.len() == 6,
        "jina"@.len() == 4,
        "cohere"@.len() == 6,
        "voyage"@.len() == 6,
        "openai"@[0] == 'o',
        "gemini"@[0] == 'g',
        "cohere"@[0] == 'c',
        "voyage"@[0] == 'v',
{
    reveal_strlit("openai");
    reveal_strlit("openai_responses");
    reveal_strlit("anthropic");
    reveal_strlit("gemini");
    reveal_strlit("jina");
    reveal_strlit("cohere");
    reveal_strlit("voyage");
}

/// Every provider type finds an adapter in the default registry, and one that can lead a
/// chat finds the adapter that leads it.
pub proof fn default_registry_serves_every_type(provider_type: ProviderType)
    ensures
        default_adapters().contains_key(registry_key(provider_type)),
        !rerank_only(provider_type) ==> default_adapters()[registry_key(provider_type)]
            == chat_adapter(provider_type),
{
    default_names_differ();
}

/// The default registry holds one adapter of each kind and nothing else.
pub proof fn default_registry_has_each_adapter_once(kind: AdapterKind)
    ensures
        exists|name: Seq<char>| #[trigger]
            default_adapters().contains_key(name) && default_adapters()[name] == kind,
        forall|a: Seq<char>, b: Seq<char>| #[trigger]
            default_adapters().contains_key(a) && #[trigger] default_adapters().contains_key(b)
                && default_adapters()[a] == default_adapters()[b] ==> a == b,
{
    default_names_differ();
    let name = match kind {
        AdapterKind::OpenAI => "openai"@,
        AdapterKind::OpenAIResponses => "openai_responses"@,
        AdapterKind::Anthropic => "anthropic"@,
        AdapterKind::Gemini => "gemini"@,
        AdapterKind::Jina => "jina"@,
        AdapterKind::Cohere => "cohere"@,
        AdapterKind::Voyage => "voyage"@,
    };
    assert(default_adapters().contains_key(name) && default_adapters()[name] == kind);
}

/// A registered adapter is found under its name, and the others stay as they were.
pub proof fn registered_adapter_is_found<A>(
    before: Map<Seq<char>, A>,
    name: Seq<char>,
    adapter: A,
    other: Seq<char>,
)
    ensures
        before.insert(name, adapter).contains_key(name),
        before.insert(name, adapter)[name] == adapter,
        other != name ==> before.insert(name, adapter).contains_key(other) == before.contains_key(
            other,
        ),
        other != name && before.contains_key(other) ==> before.insert(name, adapter)[other]
            == before[other],
{
}

/// Each adapter is registered under the name of its own protocol, and the protocol of a custom
/// provider is that of OpenAI.
pub proof fn adapters_have_the_names_of_their_protocols(provider_type: ProviderType)
    ensures
        ({
            let found = default_adapters()[registry_key(provider_type)];
            match provider_type {
                ProviderType::OpenAI => found is OpenAI && registry_key(provider_type) == "openai"@,
                ProviderType::OpenAIResponses => found is OpenAIResponses && registry_key(
                    provider_type,
                ) == "openai_responses"@,
                ProviderType::Anthropic => found is Anthropic && registry_key(provider_type)
                    == "anthropic"@,
                ProviderType::Gemini => found is Gemini && registry_key(provider_type)
                    == "gemini"@,
                ProviderType::Jina => found is Jina && registry_key(provider_type) == "jina"@,
                ProviderType::Cohere => found is Cohere && registry_key(provider_type)
                    == "cohere"@,
                ProviderType::Voyage => found is Voyage && registry_key(provider_type)
                    == "voyage"@,
                ProviderType::Custom => found is OpenAI && registry_key(provider_type)
                    == "openai"@,
            }
        }),
{
    default_names_differ();
}

/// A provider leads a chat with the adapter of its own protocol, and leads none if and only if
/// all it does is rerank.
pub proof fn a_chat_is_led_in_the_protocol_of_its_provider(provider_type: ProviderType)
    ensures
        rerank_only(provider_type) <==> provider_type is Jina || provider_type is Cohere
            || provider_type is Voyage,
        chat_adapter(provider_type) is Anthropic <==> provider_type is Anthropic,
        chat_adapter(provider_type) is Gemini <==> provider_type is Gemini,
        chat_adapter(provider_type) is OpenAIResponses <==> provider_type is OpenAIResponses,
        !rerank_only(provider_type) ==> (chat_adapter(provider_type) is OpenAI <==> (provider_type
            is OpenAI || provider_type is Custom)),
{
}

} // verus!
