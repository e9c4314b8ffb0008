//! What becomes of every prompt: for which reasons it is refused, and which steps it has taken
//! once an agent starts on it.
use vstd::prelude::*;

use crate::admission::{
    admission_start, admission_step, AdmissionActionView, AdmissionInputView, AdmissionPhase,
    AdmissionView, TurnKind, UserMessageView,
};
use crate::admission_laws::{a_prompt_only_goes_forward, admission_run};
use crate::payload::EventView;
use crate::registry::{chat_adapter, registry_key, ProviderType};
use crate::session::SessionView;
use crate::text::trimmed;

verus! {

/// Whether a provider does nothing but rerank.
pub open spec fn only_reranks(provider: ProviderType) -> bool {
    provider is Jina || provider is Cohere || provider is Voyage
}

/// Whether an answer, given to an action, is a reason to refuse a prompt with some words. The
/// provider is the one that was loaded for the prompt.
pub open spec fn is_reason_to_refuse(
    asked: AdmissionActionView,
    answer: AdmissionInputView,
    provider: Option<ProviderType>,
    words: Seq<char>,
) -> bool {
    match (asked, answer) {
        (AdmissionActionView::LoadSession, AdmissionInputView::SessionLoaded(Err(error))) => words
            == error,
        (AdmissionActionView::LoadSession, AdmissionInputView::SessionLoaded(Ok(None))) => words
            == "Agent session not found. Please switch to Agent mode first."@,
        (AdmissionActionView::CheckRunning, AdmissionInputView::RunningChecked(true)) => words
            == "Agent is already running"@,
        (
            AdmissionActionView::MarkRunning { .. },
            AdmissionInputView::RunningMarked(Some(error)),
        ) => words == error,
        (AdmissionActionView::SavePrompt { .. }, AdmissionInputView::PromptSaved(Err(error))) =>
            words == error,
        (
            AdmissionActionView::LoadConversation,
            AdmissionInputView::ConversationLoaded(Err(error)),
        ) => words == error,
        (AdmissionActionView::CountMessage, AdmissionInputView::MessageCounted(Some(error))) =>
            words == error,
        (AdmissionActionView::LoadProvider, AdmissionInputView::ProviderLoaded(Err(error))) => words
            == error,
        (AdmissionActionView::LoadKey, AdmissionInputView::KeyLoaded(Some(error))) => words
            == error,
        (AdmissionActionView::DecryptKey, AdmissionInputView::KeyDecrypted(Some(error))) => words
            == error,
        (AdmissionActionView::DecryptKey, AdmissionInputView::KeyDecrypted(None)) => {
            &&& provider is Some && only_reranks(provider->0)
            &&& words == "Rerank-only providers cannot be used as agent chat providers"@
        },
        (
            AdmissionActionView::BuildBridge { .. },
            AdmissionInputView::BridgeBuilt(Some(error)),
        ) => words == error,
        (
            AdmissionActionView::ReloadConversation,
            AdmissionInputView::ConversationReloaded(Some(error)),
        ) => words == error,
        (AdmissionActionView::BuildAgent, AdmissionInputView::AgentBuilt(Some(error))) => words
            == error,
        _ => false,
    }
}

/// What a prompt waits for is what it has asked for last.
spec fn asks_for_its_phase(s: AdmissionView, last: AdmissionActionView) -> bool {
    match s.phase {
        AdmissionPhase::LoadingSession => last is LoadSession,
        AdmissionPhase::CheckingRunning => last is CheckRunning,
        AdmissionPhase::MarkingRunning => last is MarkRunning,
        AdmissionPhase::SavingPrompt => last is SavePrompt,
        AdmissionPhase::LoadingConversation => last is LoadConversation,
        AdmissionPhase::CountingMessage => last is CountMessage,
        AdmissionPhase::SavingTitle => last is SaveTitle,
        AdmissionPhase::LoadingProvider => last is LoadProvider,
        AdmissionPhase::LoadingKey => last is LoadKey && s.provider is Some,
        AdmissionPhase::DecryptingKey => last is DecryptKey && s.provider is Some,
        AdmissionPhase::BuildingBridge => last is BuildBridge,
        AdmissionPhase::ReloadingConversation => last is ReloadConversation,
        AdmissionPhase::BuildingAgent => last is BuildAgent,
        AdmissionPhase::Admitted => last is Start,
        AdmissionPhase::Refused => last is Refuse,
    }
}

proof fn one_step_of_a_refusal(
    s: AdmissionView,
    last: AdmissionActionView,
    input: AdmissionInputView,
    words: Seq<char>,
)
    requires
        asks_for_its_phase(s, last),
    ensures
        ({
            let (next, more) = admission_step(s, input);
            let now = if more.len() > 0 {
                more.last()
            } else {
                last
            };
            &&& asks_for_its_phase(next, now)
            &&& more.len() > 0 && now == AdmissionActionView::Refuse(words)
                <==> is_reason_to_refuse(last, input, s.provider, words)
        }),
{
}

proof fn run_asks(
    kind: TurnKind,
    conversation_id: Seq<char>,
    prompt: Seq<char>,
    inputs: Seq<AdmissionInputView>,
)
    ensures
        ({
            let (s, actions) = admission_run(kind, conversation_id, prompt, inputs);
            actions.len() > 0 && asks_for_its_phase(s, actions.last())
        }),
    decreases inputs.len(),
{
    if inputs.len() > 0 {
        let before = inputs.drop_last();
        run_asks(kind, conversation_id, prompt, before);
        let (s, actions) = admission_run(kind, conversation_id, prompt, before);
        one_step_of_a_refusal(s, actions.last(), inputs.last(), Seq::empty());
        let more = admission_step(s, inputs.last()).1;
        assert((actions + more).last() == if more.len() > 0 {
            more.last()
        } else {
            actions.last()
        });
    }
}

/// A prompt is refused if and only if an answer to its last action is a reason for it, at once
/// and in the words of that reason. Each step that fails is such a reason, but for the storing
/// of a title.
pub proof fn a_prompt_is_refused_for_a_reason(
    kind: TurnKind,
    conversation_id: Seq<char>,
    prompt: Seq<char>,
    inputs: Seq<AdmissionInputView>,
    answer: AdmissionInputView,
    words: Seq<char>,
)
    ensures
        ({
            let (s, before) = admission_run(kind, conversation_id, prompt, inputs);
            let after = admission_run(kind, conversation_id, prompt, inputs.push(answer)).1;
            after == before.push(AdmissionActionView::Refuse(words)) <==> is_reason_to_refuse(
                before.last(),
                answer,
                s.provider,
                words,
            )
        }),
{
    run_asks(kind, conversation_id, prompt, inputs);
    let (s, before) = admission_run(kind, conversation_id, prompt, inputs);
    one_step_of_a_refusal(s, before.last(), answer, words);
    assert(inputs.push(answer).drop_last() =~= inputs);
    let more = admission_step(s, answer).1;
    if more.len() > 0 && more.last() == AdmissionActionView::Refuse(words) {
        refusal_is_one_action(s, answer);
        assert(before + more =~= before.push(AdmissionActionView::Refuse(words)));
    }
    let after = before + more;
    if after == before.push(AdmissionActionView::Refuse(words)) {
        assert(after.len() == before.len() + 1);
        assert(more[0] == after[before.len() as int]);
    }
}

proof fn refusal_is_one_action(s: AdmissionView, input: AdmissionInputView)
    ensures
        ({
            let more = admission_step(s, input).1;
            more.len() > 0 && more.last() is Refuse ==> more.len() == 1
        }),
{
}

/// A blank prompt for a command-line agent is refused before anything else is done, and every
/// other prompt begins with its session.
pub proof fn a_prompt_begins_with_its_session(
    kind: TurnKind,
    conversation_id: Seq<char>,
    prompt: Seq<char>,
)
    ensures
        ({
            let (s, actions) = admission_start(kind, conversation_id, prompt);
            &&& s.kind == kind && s.conversation_id == conversation_id && s.prompt == prompt
            &&& if kind is CommandLine && trimmed(prompt).len() == 0 {
                actions == seq![AdmissionActionView::Refuse("Prompt is empty"@)]
            } else {
                actions == seq![AdmissionActionView::LoadSession]
            }
        }),
{
}

// ---------------------------------------------------------------------------------------
// The steps to a start
// ---------------------------------------------------------------------------------------

/// Whether an action of a prompt got an answer.
#[verifier::opaque]
pub open spec fn got(
    kind: TurnKind,
    conversation_id: Seq<char>,
    prompt: Seq<char>,
    inputs: Seq<AdmissionInputView>,
    asked: AdmissionActionView,
    answer: AdmissionInputView,
) -> bool {
    exists|k: int|
        0 <= k < inputs.len() && admission_run(
            kind,
            conversation_id,
            prompt,
            inputs.take(k),
        ).1.last() == asked && #[trigger] inputs[k] == answer
}

proof fn got_with_one_more(
    kind: TurnKind,
    conversation_id: Seq<char>,
    prompt: Seq<char>,
    inputs: Seq<AdmissionInputView>,
    input: AdmissionInputView,
)
    ensures
        forall|asked: AdmissionActionView, answer: AdmissionInputView|
            got(kind, conversation_id, prompt, inputs, asked, answer) ==> #[trigger] got(
                kind,
                conversation_id,
                prompt,
                inputs.push(input),
                asked,
                answer,
            ),
        got(
            kind,
            conversation_id,
            prompt,
            inputs.push(input),
            admission_run(kind, conversation_id, prompt, inputs).1.last(),
            input,
        ),
{
    reveal(got);
    let longer = inputs.push(input);
    assert forall|asked: AdmissionActionView, answer: AdmissionInputView|
        got(kind, conversation_id, prompt, inputs, asked, answer) implies #[trigger] got(
        kind,
        conversation_id,
        prompt,
        longer,
        asked,
        answer,
    ) by {
        let k = choose|k: int|
            0 <= k < inputs.len() && admission_run(
                kind,
                conversation_id,
                prompt,
                inputs.take(k),
            ).1.last() == asked && #[trigger] inputs[k] == answer;
        assert(longer.take(k) =~= inputs.take(k));
        assert(longer[k] == answer);
    }
    assert(longer.take(inputs.len() as int) =~= inputs);
    assert(longer[inputs.len() as int] == input);
}

/// The title that a first prompt gives its conversation.
pub open spec fn short_title(prompt: Seq<char>) -> Seq<char> {
    if prompt.len() > 30 {
        prompt.take(30) + "..."@
    } else {
        prompt
    }
}

/// The actions that put a prompt into its conversation.
pub open spec fn storing_steps(session_id: Seq<char>, prompt: Seq<char>) -> Seq<
    AdmissionActionView,
> {
    seq![
        AdmissionActionView::LoadSession,
        AdmissionActionView::CheckRunning,
        AdmissionActionView::MarkRunning { session_id },
        AdmissionActionView::SavePrompt { prompt },
        AdmissionActionView::LoadConversation,
        AdmissionActionView::CountMessage,
    ]
}

/// The actions that give a conversation its title: none but for its first message, and the
/// title is shown where it could be stored.
pub open spec fn title_steps(
    conversation_id: Seq<char>,
    prompt: Seq<char>,
    first: bool,
    stored: bool,
) -> Seq<AdmissionActionView> {
    let title = short_title(prompt);
    if !first {
        Seq::empty()
    } else if stored {
        seq![
            AdmissionActionView::SaveTitle { title },
            AdmissionActionView::Emit(EventView::TitleUpdated { conversation_id, title }),
        ]
    } else {
        seq![AdmissionActionView::SaveTitle { title }]
    }
}

/// The actions that give the built-in agent its provider.
pub open spec fn provider_steps(provider: ProviderType) -> Seq<AdmissionActionView> {
    seq![
        AdmissionActionView::LoadProvider,
        AdmissionActionView::LoadKey,
        AdmissionActionView::DecryptKey,
        AdmissionActionView::BuildBridge {
            adapter: chat_adapter(provider),
            provider: registry_key(provider),
        },
        AdmissionActionView::ReloadConversation,
        AdmissionActionView::BuildAgent,
    ]
}

/// How many actions of the first list a phase has behind it, the one that it waits for
/// included.
spec fn storing_count(phase: AdmissionPhase) -> int {
    match phase {
        AdmissionPhase::LoadingSession => 1,
        AdmissionPhase::CheckingRunning => 2,
        AdmissionPhase::MarkingRunning => 3,
        AdmissionPhase::SavingPrompt => 4,
        AdmissionPhase::LoadingConversation => 5,
        _ => 6,
    }
}

/// How many actions of the last list a phase has behind it.
spec fn provider_count(phase: AdmissionPhase) -> int {
    match phase {
        AdmissionPhase::LoadingProvider => 1,
        AdmissionPhase::LoadingKey => 2,
        AdmissionPhase::DecryptingKey => 3,
        AdmissionPhase::BuildingBridge => 4,
        AdmissionPhase::ReloadingConversation => 5,
        _ => 6,
    }
}

spec fn past_title(phase: AdmissionPhase) -> bool {
    phase is LoadingProvider || phase is LoadingKey || phase is DecryptingKey || phase
        is BuildingBridge || phase is ReloadingConversation || phase is BuildingAgent || phase
        is Admitted
}

spec fn session_id_of(s: AdmissionView) -> Seq<char> {
    match s.session {
        Some(session) => session.id,
        None => Seq::empty(),
    }
}

/// The actions of a prompt that has come to a phase.
spec fn steps_taken(s: AdmissionView, stored: bool) -> Seq<AdmissionActionView> {
    let storing = storing_steps(session_id_of(s), s.prompt);
    if s.phase is SavingTitle {
        storing.push(AdmissionActionView::SaveTitle { title: short_title(s.prompt) })
    } else if !past_title(s.phase) {
        storing.take(storing_count(s.phase))
    } else {
        let titled = storing + title_steps(
            s.conversation_id,
            s.prompt,
            s.first_message,
            stored,
        );
        let provided = match s.provider {
            Some(provider) => provider_steps(provider).take(provider_count(s.phase)),
            None => seq![AdmissionActionView::LoadProvider],
        };
        if s.phase is Admitted {
            if s.kind is CommandLine {
                titled.push(AdmissionActionView::Start)
            } else {
                (titled + provided).push(AdmissionActionView::Start)
            }
        } else {
            titled + provided
        }
    }
}

/// What a prompt that is not refused has found out so far.
spec fn is_on_its_way(s: AdmissionView) -> bool {
    &&& s.phase is LoadingSession || s.session is Some
    &&& storing_count(s.phase) > 4 ==> s.user_message is Some
    &&& s.phase is SavingTitle ==> s.first_message
    &&& s.kind is CommandLine ==> !past_title(s.phase) || s.phase is Admitted
    &&& s.provider is Some <==> past_title(s.phase) && !(s.phase is LoadingProvider)
        && s.kind is BuiltIn
    &&& (s.phase is BuildingBridge || s.phase is ReloadingConversation || s.phase is BuildingAgent
        || s.phase is Admitted) && s.kind is BuiltIn ==> !only_reranks(s.provider->0)
}

proof fn one_step_on_its_way(s: AdmissionView, input: AdmissionInputView)
    requires
        !(s.phase is Refused),
        is_on_its_way(s),
    ensures
        !(admission_step(s, input).0.phase is Refused) ==> is_on_its_way(
            admission_step(s, input).0,
        ),
{
}

/// One step of a prompt before its title adds the next of its actions.
proof fn one_storing_step(s: AdmissionView, stored: bool, input: AdmissionInputView)
    requires
        is_on_its_way(s),
        !(s.phase is Refused) && !past_title(s.phase) && !(s.phase is SavingTitle) && !(s.phase
            is CountingMessage),
        !(admission_step(s, input).0.phase is Refused),
    ensures
        steps_taken(admission_step(s, input).0, stored) == steps_taken(s, stored)
            + admission_step(s, input).1,
{
    assert(steps_taken(admission_step(s, input).0, stored) =~= steps_taken(s, stored)
        + admission_step(s, input).1);
}

/// One step of a prompt at its title adds the next of its actions.
proof fn one_title_step(s: AdmissionView, stored: bool, told: bool, input: AdmissionInputView)
    requires
        is_on_its_way(s),
        s.phase is SavingTitle || s.phase is CountingMessage,
        s.phase is SavingTitle ==> told == (input == AdmissionInputView::TitleSaved(None)),
        !(admission_step(s, input).0.phase is Refused),
    ensures
        steps_taken(admission_step(s, input).0, told) == steps_taken(s, stored) + admission_step(
            s,
            input,
        ).1,
{
    let (next, more) = admission_step(s, input);
    let storing = storing_steps(session_id_of(s), s.prompt);
    assert(storing.take(6) =~= storing);
    assert(steps_taken(next, told) =~= steps_taken(s, stored) + more);
}

/// One step of a prompt after its title adds the next of its actions.
proof fn one_provider_step(s: AdmissionView, stored: bool, input: AdmissionInputView)
    requires
        is_on_its_way(s),
        past_title(s.phase),
        !(admission_step(s, input).0.phase is Refused),
    ensures
        steps_taken(admission_step(s, input).0, stored) == steps_taken(s, stored)
            + admission_step(s, input).1,
{
    let (next, more) = admission_step(s, input);
    let titled = storing_steps(session_id_of(s), s.prompt) + title_steps(
        s.conversation_id,
        s.prompt,
        s.first_message,
        stored,
    );
    if more.len() == 0 {
        assert(steps_taken(s, stored) + more =~= steps_taken(s, stored));
    } else {
        let had = match s.provider {
            Some(provider) => provider_steps(provider).take(provider_count(s.phase)),
            None => seq![AdmissionActionView::LoadProvider],
        };
        let provider = next.provider->0;
        assert(had =~= provider_steps(provider).take(provider_count(s.phase)));
        if next.phase is Admitted {
            assert((titled + had) + more =~= (titled + had).push(AdmissionActionView::Start));
        } else {
            let has = provider_steps(provider).take(provider_count(next.phase));
            assert(has =~= had + more);
            assert(titled + has =~= (titled + had) + more);
        }
    }
}

/// One step of a prompt that is not refused adds the next of its actions.
proof fn one_step_is_taken(s: AdmissionView, stored: bool, input: AdmissionInputView)
    requires
        !(s.phase is Refused),
        is_on_its_way(s),
    ensures
        ({
            let (next, more) = admission_step(s, input);
            let told = if s.phase is SavingTitle {
                input == AdmissionInputView::TitleSaved(None)
            } else {
                stored
            };
            !(next.phase is Refused) ==> is_on_its_way(next) && steps_taken(next, told)
                == steps_taken(s, stored) + more
        }),
{
    one_step_on_its_way(s, input);
    let told = if s.phase is SavingTitle {
        input == AdmissionInputView::TitleSaved(None)
    } else {
        stored
    };
    if !(admission_step(s, input).0.phase is Refused) {
        if past_title(s.phase) {
            one_provider_step(s, stored, input);
        } else if s.phase is SavingTitle || s.phase is CountingMessage {
            one_title_step(s, stored, told, input);
        } else {
            one_storing_step(s, stored, input);
        }
    }
}

/// What a prompt knows, it was answered.
spec fn knows_what_it_got(
    conversation_id: Seq<char>,
    prompt: Seq<char>,
    inputs: Seq<AdmissionInputView>,
    s: AdmissionView,
    stored: bool,
) -> bool {
    let kind = s.kind;
    &&& s.session matches Some(session) ==> got(
        kind,
        conversation_id,
        prompt,
        inputs,
        AdmissionActionView::LoadSession,
        AdmissionInputView::SessionLoaded(Ok(Some(session))),
    )
    &&& s.user_message matches Some(message) ==> got(
        kind,
        conversation_id,
        prompt,
        inputs,
        AdmissionActionView::SavePrompt { prompt },
        AdmissionInputView::PromptSaved(Ok(message)),
    )
    &&& s.phase is CountingMessage || s.phase is SavingTitle || past_title(s.phase) ==> exists|
        count: i64,
    |
        #[trigger] got(
            kind,
            conversation_id,
            prompt,
            inputs,
            AdmissionActionView::LoadConversation,
            AdmissionInputView::ConversationLoaded(Ok(count)),
        ) && s.first_message == (count <= 1)
    &&& past_title(s.phase) && s.first_message && stored ==> got(
        kind,
        conversation_id,
        prompt,
        inputs,
        AdmissionActionView::SaveTitle { title: short_title(prompt) },
        AdmissionInputView::TitleSaved(None),
    )
    &&& past_title(s.phase) && s.first_message && !stored ==> exists|error: Seq<char>|
        #[trigger] got(
            kind,
            conversation_id,
            prompt,
            inputs,
            AdmissionActionView::SaveTitle { title: short_title(prompt) },
            AdmissionInputView::TitleSaved(Some(error)),
        )
    &&& s.provider matches Some(provider) ==> got(
        kind,
        conversation_id,
        prompt,
        inputs,
        AdmissionActionView::LoadProvider,
        AdmissionInputView::ProviderLoaded(Ok(provider)),
    )
}

/// One more answer is known where it was waited for, and nothing that was known is forgotten.
proof fn one_more_is_known(
    kind: TurnKind,
    conversation_id: Seq<char>,
    prompt: Seq<char>,
    inputs: Seq<AdmissionInputView>,
    input: AdmissionInputView,
    s: AdmissionView,
    last: AdmissionActionView,
    stored: bool,
)
    requires
        s.kind == kind,
        s.conversation_id == conversation_id,
        s.prompt == prompt,
        !(s.phase is Refused),
        is_on_its_way(s),
        asks_for_its_phase(s, last),
        s.phase is SavingPrompt ==> last == (AdmissionActionView::SavePrompt { prompt }),
        s.phase is SavingTitle ==> last == (AdmissionActionView::SaveTitle {
            title: short_title(prompt),
        }),
        knows_what_it_got(conversation_id, prompt, inputs, s, stored),
        forall|asked: AdmissionActionView, answer: AdmissionInputView|
            got(kind, conversation_id, prompt, inputs, asked, answer) ==> #[trigger] got(
                kind,
                conversation_id,
                prompt,
                inputs.push(input),
                asked,
                answer,
            ),
        got(kind, conversation_id, prompt, inputs.push(input), last, input),
    ensures
        ({
            let next = admission_step(s, input).0;
            let told = if s.phase is SavingTitle {
                input == AdmissionInputView::TitleSaved(None)
            } else {
                stored
            };
            !(next.phase is Refused) ==> knows_what_it_got(
                conversation_id,
                prompt,
                inputs.push(input),
                next,
                told,
            )
        }),
{
    let longer = inputs.push(input);
    let next = admission_step(s, input).0;
    if s.phase is CountingMessage || s.phase is SavingTitle || past_title(s.phase) {
        let count = choose|count: i64|
            #[trigger] got(
                kind,
                conversation_id,
                prompt,
                inputs,
                AdmissionActionView::LoadConversation,
                AdmissionInputView::ConversationLoaded(Ok(count)),
            ) && s.first_message == (count <= 1);
        assert(got(
            kind,
            conversation_id,
            prompt,
            longer,
            AdmissionActionView::LoadConversation,
            AdmissionInputView::ConversationLoaded(Ok(count)),
        ));
    }
    match (s.phase, input) {
        (AdmissionPhase::LoadingConversation, AdmissionInputView::ConversationLoaded(Ok(count))) => {
            assert(got(
                kind,
                conversation_id,
                prompt,
                longer,
                AdmissionActionView::LoadConversation,
                AdmissionInputView::ConversationLoaded(Ok(count)),
            ));
        },
        (AdmissionPhase::SavingTitle, AdmissionInputView::TitleSaved(Some(error))) => {
            assert(got(
                kind,
                conversation_id,
                prompt,
                longer,
                AdmissionActionView::SaveTitle { title: short_title(prompt) },
                AdmissionInputView::TitleSaved(Some(error)),
            ));
        },
        _ => {},
    }
    if past_title(s.phase) && s.first_message && !stored {
        let error = choose|error: Seq<char>|
            #[trigger] got(
                kind,
                conversation_id,
                prompt,
                inputs,
                AdmissionActionView::SaveTitle { title: short_title(prompt) },
                AdmissionInputView::TitleSaved(Some(error)),
            );
        assert(got(
            kind,
            conversation_id,
            prompt,
            longer,
            AdmissionActionView::SaveTitle { title: short_title(prompt) },
            AdmissionInputView::TitleSaved(Some(error)),
        ));
    }
}

/// The last of the actions that a prompt has taken.
proof fn last_step(s: AdmissionView, stored: bool)
    requires
        is_on_its_way(s),
    ensures
        s.phase is SavingPrompt ==> steps_taken(s, stored).last() == (
        AdmissionActionView::SavePrompt { prompt: s.prompt }),
        s.phase is SavingTitle ==> steps_taken(s, stored).last() == (
        AdmissionActionView::SaveTitle { title: short_title(s.prompt) }),
{
}

proof fn run_takes_every_step(
    kind: TurnKind,
    conversation_id: Seq<char>,
    prompt: Seq<char>,
    inputs: Seq<AdmissionInputView>,
) -> (stored: bool)
    ensures
        ({
            let (s, actions) = admission_run(kind, conversation_id, prompt, inputs);
            &&& s.kind == kind
            &&& s.conversation_id == conversation_id
            &&& s.prompt == prompt
            &&& !(s.phase is Refused) ==> {
                &&& is_on_its_way(s)
                &&& actions == steps_taken(s, stored)
                &&& knows_what_it_got(conversation_id, prompt, inputs, s, stored)
            }
        }),
    decreases inputs.len(),
{
    if inputs.len() > 0 {
        let before = inputs.drop_last();
        let input = inputs.last();
        let stored = run_takes_every_step(kind, conversation_id, prompt, before);
        let (s, actions) = admission_run(kind, conversation_id, prompt, before);
        assert(before.push(input) =~= inputs);
        if s.phase is Refused {
            a_prompt_only_goes_forward(s, input);
            stored
        } else {
            run_asks(kind, conversation_id, prompt, before);
            got_with_one_more(kind, conversation_id, prompt, before, input);
            one_step_is_taken(s, stored, input);
            last_step(s, stored);
            one_more_is_known(
                kind,
                conversation_id,
                prompt,
                before,
                input,
                s,
                actions.last(),
                stored,
            );
            keeps_its_prompt(s, input);
            if s.phase is SavingTitle {
                input == AdmissionInputView::TitleSaved(None)
            } else {
                stored
            }
        }
    } else {
        let (s, actions) = admission_start(kind, conversation_id, prompt);
        if !(s.phase is Refused) {
            assert(actions =~= steps_taken(s, false));
        }
        false
    }
}

proof fn keeps_its_prompt(s: AdmissionView, input: AdmissionInputView)
    ensures
        admission_step(s, input).0.kind == s.kind,
        admission_step(s, input).0.conversation_id == s.conversation_id,
        admission_step(s, input).0.prompt == s.prompt,
{
}

/// An agent starts only once its prompt has taken every step, each once and in its order: the
/// session that was loaded is marked as running, the prompt is stored and counted, a first
/// message gives its conversation a title, and the built-in agent gets the adapter and the name
/// of the provider that was loaded, which can chat.
pub proof fn a_started_prompt_took_every_step(
    kind: TurnKind,
    conversation_id: Seq<char>,
    prompt: Seq<char>,
    inputs: Seq<AdmissionInputView>,
) -> (found: (SessionView, UserMessageView, i64, bool, ProviderType))
    requires
        admission_run(kind, conversation_id, prompt, inputs).1.last() is Start,
    ensures
        ({
            let (session, message, count, stored, provider) = found;
            let (s, actions) = admission_run(kind, conversation_id, prompt, inputs);
            let titled = storing_steps(session.id, prompt) + title_steps(
                conversation_id,
                prompt,
                count <= 1,
                stored,
            );
            &&& got(
                kind,
                conversation_id,
                prompt,
                inputs,
                AdmissionActionView::LoadSession,
                AdmissionInputView::SessionLoaded(Ok(Some(session))),
            )
            &&& got(
                kind,
                conversation_id,
                prompt,
                inputs,
                AdmissionActionView::SavePrompt { prompt },
                AdmissionInputView::PromptSaved(Ok(message)),
            )
            &&& got(
                kind,
                conversation_id,
                prompt,
                inputs,
                AdmissionActionView::LoadConversation,
                AdmissionInputView::ConversationLoaded(Ok(count)),
            )
            &&& s.session == Some(session)
            &&& s.user_message == Some(message)
            &&& s.first_message == (count <= 1)
            &&& count <= 1 && stored ==> got(
                kind,
                conversation_id,
                prompt,
                inputs,
                AdmissionActionView::SaveTitle { title: short_title(prompt) },
                AdmissionInputView::TitleSaved(None),
            )
            &&& match kind {
                TurnKind::CommandLine => actions == titled.push(AdmissionActionView::Start),
                TurnKind::BuiltIn => {
                    &&& got(
                        kind,
                        conversation_id,
                        prompt,
                        inputs,
                        AdmissionActionView::LoadProvider,
                        AdmissionInputView::ProviderLoaded(Ok(provider)),
                    )
                    &&& !only_reranks(provider)
                    &&& actions == (titled + provider_steps(provider)).push(
                        AdmissionActionView::Start,
                    )
                },
            }
        }),
{
    let stored = run_takes_every_step(kind, conversation_id, prompt, inputs);
    run_asks(kind, conversation_id, prompt, inputs);
    let (s, actions) = admission_run(kind, conversation_id, prompt, inputs);
    let provider = if kind is BuiltIn {
        s.provider->0
    } else {
        ProviderType::OpenAI
    };
    assert(provider_steps(provider).take(6) =~= provider_steps(provider));
    let count = choose|count: i64|
        #[trigger] got(
            kind,
            conversation_id,
            prompt,
            inputs,
            AdmissionActionView::LoadConversation,
            AdmissionInputView::ConversationLoaded(Ok(count)),
        ) && s.first_message == (count <= 1);
    (s.session->0, s.user_message->0, count, stored, provider)
}

/// Whether an answer belongs to an action of a prompt.
pub open spec fn is_answer_to(asked: AdmissionActionView, answer: AdmissionInputView) -> bool {
    match answer {
        AdmissionInputView::SessionLoaded(_) => asked is LoadSession,
        AdmissionInputView::RunningChecked(_) => asked is CheckRunning,
        AdmissionInputView::RunningMarked(_) => asked is MarkRunning,
        AdmissionInputView::PromptSaved(_) => asked is SavePrompt,
        AdmissionInputView::ConversationLoaded(_) => asked is LoadConversation,
        AdmissionInputView::MessageCounted(_) => asked is CountMessage,
        AdmissionInputView::TitleSaved(_) => asked is SaveTitle,
        AdmissionInputView::ProviderLoaded(_) => asked is LoadProvider,
        AdmissionInputView::KeyLoaded(_) => asked is LoadKey,
        AdmissionInputView::KeyDecrypted(_) => asked is DecryptKey,
        AdmissionInputView::BridgeBuilt(_) => asked is BuildBridge,
        AdmissionInputView::ConversationReloaded(_) => asked is ReloadConversation,
        AdmissionInputView::AgentBuilt(_) => asked is BuildAgent,
    }
}

/// A prompt never gets stuck: the answer to its last action leads to a further action, until an
/// agent starts or the prompt is refused, and any other answer leads to none.
pub proof fn a_prompt_never_gets_stuck(
    kind: TurnKind,
    conversation_id: Seq<char>,
    prompt: Seq<char>,
    inputs: Seq<AdmissionInputView>,
    answer: AdmissionInputView,
)
    ensures
        ({
            let before = admission_run(kind, conversation_id, prompt, inputs).1;
            let after = admission_run(kind, conversation_id, prompt, inputs.push(answer)).1;
            &&& before.is_prefix_of(after)
            &&& after.len() > before.len() <==> is_answer_to(before.last(), answer)
        }),
{
    run_asks(kind, conversation_id, prompt, inputs);
    let (s, before) = admission_run(kind, conversation_id, prompt, inputs);
    assert(inputs.push(answer).drop_last() =~= inputs);
    one_step_goes_on(s, before.last(), answer);
    let after = before + admission_step(s, answer).1;
    assert(before =~= after.subrange(0, before.len() as int));
}

proof fn one_step_goes_on(s: AdmissionView, last: AdmissionActionView, input: AdmissionInputView)
    requires
        asks_for_its_phase(s, last),
    ensures
        admission_step(s, input).1.len() > 0 <==> is_answer_to(last, input),
{
}

} // verus!
