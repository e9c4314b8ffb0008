//! What DeepSeek TUI leaves behind: its printed result, its saved sessions, and the context
//! with which a later turn resumes a session.
use vstd::prelude::*;
use vstd::string::*;

use crate::cli::{describe_success, success_text};
use crate::location::{two_below, Location, LocationView};
use crate::text::{copy_text, join_texts, joined, opt_view, same_text, trim, trimmed, views};

verus! {

/// What is stored of a DeepSeek session between two turns.
#[derive(Debug)]
pub struct DeepSeekSessionContext {
    pub deepseek_session_id: Option<String>,
    pub deepseek_model: Option<String>,
}

/// A context, its texts as sequences of characters.
pub struct ContextView {
    pub deepseek_session_id: Option<Seq<char>>,
    pub deepseek_model: Option<Seq<char>>,
}

impl View for DeepSeekSessionContext {
    type V = ContextView;

    open spec fn view(&self) -> ContextView {
        ContextView {
            deepseek_session_id: opt_view(self.deepseek_session_id),
            deepseek_model: opt_view(self.deepseek_model),
        }
    }
}

/// The context of a session that was never used.
pub fn empty_context() -> (context: DeepSeekSessionContext)
    ensures
        context@ == (ContextView { deepseek_session_id: None, deepseek_model: None }),
{
    DeepSeekSessionContext { deepseek_session_id: None, deepseek_model: None }
}

/// The result that the command prints.
#[derive(Debug)]
pub struct DeepSeekExecJson {
    pub model: Option<String>,
    pub success: Option<bool>,
    pub output: Option<String>,
}

/// A printed result, its texts as sequences of characters.
pub struct ExecView {
    pub model: Option<Seq<char>>,
    pub success: Option<bool>,
    pub output: Option<Seq<char>>,
}

impl View for DeepSeekExecJson {
    type V = ExecView;

    open spec fn view(&self) -> ExecView {
        ExecView {
            model: opt_view(self.model),
            success: self.success,
            output: opt_view(self.output),
        }
    }
}

/// A block of a saved message.
#[derive(Debug)]
pub enum DeepSeekSavedContentBlock {
    Thinking { thinking: String },
    Text { text: String },
    Other,
}

/// A block, its text as a sequence of characters.
pub enum SavedBlockView {
    Thinking { thinking: Seq<char> },
    Text { text: Seq<char> },
    Other,
}

impl View for DeepSeekSavedContentBlock {
    type V = SavedBlockView;

    open spec fn view(&self) -> SavedBlockView {
        match self {
            DeepSeekSavedContentBlock::Thinking { thinking } => SavedBlockView::Thinking {
                thinking: thinking@,
            },
            DeepSeekSavedContentBlock::Text { text } => SavedBlockView::Text { text: text@ },
            DeepSeekSavedContentBlock::Other => SavedBlockView::Other,
        }
    }
}

/// A message of a saved session.
#[derive(Debug)]
pub struct DeepSeekSavedMessage {
    pub role: String,
    pub content: Vec<DeepSeekSavedContentBlock>,
}

/// A message, its texts as sequences of characters.
pub struct SavedMessageView {
    pub role: Seq<char>,
    pub content: Seq<SavedBlockView>,
}

impl View for DeepSeekSavedMessage {
    type V = SavedMessageView;

    open spec fn view(&self) -> SavedMessageView {
        SavedMessageView { role: self.role@, content: views(self.content@) }
    }
}

/// What a saved session says of itself.
#[derive(Debug)]
pub struct DeepSeekSavedSessionMetadata {
    pub id: String,
    pub model: Option<String>,
}

/// A saved session.
#[derive(Debug)]
pub struct DeepSeekSavedSession {
    pub metadata: DeepSeekSavedSessionMetadata,
    pub messages: Vec<DeepSeekSavedMessage>,
}

/// A saved session, its texts as sequences of characters.
pub struct SavedSessionView {
    pub id: Seq<char>,
    pub model: Option<Seq<char>>,
    pub messages: Seq<SavedMessageView>,
}

impl View for DeepSeekSavedSession {
    type V = SavedSessionView;

    open spec fn view(&self) -> SavedSessionView {
        SavedSessionView {
            id: self.metadata.id@,
            model: opt_view(self.metadata.model),
            messages: views(self.messages@),
        }
    }
}

// ---------------------------------------------------------------------------------------
// The last reply of a session
// ---------------------------------------------------------------------------------------

/// The last message of the assistant.
pub open spec fn last_assistant(messages: Seq<SavedMessageView>) -> Option<SavedMessageView>
    decreases messages.len(),
{
    if messages.len() == 0 {
        None
    } else if messages.last().role == "assistant"@ {
        Some(messages.last())
    } else {
        last_assistant(messages.drop_last())
    }
}

/// The thinking blocks of a message.
pub open spec fn thinking_parts(content: Seq<SavedBlockView>) -> Seq<Seq<char>>
    decreases content.len(),
{
    if content.len() == 0 {
        Seq::empty()
    } else {
        let before = thinking_parts(content.drop_last());
        match content.last() {
            SavedBlockView::Thinking { thinking } => before.push(thinking),
            _ => before,
        }
    }
}

/// The text blocks of a message.
pub open spec fn text_parts(content: Seq<SavedBlockView>) -> Seq<Seq<char>>
    decreases content.len(),
{
    if content.len() == 0 {
        Seq::empty()
    } else {
        let before = text_parts(content.drop_last());
        match content.last() {
            SavedBlockView::Text { text } => before.push(text),
            _ => before,
        }
    }
}

/// Paragraphs made of the parts, where there are any.
pub open spec fn paragraphs(parts: Seq<Seq<char>>) -> Option<Seq<char>> {
    if parts.len() == 0 {
        None
    } else {
        Some(joined(parts, "\n\n"@))
    }
}

/// The thinking and the text of the last message of the assistant.
pub open spec fn latest_reply(messages: Seq<SavedMessageView>) -> Option<
    (Option<Seq<char>>, Option<Seq<char>>),
> {
    match last_assistant(messages) {
        Some(message) => Some(
            (
                paragraphs(thinking_parts(message.content)),
                paragraphs(text_parts(message.content)),
            ),
        ),
        None => None,
    }
}

fn find_last_assistant(messages: &Vec<DeepSeekSavedMessage>) -> (index: Option<usize>)
    ensures
        match index {
            Some(i) => i < messages.len() && last_assistant(views(messages@)) == Some(
                messages@[i as int]@,
            ),
            None => last_assistant(views(messages@)) is None,
        },
{
    let mut end: usize = messages.len();
    assert(views(messages@).take(end as int) =~= views(messages@));
    while end > 0
        invariant
            end <= messages.len(),
            last_assistant(views(messages@)) == last_assistant(views(messages@).take(end as int)),
        decreases end,
    {
        let ghost upto = views(messages@).take(end as int);
        assert(upto.last() == messages@[end - 1]@);
        assert(upto.drop_last() =~= views(messages@).take(end - 1));
        if same_text(messages[end - 1].role.as_str(), "assistant") {
            return Some(end - 1);
        }
        end = end - 1;
    }
    None
}

fn join_paragraphs(parts: &Vec<String>) -> (text: Option<String>)
    ensures
        opt_view(text) == paragraphs(views(parts@)),
{
    if parts.len() == 0 {
        None
    } else {
        Some(join_texts(parts, "\n\n"))
    }
}

/// Reads the thinking and the text of the last message of the assistant.
pub fn extract_latest_deepseek_reply(session: &DeepSeekSavedSession) -> (reply: Option<
    (Option<String>, Option<String>),
>)
    ensures
        match reply {
            Some(reply) => latest_reply(session@.messages) == Some(
                (opt_view(reply.0), opt_view(reply.1)),
            ),
            None => latest_reply(session@.messages) is None,
        },
{
    let index = match find_last_assistant(&session.messages) {
        Some(index) => index,
        None => {
            return None;
        },
    };
    let content = &session.messages[index].content;
    let mut thinking: Vec<String> = Vec::new();
    let mut text: Vec<String> = Vec::new();
    let ghost blocks = views(content@);
    assert(blocks.take(0) =~= Seq::empty());
    assert(views(thinking@) =~= Seq::empty());
    assert(views(text@) =~= Seq::empty());
    let mut i: usize = 0;
    while i < content.len()
        invariant
            i <= content.len(),
            blocks == views(content@),
            views(thinking@) == thinking_parts(blocks.take(i as int)),
            views(text@) == text_parts(blocks.take(i as int)),
        decreases content.len() - i,
    {
        let ghost thought = views(thinking@);
        let ghost said = views(text@);
        assert(blocks.take(i + 1).drop_last() =~= blocks.take(i as int));
        assert(blocks.take(i + 1).last() == content@[i as int]@);
        match &content[i] {
            DeepSeekSavedContentBlock::Thinking { thinking: part } => {
                thinking.push(part.clone());
                assert(views(thinking@) =~= thought.push(part@));
            },
            DeepSeekSavedContentBlock::Text { text: part } => {
                text.push(part.clone());
                assert(views(text@) =~= said.push(part@));
            },
            DeepSeekSavedContentBlock::Other => {},
        }
        i = i + 1;
    }
    assert(blocks.take(i as int) =~= blocks);
    Some((join_paragraphs(&thinking), join_paragraphs(&text)))
}

// ---------------------------------------------------------------------------------------
// Session files
// ---------------------------------------------------------------------------------------

/// The directory of the saved sessions, below the home directory of the user.
pub fn deepseek_sessions_dir<'a, B>(home: Option<&'a B>) -> (dir: Option<Location<'a, B>>)
    ensures
        opt_view(dir) == match home {
            Some(home) => Some(
                LocationView::Below { base: *home, steps: seq![".deepseek"@, "sessions"@] },
            ),
            None => None,
        },
{
    match home {
        Some(home) => Some(two_below(home, ".deepseek", "sessions")),
        None => None,
    }
}

/// The place of a saved session, below the home directory of the user.
pub open spec fn session_place<B>(home: B, session_id: Seq<char>) -> LocationView<B> {
    LocationView::Below {
        base: home,
        steps: seq![".deepseek"@, "sessions"@, session_id + ".json"@],
    }
}

/// The place where the saved session with an id belongs. Whether a file is there is left to the
/// host to see.
pub fn resolve_deepseek_session_file<'a, B>(home: Option<&'a B>, session_id: &str) -> (file: Option<
    Location<'a, B>,
>)
    ensures
        opt_view(file) == match home {
            Some(home) => Some(session_place(*home, session_id@)),
            None => None,
        },
{
    match home {
        Some(home) => {
            let mut name = session_id.to_owned();
            name.append(".json");
            let mut steps: Vec<String> = Vec::new();
            steps.push(".deepseek".to_owned());
            steps.push("sessions".to_owned());
            steps.push(name);
            assert(views(steps@) =~= seq![".deepseek"@, "sessions"@, session_id@ + ".json"@]);
            Some(Location::Below { base: home, steps })
        },
        None => None,
    }
}

/// A file in the directory of the saved sessions. The texts are missing where the name has no
/// such part or is no Unicode; the time counts nanoseconds since the Unix epoch.
#[derive(Debug)]
pub struct SessionEntry {
    pub stem: Option<String>,
    pub extension: Option<String>,
    pub modified: Option<i128>,
}

/// A file, its texts as sequences of characters.
pub struct EntryView {
    pub stem: Option<Seq<char>>,
    pub extension: Option<Seq<char>>,
    pub modified: Option<i128>,
}

impl View for SessionEntry {
    type V = EntryView;

    open spec fn view(&self) -> EntryView {
        EntryView {
            stem: opt_view(self.stem),
            extension: opt_view(self.extension),
            modified: self.modified,
        }
    }
}

/// When a file was modified, the epoch where that is not known.
pub open spec fn modified_at(entry: EntryView) -> int {
    match entry.modified {
        Some(time) => time as int,
        None => 0,
    }
}

/// Whether a file is a saved session.
pub open spec fn is_session(entry: EntryView) -> bool {
    entry.extension == Some("json"@)
}

/// Whether every file of the directory could be read.
pub open spec fn all_read(entries: Seq<Option<SessionEntry>>) -> bool {
    forall|i: int| 0 <= i < entries.len() ==> (#[trigger] entries[i]) is Some
}

/// The index of the session that was modified last; of several, the first.
pub open spec fn newest(entries: Seq<Option<SessionEntry>>) -> Option<int>
    decreases entries.len(),
{
    if entries.len() == 0 {
        None
    } else {
        let entry = entries.last()->0@;
        match newest(entries.drop_last()) {
            Some(i) if !is_session(entry) || modified_at(entry) <= modified_at(entries[i]->0@) =>
                Some(i),
            Some(_) => Some(entries.len() - 1),
            None => if is_session(entry) {
                Some(entries.len() - 1)
            } else {
                None
            },
        }
    }
}

/// The index of the session that was modified last, unless a file could not be read.
pub open spec fn latest_session(entries: Seq<Option<SessionEntry>>) -> Option<int> {
    if all_read(entries) {
        newest(entries)
    } else {
        None
    }
}

/// Picks the session that was modified last. A file that could not be read spoils the choice.
pub fn latest_deepseek_session_file(entries: &Vec<Option<SessionEntry>>) -> (index: Option<usize>)
    ensures
        match index {
            Some(i) => i < entries.len() && latest_session(entries@) == Some(i as int),
            None => latest_session(entries@) is None,
        },
{
    let mut best: Option<(usize, i128)> = None;
    assert(entries@.take(0) =~= Seq::empty());
    let mut i: usize = 0;
    while i < entries.len()
        invariant
            i <= entries.len(),
            all_read(entries@.take(i as int)),
            match best {
                Some((k, time)) => {
                    &&& k < i
                    &&& newest(entries@.take(i as int)) == Some(k as int)
                    &&& time == modified_at(entries@[k as int]->0@)
                },
                None => newest(entries@.take(i as int)) is None,
            },
        decreases entries.len() - i,
    {
        let ghost upto = entries@.take(i + 1);
        assert(upto.drop_last() =~= entries@.take(i as int));
        assert(upto.last() == entries@[i as int]);
        let entry = match &entries[i] {
            Some(entry) => entry,
            None => {
                return None;
            },
        };
        assert(all_read(upto)) by {
            assert forall|j: int| 0 <= j < upto.len() implies (#[trigger] upto[j]) is Some by {
                if j < i {
                    assert(entries@.take(i as int)[j] is Some);
                }
            }
        }
        let json = match &entry.extension {
            Some(extension) => same_text(extension.as_str(), "json"),
            None => false,
        };
        if json {
            let time: i128 = match entry.modified {
                Some(time) => time,
                None => 0,
            };
            let later = match best {
                Some((_, best_time)) => time > best_time,
                None => true,
            };
            if later {
                best = Some((i, time));
            }
        }
        i = i + 1;
    }
    assert(entries@.take(i as int) =~= entries@);
    match best {
        Some((k, _)) => Some(k),
        None => None,
    }
}

/// The chosen session is a saved session, none is newer, and of those as new it is the first.
pub proof fn latest_session_is_newest(entries: Seq<Option<SessionEntry>>)
    ensures
        match newest(entries) {
            Some(i) => {
                &&& 0 <= i < entries.len()
                &&& is_session(entries[i]->0@)
                &&& forall|j: int|
                    0 <= j < entries.len() && is_session((#[trigger] entries[j])->0@)
                        ==> modified_at(entries[j]->0@) <= modified_at(entries[i]->0@)
                &&& forall|j: int|
                    0 <= j < i && is_session((#[trigger] entries[j])->0@) ==> modified_at(
                        entries[j]->0@,
                    ) < modified_at(entries[i]->0@)
            },
            None => forall|j: int|
                0 <= j < entries.len() ==> !is_session((#[trigger] entries[j])->0@),
        },
    decreases entries.len(),
{
    if entries.len() > 0 {
        let before = entries.drop_last();
        latest_session_is_newest(before);
        assert forall|j: int| 0 <= j < before.len() implies before[j] == #[trigger] entries[j] by {}
    }
}

// ---------------------------------------------------------------------------------------
// The report of a turn
// ---------------------------------------------------------------------------------------

/// What a turn reports.
#[derive(Debug)]
pub struct CliReport {
    pub text: String,
    pub thinking: Option<String>,
    pub model: Option<String>,
    pub session_id: Option<String>,
    /// What to store for the next turn.
    pub context: Option<DeepSeekSessionContext>,
}

/// A report, its texts as sequences of characters.
pub struct ReportView {
    pub text: Seq<char>,
    pub thinking: Option<Seq<char>>,
    pub model: Option<Seq<char>>,
    pub session_id: Option<Seq<char>>,
    pub context: Option<ContextView>,
}

impl View for CliReport {
    type V = ReportView;

    open spec fn view(&self) -> ReportView {
        ReportView {
            text: self.text@,
            thinking: opt_view(self.thinking),
            model: opt_view(self.model),
            session_id: opt_view(self.session_id),
            context: opt_view(self.context),
        }
    }
}

/// The first of two values that is there.
pub open spec fn or_else<T>(first: Option<T>, second: Option<T>) -> Option<T> {
    if first is Some {
        first
    } else {
        second
    }
}

/// The text of a reply: what the saved session or else the printed result says, unless that is
/// blank; then what was printed.
pub open spec fn reply_text(
    label: Seq<char>,
    out: Seq<char>,
    said: Option<Seq<char>>,
) -> Seq<char> {
    match said {
        Some(text) if trimmed(text).len() > 0 => text,
        _ => success_text(label, out),
    }
}

/// What a successful run of the agent with a label reports: `out` is what it printed, `parsed`
/// the result in it, `session_id` the session that it belongs to and `saved` that session as it
/// was saved.
pub open spec fn success_report(
    label: Seq<char>,
    out: Seq<char>,
    parsed: Option<ExecView>,
    model: Option<Seq<char>>,
    session_id: Option<Seq<char>>,
    saved: Option<SavedSessionView>,
) -> ReportView {
    let reply = match saved {
        Some(session) => latest_reply(session.messages),
        None => None,
    };
    let (thinking, text) = match reply {
        Some(reply) => reply,
        None => (None, None),
    };
    let session_id = match saved {
        Some(session) => Some(session.id),
        None => session_id,
    };
    let saved_model = match saved {
        Some(session) => session.model,
        None => None,
    };
    let (parsed_model, parsed_text) = match parsed {
        Some(parsed) => (parsed.model, parsed.output),
        None => (None, None),
    };
    let model = or_else(or_else(saved_model, parsed_model), model);
    ReportView {
        text: reply_text(label, out, or_else(text, parsed_text)),
        thinking,
        model,
        session_id,
        context: match session_id {
            Some(id) => Some(ContextView { deepseek_session_id: Some(id), deepseek_model: model }),
            None => None,
        },
    }
}

/// Makes the report of a successful run.
pub fn report_success(
    label: &str,
    out: &str,
    parsed: Option<DeepSeekExecJson>,
    model: &Option<String>,
    session_id: Option<String>,
    saved: Option<DeepSeekSavedSession>,
) -> (report: CliReport)
    ensures
        report@ == success_report(
            label@,
            out@,
            opt_view(parsed),
            opt_view(*model),
            opt_view(session_id),
            opt_view(saved),
        ),
{
    let mut thinking: Option<String> = None;
    let mut text: Option<String> = None;
    let mut final_model: Option<String> = None;
    let mut final_id = session_id;
    if let Some(session) = saved {
        if let Some(reply) = extract_latest_deepseek_reply(&session) {
            thinking = reply.0;
            text = reply.1;
        }
        final_model = session.metadata.model;
        final_id = Some(session.metadata.id);
    }
    if let Some(parsed) = parsed {
        if final_model.is_none() {
            final_model = parsed.model;
        }
        if text.is_none() {
            text = parsed.output;
        }
    }
    if final_model.is_none() {
        final_model = copy_text(model);
    }
    let said = match text {
        Some(text) => {
            if trim(text.as_str()).as_str().is_empty() {
                describe_success(label, out)
            } else {
                text
            }
        },
        None => describe_success(label, out),
    };
    let context = match &final_id {
        Some(id) => Some(
            DeepSeekSessionContext {
                deepseek_session_id: Some(id.clone()),
                deepseek_model: copy_text(&final_model),
            },
        ),
        None => None,
    };
    CliReport { text: said, thinking, model: final_model, session_id: final_id, context }
}

/// The stored context names the session and the model that the report names, so that the
/// next turn resumes the same session.
pub proof fn stored_context_resumes_the_session(
    label: Seq<char>,
    out: Seq<char>,
    parsed: Option<ExecView>,
    model: Option<Seq<char>>,
    session_id: Option<Seq<char>>,
    saved: Option<SavedSessionView>,
)
    ensures
        ({
            let report = success_report(label, out, parsed, model, session_id, saved);
            &&& report.context is Some <==> report.session_id is Some
            &&& report.context matches Some(context) ==> context.deepseek_session_id
                == report.session_id && context.deepseek_model == report.model
            &&& session_id is Some ==> report.session_id is Some
        }),
{
}

/// A report always says something, and it repeats the saved reply word for word.
pub proof fn saved_reply_is_reported(
    label: Seq<char>,
    out: Seq<char>,
    parsed: Option<ExecView>,
    model: Option<Seq<char>>,
    session_id: Option<Seq<char>>,
    saved: SavedSessionView,
    text: Seq<char>,
)
    ensures
        success_report(label, out, parsed, model, session_id, Some(saved)).text.len() > 0,
        latest_reply(saved.messages) is Some && (latest_reply(saved.messages)->0).1 == Some(text)
            && trimmed(text).len() > 0 ==> success_report(
            label,
            out,
            parsed,
            model,
            session_id,
            Some(saved),
        ).text == text,
{
    reveal_strlit(" completed without text output.");
    let report = success_report(label, out, parsed, model, session_id, Some(saved));
    if report.text.len() == 0 {
        assert(report.text =~= Seq::empty());
    }
}

} // verus!
