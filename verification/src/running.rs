//! What the runtime remembers while agents run: which agent runs for a conversation, which
//! requests wait for a reply, and which tools the user has allowed for good.
use vstd::hash_map::StringHashMap;
use vstd::prelude::*;
use vstd::string::*;

use crate::text::same_text;

verus! {

/// The running agents: the id of the run by the id of its conversation.
pub struct RunningAgents {
    runs: StringHashMap<String>,
}

impl View for RunningAgents {
    type V = Map<Seq<char>, Seq<char>>;

    closed spec fn view(&self) -> Map<Seq<char>, Seq<char>> {
        self.runs@.map_values(|id: String| id@)
    }
}

/// The runs after one has ended: only the run itself is taken out, no later one.
pub open spec fn after_end(
    runs: Map<Seq<char>, Seq<char>>,
    conversation_id: Seq<char>,
    run_id: Seq<char>,
) -> Map<Seq<char>, Seq<char>> {
    if runs.contains_key(conversation_id) && runs[conversation_id] == run_id {
        runs.remove(conversation_id)
    } else {
        runs
    }
}

impl RunningAgents {
    /// No agent runs.
    pub fn new() -> (running: RunningAgents)
        ensures
            running@ == Map::<Seq<char>, Seq<char>>::empty(),
    {
        let running = RunningAgents { runs: StringHashMap::new() };
        assert(running@ =~= Map::empty());
        running
    }

    /// Whether an agent runs for a conversation.
    pub fn is_running(&self, conversation_id: &str) -> (yes: bool)
        ensures
            yes == self@.contains_key(conversation_id@),
    {
        self.runs.contains_key(conversation_id)
    }

    /// An agent begins to run for a conversation.
    pub fn start(&mut self, conversation_id: String, run_id: String)
        ensures
            final(self)@ == old(self)@.insert(conversation_id@, run_id@),
    {
        self.runs.insert(conversation_id, run_id);
        assert(self@ =~= old(self)@.insert(conversation_id@, run_id@));
    }

    /// A run has ended. A run that was started for the conversation since then stays.
    pub fn finish(&mut self, conversation_id: &str, run_id: &str)
        ensures
            final(self)@ == after_end(old(self)@, conversation_id@, run_id@),
    {
        let current = match self.runs.get(conversation_id) {
            Some(current) => same_text(current.as_str(), run_id),
            None => false,
        };
        if current {
            self.runs.remove(conversation_id);
            assert(self@ =~= old(self)@.remove(conversation_id@));
        }
    }

    /// Whatever runs for a conversation no longer counts as running.
    pub fn cancel(&mut self, conversation_id: &str)
        ensures
            final(self)@ == old(self)@.remove(conversation_id@),
    {
        self.runs.remove(conversation_id);
        assert(self@ =~= old(self)@.remove(conversation_id@));
    }
}

/// A run that ends late takes no later run of its conversation out, and never a run of
/// another conversation.
pub proof fn late_end_keeps_the_new_run(
    runs: Map<Seq<char>, Seq<char>>,
    conversation_id: Seq<char>,
    old_run: Seq<char>,
    new_run: Seq<char>,
    other: Seq<char>,
)
    requires
        old_run != new_run,
        other != conversation_id,
    ensures
        after_end(
            runs.remove(conversation_id).insert(conversation_id, new_run),
            conversation_id,
            old_run,
        )[conversation_id] == new_run,
        after_end(runs, conversation_id, old_run).contains_key(other) == runs.contains_key(other),
        runs.contains_key(other) ==> after_end(runs, conversation_id, old_run)[other]
            == runs[other],
{
}

/// A conversation is free again once its run has ended.
pub proof fn ended_run_frees_the_conversation(
    runs: Map<Seq<char>, Seq<char>>,
    conversation_id: Seq<char>,
    run_id: Seq<char>,
)
    ensures
        !after_end(
            runs.insert(conversation_id, run_id),
            conversation_id,
            run_id,
        ).contains_key(conversation_id),
{
}

/// A conversation with a run is running, whatever else runs.
pub proof fn started_run_is_running(
    runs: Map<Seq<char>, Seq<char>>,
    conversation_id: Seq<char>,
    run_id: Seq<char>,
    other: Seq<char>,
)
    ensures
        runs.insert(conversation_id, run_id).contains_key(conversation_id),
        other != conversation_id ==> runs.insert(conversation_id, run_id).contains_key(other)
            == runs.contains_key(other),
        !runs.insert(conversation_id, run_id).remove(conversation_id).contains_key(
            conversation_id,
        ),
{
}

// ---------------------------------------------------------------------------------------
// Waiting requests
// ---------------------------------------------------------------------------------------

/// Values that wait under a key until they are taken, such as the senders of replies.
pub struct Slots<T> {
    entries: Vec<(String, T)>,
}

/// The entries as a map.
spec fn entries_map<T>(entries: Seq<(String, T)>) -> Map<Seq<char>, T>
    decreases entries.len(),
{
    if entries.len() == 0 {
        Map::empty()
    } else {
        entries_map(entries.drop_last()).insert(entries.last().0@, entries.last().1)
    }
}

/// No key occurs twice.
spec fn keys_differ<T>(entries: Seq<(String, T)>) -> bool {
    forall|i: int, j: int|
        0 <= i < j < entries.len() ==> (#[trigger] entries[i]).0@ != (#[trigger] entries[j]).0@
}

proof fn map_has_entries<T>(entries: Seq<(String, T)>, key: Seq<char>)
    requires
        keys_differ(entries),
    ensures
        entries_map(entries).contains_key(key) <==> exists|i: int|
            0 <= i < entries.len() && (#[trigger] entries[i]).0@ == key,
        forall|i: int|
            0 <= i < entries.len() && (#[trigger] entries[i]).0@ == key ==> entries_map(
                entries,
            )[key] == entries[i].1,
    decreases entries.len(),
{
    if entries.len() > 0 {
        let before = entries.drop_last();
        map_has_entries(before, key);
        assert forall|i: int| 0 <= i < before.len() implies before[i] == #[trigger] entries[i] by {}
        if entries.last().0@ == key {
            assert(entries[entries.len() - 1].0@ == key);
        }
        if entries_map(before).contains_key(key) {
            let i = choose|i: int| 0 <= i < before.len() && (#[trigger] before[i]).0@ == key;
            assert(entries[i].0@ == key);
        }
    }
}

proof fn map_without_entry<T>(entries: Seq<(String, T)>, at: int)
    requires
        keys_differ(entries),
        0 <= at < entries.len(),
    ensures
        keys_differ(entries.remove(at)),
        entries_map(entries.remove(at)) == entries_map(entries).remove(entries[at].0@),
    decreases entries.len(),
{
    let rest = entries.remove(at);
    assert(keys_differ(rest)) by {
        assert forall|i: int, j: int| 0 <= i < j < rest.len() implies (#[trigger] rest[i]).0@ != (
        #[trigger] rest[j]).0@ by {
            let a = if i < at {
                i
            } else {
                i + 1
            };
            let b = if j < at {
                j
            } else {
                j + 1
            };
            assert(rest[i] == entries[a]);
            assert(rest[j] == entries[b]);
        }
    }
    let before = entries.drop_last();
    if at == entries.len() - 1 {
        assert(rest =~= before);
        map_has_entries(before, entries[at].0@);
        assert(!entries_map(before).contains_key(entries[at].0@)) by {
            assert forall|i: int| 0 <= i < before.len() implies (#[trigger] before[i]).0@
                != entries[at].0@ by {
                assert(before[i] == entries[i]);
            }
        }
        assert(entries_map(rest) =~= entries_map(entries).remove(entries[at].0@));
    } else {
        assert forall|i: int| 0 <= i < before.len() implies before[i] == #[trigger] entries[i] by {}
        map_without_entry(before, at);
        assert(rest.drop_last() =~= before.remove(at));
        assert(rest.last() == entries.last());
        assert(entries[entries.len() - 1].0@ != entries[at].0@);
        assert(entries_map(rest) =~= entries_map(entries).remove(entries[at].0@));
    }
}

impl<T> View for Slots<T> {
    type V = Map<Seq<char>, T>;

    closed spec fn view(&self) -> Map<Seq<char>, T> {
        entries_map(self.entries@)
    }
}

impl<T> Slots<T> {
    /// No key is stored twice.
    pub closed spec fn wf(&self) -> bool {
        keys_differ(self.entries@)
    }

    /// Nothing waits.
    pub fn new() -> (slots: Slots<T>)
        ensures
            slots.wf(),
            slots@ == Map::<Seq<char>, T>::empty(),
    {
        Slots { entries: Vec::new() }
    }

    fn find(&self, key: &str) -> (index: Option<usize>)
        requires
            self.wf(),
        ensures
            match index {
                Some(i) => i < self.entries.len() && self.entries@[i as int].0@ == key@
                    && self@.contains_key(key@) && self@[key@] == self.entries@[i as int].1,
                None => !self@.contains_key(key@),
            },
    {
        proof {
            map_has_entries(self.entries@, key@);
        }
        let mut i: usize = 0;
        while i < self.entries.len()
            invariant
                i <= self.entries.len(),
                forall|j: int| 0 <= j < i ==> (#[trigger] self.entries@[j]).0@ != key@,
                forall|j: int|
                    0 <= j < self.entries@.len() && (#[trigger] self.entries@[j]).0@ == key@
                        ==> self@.contains_key(key@) && self@[key@] == self.entries@[j].1,
            decreases self.entries.len() - i,
        {
            if same_text(self.entries[i].0.as_str(), key) {
                return Some(i);
            }
            i = i + 1;
        }
        None
    }

    /// Takes the value that waits under a key.
    pub fn take(&mut self, key: &str) -> (value: Option<T>)
        requires
            old(self).wf(),
        ensures
            final(self).wf(),
            final(self)@ == old(self)@.remove(key@),
            value == if old(self)@.contains_key(key@) {
                Some(old(self)@[key@])
            } else {
                None
            },
    {
        match self.find(key) {
            Some(index) => {
                proof {
                    map_without_entry(self.entries@, index as int);
                }
                let (_, value) = self.entries.remove(index);
                Some(value)
            },
            None => {
                assert(self@ =~= old(self)@.remove(key@));
                None
            },
        }
    }

    /// Lets a value wait under a key; it takes the place of one that waited there.
    pub fn insert(&mut self, key: String, value: T)
        requires
            old(self).wf(),
        ensures
            final(self).wf(),
            final(self)@ == old(self)@.insert(key@, value),
    {
        let _ = self.take(key.as_str());
        let ghost rest = self.entries@;
        proof {
            map_has_entries(rest, key@);
        }
        self.entries.push((key, value));
        assert(self.entries@.drop_last() =~= rest);
        assert(self@ =~= old(self)@.insert(key@, value));
        assert(keys_differ(self.entries@)) by {
            assert forall|i: int, j: int| 0 <= i < j < self.entries@.len() implies (
            #[trigger] self.entries@[i]).0@ != (#[trigger] self.entries@[j]).0@ by {
                assert(self.entries@[i] == rest[i]);
                if j < rest.len() {
                    assert(self.entries@[j] == rest[j]);
                }
            }
        }
    }
}

// ---------------------------------------------------------------------------------------
// Allowed tools
// ---------------------------------------------------------------------------------------

/// The tools that the user has allowed for good, each for one conversation.
pub struct AllowedTools {
    pairs: Vec<(String, String)>,
}

impl View for AllowedTools {
    type V = Set<(Seq<char>, Seq<char>)>;

    closed spec fn view(&self) -> Set<(Seq<char>, Seq<char>)> {
        Set::new(
            |pair: (Seq<char>, Seq<char>)|
                exists|i: int|
                    0 <= i < self.pairs@.len() && (#[trigger] self.pairs@[i]).0@ == pair.0
                        && self.pairs@[i].1@ == pair.1,
        )
    }
}

impl AllowedTools {
    /// No tool is allowed.
    pub fn new() -> (allowed: AllowedTools)
        ensures
            allowed@ == Set::<(Seq<char>, Seq<char>)>::empty(),
    {
        let allowed = AllowedTools { pairs: Vec::new() };
        assert(allowed@ =~= Set::empty());
        allowed
    }

    /// Whether a tool is allowed for a conversation.
    pub fn allows(&self, conversation_id: &str, tool_name: &str) -> (yes: bool)
        ensures
            yes == self@.contains((conversation_id@, tool_name@)),
    {
        let mut i: usize = 0;
        while i < self.pairs.len()
            invariant
                i <= self.pairs.len(),
                forall|j: int|
                    0 <= j < i ==> !((#[trigger] self.pairs@[j]).0@ == conversation_id@
                        && self.pairs@[j].1@ == tool_name@),
            decreases self.pairs.len() - i,
        {
            let pair = &self.pairs[i];
            if same_text(pair.0.as_str(), conversation_id) && same_text(
                pair.1.as_str(),
                tool_name,
            ) {
                assert(self.pairs@[i as int].0@ == conversation_id@);
                return true;
            }
            i = i + 1;
        }
        false
    }

    /// Allows a tool for a conversation.
    pub fn allow(&mut self, conversation_id: String, tool_name: String)
        ensures
            final(self)@ == old(self)@.insert((conversation_id@, tool_name@)),
    {
        if self.allows(conversation_id.as_str(), tool_name.as_str()) {
            assert(self@ =~= old(self)@.insert((conversation_id@, tool_name@)));
            return;
        }
        let ghost before = self.pairs@;
        self.pairs.push((conversation_id, tool_name));
        assert forall|pair: (Seq<char>, Seq<char>)|
            self@.contains(pair) == old(self)@.insert(
                (conversation_id@, tool_name@),
            ).contains(pair) by {
            if old(self)@.contains(pair) {
                let i = choose|i: int|
                    0 <= i < before.len() && (#[trigger] before[i]).0@ == pair.0
                        && before[i].1@ == pair.1;
                assert(self.pairs@[i] == before[i]);
            }
            if pair == (conversation_id@, tool_name@) {
                assert(self.pairs@[before.len() as int].0@ == pair.0);
            }
            if self@.contains(pair) {
                let i = choose|i: int|
                    0 <= i < self.pairs@.len() && (#[trigger] self.pairs@[i]).0@ == pair.0
                        && self.pairs@[i].1@ == pair.1;
                if i < before.len() {
                    assert(before[i] == self.pairs@[i]);
                }
            }
        }
        assert(self@ =~= old(self)@.insert((conversation_id@, tool_name@)));
    }
}

/// The end of a run that is not there changes nothing.
pub proof fn an_unknown_end_changes_nothing(
    runs: Map<Seq<char>, Seq<char>>,
    conversation_id: Seq<char>,
    run_id: Seq<char>,
)
    requires
        !runs.contains_key(conversation_id) || runs[conversation_id] != run_id,
    ensures
        after_end(runs, conversation_id, run_id) == runs,
{
}

} // verus!
