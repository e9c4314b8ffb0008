//! What the runtime shows and stores of the JSON input of a tool call.
use vstd::prelude::*;
use vstd::string::*;
use vstd::utf8::*;

use crate::text::{first_chars, opt_view, same_text, take_chars};

verus! {

/// A JSON value of `serde_json`, carried through and read by the wrappers below.
#[verifier::external_type_specification]
#[verifier::external_body]
pub struct ExValue(serde_json::Value);

/// Calls the `Clone` impl of `serde_json::Value`, which copies the whole value.
pub assume_specification[ <serde_json::Value as Clone>::clone ](
    value: &serde_json::Value,
) -> (copy: serde_json::Value)
    ensures
        copy == *value,
;

/// The fields of a JSON object in the order of its map, each with its key and, where the
/// field holds a string, that string; no fields where the value is not an object.
pub uninterp spec fn json_fields(value: serde_json::Value) -> Seq<
    (Seq<char>, Option<Seq<char>>),
>;

/// The compact JSON text of a value, where it can be written.
pub uninterp spec fn json_text(value: serde_json::Value) -> Option<Seq<char>>;

/// One field of a JSON object: its key and, where it holds a string, that string.
pub type Field = (String, Option<String>);

/// The fields as keys and strings.
pub open spec fn field_views(fields: Seq<Field>) -> Seq<(Seq<char>, Option<Seq<char>>)> {
    Seq::new(fields.len(), |i: int| (fields[i].0@, opt_view(fields[i].1)))
}

/// Whether no key occurs twice.
pub open spec fn distinct_keys(fields: Seq<(Seq<char>, Option<Seq<char>>)>) -> bool {
    forall|i: int, j: int| 0 <= i < j < fields.len() ==> fields[i].0 != fields[j].0
}

/// Calls `serde_json::Value::as_object` and hands out the entries of the map, each string
/// value through `as_str`. A map holds each key once.
#[verifier::external_body]
fn object_fields(value: &serde_json::Value) -> (fields: Vec<Field>)
    ensures
        field_views(fields@) == json_fields(*value),
        distinct_keys(field_views(fields@)),
{
    match value.as_object() {
        Some(map) => map.iter().map(|(k, v)| (k.clone(), v.as_str().map(str::to_owned))).collect(),
        None => Vec::new(),
    }
}

/// Calls `serde_json::to_string` on a JSON value; `None` stands for its error. The text
/// depends on the value alone.
#[verifier::external_body]
fn json_string(value: &serde_json::Value) -> (text: Option<String>)
    ensures
        opt_view(text) == json_text(*value),
{
    serde_json::to_string(value).ok()
}

/// The string under a key, where the key is there and holds a string.
pub open spec fn field_text(fields: Seq<(Seq<char>, Option<Seq<char>>)>, key: Seq<char>) -> Option<
    Seq<char>,
>
    decreases fields.len(),
{
    if fields.len() == 0 {
        None
    } else if fields[0].0 == key {
        fields[0].1
    } else {
        field_text(fields.drop_first(), key)
    }
}

/// The first string among the fields.
pub open spec fn first_text(fields: Seq<(Seq<char>, Option<Seq<char>>)>) -> Option<Seq<char>>
    decreases fields.len(),
{
    if fields.len() == 0 {
        None
    } else if fields[0].1 is Some {
        fields[0].1
    } else {
        first_text(fields.drop_first())
    }
}

/// The one-line summary of a tool call: its command, path, pattern, query or content,
/// whichever comes first in this order, else its first string, else the tool's name. All
/// but a path are cut to a fixed number of characters.
pub open spec fn input_summary(
    tool_name: Seq<char>,
    fields: Seq<(Seq<char>, Option<Seq<char>>)>,
) -> Seq<char> {
    if field_text(fields, "command"@) is Some {
        first_chars(field_text(fields, "command"@)->0, 80)
    } else if field_text(fields, "path"@) is Some {
        field_text(fields, "path"@)->0
    } else if field_text(fields, "file_path"@) is Some {
        field_text(fields, "file_path"@)->0
    } else if field_text(fields, "pattern"@) is Some {
        first_chars(field_text(fields, "pattern"@)->0, 80)
    } else if field_text(fields, "query"@) is Some {
        first_chars(field_text(fields, "query"@)->0, 80)
    } else if field_text(fields, "content"@) is Some {
        first_chars(field_text(fields, "content"@)->0, 60)
    } else if first_text(fields) is Some {
        first_chars(first_text(fields)->0, 80)
    } else {
        tool_name
    }
}

/// Looks up the string under a key.
pub fn find_text<'a>(fields: &'a Vec<Field>, key: &str) -> (found: Option<&'a String>)
    ensures
        opt_view(found) == field_text(field_views(fields@), key@),
{
    let mut i: usize = 0;
    let ghost all = field_views(fields@);
    assert(all.skip(0) =~= all);
    while i < fields.len()
        invariant
            i <= fields.len(),
            all == field_views(fields@),
            field_text(all, key@) == field_text(all.skip(i as int), key@),
        decreases fields.len() - i,
    {
        assert(all.skip(i as int)[0] == all[i as int]);
        if same_text(fields[i].0.as_str(), key) {
            return fields[i].1.as_ref();
        }
        assert(all.skip(i as int).drop_first() =~= all.skip(i + 1));
        i = i + 1;
    }
    None
}

/// Finds the first field that holds a string.
fn find_first_text<'a>(fields: &'a Vec<Field>) -> (found: Option<&'a String>)
    ensures
        opt_view(found) == first_text(field_views(fields@)),
{
    let mut i: usize = 0;
    let ghost all = field_views(fields@);
    assert(all.skip(0) =~= all);
    while i < fields.len()
        invariant
            i <= fields.len(),
            all == field_views(fields@),
            first_text(all) == first_text(all.skip(i as int)),
        decreases fields.len() - i,
    {
        assert(all.skip(i as int)[0] == all[i as int]);
        if fields[i].1.is_some() {
            return fields[i].1.as_ref();
        }
        assert(all.skip(i as int).drop_first() =~= all.skip(i + 1));
        i = i + 1;
    }
    None
}

/// Summarises a tool call from the fields of its input.
pub fn summarize_fields(tool_name: &str, fields: &Vec<Field>) -> (summary: String)
    ensures
        summary@ == input_summary(tool_name@, field_views(fields@)),
{
    if let Some(command) = find_text(fields, "command") {
        return take_chars(command.as_str(), 80);
    }
    if let Some(path) = find_text(fields, "path") {
        return path.clone();
    }
    if let Some(path) = find_text(fields, "file_path") {
        return path.clone();
    }
    if let Some(pattern) = find_text(fields, "pattern") {
        return take_chars(pattern.as_str(), 80);
    }
    if let Some(query) = find_text(fields, "query") {
        return take_chars(query.as_str(), 80);
    }
    if let Some(content) = find_text(fields, "content") {
        return take_chars(content.as_str(), 60);
    }
    if let Some(text) = find_first_text(fields) {
        return take_chars(text.as_str(), 80);
    }
    tool_name.to_owned()
}

/// Extracts a short human-readable summary from the JSON input of a tool call.
pub fn get_tool_input_summary(tool_name: &str, input: &serde_json::Value) -> (summary: String)
    ensures
        summary@ == input_summary(tool_name@, json_fields(*input)),
{
    let fields = object_fields(input);
    summarize_fields(tool_name, &fields)
}

/// The string under a key of a JSON object.
pub fn json_field_text(value: &serde_json::Value, key: &str) -> (text: Option<String>)
    ensures
        opt_view(text) == field_text(json_fields(*value), key@),
{
    let fields = object_fields(value);
    match find_text(&fields, key) {
        Some(text) => Some(text.clone()),
        None => None,
    }
}

/// The greatest number of characters from the start of a text that have room in a number of
/// bytes.
pub open spec fn room_for(text: Seq<char>, max_len: nat) -> nat
    decreases text.len(),
{
    if encode_utf8(text).len() <= max_len {
        text.len()
    } else {
        room_for(text.drop_last(), max_len)
    }
}

/// A text cut to at most a number of bytes, with an ellipsis where something was cut off. No
/// character is cut in two.
pub open spec fn preview(text: Seq<char>, max_len: nat) -> Seq<char> {
    if encode_utf8(text).len() <= max_len {
        text
    } else {
        text.take(room_for(text, max_len) as int) + "…"@
    }
}

proof fn encoding_of_parts(first: Seq<char>, rest: Seq<char>)
    ensures
        encode_utf8(first + rest) == encode_utf8(first) + encode_utf8(rest),
    decreases first.len(),
{
    if first.len() == 0 {
        assert(first + rest =~= rest);
        assert(encode_utf8(first) + encode_utf8(rest) =~= encode_utf8(rest));
    } else {
        assert((first + rest).drop_first() =~= first.drop_first() + rest);
        encoding_of_parts(first.drop_first(), rest);
        assert(encode_utf8(first + rest) =~= encode_utf8(first) + encode_utf8(rest));
    }
}

proof fn longer_texts_need_more_bytes(text: Seq<char>, few: int, more: int)
    requires
        0 <= few <= more <= text.len(),
    ensures
        encode_utf8(text.take(few)).len() <= encode_utf8(text.take(more)).len(),
{
    assert(text.take(more) =~= text.take(few) + text.subrange(few, more));
    encoding_of_parts(text.take(few), text.subrange(few, more));
}

proof fn characters_end_at_boundaries(text: Seq<char>, count: int)
    requires
        0 <= count <= text.len(),
    ensures
        is_char_boundary(encode_utf8(text), encode_utf8(text.take(count)).len() as int),
    decreases count,
{
    let bytes = encode_utf8(text);
    encode_utf8_valid_utf8(text);
    if count > 0 {
        let rest = text.drop_first();
        characters_end_at_boundaries(rest, count - 1);
        encode_utf8_first_scalar(text);
        assert(text.take(count).drop_first() =~= rest.take(count - 1));
        assert(pop_first_scalar(bytes) =~= encode_utf8(rest));
        longer_texts_need_more_bytes(text, count, text.len() as int);
        assert(text.take(text.len() as int) =~= text);
    }
}

proof fn room_is_known(text: Seq<char>, max_len: nat, count: int)
    requires
        0 <= count <= text.len(),
        encode_utf8(text.take(count)).len() <= max_len,
        count < text.len() ==> encode_utf8(text.take(count + 1)).len() > max_len,
    ensures
        room_for(text, max_len) == count,
    decreases text.len(),
{
    assert(text.take(text.len() as int) =~= text);
    if count < text.len() {
        longer_texts_need_more_bytes(text, count + 1, text.len() as int);
        let before = text.drop_last();
        assert(before.take(count) =~= text.take(count));
        if count < before.len() {
            assert(before.take(count + 1) =~= text.take(count + 1));
        }
        room_is_known(before, max_len, count);
    }
}

/// Truncates a string to a maximum byte length for stored previews. The cut falls between two
/// characters, as late as the length allows.
pub fn truncate_preview(s: &str, max_len: usize) -> (result: String)
    ensures
        result@ == preview(s@, max_len as nat),
{
    let total: usize = s.as_bytes().len();
    if total <= max_len {
        return s.to_owned();
    }
    let ghost bytes = encode_utf8(s@);
    proof {
        encode_utf8_valid_utf8(s@);
        encode_utf8_decode_utf8(s@);
    }
    let mut end: usize = max_len;
    while !s.is_char_boundary(end)
        invariant
            bytes == encode_utf8(s@),
            valid_utf8(bytes),
            end <= max_len,
            forall|k: int| end < k <= max_len ==> !is_char_boundary(bytes, k),
        ensures
            end <= max_len,
            is_char_boundary(bytes, end as int),
            forall|k: int| end < k <= max_len ==> !is_char_boundary(bytes, k),
        decreases end,
    {
        end = end - 1;
    }
    let (head, _) = s.split_at(end);
    proof {
        encode_utf8_decode_utf8(head@);
        valid_utf8_split(bytes, end as int);
        decode_utf8_split(bytes, end as int);
        let cut = head@.len() as int;
        assert(s@.take(cut) =~= head@);
        assert(s@.take(s@.len() as int) =~= s@);
        assert(cut < s@.len());
        characters_end_at_boundaries(s@, cut + 1);
        assert(encode_utf8(s@.take(cut + 1)).len() > end) by {
            assert(s@.take(cut + 1) =~= s@.take(cut) + seq![s@[cut]]);
            encoding_of_parts(s@.take(cut), seq![s@[cut]]);
            assert(encode_utf8(seq![s@[cut]]).len() > 0);
        }
        room_is_known(s@, max_len as nat, cut);
    }
    let mut result = head.to_owned();
    result.append("…");
    result
}

/// The text that a tool call's input is stored under: its JSON text, empty where it has none.
pub open spec fn stored_input(input: serde_json::Value) -> Seq<char> {
    match json_text(input) {
        Some(text) => text,
        None => Seq::empty(),
    }
}

/// The stored preview of a tool call's input.
pub fn input_preview(input: &serde_json::Value, max_len: usize) -> (result: String)
    ensures
        result@ == preview(stored_input(*input), max_len as nat),
{
    let text = match json_string(input) {
        Some(text) => text,
        None => String::new(),
    };
    truncate_preview(text.as_str(), max_len)
}

/// A preview is the whole text where that has room; else it is a prefix that has room,
/// followed by an ellipsis, and no longer prefix has room.
pub proof fn preview_shows_as_much_as_has_room(text: Seq<char>, max_len: nat)
    ensures
        encode_utf8(text).len() <= max_len ==> preview(text, max_len) == text,
        encode_utf8(text).len() > max_len ==> {
            let cut = room_for(text, max_len) as int;
            &&& 0 <= cut < text.len()
            &&& preview(text, max_len) == text.take(cut) + "…"@
            &&& encode_utf8(text.take(cut)).len() <= max_len
            &&& forall|n: int|
                cut < n <= text.len() ==> #[trigger] encode_utf8(text.take(n)).len() > max_len
        },
    decreases text.len(),
{
    assert(text.take(text.len() as int) =~= text);
    if encode_utf8(text).len() > max_len {
        let before = text.drop_last();
        preview_shows_as_much_as_has_room(before, max_len);
        let cut = room_for(text, max_len) as int;
        assert(cut == room_for(before, max_len));
        assert(before.take(before.len() as int) =~= before);
        assert(before.take(cut) =~= text.take(cut));
        assert forall|n: int| cut < n <= text.len() implies #[trigger] encode_utf8(
            text.take(n),
        ).len() > max_len by {
            if n < text.len() {
                assert(text.take(n) =~= before.take(n));
            }
        }
    }
}

/// With no key twice, a lookup finds the string of every field that holds one.
pub proof fn lookup_finds_each_field(fields: Seq<(Seq<char>, Option<Seq<char>>)>, at: int)
    requires
        distinct_keys(fields),
        0 <= at < fields.len(),
    ensures
        field_text(fields, fields[at].0) == fields[at].1,
    decreases fields.len(),
{
    if at > 0 {
        let rest = fields.drop_first();
        assert(distinct_keys(rest)) by {
            assert forall|i: int, j: int|
                0 <= i < j < rest.len() implies rest[i].0 != rest[j].0 by {
                assert(rest[i] == fields[i + 1] && rest[j] == fields[j + 1]);
            }
        }
        assert(fields[0].0 != fields[at].0);
        assert(rest[at - 1] == fields[at]);
        lookup_finds_each_field(rest, at - 1);
    }
}

/// The key of an input that says what a tool call is about, by its rank.
pub open spec fn telling_key(rank: int) -> Seq<char> {
    if rank == 0 {
        "command"@
    } else if rank == 1 {
        "path"@
    } else if rank == 2 {
        "file_path"@
    } else if rank == 3 {
        "pattern"@
    } else if rank == 4 {
        "query"@
    } else {
        "content"@
    }
}

/// Whether a string stands under a key.
pub open spec fn has_text(
    fields: Seq<(Seq<char>, Option<Seq<char>>)>,
    key: Seq<char>,
    text: Seq<char>,
) -> bool {
    exists|i: int| 0 <= i < fields.len() && #[trigger] fields[i] == (key, Some(text))
}

/// Whether no string stands under a key.
pub open spec fn has_no_text(fields: Seq<(Seq<char>, Option<Seq<char>>)>, key: Seq<char>) -> bool {
    forall|i: int| 0 <= i < fields.len() && (#[trigger] fields[i]).0 == key ==> fields[i].1 is None
}

/// The beginning of a text with at most some characters.
pub open spec fn beginning(text: Seq<char>, count: int) -> Seq<char> {
    text.take(
        if text.len() < count {
            text.len() as int
        } else {
            count
        },
    )
}

proof fn lookup_finds_nothing_else(fields: Seq<(Seq<char>, Option<Seq<char>>)>, key: Seq<char>)
    requires
        has_no_text(fields, key),
    ensures
        field_text(fields, key) is None,
    decreases fields.len(),
{
    if fields.len() > 0 {
        assert(fields[0].0 == key ==> fields[0].1 is None);
        let rest = fields.drop_first();
        assert forall|i: int| 0 <= i < rest.len() && (#[trigger] rest[i]).0 == key implies rest[i].1
            is None by {
            assert(fields[i + 1].0 == key ==> fields[i + 1].1 is None);
        }
        lookup_finds_nothing_else(rest, key);
    }
}

/// With no key twice, a lookup gives the string under its key, and none where there is none.
pub proof fn lookup_gives_what_is_there(
    fields: Seq<(Seq<char>, Option<Seq<char>>)>,
    key: Seq<char>,
    text: Seq<char>,
)
    requires
        distinct_keys(fields),
    ensures
        field_text(fields, key) == Some(text) <==> has_text(fields, key, text),
        field_text(fields, key) is None <==> has_no_text(fields, key),
{
    if has_no_text(fields, key) {
        lookup_finds_nothing_else(fields, key);
        if has_text(fields, key, text) {
            let i = choose|i: int|
                0 <= i < fields.len() && #[trigger] fields[i] == (key, Some(text));
            assert(fields[i].0 == key);
        }
    } else {
        let i = choose|i: int|
            0 <= i < fields.len() && (#[trigger] fields[i]).0 == key && !(fields[i].1 is None);
        lookup_finds_each_field(fields, i);
        if has_text(fields, key, text) {
            let j = choose|j: int|
                0 <= j < fields.len() && #[trigger] fields[j] == (key, Some(text));
            lookup_finds_each_field(fields, j);
        }
        if field_text(fields, key) == Some(text) {
            assert(fields[i] == (key, Some(text)));
        }
    }
}

/// A call is summed up by the telling field of the lowest rank that holds a string: a path in
/// full, content by its first 60 characters, anything else by its first 80.
pub proof fn a_call_is_summed_up_by_its_telling_field(
    tool_name: Seq<char>,
    fields: Seq<(Seq<char>, Option<Seq<char>>)>,
    rank: int,
    text: Seq<char>,
)
    requires
        distinct_keys(fields),
        0 <= rank < 6,
        has_text(fields, telling_key(rank), text),
        forall|r: int| 0 <= r < rank ==> has_no_text(fields, #[trigger] telling_key(r)),
    ensures
        input_summary(tool_name, fields) == if rank == 1 || rank == 2 {
            text
        } else if rank == 5 {
            beginning(text, 60)
        } else {
            beginning(text, 80)
        },
{
    lookup_gives_what_is_there(fields, telling_key(rank), text);
    assert forall|r: int| 0 <= r < rank implies field_text(fields, #[trigger] telling_key(r))
        is None by {
        lookup_finds_nothing_else(fields, telling_key(r));
    }
    assert(text.take(text.len() as int) =~= text);
    assert(rank > 0 ==> field_text(fields, telling_key(0)) is None);
    assert(rank > 1 ==> field_text(fields, telling_key(1)) is None);
    assert(rank > 2 ==> field_text(fields, telling_key(2)) is None);
    assert(rank > 3 ==> field_text(fields, telling_key(3)) is None);
    assert(rank > 4 ==> field_text(fields, telling_key(4)) is None);
}

proof fn first_string(fields: Seq<(Seq<char>, Option<Seq<char>>)>, at: int)
    requires
        0 <= at <= fields.len(),
        forall|i: int| 0 <= i < at ==> (#[trigger] fields[i]).1 is None,
        at < fields.len() ==> fields[at].1 is Some,
    ensures
        first_text(fields) == if at < fields.len() {
            fields[at].1
        } else {
            None
        },
    decreases at,
{
    if at > 0 {
        let rest = fields.drop_first();
        assert(fields[0].1 is None);
        assert forall|i: int| 0 <= i < at - 1 implies (#[trigger] rest[i]).1 is None by {
            assert(fields[i + 1].1 is None);
        }
        first_string(rest, at - 1);
    }
}

/// A call without a telling field is summed up by the first 80 characters of its first string,
/// and one without any string by its tool's name.
pub proof fn another_call_is_summed_up_by_its_first_string(
    tool_name: Seq<char>,
    fields: Seq<(Seq<char>, Option<Seq<char>>)>,
    at: int,
)
    requires
        distinct_keys(fields),
        forall|r: int| 0 <= r < 6 ==> has_no_text(fields, #[trigger] telling_key(r)),
        0 <= at <= fields.len(),
        forall|i: int| 0 <= i < at ==> (#[trigger] fields[i]).1 is None,
        at < fields.len() ==> fields[at].1 is Some,
    ensures
        input_summary(tool_name, fields) == if at < fields.len() {
            beginning(fields[at].1->0, 80)
        } else {
            tool_name
        },
{
    assert forall|r: int| 0 <= r < 6 implies field_text(fields, #[trigger] telling_key(r))
        is None by {
        lookup_finds_nothing_else(fields, telling_key(r));
    }
    assert(field_text(fields, telling_key(0)) is None);
    assert(field_text(fields, telling_key(1)) is None);
    assert(field_text(fields, telling_key(2)) is None);
    assert(field_text(fields, telling_key(3)) is None);
    assert(field_text(fields, telling_key(4)) is None);
    assert(field_text(fields, telling_key(5)) is None);
    first_string(fields, at);
    if at < fields.len() {
        let text = fields[at].1->0;
        assert(text.take(text.len() as int) =~= text);
    }
}

/// An input is stored as its JSON text, and as nothing where it has none.
pub proof fn an_input_is_stored_as_its_text(input: serde_json::Value, text: Seq<char>)
    ensures
        json_text(input) == Some(text) ==> stored_input(input) == text,
        json_text(input) is None ==> stored_input(input).len() == 0,
{
}

} // verus!
