//! The JSON document that a backup in JSON format consists of.
use vstd::prelude::*;
use vstd::string::*;

use crate::backup::{gateway_error, BackupError, BackupErrorView};
use crate::time::{in_calendar, rfc3339_text, to_rfc3339, Moment};

verus! {

/// The JSON string with the given characters.
pub uninterp spec fn string_value(text: Seq<char>) -> serde_json::Value;

/// Makes a `serde_json::Value::String`. The value depends on the characters alone.
#[verifier::external_body]
fn json_string_of(text: String) -> (value: serde_json::Value)
    ensures
        value == string_value(text@),
{
    serde_json::Value::String(text)
}

/// The JSON object with the given members.
pub uninterp spec fn object_value(
    members: Seq<(Seq<char>, serde_json::Value)>,
) -> serde_json::Value;

/// Members of a JSON object, their keys as sequences of characters.
pub open spec fn member_views(members: Seq<(String, serde_json::Value)>) -> Seq<
    (Seq<char>, serde_json::Value),
> {
    Seq::new(members.len(), |i: int| (members[i].0@, members[i].1))
}

/// Collects members into a `serde_json::Map` and makes a `serde_json::Value::Object` of it. The
/// value depends on the members alone.
#[verifier::external_body]
fn json_object_of(members: Vec<(String, serde_json::Value)>) -> (value: serde_json::Value)
    ensures
        value == object_value(member_views(members@)),
{
    serde_json::Value::Object(members.into_iter().collect())
}

/// The indented JSON text of a value, or the error that writing it gives.
pub uninterp spec fn pretty_text(value: serde_json::Value) -> Result<Seq<char>, Seq<char>>;

/// Calls `serde_json::to_string_pretty` on a JSON value; an error comes as its text. The
/// result depends on the value alone.
#[verifier::external_body]
fn json_pretty(value: &serde_json::Value) -> (result: Result<String, String>)
    ensures
        match result {
            Ok(text) => pretty_text(*value) == Ok::<Seq<char>, Seq<char>>(text@),
            Err(error) => pretty_text(*value) == Err::<Seq<char>, Seq<char>>(error@),
        },
{
    serde_json::to_string_pretty(value).map_err(|e| e.to_string())
}

/// How many tables a backup exports.
pub const TABLE_COUNT: usize = 7;

/// The name of a table, in the order in which the tables are read.
pub open spec fn table_name(index: int) -> Seq<char> {
    if index == 0 {
        "conversations"@
    } else if index == 1 {
        "messages"@
    } else if index == 2 {
        "providers"@
    } else if index == 3 {
        "provider_keys"@
    } else if index == 4 {
        "models"@
    } else if index == 5 {
        "settings"@
    } else {
        "gateway_keys"@
    }
}

/// Names a table, in the order in which the tables are read.
pub fn export_table(index: usize) -> (name: &'static str)
    ensures
        name@ == table_name(index as int),
{
    match index {
        0 => "conversations",
        1 => "messages",
        2 => "providers",
        3 => "provider_keys",
        4 => "models",
        5 => "settings",
        _ => "gateway_keys",
    }
}

/// The members of the object of tables.
pub open spec fn table_members(tables: Seq<serde_json::Value>) -> Seq<
    (Seq<char>, serde_json::Value),
> {
    Seq::new(tables.len(), |i: int| (table_name(i), tables[i]))
}

/// The exported document: the version of the application, the time, and the tables by name.
pub open spec fn document_value(
    version: Seq<char>,
    exported_at: Moment,
    tables: Seq<serde_json::Value>,
) -> serde_json::Value {
    object_value(
        seq![
            ("version"@, string_value(version)),
            ("exported_at"@, string_value(rfc3339_text(exported_at))),
            ("tables"@, object_value(table_members(tables))),
        ],
    )
}

/// The text of the exported document, or why it could not be written.
pub open spec fn document_text(
    version: Seq<char>,
    exported_at: Moment,
    tables: Seq<serde_json::Value>,
) -> Result<Seq<char>, BackupErrorView> {
    match pretty_text(document_value(version, exported_at, tables)) {
        Ok(text) => Ok(text),
        Err(error) => Err(BackupErrorView::Gateway("JSON serialization failed: "@ + error)),
    }
}

/// What writing a document came to: its text, or the error that the user sees.
pub fn written_document(written: Result<String, String>) -> (result: Result<String, BackupError>)
    ensures
        match written {
            Ok(text) => result matches Ok(shown) && shown@ == text@,
            Err(error) => result matches Err(shown) && shown@ == BackupErrorView::Gateway(
                "JSON serialization failed: "@ + error@,
            ),
        },
{
    match written {
        Ok(text) => Ok(text),
        Err(error) => Err(gateway_error("JSON serialization failed: ", error.as_str())),
    }
}

/// Writes the exported document.
pub fn export_document(
    version: String,
    exported_at: Moment,
    tables: Vec<serde_json::Value>,
) -> (result: Result<String, BackupError>)
    requires
        in_calendar(exported_at),
    ensures
        match result {
            Ok(text) => document_text(version@, exported_at, tables@) == Ok::<
                Seq<char>,
                BackupErrorView,
            >(text@),
            Err(error) => document_text(version@, exported_at, tables@) == Err::<
                Seq<char>,
                BackupErrorView,
            >(error@),
        },
{
    let ghost all = tables@;
    let mut by_name: Vec<(String, serde_json::Value)> = Vec::new();
    let count: usize = tables.len();
    let mut index: usize = 0;
    for table in it: tables.into_iter()
        invariant
            it.seq() == tables@,
            all == tables@,
            all.len() == count,
            index == it.index(),
            member_views(by_name@) =~= table_members(all).take(it.index()),
    {
        let ghost done = member_views(by_name@);
        let name = export_table(index).to_owned();
        by_name.push((name, table));
        assert(member_views(by_name@) =~= done.push((name@, table)));
        assert(table_members(all)[index as int] == (name@, table));
        index = index + 1;
    }
    assert(table_members(all).take(all.len() as int) =~= table_members(all));
    let mut members: Vec<(String, serde_json::Value)> = Vec::new();
    members.push(("version".to_owned(), json_string_of(version)));
    members.push(("exported_at".to_owned(), json_string_of(to_rfc3339(exported_at))));
    members.push(("tables".to_owned(), json_object_of(by_name)));
    assert(member_views(members@) =~= seq![
        ("version"@, string_value(version@)),
        ("exported_at"@, string_value(rfc3339_text(exported_at))),
        ("tables"@, object_value(table_members(all))),
    ]);
    let document = json_object_of(members);
    written_document(json_pretty(&document))
}

/// No two tables have the same name.
pub proof fn table_names_differ(i: int, j: int)
    requires
        0 <= i < j < TABLE_COUNT,
    ensures
        table_name(i) != table_name(j),
{
    reveal_strlit("conversations");
    reveal_strlit("messages");
    reveal_strlit("providers");
    reveal_strlit("provider_keys");
    reveal_strlit("models");
    reveal_strlit("settings");
    reveal_strlit("gateway_keys");
    assert("conversations"@.len() == 13);
    assert("messages"@.len() == 8);
    assert("providers"@.len() == 9);
    assert("provider_keys"@.len() == 13);
    assert("models"@.len() == 6);
    assert("settings"@.len() == 8);
    assert("gateway_keys"@.len() == 12);
    assert("conversations"@[0] == 'c' && "provider_keys"@[0] == 'p');
    assert("messages"@[0] == 'm' && "settings"@[0] == 's');
}

} // verus!
