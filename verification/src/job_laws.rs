//! The course of every making of a backup: what is asked for after what, and for which reasons
//! there is no backup in the end.
use vstd::prelude::*;

use crate::backup::{
    the_statement_quotes_the_destination, unquoted, BackupErrorView, ManifestView, RecordView,
};
use crate::backup_job::{
    job_step, recorded_size, JobActionView, JobInputView, JobPhaseView, JobView,
};
use crate::backup_laws::with_action;
use crate::export::{object_value, pretty_text, string_value, table_members, TABLE_COUNT};
use crate::export_laws::{answers_are_kept, export_run, got_answer, tells_more, BackupCall};
use crate::location::LocationView;
use crate::time::{formatted_time, rfc3339_text, Moment};

verus! {

/// Whether an error is a reason why a backup was not made: the answer to an action says so.
pub open spec fn is_reason<B>(
    asked: JobActionView<B>,
    answer: JobInputView,
    error: BackupErrorView,
) -> bool {
    match (asked, answer) {
        (JobActionView::EnsureDirectory(_), JobInputView::DirectoryEnsured(Some(why))) => error
            == BackupErrorView::Gateway("Failed to create backup directory: "@ + why),
        (JobActionView::RemoveFile, JobInputView::FileRemoved(Some(why))) => error
            == BackupErrorView::Gateway("Failed to remove existing backup file: "@ + why),
        (JobActionView::ExecuteStatement { .. }, JobInputView::StatementExecuted(Some(why))) =>
            error == BackupErrorView::Gateway("VACUUM INTO failed: "@ + why),
        (JobActionView::LoadTable { .. }, JobInputView::TableLoaded(Err(why))) => error
            == BackupErrorView::Database(why),
        (JobActionView::WriteFile { .. }, JobInputView::FileWritten(Some(why))) => error
            == BackupErrorView::Gateway("Failed to write backup file: "@ + why),
        (JobActionView::InspectFile, JobInputView::FileInspected { data: Err(why), .. }) => error
            == BackupErrorView::Gateway("Failed to read file for checksum: "@ + why),
        (JobActionView::InsertRecord(_), JobInputView::RecordInserted(Some(why))) => error
            == BackupErrorView::Database(why),
        (JobActionView::LoadRecord { id }, JobInputView::RecordLoaded(Ok(None))) => error
            == BackupErrorView::NotFound("BackupManifest "@ + id),
        (JobActionView::LoadRecord { .. }, JobInputView::RecordLoaded(Err(why))) => error
            == BackupErrorView::Database(why),
        _ => false,
    }
}

/// Whether a document of some tables could not be written as text, and why.
pub open spec fn is_unwritten(
    app_version: Seq<char>,
    moment: Moment,
    members: Seq<(Seq<char>, serde_json::Value)>,
    error: BackupErrorView,
) -> bool {
    pretty_text(
        object_value(
            seq![
                ("version"@, string_value(app_version)),
                ("exported_at"@, string_value(rfc3339_text(moment))),
                ("tables"@, object_value(members)),
            ],
        ),
    ) matches Err(why) && error == BackupErrorView::Gateway("JSON serialization failed: "@ + why)
}

/// The table that is loaded after another one; none after the last.
pub open spec fn table_after(name: Seq<char>) -> Option<Seq<char>> {
    if name == "conversations"@ {
        Some("messages"@)
    } else if name == "messages"@ {
        Some("providers"@)
    } else if name == "providers"@ {
        Some("provider_keys"@)
    } else if name == "provider_keys"@ {
        Some("models"@)
    } else if name == "models"@ {
        Some("settings"@)
    } else if name == "settings"@ {
        Some("gateway_keys"@)
    } else {
        None
    }
}

/// The place of the file of a backup: in the directory of the backups, named after the local
/// time, with the ending of its format.
pub open spec fn place_of<B>(call: BackupCall<B>, local_secs: i64) -> LocationView<B> {
    LocationView::Below {
        base: call.backup_dir,
        steps: seq![
            "aqbot-backup-"@ + formatted_time(local_secs, "%Y%m%d_%H%M%S"@) + "."@ + if call.format
                == "sqlite"@ {
                "db"@
            } else {
                "json"@
            },
        ],
    }
}

/// Whether a manifest tells what a stored record holds.
pub open spec fn tells(manifest: ManifestView, record: RecordView) -> bool {
    &&& manifest.id == record.id
    &&& manifest.version == record.version
    &&& manifest.created_at == record.created_at
    &&& manifest.encrypted <==> record.encrypted != 0
    &&& manifest.checksum == record.checksum
    &&& manifest.object_counts_json == record.object_counts_json
    &&& manifest.source_app_version == record.source_app_version
    &&& manifest.file_path == record.file_path
    &&& manifest.file_size == record.file_size
}

/// Whether an action follows the answer to another one, where that is no reason to end. A copy
/// of the database needs a place without a file; an export reads one table after another.
pub open spec fn follows<B>(
    call: BackupCall<B>,
    asked: JobActionView<B>,
    answer: JobInputView,
    next: JobActionView<B>,
) -> bool {
    match (asked, answer) {
        (JobActionView::EnsureDirectory(_), JobInputView::DirectoryEnsured(None)) => next is Stamp,
        (JobActionView::Stamp, JobInputView::Stamped { local_secs, .. }) => next
            == JobActionView::Locate(place_of(call, local_secs)),
        (JobActionView::Locate(_), JobInputView::Located { .. }) => if call.format == "sqlite"@ {
            next is CheckFile
        } else {
            next == (JobActionView::<B>::LoadTable { name: "conversations"@ })
        },
        (JobActionView::CheckFile, JobInputView::FileChecked(true)) => next is RemoveFile,
        (JobActionView::CheckFile, JobInputView::FileChecked(false)) => next is ExecuteStatement,
        (JobActionView::RemoveFile, JobInputView::FileRemoved(None)) => next is ExecuteStatement,
        (JobActionView::ExecuteStatement { .. }, JobInputView::StatementExecuted(None)) => next
            is InspectFile,
        (JobActionView::LoadTable { name }, JobInputView::TableLoaded(Ok(_))) => match table_after(
            name,
        ) {
            Some(name) => next == (JobActionView::<B>::LoadTable { name }),
            None => next is ReadClock,
        },
        (JobActionView::WriteFile { .. }, JobInputView::FileWritten(None)) => next is InspectFile,
        (JobActionView::InspectFile, JobInputView::FileInspected { data: Ok(_), .. }) => next
            is CountObjects,
        (JobActionView::CountObjects, JobInputView::ObjectsCounted { .. }) => next is InsertRecord,
        (JobActionView::InsertRecord(record), JobInputView::RecordInserted(None)) => next == (
        JobActionView::<B>::LoadRecord { id: record.id }),
        (JobActionView::LoadRecord { .. }, JobInputView::RecordLoaded(Ok(Some(record)))) => next
            matches JobActionView::Finish(Ok(manifest)) && tells(manifest, record),
        _ => false,
    }
}

/// What the making of a backup waits for is what it has asked for last.
spec fn job_asks<B>(call: BackupCall<B>, s: JobView<B>, last: JobActionView<B>) -> bool {
    &&& s.backup_dir == call.backup_dir && s.format == call.format && s.app_version
        == call.app_version
    &&& match s.phase {
        JobPhaseView::EnsuringDirectory => last is EnsureDirectory,
        JobPhaseView::Stamping => last is Stamp,
        JobPhaseView::Locating => last is Locate,
        JobPhaseView::CheckingFile => last is CheckFile,
        JobPhaseView::RemovingFile => last is RemoveFile,
        JobPhaseView::Copying => last is ExecuteStatement,
        JobPhaseView::LoadingTables { tables } => {
            &&& tables.len() < 7
            &&& last matches JobActionView::LoadTable { name } && name == nth_table(
                tables.len() as int,
            )
        },
        JobPhaseView::ReadingClock { tables } => last is ReadClock && tables.len() == 7,
        JobPhaseView::WritingFile => last is WriteFile,
        JobPhaseView::InspectingFile => last is InspectFile,
        JobPhaseView::CountingObjects { .. } => last is CountObjects,
        JobPhaseView::InsertingRecord => last matches JobActionView::InsertRecord(record)
            && record.id == s.id,
        JobPhaseView::LoadingRecord => last == (JobActionView::<B>::LoadRecord { id: s.id }),
        JobPhaseView::Ended => last is Finish,
    }
}

/// The name of a table by the order of the loading.
spec fn nth_table(n: int) -> Seq<char> {
    if n == 0 {
        "conversations"@
    } else if n == 1 {
        "messages"@
    } else if n == 2 {
        "providers"@
    } else if n == 3 {
        "provider_keys"@
    } else if n == 4 {
        "models"@
    } else if n == 5 {
        "settings"@
    } else {
        "gateway_keys"@
    }
}

proof fn tables_come_in_order(n: int)
    requires
        0 <= n < 7,
    ensures
        table_after(nth_table(n)) == if n < 6 {
            Some(nth_table(n + 1))
        } else {
            None
        },
{
    reveal_strlit("conversations");
    reveal_strlit("messages");
    reveal_strlit("providers");
    reveal_strlit("provider_keys");
    reveal_strlit("models");
    reveal_strlit("settings");
    reveal_strlit("gateway_keys");
    assert("conversations"@.len() == 13 && "conversations"@[0] == 'c');
    assert("messages"@.len() == 8 && "messages"@[0] == 'm');
    assert("providers"@.len() == 9);
    assert("provider_keys"@.len() == 13 && "provider_keys"@[0] == 'p');
    assert("models"@.len() == 6);
    assert("settings"@.len() == 8 && "settings"@[0] == 's');
    assert("gateway_keys"@.len() == 12);
}

/// How one step of the making of a backup goes on.
spec fn step_follows<B>(
    call: BackupCall<B>,
    s: JobView<B>,
    last: JobActionView<B>,
    input: JobInputView,
    next: JobView<B>,
    more: Option<JobActionView<B>>,
) -> bool {
    &&& job_asks(
        call,
        next,
        match more {
            Some(action) => action,
            None => last,
        },
    )
    &&& if last is ReadClock && input is ClockRead {
        match more {
            Some(JobActionView::WriteFile { .. }) => true,
            Some(JobActionView::Finish(Err(error))) => {
                s.phase matches JobPhaseView::ReadingClock { tables } && is_unwritten(
                    call.app_version,
                    input->ClockRead_0,
                    table_members(tables),
                    error,
                )
            },
            _ => false,
        }
    } else {
        match more {
            Some(JobActionView::Finish(Err(error))) => is_reason(last, input, error),
            Some(action) => follows(call, last, input, action),
            None => {
                &&& next == s
                &&& forall|error: BackupErrorView| !#[trigger] is_reason(last, input, error)
                &&& forall|action: JobActionView<B>| !#[trigger] follows(call, last, input, action)
            },
        }
    }
}

proof fn each_step_follows<B>(
    call: BackupCall<B>,
    s: JobView<B>,
    last: JobActionView<B>,
    input: JobInputView,
)
    requires
        job_asks(call, s, last),
    ensures
        step_follows(call, s, last, input, job_step(s, input).0, job_step(s, input).1),
{
    if let JobPhaseView::LoadingTables { tables } = s.phase {
        tables_come_in_order(tables.len() as int);
    }
}

proof fn run_asks_in_turn<B>(call: BackupCall<B>, inputs: Seq<JobInputView>)
    ensures
        export_run(call, inputs).1.len() > 0,
        job_asks(call, export_run(call, inputs).0, export_run(call, inputs).1.last()),
    decreases inputs.len(),
{
    if inputs.len() > 0 {
        let before = inputs.drop_last();
        run_asks_in_turn(call, before);
        let (s, actions) = export_run(call, before);
        each_step_follows(call, s, actions.last(), inputs.last());
        let more = job_step(s, inputs.last()).1;
        assert(with_action(actions, more).last() == match more {
            Some(action) => action,
            None => actions.last(),
        });
    }
}

/// Every answer to the last action of the making of a backup is a reason to end it or is
/// followed by the next action, and every other answer is passed over. A document that cannot
/// be written as text is such a reason too.
pub proof fn a_backup_is_made_step_by_step<B>(
    call: BackupCall<B>,
    inputs: Seq<JobInputView>,
    answer: JobInputView,
)
    ensures
        ({
            let before = export_run(call, inputs).1;
            let after = export_run(call, inputs.push(answer)).1;
            let asked = before.last();
            &&& before.is_prefix_of(after)
            &&& after.len() <= before.len() + 1
            &&& if asked is ReadClock && answer is ClockRead {
                &&& after.len() == before.len() + 1
                &&& after.last() is WriteFile || (after.last() matches JobActionView::Finish(Err(_)))
            } else if after.len() > before.len() {
                match after.last() {
                    JobActionView::Finish(Err(error)) => is_reason(asked, answer, error),
                    action => follows(call, asked, answer, action),
                }
            } else {
                &&& forall|error: BackupErrorView| !#[trigger] is_reason(asked, answer, error)
                &&& forall|action: JobActionView<B>| !#[trigger]
                    follows(call, asked, answer, action)
            }
        }),
{
    run_asks_in_turn(call, inputs);
    let (s, before) = export_run(call, inputs);
    each_step_follows(call, s, before.last(), answer);
    assert(inputs.push(answer).drop_last() =~= inputs);
    let more = job_step(s, answer).1;
    let after = with_action(before, more);
    assert(before =~= after.subrange(0, before.len() as int));
}

/// Whether the file of a backup is at a path: the place that was made of the local time was
/// located there.
pub open spec fn file_is_at<B>(
    call: BackupCall<B>,
    inputs: Seq<JobInputView>,
    id: Seq<char>,
    local_secs: i64,
    path: Seq<char>,
) -> bool {
    &&& got_answer(call, inputs, JobActionView::Stamp, JobInputView::Stamped { id, local_secs })
    &&& got_answer(
        call,
        inputs,
        JobActionView::Locate(place_of(call, local_secs)),
        JobInputView::Located { path },
    )
}

/// What is known of the place of the file, given the last action.
spec fn place_known<B>(
    call: BackupCall<B>,
    inputs: Seq<JobInputView>,
    s: JobView<B>,
    last: JobActionView<B>,
    secs: i64,
) -> bool {
    match s.phase {
        JobPhaseView::EnsuringDirectory => true,
        JobPhaseView::Stamping => true,
        JobPhaseView::Locating => {
            &&& got_answer(
                call,
                inputs,
                JobActionView::Stamp,
                JobInputView::Stamped { id: s.id, local_secs: secs },
            )
            &&& last == JobActionView::Locate(place_of(call, secs))
        },
        JobPhaseView::Ended => true,
        JobPhaseView::Copying => {
            &&& file_is_at(call, inputs, s.id, secs, s.path)
            &&& last matches JobActionView::ExecuteStatement { statement } && copies_to(
                statement,
                s.path,
            )
        },
        JobPhaseView::InsertingRecord => {
            &&& file_is_at(call, inputs, s.id, secs, s.path)
            &&& last matches JobActionView::InsertRecord(record) && record.id == s.id
                && record.file_path == s.path
        },
        _ => file_is_at(call, inputs, s.id, secs, s.path),
    }
}

/// Whether a statement copies the database to a path, in quotes that stand for it.
pub open spec fn copies_to(statement: Seq<char>, path: Seq<char>) -> bool {
    exists|quoted: Seq<char>|
        statement == "VACUUM INTO '"@ + quoted + "'"@ && #[trigger] unquoted(quoted) == Some(path)
}

proof fn step_knows_place<B>(
    call: BackupCall<B>,
    inputs: Seq<JobInputView>,
    longer: Seq<JobInputView>,
    s: JobView<B>,
    last: JobActionView<B>,
    input: JobInputView,
    secs: i64,
) -> (now: i64)
    requires
        job_asks(call, s, last),
        place_known(call, inputs, s, last, secs),
        tells_more(call, inputs, longer),
        got_answer(call, longer, last, input),
    ensures
        ({
            let (next, more) = job_step(s, input);
            place_known(
                call,
                longer,
                next,
                match more {
                    Some(action) => action,
                    None => last,
                },
                now,
            )
        }),
{
    let quoted = the_statement_quotes_the_destination(s.path);
    assert(unquoted(quoted) == Some(s.path));
    match (s.phase, input) {
        (JobPhaseView::Stamping, JobInputView::Stamped { local_secs, .. }) => local_secs,
        _ => secs,
    }
}

proof fn run_knows_place<B>(call: BackupCall<B>, inputs: Seq<JobInputView>) -> (secs: i64)
    ensures
        place_known(
            call,
            inputs,
            export_run(call, inputs).0,
            export_run(call, inputs).1.last(),
            secs,
        ),
    decreases inputs.len(),
{
    if inputs.len() > 0 {
        let before = inputs.drop_last();
        let secs = run_knows_place(call, before);
        run_asks_in_turn(call, before);
        let (s, actions) = export_run(call, before);
        let more = job_step(s, inputs.last()).1;
        assert(before.push(inputs.last()) =~= inputs);
        answers_are_kept(call, before, inputs.last());
        assert(with_action(actions, more).last() == match more {
            Some(action) => action,
            None => actions.last(),
        });
        step_knows_place(call, before, inputs, s, actions.last(), inputs.last(), secs)
    } else {
        0
    }
}

/// The database is copied to the very file that is recorded afterwards: both the statement and
/// the record name the path where the file of the backup was located.
pub proof fn one_file_is_made_and_recorded<B>(call: BackupCall<B>, inputs: Seq<JobInputView>) -> (
    found: (Seq<char>, i64, Seq<char>))
    ensures
        ({
            let (id, secs, path) = found;
            let last = export_run(call, inputs).1.last();
            &&& last matches JobActionView::ExecuteStatement { statement } ==> {
                &&& file_is_at(call, inputs, id, secs, path)
                &&& copies_to(statement, path)
            }
            &&& last matches JobActionView::InsertRecord(record) ==> {
                &&& file_is_at(call, inputs, id, secs, path)
                &&& record.id == id
                &&& record.file_path == path
            }
        }),
{
    let secs = run_knows_place(call, inputs);
    run_asks_in_turn(call, inputs);
    let s = export_run(call, inputs).0;
    (s.id, secs, s.path)
}

/// The size of a file is recorded as it is, as far as it fits, and as zero where it is not
/// known.
pub proof fn a_size_is_recorded_as_it_is(size: u64)
    ensures
        recorded_size(None) == 0,
        size <= i64::MAX ==> recorded_size(Some(size)) == size,
        (recorded_size(Some(size)) - size) % 0x1_0000_0000_0000_0000 == 0,
        i64::MIN <= recorded_size(Some(size)) <= i64::MAX,
{
}

/// Each table of an exported document stands under its name, whatever it holds.
pub proof fn each_table_has_its_name(tables: Seq<serde_json::Value>)
    requires
        tables.len() == TABLE_COUNT,
    ensures
        table_members(tables) == seq![
            ("conversations"@, tables[0]),
            ("messages"@, tables[1]),
            ("providers"@, tables[2]),
            ("provider_keys"@, tables[3]),
            ("models"@, tables[4]),
            ("settings"@, tables[5]),
            ("gateway_keys"@, tables[6]),
        ],
{
}

} // verus!
