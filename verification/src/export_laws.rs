//! What stands in the file of every exported backup: the rows of each table under the name of
//! that table.
use vstd::prelude::*;

use crate::backup_job::{job_step, JobActionView, JobInputView, JobPhaseView, JobView};
use crate::backup_laws::{job_run, with_action};
use crate::export::{
    object_value, pretty_text, string_value, table_members, table_name, table_names_differ,
    TABLE_COUNT,
};
use crate::time::{rfc3339_text, Moment};

verus! {

/// What the making of a backup is begun with.
pub struct BackupCall<B> {
    pub backup_dir: B,
    pub format: Seq<char>,
    pub app_version: Seq<char>,
}

/// The state and all actions of the making of a backup after some answers.
pub open spec fn export_run<B>(call: BackupCall<B>, inputs: Seq<JobInputView>) -> (
    JobView<B>,
    Seq<JobActionView<B>>,
) {
    job_run(call.backup_dir, call.format, call.app_version, inputs)
}

/// Whether one of the answers was given to an action: the action was the last one before it.
#[verifier::opaque]
pub open spec fn got_answer<B>(
    call: BackupCall<B>,
    inputs: Seq<JobInputView>,
    action: JobActionView<B>,
    answer: JobInputView,
) -> bool {
    exists|k: int|
        0 <= k < inputs.len() && #[trigger] inputs[k] == answer && export_run(
            call,
            inputs.take(k),
        ).1.last() == action
}

/// Whether the loading of a table with a name was answered with some rows.
pub open spec fn rows_of<B>(
    call: BackupCall<B>,
    inputs: Seq<JobInputView>,
    name: Seq<char>,
    rows: serde_json::Value,
) -> bool {
    got_answer(
        call,
        inputs,
        JobActionView::LoadTable { name },
        JobInputView::TableLoaded(Ok(rows)),
    )
}

/// Whether the members of an object are tables under their names: the rows under each name are
/// those with which the loading of the table of that name was answered.
pub open spec fn tables_by_name<B>(
    call: BackupCall<B>,
    inputs: Seq<JobInputView>,
    members: Seq<(Seq<char>, serde_json::Value)>,
) -> bool {
    forall|i: int|
        0 <= i < members.len() ==> rows_of(
            call,
            inputs,
            (#[trigger] members[i]).0,
            members[i].1,
        )
}

/// The text of a document with a version, a time and tables.
pub open spec fn is_document(
    text: Seq<char>,
    app_version: Seq<char>,
    exported_at: Moment,
    tables: Seq<(Seq<char>, serde_json::Value)>,
) -> bool {
    pretty_text(
        object_value(
            seq![
                ("version"@, string_value(app_version)),
                ("exported_at"@, string_value(rfc3339_text(exported_at))),
                ("tables"@, object_value(tables)),
            ],
        ),
    ) == Ok::<Seq<char>, Seq<char>>(text)
}

/// Whether members have a name among them.
pub open spec fn has_member(
    members: Seq<(Seq<char>, serde_json::Value)>,
    name: Seq<char>,
) -> bool {
    exists|i: int| 0 <= i < members.len() && (#[trigger] members[i]).0 == name
}

/// What holds while the tables are loaded, given the last action.
spec fn export_ok<B>(
    call: BackupCall<B>,
    inputs: Seq<JobInputView>,
    s: JobView<B>,
    last: JobActionView<B>,
) -> bool {
    &&& s.app_version == call.app_version
    &&& match s.phase {
        JobPhaseView::LoadingTables { tables } => {
            &&& tables.len() < TABLE_COUNT
            &&& tables_by_name(call, inputs, table_members(tables))
            &&& last == (JobActionView::<B>::LoadTable { name: table_name(tables.len() as int) })
        },
        JobPhaseView::ReadingClock { tables } => {
            &&& tables.len() == TABLE_COUNT
            &&& tables_by_name(call, inputs, table_members(tables))
            &&& last is ReadClock
        },
        JobPhaseView::WritingFile => {
            last matches JobActionView::WriteFile { text } && exists|
                tables: Seq<serde_json::Value>,
                moment: Moment,
            | #[trigger]
                written_from(call, inputs, text, tables, moment)
        },
        _ => !(last is WriteFile),
    }
}

spec fn written_from<B>(
    call: BackupCall<B>,
    inputs: Seq<JobInputView>,
    text: Seq<char>,
    tables: Seq<serde_json::Value>,
    moment: Moment,
) -> bool {
    &&& tables.len() == TABLE_COUNT
    &&& tables_by_name(call, inputs, table_members(tables))
    &&& got_answer(call, inputs, JobActionView::ReadClock, JobInputView::ClockRead(moment))
    &&& is_document(text, call.app_version, moment, table_members(tables))
}

pub(crate) open spec fn tells_more<B>(
    call: BackupCall<B>,
    inputs: Seq<JobInputView>,
    longer: Seq<JobInputView>,
) -> bool {
    forall|action: JobActionView<B>, answer: JobInputView|
        got_answer(call, inputs, action, answer) ==> #[trigger] got_answer(
            call,
            longer,
            action,
            answer,
        )
}

pub(crate) proof fn answers_are_kept<B>(
    call: BackupCall<B>,
    inputs: Seq<JobInputView>,
    input: JobInputView,
)
    ensures
        tells_more(call, inputs, inputs.push(input)),
        got_answer(call, inputs.push(input), export_run(call, inputs).1.last(), input),
{
    reveal(got_answer);
    let longer = inputs.push(input);
    assert forall|action: JobActionView<B>, answer: JobInputView|
        got_answer(call, inputs, action, answer) implies #[trigger] got_answer(
        call,
        longer,
        action,
        answer,
    ) by {
        let k = choose|k: int|
            0 <= k < inputs.len() && #[trigger] inputs[k] == answer && export_run(
                call,
                inputs.take(k),
            ).1.last() == action;
        assert(longer.take(k) =~= inputs.take(k));
        assert(longer[k] == inputs[k]);
    }
    assert(longer.take(inputs.len() as int) =~= inputs);
    assert(longer[inputs.len() as int] == input);
}

proof fn tables_stay_by_name<B>(
    call: BackupCall<B>,
    inputs: Seq<JobInputView>,
    longer: Seq<JobInputView>,
    members: Seq<(Seq<char>, serde_json::Value)>,
)
    requires
        tells_more(call, inputs, longer),
        tables_by_name(call, inputs, members),
    ensures
        tables_by_name(call, longer, members),
{
    assert forall|i: int| 0 <= i < members.len() implies rows_of(
        call,
        longer,
        (#[trigger] members[i]).0,
        members[i].1,
    ) by {
        assert(rows_of(call, inputs, members[i].0, members[i].1));
    }
}

proof fn one_more_table<B>(
    call: BackupCall<B>,
    inputs: Seq<JobInputView>,
    tables: Seq<serde_json::Value>,
    rows: serde_json::Value,
)
    requires
        tables_by_name(call, inputs, table_members(tables)),
        rows_of(call, inputs, table_name(tables.len() as int), rows),
    ensures
        tables_by_name(call, inputs, table_members(tables.push(rows))),
{
    let before = table_members(tables);
    let members = table_members(tables.push(rows));
    assert forall|i: int| 0 <= i < members.len() implies rows_of(
        call,
        inputs,
        (#[trigger] members[i]).0,
        members[i].1,
    ) by {
        if i < tables.len() {
            assert(members[i] == before[i]);
        }
    }
}

proof fn step_keeps_export<B>(
    call: BackupCall<B>,
    inputs: Seq<JobInputView>,
    longer: Seq<JobInputView>,
    s: JobView<B>,
    last: JobActionView<B>,
    input: JobInputView,
)
    requires
        export_ok(call, inputs, s, last),
        tells_more(call, inputs, longer),
        got_answer(call, longer, last, input),
    ensures
        ({
            let (next, more) = job_step(s, input);
            export_ok(
                call,
                longer,
                next,
                match more {
                    Some(action) => action,
                    None => last,
                },
            )
        }),
{
    let (next, more) = job_step(s, input);
    match s.phase {
        JobPhaseView::Locating => {
            assert(tables_by_name(call, longer, table_members(Seq::empty())));
        },
        JobPhaseView::LoadingTables { tables } => {
            tables_stay_by_name(call, inputs, longer, table_members(tables));
            if let JobInputView::TableLoaded(Ok(rows)) = input {
                one_more_table(call, longer, tables, rows);
            }
        },
        JobPhaseView::ReadingClock { tables } => {
            tables_stay_by_name(call, inputs, longer, table_members(tables));
            if let JobInputView::ClockRead(moment) = input {
                if let Some(JobActionView::WriteFile { text }) = more {
                    assert(written_from(call, longer, text, tables, moment));
                }
            }
        },
        JobPhaseView::WritingFile => {
            if more is None {
                let text = last->WriteFile_text;
                let (tables, moment) = choose|tables: Seq<serde_json::Value>, moment: Moment|
                    #[trigger] written_from(call, inputs, text, tables, moment);
                tables_stay_by_name(call, inputs, longer, table_members(tables));
                assert(written_from(call, longer, text, tables, moment));
            }
        },
        _ => {},
    }
}

proof fn run_keeps_export<B>(call: BackupCall<B>, inputs: Seq<JobInputView>)
    ensures
        export_run(call, inputs).1.len() > 0,
        export_ok(call, inputs, export_run(call, inputs).0, export_run(call, inputs).1.last()),
    decreases inputs.len(),
{
    if inputs.len() > 0 {
        let before = inputs.drop_last();
        run_keeps_export(call, before);
        let (s, actions) = export_run(call, before);
        let more = job_step(s, inputs.last()).1;
        assert(before.push(inputs.last()) =~= inputs);
        answers_are_kept(call, before, inputs.last());
        step_keeps_export(call, before, inputs, s, actions.last(), inputs.last());
        assert(with_action(actions, more).last() == match more {
            Some(action) => action,
            None => actions.last(),
        });
    }
}

/// The file of an exported backup holds the rows of every table under the name of that table:
/// what stands under a name is what the loading of the table of that name was answered with.
/// It holds each of the seven tables once, and it names the version of the application and the
/// time that was read.
pub proof fn rows_stand_under_their_table<B>(
    call: BackupCall<B>,
    inputs: Seq<JobInputView>,
    text: Seq<char>,
) -> (found: (Seq<(Seq<char>, serde_json::Value)>, Moment))
    requires
        export_run(call, inputs).1.last() == (JobActionView::<B>::WriteFile { text }),
    ensures
        ({
            let (tables, exported_at) = found;
            &&& is_document(text, call.app_version, exported_at, tables)
            &&& got_answer(
                call,
                inputs,
                JobActionView::ReadClock,
                JobInputView::ClockRead(exported_at),
            )
            &&& tables_by_name(call, inputs, tables)
            &&& tables.len() == 7
            &&& forall|i: int, j: int|
                0 <= i < j < tables.len() ==> (#[trigger] tables[i]).0 != (#[trigger] tables[j]).0
            &&& has_member(tables, "conversations"@)
            &&& has_member(tables, "messages"@)
            &&& has_member(tables, "providers"@)
            &&& has_member(tables, "provider_keys"@)
            &&& has_member(tables, "models"@)
            &&& has_member(tables, "settings"@)
            &&& has_member(tables, "gateway_keys"@)
        }),
{
    run_keeps_export(call, inputs);
    let (rows, moment) = choose|rows: Seq<serde_json::Value>, moment: Moment|
        #[trigger] written_from(call, inputs, text, rows, moment);
    let tables = table_members(rows);
    assert forall|i: int, j: int| 0 <= i < j < tables.len() implies (#[trigger] tables[i]).0 != (
    #[trigger] tables[j]).0 by {
        table_names_differ(i, j);
    }
    assert(tables[0].0 == "conversations"@);
    assert(tables[1].0 == "messages"@);
    assert(tables[2].0 == "providers"@);
    assert(tables[3].0 == "provider_keys"@);
    assert(tables[4].0 == "models"@);
    assert(tables[5].0 == "settings"@);
    assert(tables[6].0 == "gateway_keys"@);
    (tables, moment)
}

} // verus!
