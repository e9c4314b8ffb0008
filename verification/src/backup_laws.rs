//! What holds of every making and every deleting of backups.
use vstd::prelude::*;

use crate::backup::{
    checksum_of, counts_view, extension_of, file_name_of, manifest_of, BackupErrorView,
    ManifestView, RecordView,
};
use crate::backup_delete::{
    delete_actions, queue_next, queue_step, surplus, DeleteActionView, DeleteInputView,
    QueueActionView, QueueView,
};
use crate::backup_job::{
    file_place, job_start, job_step, recorded_size, JobActionView, JobInputView, JobPhaseView,
    JobView, NewRecordView,
};
use crate::export::TABLE_COUNT;

verus! {

/// The state and all actions of the making of a backup after some answers.
pub open spec fn job_run<B>(
    backup_dir: B,
    format: Seq<char>,
    app_version: Seq<char>,
    inputs: Seq<JobInputView>,
) -> (JobView<B>, Seq<JobActionView<B>>)
    decreases inputs.len(),
{
    if inputs.len() == 0 {
        (
            job_start(backup_dir, format, app_version),
            seq![JobActionView::EnsureDirectory(backup_dir)],
        )
    } else {
        let (s, actions) = job_run(backup_dir, format, app_version, inputs.drop_last());
        let (next, more) = job_step(s, inputs.last());
        (next, with_action(actions, more))
    }
}

/// Some actions, and one more where there is one.
pub open spec fn with_action<B>(
    actions: Seq<JobActionView<B>>,
    more: Option<JobActionView<B>>,
) -> Seq<JobActionView<B>> {
    match more {
        Some(action) => actions.push(action),
        None => actions,
    }
}

/// What the making of a backup was told in answer to its actions.
pub struct JobTold {
    /// The fresh id and the local time.
    pub stamp: Option<(Seq<char>, i64)>,
    /// The path of the file.
    pub path: Option<Seq<char>>,
    /// The size of the file, where it is known, and what the file holds.
    pub file: Option<(Option<u64>, Seq<u8>)>,
    /// The text of the counted objects.
    pub counts: Option<Seq<char>>,
    /// The stored record.
    pub loaded: Option<RecordView>,
}

/// What is told by one more answer. Only an answer that is waited for tells anything.
pub open spec fn told_with(told: JobTold, phase: JobPhaseView, input: JobInputView) -> JobTold {
    match (phase, input) {
        (JobPhaseView::Stamping, JobInputView::Stamped { id, local_secs }) => JobTold {
            stamp: Some((id, local_secs)),
            ..told
        },
        (JobPhaseView::Locating, JobInputView::Located { path }) => JobTold {
            path: Some(path),
            ..told
        },
        (JobPhaseView::InspectingFile, JobInputView::FileInspected { size, data: Ok(data) }) =>
            JobTold { file: Some((size, data)), ..told },
        (
            JobPhaseView::CountingObjects { .. },
            JobInputView::ObjectsCounted { conversations, messages, providers },
        ) => JobTold {
            counts: Some(counts_view(conversations, messages, providers)),
            ..told
        },
        (JobPhaseView::LoadingRecord, JobInputView::RecordLoaded(Ok(Some(record)))) => JobTold {
            loaded: Some(record),
            ..told
        },
        _ => told,
    }
}

/// What the making of a backup was told by some answers.
pub open spec fn job_told<B>(
    backup_dir: B,
    format: Seq<char>,
    app_version: Seq<char>,
    inputs: Seq<JobInputView>,
) -> JobTold
    decreases inputs.len(),
{
    if inputs.len() == 0 {
        JobTold { stamp: None, path: None, file: None, counts: None, loaded: None }
    } else {
        told_with(
            job_told(backup_dir, format, app_version, inputs.drop_last()),
            job_run(backup_dir, format, app_version, inputs.drop_last()).0.phase,
            inputs.last(),
        )
    }
}

/// Whether a record says of a backup what was told: the fresh id, the path of the located
/// file, the size and the checksum of what the file holds, and the counted objects; and
/// besides the format, the version of the application, and that it is not encrypted.
pub open spec fn record_as_told(
    told: JobTold,
    format: Seq<char>,
    app_version: Seq<char>,
    record: NewRecordView,
) -> bool {
    &&& told.stamp matches Some((id, _)) && record.id == id
    &&& told.path matches Some(path) && record.file_path == path
    &&& told.file matches Some((size, data)) && record.file_size == recorded_size(size)
        && record.checksum == checksum_of(data)
    &&& told.counts matches Some(counts) && record.object_counts_json == counts
    &&& record.version == format
    &&& record.source_app_version == app_version
    &&& record.encrypted == 0
}

/// Whether the id of a backup is still to be made.
spec fn before_stamp(phase: JobPhaseView) -> bool {
    phase is EnsuringDirectory || phase is Stamping
}

/// Whether the record of a backup has been made.
spec fn after_record(phase: JobPhaseView) -> bool {
    phase is InsertingRecord || phase is LoadingRecord || phase is Ended
}

/// What the state of the making of a backup has kept of what was told.
spec fn kept_as_told<B>(s: JobView<B>, told: JobTold) -> bool {
    &&& !before_stamp(s.phase) && !(s.phase is Ended) ==> (told.stamp matches Some((id, _)) && id
        == s.id)
    &&& !before_stamp(s.phase) && !(s.phase is Locating) && !(s.phase is Ended) ==> told.path
        == Some(s.path)
    &&& s.phase matches JobPhaseView::CountingObjects { size, checksum } ==> (told.file
        matches Some((told_size, data)) && size == recorded_size(told_size) && checksum
        == checksum_of(data))
    &&& s.phase matches JobPhaseView::LoadingTables { tables } ==> tables.len() < TABLE_COUNT
    &&& s.phase matches JobPhaseView::ReadingClock { tables } ==> tables.len() == TABLE_COUNT
}

/// What one action of the making of a backup can be.
spec fn job_action_ok<B>(s: JobView<B>, told: JobTold, action: JobActionView<B>) -> bool {
    &&& action matches JobActionView::Locate(place) ==> !before_stamp(s.phase) && (told.stamp
        matches Some((_, secs)) && place == file_place(s.backup_dir, secs, s.format))
    &&& action matches JobActionView::InsertRecord(record) ==> after_record(s.phase)
        && record_as_told(told, s.format, s.app_version, record)
    &&& action matches JobActionView::Finish(Ok(manifest)) ==> s.phase is Ended && (told.loaded
        matches Some(record) && manifest == manifest_of(record))
}

spec fn has_record<B>(actions: Seq<JobActionView<B>>) -> bool {
    exists|k: int| 0 <= k < actions.len() && (#[trigger] actions[k]) is InsertRecord
}

spec fn has_place<B>(actions: Seq<JobActionView<B>>) -> bool {
    exists|k: int| 0 <= k < actions.len() && (#[trigger] actions[k]) is Locate
}

/// What holds at each point of the making of a backup.
spec fn job_ok<B>(
    backup_dir: B,
    format: Seq<char>,
    app_version: Seq<char>,
    s: JobView<B>,
    actions: Seq<JobActionView<B>>,
    told: JobTold,
) -> bool {
    let n = actions.len() as int;
    &&& s.backup_dir == backup_dir && s.format == format && s.app_version == app_version
    &&& kept_as_told(s, told)
    &&& n > 0
    &&& s.phase is Ended <==> actions[n - 1] is Finish
    &&& forall|k: int| 0 <= k < n - 1 ==> !((#[trigger] actions[k]) is Finish)
    &&& forall|k: int| 0 <= k < n ==> job_action_ok(s, told, #[trigger] actions[k])
    &&& told.stamp is Some ==> has_place(actions)
    &&& (actions[n - 1] matches JobActionView::Finish(Ok(_))) ==> has_record(actions)
    &&& s.phase is InsertingRecord || s.phase is LoadingRecord ==> has_record(actions)
}

proof fn actions_stay<B>(actions: Seq<JobActionView<B>>, action: JobActionView<B>)
    ensures
        has_record(actions) ==> has_record(actions.push(action)),
        has_place(actions) ==> has_place(actions.push(action)),
        action is InsertRecord ==> has_record(actions.push(action)),
        action is Locate ==> has_place(actions.push(action)),
{
    let all = actions.push(action);
    assert(all[actions.len() as int] == action);
    if has_record(actions) {
        let k = choose|k: int| 0 <= k < actions.len() && (#[trigger] actions[k]) is InsertRecord;
        assert(all[k] is InsertRecord);
    }
    if has_place(actions) {
        let k = choose|k: int| 0 <= k < actions.len() && (#[trigger] actions[k]) is Locate;
        assert(all[k] is Locate);
    }
}

/// What one step does to what holds of an earlier action, and what holds of its own.
proof fn step_keeps_action<B>(
    s: JobView<B>,
    told: JobTold,
    input: JobInputView,
    action: JobActionView<B>,
)
    requires
        kept_as_told(s, told),
    ensures
        ({
            let (next, more) = job_step(s, input);
            let longer = told_with(told, s.phase, input);
            &&& next.backup_dir == s.backup_dir && next.format == s.format && next.app_version
                == s.app_version
            &&& kept_as_told(next, longer)
            &&& job_action_ok(s, told, action) ==> job_action_ok(next, longer, action)
            &&& more matches Some(own) ==> job_action_ok(next, longer, own)
            &&& longer.stamp is Some ==> told.stamp is Some || (more matches Some(own)
                && own is Locate)
        }),
{
}

proof fn step_keeps_job<B>(
    backup_dir: B,
    format: Seq<char>,
    app_version: Seq<char>,
    s: JobView<B>,
    actions: Seq<JobActionView<B>>,
    told: JobTold,
    input: JobInputView,
)
    requires
        job_ok(backup_dir, format, app_version, s, actions, told),
    ensures
        job_ok(
            backup_dir,
            format,
            app_version,
            job_step(s, input).0,
            with_action(actions, job_step(s, input).1),
            told_with(told, s.phase, input),
        ),
{
    let (next, more) = job_step(s, input);
    let longer = told_with(told, s.phase, input);
    let all = with_action(actions, more);
    step_keeps_action(s, told, input, JobActionView::Stamp);
    assert forall|k: int| 0 <= k < all.len() implies job_action_ok(
        next,
        longer,
        #[trigger] all[k],
    ) by {
        if k < actions.len() {
            assert(all[k] == actions[k]);
            step_keeps_action(s, told, input, actions[k]);
        }
    }
    if more is Some {
        actions_stay(actions, more->0);
        assert(all[all.len() - 1] == more->0);
        assert forall|k: int| 0 <= k < all.len() - 1 implies !((#[trigger] all[k]) is Finish) by {
            assert(all[k] == actions[k]);
        }
    }
}

proof fn run_keeps_job<B>(
    backup_dir: B,
    format: Seq<char>,
    app_version: Seq<char>,
    inputs: Seq<JobInputView>,
)
    ensures
        job_ok(
            backup_dir,
            format,
            app_version,
            job_run(backup_dir, format, app_version, inputs).0,
            job_run(backup_dir, format, app_version, inputs).1,
            job_told(backup_dir, format, app_version, inputs),
        ),
    decreases inputs.len(),
{
    if inputs.len() > 0 {
        let before = inputs.drop_last();
        run_keeps_job(backup_dir, format, app_version, before);
        let (s, actions) = job_run(backup_dir, format, app_version, before);
        let told = job_told(backup_dir, format, app_version, before);
        step_keeps_job(backup_dir, format, app_version, s, actions, told, inputs.last());
    }
}

/// A backup is recorded as its making was told: with the id that was made for it, the path of
/// the file that was located, and the size and the checksum of what was read of that file;
/// with its format and the version of the application, and as not encrypted. The file is
/// located in the directory of the backups, under a name made of the time and the format.
pub proof fn records_describe_their_files<B>(
    backup_dir: B,
    format: Seq<char>,
    app_version: Seq<char>,
    inputs: Seq<JobInputView>,
    k: int,
)
    ensures
        ({
            let actions = job_run(backup_dir, format, app_version, inputs).1;
            let told = job_told(backup_dir, format, app_version, inputs);
            0 <= k < actions.len() ==> {
                &&& actions[k] matches JobActionView::InsertRecord(record) ==> record_as_told(
                    told,
                    format,
                    app_version,
                    record,
                )
                &&& actions[k] matches JobActionView::Locate(place) ==> (told.stamp matches Some(
                    (_, secs),
                ) && place == file_place(backup_dir, secs, format))
            }
        }),
{
    run_keeps_job(backup_dir, format, app_version, inputs);
    let actions = job_run(backup_dir, format, app_version, inputs).1;
    if 0 <= k < actions.len() {
        assert(actions[k] == actions[k]);
    }
}

/// The name of the file of a backup ends in the extension of its format: `db` for a copy of
/// the database and `json` for every other format.
pub proof fn file_names_show_the_format(stamp: Seq<char>, format: Seq<char>)
    ensures
        ("."@ + extension_of(format)).is_suffix_of(file_name_of(stamp, format)),
        extension_of(format) == if format == "sqlite"@ {
            "db"@
        } else {
            "json"@
        },
{
    let name = file_name_of(stamp, format);
    let end = "."@ + extension_of(format);
    assert(name =~= "aqbot-backup-"@ + stamp + end);
    assert(end =~= name.subrange(name.len() - end.len(), name.len() as int));
}

/// Whether a stored record holds what was recorded.
pub open spec fn read_back(recorded: NewRecordView, stored: RecordView) -> bool {
    &&& stored.id == recorded.id
    &&& stored.version == recorded.version
    &&& stored.encrypted == recorded.encrypted
    &&& stored.checksum == recorded.checksum
    &&& stored.object_counts_json == recorded.object_counts_json
    &&& stored.source_app_version == recorded.source_app_version
    &&& stored.file_path == Some(recorded.file_path)
    &&& stored.file_size == recorded.file_size
}

/// A backup that has been made describes its file, given that the store reads back what was
/// recorded and that the size of the file is the number of its bytes: its path is that of the
/// file that was located in the directory of the backups, its size and its checksum are those
/// of the bytes of that file, its version is the format, and it is not encrypted. It is what
/// the stored record is shown as whenever it is read.
pub proof fn a_made_backup_describes_its_file<B>(
    backup_dir: B,
    format: Seq<char>,
    app_version: Seq<char>,
    inputs: Seq<JobInputView>,
    manifest: ManifestView,
)
    requires
        ({
            let actions = job_run(backup_dir, format, app_version, inputs).1;
            let told = job_told(backup_dir, format, app_version, inputs);
            &&& actions.last() == JobActionView::<B>::Finish(Ok(manifest))
            &&& forall|k: int|
                0 <= k < actions.len() ==> ((#[trigger] actions[k]) matches
                    JobActionView::InsertRecord(record) ==> (told.loaded matches Some(stored)
                    ==> read_back(record, stored)))
            &&& told.file matches Some((size, data)) ==> (size matches Some(size) && size
                == data.len() && size <= i64::MAX)
        }),
    ensures
        ({
            let actions = job_run(backup_dir, format, app_version, inputs).1;
            let told = job_told(backup_dir, format, app_version, inputs);
            &&& told.stamp matches Some((id, secs)) && manifest.id == id && exists|k: int|
                0 <= k < actions.len() && #[trigger] actions[k] == JobActionView::Locate(
                    file_place(backup_dir, secs, format),
                )
            &&& told.path is Some && manifest.file_path == told.path
            &&& told.file matches Some((_, data)) && manifest.file_size == data.len()
                && manifest.checksum == checksum_of(data)
            &&& told.counts == Some(manifest.object_counts_json)
            &&& manifest.version == format
            &&& manifest.source_app_version == app_version
            &&& !manifest.encrypted
            &&& told.loaded matches Some(stored) && manifest_of(stored) == manifest
        }),
{
    run_keeps_job(backup_dir, format, app_version, inputs);
    let actions = job_run(backup_dir, format, app_version, inputs).1;
    let told = job_told(backup_dir, format, app_version, inputs);
    assert(actions[actions.len() - 1] == actions.last());
    let k = choose|k: int| 0 <= k < actions.len() && (#[trigger] actions[k]) is InsertRecord;
    let record = actions[k]->InsertRecord_0;
    assert(record_as_told(told, format, app_version, record));
    let at = choose|k: int| 0 <= k < actions.len() && (#[trigger] actions[k]) is Locate;
    let (_, secs) = told.stamp->0;
    assert(actions[at] == JobActionView::Locate(file_place(backup_dir, secs, format)));
}

/// The making of a backup ends once, as its last action, and succeeds only where the backup
/// was recorded.
pub proof fn a_backup_ends_once<B>(
    backup_dir: B,
    format: Seq<char>,
    app_version: Seq<char>,
    inputs: Seq<JobInputView>,
    k: int,
)
    ensures
        ({
            let (s, actions) = job_run(backup_dir, format, app_version, inputs);
            &&& s.phase is Ended <==> actions.len() > 0 && actions.last() is Finish
            &&& 0 <= k < actions.len() && actions[k] is Finish ==> k == actions.len() - 1
            &&& actions.len() > 0 && (actions.last() matches JobActionView::Finish(Ok(_)))
                ==> exists|j: int| 0 <= j < actions.len() && (#[trigger] actions[j]) is InsertRecord
        }),
{
    run_keeps_job(backup_dir, format, app_version, inputs);
    let (_, actions) = job_run(backup_dir, format, app_version, inputs);
    if actions.len() > 0 {
        assert(actions.last() == actions[actions.len() - 1]);
    }
}

/// The database is copied only to a place where no file is: an existing one was deleted.
pub proof fn an_existing_file_goes_first<B>(s: JobView<B>, input: JobInputView)
    ensures
        job_step(s, input).1 matches Some(action) ==> action is ExecuteStatement ==> {
            ||| input == JobInputView::FileChecked(false)
            ||| input == JobInputView::FileRemoved(None)
        },
{
}

// ---------------------------------------------------------------------------------------
// Deleting
// ---------------------------------------------------------------------------------------

/// The file of a backup is deleted before its record, and a backup that is not recorded has
/// nothing deleted.
pub proof fn files_go_before_records(id: Seq<char>, input: DeleteInputView)
    ensures
        ({
            let actions = delete_actions(id, input);
            &&& actions.len() > 0
            &&& forall|k: int|
                0 <= k < actions.len() && (#[trigger] actions[k]) is RemoveFile ==> k == 0
                    && actions.last() == (DeleteActionView::DeleteRecord { id })
            &&& actions.last() is Finish ==> actions.len() == 1
            &&& actions.last() == DeleteActionView::Finish(None) <==> (input matches
                DeleteInputView::RecordDeleted(Ok(count)) && count > 0)
        }),
{
}

/// The state of a queue after each of some deletions succeeded, and its next action.
pub open spec fn queue_after(ids: Seq<Seq<char>>, count: nat) -> (QueueView, QueueActionView)
    decreases count,
{
    if count == 0 {
        let q = QueueView { ids, deleted: 0 };
        (q, queue_next(q))
    } else {
        queue_step(queue_after(ids, (count - 1) as nat).0, None)
    }
}

/// As long as every deletion succeeds, the backups of a queue are deleted one by one in their
/// order, and the queue ends with their number.
pub proof fn a_queue_deletes_all_in_order(ids: Seq<Seq<char>>, count: nat)
    requires
        count <= ids.len(),
    ensures
        queue_after(ids, count).0 == (QueueView { ids, deleted: count }),
        queue_after(ids, count).1 == if count < ids.len() {
            QueueActionView::Delete { id: ids[count as int] }
        } else {
            QueueActionView::Finish(Ok(ids.len()))
        },
    decreases count,
{
    if count > 0 {
        a_queue_deletes_all_in_order(ids, (count - 1) as nat);
    }
}

/// The first deletion that fails stops a queue with its error.
pub proof fn a_queue_stops_at_the_first_error(q: QueueView, error: BackupErrorView)
    ensures
        queue_step(q, Some(error)) == (q, QueueActionView::Finish(Err::<nat, _>(error))),
{
}

/// Pruning leaves as many backups as allowed, and of a list in the order of age, newest first,
/// it leaves the newest: none that goes is newer than one that stays.
pub proof fn pruning_keeps_the_newest(
    manifests: Seq<ManifestView>,
    max_count: nat,
    age: spec_fn(ManifestView) -> int,
    kept: int,
    gone: int,
)
    requires
        forall|i: int, j: int|
            0 <= i <= j < manifests.len() ==> age(#[trigger] manifests[i]) <= age(
                #[trigger] manifests[j],
            ),
    ensures
        surplus(manifests, max_count).len() == if manifests.len() > max_count {
            manifests.len() - max_count
        } else {
            0
        },
        0 <= kept < max_count && kept < manifests.len() && 0 <= gone < surplus(
            manifests,
            max_count,
        ).len() ==> {
            &&& surplus(manifests, max_count)[gone] == manifests[max_count + gone].id
            &&& age(manifests[kept]) <= age(manifests[max_count + gone])
        },
{
}

/// The file that is deleted is the one that the record names, the record that is deleted is the
/// one of the backup, and a deletion that fails tells why.
pub proof fn a_deletion_goes_by_the_record(
    id: Seq<char>,
    record: RecordView,
    count: u64,
    error: Seq<char>,
)
    ensures
        delete_actions(id, DeleteInputView::RecordLoaded(Ok(Some(record)))) == match record.file_path {
            Some(path) => seq![
                DeleteActionView::RemoveFile { path },
                DeleteActionView::DeleteRecord { id },
            ],
            None => seq![DeleteActionView::DeleteRecord { id }],
        },
        delete_actions(id, DeleteInputView::RecordLoaded(Ok(None))) == seq![
            DeleteActionView::Finish(Some(BackupErrorView::NotFound("BackupManifest "@ + id))),
        ],
        delete_actions(id, DeleteInputView::RecordLoaded(Err(error))) == seq![
            DeleteActionView::Finish(Some(BackupErrorView::Database(error))),
        ],
        delete_actions(id, DeleteInputView::RecordDeleted(Ok(0))) == seq![
            DeleteActionView::Finish(Some(BackupErrorView::NotFound("BackupManifest "@ + id))),
        ],
        count > 0 ==> delete_actions(id, DeleteInputView::RecordDeleted(Ok(count))) == seq![
            DeleteActionView::Finish(None),
        ],
        delete_actions(id, DeleteInputView::RecordDeleted(Err(error))) == seq![
            DeleteActionView::Finish(Some(BackupErrorView::Database(error))),
        ],
{
}

/// Of the listed backups, exactly those beyond the first so many are too many, in their order.
pub proof fn the_first_backups_stay(manifests: Seq<ManifestView>, max_count: nat)
    ensures
        manifests.len() <= max_count ==> surplus(manifests, max_count).len() == 0,
        manifests.len() > max_count ==> surplus(manifests, max_count) == manifests.skip(
            max_count as int,
        ).map_values(|manifest: ManifestView| manifest.id),
{
    if manifests.len() > max_count {
        assert(surplus(manifests, max_count) =~= manifests.skip(max_count as int).map_values(
            |manifest: ManifestView| manifest.id,
        ));
    }
}

} // verus!
