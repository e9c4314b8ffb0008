//! What holds of every restoring of an archive, whatever the answers are.
use vstd::prelude::*;

use crate::backup::{database_path, ManifestView};
use crate::restore::{
    key_place, next_directory, restore_inv, restore_plan, restore_start, restore_step,
    saved_key_place, temp_place, ContentsView, DataDirectory, RestoreActionView, RestoreInputView,
    RestorePhase, RestorePlanView, RestoreView,
};
use crate::tool_input::{field_text, json_fields};

verus! {

/// The state and all actions of a restoring after some answers.
pub open spec fn restore_run<B>(
    app_data_dir: B,
    documents_root: B,
    backup_path: Seq<char>,
    db_path: Seq<char>,
    inputs: Seq<RestoreInputView>,
) -> (RestoreView<B>, Seq<RestoreActionView<B>>)
    decreases inputs.len(),
{
    if inputs.len() == 0 {
        restore_start(app_data_dir, documents_root, backup_path, db_path)
    } else {
        let (s, actions) = restore_run(
            app_data_dir,
            documents_root,
            backup_path,
            db_path,
            inputs.drop_last(),
        );
        let (next, more) = restore_step(s, inputs.last());
        (next, actions + more)
    }
}

/// Whether an action puts data of the archive in the place of the present data.
pub open spec fn overwrites<B>(action: RestoreActionView<B>) -> bool {
    action is RestoreKey || action is RestoreDatabase || action is CopyDirectory
}

/// Whether an action ends a restoring.
pub open spec fn ends<B>(action: RestoreActionView<B>) -> bool {
    action is Restart || action is Fail
}

/// Whether an unpacked archive names no checksum.
pub open spec fn names_no_checksum(input: RestoreInputView) -> bool {
    match input {
        RestoreInputView::Extracted(Ok(contents)) => field_text(
            json_fields(contents.metadata),
            "db_checksum"@,
        ) is None,
        _ => false,
    }
}

spec fn trusted(inputs: Seq<RestoreInputView>) -> bool {
    ||| inputs.contains(RestoreInputView::ChecksumVerified(Ok(true)))
    ||| exists|i: int| 0 <= i < inputs.len() && names_no_checksum(#[trigger] inputs[i])
}

proof fn directory_step<B>(s: RestoreView<B>, from: Option<DataDirectory>)
    requires
        s.contents is Some,
    ensures
        ({
            let (next, actions) = next_directory(s, from);
            &&& actions.len() == 1
            &&& !overwrites(actions[0])
            &&& ends(actions[0]) <==> next.phase is Ended
            &&& actions[0] is Restart <==> next.phase is Ended
            &&& next.phase is Ended || next.phase is CheckingDirectory
            &&& next.contents == s.contents && next.key_saved == s.key_saved
            &&& next.app_data_dir == s.app_data_dir
        }),
    decreases
            match from {
                Some(directory) => directory.left() + 1,
                None => 0,
            },
{
    if let Some(directory) = from {
        directory_step(s, directory.following());
    }
}

/// What holds at each point of a restoring.
spec fn restore_ok<B>(
    s: RestoreView<B>,
    actions: Seq<RestoreActionView<B>>,
    inputs: Seq<RestoreInputView>,
) -> bool {
    let n = actions.len() as int;
    let early = s.phase is Extracting || s.phase is VerifyingChecksum;
    let late = s.phase is CheckingDirectory || s.phase is CopyingDirectory;
    &&& restore_inv(s)
    &&& n > 0
    &&& !early && !(s.phase is Ended) ==> trusted(inputs)
    &&& late ==> inputs.contains(RestoreInputView::DatabaseRestored(None))
    &&& forall|k: int| 0 <= k < n && overwrites(#[trigger] actions[k]) ==> trusted(inputs)
    &&& s.phase is Ended <==> ends(actions[n - 1])
    &&& forall|k: int| 0 <= k < n - 1 ==> !ends(#[trigger] actions[k])
    &&& actions[n - 1] is Restart ==> inputs.contains(RestoreInputView::DatabaseRestored(None))
}

proof fn answers_stay(inputs: Seq<RestoreInputView>, input: RestoreInputView)
    ensures
        trusted(inputs) ==> trusted(inputs.push(input)),
        forall|x: RestoreInputView|
            inputs.contains(x) ==> #[trigger] inputs.push(input).contains(x),
        inputs.push(input).contains(input),
        names_no_checksum(input) ==> trusted(inputs.push(input)),
{
    let longer = inputs.push(input);
    assert(longer[inputs.len() as int] == input);
    assert forall|x: RestoreInputView| inputs.contains(x) implies #[trigger] longer.contains(
        x,
    ) by {
        let i = choose|i: int| 0 <= i < inputs.len() && inputs[i] == x;
        assert(longer[i] == x);
    }
    if exists|i: int| 0 <= i < inputs.len() && names_no_checksum(#[trigger] inputs[i]) {
        let i = choose|i: int| 0 <= i < inputs.len() && names_no_checksum(#[trigger] inputs[i]);
        assert(names_no_checksum(longer[i]));
    }
}

/// What one answer gives.
spec fn step_ok<B>(
    s: RestoreView<B>,
    next: RestoreView<B>,
    more: Seq<RestoreActionView<B>>,
    input: RestoreInputView,
) -> bool {
    let n = more.len() as int;
    let early = s.phase is Extracting || s.phase is VerifyingChecksum;
    let late = s.phase is CheckingDirectory || s.phase is CopyingDirectory;
    let next_early = next.phase is Extracting || next.phase is VerifyingChecksum;
    let next_late = next.phase is CheckingDirectory || next.phase is CopyingDirectory;
    let now_trusted = names_no_checksum(input) || input == RestoreInputView::ChecksumVerified(
        Ok(true),
    );
    &&& restore_inv(next)
    &&& n == 0 ==> next == s
    &&& n > 0 ==> !(s.phase is Ended)
    &&& n > 0 ==> (next.phase is Ended <==> ends(more[n - 1]))
    &&& forall|k: int| 0 <= k < n - 1 ==> !ends(#[trigger] more[k])
    &&& early && !next_early && !(next.phase is Ended) ==> now_trusted
    &&& forall|k: int| 0 <= k < n && overwrites(#[trigger] more[k]) ==> !early
    &&& next_late ==> late || input == RestoreInputView::DatabaseRestored(None)
    &&& n > 0 && more[n - 1] is Restart ==> late || input == RestoreInputView::DatabaseRestored(
        None,
    )
}

proof fn each_step_is_ok<B>(s: RestoreView<B>, input: RestoreInputView)
    requires
        restore_inv(s),
    ensures
        step_ok(s, restore_step(s, input).0, restore_step(s, input).1, input),
{
    match (s.phase, input) {
        (RestorePhase::RestoringDatabase, RestoreInputView::DatabaseRestored(None)) => {
            directory_step(s, Some(DataDirectory::Documents));
        },
        (RestorePhase::CheckingDirectory(directory), RestoreInputView::ExistenceChecked(_)) => {
            directory_step(s, directory.following());
        },
        (RestorePhase::CopyingDirectory(directory), RestoreInputView::DirectoryCopied(_)) => {
            directory_step(s, directory.following());
        },
        _ => {},
    }
}

proof fn step_keeps_restore<B>(
    s: RestoreView<B>,
    actions: Seq<RestoreActionView<B>>,
    inputs: Seq<RestoreInputView>,
    next: RestoreView<B>,
    more: Seq<RestoreActionView<B>>,
    input: RestoreInputView,
)
    requires
        restore_ok(s, actions, inputs),
        step_ok(s, next, more, input),
    ensures
        restore_ok(next, actions + more, inputs.push(input)),
{
    let all = actions + more;
    let longer = inputs.push(input);
    answers_stay(inputs, input);
    if more.len() == 0 {
        assert(all =~= actions);
    } else {
        assert(all[all.len() - 1] == more[more.len() - 1]);
        assert forall|k: int| 0 <= k < all.len() - 1 implies !ends(#[trigger] all[k]) by {
            if k < actions.len() {
                assert(all[k] == actions[k]);
            } else {
                assert(all[k] == more[k - actions.len()]);
            }
        }
        assert forall|k: int| 0 <= k < all.len() && overwrites(#[trigger] all[k]) implies trusted(
            longer,
        ) by {
            if k < actions.len() {
                assert(all[k] == actions[k]);
            } else {
                assert(all[k] == more[k - actions.len()]);
            }
        }
    }
}

proof fn run_keeps_restore<B>(
    app_data_dir: B,
    documents_root: B,
    backup_path: Seq<char>,
    db_path: Seq<char>,
    inputs: Seq<RestoreInputView>,
)
    ensures
        ({
            let (s, actions) = restore_run(
                app_data_dir,
                documents_root,
                backup_path,
                db_path,
                inputs,
            );
            restore_ok(s, actions, inputs)
        }),
    decreases inputs.len(),
{
    if inputs.len() > 0 {
        let before = inputs.drop_last();
        run_keeps_restore(app_data_dir, documents_root, backup_path, db_path, before);
        let (s, actions) = restore_run(app_data_dir, documents_root, backup_path, db_path, before);
        each_step_is_ok(s, inputs.last());
        let (next, more) = restore_step(s, inputs.last());
        step_keeps_restore(s, actions, before, next, more, inputs.last());
        assert(before.push(inputs.last()) =~= inputs);
    }
}

/// Nothing of an archive takes the place of present data before the archive's checksum was
/// verified, unless the archive names none.
pub proof fn unverified_archives_restore_nothing<B>(
    app_data_dir: B,
    documents_root: B,
    backup_path: Seq<char>,
    db_path: Seq<char>,
    inputs: Seq<RestoreInputView>,
    k: int,
)
    ensures
        ({
            let (_, actions) = restore_run(
                app_data_dir,
                documents_root,
                backup_path,
                db_path,
                inputs,
            );
            0 <= k < actions.len() && overwrites(actions[k]) ==> {
                ||| inputs.contains(RestoreInputView::ChecksumVerified(Ok(true)))
                ||| exists|i: int| 0 <= i < inputs.len() && names_no_checksum(#[trigger] inputs[i])
            }
        }),
{
    run_keeps_restore(app_data_dir, documents_root, backup_path, db_path, inputs);
}

/// A restoring ends once, as its last action, by a restart or with an error; and it restarts
/// only after the database was restored.
pub proof fn a_restoring_ends_once<B>(
    app_data_dir: B,
    documents_root: B,
    backup_path: Seq<char>,
    db_path: Seq<char>,
    inputs: Seq<RestoreInputView>,
    k: int,
)
    ensures
        ({
            let (s, actions) = restore_run(
                app_data_dir,
                documents_root,
                backup_path,
                db_path,
                inputs,
            );
            &&& s.phase is Ended <==> ends(actions.last())
            &&& 0 <= k < actions.len() && ends(actions[k]) ==> k == actions.len() - 1
            &&& actions.last() is Restart ==> inputs.contains(
                RestoreInputView::DatabaseRestored(None),
            )
        }),
{
    run_keeps_restore(app_data_dir, documents_root, backup_path, db_path, inputs);
    let (_, actions) = restore_run(app_data_dir, documents_root, backup_path, db_path, inputs);
    assert(actions.last() == actions[actions.len() - 1]);
}

/// A restoring that fails leaves nothing behind: the copy of the master key, where there is
/// one, and then the unpacked archive are deleted before the error is reported.
pub proof fn a_failed_restoring_cleans_up<B>(s: RestoreView<B>, input: RestoreInputView)
    requires
        restore_inv(s),
    ensures
        ({
            let (_, actions) = restore_step(s, input);
            let n = actions.len();
            n > 0 && actions.last() is Fail ==> {
                &&& n >= 2
                &&& actions[n - 2] == RestoreActionView::RemoveDirectory(
                    temp_place(s.app_data_dir),
                )
                &&& s.key_saved ==> n >= 3 && actions[n - 3] == RestoreActionView::RemoveFile(
                    saved_key_place(s.app_data_dir),
                )
            }
        }),
{
    match (s.phase, input) {
        (RestorePhase::RestoringDatabase, RestoreInputView::DatabaseRestored(None)) => {
            directory_step(s, Some(DataDirectory::Documents));
        },
        (RestorePhase::CheckingDirectory(directory), RestoreInputView::ExistenceChecked(_)) => {
            directory_step(s, directory.following());
        },
        (RestorePhase::CopyingDirectory(directory), RestoreInputView::DirectoryCopied(_)) => {
            directory_step(s, directory.following());
        },
        _ => {},
    }
}

/// A present master key is copied aside, for the user's eyes only, before one of the archive
/// takes its place.
pub proof fn the_present_key_is_saved_first<B>(s: RestoreView<B>, contents: ContentsView)
    requires
        s.phase is CheckingKey,
        s.contents == Some(contents),
        contents.has_master_key,
    ensures
        restore_step(s, RestoreInputView::ExistenceChecked(true)).1 == seq![
            RestoreActionView::CopyFile {
                from: key_place(s.app_data_dir),
                to: saved_key_place(s.app_data_dir),
            },
            RestoreActionView::MakePrivate(saved_key_place(s.app_data_dir)),
            RestoreActionView::RestoreKey { to: key_place(s.app_data_dir) },
        ],
        restore_step(s, RestoreInputView::ExistenceChecked(true)).0.key_saved,
{
    assert(restore_step(s, RestoreInputView::ExistenceChecked(true)).1 =~= seq![
        RestoreActionView::CopyFile {
            from: key_place(s.app_data_dir),
            to: saved_key_place(s.app_data_dir),
        },
        RestoreActionView::MakePrivate(saved_key_place(s.app_data_dir)),
        RestoreActionView::RestoreKey { to: key_place(s.app_data_dir) },
    ]);
}

/// A backup without a file, or in JSON, is never restored.
pub proof fn json_backups_are_not_restored(manifest: ManifestView, connection: Seq<char>)
    ensures
        restore_plan(manifest, connection) is Ok <==> manifest.file_path is Some
            && manifest.version != "json"@,
        restore_plan(manifest, connection) matches Ok(plan) ==> match plan {
            RestorePlanView::Database { backup_path, db_path } => manifest.file_path == Some(
                backup_path,
            ) && manifest.version == "sqlite"@ && db_path == database_path(connection),
            RestorePlanView::Archive { backup_path, db_path } => manifest.file_path == Some(
                backup_path,
            ) && manifest.version != "sqlite"@ && db_path == database_path(connection),
        },
        restore_plan(manifest, connection) matches Err(error) ==> error == if manifest.file_path
            is None {
            "Backup file path not available"@
        } else {
            "JSON backups cannot be restored directly"@
        },
{
    reveal_strlit("json");
    reveal_strlit("sqlite");
    assert("json"@.len() != "sqlite"@.len());
}

} // verus!
