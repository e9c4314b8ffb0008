//! What a restoring has done by the time that the application restarts: everything that the
//! archive holds has been put back, each in its place.
use vstd::prelude::*;

use crate::location::LocationView;
use crate::restore::{
    next_directory, restore_step, source_place, target_place, ContentsView, DataDirectory,
    RestoreActionView, RestoreInputView, RestorePhase, RestoreView,
};
use crate::restore_laws::restore_run;
use crate::text::text_or_empty;
use crate::tool_input::{field_text, json_fields};

verus! {

/// What a restoring is begun with.
pub struct RestoreCall<B> {
    pub app_data_dir: B,
    pub documents_root: B,
    pub backup_path: Seq<char>,
    pub db_path: Seq<char>,
}

/// The state and all actions of a restoring after some answers.
pub open spec fn run_of<B>(call: RestoreCall<B>, inputs: Seq<RestoreInputView>) -> (
    RestoreView<B>,
    Seq<RestoreActionView<B>>,
) {
    restore_run(
        call.app_data_dir,
        call.documents_root,
        call.backup_path,
        call.db_path,
        inputs,
    )
}

/// Whether one of the answers was given to an action: the action was the last one before it.
#[verifier::opaque]
pub open spec fn was_answered<B>(
    call: RestoreCall<B>,
    inputs: Seq<RestoreInputView>,
    action: RestoreActionView<B>,
    answer: RestoreInputView,
) -> bool {
    exists|k: int|
        0 <= k < inputs.len() && #[trigger] inputs[k] == answer && run_of(
            call,
            inputs.take(k),
        ).1.last() == action
}

/// A place in the data directory of the application.
pub open spec fn data_place<B>(call: RestoreCall<B>, steps: Seq<Seq<char>>) -> LocationView<B> {
    LocationView::Below { base: call.app_data_dir, steps }
}

/// Whether an archive holds a directory.
pub open spec fn archive_has(contents: ContentsView, directory: DataDirectory) -> bool {
    ||| directory == DataDirectory::Documents && contents.has_documents
    ||| directory == DataDirectory::Workspace && contents.has_workspace
    ||| directory == DataDirectory::VectorDb && contents.has_vector_db
    ||| directory == DataDirectory::Ssl && contents.has_ssl
}

/// Where a directory of the archive is unpacked.
pub open spec fn unpacked_at<B>(
    call: RestoreCall<B>,
    directory: DataDirectory,
) -> LocationView<B> {
    match directory {
        DataDirectory::Documents => data_place(call, seq!["_local_restore_temp"@, "documents"@]),
        DataDirectory::Workspace => data_place(call, seq!["_local_restore_temp"@, "workspace"@]),
        DataDirectory::VectorDb => data_place(
            call,
            seq!["_local_restore_temp"@, "aqbot_home"@, "vector_db"@],
        ),
        DataDirectory::Ssl => data_place(
            call,
            seq!["_local_restore_temp"@, "aqbot_home"@, "ssl"@],
        ),
    }
}

/// Where a directory of the archive belongs.
pub open spec fn belongs_at<B>(call: RestoreCall<B>, directory: DataDirectory) -> LocationView<B> {
    match directory {
        DataDirectory::Documents => LocationView::Below {
            base: call.documents_root,
            steps: Seq::empty(),
        },
        DataDirectory::Workspace => data_place(call, seq!["workspace"@]),
        DataDirectory::VectorDb => data_place(call, seq!["vector_db"@]),
        DataDirectory::Ssl => data_place(call, seq!["ssl"@]),
    }
}

/// The question whether a directory was unpacked.
pub open spec fn looks_for<B>(
    call: RestoreCall<B>,
    directory: DataDirectory,
) -> RestoreActionView<B> {
    RestoreActionView::CheckExistence(unpacked_at(call, directory))
}

/// The copying of an unpacked directory to where it belongs.
pub open spec fn puts_back<B>(
    call: RestoreCall<B>,
    directory: DataDirectory,
) -> RestoreActionView<B> {
    RestoreActionView::CopyDirectory {
        from: unpacked_at(call, directory),
        to: belongs_at(call, directory),
    }
}

/// Whether a directory that the archive holds was looked for and, where it was found, copied to
/// where it belongs without an error.
pub open spec fn is_back<B>(
    call: RestoreCall<B>,
    inputs: Seq<RestoreInputView>,
    directory: DataDirectory,
) -> bool {
    ||| was_answered(
        call,
        inputs,
        looks_for(call, directory),
        RestoreInputView::ExistenceChecked(false),
    )
    ||| {
        &&& was_answered(
            call,
            inputs,
            looks_for(call, directory),
            RestoreInputView::ExistenceChecked(true),
        )
        &&& was_answered(
            call,
            inputs,
            puts_back(call, directory),
            RestoreInputView::DirectoryCopied(None),
        )
    }
}

/// The checksum that an archive names for its database.
pub open spec fn named_checksum(contents: ContentsView) -> Option<Seq<char>> {
    field_text(json_fields(contents.metadata), "db_checksum"@)
}

/// Whether the checksum that the archive names, if it names one, was found to be right.
pub open spec fn is_verified<B>(
    call: RestoreCall<B>,
    inputs: Seq<RestoreInputView>,
    contents: ContentsView,
) -> bool {
    named_checksum(contents) matches Some(expected) ==> was_answered(
        call,
        inputs,
        RestoreActionView::VerifyChecksum { expected },
        RestoreInputView::ChecksumVerified(Ok(true)),
    )
}

/// The putting back of the master key.
pub open spec fn puts_key_back<B>(call: RestoreCall<B>) -> RestoreActionView<B> {
    RestoreActionView::RestoreKey { to: data_place(call, seq!["master.key"@]) }
}

/// Whether the master key that the archive holds, if it holds one, was put back.
pub open spec fn key_is_back<B>(
    call: RestoreCall<B>,
    inputs: Seq<RestoreInputView>,
    contents: ContentsView,
) -> bool {
    contents.has_master_key ==> was_answered(
        call,
        inputs,
        puts_key_back(call),
        RestoreInputView::KeyRestored(None),
    )
}

/// The putting back of the database.
pub open spec fn puts_database_back<B>(
    call: RestoreCall<B>,
    contents: ContentsView,
) -> RestoreActionView<B> {
    RestoreActionView::RestoreDatabase {
        backup_path: text_or_empty(contents.db_path),
        db_path: call.db_path,
    }
}

/// Whether the database was put back.
pub open spec fn database_is_back<B>(
    call: RestoreCall<B>,
    inputs: Seq<RestoreInputView>,
    contents: ContentsView,
) -> bool {
    was_answered(
        call,
        inputs,
        puts_database_back(call, contents),
        RestoreInputView::DatabaseRestored(None),
    )
}

spec fn rank_of(directory: DataDirectory) -> int {
    match directory {
        DataDirectory::Documents => 0,
        DataDirectory::Workspace => 1,
        DataDirectory::VectorDb => 2,
        DataDirectory::Ssl => 3,
    }
}

spec fn rank_from(from: Option<DataDirectory>) -> int {
    match from {
        Some(directory) => rank_of(directory),
        None => 4,
    }
}

/// Whether every directory in front of a rank that the archive holds is back.
spec fn all_back<B>(
    call: RestoreCall<B>,
    inputs: Seq<RestoreInputView>,
    contents: ContentsView,
    rank: int,
) -> bool {
    forall|directory: DataDirectory|
        archive_has(contents, directory) && rank_of(directory) < rank ==> #[trigger] is_back(
            call,
            inputs,
            directory,
        )
}

/// What holds at each point of a restoring, given its last action.
spec fn archive_ok<B>(
    call: RestoreCall<B>,
    inputs: Seq<RestoreInputView>,
    s: RestoreView<B>,
    last: RestoreActionView<B>,
) -> bool {
    let contents = s.contents->0;
    &&& s.app_data_dir == call.app_data_dir && s.documents_root == call.documents_root
        && s.db_path == call.db_path
    &&& s.phase is Extracting || last is Fail || s.contents is Some
    &&& match s.phase {
        RestorePhase::Extracting => last == (RestoreActionView::Extract {
            backup_path: call.backup_path,
            into: data_place(call, seq!["_local_restore_temp"@]),
        }),
        RestorePhase::VerifyingChecksum => {
            named_checksum(contents) matches Some(expected) && last
                == (RestoreActionView::<B>::VerifyChecksum { expected })
        },
        RestorePhase::CheckingKey => {
            &&& is_verified(call, inputs, contents)
            &&& last == RestoreActionView::CheckExistence(
                data_place(call, seq!["master.key"@]),
            )
        },
        RestorePhase::RestoringKey => {
            &&& is_verified(call, inputs, contents)
            &&& last == puts_key_back(call)
        },
        RestorePhase::RestoringDatabase => {
            &&& is_verified(call, inputs, contents)
            &&& key_is_back(call, inputs, contents)
            &&& last == puts_database_back(call, contents)
        },
        RestorePhase::CheckingDirectory(directory) => {
            &&& is_verified(call, inputs, contents)
            &&& key_is_back(call, inputs, contents)
            &&& database_is_back(call, inputs, contents)
            &&& all_back(call, inputs, contents, rank_of(directory))
            &&& last == looks_for(call, directory)
        },
        RestorePhase::CopyingDirectory(directory) => {
            &&& is_verified(call, inputs, contents)
            &&& key_is_back(call, inputs, contents)
            &&& database_is_back(call, inputs, contents)
            &&& all_back(call, inputs, contents, rank_of(directory))
            &&& was_answered(
                call,
                inputs,
                looks_for(call, directory),
                RestoreInputView::ExistenceChecked(true),
            )
            &&& last == puts_back(call, directory)
        },
        RestorePhase::Ended => {
            ||| last is Fail
            ||| {
                &&& last is Restart
                &&& is_verified(call, inputs, contents)
                &&& key_is_back(call, inputs, contents)
                &&& database_is_back(call, inputs, contents)
                &&& all_back(call, inputs, contents, 4)
            }
        },
    }
}

proof fn answers_remain<B>(
    call: RestoreCall<B>,
    inputs: Seq<RestoreInputView>,
    input: RestoreInputView,
)
    ensures
        forall|action: RestoreActionView<B>, answer: RestoreInputView|
            was_answered(call, inputs, action, answer) ==> #[trigger] was_answered(
                call,
                inputs.push(input),
                action,
                answer,
            ),
        was_answered(call, inputs.push(input), run_of(call, inputs).1.last(), input),
{
    reveal(was_answered);
    let longer = inputs.push(input);
    assert forall|action: RestoreActionView<B>, answer: RestoreInputView|
        was_answered(call, inputs, action, answer) implies #[trigger] was_answered(
        call,
        longer,
        action,
        answer,
    ) by {
        let k = choose|k: int|
            0 <= k < inputs.len() && #[trigger] inputs[k] == answer && run_of(
                call,
                inputs.take(k),
            ).1.last() == action;
        assert(longer.take(k) =~= inputs.take(k));
        assert(longer[k] == inputs[k]);
    }
    assert(longer.take(inputs.len() as int) =~= inputs);
    assert(longer[inputs.len() as int] == input);
}

/// The next directory is the first one from a rank on that the archive holds.
proof fn next_directory_is_held<B>(
    call: RestoreCall<B>,
    s: RestoreView<B>,
    from: Option<DataDirectory>,
)
    requires
        s.app_data_dir == call.app_data_dir,
        s.contents is Some,
    ensures
        ({
            let (next, actions) = next_directory(s, from);
            &&& actions.len() == 1
            &&& next == (RestoreView { phase: next.phase, ..s })
            &&& match next.phase {
                RestorePhase::CheckingDirectory(directory) => {
                    &&& actions[0] == looks_for(call, directory)
                    &&& rank_from(from) <= rank_of(directory)
                    &&& archive_has(s.contents->0, directory)
                    &&& forall|d: DataDirectory|
                        rank_from(from) <= #[trigger] rank_of(d) < rank_of(directory)
                            ==> !archive_has(s.contents->0, d)
                },
                RestorePhase::Ended => {
                    &&& actions[0] is Restart
                    &&& forall|d: DataDirectory|
                        rank_from(from) <= #[trigger] rank_of(d) ==> !archive_has(
                            s.contents->0,
                            d,
                        )
                },
                _ => false,
            }
        }),
    decreases 4 - rank_from(from),
{
    if let Some(directory) = from {
        if !archive_has(s.contents->0, directory) {
            next_directory_is_held(call, s, directory.following());
            assert forall|d: DataDirectory| #[trigger] rank_of(d) == rank_of(directory) implies d
                == directory by {}
        } else {
            assert(unpacked_at(call, directory) == source_place(s.app_data_dir, directory));
        }
    }
}

/// Whether answers say all that earlier ones said.
spec fn says_more<B>(
    call: RestoreCall<B>,
    inputs: Seq<RestoreInputView>,
    longer: Seq<RestoreInputView>,
) -> bool {
    forall|action: RestoreActionView<B>, answer: RestoreInputView|
        was_answered(call, inputs, action, answer) ==> #[trigger] was_answered(
            call,
            longer,
            action,
            answer,
        )
}

proof fn all_back_remain<B>(
    call: RestoreCall<B>,
    inputs: Seq<RestoreInputView>,
    longer: Seq<RestoreInputView>,
    contents: ContentsView,
    rank: int,
)
    requires
        says_more(call, inputs, longer),
        all_back(call, inputs, contents, rank),
    ensures
        all_back(call, longer, contents, rank),
{
    assert forall|directory: DataDirectory|
        archive_has(contents, directory) && rank_of(directory) < rank implies #[trigger] is_back(
        call,
        longer,
        directory,
    ) by {
        assert(is_back(call, inputs, directory));
    }
}

/// The way on to the next directory keeps what holds.
proof fn next_directory_keeps<B>(
    call: RestoreCall<B>,
    inputs: Seq<RestoreInputView>,
    s: RestoreView<B>,
    from: Option<DataDirectory>,
)
    requires
        s.app_data_dir == call.app_data_dir && s.documents_root == call.documents_root
            && s.db_path == call.db_path,
        s.contents is Some,
        is_verified(call, inputs, s.contents->0),
        key_is_back(call, inputs, s.contents->0),
        database_is_back(call, inputs, s.contents->0),
        all_back(call, inputs, s.contents->0, rank_from(from)),
    ensures
        ({
            let (next, actions) = next_directory(s, from);
            actions.len() > 0 && archive_ok(call, inputs, next, actions.last())
        }),
{
    next_directory_is_held(call, s, from);
    let (next, actions) = next_directory(s, from);
    let contents = s.contents->0;
    let rank = match next.phase {
        RestorePhase::CheckingDirectory(directory) => rank_of(directory),
        _ => 4,
    };
    assert forall|d: DataDirectory|
        archive_has(contents, d) && rank_of(d) < rank implies #[trigger] is_back(
        call,
        inputs,
        d,
    ) by {
        assert(rank_of(d) < rank_from(from));
    }
}

proof fn step_keeps_archive<B>(
    call: RestoreCall<B>,
    inputs: Seq<RestoreInputView>,
    longer: Seq<RestoreInputView>,
    s: RestoreView<B>,
    last: RestoreActionView<B>,
    input: RestoreInputView,
)
    requires
        archive_ok(call, inputs, s, last),
        says_more(call, inputs, longer),
        was_answered(call, longer, last, input),
    ensures
        ({
            let (next, more) = restore_step(s, input);
            archive_ok(
                call,
                longer,
                next,
                if more.len() > 0 {
                    more.last()
                } else {
                    last
                },
            )
        }),
{
    let (next, more) = restore_step(s, input);
    let contents = s.contents->0;
    match (s.phase, input) {
        (RestorePhase::RestoringDatabase, RestoreInputView::DatabaseRestored(None)) => {
            assert(all_back(call, longer, contents, 0));
            next_directory_keeps(call, longer, s, Some(DataDirectory::Documents));
            assert(more.last() == next_directory(s, Some(DataDirectory::Documents)).1.last());
        },
        (RestorePhase::CheckingDirectory(directory), RestoreInputView::ExistenceChecked(found)) => {
            all_back_remain(call, inputs, longer, contents, rank_of(directory));
            if found {
                assert(more.last() == puts_back(call, directory)) by {
                    assert(belongs_at(call, directory) == target_place(
                        s.app_data_dir,
                        s.documents_root,
                        directory,
                    ));
                    assert(unpacked_at(call, directory) == source_place(
                        s.app_data_dir,
                        directory,
                    ));
                }
            } else {
                directory_settled(call, longer, contents, directory);
                next_directory_keeps(call, longer, s, directory.following());
            }
        },
        (RestorePhase::CopyingDirectory(directory), RestoreInputView::DirectoryCopied(error)) => {
            all_back_remain(call, inputs, longer, contents, rank_of(directory));
            if error is None {
                directory_settled(call, longer, contents, directory);
                next_directory_keeps(call, longer, s, directory.following());
            }
        },
        (RestorePhase::CheckingDirectory(directory), _) => {
            all_back_remain(call, inputs, longer, contents, rank_of(directory));
        },
        (RestorePhase::CopyingDirectory(directory), _) => {
            all_back_remain(call, inputs, longer, contents, rank_of(directory));
        },
        (RestorePhase::Ended, _) => {
            if last is Restart {
                all_back_remain(call, inputs, longer, contents, 4);
            }
        },
        _ => {},
    }
}

proof fn directory_settled<B>(
    call: RestoreCall<B>,
    inputs: Seq<RestoreInputView>,
    contents: ContentsView,
    directory: DataDirectory,
)
    requires
        all_back(call, inputs, contents, rank_of(directory)),
        is_back(call, inputs, directory),
    ensures
        all_back(call, inputs, contents, rank_from(directory.following())),
{
    assert forall|d: DataDirectory|
        archive_has(contents, d) && rank_of(d) < rank_from(
            directory.following(),
        ) implies #[trigger] is_back(call, inputs, d) by {
        if rank_of(d) >= rank_of(directory) {
            assert(d == directory);
        }
    }
}

proof fn run_keeps_archive<B>(call: RestoreCall<B>, inputs: Seq<RestoreInputView>)
    ensures
        run_of(call, inputs).1.len() > 0,
        archive_ok(call, inputs, run_of(call, inputs).0, run_of(call, inputs).1.last()),
    decreases inputs.len(),
{
    if inputs.len() > 0 {
        let before = inputs.drop_last();
        run_keeps_archive(call, before);
        let (s, actions) = run_of(call, before);
        let more = restore_step(s, inputs.last()).1;
        assert(before.push(inputs.last()) =~= inputs);
        answers_remain(call, before, inputs.last());
        step_keeps_archive(call, before, inputs, s, actions.last(), inputs.last());
        assert((actions + more).last() == if more.len() > 0 {
            more.last()
        } else {
            actions.last()
        });
    }
}

/// The contents that the unpacking told stay what the restoring knows of the archive.
proof fn contents_are_kept<B>(
    call: RestoreCall<B>,
    inputs: Seq<RestoreInputView>,
    contents: ContentsView,
)
    ensures
        was_unpacked(call, inputs, contents) ==> run_of(call, inputs).0.contents == Some(contents),
    decreases inputs.len(),
{
    reveal(was_answered);
    if inputs.len() > 0 {
        let before = inputs.drop_last();
        contents_are_kept(call, before, contents);
        run_keeps_archive(call, before);
        let (s, actions) = run_of(call, before);
        if was_unpacked(call, inputs, contents) {
            let k = choose|k: int|
                0 <= k < inputs.len() && #[trigger] inputs[k] == RestoreInputView::Extracted(
                    Ok::<ContentsView, Seq<char>>(contents),
                ) && run_of(call, inputs.take(k)).1.last() == unpacks(call);
            if k < before.len() {
                assert(before.take(k) =~= inputs.take(k));
                assert(before[k] == inputs[k]);
                assert(was_unpacked(call, before, contents));
                step_keeps_contents(s, inputs.last());
                unpacked_once(call, before, contents);
            } else {
                assert(inputs.take(k) =~= before);
                assert(s.phase is Extracting);
            }
        }
    }
}

/// The unpacking of the archive.
pub open spec fn unpacks<B>(call: RestoreCall<B>) -> RestoreActionView<B> {
    RestoreActionView::Extract {
        backup_path: call.backup_path,
        into: data_place(call, seq!["_local_restore_temp"@]),
    }
}

/// Whether the archive was unpacked with the given contents.
pub open spec fn was_unpacked<B>(
    call: RestoreCall<B>,
    inputs: Seq<RestoreInputView>,
    contents: ContentsView,
) -> bool {
    was_answered(call, inputs, unpacks(call), RestoreInputView::Extracted(Ok(contents)))
}

proof fn step_keeps_contents<B>(s: RestoreView<B>, input: RestoreInputView)
    ensures
        !(s.phase is Extracting) && s.contents is Some ==> restore_step(s, input).0.contents
            == s.contents,
        !(s.phase is Extracting) ==> !(restore_step(s, input).0.phase is Extracting),
        s.phase is Extracting && input is Extracted ==> !(restore_step(s, input).0.phase
            is Extracting),
{
    if s.contents is Some {
        let call = RestoreCall {
            app_data_dir: s.app_data_dir,
            documents_root: s.documents_root,
            backup_path: Seq::empty(),
            db_path: s.db_path,
        };
        next_directory_is_held(call, s, Some(DataDirectory::Documents));
        next_directory_is_held(call, s, Some(DataDirectory::Workspace));
        next_directory_is_held(call, s, Some(DataDirectory::VectorDb));
        next_directory_is_held(call, s, Some(DataDirectory::Ssl));
        next_directory_is_held(call, s, None);
    } else {
        next_directory_goes_on(s, Some(DataDirectory::Documents));
        next_directory_goes_on(s, Some(DataDirectory::Workspace));
        next_directory_goes_on(s, Some(DataDirectory::VectorDb));
        next_directory_goes_on(s, Some(DataDirectory::Ssl));
        next_directory_goes_on(s, None);
    }
}

proof fn next_directory_goes_on<B>(s: RestoreView<B>, from: Option<DataDirectory>)
    ensures
        !(next_directory(s, from).0.phase is Extracting),
    decreases 4 - rank_from(from),
{
    if let Some(directory) = from {
        next_directory_goes_on(s, directory.following());
    }
}

/// A restoring that has unpacked its archive does not wait for that any more.
proof fn unpacked_once<B>(
    call: RestoreCall<B>,
    inputs: Seq<RestoreInputView>,
    contents: ContentsView,
)
    requires
        was_unpacked(call, inputs, contents),
    ensures
        !(run_of(call, inputs).0.phase is Extracting),
    decreases inputs.len(),
{
    reveal(was_answered);
    let before = inputs.drop_last();
    let k = choose|k: int|
        0 <= k < inputs.len() && #[trigger] inputs[k] == RestoreInputView::Extracted(
            Ok::<ContentsView, Seq<char>>(contents),
        ) && run_of(call, inputs.take(k)).1.last() == unpacks(call);
    let s = run_of(call, before).0;
    step_keeps_contents(s, inputs.last());
    if k < before.len() {
        assert(before.take(k) =~= inputs.take(k));
        assert(before[k] == inputs[k]);
        assert(was_unpacked(call, before, contents));
        unpacked_once(call, before, contents);
    } else {
        assert(inputs.take(k) =~= before);
        run_keeps_archive(call, before);
        assert(s.phase is Extracting);
    }
}

/// When the application restarts, everything that the archive holds is back: its checksum, if
/// it names one, was found to be right, its master key is in its place, its database has
/// replaced the present one, and each of its directories that was unpacked has been copied to
/// where it belongs.
pub proof fn a_restart_has_put_everything_back<B>(
    call: RestoreCall<B>,
    inputs: Seq<RestoreInputView>,
    contents: ContentsView,
    directory: DataDirectory,
)
    requires
        run_of(call, inputs).1.last() is Restart,
        was_unpacked(call, inputs, contents),
    ensures
        is_verified(call, inputs, contents),
        key_is_back(call, inputs, contents),
        database_is_back(call, inputs, contents),
        archive_has(contents, directory) ==> is_back(call, inputs, directory),
{
    run_keeps_archive(call, inputs);
    contents_are_kept(call, inputs, contents);
    let (s, actions) = run_of(call, inputs);
    assert(s.phase is Ended);
}

/// What a restoring waits for is always what it has asked for last, and it asks in turn: it
/// unpacks the archive, compares the checksum that the archive names, looks for the present
/// key, puts the key and then the database back, and then each directory that the archive
/// holds.
pub proof fn a_restoring_asks_in_turn<B>(
    call: RestoreCall<B>,
    inputs: Seq<RestoreInputView>,
    contents: ContentsView,
)
    requires
        was_unpacked(call, inputs, contents),
    ensures
        ({
            let (s, actions) = run_of(call, inputs);
            let last = actions.last();
            &&& last is VerifyChecksum ==> named_checksum(contents)
                == Some(last->expected)
            &&& last is RestoreKey ==> contents.has_master_key && is_verified(
                call,
                inputs,
                contents,
            ) && last == puts_key_back(call)
            &&& last is RestoreDatabase ==> is_verified(call, inputs, contents) && key_is_back(
                call,
                inputs,
                contents,
            ) && last == puts_database_back(call, contents)
            &&& last is CopyDirectory ==> database_is_back(call, inputs, contents)
                && exists|directory: DataDirectory|
                archive_has(contents, directory) && last == #[trigger] puts_back(call, directory)
        }),
{
    run_keeps_archive(call, inputs);
    contents_are_kept(call, inputs, contents);
    held_directories_only(call, inputs);
    let (s, actions) = run_of(call, inputs);
    if let RestorePhase::CopyingDirectory(directory) = s.phase {
        assert(actions.last() == puts_back(call, directory));
    }
}

/// A restoring that looks for a directory, copies one or puts the key back does so because the
/// archive holds it.
proof fn held_directories_only<B>(call: RestoreCall<B>, inputs: Seq<RestoreInputView>)
    ensures
        ({
            let s = run_of(call, inputs).0;
            match s.phase {
                RestorePhase::CheckingDirectory(directory) => archive_has(
                    s.contents->0,
                    directory,
                ),
                RestorePhase::CopyingDirectory(directory) => archive_has(
                    s.contents->0,
                    directory,
                ),
                RestorePhase::RestoringKey => s.contents->0.has_master_key,
                _ => true,
            }
        }),
    decreases inputs.len(),
{
    if inputs.len() > 0 {
        let before = inputs.drop_last();
        held_directories_only(call, before);
        run_keeps_archive(call, before);
        let s = run_of(call, before).0;
        if s.contents is Some {
            next_directory_is_held(call, s, Some(DataDirectory::Documents));
            next_directory_is_held(call, s, Some(DataDirectory::Workspace));
            next_directory_is_held(call, s, Some(DataDirectory::VectorDb));
            next_directory_is_held(call, s, Some(DataDirectory::Ssl));
            next_directory_is_held(call, s, None);
        }
    }
}

/// Whether an answer, given to an action, is a reason for a restoring to fail with some words.
pub open spec fn is_reason_to_fail<B>(
    call: RestoreCall<B>,
    asked: RestoreActionView<B>,
    answer: RestoreInputView,
    words: Seq<char>,
) -> bool {
    match (asked, answer) {
        (RestoreActionView::Extract { .. }, RestoreInputView::Extracted(Err(error))) => words
            == error,
        (
            RestoreActionView::VerifyChecksum { .. },
            RestoreInputView::ChecksumVerified(Err(error)),
        ) => words == error,
        (RestoreActionView::VerifyChecksum { .. }, RestoreInputView::ChecksumVerified(Ok(false))) =>
            words == "Backup checksum verification failed; file may be corrupted"@,
        (RestoreActionView::RestoreKey { .. }, RestoreInputView::KeyRestored(Some(error))) => words
            == "Failed to restore master.key: "@ + error,
        (
            RestoreActionView::RestoreDatabase { .. },
            RestoreInputView::DatabaseRestored(Some(error)),
        ) => words == error,
        (
            RestoreActionView::CopyDirectory { .. },
            RestoreInputView::DirectoryCopied(Some(error)),
        ) => {
            ||| asked == puts_back(call, DataDirectory::Documents) && words == "Failed to restore "@
                + "documents"@ + ": "@ + error
            ||| asked == puts_back(call, DataDirectory::Workspace) && words == "Failed to restore "@
                + "workspace"@ + ": "@ + error
            ||| asked == puts_back(call, DataDirectory::VectorDb) && words == "Failed to restore "@
                + "vector_db"@ + ": "@ + error
            ||| asked == puts_back(call, DataDirectory::Ssl) && words == "Failed to restore "@
                + "ssl"@ + ": "@ + error
        },
        _ => false,
    }
}

proof fn unpacked_places_differ<B>(call: RestoreCall<B>, a: DataDirectory, b: DataDirectory)
    ensures
        puts_back(call, a) == puts_back(call, b) ==> a == b,
{
    reveal_strlit("documents");
    reveal_strlit("workspace");
    reveal_strlit("vector_db");
    reveal_strlit("ssl");
    reveal_strlit("aqbot_home");
    assert("documents"@[0] == 'd' && "workspace"@[0] == 'w' && "vector_db"@[0] == 'v');
    assert("ssl"@[0] == 's' && "aqbot_home"@[0] == 'a');
    let x = unpacked_at(call, a)->steps;
    let y = unpacked_at(call, b)->steps;
    if x == y {
        assert(x.len() == y.len());
        assert(x[1] == y[1]);
        if x.len() == 3 {
            assert(x[2] == y[2]);
        }
    }
}

proof fn one_step_of_a_failure<B>(
    call: RestoreCall<B>,
    inputs: Seq<RestoreInputView>,
    s: RestoreView<B>,
    last: RestoreActionView<B>,
    input: RestoreInputView,
    words: Seq<char>,
)
    requires
        archive_ok(call, inputs, s, last),
    ensures
        ({
            let more = restore_step(s, input).1;
            more.len() > 0 && more.last() == RestoreActionView::<B>::Fail(words)
                <==> is_reason_to_fail(call, last, input, words)
        }),
{
    match s.phase {
        RestorePhase::RestoringDatabase => {
            next_directory_is_held(call, s, Some(DataDirectory::Documents));
        },
        RestorePhase::CheckingDirectory(directory) => {
            next_directory_is_held(call, s, directory.following());
        },
        RestorePhase::CopyingDirectory(directory) => {
            next_directory_is_held(call, s, directory.following());
            unpacked_places_differ(call, directory, DataDirectory::Documents);
            unpacked_places_differ(call, directory, DataDirectory::Workspace);
            unpacked_places_differ(call, directory, DataDirectory::VectorDb);
            unpacked_places_differ(call, directory, DataDirectory::Ssl);
        },
        _ => {},
    }
}

/// A restoring fails if and only if an answer to its last action is a reason for it, at once
/// and in the words of that reason: every step that fails is one, and so is a wrong checksum.
pub proof fn a_restoring_fails_for_a_reason<B>(
    call: RestoreCall<B>,
    inputs: Seq<RestoreInputView>,
    answer: RestoreInputView,
    words: Seq<char>,
)
    ensures
        ({
            let before = run_of(call, inputs).1;
            let after = run_of(call, inputs.push(answer)).1;
            after.len() > before.len() && after.last() == RestoreActionView::<B>::Fail(words)
                <==> is_reason_to_fail(call, before.last(), answer, words)
        }),
{
    run_keeps_archive(call, inputs);
    let (s, before) = run_of(call, inputs);
    one_step_of_a_failure(call, inputs, s, before.last(), answer, words);
    assert(inputs.push(answer).drop_last() =~= inputs);
    let more = restore_step(s, answer).1;
    assert((before + more).last() == if more.len() > 0 {
        more.last()
    } else {
        before.last()
    });
}

/// A restoring begins with an empty place to unpack into.
pub proof fn a_restoring_begins_afresh<B>(call: RestoreCall<B>)
    ensures
        run_of(call, Seq::empty()).1 == seq![
            RestoreActionView::RemoveDirectory(data_place(call, seq!["_local_restore_temp"@])),
            RestoreActionView::Extract {
                backup_path: call.backup_path,
                into: data_place(call, seq!["_local_restore_temp"@]),
            },
        ],
{
}

/// What stands beside the restored files is put in order: a present key is copied aside and a
/// restored one put in place, both for the user's eyes only, and what was not yet written into
/// the former database is removed. A failure removes all that was put aside.
pub proof fn a_restoring_leaves_no_traces<B>(
    call: RestoreCall<B>,
    s: RestoreView<B>,
    input: RestoreInputView,
)
    requires
        s.app_data_dir == call.app_data_dir && s.db_path == call.db_path,
        s.phase is Extracting || s.contents is Some,
    ensures
        ({
            let (next, actions) = restore_step(s, input);
            let key = data_place(call, seq!["master.key"@]);
            let aside = data_place(
                call,
                seq!["_local_restore_temp"@, "_pre_local_restore_safety.key"@],
            );
            let n = actions.len();
            &&& s.phase is CheckingKey && input == RestoreInputView::ExistenceChecked(true) ==> {
                &&& next.key_saved
                &&& n == 3
                &&& actions[0] == (RestoreActionView::CopyFile { from: key, to: aside })
                &&& actions[1] == RestoreActionView::MakePrivate(aside)
            }
            &&& s.phase is CheckingKey && input == RestoreInputView::ExistenceChecked(false) ==> {
                &&& next.key_saved == s.key_saved
                &&& n == 1
            }
            &&& s.phase is RestoringKey && input == RestoreInputView::KeyRestored(None) ==> {
                &&& n == 2
                &&& actions[0] == RestoreActionView::MakePrivate(key)
            }
            &&& s.phase is RestoringDatabase && input == RestoreInputView::DatabaseRestored(
                None,
            ) ==> {
                &&& n == 3
                &&& actions[0] == RestoreActionView::RemoveFile(
                    LocationView::<B>::Explicit(call.db_path + "-wal"@),
                )
                &&& actions[1] == RestoreActionView::RemoveFile(
                    LocationView::<B>::Explicit(call.db_path + "-shm"@),
                )
            }
            &&& n > 0 && actions.last() is Fail ==> if s.key_saved {
                &&& n == 3
                &&& actions[0] == RestoreActionView::RemoveFile(aside)
                &&& actions[1] == RestoreActionView::RemoveDirectory(
                    data_place(call, seq!["_local_restore_temp"@]),
                )
            } else {
                &&& n == 2
                &&& actions[0] == RestoreActionView::RemoveDirectory(
                    data_place(call, seq!["_local_restore_temp"@]),
                )
            }
        }),
{
    match s.phase {
        RestorePhase::RestoringDatabase => {
            next_directory_is_held(call, s, Some(DataDirectory::Documents));
        },
        RestorePhase::CheckingDirectory(directory) => {
            next_directory_is_held(call, s, directory.following());
        },
        RestorePhase::CopyingDirectory(directory) => {
            next_directory_is_held(call, s, directory.following());
        },
        _ => {},
    }
}

/// Whether an answer belongs to an action of a restoring.
pub open spec fn is_answer_to<B>(asked: RestoreActionView<B>, answer: RestoreInputView) -> bool {
    match answer {
        RestoreInputView::Extracted(_) => asked is Extract,
        RestoreInputView::ChecksumVerified(_) => asked is VerifyChecksum,
        RestoreInputView::ExistenceChecked(_) => asked is CheckExistence,
        RestoreInputView::KeyRestored(_) => asked is RestoreKey,
        RestoreInputView::DatabaseRestored(_) => asked is RestoreDatabase,
        RestoreInputView::DirectoryCopied(_) => asked is CopyDirectory,
    }
}

/// A restoring never gets stuck: the answer to its last action leads to a further action, until
/// the application restarts or the restoring fails, and any other answer leads to none.
pub proof fn a_restoring_never_gets_stuck<B>(
    call: RestoreCall<B>,
    inputs: Seq<RestoreInputView>,
    answer: RestoreInputView,
)
    ensures
        ({
            let before = run_of(call, inputs).1;
            let after = run_of(call, inputs.push(answer)).1;
            &&& before.is_prefix_of(after)
            &&& after.len() > before.len() <==> is_answer_to(before.last(), answer)
        }),
{
    run_keeps_archive(call, inputs);
    let (s, before) = run_of(call, inputs);
    assert(inputs.push(answer).drop_last() =~= inputs);
    let more = restore_step(s, answer).1;
    match s.phase {
        RestorePhase::RestoringDatabase => {
            next_directory_is_held(call, s, Some(DataDirectory::Documents));
        },
        RestorePhase::CheckingDirectory(directory) => {
            next_directory_is_held(call, s, directory.following());
        },
        RestorePhase::CopyingDirectory(directory) => {
            next_directory_is_held(call, s, directory.following());
        },
        _ => {},
    }
    let after = before + more;
    assert(before =~= after.subrange(0, before.len() as int));
}

} // verus!
