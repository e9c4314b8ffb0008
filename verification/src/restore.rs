//! The restoring of backups.
//!
//! The restoring of an archive takes the answers to its actions as [`RestoreInput`]; each
//! gives a list of [`RestoreAction`] to perform in order. An action that has an answer is
//! always the last of its list.
use vstd::prelude::*;
use vstd::string::*;

use crate::backup::{
    database_path, gateway_error, strip_sqlite_prefix, BackupError, BackupErrorView,
    BackupManifest, ManifestView,
};
use crate::location::{below, two_below, Location, LocationView};
use crate::text::{copy_or_empty, opt_view, same_text, text_or_empty, views};
use crate::tool_input::{field_text, json_field_text, json_fields};

verus! {

/// How a backup is restored.
pub enum RestorePlan {
    /// Its file takes the place of the database.
    Database { backup_path: String, db_path: String },
    /// Its archive is unpacked.
    Archive { backup_path: String, db_path: String },
}

/// A plan, its texts as sequences of characters.
pub enum RestorePlanView {
    Database { backup_path: Seq<char>, db_path: Seq<char> },
    Archive { backup_path: Seq<char>, db_path: Seq<char> },
}

impl View for RestorePlan {
    type V = RestorePlanView;

    open spec fn view(&self) -> RestorePlanView {
        match self {
            RestorePlan::Database { backup_path, db_path } => RestorePlanView::Database {
                backup_path: backup_path@,
                db_path: db_path@,
            },
            RestorePlan::Archive { backup_path, db_path } => RestorePlanView::Archive {
                backup_path: backup_path@,
                db_path: db_path@,
            },
        }
    }
}

/// How a backup is restored into the database of a connection, or why it cannot be.
pub open spec fn restore_plan(manifest: ManifestView, connection: Seq<char>) -> Result<
    RestorePlanView,
    Seq<char>,
> {
    match manifest.file_path {
        None => Err("Backup file path not available"@),
        Some(backup_path) => {
            let db_path = database_path(connection);
            if manifest.version == "json"@ {
                Err("JSON backups cannot be restored directly"@)
            } else if manifest.version == "sqlite"@ {
                Ok(RestorePlanView::Database { backup_path, db_path })
            } else {
                Ok(RestorePlanView::Archive { backup_path, db_path })
            }
        },
    }
}

/// Decides how a backup is restored into the database of a connection.
pub fn restore_backup(manifest: BackupManifest, connection: &str) -> (plan: Result<
    RestorePlan,
    String,
>)
    ensures
        match plan {
            Ok(plan) => restore_plan(manifest@, connection@) == Ok::<RestorePlanView, Seq<char>>(
                plan@,
            ),
            Err(error) => restore_plan(manifest@, connection@) == Err::<
                RestorePlanView,
                Seq<char>,
            >(error@),
        },
{
    let backup_path = match manifest.file_path {
        Some(path) => path,
        None => {
            return Err("Backup file path not available".to_owned());
        },
    };
    let db_path = strip_sqlite_prefix(connection);
    if same_text(manifest.version.as_str(), "json") {
        Err("JSON backups cannot be restored directly".to_owned())
    } else if same_text(manifest.version.as_str(), "sqlite") {
        Ok(RestorePlan::Database { backup_path, db_path })
    } else {
        Ok(RestorePlan::Archive { backup_path, db_path })
    }
}

// ---------------------------------------------------------------------------------------
// Databases
// ---------------------------------------------------------------------------------------

/// What is known of the restoring of a database.
pub enum DatabaseInput {
    /// Whether the file of the backup exists.
    SourceChecked(bool),
    /// The answer to `Copy`: the error, where there was one.
    Copied(Option<String>),
}

/// What to do next for the restoring of a database.
pub enum DatabaseAction {
    /// Copy the file of the backup over the database; answered by `Copied`.
    Copy,
    /// The end: an error, if there was one.
    Finish(Option<BackupError>),
}

/// Takes whether the file of the backup exists, and then the answer to the last action, and
/// says what to do.
pub fn restore_sqlite_backup(backup_path: &str, input: DatabaseInput) -> (action: DatabaseAction)
    ensures
        match input {
            DatabaseInput::SourceChecked(true) => action is Copy,
            DatabaseInput::SourceChecked(false) => action matches DatabaseAction::Finish(
                Some(error),
            ) && error@ == BackupErrorView::NotFound("Backup file not found: "@ + backup_path@),
            DatabaseInput::Copied(Some(why)) => action matches DatabaseAction::Finish(Some(error))
                && error@ == BackupErrorView::Gateway("Failed to restore backup: "@ + why@),
            DatabaseInput::Copied(None) => action matches DatabaseAction::Finish(None),
        },
{
    match input {
        DatabaseInput::SourceChecked(exists) => {
            if exists {
                DatabaseAction::Copy
            } else {
                let mut message = "Backup file not found: ".to_owned();
                message.append(backup_path);
                DatabaseAction::Finish(Some(BackupError::NotFound(message)))
            }
        },
        DatabaseInput::Copied(Some(why)) => DatabaseAction::Finish(
            Some(gateway_error("Failed to restore backup: ", why.as_str())),
        ),
        DatabaseInput::Copied(None) => DatabaseAction::Finish(None),
    }
}

/// The files beside a database that hold changes not yet in it, which a restored database must
/// not see.
pub fn side_files(db_path: &str) -> (paths: (String, String))
    ensures
        paths.0@ == db_path@ + "-wal"@,
        paths.1@ == db_path@ + "-shm"@,
{
    let mut wal = db_path.to_owned();
    wal.append("-wal");
    let mut shm = db_path.to_owned();
    shm.append("-shm");
    (wal, shm)
}

// ---------------------------------------------------------------------------------------
// Archives
// ---------------------------------------------------------------------------------------

/// What an unpacked archive holds.
pub struct ArchiveContents {
    pub metadata: serde_json::Value,
    /// The path of the database in it, unless that is no Unicode.
    pub db_path: Option<String>,
    pub has_master_key: bool,
    pub has_documents: bool,
    pub has_workspace: bool,
    pub has_vector_db: bool,
    pub has_ssl: bool,
}

/// The contents of an archive, their texts as sequences of characters.
pub struct ContentsView {
    pub metadata: serde_json::Value,
    pub db_path: Option<Seq<char>>,
    pub has_master_key: bool,
    pub has_documents: bool,
    pub has_workspace: bool,
    pub has_vector_db: bool,
    pub has_ssl: bool,
}

impl View for ArchiveContents {
    type V = ContentsView;

    open spec fn view(&self) -> ContentsView {
        ContentsView {
            metadata: self.metadata,
            db_path: opt_view(self.db_path),
            has_master_key: self.has_master_key,
            has_documents: self.has_documents,
            has_workspace: self.has_workspace,
            has_vector_db: self.has_vector_db,
            has_ssl: self.has_ssl,
        }
    }
}

/// The answer to an action. An `Option` is the error of an action that has no result.
pub enum RestoreInput {
    Extracted(Result<ArchiveContents, String>),
    /// Whether the checksum is the expected one.
    ChecksumVerified(Result<bool, String>),
    /// Whether a file or directory exists.
    ExistenceChecked(bool),
    KeyRestored(Option<String>),
    DatabaseRestored(Option<String>),
    DirectoryCopied(Option<String>),
}

/// An answer, its texts as sequences of characters.
pub enum RestoreInputView {
    Extracted(Result<ContentsView, Seq<char>>),
    ChecksumVerified(Result<bool, Seq<char>>),
    ExistenceChecked(bool),
    KeyRestored(Option<Seq<char>>),
    DatabaseRestored(Option<Seq<char>>),
    DirectoryCopied(Option<Seq<char>>),
}

impl View for RestoreInput {
    type V = RestoreInputView;

    open spec fn view(&self) -> RestoreInputView {
        match self {
            RestoreInput::Extracted(Ok(contents)) => RestoreInputView::Extracted(Ok(contents@)),
            RestoreInput::Extracted(Err(error)) => RestoreInputView::Extracted(Err(error@)),
            RestoreInput::ChecksumVerified(Ok(same)) => RestoreInputView::ChecksumVerified(
                Ok(*same),
            ),
            RestoreInput::ChecksumVerified(Err(error)) => RestoreInputView::ChecksumVerified(
                Err(error@),
            ),
            RestoreInput::ExistenceChecked(exists) => RestoreInputView::ExistenceChecked(*exists),
            RestoreInput::KeyRestored(error) => RestoreInputView::KeyRestored(opt_view(*error)),
            RestoreInput::DatabaseRestored(error) => RestoreInputView::DatabaseRestored(
                opt_view(*error),
            ),
            RestoreInput::DirectoryCopied(error) => RestoreInputView::DirectoryCopied(
                opt_view(*error),
            ),
        }
    }
}

/// Something to do for the restoring of an archive. An error of an action without an answer is
/// no matter.
pub enum RestoreAction<'a, B> {
    /// Delete a directory and all in it.
    RemoveDirectory(Location<'a, B>),
    /// Delete a file.
    RemoveFile(Location<'a, B>),
    /// Unpack an archive into a directory; answered by `Extracted`.
    Extract { backup_path: String, into: Location<'a, B> },
    /// Compare the checksum of the unpacked database; answered by `ChecksumVerified`.
    VerifyChecksum { expected: String },
    /// See whether a file or directory exists; answered by `ExistenceChecked`.
    CheckExistence(Location<'a, B>),
    /// Copy a file.
    CopyFile { from: Location<'a, B>, to: Location<'a, B> },
    /// Let only the user read and write a file, on systems that know such permissions.
    MakePrivate(Location<'a, B>),
    /// Copy the unpacked master key to its place; answered by `KeyRestored`.
    RestoreKey { to: Location<'a, B> },
    /// Restore the database from a file; answered by `DatabaseRestored`.
    RestoreDatabase { backup_path: String, db_path: String },
    /// Copy a directory and all in it; answered by `DirectoryCopied`.
    CopyDirectory { from: Location<'a, B>, to: Location<'a, B> },
    /// Restart the application. This is the end.
    Restart,
    /// The end, with an error.
    Fail(String),
}

/// An action, its texts as sequences of characters.
#[allow(inconsistent_fields)]
pub enum RestoreActionView<B> {
    RemoveDirectory(LocationView<B>),
    RemoveFile(LocationView<B>),
    Extract { backup_path: Seq<char>, into: LocationView<B> },
    VerifyChecksum { expected: Seq<char> },
    CheckExistence(LocationView<B>),
    CopyFile { from: LocationView<B>, to: LocationView<B> },
    MakePrivate(LocationView<B>),
    RestoreKey { to: LocationView<B> },
    RestoreDatabase { backup_path: Seq<char>, db_path: Seq<char> },
    CopyDirectory { from: LocationView<B>, to: LocationView<B> },
    Restart,
    Fail(Seq<char>),
}

impl<'a, B> View for RestoreAction<'a, B> {
    type V = RestoreActionView<B>;

    open spec fn view(&self) -> RestoreActionView<B> {
        match self {
            RestoreAction::RemoveDirectory(place) => RestoreActionView::RemoveDirectory(place@),
            RestoreAction::RemoveFile(place) => RestoreActionView::RemoveFile(place@),
            RestoreAction::Extract { backup_path, into } => RestoreActionView::Extract {
                backup_path: backup_path@,
                into: into@,
            },
            RestoreAction::VerifyChecksum { expected } => RestoreActionView::VerifyChecksum {
                expected: expected@,
            },
            RestoreAction::CheckExistence(place) => RestoreActionView::CheckExistence(place@),
            RestoreAction::CopyFile { from, to } => RestoreActionView::CopyFile {
                from: from@,
                to: to@,
            },
            RestoreAction::MakePrivate(place) => RestoreActionView::MakePrivate(place@),
            RestoreAction::RestoreKey { to } => RestoreActionView::RestoreKey { to: to@ },
            RestoreAction::RestoreDatabase { backup_path, db_path } =>
                RestoreActionView::RestoreDatabase {
                    backup_path: backup_path@,
                    db_path: db_path@,
                },
            RestoreAction::CopyDirectory { from, to } => RestoreActionView::CopyDirectory {
                from: from@,
                to: to@,
            },
            RestoreAction::Restart => RestoreActionView::Restart,
            RestoreAction::Fail(error) => RestoreActionView::Fail(error@),
        }
    }
}

/// The directories that an archive can hold, in the order in which they are restored.
#[derive(Clone, Copy, Debug, PartialEq, Eq, Structural)]
pub enum DataDirectory {
    Documents,
    Workspace,
    VectorDb,
    Ssl,
}

impl DataDirectory {
    /// The name of the directory in errors.
    pub open spec fn name(self) -> Seq<char> {
        match self {
            DataDirectory::Documents => "documents"@,
            DataDirectory::Workspace => "workspace"@,
            DataDirectory::VectorDb => "vector_db"@,
            DataDirectory::Ssl => "ssl"@,
        }
    }

    fn as_str(self) -> (name: &'static str)
        ensures
            name@ == self.name(),
    {
        match self {
            DataDirectory::Documents => "documents",
            DataDirectory::Workspace => "workspace",
            DataDirectory::VectorDb => "vector_db",
            DataDirectory::Ssl => "ssl",
        }
    }

    /// The directory that is restored after this one.
    pub open spec fn following(self) -> Option<DataDirectory> {
        match self {
            DataDirectory::Documents => Some(DataDirectory::Workspace),
            DataDirectory::Workspace => Some(DataDirectory::VectorDb),
            DataDirectory::VectorDb => Some(DataDirectory::Ssl),
            DataDirectory::Ssl => None,
        }
    }

    fn next(self) -> (next: Option<DataDirectory>)
        ensures
            next == self.following(),
    {
        match self {
            DataDirectory::Documents => Some(DataDirectory::Workspace),
            DataDirectory::Workspace => Some(DataDirectory::VectorDb),
            DataDirectory::VectorDb => Some(DataDirectory::Ssl),
            DataDirectory::Ssl => None,
        }
    }

    /// How many directories come after this one.
    pub open spec fn left(self) -> nat {
        match self {
            DataDirectory::Documents => 3,
            DataDirectory::Workspace => 2,
            DataDirectory::VectorDb => 1,
            DataDirectory::Ssl => 0,
        }
    }
}

/// Whether an archive holds a directory.
pub open spec fn holds(contents: ContentsView, directory: DataDirectory) -> bool {
    match directory {
        DataDirectory::Documents => contents.has_documents,
        DataDirectory::Workspace => contents.has_workspace,
        DataDirectory::VectorDb => contents.has_vector_db,
        DataDirectory::Ssl => contents.has_ssl,
    }
}

fn is_held(contents: &ArchiveContents, directory: DataDirectory) -> (yes: bool)
    ensures
        yes == holds(contents@, directory),
{
    match directory {
        DataDirectory::Documents => contents.has_documents,
        DataDirectory::Workspace => contents.has_workspace,
        DataDirectory::VectorDb => contents.has_vector_db,
        DataDirectory::Ssl => contents.has_ssl,
    }
}

/// What the restoring of an archive waits for.
#[derive(Clone, Copy, Debug, PartialEq, Eq, Structural)]
pub enum RestorePhase {
    Extracting,
    VerifyingChecksum,
    CheckingKey,
    RestoringKey,
    RestoringDatabase,
    CheckingDirectory(DataDirectory),
    CopyingDirectory(DataDirectory),
    Ended,
}

/// The state of the restoring of an archive.
pub struct RestoreView<B> {
    pub app_data_dir: B,
    pub documents_root: B,
    pub db_path: Seq<char>,
    /// The contents of the archive, once it is unpacked.
    pub contents: Option<ContentsView>,
    /// Whether the former master key was copied aside.
    pub key_saved: bool,
    pub phase: RestorePhase,
}

/// The directory into which the archive is unpacked.
pub open spec fn temp_place<B>(app_data_dir: B) -> LocationView<B> {
    LocationView::Below { base: app_data_dir, steps: seq!["_local_restore_temp"@] }
}

/// The place of the master key.
pub open spec fn key_place<B>(app_data_dir: B) -> LocationView<B> {
    LocationView::Below { base: app_data_dir, steps: seq!["master.key"@] }
}

/// The place to which the former master key is copied.
pub open spec fn saved_key_place<B>(app_data_dir: B) -> LocationView<B> {
    LocationView::Below {
        base: app_data_dir,
        steps: seq!["_local_restore_temp"@, "_pre_local_restore_safety.key"@],
    }
}

/// The place of an unpacked directory.
pub open spec fn source_place<B>(app_data_dir: B, directory: DataDirectory) -> LocationView<B> {
    LocationView::Below {
        base: app_data_dir,
        steps: match directory {
            DataDirectory::Documents => seq!["_local_restore_temp"@, "documents"@],
            DataDirectory::Workspace => seq!["_local_restore_temp"@, "workspace"@],
            DataDirectory::VectorDb => seq!["_local_restore_temp"@, "aqbot_home"@, "vector_db"@],
            DataDirectory::Ssl => seq!["_local_restore_temp"@, "aqbot_home"@, "ssl"@],
        },
    }
}

/// The place to which an unpacked directory is restored.
pub open spec fn target_place<B>(
    app_data_dir: B,
    documents_root: B,
    directory: DataDirectory,
) -> LocationView<B> {
    match directory {
        DataDirectory::Documents => LocationView::Below {
            base: documents_root,
            steps: Seq::empty(),
        },
        DataDirectory::Workspace => LocationView::Below {
            base: app_data_dir,
            steps: seq!["workspace"@],
        },
        DataDirectory::VectorDb => LocationView::Below {
            base: app_data_dir,
            steps: seq!["vector_db"@],
        },
        DataDirectory::Ssl => LocationView::Below { base: app_data_dir, steps: seq!["ssl"@] },
    }
}

/// A state that waits for something else.
pub open spec fn restore_waiting<B>(s: RestoreView<B>, phase: RestorePhase) -> RestoreView<B> {
    RestoreView { phase, ..s }
}

/// The end of a restoring that failed: what was put aside is deleted, files first.
pub open spec fn restore_failed<B>(s: RestoreView<B>, error: Seq<char>) -> (
    RestoreView<B>,
    Seq<RestoreActionView<B>>,
) {
    let files = if s.key_saved {
        seq![RestoreActionView::RemoveFile(saved_key_place(s.app_data_dir))]
    } else {
        Seq::empty()
    };
    (
        restore_waiting(s, RestorePhase::Ended),
        files.push(RestoreActionView::RemoveDirectory(temp_place(s.app_data_dir))).push(
            RestoreActionView::Fail(error),
        ),
    )
}

/// The restoring of the next directory that the archive holds, or the restart once there is
/// none left.
pub open spec fn next_directory<B>(s: RestoreView<B>, from: Option<DataDirectory>) -> (
    RestoreView<B>,
    Seq<RestoreActionView<B>>,
)
    decreases
            match from {
                Some(directory) => directory.left() + 1,
                None => 0,
            },
{
    match from {
        None => (restore_waiting(s, RestorePhase::Ended), seq![RestoreActionView::Restart]),
        Some(directory) => if holds(s.contents->0, directory) {
            (
                restore_waiting(s, RestorePhase::CheckingDirectory(directory)),
                seq![RestoreActionView::CheckExistence(source_place(s.app_data_dir, directory))],
            )
        } else {
            next_directory(s, directory.following())
        },
    }
}

/// The restoring of the database.
pub open spec fn restore_database<B>(s: RestoreView<B>) -> (
    RestoreView<B>,
    Seq<RestoreActionView<B>>,
) {
    (
        restore_waiting(s, RestorePhase::RestoringDatabase),
        seq![
            RestoreActionView::RestoreDatabase {
                backup_path: text_or_empty(s.contents->0.db_path),
                db_path: s.db_path,
            },
        ],
    )
}

/// The restoring of the master key, where the archive holds one.
pub open spec fn restore_key<B>(s: RestoreView<B>) -> (RestoreView<B>, Seq<RestoreActionView<B>>) {
    if s.contents->0.has_master_key {
        (
            restore_waiting(s, RestorePhase::RestoringKey),
            seq![RestoreActionView::RestoreKey { to: key_place(s.app_data_dir) }],
        )
    } else {
        restore_database(s)
    }
}

/// The saving of the present master key, where there is one.
pub open spec fn check_key<B>(s: RestoreView<B>) -> (RestoreView<B>, Seq<RestoreActionView<B>>) {
    (
        restore_waiting(s, RestorePhase::CheckingKey),
        seq![RestoreActionView::CheckExistence(key_place(s.app_data_dir))],
    )
}

/// Some actions, and then those of a step.
pub open spec fn and_then<B>(
    first: Seq<RestoreActionView<B>>,
    step: (RestoreView<B>, Seq<RestoreActionView<B>>),
) -> (RestoreView<B>, Seq<RestoreActionView<B>>) {
    (step.0, first + step.1)
}

/// The restoring of an archive that has just begun, and its first actions.
pub open spec fn restore_start<B>(
    app_data_dir: B,
    documents_root: B,
    backup_path: Seq<char>,
    db_path: Seq<char>,
) -> (RestoreView<B>, Seq<RestoreActionView<B>>) {
    (
        RestoreView {
            app_data_dir,
            documents_root,
            db_path,
            contents: None,
            key_saved: false,
            phase: RestorePhase::Extracting,
        },
        seq![
            RestoreActionView::RemoveDirectory(temp_place(app_data_dir)),
            RestoreActionView::Extract { backup_path, into: temp_place(app_data_dir) },
        ],
    )
}

/// What an answer does to the restoring of an archive. An answer that is not waited for does
/// nothing.
pub open spec fn restore_step<B>(s: RestoreView<B>, input: RestoreInputView) -> (
    RestoreView<B>,
    Seq<RestoreActionView<B>>,
) {
    match (s.phase, input) {
        (RestorePhase::Extracting, RestoreInputView::Extracted(Err(error))) => restore_failed(
            s,
            error,
        ),
        (RestorePhase::Extracting, RestoreInputView::Extracted(Ok(contents))) => {
            let unpacked = RestoreView { contents: Some(contents), ..s };
            match field_text(json_fields(contents.metadata), "db_checksum"@) {
                Some(expected) => (
                    restore_waiting(unpacked, RestorePhase::VerifyingChecksum),
                    seq![RestoreActionView::VerifyChecksum { expected }],
                ),
                None => check_key(unpacked),
            }
        },
        (RestorePhase::VerifyingChecksum, RestoreInputView::ChecksumVerified(Err(error))) =>
            restore_failed(s, error),
        (RestorePhase::VerifyingChecksum, RestoreInputView::ChecksumVerified(Ok(same))) =>
            if same {
                check_key(s)
            } else {
                restore_failed(
                    s,
                    "Backup checksum verification failed; file may be corrupted"@,
                )
            },
        (RestorePhase::CheckingKey, RestoreInputView::ExistenceChecked(exists)) => if exists {
            and_then(
                seq![
                    RestoreActionView::CopyFile {
                        from: key_place(s.app_data_dir),
                        to: saved_key_place(s.app_data_dir),
                    },
                    RestoreActionView::MakePrivate(saved_key_place(s.app_data_dir)),
                ],
                restore_key(RestoreView { key_saved: true, ..s }),
            )
        } else {
            restore_key(s)
        },
        (RestorePhase::RestoringKey, RestoreInputView::KeyRestored(Some(error))) => restore_failed(
            s,
            "Failed to restore master.key: "@ + error,
        ),
        (RestorePhase::RestoringKey, RestoreInputView::KeyRestored(None)) => and_then(
            seq![RestoreActionView::MakePrivate(key_place(s.app_data_dir))],
            restore_database(s),
        ),
        (RestorePhase::RestoringDatabase, RestoreInputView::DatabaseRestored(Some(error))) =>
            restore_failed(s, error),
        (RestorePhase::RestoringDatabase, RestoreInputView::DatabaseRestored(None)) => and_then(
            seq![
                RestoreActionView::RemoveFile(LocationView::Explicit(s.db_path + "-wal"@)),
                RestoreActionView::RemoveFile(LocationView::Explicit(s.db_path + "-shm"@)),
            ],
            next_directory(s, Some(DataDirectory::Documents)),
        ),
        (
            RestorePhase::CheckingDirectory(directory),
            RestoreInputView::ExistenceChecked(exists),
        ) => if exists {
            (
                restore_waiting(s, RestorePhase::CopyingDirectory(directory)),
                seq![
                    RestoreActionView::CopyDirectory {
                        from: source_place(s.app_data_dir, directory),
                        to: target_place(s.app_data_dir, s.documents_root, directory),
                    },
                ],
            )
        } else {
            next_directory(s, directory.following())
        },
        (RestorePhase::CopyingDirectory(directory), RestoreInputView::DirectoryCopied(error)) =>
            match error {
                Some(error) => restore_failed(
                    s,
                    "Failed to restore "@ + directory.name() + ": "@ + error,
                ),
                None => next_directory(s, directory.following()),
            },
        _ => (s, Seq::empty()),
    }
}

/// What holds of every restoring of an archive: once it is unpacked, its contents are known.
pub open spec fn restore_inv<B>(s: RestoreView<B>) -> bool {
    s.phase is Extracting || s.phase is Ended || s.contents is Some
}

/// The restoring of an archive that is under way.
pub struct ArchiveRestore<'a, B> {
    app_data_dir: &'a B,
    documents_root: &'a B,
    db_path: String,
    contents: Option<ArchiveContents>,
    key_saved: bool,
    phase: RestorePhase,
}

impl<'a, B> View for ArchiveRestore<'a, B> {
    type V = RestoreView<B>;

    closed spec fn view(&self) -> RestoreView<B> {
        RestoreView {
            app_data_dir: *self.app_data_dir,
            documents_root: *self.documents_root,
            db_path: self.db_path@,
            contents: opt_view(self.contents),
            key_saved: self.key_saved,
            phase: self.phase,
        }
    }
}

fn three_below<'a, B>(base: &'a B, first: &str, second: &str, third: &str) -> (place: Location<
    'a,
    B,
>)
    ensures
        place@ == (LocationView::Below { base: *base, steps: seq![first@, second@, third@] }),
{
    let mut steps: Vec<String> = Vec::new();
    steps.push(first.to_owned());
    steps.push(second.to_owned());
    steps.push(third.to_owned());
    assert(views(steps@) =~= seq![first@, second@, third@]);
    Location::Below { base, steps }
}

fn one_action<'a, B>(action: RestoreAction<'a, B>) -> (actions: Vec<RestoreAction<'a, B>>)
    ensures
        views(actions@) == seq![action@],
{
    let mut actions: Vec<RestoreAction<'a, B>> = Vec::new();
    actions.push(action);
    assert(views(actions@) =~= seq![action@]);
    actions
}

fn chained<'a, B>(
    first: Vec<RestoreAction<'a, B>>,
    second: Vec<RestoreAction<'a, B>>,
) -> (actions: Vec<RestoreAction<'a, B>>)
    ensures
        views(actions@) == views(first@) + views(second@),
{
    let mut actions = first;
    let mut rest = second;
    actions.append(&mut rest);
    assert(views(actions@) =~= views(first@) + views(second@));
    actions
}

impl<'a, B> ArchiveRestore<'a, B> {
    /// Begins to restore an archive over the data of the application and its database.
    pub fn restore_backup_zip(
        app_data_dir: &'a B,
        documents_root: &'a B,
        backup_path: String,
        db_path: String,
    ) -> (result: (ArchiveRestore<'a, B>, Vec<RestoreAction<'a, B>>))
        ensures
            restore_inv(result.0@),
            (result.0@, views(result.1@)) == restore_start(
                *app_data_dir,
                *documents_root,
                backup_path@,
                db_path@,
            ),
    {
        let restore = ArchiveRestore {
            app_data_dir,
            documents_root,
            db_path,
            contents: None,
            key_saved: false,
            phase: RestorePhase::Extracting,
        };
        let clear = RestoreAction::RemoveDirectory(restore.temp());
        let extract = RestoreAction::Extract { backup_path, into: restore.temp() };
        let actions = chained(one_action(clear), one_action(extract));
        assert(views(actions@) =~= restore_start(
            *app_data_dir,
            *documents_root,
            backup_path@,
            db_path@,
        ).1);
        (restore, actions)
    }

    fn temp(&self) -> (place: Location<'a, B>)
        ensures
            place@ == temp_place(self@.app_data_dir),
    {
        below(self.app_data_dir, "_local_restore_temp")
    }

    fn key(&self) -> (place: Location<'a, B>)
        ensures
            place@ == key_place(self@.app_data_dir),
    {
        below(self.app_data_dir, "master.key")
    }

    fn saved_key(&self) -> (place: Location<'a, B>)
        ensures
            place@ == saved_key_place(self@.app_data_dir),
    {
        two_below(self.app_data_dir, "_local_restore_temp", "_pre_local_restore_safety.key")
    }

    fn source(&self, directory: DataDirectory) -> (place: Location<'a, B>)
        ensures
            place@ == source_place(self@.app_data_dir, directory),
    {
        match directory {
            DataDirectory::Documents => two_below(
                self.app_data_dir,
                "_local_restore_temp",
                "documents",
            ),
            DataDirectory::Workspace => two_below(
                self.app_data_dir,
                "_local_restore_temp",
                "workspace",
            ),
            DataDirectory::VectorDb => three_below(
                self.app_data_dir,
                "_local_restore_temp",
                "aqbot_home",
                "vector_db",
            ),
            DataDirectory::Ssl => three_below(
                self.app_data_dir,
                "_local_restore_temp",
                "aqbot_home",
                "ssl",
            ),
        }
    }

    fn target(&self, directory: DataDirectory) -> (place: Location<'a, B>)
        ensures
            place@ == target_place(self@.app_data_dir, self@.documents_root, directory),
    {
        match directory {
            DataDirectory::Documents => {
                let steps: Vec<String> = Vec::new();
                assert(views(steps@) =~= Seq::empty());
                Location::Below { base: self.documents_root, steps }
            },
            DataDirectory::Workspace => below(self.app_data_dir, "workspace"),
            DataDirectory::VectorDb => below(self.app_data_dir, "vector_db"),
            DataDirectory::Ssl => below(self.app_data_dir, "ssl"),
        }
    }

    fn fail(&mut self, error: String) -> (actions: Vec<RestoreAction<'a, B>>)
        ensures
            (final(self)@, views(actions@)) == restore_failed(old(self)@, error@),
    {
        self.phase = RestorePhase::Ended;
        let mut actions: Vec<RestoreAction<'a, B>> = Vec::new();
        assert(views(actions@) =~= Seq::empty());
        if self.key_saved {
            actions = one_action(RestoreAction::RemoveFile(self.saved_key()));
        }
        let ghost files = views(actions@);
        let clear = RestoreAction::RemoveDirectory(self.temp());
        actions.push(clear);
        assert(views(actions@) =~= files.push(clear@));
        let end = RestoreAction::Fail(error);
        actions.push(end);
        assert(views(actions@) =~= files.push(clear@).push(end@));
        actions
    }

    fn go_on(&mut self, phase: RestorePhase, action: RestoreAction<'a, B>) -> (actions: Vec<
        RestoreAction<'a, B>,
    >)
        ensures
            (final(self)@, views(actions@)) == (
                restore_waiting(old(self)@, phase),
                seq![action@],
            ),
    {
        self.phase = phase;
        one_action(action)
    }

    fn go_to_directory(&mut self, from: Option<DataDirectory>) -> (actions: Vec<
        RestoreAction<'a, B>,
    >)
        requires
            old(self)@.contents is Some,
        ensures
            (final(self)@, views(actions@)) == next_directory(old(self)@, from),
            restore_inv(final(self)@),
        decreases
                match from {
                    Some(directory) => directory.left() + 1,
                    None => 0,
                },
    {
        match from {
            None => self.go_on(RestorePhase::Ended, RestoreAction::Restart),
            Some(directory) => {
                let held = match &self.contents {
                    Some(contents) => is_held(contents, directory),
                    None => false,
                };
                if held {
                    let action = RestoreAction::CheckExistence(self.source(directory));
                    self.go_on(RestorePhase::CheckingDirectory(directory), action)
                } else {
                    self.go_to_directory(directory.next())
                }
            },
        }
    }

    fn go_to_database(&mut self) -> (actions: Vec<RestoreAction<'a, B>>)
        requires
            old(self)@.contents is Some,
        ensures
            (final(self)@, views(actions@)) == restore_database(old(self)@),
    {
        let backup_path = match &self.contents {
            Some(contents) => copy_or_empty(&contents.db_path),
            None => String::new(),
        };
        let db_path = self.db_path.clone();
        self.go_on(
            RestorePhase::RestoringDatabase,
            RestoreAction::RestoreDatabase { backup_path, db_path },
        )
    }

    fn go_to_key(&mut self) -> (actions: Vec<RestoreAction<'a, B>>)
        requires
            old(self)@.contents is Some,
        ensures
            (final(self)@, views(actions@)) == restore_key(old(self)@),
    {
        let held = match &self.contents {
            Some(contents) => contents.has_master_key,
            None => false,
        };
        if held {
            let action = RestoreAction::RestoreKey { to: self.key() };
            self.go_on(RestorePhase::RestoringKey, action)
        } else {
            self.go_to_database()
        }
    }

    fn go_to_check_key(&mut self) -> (actions: Vec<RestoreAction<'a, B>>)
        ensures
            (final(self)@, views(actions@)) == check_key(old(self)@),
    {
        let action = RestoreAction::CheckExistence(self.key());
        self.go_on(RestorePhase::CheckingKey, action)
    }

    fn take_contents(&mut self, contents: ArchiveContents) -> (actions: Vec<RestoreAction<'a, B>>)
        requires
            old(self)@.phase is Extracting,
        ensures
            restore_inv(final(self)@),
            (final(self)@, views(actions@)) == restore_step(
                old(self)@,
                RestoreInputView::Extracted(Ok(contents@)),
            ),
    {
        let expected = json_field_text(&contents.metadata, "db_checksum");
        self.contents = Some(contents);
        match expected {
            Some(expected) => self.go_on(
                RestorePhase::VerifyingChecksum,
                RestoreAction::VerifyChecksum { expected },
            ),
            None => self.go_to_check_key(),
        }
    }

    fn take_key_check(&mut self, exists: bool) -> (actions: Vec<RestoreAction<'a, B>>)
        requires
            old(self)@.phase is CheckingKey,
            old(self)@.contents is Some,
        ensures
            restore_inv(final(self)@),
            (final(self)@, views(actions@)) == restore_step(
                old(self)@,
                RestoreInputView::ExistenceChecked(exists),
            ),
    {
        if !exists {
            return self.go_to_key();
        }
        let copy = RestoreAction::CopyFile { from: self.key(), to: self.saved_key() };
        let protect = RestoreAction::MakePrivate(self.saved_key());
        let first = chained(one_action(copy), one_action(protect));
        assert(views(first@) =~= seq![copy@, protect@]);
        self.key_saved = true;
        let rest = self.go_to_key();
        chained(first, rest)
    }

    fn take_database(&mut self) -> (actions: Vec<RestoreAction<'a, B>>)
        requires
            old(self)@.phase is RestoringDatabase,
            old(self)@.contents is Some,
        ensures
            restore_inv(final(self)@),
            (final(self)@, views(actions@)) == restore_step(
                old(self)@,
                RestoreInputView::DatabaseRestored(None),
            ),
    {
        let (wal, shm) = side_files(self.db_path.as_str());
        let remove_wal = RestoreAction::RemoveFile(Location::Explicit(wal));
        let remove_shm = RestoreAction::RemoveFile(Location::Explicit(shm));
        let first = chained(one_action(remove_wal), one_action(remove_shm));
        assert(views(first@) =~= seq![remove_wal@, remove_shm@]);
        let rest = self.go_to_directory(Some(DataDirectory::Documents));
        chained(first, rest)
    }

    fn take_directory(&mut self, directory: DataDirectory, error: Option<String>) -> (actions: Vec<
        RestoreAction<'a, B>,
    >)
        requires
            old(self)@.phase == RestorePhase::CopyingDirectory(directory),
            old(self)@.contents is Some,
        ensures
            restore_inv(final(self)@),
            (final(self)@, views(actions@)) == restore_step(
                old(self)@,
                RestoreInputView::DirectoryCopied(opt_view(error)),
            ),
    {
        match error {
            Some(error) => {
                let mut message = "Failed to restore ".to_owned();
                message.append(directory.as_str());
                message.append(": ");
                message.append(error.as_str());
                self.fail(message)
            },
            None => self.go_to_directory(directory.next()),
        }
    }

    /// Takes the answer to the last action and says what to do.
    pub fn step(&mut self, input: RestoreInput) -> (actions: Vec<RestoreAction<'a, B>>)
        requires
            restore_inv(old(self)@),
        ensures
            restore_inv(final(self)@),
            (final(self)@, views(actions@)) == restore_step(old(self)@, input@),
    {
        match (self.phase, input) {
            (RestorePhase::Extracting, RestoreInput::Extracted(extracted)) => match extracted {
                Ok(contents) => self.take_contents(contents),
                Err(error) => self.fail(error),
            },
            (RestorePhase::VerifyingChecksum, RestoreInput::ChecksumVerified(verified)) =>
                match verified {
                    Ok(same) => {
                        if same {
                            self.go_to_check_key()
                        } else {
                            self.fail(
                                "Backup checksum verification failed; file may be corrupted".to_owned(),
                            )
                        }
                    },
                    Err(error) => self.fail(error),
                },
            (RestorePhase::CheckingKey, RestoreInput::ExistenceChecked(exists)) =>
                self.take_key_check(exists),
            (RestorePhase::RestoringKey, RestoreInput::KeyRestored(error)) => match error {
                Some(error) => {
                    let mut message = "Failed to restore master.key: ".to_owned();
                    message.append(error.as_str());
                    self.fail(message)
                },
                None => {
                    let protect = one_action(RestoreAction::MakePrivate(self.key()));
                    let rest = self.go_to_database();
                    chained(protect, rest)
                },
            },
            (RestorePhase::RestoringDatabase, RestoreInput::DatabaseRestored(error)) => match error {
                Some(error) => self.fail(error),
                None => self.take_database(),
            },
            (
                RestorePhase::CheckingDirectory(directory),
                RestoreInput::ExistenceChecked(exists),
            ) => {
                if exists {
                    let action = RestoreAction::CopyDirectory {
                        from: self.source(directory),
                        to: self.target(directory),
                    };
                    self.go_on(RestorePhase::CopyingDirectory(directory), action)
                } else {
                    self.go_to_directory(directory.next())
                }
            },
            (RestorePhase::CopyingDirectory(directory), RestoreInput::DirectoryCopied(error)) =>
                self.take_directory(directory, error),
            _ => {
                let none: Vec<RestoreAction<'a, B>> = Vec::new();
                assert(views(none@) =~= Seq::empty());
                none
            },
        }
    }
}

} // verus!
