//! The making of a backup, from its directory to its record.
//!
//! The answers to the actions come in as [`JobInput`]; each gives the next [`JobAction`].
use vstd::prelude::*;
use vstd::string::*;

use crate::agent_run::to_i64;
use crate::backup::{
    backup_file_name, checksum_of, compute_file_checksum, count_objects, counts_view,
    ensure_backup_dir, file_name_of, gateway_error, get_backup, manifest_of, unknown_backup_error,
    vacuum_into, vacuum_statement, BackupError, BackupErrorView, BackupManifest, BackupRecord,
    ManifestView, RecordView,
};
use crate::export::{document_text, export_document, export_table, table_name, TABLE_COUNT};
use crate::location::{below, Location, LocationView};
use crate::stream::signed_64;
use crate::text::{opt_view, same_text};
use crate::time::{
    format_time, formatted_time, in_calendar, stamp_format, Moment, FIRST_SECOND, LAST_SECOND,
};

verus! {

/// What is recorded of a new backup. The path of its file has not been encoded yet.
pub struct NewRecord {
    pub id: String,
    pub version: String,
    pub encrypted: i32,
    pub checksum: String,
    pub object_counts_json: String,
    pub source_app_version: String,
    pub file_path: String,
    pub file_size: i64,
}

/// A new record, its texts as sequences of characters.
pub struct NewRecordView {
    pub id: Seq<char>,
    pub version: Seq<char>,
    pub encrypted: i32,
    pub checksum: Seq<char>,
    pub object_counts_json: Seq<char>,
    pub source_app_version: Seq<char>,
    pub file_path: Seq<char>,
    pub file_size: i64,
}

impl View for NewRecord {
    type V = NewRecordView;

    open spec fn view(&self) -> NewRecordView {
        NewRecordView {
            id: self.id@,
            version: self.version@,
            encrypted: self.encrypted,
            checksum: self.checksum@,
            object_counts_json: self.object_counts_json@,
            source_app_version: self.source_app_version@,
            file_path: self.file_path@,
            file_size: self.file_size,
        }
    }
}

/// The answer to an action. An `Option` is the error of an action that has no result.
pub enum JobInput {
    DirectoryEnsured(Option<String>),
    /// A fresh id, and the local time as seconds since the start of 1970.
    Stamped { id: String, local_secs: i64 },
    /// The path of the file.
    Located { path: String },
    /// Whether the file exists.
    FileChecked(bool),
    FileRemoved(Option<String>),
    StatementExecuted(Option<String>),
    TableLoaded(Result<serde_json::Value, String>),
    ClockRead(Moment),
    FileWritten(Option<String>),
    /// The size of the file, where it is known, and what it holds.
    FileInspected { size: Option<u64>, data: Result<Vec<u8>, String> },
    /// How many objects there are, where that is known.
    ObjectsCounted { conversations: Option<u64>, messages: Option<u64>, providers: Option<u64> },
    RecordInserted(Option<String>),
    RecordLoaded(Result<Option<BackupRecord>, String>),
}

/// An answer, its texts as sequences of characters.
#[allow(inconsistent_fields)]
pub enum JobInputView {
    DirectoryEnsured(Option<Seq<char>>),
    Stamped { id: Seq<char>, local_secs: i64 },
    Located { path: Seq<char> },
    FileChecked(bool),
    FileRemoved(Option<Seq<char>>),
    StatementExecuted(Option<Seq<char>>),
    TableLoaded(Result<serde_json::Value, Seq<char>>),
    ClockRead(Moment),
    FileWritten(Option<Seq<char>>),
    FileInspected { size: Option<u64>, data: Result<Seq<u8>, Seq<char>> },
    ObjectsCounted { conversations: Option<u64>, messages: Option<u64>, providers: Option<u64> },
    RecordInserted(Option<Seq<char>>),
    RecordLoaded(Result<Option<RecordView>, Seq<char>>),
}

impl View for JobInput {
    type V = JobInputView;

    open spec fn view(&self) -> JobInputView {
        match self {
            JobInput::DirectoryEnsured(error) => JobInputView::DirectoryEnsured(opt_view(*error)),
            JobInput::Stamped { id, local_secs } => JobInputView::Stamped {
                id: id@,
                local_secs: *local_secs,
            },
            JobInput::Located { path } => JobInputView::Located { path: path@ },
            JobInput::FileChecked(exists) => JobInputView::FileChecked(*exists),
            JobInput::FileRemoved(error) => JobInputView::FileRemoved(opt_view(*error)),
            JobInput::StatementExecuted(error) => JobInputView::StatementExecuted(
                opt_view(*error),
            ),
            JobInput::TableLoaded(Ok(table)) => JobInputView::TableLoaded(Ok(*table)),
            JobInput::TableLoaded(Err(error)) => JobInputView::TableLoaded(Err(error@)),
            JobInput::ClockRead(moment) => JobInputView::ClockRead(*moment),
            JobInput::FileWritten(error) => JobInputView::FileWritten(opt_view(*error)),
            JobInput::FileInspected { size, data: Ok(data) } => JobInputView::FileInspected {
                size: *size,
                data: Ok(data@),
            },
            JobInput::FileInspected { size, data: Err(error) } => JobInputView::FileInspected {
                size: *size,
                data: Err(error@),
            },
            JobInput::ObjectsCounted { conversations, messages, providers } =>
                JobInputView::ObjectsCounted {
                    conversations: *conversations,
                    messages: *messages,
                    providers: *providers,
                },
            JobInput::RecordInserted(error) => JobInputView::RecordInserted(opt_view(*error)),
            JobInput::RecordLoaded(Ok(record)) => JobInputView::RecordLoaded(
                Ok(opt_view(*record)),
            ),
            JobInput::RecordLoaded(Err(error)) => JobInputView::RecordLoaded(Err(error@)),
        }
    }
}

/// Whether the times in an answer are in the calendar.
pub open spec fn times_in_calendar(input: JobInputView) -> bool {
    match input {
        JobInputView::Stamped { local_secs, .. } => FIRST_SECOND <= local_secs <= LAST_SECOND,
        JobInputView::ClockRead(moment) => in_calendar(moment),
        _ => true,
    }
}

/// Something to do for a backup. Each action but `Finish` is answered by the input of the like
/// name.
pub enum JobAction<'a, B> {
    /// Create the directory of the backups, if it does not exist.
    EnsureDirectory(&'a B),
    /// Make a fresh id and read the local time.
    Stamp,
    /// Find the path of the place of the file.
    Locate(Location<'a, B>),
    /// See whether the file exists.
    CheckFile,
    RemoveFile,
    ExecuteStatement { statement: String },
    /// Load all rows of a table as a JSON value.
    LoadTable { name: &'static str },
    /// Read the time.
    ReadClock,
    WriteFile { text: String },
    /// Find the size of the file and read it.
    InspectFile,
    CountObjects,
    InsertRecord(NewRecord),
    LoadRecord { id: String },
    /// The backup, or why there is none.
    Finish(Result<BackupManifest, BackupError>),
}

/// An action, its texts as sequences of characters.
#[allow(inconsistent_fields)]
pub enum JobActionView<B> {
    EnsureDirectory(B),
    Stamp,
    Locate(LocationView<B>),
    CheckFile,
    RemoveFile,
    ExecuteStatement { statement: Seq<char> },
    LoadTable { name: Seq<char> },
    ReadClock,
    WriteFile { text: Seq<char> },
    InspectFile,
    CountObjects,
    InsertRecord(NewRecordView),
    LoadRecord { id: Seq<char> },
    Finish(Result<ManifestView, BackupErrorView>),
}

impl<'a, B> View for JobAction<'a, B> {
    type V = JobActionView<B>;

    open spec fn view(&self) -> JobActionView<B> {
        match self {
            JobAction::EnsureDirectory(dir) => JobActionView::EnsureDirectory(**dir),
            JobAction::Stamp => JobActionView::Stamp,
            JobAction::Locate(place) => JobActionView::Locate(place@),
            JobAction::CheckFile => JobActionView::CheckFile,
            JobAction::RemoveFile => JobActionView::RemoveFile,
            JobAction::ExecuteStatement { statement } => JobActionView::ExecuteStatement {
                statement: statement@,
            },
            JobAction::LoadTable { name } => JobActionView::LoadTable { name: name@ },
            JobAction::ReadClock => JobActionView::ReadClock,
            JobAction::WriteFile { text } => JobActionView::WriteFile { text: text@ },
            JobAction::InspectFile => JobActionView::InspectFile,
            JobAction::CountObjects => JobActionView::CountObjects,
            JobAction::InsertRecord(record) => JobActionView::InsertRecord(record@),
            JobAction::LoadRecord { id } => JobActionView::LoadRecord { id: id@ },
            JobAction::Finish(Ok(manifest)) => JobActionView::Finish(Ok(manifest@)),
            JobAction::Finish(Err(error)) => JobActionView::Finish(Err(error@)),
        }
    }
}

/// What the making of a backup waits for.
pub enum JobPhase {
    EnsuringDirectory,
    Stamping,
    Locating,
    CheckingFile,
    RemovingFile,
    Copying,
    LoadingTables { tables: Vec<serde_json::Value> },
    ReadingClock { tables: Vec<serde_json::Value> },
    WritingFile,
    InspectingFile,
    CountingObjects { size: i64, checksum: String },
    InsertingRecord,
    LoadingRecord,
    Ended,
}

/// A phase, its texts as sequences of characters.
pub enum JobPhaseView {
    EnsuringDirectory,
    Stamping,
    Locating,
    CheckingFile,
    RemovingFile,
    Copying,
    LoadingTables { tables: Seq<serde_json::Value> },
    ReadingClock { tables: Seq<serde_json::Value> },
    WritingFile,
    InspectingFile,
    CountingObjects { size: i64, checksum: Seq<char> },
    InsertingRecord,
    LoadingRecord,
    Ended,
}

impl View for JobPhase {
    type V = JobPhaseView;

    open spec fn view(&self) -> JobPhaseView {
        match self {
            JobPhase::EnsuringDirectory => JobPhaseView::EnsuringDirectory,
            JobPhase::Stamping => JobPhaseView::Stamping,
            JobPhase::Locating => JobPhaseView::Locating,
            JobPhase::CheckingFile => JobPhaseView::CheckingFile,
            JobPhase::RemovingFile => JobPhaseView::RemovingFile,
            JobPhase::Copying => JobPhaseView::Copying,
            JobPhase::LoadingTables { tables } => JobPhaseView::LoadingTables { tables: tables@ },
            JobPhase::ReadingClock { tables } => JobPhaseView::ReadingClock { tables: tables@ },
            JobPhase::WritingFile => JobPhaseView::WritingFile,
            JobPhase::InspectingFile => JobPhaseView::InspectingFile,
            JobPhase::CountingObjects { size, checksum } => JobPhaseView::CountingObjects {
                size: *size,
                checksum: checksum@,
            },
            JobPhase::InsertingRecord => JobPhaseView::InsertingRecord,
            JobPhase::LoadingRecord => JobPhaseView::LoadingRecord,
            JobPhase::Ended => JobPhaseView::Ended,
        }
    }
}

/// The state of the making of a backup.
pub struct JobView<B> {
    /// The directory of the backups.
    pub backup_dir: B,
    pub format: Seq<char>,
    pub app_version: Seq<char>,
    pub id: Seq<char>,
    pub path: Seq<char>,
    pub phase: JobPhaseView,
}

/// The next action of a state.
pub open spec fn job_next<B>(s: JobView<B>, phase: JobPhaseView, action: JobActionView<B>) -> (
    JobView<B>,
    Option<JobActionView<B>>,
) {
    (JobView { phase, ..s }, Some(action))
}

/// The end of a backup that failed.
pub open spec fn job_failed<B>(s: JobView<B>, error: BackupErrorView) -> (
    JobView<B>,
    Option<JobActionView<B>>,
) {
    job_next(s, JobPhaseView::Ended, JobActionView::Finish(Err(error)))
}

/// The end of a backup whose file operation failed: what failed and why.
pub open spec fn job_gateway<B>(s: JobView<B>, what: Seq<char>, why: Seq<char>) -> (
    JobView<B>,
    Option<JobActionView<B>>,
) {
    job_failed(s, BackupErrorView::Gateway(what + why))
}

/// The loading of the next table, or the reading of the time once all are there.
pub open spec fn job_tables<B>(s: JobView<B>, tables: Seq<serde_json::Value>) -> (
    JobView<B>,
    Option<JobActionView<B>>,
) {
    if tables.len() < TABLE_COUNT {
        job_next(
            s,
            JobPhaseView::LoadingTables { tables },
            JobActionView::LoadTable { name: table_name(tables.len() as int) },
        )
    } else {
        job_next(s, JobPhaseView::ReadingClock { tables }, JobActionView::ReadClock)
    }
}

/// The copying of the database.
pub open spec fn job_copy<B>(s: JobView<B>) -> (JobView<B>, Option<JobActionView<B>>) {
    job_next(
        s,
        JobPhaseView::Copying,
        JobActionView::ExecuteStatement { statement: vacuum_statement(s.path) },
    )
}

/// The size that is recorded of a file.
pub open spec fn recorded_size(size: Option<u64>) -> int {
    match size {
        Some(size) => signed_64(size as int),
        None => 0,
    }
}

/// What is recorded of a backup.
pub open spec fn new_record<B>(
    s: JobView<B>,
    size: i64,
    checksum: Seq<char>,
    counts: Seq<char>,
) -> NewRecordView {
    NewRecordView {
        id: s.id,
        version: s.format,
        encrypted: 0,
        checksum,
        object_counts_json: counts,
        source_app_version: s.app_version,
        file_path: s.path,
        file_size: size,
    }
}

/// A backup in a directory and a format that is about to be made.
pub open spec fn job_start<B>(
    backup_dir: B,
    format: Seq<char>,
    app_version: Seq<char>,
) -> JobView<B> {
    JobView {
        backup_dir,
        format,
        app_version,
        id: Seq::empty(),
        path: Seq::empty(),
        phase: JobPhaseView::EnsuringDirectory,
    }
}

/// The place of the file of a backup that is begun at a local time.
pub open spec fn file_place<B>(backup_dir: B, local_secs: i64, format: Seq<char>) -> LocationView<
    B,
> {
    LocationView::Below {
        base: backup_dir,
        steps: seq![file_name_of(formatted_time(local_secs, stamp_format()), format)],
    }
}

/// What an answer does to the making of a backup. An answer that is not waited for does
/// nothing.
pub open spec fn job_step<B>(s: JobView<B>, input: JobInputView) -> (
    JobView<B>,
    Option<JobActionView<B>>,
) {
    match (s.phase, input) {
        (JobPhaseView::EnsuringDirectory, JobInputView::DirectoryEnsured(Some(error))) =>
            job_gateway(s, "Failed to create backup directory: "@, error),
        (JobPhaseView::EnsuringDirectory, JobInputView::DirectoryEnsured(None)) => job_next(
            s,
            JobPhaseView::Stamping,
            JobActionView::Stamp,
        ),
        (JobPhaseView::Stamping, JobInputView::Stamped { id, local_secs }) => job_next(
            JobView { id, ..s },
            JobPhaseView::Locating,
            JobActionView::Locate(file_place(s.backup_dir, local_secs, s.format)),
        ),
        (JobPhaseView::Locating, JobInputView::Located { path }) => if s.format == "sqlite"@ {
            job_next(
                JobView { path, ..s },
                JobPhaseView::CheckingFile,
                JobActionView::CheckFile,
            )
        } else {
            job_tables(JobView { path, ..s }, Seq::empty())
        },
        (JobPhaseView::CheckingFile, JobInputView::FileChecked(exists)) => if exists {
            job_next(s, JobPhaseView::RemovingFile, JobActionView::RemoveFile)
        } else {
            job_copy(s)
        },
        (JobPhaseView::RemovingFile, JobInputView::FileRemoved(Some(error))) => job_gateway(
            s,
            "Failed to remove existing backup file: "@,
            error,
        ),
        (JobPhaseView::RemovingFile, JobInputView::FileRemoved(None)) => job_copy(s),
        (JobPhaseView::Copying, JobInputView::StatementExecuted(Some(error))) => job_gateway(
            s,
            "VACUUM INTO failed: "@,
            error,
        ),
        (JobPhaseView::Copying, JobInputView::StatementExecuted(None)) => job_next(
            s,
            JobPhaseView::InspectingFile,
            JobActionView::InspectFile,
        ),
        (JobPhaseView::LoadingTables { tables }, JobInputView::TableLoaded(Err(error))) =>
            job_failed(s, BackupErrorView::Database(error)),
        (JobPhaseView::LoadingTables { tables }, JobInputView::TableLoaded(Ok(table))) =>
            job_tables(s, tables.push(table)),
        (JobPhaseView::ReadingClock { tables }, JobInputView::ClockRead(moment)) =>
            match document_text(s.app_version, moment, tables) {
                Ok(text) => job_next(
                    s,
                    JobPhaseView::WritingFile,
                    JobActionView::WriteFile { text },
                ),
                Err(error) => job_failed(s, error),
            },
        (JobPhaseView::WritingFile, JobInputView::FileWritten(Some(error))) => job_gateway(
            s,
            "Failed to write backup file: "@,
            error,
        ),
        (JobPhaseView::WritingFile, JobInputView::FileWritten(None)) => job_next(
            s,
            JobPhaseView::InspectingFile,
            JobActionView::InspectFile,
        ),
        (JobPhaseView::InspectingFile, JobInputView::FileInspected { size, data }) => match data {
            Err(error) => job_gateway(s, "Failed to read file for checksum: "@, error),
            Ok(data) => job_next(
                s,
                JobPhaseView::CountingObjects {
                    size: recorded_size(size) as i64,
                    checksum: checksum_of(data),
                },
                JobActionView::CountObjects,
            ),
        },
        (
            JobPhaseView::CountingObjects { size, checksum },
            JobInputView::ObjectsCounted { conversations, messages, providers },
        ) => job_next(
            s,
            JobPhaseView::InsertingRecord,
            JobActionView::InsertRecord(
                new_record(s, size, checksum, counts_view(conversations, messages, providers)),
            ),
        ),
        (JobPhaseView::InsertingRecord, JobInputView::RecordInserted(Some(error))) => job_failed(
            s,
            BackupErrorView::Database(error),
        ),
        (JobPhaseView::InsertingRecord, JobInputView::RecordInserted(None)) => job_next(
            s,
            JobPhaseView::LoadingRecord,
            JobActionView::LoadRecord { id: s.id },
        ),
        (JobPhaseView::LoadingRecord, JobInputView::RecordLoaded(loaded)) => match loaded {
            Ok(Some(record)) => job_next(
                s,
                JobPhaseView::Ended,
                JobActionView::Finish(Ok(manifest_of(record))),
            ),
            Ok(None) => job_failed(s, unknown_backup_error(s.id)),
            Err(error) => job_failed(s, BackupErrorView::Database(error)),
        },
        _ => (s, None),
    }
}

/// The making of a backup that is under way.
pub struct BackupJob<'a, B> {
    backup_dir: &'a B,
    format: String,
    app_version: String,
    id: String,
    path: String,
    phase: JobPhase,
}

impl<'a, B> View for BackupJob<'a, B> {
    type V = JobView<B>;

    closed spec fn view(&self) -> JobView<B> {
        JobView {
            backup_dir: *self.backup_dir,
            format: self.format@,
            app_version: self.app_version@,
            id: self.id@,
            path: self.path@,
            phase: self.phase@,
        }
    }
}

impl<'a, B> BackupJob<'a, B> {
    /// Begins the making of a backup in a directory and a format, by a version of the
    /// application.
    pub fn create_backup(backup_dir: &'a B, format: String, app_version: String) -> (result: (
        BackupJob<'a, B>,
        JobAction<'a, B>,
    ))
        ensures
            result.0@ == job_start(*backup_dir, format@, app_version@),
            result.1@ == JobActionView::EnsureDirectory(*backup_dir),
    {
        let job = BackupJob {
            backup_dir,
            format,
            app_version,
            id: String::new(),
            path: String::new(),
            phase: JobPhase::EnsuringDirectory,
        };
        assert(job.id@ =~= Seq::empty());
        (job, JobAction::EnsureDirectory(backup_dir))
    }

    fn next(&mut self, phase: JobPhase, action: JobAction<'a, B>) -> (result: Option<
        JobAction<'a, B>,
    >)
        ensures
            (final(self)@, opt_view(result)) == job_next(old(self)@, phase@, action@),
    {
        self.phase = phase;
        Some(action)
    }

    fn fail(&mut self, error: BackupError) -> (result: Option<JobAction<'a, B>>)
        ensures
            (final(self)@, opt_view(result)) == job_failed(old(self)@, error@),
    {
        self.next(JobPhase::Ended, JobAction::Finish(Err(error)))
    }

    /// Goes on with an action, unless the last one failed: what failed and why.
    fn next_unless(
        &mut self,
        what: &str,
        error: Option<String>,
        phase: JobPhase,
        action: JobAction<'a, B>,
    ) -> (result: Option<JobAction<'a, B>>)
        ensures
            (final(self)@, opt_view(result)) == match opt_view(error) {
                Some(error) => job_gateway(old(self)@, what@, error),
                None => job_next(old(self)@, phase@, action@),
            },
    {
        match error {
            Some(error) => self.fail(gateway_error(what, error.as_str())),
            None => self.next(phase, action),
        }
    }

    fn load_tables(&mut self, tables: Vec<serde_json::Value>) -> (result: Option<JobAction<'a, B>>)
        ensures
            (final(self)@, opt_view(result)) == job_tables(old(self)@, tables@),
    {
        if tables.len() < TABLE_COUNT {
            let name = export_table(tables.len());
            self.next(JobPhase::LoadingTables { tables }, JobAction::LoadTable { name })
        } else {
            self.next(JobPhase::ReadingClock { tables }, JobAction::ReadClock)
        }
    }

    fn copy_action(&self) -> (action: JobAction<'a, B>)
        ensures
            action@ == (JobActionView::<B>::ExecuteStatement {
                statement: vacuum_statement(self@.path),
            }),
    {
        JobAction::ExecuteStatement { statement: vacuum_into(self.path.as_str()) }
    }

    fn take_stamp(&mut self, id: String, local_secs: i64) -> (result: Option<JobAction<'a, B>>)
        requires
            FIRST_SECOND <= local_secs <= LAST_SECOND,
        ensures
            (final(self)@, opt_view(result)) == job_next(
                JobView { id: id@, ..old(self)@ },
                JobPhaseView::Locating,
                JobActionView::Locate(
                    file_place(old(self)@.backup_dir, local_secs, old(self)@.format),
                ),
            ),
    {
        let stamp = format_time(local_secs, "%Y%m%d_%H%M%S");
        let file_name = backup_file_name(stamp.as_str(), self.format.as_str());
        self.id = id;
        let place = below(self.backup_dir, file_name.as_str());
        self.next(JobPhase::Locating, JobAction::Locate(place))
    }

    fn take_counts(
        &mut self,
        size: i64,
        checksum: String,
        conversations: Option<u64>,
        messages: Option<u64>,
        providers: Option<u64>,
    ) -> (result: Option<JobAction<'a, B>>)
        ensures
            (final(self)@, opt_view(result)) == job_next(
                old(self)@,
                JobPhaseView::InsertingRecord,
                JobActionView::InsertRecord(
                    new_record(
                        old(self)@,
                        size,
                        checksum@,
                        counts_view(conversations, messages, providers),
                    ),
                ),
            ),
    {
        let record = NewRecord {
            id: self.id.clone(),
            version: self.format.clone(),
            encrypted: 0,
            checksum,
            object_counts_json: count_objects(conversations, messages, providers),
            source_app_version: self.app_version.clone(),
            file_path: self.path.clone(),
            file_size: size,
        };
        self.next(JobPhase::InsertingRecord, JobAction::InsertRecord(record))
    }

    fn take_file(&mut self, size: Option<u64>, data: Result<Vec<u8>, String>) -> (result: Option<
        JobAction<'a, B>,
    >)
        requires
            old(self)@.phase is Ended,
        ensures
            (final(self)@, opt_view(result)) == job_step(
                JobView { phase: JobPhaseView::InspectingFile, ..old(self)@ },
                JobInput::FileInspected { size, data }@,
            ),
    {
        let size: i64 = match size {
            Some(size) => to_i64(size),
            None => 0,
        };
        match compute_file_checksum(data) {
            Ok(checksum) => self.next(
                JobPhase::CountingObjects { size, checksum },
                JobAction::CountObjects,
            ),
            Err(error) => self.fail(error),
        }
    }

    /// Takes the answer to the last action and says what to do next.
    pub fn step(&mut self, input: JobInput) -> (action: Option<JobAction<'a, B>>)
        requires
            times_in_calendar(input@),
        ensures
            (final(self)@, opt_view(action)) == job_step(old(self)@, input@),
    {
        let mut phase = JobPhase::Ended;
        core::mem::swap(&mut self.phase, &mut phase);
        match (phase, input) {
            (JobPhase::EnsuringDirectory, JobInput::DirectoryEnsured(error)) =>
                match ensure_backup_dir(error) {
                    Ok(_) => self.next(JobPhase::Stamping, JobAction::Stamp),
                    Err(error) => self.fail(error),
                },
            (JobPhase::Stamping, JobInput::Stamped { id, local_secs }) => self.take_stamp(
                id,
                local_secs,
            ),
            (JobPhase::Locating, JobInput::Located { path }) => {
                self.path = path;
                if same_text(self.format.as_str(), "sqlite") {
                    self.next(JobPhase::CheckingFile, JobAction::CheckFile)
                } else {
                    let tables: Vec<serde_json::Value> = Vec::new();
                    assert(tables@ =~= Seq::empty());
                    self.load_tables(tables)
                }
            },
            (JobPhase::CheckingFile, JobInput::FileChecked(exists)) => {
                if exists {
                    self.next(JobPhase::RemovingFile, JobAction::RemoveFile)
                } else {
                    let action = self.copy_action();
                    self.next(JobPhase::Copying, action)
                }
            },
            (JobPhase::RemovingFile, JobInput::FileRemoved(error)) => {
                let action = self.copy_action();
                self.next_unless(
                    "Failed to remove existing backup file: ",
                    error,
                    JobPhase::Copying,
                    action,
                )
            },
            (JobPhase::Copying, JobInput::StatementExecuted(error)) => self.next_unless(
                "VACUUM INTO failed: ",
                error,
                JobPhase::InspectingFile,
                JobAction::InspectFile,
            ),
            (JobPhase::LoadingTables { tables }, JobInput::TableLoaded(table)) => match table {
                Ok(table) => {
                    let mut tables = tables;
                    tables.push(table);
                    self.load_tables(tables)
                },
                Err(error) => self.fail(BackupError::Database(error)),
            },
            (JobPhase::ReadingClock { tables }, JobInput::ClockRead(moment)) =>
                match export_document(self.app_version.clone(), moment, tables) {
                    Ok(text) => self.next(JobPhase::WritingFile, JobAction::WriteFile { text }),
                    Err(error) => self.fail(error),
                },
            (JobPhase::WritingFile, JobInput::FileWritten(error)) => self.next_unless(
                "Failed to write backup file: ",
                error,
                JobPhase::InspectingFile,
                JobAction::InspectFile,
            ),
            (JobPhase::InspectingFile, JobInput::FileInspected { size, data }) => self.take_file(
                size,
                data,
            ),
            (
                JobPhase::CountingObjects { size, checksum },
                JobInput::ObjectsCounted { conversations, messages, providers },
            ) => self.take_counts(size, checksum, conversations, messages, providers),
            (JobPhase::InsertingRecord, JobInput::RecordInserted(error)) => match error {
                Some(error) => self.fail(BackupError::Database(error)),
                None => {
                    let id = self.id.clone();
                    self.next(JobPhase::LoadingRecord, JobAction::LoadRecord { id })
                },
            },
            (JobPhase::LoadingRecord, JobInput::RecordLoaded(loaded)) => match get_backup(
                self.id.as_str(),
                loaded,
            ) {
                Ok(manifest) => self.next(JobPhase::Ended, JobAction::Finish(Ok(manifest))),
                Err(error) => self.fail(error),
            },
            (phase, _) => {
                self.phase = phase;
                None
            },
        }
    }
}

} // verus!
