use aqbot_agent_runtime::backup::{BackupError, BackupRecord};
use aqbot_agent_runtime::backup_job::{BackupJob, JobAction, JobInput};
use aqbot_agent_runtime::export::{export_document, export_table, written_document};
use aqbot_agent_runtime::location::Location;
use aqbot_agent_runtime::time::Moment;

fn text(s: &str) -> String {
    s.to_string()
}

/// The last second of 2023.
const STAMP: i64 = 1_704_067_199;

/// The directory of the backups.
const DIR: &str = "/b";

fn located(format: &str) -> (BackupJob<'static, &'static str>, JobAction<'static, &'static str>) {
    let (mut job, action) = BackupJob::create_backup(&DIR, text(format), text("1.2.3"));
    assert!(matches!(action, JobAction::EnsureDirectory(dir) if *dir == DIR));
    let action = job.step(JobInput::DirectoryEnsured(None)).unwrap();
    assert!(matches!(action, JobAction::Stamp));
    let action = job.step(JobInput::Stamped { id: text("b1"), local_secs: STAMP }).unwrap();
    let extension = if format == "sqlite" { "db" } else { "json" };
    assert!(matches!(
        action,
        JobAction::Locate(Location::Below { base, steps })
            if *base == DIR
                && steps == vec![format!("aqbot-backup-20231231_235959.{}", extension)]
    ));
    let action = job.step(JobInput::Located { path: text("/b/it's") }).unwrap();
    (job, action)
}

fn error_of(action: Option<JobAction<&'static str>>) -> String {
    match action {
        Some(JobAction::Finish(Err(BackupError::Gateway(m)))) => m,
        Some(JobAction::Finish(Err(BackupError::Database(m)))) => format!("db: {}", m),
        Some(JobAction::Finish(Err(BackupError::NotFound(m)))) => format!("none: {}", m),
        _ => panic!("no error"),
    }
}

fn record() -> BackupRecord {
    BackupRecord {
        id: text("b1"),
        version: text("sqlite"),
        created_at: text("now"),
        encrypted: 0,
        checksum: text("sum"),
        object_counts_json: text("{}"),
        source_app_version: text("1.2.3"),
        file_path: None,
        file_size: 3,
    }
}

#[test]
fn a_database_backup_copies_inspects_and_records() {
    let (mut job, action) = located("sqlite");
    assert!(matches!(action, JobAction::CheckFile));
    let action = job.step(JobInput::FileChecked(true)).unwrap();
    assert!(matches!(action, JobAction::RemoveFile));
    let action = job.step(JobInput::FileRemoved(None)).unwrap();
    assert!(matches!(
        action,
        JobAction::ExecuteStatement { statement } if statement == "VACUUM INTO '/b/it''s'"
    ));
    let action = job.step(JobInput::StatementExecuted(None)).unwrap();
    assert!(matches!(action, JobAction::InspectFile));
    let action = job
        .step(JobInput::FileInspected { size: Some(3), data: Ok(b"abc".to_vec()) })
        .unwrap();
    assert!(matches!(action, JobAction::CountObjects));
    let action = job
        .step(JobInput::ObjectsCounted {
            conversations: Some(1),
            messages: Some(2),
            providers: None,
        })
        .unwrap();
    match action {
        JobAction::InsertRecord(new) => {
            assert_eq!(new.id, "b1");
            assert_eq!(new.version, "sqlite");
            assert_eq!(new.encrypted, 0);
            assert_eq!(
                new.checksum,
                "ba7816bf8f01cfea414140de5dae2223b00361a396177a9cb410ff61f20015ad"
            );
            assert_eq!(
                new.object_counts_json,
                "{\"conversations\":1,\"messages\":2,\"providers\":0}"
            );
            assert_eq!(new.source_app_version, "1.2.3");
            assert_eq!(new.file_path, "/b/it's");
            assert_eq!(new.file_size, 3);
        }
        _ => panic!("no record"),
    }
    let action = job.step(JobInput::RecordInserted(None)).unwrap();
    assert!(matches!(action, JobAction::LoadRecord { id } if id == "b1"));
    let action = job.step(JobInput::RecordLoaded(Ok(Some(record())))).unwrap();
    assert!(matches!(action, JobAction::Finish(Ok(m)) if m.id == "b1" && !m.encrypted));
    assert!(job.step(JobInput::RecordInserted(None)).is_none());
}

#[test]
fn a_json_backup_exports_every_table() {
    let (mut job, mut action) = located("zip");
    let mut names = Vec::new();
    while let JobAction::LoadTable { name } = action {
        names.push(name);
        action = job
            .step(JobInput::TableLoaded(Ok(serde_json::Value::Array(Vec::new()))))
            .unwrap();
    }
    assert_eq!(
        names,
        vec![
            "conversations",
            "messages",
            "providers",
            "provider_keys",
            "models",
            "settings",
            "gateway_keys"
        ]
    );
    assert!(matches!(action, JobAction::ReadClock));
    let action = job.step(JobInput::ClockRead(Moment { secs: STAMP, nanos: 0 })).unwrap();
    match action {
        JobAction::WriteFile { text } => {
            let document: serde_json::Value = serde_json::from_str(&text).unwrap();
            assert_eq!(document["version"], "1.2.3");
            assert_eq!(document["exported_at"], "2023-12-31T23:59:59+00:00");
            assert_eq!(document["tables"].as_object().unwrap().len(), 7);
        }
        _ => panic!("no file"),
    }
    let action = job.step(JobInput::FileWritten(None)).unwrap();
    assert!(matches!(action, JobAction::InspectFile));
    let action = job.step(JobInput::FileInspected { size: None, data: Ok(Vec::new()) }).unwrap();
    assert!(matches!(action, JobAction::CountObjects));
    let action = job
        .step(JobInput::ObjectsCounted { conversations: None, messages: None, providers: None })
        .unwrap();
    assert!(matches!(
        action,
        JobAction::InsertRecord(new) if new.file_size == 0 && new.version == "zip"
    ));
}

#[test]
fn the_exported_document_is_indented() {
    let tables = vec![serde_json::Value::Null];
    let written =
        export_document(text("1"), Moment { secs: 0, nanos: 500_000_000 }, tables).unwrap();
    assert_eq!(
        written,
        "{\n  \"exported_at\": \"1970-01-01T00:00:00.500+00:00\",\n  \"tables\": {\n    \"conversations\": null\n  },\n  \"version\": \"1\"\n}"
    );
    assert_eq!(export_table(6), "gateway_keys");
    assert!(matches!(
        written_document(Err(text("odd"))),
        Err(BackupError::Gateway(m)) if m == "JSON serialization failed: odd"
    ));
    assert!(matches!(written_document(Ok(text("t"))), Ok(t) if t == "t"));
}

#[test]
fn every_failed_step_ends_the_backup_with_its_error() {
    let (mut job, _) = BackupJob::create_backup(&DIR, text("sqlite"), text("1"));
    assert_eq!(
        error_of(job.step(JobInput::DirectoryEnsured(Some(text("x"))))),
        "Failed to create backup directory: x"
    );
    let (mut job, _) = located("sqlite");
    job.step(JobInput::FileChecked(true));
    assert_eq!(
        error_of(job.step(JobInput::FileRemoved(Some(text("x"))))),
        "Failed to remove existing backup file: x"
    );
    let (mut job, _) = located("sqlite");
    job.step(JobInput::FileChecked(false));
    assert_eq!(
        error_of(job.step(JobInput::StatementExecuted(Some(text("x"))))),
        "VACUUM INTO failed: x"
    );
    let (mut job, _) = located("json");
    assert_eq!(error_of(job.step(JobInput::TableLoaded(Err(text("x"))))), "db: x");
    let (mut job, _) = located("json");
    for _ in 0..7 {
        job.step(JobInput::TableLoaded(Ok(serde_json::Value::Null)));
    }
    job.step(JobInput::ClockRead(Moment { secs: 0, nanos: 0 }));
    assert_eq!(
        error_of(job.step(JobInput::FileWritten(Some(text("x"))))),
        "Failed to write backup file: x"
    );
}

fn inspected(
    data: Result<Vec<u8>, String>,
) -> (BackupJob<'static, &'static str>, Option<JobAction<'static, &'static str>>) {
    let (mut job, _) = located("sqlite");
    job.step(JobInput::FileChecked(false));
    job.step(JobInput::StatementExecuted(None));
    let action = job.step(JobInput::FileInspected { size: Some(u64::MAX), data });
    (job, action)
}

#[test]
fn a_backup_that_cannot_be_read_or_recorded_fails() {
    let (_, action) = inspected(Err(text("x")));
    assert_eq!(error_of(action), "Failed to read file for checksum: x");
    let counts = || JobInput::ObjectsCounted {
        conversations: None,
        messages: None,
        providers: None,
    };
    let (mut job, _) = inspected(Ok(Vec::new()));
    assert!(matches!(
        job.step(counts()),
        Some(JobAction::InsertRecord(new)) if new.file_size == -1
    ));
    assert_eq!(error_of(job.step(JobInput::RecordInserted(Some(text("x"))))), "db: x");
    let (mut job, _) = inspected(Ok(Vec::new()));
    job.step(counts());
    job.step(JobInput::RecordInserted(None));
    assert_eq!(error_of(job.step(JobInput::RecordLoaded(Ok(None)))), "none: BackupManifest b1");
    let (mut job, _) = inspected(Ok(Vec::new()));
    job.step(counts());
    job.step(JobInput::RecordInserted(None));
    assert_eq!(error_of(job.step(JobInput::RecordLoaded(Err(text("x"))))), "db: x");
}
