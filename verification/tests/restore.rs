use std::path::PathBuf;

use aqbot_agent_runtime::backup::{BackupError, BackupManifest};
use aqbot_agent_runtime::location::Location;
use aqbot_agent_runtime::restore::{
    restore_backup, restore_sqlite_backup, side_files, ArchiveContents, ArchiveRestore,
    DatabaseAction, DatabaseInput, RestoreAction, RestoreInput, RestorePlan,
};

fn text(s: &str) -> String {
    s.to_string()
}

fn path_of(place: &Location<PathBuf>) -> PathBuf {
    match place {
        Location::Explicit(path) => PathBuf::from(path),
        Location::Below { base, steps } => {
            let mut path = base.to_path_buf();
            for step in steps {
                path.push(step);
            }
            path
        }
    }
}

fn manifest(version: &str, file_path: Option<&str>) -> BackupManifest {
    BackupManifest {
        id: text("b1"),
        version: text(version),
        created_at: text("now"),
        encrypted: false,
        checksum: text(""),
        object_counts_json: text(""),
        source_app_version: text(""),
        file_path: file_path.map(text),
        file_size: 0,
    }
}

fn contents(metadata: &str) -> ArchiveContents {
    ArchiveContents {
        metadata: serde_json::from_str(metadata).unwrap(),
        db_path: Some(text("/tmp/aqbot.db")),
        has_master_key: true,
        has_documents: true,
        has_workspace: false,
        has_vector_db: true,
        has_ssl: true,
    }
}

#[test]
fn the_format_decides_how_a_backup_is_restored() {
    assert!(matches!(
        restore_backup(manifest("sqlite", Some("/f")), "sqlite:/db"),
        Ok(RestorePlan::Database { backup_path, db_path }) if backup_path == "/f" && db_path == "/db"
    ));
    assert!(matches!(
        restore_backup(manifest("zip", Some("/f")), "/db"),
        Ok(RestorePlan::Archive { backup_path, db_path }) if backup_path == "/f" && db_path == "/db"
    ));
    assert!(matches!(
        restore_backup(manifest("json", Some("/f")), "/db"),
        Err(e) if e == "JSON backups cannot be restored directly"
    ));
    assert!(matches!(
        restore_backup(manifest("json", None), "/db"),
        Err(e) if e == "Backup file path not available"
    ));
}

#[test]
fn a_database_is_copied_over_if_its_backup_exists() {
    assert!(matches!(
        restore_sqlite_backup("/f", DatabaseInput::SourceChecked(true)),
        DatabaseAction::Copy
    ));
    assert!(matches!(
        restore_sqlite_backup("/f", DatabaseInput::SourceChecked(false)),
        DatabaseAction::Finish(Some(BackupError::NotFound(m))) if m == "Backup file not found: /f"
    ));
    assert!(matches!(
        restore_sqlite_backup("/f", DatabaseInput::Copied(Some(text("x")))),
        DatabaseAction::Finish(Some(BackupError::Gateway(m))) if m == "Failed to restore backup: x"
    ));
    assert!(matches!(
        restore_sqlite_backup("/f", DatabaseInput::Copied(None)),
        DatabaseAction::Finish(None)
    ));
    assert_eq!(side_files("/db"), (text("/db-wal"), text("/db-shm")));
}

#[test]
fn an_archive_is_verified_and_restored_step_by_step() {
    let app = PathBuf::from("/app");
    let docs = PathBuf::from("/docs");
    let temp = app.join("_local_restore_temp");
    let (mut restore, actions) =
        ArchiveRestore::restore_backup_zip(&app, &docs, text("/f.zip"), text("/db"));
    assert_eq!(actions.len(), 2);
    assert!(matches!(&actions[0], RestoreAction::RemoveDirectory(p) if path_of(p) == temp));
    assert!(matches!(
        &actions[1],
        RestoreAction::Extract { backup_path, into }
            if backup_path == "/f.zip" && path_of(into) == temp
    ));
    let actions = restore.step(RestoreInput::Extracted(Ok(contents("{\"db_checksum\":\"abc\"}"))));
    assert!(matches!(&actions[0], RestoreAction::VerifyChecksum { expected } if expected == "abc"));
    let actions = restore.step(RestoreInput::ChecksumVerified(Ok(true)));
    assert!(matches!(
        &actions[0],
        RestoreAction::CheckExistence(p) if path_of(p) == app.join("master.key")
    ));
    let actions = restore.step(RestoreInput::ExistenceChecked(true));
    assert_eq!(actions.len(), 3);
    let safety = temp.join("_pre_local_restore_safety.key");
    assert!(matches!(
        &actions[0],
        RestoreAction::CopyFile { from, to }
            if path_of(from) == app.join("master.key") && path_of(to) == safety
    ));
    assert!(matches!(&actions[1], RestoreAction::MakePrivate(p) if path_of(p) == safety));
    assert!(matches!(
        &actions[2],
        RestoreAction::RestoreKey { to } if path_of(to) == app.join("master.key")
    ));
    let actions = restore.step(RestoreInput::KeyRestored(None));
    assert_eq!(actions.len(), 2);
    assert!(matches!(
        &actions[0],
        RestoreAction::MakePrivate(p) if path_of(p) == app.join("master.key")
    ));
    assert!(matches!(
        &actions[1],
        RestoreAction::RestoreDatabase { backup_path, db_path }
            if backup_path == "/tmp/aqbot.db" && db_path == "/db"
    ));
    let actions = restore.step(RestoreInput::DatabaseRestored(None));
    assert_eq!(actions.len(), 3);
    assert!(matches!(
        &actions[0],
        RestoreAction::RemoveFile(p) if path_of(p) == PathBuf::from("/db-wal")
    ));
    assert!(matches!(
        &actions[1],
        RestoreAction::RemoveFile(p) if path_of(p) == PathBuf::from("/db-shm")
    ));
    assert!(matches!(
        &actions[2],
        RestoreAction::CheckExistence(p) if path_of(p) == temp.join("documents")
    ));
    let actions = restore.step(RestoreInput::ExistenceChecked(true));
    assert!(matches!(
        &actions[0],
        RestoreAction::CopyDirectory { from, to }
            if path_of(from) == temp.join("documents") && path_of(to) == docs
    ));
    let actions = restore.step(RestoreInput::DirectoryCopied(None));
    let vector = temp.join("aqbot_home").join("vector_db");
    assert!(matches!(&actions[0], RestoreAction::CheckExistence(p) if path_of(p) == vector));
    let actions = restore.step(RestoreInput::ExistenceChecked(false));
    let ssl = temp.join("aqbot_home").join("ssl");
    assert!(matches!(&actions[0], RestoreAction::CheckExistence(p) if path_of(p) == ssl));
    let actions = restore.step(RestoreInput::ExistenceChecked(true));
    assert!(matches!(
        &actions[0],
        RestoreAction::CopyDirectory { to, .. } if path_of(to) == app.join("ssl")
    ));
    let actions = restore.step(RestoreInput::DirectoryCopied(None));
    assert_eq!(actions.len(), 1);
    assert!(matches!(&actions[0], RestoreAction::Restart));
    assert_eq!(restore.step(RestoreInput::DirectoryCopied(None)).len(), 0);
}

fn failure(actions: &Vec<RestoreAction<PathBuf>>) -> String {
    let n = actions.len();
    assert!(matches!(&actions[n - 2], RestoreAction::RemoveDirectory(_)));
    match &actions[n - 1] {
        RestoreAction::Fail(error) => error.clone(),
        _ => panic!("no failure"),
    }
}

#[test]
fn a_corrupted_archive_restores_nothing() {
    let app = PathBuf::from("/app");
    let docs = PathBuf::from("/docs");
    let (mut restore, _) =
        ArchiveRestore::restore_backup_zip(&app, &docs, text("/f.zip"), text("/db"));
    restore.step(RestoreInput::Extracted(Ok(contents("{\"db_checksum\":\"abc\"}"))));
    let actions = restore.step(RestoreInput::ChecksumVerified(Ok(false)));
    assert_eq!(actions.len(), 2);
    assert_eq!(
        failure(&actions),
        "Backup checksum verification failed; file may be corrupted"
    );
    let (mut unreadable, _) =
        ArchiveRestore::restore_backup_zip(&app, &docs, text("/f.zip"), text("/db"));
    let actions = unreadable.step(RestoreInput::Extracted(Err(text("bad zip"))));
    assert_eq!(failure(&actions), "bad zip");
    let (mut unverified, _) =
        ArchiveRestore::restore_backup_zip(&app, &docs, text("/f.zip"), text("/db"));
    unverified.step(RestoreInput::Extracted(Ok(contents("{\"db_checksum\":\"abc\"}"))));
    let actions = unverified.step(RestoreInput::ChecksumVerified(Err(text("gone"))));
    assert_eq!(failure(&actions), "gone");
}

#[test]
fn a_failed_step_cleans_up_and_tells_why() {
    let app = PathBuf::from("/app");
    let docs = PathBuf::from("/docs");
    let begin = || {
        let (mut restore, _) =
            ArchiveRestore::restore_backup_zip(&app, &docs, text("/f.zip"), text("/db"));
        restore.step(RestoreInput::Extracted(Ok(contents("{}"))));
        restore.step(RestoreInput::ExistenceChecked(true));
        restore
    };
    let mut restore = begin();
    let actions = restore.step(RestoreInput::KeyRestored(Some(text("x"))));
    assert_eq!(actions.len(), 3);
    assert!(matches!(
        &actions[0],
        RestoreAction::RemoveFile(p)
            if path_of(p) == app.join("_local_restore_temp").join("_pre_local_restore_safety.key")
    ));
    assert_eq!(failure(&actions), "Failed to restore master.key: x");
    let mut restore = begin();
    restore.step(RestoreInput::KeyRestored(None));
    let actions = restore.step(RestoreInput::DatabaseRestored(Some(text("x"))));
    assert_eq!(failure(&actions), "x");
    let mut restore = begin();
    restore.step(RestoreInput::KeyRestored(None));
    restore.step(RestoreInput::DatabaseRestored(None));
    restore.step(RestoreInput::ExistenceChecked(true));
    let actions = restore.step(RestoreInput::DirectoryCopied(Some(text("x"))));
    assert_eq!(failure(&actions), "Failed to restore documents: x");
    let mut restore = begin();
    restore.step(RestoreInput::KeyRestored(None));
    restore.step(RestoreInput::DatabaseRestored(None));
    restore.step(RestoreInput::ExistenceChecked(false));
    restore.step(RestoreInput::ExistenceChecked(true));
    let actions = restore.step(RestoreInput::DirectoryCopied(Some(text("x"))));
    assert_eq!(failure(&actions), "Failed to restore vector_db: x");
}

#[test]
fn an_archive_without_key_and_checksum_goes_to_the_database() {
    let app = PathBuf::from("/app");
    let docs = PathBuf::from("/docs");
    let (mut restore, _) =
        ArchiveRestore::restore_backup_zip(&app, &docs, text("/f.zip"), text("/db"));
    let bare = ArchiveContents {
        metadata: serde_json::Value::Null,
        db_path: None,
        has_master_key: false,
        has_documents: false,
        has_workspace: true,
        has_vector_db: false,
        has_ssl: false,
    };
    let actions = restore.step(RestoreInput::Extracted(Ok(bare)));
    assert!(matches!(&actions[0], RestoreAction::CheckExistence(_)));
    let actions = restore.step(RestoreInput::ExistenceChecked(false));
    assert_eq!(actions.len(), 1);
    assert!(matches!(
        &actions[0],
        RestoreAction::RestoreDatabase { backup_path, .. } if backup_path == ""
    ));
    let actions = restore.step(RestoreInput::DatabaseRestored(None));
    assert!(matches!(
        &actions[2],
        RestoreAction::CheckExistence(p)
            if path_of(p) == app.join("_local_restore_temp").join("workspace")
    ));
    let actions = restore.step(RestoreInput::ExistenceChecked(true));
    assert!(matches!(
        &actions[0],
        RestoreAction::CopyDirectory { to, .. } if path_of(to) == app.join("workspace")
    ));
    let actions = restore.step(RestoreInput::DirectoryCopied(None));
    assert!(matches!(&actions[0], RestoreAction::Restart));
}
