use std::path::{Path, PathBuf};

use aqbot_agent_runtime::backup::{
    backup_file_name, compute_file_checksum, count_objects, ensure_backup_dir, get_backup,
    list_backups, model_to_manifest, resolve_backup_dir, strip_sqlite_prefix, vacuum_into,
    BackupError, BackupRecord,
};
use aqbot_agent_runtime::location::Location;

fn text(s: &str) -> String {
    s.to_string()
}

fn path_of(place: Location<PathBuf>) -> PathBuf {
    match place {
        Location::Explicit(path) => PathBuf::from(path),
        Location::Below { base, steps } => {
            let mut path = base.to_path_buf();
            for step in steps {
                path.push(step);
            }
            path
        }
    }
}

fn record(id: &str, encrypted: i32) -> BackupRecord {
    BackupRecord {
        id: text(id),
        version: text("sqlite"),
        created_at: text("2024-01-01 00:00:00"),
        encrypted,
        checksum: text("sum"),
        object_counts_json: text("{}"),
        source_app_version: text("1.0"),
        file_path: Some(text("/b/x.db")),
        file_size: 12,
    }
}

#[test]
fn resolve_backup_dir_defaults_to_aqbot_backups_subdir() {
    let aqbot_home = PathBuf::from("/Users/test/.aqbot");

    assert_eq!(
        path_of(resolve_backup_dir(None, &aqbot_home)),
        aqbot_home.join("backups")
    );
    assert_eq!(
        path_of(resolve_backup_dir(Some(""), &aqbot_home)),
        aqbot_home.join("backups")
    );
}

#[test]
fn resolve_backup_dir_honors_explicit_absolute_override() {
    let aqbot_home = PathBuf::from("/Users/test/.aqbot");
    let override_dir = PathBuf::from("/Volumes/external/aqbot-backups");

    assert_eq!(
        path_of(resolve_backup_dir(Some(override_dir.to_str().unwrap()), &aqbot_home)),
        override_dir
    );
}

#[test]
fn a_directory_that_cannot_be_created_is_an_error() {
    assert!(ensure_backup_dir(None).is_ok());
    assert!(matches!(
        ensure_backup_dir(Some(text("denied"))),
        Err(BackupError::Gateway(m)) if m == "Failed to create backup directory: denied"
    ));
}

#[test]
fn records_are_shown_as_manifests() {
    let manifest = model_to_manifest(record("b1", 0));
    assert_eq!(manifest.id, "b1");
    assert_eq!(manifest.version, "sqlite");
    assert_eq!(manifest.created_at, "2024-01-01 00:00:00");
    assert!(!manifest.encrypted);
    assert_eq!(manifest.checksum, "sum");
    assert_eq!(manifest.object_counts_json, "{}");
    assert_eq!(manifest.source_app_version, "1.0");
    assert_eq!(manifest.file_path, Some(text("/b/x.db")));
    assert_eq!(manifest.file_size, 12);
    assert!(model_to_manifest(record("b1", -1)).encrypted);
}

#[test]
fn backups_are_listed_in_the_order_of_the_store() {
    let listed = list_backups(Ok(vec![record("b2", 0), record("b1", 1)])).unwrap();
    let ids: Vec<String> = listed.into_iter().map(|m| m.id).collect();
    assert_eq!(ids, vec!["b2", "b1"]);
    assert!(matches!(list_backups(Err(text("db"))), Err(BackupError::Database(m)) if m == "db"));
}

#[test]
fn an_unknown_backup_is_not_found() {
    assert_eq!(get_backup("b1", Ok(Some(record("b1", 0)))).unwrap().id, "b1");
    assert!(matches!(
        get_backup("b9", Ok(None)),
        Err(BackupError::NotFound(m)) if m == "BackupManifest b9"
    ));
    assert!(matches!(
        get_backup("b9", Err(text("db"))),
        Err(BackupError::Database(m)) if m == "db"
    ));
}

#[test]
fn files_are_named_after_time_and_format() {
    assert_eq!(
        backup_file_name("20240131_235959", "sqlite"),
        "aqbot-backup-20240131_235959.db"
    );
    assert_eq!(backup_file_name("t", "json"), "aqbot-backup-t.json");
    assert_eq!(backup_file_name("t", "zip"), "aqbot-backup-t.json");
}

#[test]
fn the_database_path_has_no_scheme() {
    assert_eq!(strip_sqlite_prefix("sqlite:/data/aqbot.db"), "/data/aqbot.db");
    assert_eq!(strip_sqlite_prefix("sqlite:sqlite:x"), "sqlite:x");
    assert_eq!(strip_sqlite_prefix("/data/aqbot.db"), "/data/aqbot.db");
    assert_eq!(strip_sqlite_prefix("sql"), "sql");
    assert_eq!(strip_sqlite_prefix("sqlite:"), "");
}

#[test]
fn quotes_in_a_path_are_doubled() {
    assert_eq!(vacuum_into("/a/b.db"), "VACUUM INTO '/a/b.db'");
    assert_eq!(vacuum_into("/it's/'x'"), "VACUUM INTO '/it''s/''x'''");
    let path = Path::new("/o'n.db").to_string_lossy().to_string();
    assert_eq!(vacuum_into(&path), format!("VACUUM INTO '{}'", path.replace('\'', "''")));
}

#[test]
fn checksums_are_sha256_in_hexadecimal() {
    assert_eq!(
        compute_file_checksum(Ok(b"abc".to_vec())).unwrap(),
        "ba7816bf8f01cfea414140de5dae2223b00361a396177a9cb410ff61f20015ad"
    );
    assert_eq!(
        compute_file_checksum(Ok(Vec::new())).unwrap(),
        "e3b0c44298fc1c149afbf4c8996fb92427ae41e4649b934ca495991b7852b855"
    );
    assert!(matches!(
        compute_file_checksum(Err(text("gone"))),
        Err(BackupError::Gateway(m)) if m == "Failed to read file for checksum: gone"
    ));
}

#[test]
fn object_counts_are_compact_json() {
    assert_eq!(
        count_objects(Some(12), None, Some(u64::MAX)),
        "{\"conversations\":12,\"messages\":0,\"providers\":18446744073709551615}"
    );
}
