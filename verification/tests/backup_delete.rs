use aqbot_agent_runtime::backup::{BackupError, BackupManifest, BackupRecord};
use aqbot_agent_runtime::backup_delete::{
    delete_backup, deleted_count, DeleteAction, DeleteInput, DeleteQueue, QueueAction,
};

fn text(s: &str) -> String {
    s.to_string()
}

fn record(file_path: Option<&str>) -> BackupRecord {
    BackupRecord {
        id: text("b1"),
        version: text("sqlite"),
        created_at: text("now"),
        encrypted: 0,
        checksum: text(""),
        object_counts_json: text(""),
        source_app_version: text(""),
        file_path: file_path.map(text),
        file_size: 0,
    }
}

fn manifest(id: &str) -> BackupManifest {
    BackupManifest {
        id: text(id),
        version: text("sqlite"),
        created_at: text("now"),
        encrypted: false,
        checksum: text(""),
        object_counts_json: text(""),
        source_app_version: text(""),
        file_path: None,
        file_size: 0,
    }
}

#[test]
fn a_backup_loses_its_file_and_then_its_record() {
    let actions = delete_backup("b1", DeleteInput::RecordLoaded(Ok(Some(record(Some("/f"))))));
    assert_eq!(actions.len(), 2);
    assert!(matches!(&actions[0], DeleteAction::RemoveFile { path } if path == "/f"));
    assert!(matches!(&actions[1], DeleteAction::DeleteRecord { id } if id == "b1"));
    let actions = delete_backup("b1", DeleteInput::RecordLoaded(Ok(Some(record(None)))));
    assert_eq!(actions.len(), 1);
    let actions = delete_backup("b1", DeleteInput::RecordDeleted(Ok(1)));
    assert!(matches!(&actions[0], DeleteAction::Finish(None)));
}

#[test]
fn deleting_an_unknown_backup_fails() {
    let actions = delete_backup("b1", DeleteInput::RecordLoaded(Ok(None)));
    assert!(matches!(
        &actions[0],
        DeleteAction::Finish(Some(BackupError::NotFound(m))) if m == "BackupManifest b1"
    ));
    let actions = delete_backup("b1", DeleteInput::RecordDeleted(Ok(0)));
    assert!(matches!(
        &actions[0],
        DeleteAction::Finish(Some(BackupError::NotFound(m))) if m == "BackupManifest b1"
    ));
    let actions = delete_backup("b1", DeleteInput::RecordLoaded(Err(text("db"))));
    assert!(matches!(
        &actions[0],
        DeleteAction::Finish(Some(BackupError::Database(m))) if m == "db"
    ));
    let actions = delete_backup("b1", DeleteInput::RecordDeleted(Err(text("db"))));
    assert!(matches!(&actions[0], DeleteAction::Finish(Some(BackupError::Database(_)))));
}

#[test]
fn several_backups_are_deleted_in_order() {
    let (mut queue, action) = DeleteQueue::batch_delete_backups(vec![text("a"), text("b")]);
    assert!(matches!(action, QueueAction::Delete { id } if id == "a"));
    assert!(matches!(queue.step(None), QueueAction::Delete { id } if id == "b"));
    assert!(matches!(queue.step(None), QueueAction::Finish(Ok(2))));
    let (mut queue, _) = DeleteQueue::batch_delete_backups(vec![text("a"), text("b")]);
    assert!(matches!(
        queue.step(Some(BackupError::NotFound(text("a")))),
        QueueAction::Finish(Err(BackupError::NotFound(m))) if m == "a"
    ));
    let (_, action) = DeleteQueue::batch_delete_backups(Vec::new());
    assert!(matches!(action, QueueAction::Finish(Ok(0))));
}

#[test]
fn pruning_deletes_all_but_the_newest() {
    let all = vec![manifest("new"), manifest("mid"), manifest("old")];
    let (mut queue, action) = DeleteQueue::cleanup_old_backups(Ok(all), 1);
    assert!(matches!(action, QueueAction::Delete { id } if id == "mid"));
    assert!(matches!(queue.step(None), QueueAction::Delete { id } if id == "old"));
    match queue.step(None) {
        QueueAction::Finish(Ok(count)) => assert_eq!(deleted_count(count), 2),
        _ => panic!("not finished"),
    }
    let (_, action) = DeleteQueue::cleanup_old_backups(Ok(vec![manifest("new")]), 1);
    assert!(matches!(action, QueueAction::Finish(Ok(0))));
    let (_, action) = DeleteQueue::cleanup_old_backups(Ok(vec![manifest("new")]), 0);
    assert!(matches!(action, QueueAction::Delete { id } if id == "new"));
    let (_, action) = DeleteQueue::cleanup_old_backups(Err(BackupError::Database(text("db"))), 1);
    assert!(matches!(action, QueueAction::Finish(Err(BackupError::Database(_)))));
}
