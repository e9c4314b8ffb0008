//! The deleting of backups: one, several, or those that are too many.
use vstd::prelude::*;
use vstd::string::*;

use crate::backup::{
    get_backup, unknown_backup, unknown_backup_error, BackupError, BackupErrorView,
    BackupManifest, BackupRecord, ManifestView, RecordView,
};
use crate::text::{opt_view, views};

verus! {

/// What is known of a backup that is to be deleted.
pub enum DeleteInput {
    /// The record of the backup.
    RecordLoaded(Result<Option<BackupRecord>, String>),
    /// The answer to `DeleteRecord`: how many records were deleted.
    RecordDeleted(Result<u64, String>),
}

/// What is known, its texts as sequences of characters.
pub enum DeleteInputView {
    RecordLoaded(Result<Option<RecordView>, Seq<char>>),
    RecordDeleted(Result<u64, Seq<char>>),
}

impl View for DeleteInput {
    type V = DeleteInputView;

    open spec fn view(&self) -> DeleteInputView {
        match self {
            DeleteInput::RecordLoaded(Ok(record)) => DeleteInputView::RecordLoaded(
                Ok(opt_view(*record)),
            ),
            DeleteInput::RecordLoaded(Err(error)) => DeleteInputView::RecordLoaded(Err(error@)),
            DeleteInput::RecordDeleted(Ok(count)) => DeleteInputView::RecordDeleted(Ok(*count)),
            DeleteInput::RecordDeleted(Err(error)) => DeleteInputView::RecordDeleted(Err(error@)),
        }
    }
}

/// Something to do for a backup that is to be deleted.
pub enum DeleteAction {
    /// Delete a file if it exists; an error is no matter.
    RemoveFile { path: String },
    /// Delete the record of the backup; answered by `RecordDeleted`.
    DeleteRecord { id: String },
    /// The end: an error, if there was one.
    Finish(Option<BackupError>),
}

/// An action, its texts as sequences of characters.
pub enum DeleteActionView {
    RemoveFile { path: Seq<char> },
    DeleteRecord { id: Seq<char> },
    Finish(Option<BackupErrorView>),
}

impl View for DeleteAction {
    type V = DeleteActionView;

    open spec fn view(&self) -> DeleteActionView {
        match self {
            DeleteAction::RemoveFile { path } => DeleteActionView::RemoveFile { path: path@ },
            DeleteAction::DeleteRecord { id } => DeleteActionView::DeleteRecord { id: id@ },
            DeleteAction::Finish(error) => DeleteActionView::Finish(opt_view(*error)),
        }
    }
}

/// What to do for a backup with an id: first its file goes, then its record.
pub open spec fn delete_actions(id: Seq<char>, input: DeleteInputView) -> Seq<DeleteActionView> {
    match input {
        DeleteInputView::RecordLoaded(Ok(Some(record))) => match record.file_path {
            Some(path) => seq![
                DeleteActionView::RemoveFile { path },
                DeleteActionView::DeleteRecord { id },
            ],
            None => seq![DeleteActionView::DeleteRecord { id }],
        },
        DeleteInputView::RecordLoaded(Ok(None)) => seq![
            DeleteActionView::Finish(Some(unknown_backup_error(id))),
        ],
        DeleteInputView::RecordLoaded(Err(error)) => seq![
            DeleteActionView::Finish(Some(BackupErrorView::Database(error))),
        ],
        DeleteInputView::RecordDeleted(Ok(count)) => if count == 0 {
            seq![DeleteActionView::Finish(Some(unknown_backup_error(id)))]
        } else {
            seq![DeleteActionView::Finish(None)]
        },
        DeleteInputView::RecordDeleted(Err(error)) => seq![
            DeleteActionView::Finish(Some(BackupErrorView::Database(error))),
        ],
    }
}

/// Takes the record of a backup, and then the answer to the last action, and says what to do.
pub fn delete_backup(id: &str, input: DeleteInput) -> (actions: Vec<DeleteAction>)
    ensures
        views(actions@) == delete_actions(id@, input@),
{
    let mut actions: Vec<DeleteAction> = Vec::new();
    match input {
        DeleteInput::RecordLoaded(record) => match get_backup(id, record) {
            Ok(manifest) => {
                if let Some(path) = manifest.file_path {
                    actions.push(DeleteAction::RemoveFile { path });
                }
                actions.push(DeleteAction::DeleteRecord { id: id.to_owned() });
            },
            Err(error) => {
                actions.push(DeleteAction::Finish(Some(error)));
            },
        },
        DeleteInput::RecordDeleted(Ok(count)) => {
            if count == 0 {
                actions.push(DeleteAction::Finish(Some(unknown_backup(id))));
            } else {
                actions.push(DeleteAction::Finish(None));
            }
        },
        DeleteInput::RecordDeleted(Err(error)) => {
            actions.push(DeleteAction::Finish(Some(BackupError::Database(error))));
        },
    }
    assert(views(actions@) =~= delete_actions(id@, input@));
    actions
}

// ---------------------------------------------------------------------------------------
// Several backups
// ---------------------------------------------------------------------------------------

/// What to do next for backups that are to be deleted one after another.
pub enum QueueAction {
    /// Delete a backup.
    Delete { id: String },
    /// The end: how many were deleted, or the error that stopped it.
    Finish(Result<usize, BackupError>),
}

/// An action, its texts as sequences of characters.
pub enum QueueActionView {
    Delete { id: Seq<char> },
    Finish(Result<nat, BackupErrorView>),
}

impl View for QueueAction {
    type V = QueueActionView;

    open spec fn view(&self) -> QueueActionView {
        match self {
            QueueAction::Delete { id } => QueueActionView::Delete { id: id@ },
            QueueAction::Finish(Ok(count)) => QueueActionView::Finish(Ok(*count as nat)),
            QueueAction::Finish(Err(error)) => QueueActionView::Finish(Err(error@)),
        }
    }
}

/// Backups that are to be deleted, and how many have been.
pub struct QueueView {
    pub ids: Seq<Seq<char>>,
    pub deleted: nat,
}

/// The next action of a queue.
pub open spec fn queue_next(q: QueueView) -> QueueActionView {
    if q.deleted < q.ids.len() {
        QueueActionView::Delete { id: q.ids[q.deleted as int] }
    } else {
        QueueActionView::Finish(Ok(q.deleted))
    }
}

/// What the end of one deletion does to a queue: the first error stops it.
pub open spec fn queue_step(q: QueueView, error: Option<BackupErrorView>) -> (
    QueueView,
    QueueActionView,
) {
    match error {
        Some(error) => (q, QueueActionView::Finish(Err(error))),
        None => {
            let next = QueueView { deleted: q.deleted + 1, ..q };
            (next, queue_next(next))
        },
    }
}

/// Backups that are to be deleted one after another.
pub struct DeleteQueue {
    ids: Vec<String>,
    deleted: usize,
}

impl View for DeleteQueue {
    type V = QueueView;

    closed spec fn view(&self) -> QueueView {
        QueueView { ids: views(self.ids@), deleted: self.deleted as nat }
    }
}

impl DeleteQueue {
    fn next(&self) -> (action: QueueAction)
        ensures
            action@ == queue_next(self@),
    {
        if self.deleted < self.ids.len() {
            QueueAction::Delete { id: self.ids[self.deleted].clone() }
        } else {
            QueueAction::Finish(Ok(self.deleted))
        }
    }

    /// Begins to delete backups in the given order.
    pub fn batch_delete_backups(ids: Vec<String>) -> (result: (DeleteQueue, QueueAction))
        ensures
            result.0@ == (QueueView { ids: views(ids@), deleted: 0 }),
            result.1@ == queue_next(result.0@),
    {
        let queue = DeleteQueue { ids, deleted: 0 };
        let action = queue.next();
        (queue, action)
    }

    /// Begins to delete the backups beyond a number, given all backups, the newest first. Where
    /// they could not be listed, that is the end.
    pub fn cleanup_old_backups(
        listed: Result<Vec<BackupManifest>, BackupError>,
        max_count: u32,
    ) -> (result: (DeleteQueue, QueueAction))
        ensures
            match listed {
                Ok(manifests) => {
                    &&& result.0@ == (QueueView {
                        ids: surplus(views(manifests@), max_count as nat),
                        deleted: 0,
                    })
                    &&& result.1@ == queue_next(result.0@)
                },
                Err(error) => {
                    &&& result.0@ == (QueueView { ids: Seq::empty(), deleted: 0 })
                    &&& result.1@ == QueueActionView::Finish(Err(error@))
                },
            },
    {
        match listed {
            Ok(manifests) => DeleteQueue::batch_delete_backups(surplus_ids(&manifests, max_count)),
            Err(error) => {
                let queue = DeleteQueue { ids: Vec::new(), deleted: 0 };
                assert(queue@.ids =~= Seq::empty());
                (queue, QueueAction::Finish(Err(error)))
            },
        }
    }

    /// Takes how the deletion of the last backup ended and says what to do next. One has to be
    /// under way.
    pub fn step(&mut self, error: Option<BackupError>) -> (action: QueueAction)
        requires
            old(self)@.deleted < old(self)@.ids.len(),
        ensures
            (final(self)@, action@) == queue_step(old(self)@, opt_view(error)),
    {
        match error {
            Some(error) => QueueAction::Finish(Err(error)),
            None => {
                assert(self.deleted < self.ids.len());
                self.deleted = self.deleted + 1;
                self.next()
            },
        }
    }
}

/// The ids of the backups beyond a number.
pub open spec fn surplus(manifests: Seq<ManifestView>, max_count: nat) -> Seq<Seq<char>> {
    if manifests.len() <= max_count {
        Seq::empty()
    } else {
        Seq::new((manifests.len() - max_count) as nat, |i: int| manifests[max_count + i].id)
    }
}

/// Finds the backups that are too many: those after the first `max_count` of the list.
fn surplus_ids(manifests: &Vec<BackupManifest>, max_count: u32) -> (ids: Vec<String>)
    ensures
        views(ids@) == surplus(views(manifests@), max_count as nat),
{
    let mut ids: Vec<String> = Vec::new();
    let ghost all = views(manifests@);
    if manifests.len() <= max_count as usize {
        assert(views(ids@) =~= Seq::empty());
        return ids;
    }
    let mut i: usize = max_count as usize;
    while i < manifests.len()
        invariant
            max_count <= i <= manifests.len(),
            all == views(manifests@),
            views(ids@) =~= surplus(all, max_count as nat).take(i - max_count),
            manifests.len() > max_count,
        decreases manifests.len() - i,
    {
        let ghost before = views(ids@);
        let id = manifests[i].id.clone();
        ids.push(id);
        assert(views(ids@) =~= before.push(id@));
        assert(surplus(all, max_count as nat)[i - max_count] == id@);
        i = i + 1;
    }
    ids
}

/// The number of deleted backups as it is reported.
pub fn deleted_count(count: usize) -> (reported: u32)
    requires
        count <= u32::MAX,
    ensures
        reported == count,
{
    count as u32
}

} // verus!
