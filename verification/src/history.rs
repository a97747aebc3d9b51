//! The undo/redo journal: reversible operations, the backup of a deleted
//! directory, and a cursor into the list of what was done.

use vstd::prelude::*;
use crate::file_ops::{
    create_directory, create_file, create_file_steps, delete_path, delete_step,
    lemma_restore_covers_backup, rename_path, restore_deleted_path, restore_steps, FsStep,
    FsStepView,
};
use crate::paths::joined;
use crate::seqs::{copy_bytes, copy_strings, lemma_views_push, lemma_views_take, views};

verus! {

/// One file of a backed-up directory: its path below the directory and its bytes.
#[derive(Debug, PartialEq, Eq)]
pub struct FileBackup {
    pub path: String,
    pub content: Vec<u8>,
}

/// The mathematical value of a `FileBackup`.
pub struct FileBackupView {
    pub path: Seq<char>,
    pub content: Seq<u8>,
}

impl View for FileBackup {
    type V = FileBackupView;

    open spec fn view(&self) -> FileBackupView {
        FileBackupView { path: self.path@, content: self.content@ }
    }
}

/// Everything below a deleted directory: each file with its bytes, and each
/// subdirectory, so that empty ones come back too. Paths are relative to
/// the directory.
#[derive(Debug, PartialEq, Eq)]
pub struct DirBackup {
    pub files: Vec<FileBackup>,
    pub dirs: Vec<String>,
}

/// The mathematical value of a `DirBackup`.
pub struct DirBackupView {
    pub files: Seq<FileBackupView>,
    pub dirs: Seq<Seq<char>>,
}

impl View for DirBackup {
    type V = DirBackupView;

    open spec fn view(&self) -> DirBackupView {
        DirBackupView { files: views(self.files@), dirs: views(self.dirs@) }
    }
}

/// Whether no two files of the list have the same path.
pub open spec fn distinct_paths(files: Seq<FileBackupView>) -> bool {
    forall|i: int, j: int|
        0 <= i < j < files.len() ==> (#[trigger] files[i]).path != (#[trigger] files[j]).path
}

impl DirBackup {
    /// No file is backed up twice: the relative paths of the files differ.
    pub open spec fn wf(&self) -> bool {
        distinct_paths(self@.files)
    }

    /// A copy with the same files and directories.
    pub fn clone(&self) -> (copy: Self)
        ensures
            copy@ == self@,
    {
        let mut files: Vec<FileBackup> = Vec::new();
        let mut i: usize = 0;
        while i < self.files.len()
            invariant
                i <= self.files.len(),
                views(files@) =~= views(self.files@).take(i as int),
            decreases self.files.len() - i,
        {
            let file = &self.files[i];
            let copy = FileBackup { path: file.path.clone(), content: copy_bytes(&file.content) };
            proof {
                lemma_views_push(files@, copy);
                assert(views(self.files@).take(i + 1) =~= views(self.files@).take(i as int).push(
                    self.files@[i as int]@,
                ));
            }
            files.push(copy);
            i += 1;
        }
        assert(views(files@) =~= views(self.files@));
        DirBackup { files, dirs: copy_strings(&self.dirs) }
    }
}

/// One reversible change to the directory tree.
#[derive(Debug, PartialEq, Eq)]
pub enum Operation {
    /// `path` was removed. `content` holds the bytes if, and only if, it
    /// was a file; `dir_backup` holds the subtree if, and only if, it was
    /// a directory; `position` is the listing index it had.
    Delete {
        path: String,
        is_dir: bool,
        content: Option<Vec<u8>>,
        position: usize,
        dir_backup: Option<DirBackup>,
    },
    /// `path` was created, as a directory or as an empty file.
    Create { path: String, is_dir: bool },
    /// `old_path` was renamed to `new_path`.
    Rename { old_path: String, new_path: String },
}

/// The mathematical value of an `Operation`.
pub enum OperationView {
    Delete {
        path: Seq<char>,
        is_dir: bool,
        content: Option<Seq<u8>>,
        position: usize,
        dir_backup: Option<DirBackupView>,
    },
    Create { path: Seq<char>, is_dir: bool },
    Rename { old_path: Seq<char>, new_path: Seq<char> },
}

impl View for Operation {
    type V = OperationView;

    open spec fn view(&self) -> OperationView {
        match *self {
            Operation::Delete { path, is_dir, content, position, dir_backup } => {
                OperationView::Delete {
                    path: path@,
                    is_dir,
                    content: match content {
                        Some(data) => Some(data@),
                        None => None,
                    },
                    position,
                    dir_backup: match dir_backup {
                        Some(backup) => Some(backup@),
                        None => None,
                    },
                }
            },
            Operation::Create { path, is_dir } => OperationView::Create { path: path@, is_dir },
            Operation::Rename { old_path, new_path } => OperationView::Rename {
                old_path: old_path@,
                new_path: new_path@,
            },
        }
    }
}

/// The steps that take the operation's effect back: a deletion is restored
/// from what was saved, a creation is deleted, a rename is renamed back.
pub open spec fn inverse_steps(op: OperationView) -> Seq<FsStepView> {
    match op {
        OperationView::Delete { path, is_dir, content, position, dir_backup } => restore_steps(
            path,
            is_dir,
            content,
            dir_backup,
        ),
        OperationView::Create { path, is_dir } => seq![delete_step(path, is_dir)],
        OperationView::Rename { old_path, new_path } => seq![
            FsStepView::Rename(new_path, old_path),
        ],
    }
}

/// The steps that carry the operation out once more: a deletion deletes
/// again, a creation creates again, a rename renames again.
pub open spec fn forward_steps(op: OperationView) -> Seq<FsStepView> {
    match op {
        OperationView::Delete { path, is_dir, content, position, dir_backup } => seq![
            delete_step(path, is_dir),
        ],
        OperationView::Create { path, is_dir } => if is_dir {
            seq![FsStepView::CreateDir(path)]
        } else {
            create_file_steps(path)
        },
        OperationView::Rename { old_path, new_path } => seq![
            FsStepView::Rename(old_path, new_path),
        ],
    }
}

impl OperationView {
    /// What a deletion has saved fits what was deleted: of a file its
    /// bytes and no backup, of a directory its backup and no bytes.
    pub open spec fn wf(self) -> bool {
        match self {
            OperationView::Delete { path, is_dir, content, position, dir_backup } => {
                &&& content is Some <==> !is_dir
                &&& dir_backup is Some <==> is_dir
            },
            _ => true,
        }
    }
}

/// Whether each operation of the list is well-formed.
pub open spec fn all_wf(ops: Seq<OperationView>) -> bool {
    forall|i: int| 0 <= i < ops.len() ==> (#[trigger] ops[i]).wf()
}

/// Undoing a well-formed deletion brings back what was deleted: a file
/// gets exactly the bytes saved; a directory is recreated with every
/// backed-up file, byte for byte, and every backed-up subdirectory.
pub proof fn lemma_undo_restores_deleted(op: OperationView)
    requires
        op.wf(),
        op is Delete,
    ensures
        !op->Delete_is_dir ==> inverse_steps(op).len() > 0 && inverse_steps(op).last()
            == FsStepView::WriteFile(op->Delete_path, op->Delete_content->0),
        op->Delete_is_dir ==> inverse_steps(op)[0] == FsStepView::CreateDirAll(op->Delete_path),
        op->Delete_is_dir ==> forall|k: int|
            0 <= k < op->Delete_dir_backup->0.files.len() ==> inverse_steps(op).contains(
                FsStepView::WriteFile(
                    joined(op->Delete_path, (#[trigger] op->Delete_dir_backup->0.files[k]).path),
                    op->Delete_dir_backup->0.files[k].content,
                ),
            ),
        op->Delete_is_dir ==> forall|k: int|
            0 <= k < op->Delete_dir_backup->0.dirs.len() ==> inverse_steps(op).contains(
                FsStepView::CreateDirAll(
                    joined(op->Delete_path, #[trigger] op->Delete_dir_backup->0.dirs[k]),
                ),
            ),
{
    if op->Delete_is_dir {
        lemma_restore_covers_backup(op->Delete_path, op->Delete_dir_backup->0);
    }
}

impl Operation {
    /// Whether the operation is well-formed.
    pub open spec fn wf(&self) -> bool {
        self@.wf()
    }

    /// Whether the operation is well-formed, for callers that cannot prove it.
    pub fn is_valid(&self) -> (ok: bool)
        ensures
            ok == self.wf(),
    {
        match self {
            Operation::Delete { path, is_dir, content, position, dir_backup } => {
                content.is_some() == !*is_dir && dir_backup.is_some() == *is_dir
            },
            _ => true,
        }
    }

    /// The steps that take this operation's effect back.
    pub fn undo_steps(&self) -> (steps: Vec<FsStep>)
        ensures
            views(steps@) == inverse_steps(self@),
    {
        match self {
            Operation::Delete { path, is_dir, content, position, dir_backup } => {
                restore_deleted_path(path.as_str(), *is_dir, content, dir_backup)
            },
            Operation::Create { path, is_dir } => {
                let mut steps: Vec<FsStep> = Vec::new();
                steps.push(delete_path(path.as_str(), *is_dir));
                assert(views(steps@) =~= inverse_steps(self@));
                steps
            },
            Operation::Rename { old_path, new_path } => {
                let mut steps: Vec<FsStep> = Vec::new();
                steps.push(rename_path(new_path.as_str(), old_path.as_str()));
                assert(views(steps@) =~= inverse_steps(self@));
                steps
            },
        }
    }

    /// The steps that carry this operation out once more. What a deletion
    /// saved is left in place, so that it can be undone again.
    pub fn redo_steps(&self) -> (steps: Vec<FsStep>)
        ensures
            views(steps@) == forward_steps(self@),
    {
        match self {
            Operation::Delete { path, is_dir, content, position, dir_backup } => {
                let mut steps: Vec<FsStep> = Vec::new();
                steps.push(delete_path(path.as_str(), *is_dir));
                assert(views(steps@) =~= forward_steps(self@));
                steps
            },
            Operation::Create { path, is_dir } => {
                if *is_dir {
                    let mut steps: Vec<FsStep> = Vec::new();
                    steps.push(create_directory(path.as_str()));
                    assert(views(steps@) =~= forward_steps(self@));
                    steps
                } else {
                    create_file(path.as_str())
                }
            },
            Operation::Rename { old_path, new_path } => {
                let mut steps: Vec<FsStep> = Vec::new();
                steps.push(rename_path(old_path.as_str(), new_path.as_str()));
                assert(views(steps@) =~= forward_steps(self@));
                steps
            },
        }
    }

    /// A copy that records the same change.
    pub fn clone(&self) -> (copy: Self)
        ensures
            copy@ == self@,
    {
        match self {
            Operation::Delete { path, is_dir, content, position, dir_backup } => {
                let content_copy = match content {
                    Some(data) => Some(copy_bytes(data)),
                    None => None,
                };
                let backup_copy = match dir_backup {
                    Some(backup) => Some(backup.clone()),
                    None => None,
                };
                Operation::Delete {
                    path: path.clone(),
                    is_dir: *is_dir,
                    content: content_copy,
                    position: *position,
                    dir_backup: backup_copy,
                }
            },
            Operation::Create { path, is_dir } => Operation::Create {
                path: path.clone(),
                is_dir: *is_dir,
            },
            Operation::Rename { old_path, new_path } => Operation::Rename {
                old_path: old_path.clone(),
                new_path: new_path.clone(),
            },
        }
    }
}

/// The journal: what was done, in order, and a cursor. The operations
/// before the cursor can be undone, those from the cursor on can be redone.
#[derive(Debug, PartialEq, Eq)]
pub struct History {
    pub operations: Vec<Operation>,
    pub index: usize,
}

impl History {
    /// The cursor lies within the list, and each operation is well-formed.
    pub open spec fn wf(&self) -> bool {
        &&& self.index <= self.operations.len()
        &&& all_wf(self.ops())
    }

    /// Whether the journal's invariant holds, for callers that cannot prove it.
    pub fn is_valid(&self) -> (ok: bool)
        ensures
            ok == self.wf(),
    {
        if self.index > self.operations.len() {
            return false;
        }
        let mut i: usize = 0;
        while i < self.operations.len()
            invariant
                i <= self.operations.len(),
                forall|k: int| 0 <= k < i ==> (#[trigger] self.ops()[k]).wf(),
            decreases self.operations.len() - i,
        {
            assert(self.ops()[i as int] == self.operations[i as int]@);
            if !self.operations[i].is_valid() {
                return false;
            }
            i += 1;
        }
        true
    }

    /// The recorded operations, in order.
    pub open spec fn ops(&self) -> Seq<OperationView> {
        views(self.operations@)
    }

    /// Whether there is an operation to undo.
    pub open spec fn undo_available(&self) -> bool {
        self.index > 0
    }

    /// Whether there is an operation to redo.
    pub open spec fn redo_available(&self) -> bool {
        self.index < self.operations.len()
    }

    /// An empty journal.
    pub fn new() -> (h: Self)
        ensures
            h.wf(),
            h.ops() == Seq::<OperationView>::empty(),
            h.index == 0,
    {
        let h = History { operations: Vec::new(), index: 0 };
        assert(h.ops() =~= Seq::<OperationView>::empty());
        h
    }

    /// Whether there is an operation to undo.
    pub fn can_undo(&self) -> (yes: bool)
        ensures
            yes == self.undo_available(),
    {
        self.index > 0
    }

    /// Whether there is an operation to redo.
    pub fn can_redo(&self) -> (yes: bool)
        ensures
            yes == self.redo_available(),
    {
        self.index < self.operations.len()
    }

    /// Records a new operation at the cursor: what could be redone is
    /// discarded, the operation is appended, and the cursor moves past it.
    pub fn record(&mut self, op: Operation)
        requires
            old(self).wf(),
            op.wf(),
        ensures
            final(self).wf(),
            final(self).ops() == old(self).ops().take(old(self).index as int).push(op@),
            final(self).index == old(self).index + 1,
            final(self).index == final(self).operations.len(),
            !final(self).redo_available(),
    {
        proof {
            lemma_views_take(self.operations@, self.index as int);
        }
        self.operations.truncate(self.index);
        proof {
            lemma_views_push(self.operations@, op);
        }
        self.operations.push(op);
        self.index = self.operations.len();
    }

    /// The steps that undo the operation before the cursor, or `None` when
    /// there is nothing to undo. The journal does not change: the cursor
    /// moves in `commit_undo`, once the steps have succeeded.
    pub fn undo_plan(&self) -> (plan: Option<Vec<FsStep>>)
        requires
            self.wf(),
        ensures
            plan.is_some() == self.undo_available(),
            plan matches Some(steps) ==> views(steps@) == inverse_steps(
                self.ops()[self.index - 1],
            ),
    {
        if self.index > 0 {
            Some(self.operations[self.index - 1].undo_steps())
        } else {
            None
        }
    }

    /// The steps that redo the operation at the cursor, or `None` when
    /// there is nothing to redo. The journal does not change: the cursor
    /// moves in `commit_redo`, once the steps have succeeded.
    pub fn redo_plan(&self) -> (plan: Option<Vec<FsStep>>)
        requires
            self.wf(),
        ensures
            plan.is_some() == self.redo_available(),
            plan matches Some(steps) ==> views(steps@) == forward_steps(
                self.ops()[self.index as int],
            ),
    {
        if self.index < self.operations.len() {
            Some(self.operations[self.index].redo_steps())
        } else {
            None
        }
    }

    /// Moves the cursor back over the operation that was undone. Without
    /// an operation before the cursor nothing changes.
    pub fn commit_undo(&mut self)
        requires
            old(self).wf(),
        ensures
            final(self).wf(),
            final(self).operations == old(self).operations,
            final(self).index == if old(self).undo_available() {
                old(self).index - 1
            } else {
                old(self).index as int
            },
    {
        if self.index > 0 {
            self.index = self.index - 1;
        }
    }

    /// Moves the cursor past the operation that was redone. Without an
    /// operation at the cursor nothing changes.
    pub fn commit_redo(&mut self)
        requires
            old(self).wf(),
        ensures
            final(self).wf(),
            final(self).operations == old(self).operations,
            final(self).index == if old(self).redo_available() {
                old(self).index + 1
            } else {
                old(self).index as int
            },
    {
        if self.index < self.operations.len() {
            self.index = self.index + 1;
        }
    }
}

} // verus!
