//! What has to happen on disk for each structural change, as a list of
//! steps for the caller to carry out in order, stopping at the first failure.

use vstd::prelude::*;
use crate::error::{ExplorerError, ExplorerErrorView};
use crate::history::{
    DirBackup, DirBackupView, FileBackupView, Operation, OperationView,
};
use crate::paths::{join, joined, parent, parent_of};
use crate::seqs::{copy_bytes, views};

verus! {

/// One change on disk.
#[derive(Debug, PartialEq, Eq)]
pub enum FsStep {
    /// Create the directory and every missing ancestor; an error where the
    /// path exists already.
    CreateDir(String),
    /// Create the directory and every missing ancestor; no error if it exists.
    CreateDirAll(String),
    /// Create the directory and every missing ancestor unless the path exists.
    EnsureDir(String),
    /// Create an empty file; an error where the path exists already.
    CreateFile(String),
    /// Write the bytes to the file, replacing what it held.
    WriteFile(String, Vec<u8>),
    /// Remove one file.
    RemoveFile(String),
    /// Remove a directory with all that it holds.
    RemoveDirAll(String),
    /// Rename the first path to the second; an error where the second
    /// exists already.
    Rename(String, String),
}

/// The mathematical value of a step.
pub enum FsStepView {
    CreateDir(Seq<char>),
    CreateDirAll(Seq<char>),
    EnsureDir(Seq<char>),
    CreateFile(Seq<char>),
    WriteFile(Seq<char>, Seq<u8>),
    RemoveFile(Seq<char>),
    RemoveDirAll(Seq<char>),
    Rename(Seq<char>, Seq<char>),
}

impl View for FsStep {
    type V = FsStepView;

    open spec fn view(&self) -> FsStepView {
        match *self {
            FsStep::CreateDir(p) => FsStepView::CreateDir(p@),
            FsStep::CreateDirAll(p) => FsStepView::CreateDirAll(p@),
            FsStep::EnsureDir(p) => FsStepView::EnsureDir(p@),
            FsStep::CreateFile(p) => FsStepView::CreateFile(p@),
            FsStep::WriteFile(p, data) => FsStepView::WriteFile(p@, data@),
            FsStep::RemoveFile(p) => FsStepView::RemoveFile(p@),
            FsStep::RemoveDirAll(p) => FsStepView::RemoveDirAll(p@),
            FsStep::Rename(from, to) => FsStepView::Rename(from@, to@),
        }
    }
}

/// The step that removes `path`: recursively for a directory.
pub open spec fn delete_step(path: Seq<char>, is_dir: bool) -> FsStepView {
    if is_dir {
        FsStepView::RemoveDirAll(path)
    } else {
        FsStepView::RemoveFile(path)
    }
}

/// The steps that create an empty file at `path`: its parent directory is
/// made first where the path has one and it is missing.
pub open spec fn create_file_steps(path: Seq<char>) -> Seq<FsStepView> {
    match parent_of(path) {
        Some(dir) => seq![FsStepView::EnsureDir(dir), FsStepView::CreateFile(path)],
        None => seq![FsStepView::CreateFile(path)],
    }
}

/// The steps that put one backed-up file back below `root`.
pub open spec fn restore_file_steps(root: Seq<char>, file: FileBackupView) -> Seq<FsStepView> {
    let target = joined(root, file.path);
    match parent_of(target) {
        Some(dir) => seq![
            FsStepView::CreateDirAll(dir),
            FsStepView::WriteFile(target, file.content),
        ],
        None => seq![FsStepView::WriteFile(target, file.content)],
    }
}

/// The steps that put the backed-up files back below `root`, in order.
pub open spec fn restore_files_steps(root: Seq<char>, files: Seq<FileBackupView>) -> Seq<
    FsStepView,
>
    decreases files.len(),
{
    if files.len() == 0 {
        Seq::empty()
    } else {
        restore_files_steps(root, files.drop_last()) + restore_file_steps(root, files.last())
    }
}

/// The steps that recreate the backed-up directories below `root`, in order.
pub open spec fn restore_dirs_steps(root: Seq<char>, dirs: Seq<Seq<char>>) -> Seq<FsStepView> {
    Seq::new(dirs.len(), |i: int| FsStepView::CreateDirAll(joined(root, dirs[i])))
}

/// The steps that bring a deleted path back: a directory is recreated with
/// every backed-up file and then every backed-up directory; a file gets its
/// saved bytes back. Where nothing was saved there is nothing to write:
/// for a file no step, for a directory the directory alone. The journal
/// holds no such record: see `OperationView::wf`.
pub open spec fn restore_steps(
    path: Seq<char>,
    is_dir: bool,
    content: Option<Seq<u8>>,
    dir_backup: Option<DirBackupView>,
) -> Seq<FsStepView> {
    if is_dir {
        match dir_backup {
            Some(backup) => seq![FsStepView::CreateDirAll(path)] + restore_files_steps(
                path,
                backup.files,
            ) + restore_dirs_steps(path, backup.dirs),
            None => seq![FsStepView::CreateDirAll(path)],
        }
    } else {
        match content {
            Some(data) => match parent_of(path) {
                Some(dir) => seq![FsStepView::EnsureDir(dir), FsStepView::WriteFile(path, data)],
                None => seq![FsStepView::WriteFile(path, data)],
            },
            None => Seq::empty(),
        }
    }
}

/// The content of an optional byte vector.
pub open spec fn opt_bytes(content: Option<Vec<u8>>) -> Option<Seq<u8>> {
    match content {
        Some(data) => Some(data@),
        None => None,
    }
}

/// The value of an optional directory backup.
pub open spec fn opt_backup(backup: Option<DirBackup>) -> Option<DirBackupView> {
    match backup {
        Some(b) => Some(b@),
        None => None,
    }
}

/// The step that removes `path`.
pub fn delete_path(path: &str, is_dir: bool) -> (step: FsStep)
    ensures
        step@ == delete_step(path@, is_dir),
{
    if is_dir {
        FsStep::RemoveDirAll(path.to_owned())
    } else {
        FsStep::RemoveFile(path.to_owned())
    }
}

/// The steps that create an empty file at `path`.
pub fn create_file(path: &str) -> (steps: Vec<FsStep>)
    ensures
        views(steps@) == create_file_steps(path@),
{
    let mut steps: Vec<FsStep> = Vec::new();
    match parent(path) {
        Some(dir) => {
            steps.push(FsStep::EnsureDir(dir));
        },
        None => {},
    }
    steps.push(FsStep::CreateFile(path.to_owned()));
    assert(views(steps@) =~= create_file_steps(path@));
    steps
}

/// The step that creates the directory `path` with its missing ancestors,
/// and fails where `path` exists already.
pub fn create_directory(path: &str) -> (step: FsStep)
    ensures
        step@ == FsStepView::CreateDir(path@),
{
    FsStep::CreateDir(path.to_owned())
}

/// The step that renames `old_path` to `new_path`.
pub fn rename_path(old_path: &str, new_path: &str) -> (step: FsStep)
    ensures
        step@ == FsStepView::Rename(old_path@, new_path@),
{
    FsStep::Rename(old_path.to_owned(), new_path.to_owned())
}

/// The steps that bring a deleted path back.
pub fn restore_deleted_path(
    path: &str,
    is_dir: bool,
    content: &Option<Vec<u8>>,
    dir_backup: &Option<DirBackup>,
) -> (steps: Vec<FsStep>)
    ensures
        views(steps@) == restore_steps(path@, is_dir, opt_bytes(*content), opt_backup(*dir_backup)),
{
    let mut steps: Vec<FsStep> = Vec::new();
    if is_dir {
        steps.push(FsStep::CreateDirAll(path.to_owned()));
        if let Some(backup) = dir_backup {
            let ghost first = views(steps@);
            assert(first =~= seq![FsStepView::CreateDirAll(path@)]);
            let mut i: usize = 0;
            while i < backup.files.len()
                invariant
                    i <= backup.files.len(),
                    views(steps@) =~= first + restore_files_steps(
                        path@,
                        views(backup.files@).take(i as int),
                    ),
                decreases backup.files.len() - i,
            {
                let file = &backup.files[i];
                let target = join(path, file.path.as_str());
                let ghost before = views(steps@);
                let ghost done = views(backup.files@).take(i as int);
                let ghost next = views(backup.files@).take(i + 1);
                match parent(target.as_str()) {
                    Some(dir) => {
                        steps.push(FsStep::CreateDirAll(dir));
                    },
                    None => {},
                }
                steps.push(FsStep::WriteFile(target, copy_bytes(&file.content)));
                proof {
                    assert(next.drop_last() =~= done);
                    assert(next.last() == file@);
                    assert(views(steps@) =~= before + restore_file_steps(path@, file@));
                    assert(restore_files_steps(path@, next) == restore_files_steps(path@, done)
                        + restore_file_steps(path@, file@));
                }
                i += 1;
            }
            assert(views(backup.files@).take(i as int) =~= views(backup.files@));
            let ghost second = views(steps@);
            let mut j: usize = 0;
            while j < backup.dirs.len()
                invariant
                    j <= backup.dirs.len(),
                    views(steps@) =~= second + restore_dirs_steps(
                        path@,
                        views(backup.dirs@).take(j as int),
                    ),
                decreases backup.dirs.len() - j,
            {
                let ghost before = views(steps@);
                let made = FsStep::CreateDirAll(join(path, backup.dirs[j].as_str()));
                steps.push(made);
                proof {
                    assert(views(steps@) =~= before.push(made@));
                    assert(restore_dirs_steps(path@, views(backup.dirs@).take(j + 1))
                        =~= restore_dirs_steps(path@, views(backup.dirs@).take(j as int)).push(
                        made@,
                    ));
                }
                j += 1;
            }
            assert(views(backup.dirs@).take(j as int) =~= views(backup.dirs@));
        }
    } else if let Some(data) = content {
        match parent(path) {
            Some(dir) => {
                steps.push(FsStep::EnsureDir(dir));
            },
            None => {},
        }
        steps.push(FsStep::WriteFile(path.to_owned(), copy_bytes(data)));
    }
    assert(views(steps@) =~= restore_steps(
        path@,
        is_dir,
        opt_bytes(*content),
        opt_backup(*dir_backup),
    ));
    steps
}

/// Whether what was read of a path before its deletion is what its kind
/// needs: the bytes of a file, the backup of a directory.
pub open spec fn saved_fits(
    is_dir: bool,
    content: Option<Seq<u8>>,
    dir_backup: Option<DirBackupView>,
) -> bool {
    if is_dir {
        dir_backup is Some
    } else {
        content is Some
    }
}

/// The record of a deletion: a file keeps its bytes and no directory
/// backup, a directory keeps its backup and no bytes.
pub open spec fn delete_record(
    path: Seq<char>,
    is_dir: bool,
    position: usize,
    content: Option<Seq<u8>>,
    dir_backup: Option<DirBackupView>,
) -> OperationView {
    OperationView::Delete {
        path,
        is_dir,
        content: if is_dir {
            None
        } else {
            content
        },
        position,
        dir_backup: if is_dir {
            dir_backup
        } else {
            None
        },
    }
}

/// The cause that is reported where nothing was saved of a path that is
/// to be deleted.
pub const NOTHING_SAVED: &'static str = "nothing was saved of what is to be deleted";

/// The record of deleting `path`, which stood at index `position` of the
/// listing, from what was read of it before: `content` for a file,
/// `dir_backup` for a directory. Without the bytes of a file, or without
/// the backup of a directory, there is no record but an error: nothing
/// is to be deleted that could not be brought back.
pub fn prepare_delete_operation(
    path: &str,
    is_dir: bool,
    position: usize,
    content: Option<Vec<u8>>,
    dir_backup: Option<DirBackup>,
) -> (record: Result<Operation, ExplorerError>)
    ensures
        record is Ok <==> saved_fits(is_dir, opt_bytes(content), opt_backup(dir_backup)),
        record matches Ok(op) ==> op.wf() && op@ == delete_record(
            path@,
            is_dir,
            position,
            opt_bytes(content),
            opt_backup(dir_backup),
        ),
        record matches Err(error) ==> error@ == ExplorerErrorView::OperationFailed(NOTHING_SAVED@),
{
    if is_dir {
        match dir_backup {
            Some(backup) => Ok(
                Operation::Delete {
                    path: path.to_owned(),
                    is_dir,
                    content: None,
                    position,
                    dir_backup: Some(backup),
                },
            ),
            None => Err(ExplorerError::OperationFailed(NOTHING_SAVED.to_owned())),
        }
    } else {
        match content {
            Some(data) => Ok(
                Operation::Delete {
                    path: path.to_owned(),
                    is_dir,
                    content: Some(data),
                    position,
                    dir_backup: None,
                },
            ),
            None => Err(ExplorerError::OperationFailed(NOTHING_SAVED.to_owned())),
        }
    }
}

/// Restoring the files writes every backed-up file, with its bytes as
/// saved, to its path below `root`.
pub proof fn lemma_restore_writes_files(root: Seq<char>, files: Seq<FileBackupView>, k: int)
    requires
        0 <= k < files.len(),
    ensures
        restore_files_steps(root, files).contains(
            FsStepView::WriteFile(joined(root, files[k].path), files[k].content),
        ),
    decreases files.len(),
{
    let all = restore_files_steps(root, files);
    let head = restore_files_steps(root, files.drop_last());
    let tail = restore_file_steps(root, files.last());
    if k == files.len() - 1 {
        let w = FsStepView::WriteFile(joined(root, files[k].path), files[k].content);
        assert(tail.last() == w);
        assert(all[all.len() - 1] == w);
    } else {
        lemma_restore_writes_files(root, files.drop_last(), k);
        let w = FsStepView::WriteFile(joined(root, files[k].path), files[k].content);
        let at = choose|at: int| 0 <= at < head.len() && head[at] == w;
        assert(all[at] == w);
    }
}

/// Undoing the deletion of a directory recreates the directory, writes
/// every backed-up file with exactly the bytes saved, and recreates every
/// backed-up subdirectory, empty ones too.
pub proof fn lemma_restore_covers_backup(path: Seq<char>, backup: DirBackupView)
    ensures
        restore_steps(path, true, None, Some(backup))[0] == FsStepView::CreateDirAll(path),
        forall|k: int|
            0 <= k < backup.files.len() ==> restore_steps(path, true, None, Some(backup)).contains(
                FsStepView::WriteFile(
                    joined(path, (#[trigger] backup.files[k]).path),
                    backup.files[k].content,
                ),
            ),
        forall|k: int|
            0 <= k < backup.dirs.len() ==> restore_steps(path, true, None, Some(backup)).contains(
                FsStepView::CreateDirAll(joined(path, #[trigger] backup.dirs[k])),
            ),
{
    let all = restore_steps(path, true, None, Some(backup));
    let files = restore_files_steps(path, backup.files);
    let dirs = restore_dirs_steps(path, backup.dirs);
    assert forall|k: int| 0 <= k < backup.files.len() implies all.contains(
        FsStepView::WriteFile(
            joined(path, (#[trigger] backup.files[k]).path),
            backup.files[k].content,
        ),
    ) by {
        lemma_restore_writes_files(path, backup.files, k);
        let w = FsStepView::WriteFile(joined(path, backup.files[k].path), backup.files[k].content);
        let at = choose|at: int| 0 <= at < files.len() && files[at] == w;
        assert(all[1 + at] == w);
    }
    assert forall|k: int| 0 <= k < backup.dirs.len() implies all.contains(
        FsStepView::CreateDirAll(joined(path, #[trigger] backup.dirs[k])),
    ) by {
        assert(all[1 + files.len() + k] == dirs[k]);
    }
}

/// Undoing the deletion of a file writes exactly the bytes saved.
pub proof fn lemma_restore_file_bytes(path: Seq<char>, data: Seq<u8>)
    ensures
        restore_steps(path, false, Some(data), None).last() == FsStepView::WriteFile(path, data),
{
}

} // verus!
