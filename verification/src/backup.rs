//! Taking the backup of a directory that is about to be deleted. The walk
//! over the tree is a worklist: it asks for one directory listing or one
//! file at a time, and the caller reads it from disk and supplies it.

use vstd::prelude::*;
use crate::history::{distinct_paths, DirBackup, DirBackupView, FileBackup, FileBackupView};
use crate::paths::{leads_back, strip_prefix, stripped_of};
use crate::seqs::{lemma_views_push, views};

verus! {

/// A node that the walk still has to visit.
#[derive(Debug, PartialEq, Eq)]
pub struct WalkItem {
    pub path: String,
    pub is_dir: bool,
}

/// The mathematical value of a `WalkItem`.
pub struct WalkItemView {
    pub path: Seq<char>,
    pub is_dir: bool,
}

impl View for WalkItem {
    type V = WalkItemView;

    open spec fn view(&self) -> WalkItemView {
        WalkItemView { path: self.path@, is_dir: self.is_dir }
    }
}

/// What the walk needs next from disk.
#[derive(Debug, PartialEq, Eq)]
pub enum WalkRequest {
    /// The children of this directory.
    ReadDir(String),
    /// The bytes of this file.
    ReadFile(String),
    /// Nothing: the backup is complete.
    Done,
}

/// The mathematical value of a `WalkRequest`.
pub enum WalkRequestView {
    ReadDir(Seq<char>),
    ReadFile(Seq<char>),
    Done,
}

impl View for WalkRequest {
    type V = WalkRequestView;

    open spec fn view(&self) -> WalkRequestView {
        match *self {
            WalkRequest::ReadDir(p) => WalkRequestView::ReadDir(p@),
            WalkRequest::ReadFile(p) => WalkRequestView::ReadFile(p@),
            WalkRequest::Done => WalkRequestView::Done,
        }
    }
}

/// `path` as seen from `base`: what is left when `base` is stripped from
/// its front, or `path` itself where `base` is not a prefix of it.
pub open spec fn relative_to(path: Seq<char>, base: Seq<char>) -> Seq<char> {
    match stripped_of(path, base) {
        Some(rest) => rest,
        None => path,
    }
}

/// Whether some file of the list has this path.
pub open spec fn holds_path(files: Seq<FileBackupView>, path: Seq<char>) -> bool {
    exists|k: int| 0 <= k < files.len() && #[trigger] files[k].path == path
}

/// Whether `k` is the first index at which the list has this path.
pub open spec fn is_first_index(files: Seq<FileBackupView>, path: Seq<char>, k: int) -> bool {
    &&& 0 <= k < files.len()
    &&& files[k].path == path
    &&& forall|j: int| 0 <= j < k ==> (#[trigger] files[j]).path != path
}

/// The first index at which the list has this path.
pub open spec fn first_index(files: Seq<FileBackupView>, path: Seq<char>) -> int {
    choose|k: int| is_first_index(files, path, k)
}

/// The list with `file` stored under its path: in place of the file that
/// had the path, or at the end where none had it.
pub open spec fn with_file(files: Seq<FileBackupView>, file: FileBackupView) -> Seq<
    FileBackupView,
> {
    if holds_path(files, file.path) {
        files.update(first_index(files, file.path), file)
    } else {
        files.push(file)
    }
}

/// Storing a file keeps the paths distinct.
pub proof fn lemma_with_file_distinct(files: Seq<FileBackupView>, file: FileBackupView)
    requires
        distinct_paths(files),
    ensures
        distinct_paths(with_file(files, file)),
{
    let after = with_file(files, file);
    if holds_path(files, file.path) {
        let w = choose|k: int| 0 <= k < files.len() && #[trigger] files[k].path == file.path;
        lemma_first_index(files, file.path, w);
        let k = first_index(files, file.path);
        assert forall|i: int, j: int| 0 <= i < j < after.len() implies (#[trigger] after[i]).path
            != (#[trigger] after[j]).path by {
            assert(after[i].path == files[i].path);
            assert(after[j].path == files[j].path);
        }
    } else {
        assert forall|i: int, j: int| 0 <= i < j < after.len() implies (#[trigger] after[i]).path
            != (#[trigger] after[j]).path by {
            if j == files.len() {
                assert(after[i] == files[i]);
                assert(files[i].path != file.path);
            } else {
                assert(after[i] == files[i] && after[j] == files[j]);
            }
        }
    }
}

/// Where some index has the path, there is a first one.
pub proof fn lemma_first_index(files: Seq<FileBackupView>, path: Seq<char>, at: int)
    requires
        0 <= at < files.len(),
        files[at].path == path,
    ensures
        is_first_index(files, path, first_index(files, path)),
        first_index(files, path) <= at,
    decreases at,
{
    if exists|j: int| 0 <= j < at && (#[trigger] files[j]).path == path {
        let j = choose|j: int| 0 <= j < at && (#[trigger] files[j]).path == path;
        lemma_first_index(files, path, j);
    } else {
        assert(is_first_index(files, path, at));
        let k = first_index(files, path);
        if k > at {
            assert(files[at].path != path);
        }
    }
}

/// The state of a walk.
#[derive(Debug, PartialEq, Eq)]
pub struct BackupWalk {
    /// The directory that is backed up.
    pub base: String,
    /// Whether the listing of `base` itself is still to come.
    pub at_root: bool,
    /// The nodes still to visit; the last one is visited next.
    pub stack: Vec<WalkItem>,
    /// What has been collected.
    pub backup: DirBackup,
}

/// The mathematical value of a `BackupWalk`.
pub struct BackupWalkView {
    pub base: Seq<char>,
    pub at_root: bool,
    pub stack: Seq<WalkItemView>,
    pub backup: DirBackupView,
}

impl View for BackupWalk {
    type V = BackupWalkView;

    open spec fn view(&self) -> BackupWalkView {
        BackupWalkView {
            base: self.base@,
            at_root: self.at_root,
            stack: views(self.stack@),
            backup: self.backup@,
        }
    }
}

/// The walk at its start: nothing collected, the listing of `base` to come.
pub open spec fn walk_start(base: Seq<char>) -> BackupWalkView {
    BackupWalkView {
        base,
        at_root: true,
        stack: Seq::empty(),
        backup: DirBackupView { files: Seq::empty(), dirs: Seq::empty() },
    }
}

/// What the walk needs next: first the listing of `base`, then whatever
/// the node on top of the stack is, and nothing once the stack is empty.
pub open spec fn pending_of(w: BackupWalkView) -> WalkRequestView {
    if w.at_root {
        WalkRequestView::ReadDir(w.base)
    } else if w.stack.len() == 0 {
        WalkRequestView::Done
    } else if w.stack.last().is_dir {
        WalkRequestView::ReadDir(w.stack.last().path)
    } else {
        WalkRequestView::ReadFile(w.stack.last().path)
    }
}

/// The walk after the listing it asked for: the directory leaves the
/// stack and, unless it is `base`, joins the backed-up directories by its
/// relative path; its children go on the stack, the first one on top.
pub open spec fn after_dir(w: BackupWalkView, children: Seq<WalkItemView>) -> BackupWalkView {
    if w.at_root {
        BackupWalkView { at_root: false, stack: children.reverse(), ..w }
    } else {
        BackupWalkView {
            stack: w.stack.drop_last() + children.reverse(),
            backup: DirBackupView {
                dirs: w.backup.dirs.push(relative_to(w.stack.last().path, w.base)),
                ..w.backup
            },
            ..w
        }
    }
}

/// The walk after the file content it asked for: the file leaves the
/// stack and is stored with its bytes under its relative path.
pub open spec fn after_file(w: BackupWalkView, content: Seq<u8>) -> BackupWalkView {
    BackupWalkView {
        stack: w.stack.drop_last(),
        backup: DirBackupView {
            files: with_file(
                w.backup.files,
                FileBackupView { path: relative_to(w.stack.last().path, w.base), content },
            ),
            ..w.backup
        },
        ..w
    }
}

/// Starts the backup of the directory `path`.
pub fn backup_dir(path: &str) -> (walk: BackupWalk)
    ensures
        walk@ == walk_start(path@),
        walk.wf(),
{
    let walk = BackupWalk {
        base: path.to_owned(),
        at_root: true,
        stack: Vec::new(),
        backup: DirBackup { files: Vec::new(), dirs: Vec::new() },
    };
    assert(walk@.stack =~= Seq::<WalkItemView>::empty());
    assert(walk@.backup.files =~= Seq::<FileBackupView>::empty());
    assert(walk@.backup.dirs =~= Seq::<Seq<char>>::empty());
    walk
}

fn relative(path: &str, base: &str) -> (rest: String)
    ensures
        rest@ == relative_to(path@, base@),
        leads_back(path@, base@),
{
    match strip_prefix(path, base) {
        Some(rest) => rest,
        None => path.to_owned(),
    }
}

fn store_file(files: &mut Vec<FileBackup>, file: FileBackup)
    ensures
        views(final(files)@) == with_file(views(old(files)@), file@),
{
    let ghost before = views(files@);
    let mut k: usize = 0;
    while k < files.len()
        invariant
            k <= files.len(),
            before == views(files@),
            before == views(old(files)@),
            forall|j: int| 0 <= j < k ==> (#[trigger] before[j]).path != file@.path,
        decreases files.len() - k,
    {
        if files[k].path == file.path {
            proof {
                assert(before[k as int].path == file@.path);
                lemma_first_index(before, file@.path, k as int);
                let first = first_index(before, file@.path);
                if first < k {
                    assert(before[first].path != file@.path);
                }
                assert(holds_path(before, file@.path));
            }
            let ghost stored = file@;
            files[k] = file;
            assert(views(files@) =~= before.update(k as int, stored));
            return ;
        }
        k += 1;
    }
    proof {
        assert(!holds_path(before, file@.path));
        lemma_views_push(files@, file);
    }
    files.push(file);
}

impl BackupWalk {
    /// No two backed-up files have the same relative path, and nothing
    /// waits on the stack before the walk has started.
    pub open spec fn wf(&self) -> bool {
        &&& distinct_paths(self@.backup.files)
        &&& self.at_root ==> self.stack.len() == 0
    }

    /// What the walk needs next from disk.
    pub fn pending(&self) -> (request: WalkRequest)
        ensures
            request@ == pending_of(self@),
    {
        if self.at_root {
            WalkRequest::ReadDir(self.base.clone())
        } else if self.stack.len() == 0 {
            WalkRequest::Done
        } else {
            let top = &self.stack[self.stack.len() - 1];
            assert(views(self.stack@).last() == top@);
            if top.is_dir {
                WalkRequest::ReadDir(top.path.clone())
            } else {
                WalkRequest::ReadFile(top.path.clone())
            }
        }
    }

    /// Takes the children of the directory that the walk asked for, in the
    /// order read. Returns `false`, and changes nothing, when the walk
    /// did not ask for a directory. The relative path under which a
    /// directory is stored leads back to it from the base.
    pub fn supply_dir(&mut self, children: Vec<WalkItem>) -> (accepted: bool)
        ensures
            old(self).wf() ==> final(self).wf(),
            accepted == (pending_of(old(self)@) is ReadDir),
            accepted ==> final(self)@ == after_dir(old(self)@, views(children@)),
            accepted && !old(self).at_root ==> leads_back(
                old(self)@.stack.last().path,
                old(self)@.base,
            ),
            !accepted ==> final(self)@ == old(self)@,
    {
        if self.at_root {
            self.at_root = false;
            self.stack.clear();
        } else if self.stack.len() > 0 && self.stack[self.stack.len() - 1].is_dir {
            assert(views(self.stack@).last() == self.stack@.last()@);
            let top = self.stack.pop().unwrap();
            let rel = relative(top.path.as_str(), self.base.as_str());
            proof {
                lemma_views_push(self.backup.dirs@, rel);
                assert(views(self.stack@) =~= views(old(self).stack@).drop_last());
            }
            self.backup.dirs.push(rel);
        } else {
            proof {
                if self.stack.len() > 0 {
                    assert(views(self.stack@).last() == self.stack@.last()@);
                }
            }
            return false;
        }
        let ghost kept = views(self.stack@);
        let ghost all = views(children@);
        let mut rest = children;
        let ghost n = rest.len();
        while rest.len() > 0
            invariant
                rest.len() <= n,
                n == all.len(),
                views(rest@) =~= all.take(rest.len() as int),
                views(self.stack@) =~= kept + all.reverse().take(n - rest.len()),
                self.base == old(self).base,
                self.at_root == false,
                self.backup.files == old(self).backup.files,
                views(self.backup.dirs@) == after_dir(old(self)@, all).backup.dirs,
            decreases rest.len(),
        {
            let ghost before = views(self.stack@);
            let ghost m = rest.len();
            assert(views(rest@).last() == rest@.last()@);
            let item = rest.pop().unwrap();
            proof {
                lemma_views_push(self.stack@, item);
                assert(item@ == all[m - 1]);
                assert(all.reverse()[n - m] == all[m - 1]);
                assert(all.reverse().take(n - m + 1) =~= all.reverse().take(n - m).push(item@));
            }
            self.stack.push(item);
        }
        assert(all.reverse().take(n as int) =~= all.reverse());
        assert(self@.stack =~= after_dir(old(self)@, all).stack);
        true
    }

    /// Takes the bytes of the file that the walk asked for. Returns
    /// `false`, and changes nothing, when the walk did not ask for a file.
    /// The relative path under which the file is stored leads back to it
    /// from the base.
    pub fn supply_file(&mut self, content: Vec<u8>) -> (accepted: bool)
        ensures
            old(self).wf() ==> final(self).wf(),
            accepted == (pending_of(old(self)@) is ReadFile),
            accepted ==> final(self)@ == after_file(old(self)@, content@),
            accepted ==> leads_back(old(self)@.stack.last().path, old(self)@.base),
            !accepted ==> final(self)@ == old(self)@,
    {
        if !self.at_root && self.stack.len() > 0 && !self.stack[self.stack.len() - 1].is_dir {
            assert(views(self.stack@).last() == self.stack@.last()@);
            let top = self.stack.pop().unwrap();
            assert(views(self.stack@) =~= views(old(self).stack@).drop_last());
            let rel = relative(top.path.as_str(), self.base.as_str());
            let file = FileBackup { path: rel, content };
            proof {
                if old(self).wf() {
                    lemma_with_file_distinct(views(self.backup.files@), file@);
                }
            }
            store_file(&mut self.backup.files, file);
            true
        } else {
            proof {
                if self.stack.len() > 0 {
                    assert(views(self.stack@).last() == self.stack@.last()@);
                }
            }
            false
        }
    }

    /// The finished backup, or `None` while the walk still needs something.
    /// A walk that started from `backup_dir` gives a backup in which no
    /// path occurs twice.
    pub fn finish(self) -> (backup: Option<DirBackup>)
        ensures
            backup.is_some() == (pending_of(self@) is Done),
            backup matches Some(b) ==> b@ == self@.backup,
            backup matches Some(b) ==> (self.wf() ==> b.wf()),
    {
        if !self.at_root && self.stack.len() == 0 {
            Some(self.backup)
        } else {
            None
        }
    }
}

} // verus!
