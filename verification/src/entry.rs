//! One node of the file system as the browser shows it.

use vstd::prelude::*;
use crate::paths::base_name;
use crate::text::lowercased;

verus! {

/// One row of a listing: the node's path, the name shown for it, whether it
/// is a directory, when it was created (seconds since the Unix epoch) and
/// its size in bytes.
#[derive(Debug, PartialEq, Eq)]
pub struct Entry {
    pub path: String,
    pub name: String,
    pub is_dir: bool,
    pub created: u64,
    pub size: u64,
}

/// The mathematical value of an `Entry`.
pub struct EntryView {
    pub path: Seq<char>,
    pub name: Seq<char>,
    pub is_dir: bool,
    pub created: u64,
    pub size: u64,
}

impl View for Entry {
    type V = EntryView;

    open spec fn view(&self) -> EntryView {
        EntryView {
            path: self.path@,
            name: self.name@,
            is_dir: self.is_dir,
            created: self.created,
            size: self.size,
        }
    }
}

impl Entry {
    /// A copy with the same fields.
    pub fn clone(&self) -> (copy: Self)
        ensures
            copy@ == self@,
    {
        Entry {
            path: self.path.clone(),
            name: self.name.clone(),
            is_dir: self.is_dir,
            created: self.created,
            size: self.size,
        }
    }
}

/// What reading a directory tells of one child.
#[derive(Debug, PartialEq, Eq)]
pub struct DirChild {
    pub path: String,
    pub is_dir: bool,
    pub created: u64,
    pub size: u64,
}

/// The mathematical value of a `DirChild`.
pub struct DirChildView {
    pub path: Seq<char>,
    pub is_dir: bool,
    pub created: u64,
    pub size: u64,
}

impl View for DirChild {
    type V = DirChildView;

    open spec fn view(&self) -> DirChildView {
        DirChildView {
            path: self.path@,
            is_dir: self.is_dir,
            created: self.created,
            size: self.size,
        }
    }
}

/// The name shown for the entry that leads to the parent directory.
pub open spec fn parent_label() -> Seq<char> {
    seq!['.', '.', '/']
}

/// The name shown for a node: its file name, with a trailing `/` for a directory.
pub open spec fn display_name(path: Seq<char>, is_dir: bool) -> Seq<char> {
    if is_dir {
        base_name(path).push('/')
    } else {
        base_name(path)
    }
}

/// The key by which a listing orders its entries: the file name in lowercase.
pub open spec fn sort_key(path: Seq<char>) -> Seq<char> {
    lowercased(base_name(path))
}

/// The entry that stands for a child of the listed directory.
pub open spec fn entry_of(child: DirChildView) -> EntryView {
    EntryView {
        path: child.path,
        name: display_name(child.path, child.is_dir),
        is_dir: child.is_dir,
        created: child.created,
        size: child.size,
    }
}

} // verus!
