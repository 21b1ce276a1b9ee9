//! What the filesystem reported about one entry, and what kind of entry
//! that makes it.

use vstd::prelude::*;
use crate::record::Timestamp;

verus! {

/// The facts read from an entry's metadata, without following a symlink.
#[derive(Clone, Copy, Debug, PartialEq, Eq, Structural)]
pub struct EntryMeta {
    pub is_symlink: bool,
    pub is_file: bool,
    pub is_dir: bool,
    /// Length in bytes, as the filesystem gives it.
    pub len: u64,
    /// Creation time; `None` when that read failed.
    pub created: Option<Timestamp>,
    /// Modification time; `None` when that read failed.
    pub modified: Option<Timestamp>,
}

/// The four ways the scan treats an entry.
#[derive(Clone, Copy, Debug, PartialEq, Eq, Structural)]
pub enum EntryKind {
    /// A symbolic link, whatever it points to: never recorded, never followed.
    Symlink,
    /// A regular file: recorded.
    File,
    /// A directory: expanded.
    Directory,
    /// Anything else (a socket, a device): ignored.
    Other,
}

/// The kind of an entry. Being a symlink outranks being a file, which
/// outranks being a directory.
pub open spec fn kind_of(meta: EntryMeta) -> EntryKind {
    if meta.is_symlink {
        EntryKind::Symlink
    } else if meta.is_file {
        EntryKind::File
    } else if meta.is_dir {
        EntryKind::Directory
    } else {
        EntryKind::Other
    }
}

/// Classifies an entry from its metadata.
pub fn classify(meta: &EntryMeta) -> (kind: EntryKind)
    ensures
        kind == kind_of(*meta),
{
    if meta.is_symlink {
        EntryKind::Symlink
    } else if meta.is_file {
        EntryKind::File
    } else if meta.is_dir {
        EntryKind::Directory
    } else {
        EntryKind::Other
    }
}

} // verus!
