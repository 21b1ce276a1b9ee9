//! The record emitted for each regular file.

use vstd::prelude::*;

verus! {

/// A point in time: whole seconds since the Unix epoch (UTC) and the
/// nanoseconds into that second.
#[derive(Clone, Copy, Debug, PartialEq, Eq, Structural)]
pub struct Timestamp {
    pub secs: i64,
    pub nanos: u32,
}

/// One fact about one regular file.
#[derive(Clone, Debug, PartialEq, Eq)]
pub struct FileRecord {
    /// Where the file is, as text.
    pub path: String,
    /// When it was created, if the platform can tell.
    pub created: Option<Timestamp>,
    /// When it was last modified, if the platform can tell.
    pub modified: Option<Timestamp>,
    /// Its length in bytes.
    pub size: u64,
}

/// The sum of the sizes of a sequence of records.
pub open spec fn total_size(records: Seq<FileRecord>) -> nat
    decreases records.len(),
{
    if records.len() == 0 {
        0
    } else {
        total_size(records.drop_last()) + records.last().size as nat
    }
}

} // verus!
