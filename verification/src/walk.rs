//! The two kinds of work a scan is made of, as decisions on plain facts.
//!
//! Inspecting an entry turns its metadata into a `Finding`. Expanding a
//! directory turns its listing into the children to inspect next. Each piece
//! of work holds one producer handle of the channel; `complete_inspection` and
//! `complete_expansion` do the sending, cloning and releasing that goes with
//! the decision, so the channel closes exactly when no work is left.

use vstd::prelude::*;
use crate::channel::{Channel, ChannelView};
use crate::entry::{EntryKind, EntryMeta, kind_of, classify};
use crate::fault::WalkError;
use crate::record::FileRecord;

verus! {

/// What inspecting one entry found.
#[derive(Debug, PartialEq, Eq)]
pub enum Finding {
    /// A symlink or something that is neither file nor directory: no record,
    /// no further work.
    Nothing,
    /// A regular file, with the record to emit.
    Record(FileRecord),
    /// A directory, with the path to expand.
    Directory(String),
}

/// The finding for an entry at `path` whose metadata read gave `probe`
/// (`None`: the read failed).
pub open spec fn finding_of(path: String, probe: Option<EntryMeta>) -> Result<Finding, WalkError> {
    match probe {
        None => Err(WalkError::MetadataUnreadable),
        Some(meta) => Ok(
            match kind_of(meta) {
                EntryKind::File => Finding::Record(
                    FileRecord {
                        path,
                        created: meta.created,
                        modified: meta.modified,
                        size: meta.len,
                    },
                ),
                EntryKind::Directory => Finding::Directory(path),
                _ => Finding::Nothing,
            },
        ),
    }
}

/// Decides what an entry is worth: an error when its metadata could not be
/// read, a record for a regular file, its own path for a directory, and
/// nothing for a symlink or anything else.
pub fn inspect(path: String, probe: Option<EntryMeta>) -> (out: Result<Finding, WalkError>)
    ensures
        out == finding_of(path, probe),
{
    match probe {
        None => Err(WalkError::MetadataUnreadable),
        Some(meta) => {
            match classify(&meta) {
                EntryKind::File => Ok(
                    Finding::Record(
                        FileRecord {
                            path,
                            created: meta.created,
                            modified: meta.modified,
                            size: meta.len,
                        },
                    ),
                ),
                EntryKind::Directory => Ok(Finding::Directory(path)),
                _ => Ok(Finding::Nothing),
            }
        },
    }
}

/// The entries of a listing that were read, in listing order; those that
/// failed (`None`) are left out.
pub open spec fn readable<T>(entries: Seq<Option<T>>) -> Seq<T>
    decreases entries.len(),
{
    if entries.len() == 0 {
        Seq::empty()
    } else {
        let before = readable(entries.drop_last());
        match entries.last() {
            Some(entry) => before.push(entry),
            None => before,
        }
    }
}

/// The children that expanding a directory dispatches. A symlink is skipped
/// without a look at its listing; a listing that failed (`None`) abandons
/// the directory.
pub open spec fn children_of<T>(
    is_symlink: bool,
    listing: Option<Vec<Option<T>>>,
) -> Result<Seq<T>, WalkError> {
    if is_symlink {
        Ok(Seq::empty())
    } else {
        match listing {
            None => Err(WalkError::DirectoryUnreadable),
            Some(entries) => Ok(readable(entries@)),
        }
    }
}

/// Whether `out` holds exactly what `expected` says.
pub open spec fn holds_children<T>(
    out: Result<Vec<T>, WalkError>,
    expected: Result<Seq<T>, WalkError>,
) -> bool {
    match expected {
        Ok(children) => out is Ok && out->Ok_0@ == children,
        Err(error) => out == Err::<Vec<T>, WalkError>(error),
    }
}

/// Turns a vector end for end.
fn reversed<T>(items: Vec<T>) -> (out: Vec<T>)
    ensures
        out@.len() == items@.len(),
        forall|j: int| 0 <= j < out@.len() ==> out@[j] == items@[items@.len() - 1 - j],
{
    let ghost all = items@;
    let mut items = items;
    let mut out: Vec<T> = Vec::new();
    while items.len() > 0
        invariant
            items@.len() + out@.len() == all.len(),
            items@ == all.take(items@.len() as int),
            forall|j: int| 0 <= j < out@.len() ==> out@[j] == all[all.len() - 1 - j],
        decreases items@.len(),
    {
        let item = items.pop().unwrap();
        out.push(item);
    }
    out
}

/// Keeps the entries of a listing that were read, in their order.
pub fn readable_entries<T>(listing: Vec<Option<T>>) -> (kept: Vec<T>)
    ensures
        kept@ == readable(listing@),
{
    let ghost all = listing@;
    let mut stack = reversed(listing);
    let mut kept: Vec<T> = Vec::new();
    proof {
        assert(all.take(0) =~= Seq::<Option<T>>::empty());
    }
    while stack.len() > 0
        invariant
            stack@.len() <= all.len(),
            forall|j: int| 0 <= j < stack@.len() ==> stack@[j] == all[all.len() - 1 - j],
            kept@ == readable(all.take(all.len() - stack@.len())),
        decreases stack@.len(),
    {
        let ghost done = all.len() - stack@.len();
        let next = stack.pop().unwrap();
        proof {
            let upto = all.take(done + 1);
            assert(upto.drop_last() =~= all.take(done));
            assert(upto.last() == next);
        }
        match next {
            Some(entry) => {
                kept.push(entry);
            },
            None => {},
        }
    }
    proof {
        assert(all.take(all.len() as int) =~= all);
    }
    kept
}

/// Decides which children the expansion of a directory dispatches: none for
/// a symlink, an error for a listing that failed, and otherwise every entry
/// that was read.
pub fn expand<T>(is_symlink: bool, listing: Option<Vec<Option<T>>>) -> (out: Result<Vec<T>, WalkError>)
    ensures
        holds_children(out, children_of(is_symlink, listing)),
{
    if is_symlink {
        Ok(Vec::new())
    } else {
        match listing {
            None => Err(WalkError::DirectoryUnreadable),
            Some(entries) => Ok(readable_entries(entries)),
        }
    }
}

/// What the inspecting piece of work reports: the directory it goes on to
/// expand, nothing more to do, or the failure that ended it.
pub open spec fn inspection_outcome(
    c: ChannelView,
    path: String,
    probe: Option<EntryMeta>,
) -> Result<Option<String>, WalkError> {
    match finding_of(path, probe) {
        Err(error) => Err(error),
        Ok(Finding::Nothing) => Ok(None),
        Ok(Finding::Directory(dir)) => Ok(Some(dir)),
        Ok(Finding::Record(_)) => if c.receiving {
            Ok(None)
        } else {
            Err(WalkError::SendFailure)
        },
    }
}

/// The channel after an inspection. A directory keeps the handle for its
/// expansion; every other outcome releases it, a regular file after its
/// record has been queued (if the consumer is still there).
pub open spec fn after_inspection(
    c: ChannelView,
    path: String,
    probe: Option<EntryMeta>,
) -> ChannelView {
    match finding_of(path, probe) {
        Ok(Finding::Directory(_)) => c,
        Ok(Finding::Record(record)) => if c.receiving {
            ChannelView { producers: (c.producers - 1) as nat, queue: c.queue.push(record), ..c }
        } else {
            ChannelView { producers: (c.producers - 1) as nat, ..c }
        },
        _ => ChannelView { producers: (c.producers - 1) as nat, ..c },
    }
}

/// Carries out an inspection for a piece of work that holds one producer
/// handle: sends the record of a regular file, and releases the handle
/// unless the entry is a directory, whose expansion takes the handle over.
pub fn complete_inspection(
    channel: &mut Channel,
    path: String,
    probe: Option<EntryMeta>,
) -> (out: Result<Option<String>, WalkError>)
    requires
        !old(channel)@.closed(),
    ensures
        out == inspection_outcome(old(channel)@, path, probe),
        final(channel)@ == after_inspection(old(channel)@, path, probe),
{
    match inspect(path, probe) {
        Err(error) => {
            channel.release_producer();
            Err(error)
        },
        Ok(Finding::Nothing) => {
            channel.release_producer();
            Ok(None)
        },
        Ok(Finding::Directory(dir)) => Ok(Some(dir)),
        Ok(Finding::Record(record)) => {
            let sent = channel.send(record);
            channel.release_producer();
            match sent {
                Ok(()) => Ok(None),
                Err(error) => Err(error),
            }
        },
    }
}

/// How many children an expansion dispatches; none when it fails.
pub open spec fn dispatched<T>(is_symlink: bool, listing: Option<Vec<Option<T>>>) -> nat {
    match children_of(is_symlink, listing) {
        Ok(children) => children.len(),
        Err(_) => 0,
    }
}

/// The channel after an expansion: one handle more for each child, one less
/// for the expansion itself; the queue is not touched.
pub open spec fn after_expansion<T>(
    c: ChannelView,
    is_symlink: bool,
    listing: Option<Vec<Option<T>>>,
) -> ChannelView {
    ChannelView { producers: (c.producers + dispatched(is_symlink, listing) - 1) as nat, ..c }
}

/// Carries out an expansion for a piece of work that holds one producer
/// handle: clones one handle for each child to dispatch, and only then
/// releases its own. The count may not overflow on the way.
pub fn complete_expansion<T>(
    channel: &mut Channel,
    is_symlink: bool,
    listing: Option<Vec<Option<T>>>,
) -> (out: Result<Vec<T>, WalkError>)
    requires
        !old(channel)@.closed(),
        old(channel)@.producers + dispatched(is_symlink, listing) <= u64::MAX,
    ensures
        holds_children(out, children_of(is_symlink, listing)),
        final(channel)@ == after_expansion(old(channel)@, is_symlink, listing),
{
    let ghost before = channel@;
    let out = expand(is_symlink, listing);
    match &out {
        Ok(children) => {
            let n: usize = children.len();
            let mut i: usize = 0;
            while i < n
                invariant
                    i <= n,
                    before.producers >= 1,
                    before.producers + n <= u64::MAX,
                    channel@ == (ChannelView { producers: (before.producers + i) as nat, ..before }),
                decreases n - i,
            {
                channel.clone_producer();
                i = i + 1;
            }
        },
        Err(_) => {},
    }
    channel.release_producer();
    out
}

/// An inspection closes the channel only as the last piece of work: the
/// channel is closed afterwards exactly when the inspecting work held the
/// only handle and did not pass it on to an expansion.
pub proof fn inspection_closes_only_when_last(
    c: ChannelView,
    path: String,
    probe: Option<EntryMeta>,
)
    requires
        !c.closed(),
    ensures
        after_inspection(c, path, probe).closed() <==> c.producers == 1 && !(finding_of(
            path,
            probe,
        ) matches Ok(Finding::Directory(_))),
        after_inspection(c, path, probe).queue.len() <= c.queue.len() + 1,
{
}

/// An expansion never closes the channel under its children: afterwards
/// there is a handle for each child dispatched and for each piece of work
/// that held one before, the expansion itself left out.
pub proof fn expansion_covers_children<T>(
    c: ChannelView,
    is_symlink: bool,
    listing: Option<Vec<Option<T>>>,
)
    requires
        !c.closed(),
    ensures
        after_expansion(c, is_symlink, listing).producers == (c.producers - 1) + dispatched(
            is_symlink,
            listing,
        ),
        after_expansion(c, is_symlink, listing).closed() <==> c.producers == 1 && dispatched(
            is_symlink,
            listing,
        ) == 0,
        after_expansion(c, is_symlink, listing).queue == c.queue,
{
}

/// A symlink is never followed: inspecting one finds nothing, and expanding
/// one dispatches no child, whatever its listing would hold.
pub proof fn symlink_is_never_followed<T>(
    path: String,
    meta: EntryMeta,
    listing: Option<Vec<Option<T>>>,
)
    requires
        meta.is_symlink,
    ensures
        finding_of(path, Some(meta)) == Ok::<Finding, WalkError>(Finding::Nothing),
        children_of(true, listing) == Ok::<Seq<T>, WalkError>(Seq::empty()),
        dispatched(true, listing) == 0,
{
}

} // verus!
