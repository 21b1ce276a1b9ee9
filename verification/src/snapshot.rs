//! A directory tree held in memory, and a scan of it.
//!
//! A `Node` says what each read of the filesystem would answer for one entry.
//! `scan` runs the same inspections and expansions over it that a scan of a
//! disk makes, one piece of work after another from a work list, and collects
//! through the same channel. What it returns is stated against
//! `records_under`, which reads the records off the tree directly.

use vstd::prelude::*;
use vstd::multiset::Multiset;
use crate::channel::{Channel, ChannelView, Received, received_from};
use crate::collector::Tally;
use crate::entry::{EntryKind, EntryMeta, kind_of};
use crate::fault::WalkError;
use crate::record::{FileRecord, total_size};
use crate::walk::{
    Finding, after_expansion, after_inspection, children_of, complete_expansion,
    complete_inspection, finding_of, inspection_outcome, readable,
};

verus! {

/// One entry of the tree, with the answers the filesystem gives about it.
#[derive(Debug)]
pub struct Node {
    /// The entry's path.
    pub path: String,
    /// Its metadata; `None` when that cannot be read.
    pub probe: Option<EntryMeta>,
    /// What listing it gives: `None` when listing fails (as it does for
    /// anything but a readable directory), else the entries, of which each
    /// that fails while being read is `None`.
    pub listing: Option<Vec<Option<Node>>>,
}

/// Whether the metadata says that the entry is a symlink.
pub open spec fn is_link(probe: Option<EntryMeta>) -> bool {
    probe matches Some(meta) && meta.is_symlink
}

/// The records that inspecting `node`, and expanding what is below it,
/// emits: one for a regular file, those of its listing for a directory, and
/// none for anything else.
pub open spec fn records_below(node: Node) -> Multiset<FileRecord>
    decreases node,
{
    match finding_of(node.path, node.probe) {
        Ok(Finding::Record(record)) => Multiset::singleton(record),
        Ok(Finding::Directory(_)) => match node.listing {
            Some(entries) => records_among(entries@),
            None => Multiset::empty(),
        },
        _ => Multiset::empty(),
    }
}

/// The records below the entries of one listing.
pub open spec fn records_among(entries: Seq<Option<Node>>) -> Multiset<FileRecord>
    decreases entries,
{
    if entries.len() == 0 {
        Multiset::empty()
    } else {
        let before = records_among(entries.drop_last());
        match entries.last() {
            Some(node) => before.add(records_below(node)),
            None => before,
        }
    }
}

/// The records of a scan that starts at `root`. The root is expanded
/// without being inspected: a root that is a symlink or cannot be listed
/// gives none.
pub open spec fn records_under(root: Node) -> Multiset<FileRecord> {
    if is_link(root.probe) {
        Multiset::empty()
    } else {
        match root.listing {
            Some(entries) => records_among(entries@),
            None => Multiset::empty(),
        }
    }
}

/// The number of regular files in the tree at `node` that a scan can get
/// to. A symlink counts nothing, whatever it points to; a directory counts
/// only what its listing holds.
pub open spec fn regular_files(node: Node) -> nat
    decreases node,
{
    match node.probe {
        None => 0,
        Some(meta) => match kind_of(meta) {
            EntryKind::File => 1,
            EntryKind::Directory => match node.listing {
                Some(entries) => regular_files_among(entries@),
                None => 0,
            },
            _ => 0,
        },
    }
}

/// The number of regular files in and below one listing.
pub open spec fn regular_files_among(entries: Seq<Option<Node>>) -> nat
    decreases entries,
{
    if entries.len() == 0 {
        0
    } else {
        let before = regular_files_among(entries.drop_last());
        match entries.last() {
            Some(node) => before + regular_files(node),
            None => before,
        }
    }
}

/// The number of regular files that a scan from `root` can get to.
pub open spec fn regular_files_under(root: Node) -> nat {
    if is_link(root.probe) {
        0
    } else {
        match root.listing {
            Some(entries) => regular_files_among(entries@),
            None => 0,
        }
    }
}

/// The number of entries in the tree at `node`, itself included, whether
/// a scan reaches them or not.
pub open spec fn weight(node: Node) -> nat
    decreases node,
{
    match node.listing {
        Some(entries) => 1 + weight_among(entries@),
        None => 1,
    }
}

/// The number of entries in and below one listing.
pub open spec fn weight_among(entries: Seq<Option<Node>>) -> nat
    decreases entries,
{
    if entries.len() == 0 {
        0
    } else {
        let before = weight_among(entries.drop_last());
        match entries.last() {
            Some(node) => before + weight(node),
            None => before,
        }
    }
}

/// The records that a work list of entries still to inspect will emit.
pub open spec fn yield_of(nodes: Seq<Node>) -> Multiset<FileRecord>
    decreases nodes.len(),
{
    if nodes.len() == 0 {
        Multiset::empty()
    } else {
        yield_of(nodes.drop_last()).add(records_below(nodes.last()))
    }
}

/// The number of entries in the trees of a work list.
pub open spec fn load(nodes: Seq<Node>) -> nat
    decreases nodes.len(),
{
    if nodes.len() == 0 {
        0
    } else {
        load(nodes.drop_last()) + weight(nodes.last())
    }
}

proof fn lemma_concat(a: Seq<Node>, b: Seq<Node>)
    ensures
        load(a + b) == load(a) + load(b),
        yield_of(a + b) =~= yield_of(a).add(yield_of(b)),
        a.len() <= load(a),
    decreases b.len(), a.len(),
{
    if a.len() > 0 {
        lemma_concat(a.drop_last(), Seq::empty());
    }
    if b.len() == 0 {
        assert(a + b =~= a);
    } else {
        lemma_concat(a, b.drop_last());
        assert((a + b).drop_last() =~= a + b.drop_last());
        assert((a + b).last() == b.last());
    }
}

proof fn lemma_readable(entries: Seq<Option<Node>>)
    ensures
        load(readable(entries)) == weight_among(entries),
        yield_of(readable(entries)) =~= records_among(entries),
        readable(entries).len() <= weight_among(entries),
    decreases entries.len(),
{
    if entries.len() > 0 {
        lemma_readable(entries.drop_last());
        let before = readable(entries.drop_last());
        match entries.last() {
            Some(node) => {
                assert(before.push(node).drop_last() =~= before);
            },
            None => {},
        }
    }
    lemma_concat(readable(entries), Seq::empty());
}

proof fn lemma_count_below(node: Node)
    ensures
        records_below(node).len() == regular_files(node),
    decreases node,
{
    if let Some(meta) = node.probe {
        if kind_of(meta) == EntryKind::Directory {
            if let Some(entries) = node.listing {
                lemma_count_among(entries@);
            }
        }
    }
}

proof fn lemma_count_among(entries: Seq<Option<Node>>)
    ensures
        records_among(entries).len() == regular_files_among(entries),
    decreases entries,
{
    if entries.len() > 0 {
        lemma_count_among(entries.drop_last());
        if let Some(node) = entries.last() {
            lemma_count_below(node);
        }
    }
}

/// A scan gives exactly as many records as the tree holds regular files:
/// symlinks add none to the count and directories none of their own.
pub proof fn one_record_per_regular_file(root: Node)
    ensures
        records_under(root).len() == regular_files_under(root),
{
    if let Some(entries) = root.listing {
        lemma_count_among(entries@);
    }
}

/// Two scans of one tree agree on what they found, though not on the
/// order: they hold the same records, each as often as the other.
pub proof fn two_scans_agree(root: Node, first: Seq<FileRecord>, second: Seq<FileRecord>)
    requires
        first.to_multiset() == records_under(root),
        second.to_multiset() == records_under(root),
    ensures
        first.to_multiset() == second.to_multiset(),
        first.len() == second.len(),
        forall|record: FileRecord| first.contains(record) <==> second.contains(record),
{
    first.to_multiset_ensures();
    second.to_multiset_ensures();
    assert forall|record: FileRecord| first.contains(record) <==> second.contains(record) by {
        assert(first.to_multiset().count(record) == second.to_multiset().count(record));
    }
}

/// A scan under way: the channel, and the entries whose inspection is
/// still to run, in no particular order.
pub ghost struct WalkState {
    pub channel: ChannelView,
    pub pending: Seq<Node>,
}

impl WalkState {
    /// Each piece of pending work holds one producer handle, and nothing
    /// else holds one.
    pub open spec fn balanced(self) -> bool {
        self.channel.producers == self.pending.len()
    }

    /// The records that are queued together with those that the pending
    /// work will still emit.
    pub open spec fn outstanding(self) -> Multiset<FileRecord> {
        self.channel.queue.to_multiset().add(yield_of(self.pending))
    }
}

/// The state after the scheduler has run the pending piece of work at
/// index `i`: the entry is inspected and, if it is a directory, expanded, and
/// its children join the pending work.
pub open spec fn after_work(s: WalkState, i: int) -> WalkState {
    let node = s.pending[i];
    let rest = s.pending.remove(i);
    let inspected = after_inspection(s.channel, node.path, node.probe);
    match inspection_outcome(s.channel, node.path, node.probe) {
        Ok(Some(_)) => WalkState {
            channel: after_expansion(inspected, false, node.listing),
            pending: match children_of(false, node.listing) {
                Ok(children) => rest + children,
                Err(_) => rest,
            },
        },
        _ => WalkState { channel: inspected, pending: rest },
    }
}

proof fn lemma_remove(nodes: Seq<Node>, i: int)
    requires
        0 <= i < nodes.len(),
    ensures
        load(nodes) == load(nodes.remove(i)) + weight(nodes[i]),
        yield_of(nodes) =~= yield_of(nodes.remove(i)).add(records_below(nodes[i])),
{
    let head = nodes.take(i);
    let tail = nodes.skip(i + 1);
    assert(nodes =~= head.push(nodes[i]) + tail);
    assert(nodes.remove(i) =~= head + tail);
    assert(head.push(nodes[i]).drop_last() =~= head);
    lemma_concat(head.push(nodes[i]), tail);
    lemma_concat(head, tail);
}

/// The scheduler is free in what it runs next. Whichever pending piece of
/// work runs, each piece left afterwards again holds exactly one handle, no
/// record is lost or made up, and less of the tree is left to visit: so
/// every order of running the work ends, and ends with the same records.
pub proof fn any_work_may_run_next(s: WalkState, i: int)
    requires
        s.balanced(),
        s.channel.receiving,
        0 <= i < s.pending.len(),
    ensures
        after_work(s, i).balanced(),
        after_work(s, i).channel.receiving,
        after_work(s, i).outstanding() == s.outstanding(),
        load(after_work(s, i).pending) < load(s.pending),
{
    let node = s.pending[i];
    let rest = s.pending.remove(i);
    lemma_remove(s.pending, i);
    s.channel.queue.to_multiset_ensures();
    if node.listing is Some {
        lemma_readable(node.listing->Some_0@);
        lemma_concat(rest, readable(node.listing->Some_0@));
    }
    assert(after_work(s, i).outstanding() =~= s.outstanding());
}

/// Closure tells the collector the truth: once the channel of a balanced
/// scan is closed, no work is pending, and the records still to come are
/// those in the queue and no others.
pub proof fn closed_means_nothing_is_left(s: WalkState)
    requires
        s.balanced(),
        s.channel.closed(),
    ensures
        s.pending.len() == 0,
        s.outstanding() == s.channel.queue.to_multiset(),
{
    assert(s.outstanding() =~= s.channel.queue.to_multiset());
}

/// While work is pending in a balanced scan, the channel is open: the
/// collector is never told `Closed` early.
pub proof fn open_while_work_is_pending(s: WalkState)
    requires
        s.balanced(),
        s.pending.len() > 0,
    ensures
        !s.channel.closed(),
        received_from(s.channel) != Received::Closed,
{
}

/// A symlink adds no record, whatever it points to and whatever lies
/// behind it: its listing is never looked at.
pub proof fn symlink_adds_nothing(node: Node)
    requires
        is_link(node.probe),
    ensures
        records_below(node) == Multiset::<FileRecord>::empty(),
        finding_of(node.path, node.probe) == Ok::<Finding, WalkError>(Finding::Nothing),
{
}

/// A regular file that is no symlink adds exactly one record: its own
/// path, the timestamps that could be read, and the length that the
/// filesystem reported.
pub proof fn regular_file_adds_one(node: Node, meta: EntryMeta)
    requires
        node.probe == Some(meta),
        kind_of(meta) == EntryKind::File,
    ensures
        records_below(node) == Multiset::singleton(
            FileRecord {
                path: node.path,
                created: meta.created,
                modified: meta.modified,
                size: meta.len,
            },
        ),
        records_below(node).len() == 1,
{
}

/// A directory adds no record of its own, only those of its entries; one
/// that cannot be listed adds none.
pub proof fn directory_adds_its_entries(node: Node, meta: EntryMeta)
    requires
        node.probe == Some(meta),
        kind_of(meta) == EntryKind::Directory,
    ensures
        node.listing matches Some(entries) ==> records_below(node) == records_among(entries@),
        node.listing is None ==> records_below(node) == Multiset::<FileRecord>::empty(),
{
}

/// An entry whose metadata cannot be read adds no record.
pub proof fn unreadable_entry_adds_nothing(node: Node)
    requires
        node.probe is None,
    ensures
        records_below(node) == Multiset::<FileRecord>::empty(),
{
}

/// The entries of a listing add their records independently of each other:
/// the records of two runs of entries put together are the records of the one
/// and those of the other.
pub proof fn siblings_add_up(first: Seq<Option<Node>>, second: Seq<Option<Node>>)
    ensures
        records_among(first + second) == records_among(first).add(records_among(second)),
    decreases second.len(),
{
    if second.len() == 0 {
        assert(first + second =~= first);
        assert(records_among(first).add(records_among(second)) =~= records_among(first));
    } else {
        siblings_add_up(first, second.drop_last());
        assert((first + second).drop_last() =~= first + second.drop_last());
        assert((first + second).last() == second.last());
        assert(records_among(first + second) =~= records_among(first).add(
            records_among(second),
        ));
    }
}

/// A failure stays where it happens. An entry that adds no record (a
/// directory that cannot be listed, an entry whose metadata cannot be read,
/// an entry that failed while the listing was read) takes nothing from the
/// entries before and after it: the listing gives what it would give
/// without that entry.
pub proof fn failure_is_isolated(
    before: Seq<Option<Node>>,
    failed: Option<Node>,
    after: Seq<Option<Node>>,
)
    requires
        failed matches Some(node) ==> records_below(node) == Multiset::<FileRecord>::empty(),
    ensures
        records_among(before.push(failed) + after) == records_among(before + after),
{
    siblings_add_up(before.push(failed), after);
    siblings_add_up(before, after);
    assert(before.push(failed).drop_last() =~= before);
    assert(records_among(before.push(failed)) =~= records_among(before));
}

/// Whether the metadata says that the entry is a symlink.
pub fn probe_is_link(probe: &Option<EntryMeta>) -> (link: bool)
    ensures
        link == is_link(*probe),
{
    match probe {
        Some(meta) => meta.is_symlink,
        None => false,
    }
}

/// Scans the tree at `root` and returns the records with their totals.
///
/// The work list holds the entries still to inspect, each with one producer
/// handle of the channel. Each round does one piece of work, if any is
/// left, and then lets the collector receive once; the scan stops when the
/// collector is told that the channel is closed, and by then it has
/// received every record. The scan ends for every tree, however deep, and
/// its records are those of `records_under`, in an order that is left open.
///
/// The tree may not hold more entries than the channel can count handles.
pub fn scan(root: Node) -> (out: (Vec<FileRecord>, Tally))
    requires
        weight(root) <= u64::MAX,
    ensures
        out.0@.to_multiset() == records_under(root),
        out.1.count == out.0@.len(),
        out.1.bytes == total_size(out.0@),
{
    let ghost expected = records_under(root);
    let mut channel = Channel::new();
    let Node { path: _, probe, listing } = root;
    let link = probe_is_link(&probe);
    proof {
        if listing is Some {
            lemma_readable(listing->Some_0@);
        }
    }
    let mut pending: Vec<Node> = match complete_expansion(&mut channel, link, listing) {
        Ok(children) => children,
        Err(_) => Vec::new(),
    };
    let mut records: Vec<FileRecord> = Vec::new();
    let mut tally = Tally::new();
    let mut closed = false;
    proof {
        records@.to_multiset_ensures();
        assert(records@.to_multiset().add(yield_of(pending@)) =~= expected);
    }
    while !closed
        invariant
            channel@.producers == pending@.len(),
            channel@.receiving,
            channel@.queue.len() == 0,
            closed ==> pending@.len() == 0,
            records@.to_multiset().add(yield_of(pending@)) == expected,
            records@.len() + load(pending@) <= u64::MAX,
            tally.wf(),
            tally.count == records@.len(),
            tally.bytes == total_size(records@),
        decreases
            load(pending@) + (if closed { 0nat } else { 1nat }),
    {
        let ghost before = pending@;
        if pending.len() > 0 {
            let node = pending.pop().unwrap();
            let ghost rest = pending@;
            proof {
                assert(rest =~= before.drop_last());
                lemma_concat(rest, Seq::empty());
                if node.listing is Some {
                    lemma_readable(node.listing->Some_0@);
                    lemma_concat(rest, readable(node.listing->Some_0@));
                }
            }
            let Node { path, probe, listing } = node;
            match complete_inspection(&mut channel, path, probe) {
                Ok(Some(_)) => {
                    match complete_expansion(&mut channel, false, listing) {
                        Ok(children) => {
                            let mut children = children;
                            pending.append(&mut children);
                        },
                        Err(_) => {},
                    }
                },
                _ => {},
            }
        }
        proof {
            records@.to_multiset_ensures();
            channel@.queue.to_multiset_ensures();
            assert(records@.to_multiset().add(channel@.queue.to_multiset()).add(yield_of(pending@))
                =~= expected);
        }
        match channel.receive() {
            Received::Record(record) => {
                proof {
                    assert(records@.push(record).drop_last() =~= records@);
                }
                tally.record(record.size);
                records.push(record);
            },
            Received::Waiting => {},
            Received::Closed => {
                closed = true;
            },
        }
        proof {
            assert(records@.to_multiset().add(yield_of(pending@)) =~= expected);
        }
    }
    proof {
        assert(records@.to_multiset().add(Multiset::empty()) =~= records@.to_multiset());
    }
    (records, tally)
}

/// The number of entries in the trees of a list of borrowed entries.
pub open spec fn load_of_borrowed(nodes: Seq<&Node>) -> nat
    decreases nodes.len(),
{
    if nodes.len() == 0 {
        0
    } else {
        load_of_borrowed(nodes.drop_last()) + weight(*nodes.last())
    }
}

/// Counts the entries of the tree at `root`, itself included. `None` says
/// that there are more than a `u64` can count.
pub fn entry_count(root: &Node) -> (count: Option<u64>)
    ensures
        count matches Some(n) ==> n == weight(*root),
        count is None ==> weight(*root) > u64::MAX,
{
    let mut stack: Vec<&Node> = Vec::new();
    stack.push(root);
    let mut count: u64 = 0;
    proof {
        assert(stack@.drop_last() =~= Seq::<&Node>::empty());
        assert(load_of_borrowed(stack@.drop_last()) == 0);
        assert(stack@.last() == root);
    }
    while stack.len() > 0
        invariant
            count + load_of_borrowed(stack@) == weight(*root),
        decreases load_of_borrowed(stack@),
    {
        let node = stack.pop().unwrap();
        if count == u64::MAX {
            return None;
        }
        count = count + 1;
        match &node.listing {
            Some(entries) => {
                let ghost below = stack@;
                let mut i: usize = 0;
                proof {
                    assert(entries@.take(0) =~= Seq::<Option<Node>>::empty());
                }
                while i < entries.len()
                    invariant
                        i <= entries@.len(),
                        load_of_borrowed(stack@) == load_of_borrowed(below) + weight_among(
                            entries@.take(i as int),
                        ),
                    decreases entries@.len() - i,
                {
                    proof {
                        assert(entries@.take(i + 1).drop_last() =~= entries@.take(i as int));
                    }
                    match &entries[i] {
                        Some(child) => {
                            proof {
                                assert(stack@.push(child).drop_last() =~= stack@);
                            }
                            stack.push(child);
                        },
                        None => {},
                    }
                    i = i + 1;
                }
                proof {
                    assert(entries@.take(entries@.len() as int) =~= entries@);
                }
            },
            None => {},
        }
    }
    Some(count)
}

/// Scans the tree at `root` if the channel can count a handle for each of
/// its entries, and says `None` if it cannot.
pub fn try_scan(root: Node) -> (out: Option<(Vec<FileRecord>, Tally)>)
    ensures
        out is Some <==> weight(root) <= u64::MAX,
        out matches Some(found) ==> {
            &&& found.0@.to_multiset() == records_under(root)
            &&& found.1.count == found.0@.len()
            &&& found.1.bytes == total_size(found.0@)
        },
{
    match entry_count(&root) {
        Some(_) => Some(scan(root)),
        None => None,
    }
}

} // verus!
