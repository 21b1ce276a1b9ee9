//! The collector: the single consumer that empties the channel and keeps
//! running totals of what it has seen.

use vstd::prelude::*;
use crate::channel::{Channel, ChannelView, Received};
use crate::record::{FileRecord, total_size};

verus! {

/// How many records the collector has seen and how many bytes they add up
/// to.
#[derive(Clone, Copy, Debug, PartialEq, Eq, Structural)]
pub struct Tally {
    pub count: u64,
    pub bytes: u128,
}

impl Tally {
    /// The totals cannot outgrow their types: no record is larger than
    /// `u64::MAX` bytes, so `count` records hold at most `count * u64::MAX`.
    pub open spec fn wf(&self) -> bool {
        self.bytes <= self.count * u64::MAX
    }

    /// Nothing seen yet.
    pub fn new() -> (tally: Tally)
        ensures
            tally.count == 0,
            tally.bytes == 0,
            tally.wf(),
    {
        Tally { count: 0, bytes: 0 }
    }

    /// Counts one record of `size` bytes.
    pub fn record(&mut self, size: u64)
        requires
            old(self).wf(),
            old(self).count < u64::MAX,
        ensures
            final(self).count == old(self).count + 1,
            final(self).bytes == old(self).bytes + size,
            final(self).wf(),
    {
        proof {
            assert(self.count * u64::MAX + u64::MAX == (self.count + 1) * u64::MAX) by (nonlinear_arith);
            assert((self.count + 1) * u64::MAX <= u64::MAX * u64::MAX) by (nonlinear_arith)
                requires
                    self.count + 1 <= u64::MAX,
            ;
        }
        self.count = self.count + 1;
        self.bytes = self.bytes + size as u128;
    }
}

/// Takes every record that is queued, oldest first, counts each into
/// `tally`, and says whether the channel is closed, so that no record will
/// ever follow. The caller forwards the records to its sink and, unless the
/// channel is closed, waits for more.
pub fn drain(channel: &mut Channel, tally: &mut Tally) -> (out: (Vec<FileRecord>, bool))
    requires
        old(tally).wf(),
        old(tally).count + old(channel)@.queue.len() <= u64::MAX,
    ensures
        out.0@ == old(channel)@.queue,
        out.1 == old(channel)@.closed(),
        final(channel)@ == (ChannelView { queue: Seq::empty(), ..old(channel)@ }),
        final(tally).count == old(tally).count + old(channel)@.queue.len(),
        final(tally).bytes == old(tally).bytes + total_size(old(channel)@.queue),
        final(tally).wf(),
{
    let ghost start = channel@;
    let ghost before = *tally;
    let mut taken: Vec<FileRecord> = Vec::new();
    while channel.pending() > 0
        invariant
            taken@ + channel@.queue == start.queue,
            channel@ == (ChannelView { queue: channel@.queue, ..start }),
            tally.wf(),
            tally.count == before.count + taken@.len(),
            tally.bytes == before.bytes + total_size(taken@),
            before.count + start.queue.len() <= u64::MAX,
        decreases channel@.queue.len(),
    {
        let ghost queued = channel@.queue;
        match channel.receive() {
            Received::Record(record) => {
                proof {
                    assert(taken@.push(record).drop_last() =~= taken@);
                    assert(taken@.push(record) + queued.drop_first() =~= taken@ + queued);
                }
                tally.record(record.size);
                taken.push(record);
            },
            _ => {},
        }
    }
    proof {
        assert(taken@ + channel@.queue =~= taken@);
        assert(channel@.queue =~= Seq::<FileRecord>::empty());
    }
    let closed = match channel.receive() {
        Received::Closed => true,
        _ => false,
    };
    (taken, closed)
}

} // verus!
