//! The aggregation channel: an unbounded first-in first-out queue of records
//! that counts its outstanding producer handles and is closed, for good, once
//! that count is zero.
//!
//! The type holds the protocol only. A caller that shares it between threads
//! guards it with a lock and turns `Received::Waiting` into a wait.

use std::collections::VecDeque;
use vstd::prelude::*;
use crate::fault::WalkError;
use crate::record::FileRecord;

verus! {

/// The queue and its producer count.
pub struct Channel {
    producers: u64,
    queue: VecDeque<FileRecord>,
    receiving: bool,
}

/// What a `Channel` is: how many producer handles are out, the records
/// sent and not yet received (oldest first), and whether the consumer is
/// still there.
pub ghost struct ChannelView {
    pub producers: nat,
    pub queue: Seq<FileRecord>,
    pub receiving: bool,
}

impl ChannelView {
    /// No producer handle is left: nothing can be sent any more.
    pub open spec fn closed(self) -> bool {
        self.producers == 0
    }
}

/// What one `receive` yields.
#[derive(Debug, PartialEq, Eq)]
pub enum Received {
    /// The oldest record in the queue.
    Record(FileRecord),
    /// Nothing is queued, but a producer may still send.
    Waiting,
    /// Nothing is queued and no producer is left.
    Closed,
}

impl View for Channel {
    type V = ChannelView;

    closed spec fn view(&self) -> ChannelView {
        ChannelView {
            producers: self.producers as nat,
            queue: self.queue@,
            receiving: self.receiving,
        }
    }
}

impl Channel {
    /// A fresh channel: empty, with one producer handle out (the one the
    /// first piece of work gets) and the consumer in place.
    pub fn new() -> (channel: Channel)
        ensures
            channel@ == (ChannelView { producers: 1, queue: Seq::empty(), receiving: true }),
    {
        Channel { producers: 1, queue: VecDeque::new(), receiving: true }
    }

    /// The number of producer handles that are out.
    pub fn producers(&self) -> (n: u64)
        ensures
            n == self@.producers,
    {
        self.producers
    }

    /// The number of records sent and not yet received.
    pub fn pending(&self) -> (n: usize)
        ensures
            n == self@.queue.len(),
    {
        self.queue.len()
    }

    /// Whether every producer handle has been released.
    pub fn is_closed(&self) -> (closed: bool)
        ensures
            closed == self@.closed(),
    {
        self.producers == 0
    }

    /// Whether the consumer is still there.
    pub fn is_receiving(&self) -> (receiving: bool)
        ensures
            receiving == self@.receiving,
    {
        self.receiving
    }

    /// Queues a record on behalf of a holder of a producer handle. It fails
    /// only when the consumer has gone, and then changes nothing.
    pub fn send(&mut self, record: FileRecord) -> (sent: Result<(), WalkError>)
        requires
            !old(self)@.closed(),
        ensures
            old(self)@.receiving ==> sent == Ok::<(), WalkError>(()) && final(self)@ == (ChannelView {
                queue: old(self)@.queue.push(record),
                ..old(self)@
            }),
            !old(self)@.receiving ==> sent == Err::<(), WalkError>(WalkError::SendFailure)
                && final(self)@ == old(self)@,
    {
        if self.receiving {
            self.queue.push_back(record);
            Ok(())
        } else {
            Err(WalkError::SendFailure)
        }
    }

    /// Hands out one more producer handle. Only a holder of a handle can ask
    /// for one, so a closed channel never opens again.
    pub fn clone_producer(&mut self)
        requires
            !old(self)@.closed(),
            old(self)@.producers < u64::MAX,
        ensures
            final(self)@ == (ChannelView { producers: old(self)@.producers + 1, ..old(self)@ }),
    {
        self.producers = self.producers + 1;
    }

    /// Gives one producer handle back, and says whether that closed the
    /// channel.
    pub fn release_producer(&mut self) -> (closed: bool)
        requires
            !old(self)@.closed(),
        ensures
            final(self)@ == (ChannelView {
                producers: (old(self)@.producers - 1) as nat,
                ..old(self)@
            }),
            closed == final(self)@.closed(),
    {
        self.producers = self.producers - 1;
        self.producers == 0
    }

    /// Takes the oldest record if there is one. With an empty queue it
    /// reports `Closed` when no producer is left and `Waiting` otherwise, and
    /// changes nothing.
    pub fn receive(&mut self) -> (got: Received)
        ensures
            got == received_from(old(self)@),
            final(self)@ == after_receive(old(self)@),
    {
        match self.queue.pop_front() {
            Some(record) => Received::Record(record),
            None => {
                if self.producers == 0 {
                    Received::Closed
                } else {
                    Received::Waiting
                }
            },
        }
    }

    /// Takes the consumer away: every later `send` fails. Records still
    /// queued stay where they are.
    pub fn stop_receiving(&mut self)
        ensures
            final(self)@ == (ChannelView { receiving: false, ..old(self)@ }),
    {
        self.receiving = false;
    }
}

/// What `receive` yields on a channel in state `c`.
pub open spec fn received_from(c: ChannelView) -> Received {
    if c.queue.len() > 0 {
        Received::Record(c.queue[0])
    } else if c.closed() {
        Received::Closed
    } else {
        Received::Waiting
    }
}

/// The state that `receive` leaves behind.
pub open spec fn after_receive(c: ChannelView) -> ChannelView {
    if c.queue.len() > 0 {
        ChannelView { queue: c.queue.drop_first(), ..c }
    } else {
        c
    }
}

/// A closed channel that has been drained stays closed and empty whatever the
/// consumer does: `receive` answers `Closed` and leaves the state as it is,
/// so the answer is the same ever after.
pub proof fn closed_is_final(c: ChannelView)
    requires
        c.closed(),
        c.queue.len() == 0,
    ensures
        received_from(c) == Received::Closed,
        after_receive(c) == c,
{
}

/// While a producer handle is out, `receive` never answers `Closed`.
pub proof fn open_never_reports_closed(c: ChannelView)
    requires
        !c.closed(),
    ensures
        received_from(c) != Received::Closed,
{
}

/// Records are received in the order they were sent: a record sent into a
/// queue of `n` records is the one that the `n + 1`-th `receive` yields, and
/// the records before it come out unchanged.
pub proof fn receive_is_first_in_first_out(c: ChannelView, record: FileRecord)
    requires
        c.queue.len() > 0,
    ensures
        received_from(ChannelView { queue: c.queue.push(record), ..c }) == received_from(c),
        after_receive(ChannelView { queue: c.queue.push(record), ..c }) == (ChannelView {
            queue: after_receive(c).queue.push(record),
            ..c
        }),
{
    assert(c.queue.push(record).drop_first() =~= c.queue.drop_first().push(record));
}

} // verus!
