//! The bounded channel between the producer and the execution host.
//!
//! The channel is a FIFO queue of at most `CHANNEL_CAPACITY` non-empty
//! batches. A send suspends the producer while the queue is full, so the
//! model only admits a send when there is room, or when the receiver is
//! gone and the send fails at once. Once the producer has closed the
//! channel and the queue has drained, every receive reports end-of-stream
//! and leaves the channel unchanged: end-of-stream is terminal.

use crate::limits::CHANNEL_CAPACITY;
use crate::producer::batch_concat;
use vstd::prelude::*;

verus! {

/// The channel's state: the batches in flight, whether the sending side
/// has finished, whether the receiving side is gone, and (as ghost
/// history) every batch accepted and every batch handed out.
pub struct Channel {
    pub queue: Vec<Vec<String>>,
    pub closed: bool,
    pub receiver_dropped: bool,
    pub accepted: Ghost<Seq<Seq<Seq<char>>>>,
    pub delivered: Ghost<Seq<Seq<Seq<char>>>>,
}

impl Channel {
    /// How many batches are in flight.
    pub open spec fn occupancy(self) -> nat {
        self.queue@.len()
    }

    /// The channel's invariant: no more than `CHANNEL_CAPACITY` batches
    /// are in flight, every batch in flight is non-empty, and the batches
    /// handed out followed by the batches in flight are exactly the
    /// batches accepted, in order.
    pub open spec fn wf(self) -> bool {
        &&& self.occupancy() <= CHANNEL_CAPACITY
        &&& self.delivered@ + self.queue.deep_view() == self.accepted@
        &&& forall|i: int|
            0 <= i < self.queue@.len() ==> (#[trigger] self.queue.deep_view()[i]).len() > 0
    }

    /// Whether the stream has ended for good: the sender has finished and
    /// nothing is left in flight.
    pub open spec fn at_end(self) -> bool {
        self.closed && self.queue@.len() == 0
    }

    /// Whether the queue has room for one more batch.
    pub open spec fn has_room(self) -> bool {
        self.occupancy() < CHANNEL_CAPACITY
    }

    /// What one receive does: either the oldest batch in flight is handed
    /// out, or the drained, closed channel reports end-of-stream and
    /// stays exactly as it is.
    pub open spec fn recv_step(pre: Channel, post: Channel, r: Option<Vec<String>>) -> bool {
        &&& post.closed == pre.closed
        &&& post.receiver_dropped == pre.receiver_dropped
        &&& post.accepted@ == pre.accepted@
        &&& if pre.queue@.len() > 0 {
            match r {
                Some(batch) => {
                    &&& batch.deep_view() == pre.queue.deep_view()[0]
                    &&& batch@.len() > 0
                    &&& post.queue.deep_view() == pre.queue.deep_view().drop_first()
                    &&& post.delivered@ == pre.delivered@.push(batch.deep_view())
                },
                None => false,
            }
        } else {
            r is None && post == pre
        }
    }

    /// A fresh channel: open, receiver present, nothing in flight.
    pub fn new() -> (c: Channel)
        ensures
            c.wf(),
            !c.closed,
            !c.receiver_dropped,
            c.occupancy() == 0,
            c.accepted@ == Seq::<Seq<Seq<char>>>::empty(),
            c.delivered@ == Seq::<Seq<Seq<char>>>::empty(),
    {
        let c = Channel {
            queue: Vec::new(),
            closed: false,
            receiver_dropped: false,
            accepted: Ghost(Seq::empty()),
            delivered: Ghost(Seq::empty()),
        };
        proof {
            assert(c.queue.deep_view() =~= Seq::<Seq<Seq<char>>>::empty());
            assert(c.delivered@ + c.queue.deep_view() =~= c.accepted@);
        }
        c
    }

    /// Sends one batch. While the receiver is present the batch joins the
    /// queue (the producer was suspended until there was room); once the
    /// receiver is gone the send fails, hands the batch back, and changes
    /// nothing, which is the producer's signal to stop.
    pub fn send(&mut self, batch: Vec<String>) -> (r: Result<(), Vec<String>>)
        requires
            old(self).wf(),
            !old(self).closed,
            batch@.len() > 0,
            old(self).receiver_dropped || old(self).has_room(),
        ensures
            final(self).wf(),
            final(self).closed == old(self).closed,
            final(self).receiver_dropped == old(self).receiver_dropped,
            if old(self).receiver_dropped {
                match r {
                    Err(rejected) => rejected.deep_view() == batch.deep_view() && *final(self)
                        == *old(self),
                    Ok(_) => false,
                }
            } else {
                match r {
                    Ok(_) => {
                        &&& final(self).accepted@ == old(self).accepted@.push(batch.deep_view())
                        &&& final(self).delivered@ == old(self).delivered@
                        &&& final(self).queue.deep_view() == old(self).queue.deep_view().push(
                            batch.deep_view(),
                        )
                    },
                    Err(_) => false,
                }
            },
    {
        if self.receiver_dropped {
            Err(batch)
        } else {
            let ghost queue_before = self.queue.deep_view();
            self.queue.push(batch);
            self.accepted = Ghost(self.accepted@.push(self.queue.deep_view().last()));
            proof {
                assert(self.queue.deep_view() =~= queue_before.push(
                    self.queue.deep_view().last(),
                ));
                assert(self.delivered@ + self.queue.deep_view() =~= self.accepted@);
            }
            Ok(())
        }
    }

    /// Receives one batch or observes end-of-stream. The receive suspends
    /// the caller while the queue is empty and the sender still active,
    /// so the model only admits a receive when a batch is in flight or
    /// the channel is closed.
    pub fn recv(&mut self) -> (r: Option<Vec<String>>)
        requires
            old(self).wf(),
            !old(self).receiver_dropped,
            old(self).queue@.len() > 0 || old(self).closed,
        ensures
            final(self).wf(),
            Channel::recv_step(*old(self), *final(self), r),
    {
        if self.queue.len() > 0 {
            let ghost queue_before = self.queue.deep_view();
            let batch = self.queue.remove(0);
            self.delivered = Ghost(self.delivered@.push(batch.deep_view()));
            proof {
                assert(self.queue.deep_view() =~= queue_before.drop_first());
                assert(self.delivered@ + self.queue.deep_view() =~= self.accepted@);
            }
            Some(batch)
        } else {
            None
        }
    }

    /// How many batches are in flight right now.
    pub fn in_flight(&self) -> (n: usize)
        ensures
            n == self.occupancy(),
    {
        self.queue.len()
    }

    /// Decides whether the queue is full, so that a send would suspend.
    pub fn is_full(&self) -> (full: bool)
        ensures
            full == !self.has_room(),
    {
        self.queue.len() >= CHANNEL_CAPACITY
    }

    /// Marks the sending side as finished: no further batch will arrive.
    pub fn close(&mut self)
        requires
            old(self).wf(),
        ensures
            final(self).wf(),
            final(self).closed,
            final(self).receiver_dropped == old(self).receiver_dropped,
            final(self).queue.deep_view() == old(self).queue.deep_view(),
            final(self).accepted@ == old(self).accepted@,
            final(self).delivered@ == old(self).delivered@,
    {
        self.closed = true;
    }

    /// Marks the receiving side as gone: every later send fails, which
    /// stops the producer.
    pub fn drop_receiver(&mut self)
        requires
            old(self).wf(),
        ensures
            final(self).wf(),
            final(self).receiver_dropped,
            final(self).closed == old(self).closed,
            final(self).queue.deep_view() == old(self).queue.deep_view(),
            final(self).accepted@ == old(self).accepted@,
            final(self).delivered@ == old(self).delivered@,
    {
        self.receiver_dropped = true;
    }
}

/// Back-pressure bound: a well-formed channel never holds more than
/// `CHANNEL_CAPACITY` batches in flight.
pub proof fn lemma_occupancy_bounded(c: Channel)
    requires
        c.wf(),
    ensures
        c.occupancy() <= CHANNEL_CAPACITY,
{
}

/// End-of-stream is terminal: a receive on a drained, closed channel
/// reports end-of-stream and leaves the channel drained and closed, so
/// every later receive reports end-of-stream as well and no call ever
/// returns data again.
pub proof fn lemma_end_of_stream_permanent(pre: Channel, post: Channel, r: Option<Vec<String>>)
    requires
        pre.wf(),
        pre.at_end(),
        Channel::recv_step(pre, post, r),
    ensures
        r is None,
        post.at_end(),
        post == pre,
{
}

/// FIFO delivery without loss or duplication: once a well-formed channel
/// has drained, the batches handed out are exactly the batches accepted,
/// in the order they were accepted, and their lines joined together are
/// the lines of the accepted batches joined together.
pub proof fn lemma_drained_channel_delivered_everything(c: Channel)
    requires
        c.wf(),
        c.queue@.len() == 0,
    ensures
        c.delivered@ == c.accepted@,
        batch_concat(c.delivered@) == batch_concat(c.accepted@),
{
    assert(c.queue.deep_view() =~= Seq::<Seq<Seq<char>>>::empty());
    assert(c.delivered@ =~= c.delivered@ + c.queue.deep_view());
}

} // verus!
