//! The bounded mailbox: the sole synchronization point between the
//! concurrently running producer tasks and the single consumer.
//!
//! Producers `post` outcome messages; the consumer `poll`s at most one
//! message per presentation tick.  The queue is a strict FIFO, so the
//! consumer observes messages in exactly the global post order — in
//! particular in each single producer's post order.  A post against a
//! full mailbox hands the message back to its producer instead of
//! dropping it, making backpressure explicit.

use vstd::prelude::*;
use crate::message::WorkerMessage;

verus! {

/// The capacity the application creates its mailbox with.
pub const DEFAULT_MAILBOX_CAPACITY: usize = 102;

/// The many-producer, one-consumer outcome mailbox.
///
/// Alongside the pending queue it carries the ghost history of every
/// message ever posted and every message ever delivered; the
/// well-formedness invariant ties the three together, which is what
/// makes the ordering guarantee (`lemma_delivered_prefix_of_posted`)
/// a theorem rather than a promise.
pub struct Mailbox {
    queue: Vec<WorkerMessage>,
    capacity: usize,
    posted: Ghost<Seq<WorkerMessage>>,
    delivered: Ghost<Seq<WorkerMessage>>,
}

impl Mailbox {
    /// The messages posted but not yet drained, oldest first.
    pub closed spec fn pending(self) -> Seq<WorkerMessage> {
        self.queue@
    }

    /// Every message ever accepted by `post`, in post order.
    pub closed spec fn posted(self) -> Seq<WorkerMessage> {
        self.posted@
    }

    /// Every message ever returned by `poll`, in delivery order.
    pub closed spec fn delivered(self) -> Seq<WorkerMessage> {
        self.delivered@
    }

    /// The bound the mailbox was created with.
    pub closed spec fn capacity(self) -> usize {
        self.capacity
    }

    /// What has been posted is what has been delivered followed by what
    /// is still pending; the capacity is positive.
    pub open spec fn wf(self) -> bool {
        &&& self.posted() == self.delivered() + self.pending()
        &&& self.capacity() > 0
    }

    /// An empty mailbox holding at most `capacity` pending messages.
    pub fn new(capacity: usize) -> (m: Mailbox)
        requires
            capacity > 0,
        ensures
            m.wf(),
            m.capacity() == capacity,
            m.pending().len() == 0,
            m.posted().len() == 0,
            m.delivered().len() == 0,
    {
        let m = Mailbox {
            queue: Vec::new(),
            capacity,
            posted: Ghost(Seq::empty()),
            delivered: Ghost(Seq::empty()),
        };
        proof {
            assert(m.posted() =~= m.delivered() + m.pending());
        }
        m
    }

    /// How many messages are pending.
    pub fn pending_len(&self) -> (n: usize)
        ensures
            n == self.pending().len(),
    {
        self.queue.len()
    }

    /// Enqueue one outcome message.  Below capacity the message is
    /// appended; at capacity it is handed back unchanged — never
    /// silently dropped — and the mailbox is untouched, so the producer
    /// can hold it and try again.
    pub fn post(&mut self, msg: WorkerMessage) -> (r: Result<(), WorkerMessage>)
        requires
            old(self).wf(),
        ensures
            final(self).wf(),
            final(self).capacity() == old(self).capacity(),
            final(self).delivered() == old(self).delivered(),
            old(self).pending().len() < old(self).capacity() ==> {
                &&& r is Ok
                &&& final(self).pending() == old(self).pending().push(msg)
                &&& final(self).posted() == old(self).posted().push(msg)
            },
            old(self).pending().len() >= old(self).capacity() ==> {
                &&& r == Result::<(), WorkerMessage>::Err(msg)
                &&& *final(self) == *old(self)
            },
    {
        if self.queue.len() < self.capacity {
            self.queue.push(msg);
            proof {
                self.posted@ = self.posted@.push(self.queue@.last());
                assert(self.posted() =~= self.delivered() + self.pending());
            }
            Ok(())
        } else {
            Err(msg)
        }
    }

    /// Drain at most one message.  On an empty mailbox this returns
    /// `None` at once, the mailbox untouched — the consumer is never
    /// made to wait.  Otherwise the oldest pending message is returned
    /// and moves from the pending queue to the delivered history.
    pub fn poll(&mut self) -> (r: Option<WorkerMessage>)
        requires
            old(self).wf(),
        ensures
            final(self).wf(),
            final(self).capacity() == old(self).capacity(),
            final(self).posted() == old(self).posted(),
            old(self).pending().len() == 0 ==> {
                &&& r is None
                &&& *final(self) == *old(self)
            },
            old(self).pending().len() > 0 ==> {
                &&& r == Some(old(self).pending()[0])
                &&& final(self).pending() == old(self).pending().drop_first()
                &&& final(self).delivered() == old(self).delivered().push(old(self).pending()[0])
            },
    {
        if self.queue.len() == 0 {
            None
        } else {
            let msg = self.queue.remove(0);
            proof {
                self.delivered@ = self.delivered@.push(msg);
                assert(self.posted() =~= self.delivered() + self.pending());
            }
            Some(msg)
        }
    }
}

/// The mailbox preserves order: what has been delivered is exactly the
/// first `delivered().len()` messages posted, in post order.  Since the
/// global delivery order equals the global post order, any two messages
/// posted one after the other by a single producer are observed by the
/// consumer in that same relative order.
pub proof fn lemma_delivered_prefix_of_posted(m: Mailbox)
    requires
        m.wf(),
    ensures
        m.delivered() =~= m.posted().take(m.delivered().len() as int),
{
}

/// Two messages posted one after the other — in particular two messages
/// of one producer, such as a progress report followed by its `Done` —
/// keep their positions when delivered: the consumer observes the
/// earlier-posted one strictly before the later-posted one.
pub proof fn lemma_per_producer_order(m: Mailbox, i: int, j: int)
    requires
        m.wf(),
        0 <= i < j < m.delivered().len(),
    ensures
        m.delivered()[i] == m.posted()[i],
        m.delivered()[j] == m.posted()[j],
{
    lemma_delivered_prefix_of_posted(m);
}

} // verus!
