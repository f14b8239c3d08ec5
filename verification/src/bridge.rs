//! The callback-to-stream bridge's queue: the single synchronization
//! point between the capture driver's callback (the producer) and the
//! one consumer task. The producer never blocks; pushing into a
//! torn-down queue silently drops the batch.

use crate::mic::AudioData;
use vstd::prelude::*;

verus! {

/// A first-in-first-out queue of audio batches with a teardown flag.
/// End of stream, for the consumer, is a closed queue with nothing left
/// queued.
pub struct BatchQueue {
    pub items: Vec<AudioData>,
    pub closed: bool,
}

impl BatchQueue {
    pub fn new() -> (r: Self)
        ensures
            r.items@ == Seq::<AudioData>::empty(),
            !r.closed,
    {
        BatchQueue { items: Vec::new(), closed: false }
    }

    /// The producer side: enqueue one batch without ever blocking. On a
    /// torn-down queue the batch is silently dropped, never reported:
    /// the producer has no consumer to report to.
    pub fn enqueue(&mut self, batch: AudioData)
        ensures
            final(self).closed == old(self).closed,
            old(self).closed ==> final(self).items@ == old(self).items@,
            !old(self).closed ==> final(self).items@ == old(self).items@.push(batch),
    {
        if !self.closed {
            self.items.push(batch);
        }
    }

    /// The consumer side: take the oldest queued batch. `None` means
    /// nothing is queued right now; together with `is_closed`, that is
    /// end of stream, otherwise the caller waits for the producer.
    pub fn dequeue(&mut self) -> (r: Option<AudioData>)
        ensures
            final(self).closed == old(self).closed,
            old(self).items@.len() == 0 ==> r is None && final(self).items@ == old(self).items@,
            old(self).items@.len() > 0 ==> r == Some(old(self).items@[0]) && final(self).items@
                == old(self).items@.subrange(1, old(self).items@.len() as int),
    {
        if self.items.len() == 0 {
            None
        } else {
            let batch = self.items.remove(0);
            proof {
                assert(self.items@ =~= old(self).items@.subrange(
                    1,
                    old(self).items@.len() as int,
                ));
            }
            Some(batch)
        }
    }

    /// Tear the queue down: whatever the driver still delivers will be
    /// dropped on enqueue. Batches already queued stay readable.
    pub fn close(&mut self)
        ensures
            final(self).closed,
            final(self).items@ == old(self).items@,
    {
        self.closed = true;
    }

    pub fn len(&self) -> (n: usize)
        ensures
            n == self.items@.len(),
    {
        self.items.len()
    }

    pub fn is_closed(&self) -> (c: bool)
        ensures
            c == self.closed,
    {
        self.closed
    }
}

} // verus!
