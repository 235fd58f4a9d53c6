//! The queue between a finished turn and its durable write.
//!
//! Relays put finished records in; one consumer takes them out, oldest
//! first, and writes them.  The queue is bounded and never makes a relay
//! wait: a record that finds it full is turned away and the caller is told.

use crate::chat_stream::{ChatRecord, ChatRecordView};
use std::collections::VecDeque;
use vstd::prelude::*;

verus! {

/// How many records wait at most, unless the queue is made with another
/// bound.
pub const DEFAULT_QUEUE_CAPACITY: usize = 100;

/// Why a record was not taken in.
#[derive(Clone, Copy, Debug, PartialEq, Eq, Structural)]
pub enum PersistenceDropped {
    /// The queue held as many records as it may.
    QueueFull,
    /// The queue was shut down and takes no more.
    ShutDown,
}

/// What the consumer does next.
#[derive(Debug, PartialEq, Eq)]
pub enum ConsumerStep {
    /// Write this record, the oldest that waited; it has left the queue.
    /// Whether the write succeeds or fails, the consumer asks again.
    Write(ChatRecord),
    /// Nothing waits; ask again once a record was submitted or the queue
    /// was shut down.
    Wait,
    /// The queue was shut down and is drained: the consumer ends.
    Stop,
}

/// A [`ConsumerStep`] as contracts see it.
pub enum ConsumerStepView {
    Write(ChatRecordView),
    Wait,
    Stop,
}

impl View for ConsumerStep {
    type V = ConsumerStepView;

    open spec fn view(&self) -> ConsumerStepView {
        match self {
            ConsumerStep::Write(record) => ConsumerStepView::Write(record@),
            ConsumerStep::Wait => ConsumerStepView::Wait,
            ConsumerStep::Stop => ConsumerStepView::Stop,
        }
    }
}

/// A bounded first-in, first-out queue of records that wait to be written.
#[derive(Debug)]
pub struct PersistenceQueue {
    jobs: VecDeque<ChatRecord>,
    capacity: usize,
    closed: bool,
}

impl View for PersistenceQueue {
    type V = Seq<ChatRecordView>;

    /// The records that wait, oldest first.
    closed spec fn view(&self) -> Seq<ChatRecordView> {
        self.jobs@.map_values(|job: ChatRecord| job@)
    }
}

impl PersistenceQueue {
    #[verifier::type_invariant]
    spec fn bounded(&self) -> bool {
        self.jobs@.len() <= self.capacity
    }

    /// The most records that wait at once.
    pub closed spec fn spec_capacity(&self) -> nat {
        self.capacity as nat
    }

    /// Whether the queue was shut down.
    pub closed spec fn spec_is_shut_down(&self) -> bool {
        self.closed
    }

    /// How the queue answers a record handed to it now: it takes it in
    /// while it is open and has room, and says why where it does not.
    pub open spec fn admission(&self) -> Result<(), PersistenceDropped> {
        if self.spec_is_shut_down() {
            Err(PersistenceDropped::ShutDown)
        } else if self@.len() >= self.spec_capacity() {
            Err(PersistenceDropped::QueueFull)
        } else {
            Ok(())
        }
    }

    /// An empty, open queue for up to `capacity` waiting records.
    pub fn new(capacity: usize) -> (queue: Self)
        ensures
            queue@ == Seq::<ChatRecordView>::empty(),
            queue.spec_capacity() == capacity,
            !queue.spec_is_shut_down(),
    {
        Self { jobs: VecDeque::new(), capacity, closed: false }
    }

    /// The most records that wait at once.
    pub fn capacity(&self) -> (capacity: usize)
        ensures
            capacity == self.spec_capacity(),
    {
        self.capacity
    }

    /// How many records wait now.
    pub fn len(&self) -> (len: usize)
        ensures
            len == self@.len(),
            len <= self.spec_capacity(),
    {
        proof {
            use_type_invariant(self);
        }
        self.jobs.len()
    }

    /// Whether the queue was shut down.
    pub fn is_shut_down(&self) -> (closed: bool)
        ensures
            closed == self.spec_is_shut_down(),
    {
        self.closed
    }

    /// Hands `job` to the queue without ever waiting.  An open queue with
    /// room takes it in behind the records that wait; otherwise the job is
    /// dropped, the queue stays as it was, and the reason comes back.
    pub fn submit(&mut self, job: ChatRecord) -> (taken: Result<(), PersistenceDropped>)
        ensures
            final(self).spec_capacity() == old(self).spec_capacity(),
            final(self).spec_is_shut_down() == old(self).spec_is_shut_down(),
            taken == old(self).admission(),
            final(self)@ == if taken is Ok {
                old(self)@.push(job@)
            } else {
                old(self)@
            },
    {
        proof {
            use_type_invariant(&*self);
        }
        if self.closed {
            return Err(PersistenceDropped::ShutDown);
        }
        if self.jobs.len() >= self.capacity {
            return Err(PersistenceDropped::QueueFull);
        }
        let mut jobs = VecDeque::new();
        std::mem::swap(&mut jobs, &mut self.jobs);
        let ghost before = jobs@;
        jobs.push_back(job);
        assert(jobs@.map_values(|job: ChatRecord| job@) =~= before.map_values(
            |job: ChatRecord| job@,
        ).push(job@));
        self.jobs = jobs;
        Ok(())
    }

    /// Tells the consumer what to do next, and takes the record to write
    /// out of the queue.  Records leave in the order in which they were
    /// taken in; a queue that was shut down is drained before the consumer
    /// is told to stop.
    pub fn next_step(&mut self) -> (step: ConsumerStep)
        ensures
            final(self).spec_capacity() == old(self).spec_capacity(),
            final(self).spec_is_shut_down() == old(self).spec_is_shut_down(),
            step@ == if old(self)@.len() > 0 {
                ConsumerStepView::Write(old(self)@[0])
            } else if old(self).spec_is_shut_down() {
                ConsumerStepView::Stop
            } else {
                ConsumerStepView::Wait
            },
            final(self)@ == if old(self)@.len() > 0 {
                old(self)@.drop_first()
            } else {
                old(self)@
            },
    {
        proof {
            use_type_invariant(&*self);
        }
        let mut jobs = VecDeque::new();
        std::mem::swap(&mut jobs, &mut self.jobs);
        let ghost before = jobs@;
        let front = jobs.pop_front();
        assert(jobs@.map_values(|job: ChatRecord| job@) =~= if before.len() > 0 {
            before.map_values(|job: ChatRecord| job@).drop_first()
        } else {
            before.map_values(|job: ChatRecord| job@)
        });
        self.jobs = jobs;
        match front {
            Some(job) => ConsumerStep::Write(job),
            None => if self.closed {
                ConsumerStep::Stop
            } else {
                ConsumerStep::Wait
            },
        }
    }

    /// Shuts the queue down: it takes no more records, and the consumer is
    /// told to stop once those that wait have been written.
    pub fn shut_down(&mut self)
        ensures
            final(self).spec_is_shut_down(),
            final(self)@ == old(self)@,
            final(self).spec_capacity() == old(self).spec_capacity(),
    {
        proof {
            use_type_invariant(&*self);
        }
        self.closed = true;
    }
}

} // verus!
