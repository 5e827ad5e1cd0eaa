//! One download session: the bounded FIFO queue between a background
//! receiver task and the synchronous reader, together with the task's
//! lifecycle flags.
//!
//! The ghost fields record the full history of the stream: every chunk the
//! task ever forwarded, and every chunk the reader has already taken. The
//! well-formedness invariant ties them together, which is what makes the
//! ordered, gap-free delivery of the stream provable.

use vstd::prelude::*;

verus! {

/// Capacity of the bounded queue between the receiver task and the
/// reader; forwarding suspends (backpressure) once this many chunks are
/// buffered unread.
pub const MPSC_CHANNEL_BUFFER_CAPACITY: usize = 10;

/// What became of one chunk the receiver task tried to forward.
#[derive(PartialEq, Eq, Structural)]
pub enum PushOutcome {
    /// The chunk was appended to the session's queue.
    Delivered,
    /// The queue is at capacity; nothing changed and the task must wait
    /// for the reader before trying again.
    Full,
}

/// The state of one holder's in-progress download.
pub struct Session {
    /// Chunks forwarded by the receiver task and not yet read, oldest first.
    pub queue: Vec<Vec<u8>>,
    /// The receiver task has exited: clean end of stream, stream error,
    /// or a failed forward during teardown.
    pub task_done: bool,
    /// The reading end has been dropped by a terminate in progress;
    /// every further forward fails.
    pub detached: bool,
    /// History: every chunk the receiver task forwarded, in order.
    pub produced: Ghost<Seq<Seq<u8>>>,
    /// History: every chunk already handed to the reader, in order.
    pub delivered: Ghost<Seq<Seq<u8>>>,
}

impl Session {
    /// The buffered chunks as mathematical sequences.
    pub open spec fn buffered(self) -> Seq<Seq<u8>> {
        self.queue.deep_view()
    }

    /// The forwarded stream splits exactly into what was already read and
    /// what still waits in the queue, and the queue respects its bound.
    pub open spec fn wf(self) -> bool {
        &&& self.produced@ == self.delivered@ + self.buffered()
        &&& self.queue@.len() <= MPSC_CHANNEL_BUFFER_CAPACITY
    }

    /// A fresh session: nothing produced, nothing delivered, task running.
    pub fn new() -> (r: Session)
        ensures
            r.wf(),
            r.buffered() == Seq::<Seq<u8>>::empty(),
            r.produced@ == Seq::<Seq<u8>>::empty(),
            r.delivered@ == Seq::<Seq<u8>>::empty(),
            !r.task_done,
            !r.detached,
    {
        let r = Session {
            queue: Vec::new(),
            task_done: false,
            detached: false,
            produced: Ghost(Seq::empty()),
            delivered: Ghost(Seq::empty()),
        };
        proof {
            assert(r.buffered() =~= Seq::<Seq<u8>>::empty());
            assert(r.produced@ =~= r.delivered@ + r.buffered());
        }
        r
    }

    /// Forward one chunk into the queue, or report that the queue is at
    /// capacity. Only called while the task is still running and the
    /// reader is still attached.
    pub fn push_chunk(&mut self, data: Vec<u8>) -> (r: PushOutcome)
        requires
            old(self).wf(),
            !old(self).task_done,
            !old(self).detached,
        ensures
            final(self).wf(),
            !final(self).task_done,
            !final(self).detached,
            final(self).delivered@ == old(self).delivered@,
            r == PushOutcome::Full ==> *final(self) == *old(self),
            r == PushOutcome::Full ==> old(self).queue@.len()
                == MPSC_CHANNEL_BUFFER_CAPACITY,
            r == PushOutcome::Delivered ==> {
                &&& final(self).buffered() == old(self).buffered().push(data@)
                &&& final(self).produced@ == old(self).produced@.push(data@)
            },
    {
        if self.queue.len() == MPSC_CHANNEL_BUFFER_CAPACITY {
            PushOutcome::Full
        } else {
            let ghost prior = self.queue.deep_view();
            let ghost d = data@;
            self.queue.push(data);
            proof {
                self.produced@ = self.produced@.push(d);
                assert(self.buffered() =~~= prior.push(d));
                assert(self.produced@ =~~= self.delivered@ + self.buffered());
            }
            PushOutcome::Delivered
        }
    }

    /// Hand the oldest buffered chunk to the reader.
    pub fn pop_chunk(&mut self) -> (r: Vec<u8>)
        requires
            old(self).wf(),
            old(self).queue@.len() > 0,
        ensures
            final(self).wf(),
            r@ == old(self).buffered()[0],
            final(self).buffered() == old(self).buffered().drop_first(),
            final(self).delivered@ == old(self).delivered@.push(r@),
            final(self).produced@ == old(self).produced@,
            final(self).task_done == old(self).task_done,
            final(self).detached == old(self).detached,
            // the chunk handed out is the next unread piece of the stream
            r@ == old(self).produced@[old(self).delivered@.len() as int],
    {
        let ghost prior = self.queue.deep_view();
        let chunk = self.queue.remove(0);
        proof {
            assert(chunk@ =~= prior[0]);
            self.delivered@ = self.delivered@.push(chunk@);
            assert(self.buffered() =~~= prior.drop_first());
            assert(self.produced@ =~~= self.delivered@ + self.buffered());
        }
        chunk
    }

    /// The chunks already handed to the reader, followed by the chunks
    /// still buffered, are exactly the chunks the receiver task forwarded,
    /// in order — and so are their bytes: successive reads reassemble the
    /// remote stream with no gap, duplicate or reordering.
    pub proof fn lemma_stream_reassembly(self)
        requires
            self.wf(),
        ensures
            self.delivered@ + self.buffered() == self.produced@,
            self.delivered@.flatten() + self.buffered().flatten() == self.produced@.flatten(),
    {
        vstd::seq_lib::lemma_flatten_concat(self.delivered@, self.buffered());
    }

    /// Note that the receiver task has exited.
    pub fn finish(&mut self)
        ensures
            *final(self) == (Session { task_done: true, ..*old(self) }),
    {
        self.task_done = true;
    }

    /// Drop the reading end: a terminate has begun; the task's next
    /// forward will fail.
    pub fn detach(&mut self)
        ensures
            *final(self) == (Session { detached: true, ..*old(self) }),
    {
        self.detached = true;
    }
}

} // verus!
