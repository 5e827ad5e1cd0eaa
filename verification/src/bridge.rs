//! The session registry and the synchronous facade.
//!
//! A `Bridge` owns the key→session table and the shared error log. The
//! three facade operations — `initialize`, `blocking_read`, `terminate` —
//! are written as step functions: where a caller's thread must block
//! (waiting for a chunk, or for the receiver task to exit), a step
//! returns an `Await…` outcome and the embedding runtime parks the thread
//! and calls the step again. The receiver task's own decisions are the
//! event methods `chunk_arrived`, `stream_closed`, `stream_failed` and
//! `open_failed`, invoked by the runtime as network events resolve.

use vstd::prelude::*;

use crate::error_log::ErrorLog;
use crate::session::MPSC_CHANNEL_BUFFER_CAPACITY;
use crate::session::PushOutcome;
use crate::session::Session;

verus! {

/// Result of one `terminate` step.
pub enum TermOutcome {
    /// Teardown finished (or there was nothing to tear down).
    Done(Result<(), String>),
    /// The reading end has been dropped but the receiver task has not
    /// exited yet; the caller must let it run and call `terminate` again.
    AwaitTask,
}

/// Result of one `initialize` step.
pub enum InitOutcome {
    /// The session is open (or opening it failed).
    Done(Result<(), String>),
    /// A previous session for the holder is still being torn down; the
    /// caller must let its task exit and call `initialize` again.
    AwaitTask,
}

/// Result of one `blocking_read` step.
pub enum ReadOutcome {
    /// The next chunk of the stream, in order; an empty chunk after the
    /// receiver task has exited signals end of stream.
    Data(Vec<u8>),
    /// Nothing is buffered yet and the stream is still open; the caller
    /// must block until the receiver task forwards more and step again.
    AwaitChunk,
    /// A recorded failure, or no session for the holder.
    Failed(String),
}

/// What became of one chunk the receiver task tried to forward.
pub enum ForwardOutcome {
    /// Appended to the session's queue.
    Delivered,
    /// The queue is at capacity; the task must wait for the reader.
    Full,
    /// The reading end is gone (teardown in progress): the failure is
    /// recorded and the task exits.
    Closed,
}

/// One registry slot: a holder and the session it owns.
pub struct Entry {
    pub holder: String,
    pub session: Session,
}

/// The process-wide bridge state: the guarded session table and the
/// shared error log.
pub struct Bridge {
    pub entries: Vec<Entry>,
    pub errors: ErrorLog,
}

impl Bridge {
    /// At most one slot per holder, and every session well formed.
    pub open spec fn wf(self) -> bool {
        &&& (forall|i: int, j: int|
            0 <= i < j < self.entries@.len() ==> self.entries@[i].holder@
                != self.entries@[j].holder@)
        &&& (forall|i: int|
            0 <= i < self.entries@.len() ==> (#[trigger] self.entries@[i].session).wf())
    }

    /// Some slot (live or being torn down) is keyed by `h`.
    pub open spec fn has_entry(self, h: Seq<char>) -> bool {
        exists|i: int| 0 <= i < self.entries@.len() && self.entries@[i].holder@ == h
    }

    /// The session in the slot keyed by `h`.
    pub open spec fn entry_at(self, h: Seq<char>) -> Session {
        self.entries@[choose|i: int|
            0 <= i < self.entries@.len() && self.entries@[i].holder@ == h].session
    }

    /// A session for `h` exists and its reading end has not been dropped.
    pub open spec fn live(self, h: Seq<char>) -> bool {
        self.has_entry(h) && !self.entry_at(h).detached
    }

    /// The slot at index `i` is the one `entry_at` denotes for its holder:
    /// with at most one slot per holder the accessor is unambiguous.
    pub proof fn lemma_entry_at(self, i: int)
        requires
            self.wf(),
            0 <= i < self.entries@.len(),
        ensures
            self.has_entry(self.entries@[i].holder@),
            self.entry_at(self.entries@[i].holder@) == self.entries@[i].session,
    {
        let h = self.entries@[i].holder@;
        assert(self.has_entry(h));
        let j = choose|j: int| 0 <= j < self.entries@.len() && self.entries@[j].holder@ == h;
        if i < j {
            assert(self.entries@[i].holder@ != self.entries@[j].holder@);
        } else if j < i {
            assert(self.entries@[j].holder@ != self.entries@[i].holder@);
        }
    }

    /// At most one session ever exists per holder: any two slots that
    /// share a holder are the same slot.
    pub proof fn lemma_at_most_one_session(self, i: int, j: int)
        requires
            self.wf(),
            0 <= i < self.entries@.len(),
            0 <= j < self.entries@.len(),
            self.entries@[i].holder@ == self.entries@[j].holder@,
        ensures
            i == j,
    {
        if i < j {
            assert(self.entries@[i].holder@ != self.entries@[j].holder@);
        } else if j < i {
            assert(self.entries@[j].holder@ != self.entries@[i].holder@);
        }
    }

    /// A bridge with no sessions and a clean error log.
    pub fn new() -> (r: Bridge)
        ensures
            r.wf(),
            r.entries@.len() == 0,
            r.errors.is_empty(),
            forall|h: Seq<char>| !r.has_entry(h),
    {
        Bridge { entries: Vec::new(), errors: ErrorLog::new() }
    }

    /// Index of the slot keyed by `holder`, if any.
    fn find_index(&self, holder: &String) -> (r: Option<usize>)
        requires
            self.wf(),
        ensures
            match r {
                Some(i) => 0 <= i < self.entries@.len() && self.entries@[i as int].holder@
                    == holder@ && self.has_entry(holder@) && self.entry_at(holder@)
                    == self.entries@[i as int].session,
                None => !self.has_entry(holder@),
            },
    {
        let n = self.entries.len();
        let mut i: usize = 0;
        while i < n
            invariant
                n == self.entries@.len(),
                0 <= i <= n,
                self.wf(),
                forall|k: int| 0 <= k < i ==> self.entries@[k].holder@ != holder@,
            decreases n - i,
        {
            if self.entries[i].holder == *holder {
                proof {
                    self.lemma_entry_at(i as int);
                }
                return Some(i);
            }
            i = i + 1;
        }
        None
    }

    /// Whether any slot — live or still being torn down — is keyed by
    /// `holder`; the embedding runtime checks this before it forwards a
    /// task event.
    pub fn has_session(&self, holder: &String) -> (r: bool)
        requires
            self.wf(),
        ensures
            r == self.has_entry(holder@),
    {
        match self.find_index(holder) {
            Some(_) => true,
            None => false,
        }
    }

    /// Whether a live session is registered for `holder`.
    pub fn is_initialized(&self, holder: &String) -> (r: bool)
        requires
            self.wf(),
        ensures
            r == self.live(holder@),
    {
        match self.find_index(holder) {
            Some(i) => !self.entries[i].session.detached,
            None => false,
        }
    }

    /// Two bridge states with the same slots agree on every holder's
    /// registration and session, whatever their error logs hold.
    proof fn lemma_same_entries(a: Bridge, b: Bridge)
        requires
            a.wf(),
            a.entries@ == b.entries@,
        ensures
            b.wf(),
            forall|h: Seq<char>| b.has_entry(h) == a.has_entry(h),
            forall|h: Seq<char>| a.has_entry(h) ==> b.entry_at(h) == a.entry_at(h),
    {
        assert(b.wf());
        assert forall|h: Seq<char>| b.has_entry(h) == a.has_entry(h) by {
            if a.has_entry(h) {
                let k = choose|k: int|
                    0 <= k < a.entries@.len() && a.entries@[k].holder@ == h;
                assert(b.entries@[k].holder@ == h);
            }
            if b.has_entry(h) {
                let k = choose|k: int|
                    0 <= k < b.entries@.len() && b.entries@[k].holder@ == h;
                assert(a.entries@[k].holder@ == h);
            }
        }
        assert forall|h: Seq<char>| a.has_entry(h) implies b.entry_at(h) == a.entry_at(h) by {
            let k = choose|k: int| 0 <= k < a.entries@.len() && a.entries@[k].holder@ == h;
            a.lemma_entry_at(k);
            b.lemma_entry_at(k);
        }
    }

    /// Replacing the slot at `i` (holder kept, session well formed)
    /// preserves well-formedness and every other holder's slot.
    proof fn lemma_update_frame(pre: Bridge, post: Bridge, i: int)
        requires
            pre.wf(),
            0 <= i < pre.entries@.len(),
            post.entries@.len() == pre.entries@.len(),
            forall|k: int|
                0 <= k < pre.entries@.len() && k != i ==> post.entries@[k] == pre.entries@[k],
            post.entries@[i].holder@ == pre.entries@[i].holder@,
            post.entries@[i].session.wf(),
        ensures
            post.wf(),
            post.has_entry(pre.entries@[i].holder@),
            post.entry_at(pre.entries@[i].holder@) == post.entries@[i].session,
            forall|h2: Seq<char>|
                h2 != pre.entries@[i].holder@ ==> post.has_entry(h2) == pre.has_entry(h2),
            forall|h2: Seq<char>|
                h2 != pre.entries@[i].holder@ && pre.has_entry(h2) ==> post.entry_at(h2)
                    == pre.entry_at(h2),
    {
        let h = pre.entries@[i].holder@;
        assert(forall|k: int|
            0 <= k < post.entries@.len() ==> post.entries@[k].holder@
                == pre.entries@[k].holder@);
        assert(post.wf());
        post.lemma_entry_at(i);
        assert forall|h2: Seq<char>|
            h2 != h implies post.has_entry(h2) == pre.has_entry(h2) by {
            if pre.has_entry(h2) {
                let k = choose|k: int|
                    0 <= k < pre.entries@.len() && pre.entries@[k].holder@ == h2;
                assert(post.entries@[k].holder@ == h2);
            }
            if post.has_entry(h2) {
                let k = choose|k: int|
                    0 <= k < post.entries@.len() && post.entries@[k].holder@ == h2;
                assert(pre.entries@[k].holder@ == h2);
            }
        }
        assert forall|h2: Seq<char>|
            h2 != h && pre.has_entry(h2) implies post.entry_at(h2) == pre.entry_at(h2) by {
            let k = choose|k: int|
                0 <= k < pre.entries@.len() && pre.entries@[k].holder@ == h2;
            pre.lemma_entry_at(k);
            assert(k != i);
            post.lemma_entry_at(k);
        }
    }

    /// Removing the slot at `i` unregisters its holder and preserves
    /// every other holder's slot.
    proof fn lemma_remove_frame(pre: Bridge, post: Bridge, i: int)
        requires
            pre.wf(),
            0 <= i < pre.entries@.len(),
            post.entries@ == pre.entries@.remove(i),
        ensures
            post.wf(),
            !post.has_entry(pre.entries@[i].holder@),
            forall|h2: Seq<char>|
                h2 != pre.entries@[i].holder@ ==> post.has_entry(h2) == pre.has_entry(h2),
            forall|h2: Seq<char>|
                h2 != pre.entries@[i].holder@ && pre.has_entry(h2) ==> post.entry_at(h2)
                    == pre.entry_at(h2),
    {
        let h = pre.entries@[i].holder@;
        assert(forall|k: int| 0 <= k < i ==> post.entries@[k] == pre.entries@[k]);
        assert(forall|k: int|
            i <= k < post.entries@.len() ==> post.entries@[k] == pre.entries@[k + 1]);
        assert(post.wf());
        assert forall|k: int|
            0 <= k < post.entries@.len() implies post.entries@[k].holder@ != h by {
            if post.entries@[k].holder@ == h {
                let kp = if k < i {
                    k
                } else {
                    k + 1
                };
                assert(pre.entries@[kp].holder@ == h);
                pre.lemma_at_most_one_session(kp, i);
            }
        }
        assert forall|h2: Seq<char>|
            h2 != h implies post.has_entry(h2) == pre.has_entry(h2) by {
            if pre.has_entry(h2) {
                let k = choose|k: int|
                    0 <= k < pre.entries@.len() && pre.entries@[k].holder@ == h2;
                assert(k != i);
                if k < i {
                    assert(post.entries@[k].holder@ == h2);
                } else {
                    assert(post.entries@[k - 1].holder@ == h2);
                }
            }
            if post.has_entry(h2) {
                let k = choose|k: int|
                    0 <= k < post.entries@.len() && post.entries@[k].holder@ == h2;
                if k < i {
                    assert(pre.entries@[k].holder@ == h2);
                } else {
                    assert(pre.entries@[k + 1].holder@ == h2);
                }
            }
        }
        assert forall|h2: Seq<char>|
            h2 != h && pre.has_entry(h2) implies post.entry_at(h2) == pre.entry_at(h2) by {
            let k = choose|k: int|
                0 <= k < pre.entries@.len() && pre.entries@[k].holder@ == h2;
            pre.lemma_entry_at(k);
            assert(k != i);
            if k < i {
                post.lemma_entry_at(k);
            } else {
                post.lemma_entry_at(k - 1);
            }
        }
    }

    /// Appending a slot for a holder that has none registers exactly that
    /// holder and preserves every other holder's slot.
    proof fn lemma_push_frame(pre: Bridge, post: Bridge, e: Entry)
        requires
            pre.wf(),
            !pre.has_entry(e.holder@),
            e.session.wf(),
            post.entries@ == pre.entries@.push(e),
        ensures
            post.wf(),
            post.has_entry(e.holder@),
            post.entry_at(e.holder@) == e.session,
            forall|h2: Seq<char>|
                h2 != e.holder@ ==> post.has_entry(h2) == pre.has_entry(h2),
            forall|h2: Seq<char>|
                h2 != e.holder@ && pre.has_entry(h2) ==> post.entry_at(h2) == pre.entry_at(h2),
    {
        let n = pre.entries@.len() as int;
        assert(post.entries@[n] == e);
        assert(forall|k: int| 0 <= k < n ==> post.entries@[k] == pre.entries@[k]);
        assert forall|i: int, j: int|
            0 <= i < j < post.entries@.len() implies post.entries@[i].holder@
            != post.entries@[j].holder@ by {
            if j < n {
            } else {
                assert(j == n);
                if post.entries@[i].holder@ == e.holder@ {
                    assert(pre.has_entry(e.holder@));
                }
            }
        }
        assert(post.wf());
        post.lemma_entry_at(n);
        assert forall|h2: Seq<char>|
            h2 != e.holder@ implies post.has_entry(h2) == pre.has_entry(h2) by {
            if pre.has_entry(h2) {
                let k = choose|k: int|
                    0 <= k < pre.entries@.len() && pre.entries@[k].holder@ == h2;
                assert(post.entries@[k].holder@ == h2);
            }
            if post.has_entry(h2) {
                let k = choose|k: int|
                    0 <= k < post.entries@.len() && post.entries@[k].holder@ == h2;
                assert(k != n);
                assert(pre.entries@[k].holder@ == h2);
            }
        }
        assert forall|h2: Seq<char>|
            h2 != e.holder@ && pre.has_entry(h2) implies post.entry_at(h2) == pre.entry_at(
            h2,
        ) by {
            let k = choose|k: int|
                0 <= k < pre.entries@.len() && pre.entries@[k].holder@ == h2;
            pre.lemma_entry_at(k);
            post.lemma_entry_at(k);
        }
    }

    /// Tear down the session for `holder`, if any. One call is one step:
    /// the first step drops the reading end and, while the receiver task
    /// has not exited, answers `AwaitTask`; the caller blocks until the
    /// task has run to completion and steps again. The final step removes
    /// the slot and surfaces any recorded failure. A holder with no
    /// session is a success (idempotent no-op) unless a failure is
    /// pending in the shared log.
    pub fn terminate(&mut self, holder: &String) -> (r: TermOutcome)
        requires
            old(self).wf(),
        ensures
            final(self).wf(),
            final(self).errors == old(self).errors,
            !old(self).has_entry(holder@) ==> *final(self) == *old(self),
            !old(self).has_entry(holder@) ==> (r matches TermOutcome::Done(res) && (res
                is Ok <==> old(self).errors.is_empty()) && (res matches Err(m) ==> m@
                == old(self).errors.messages()[0])),
            old(self).has_entry(holder@) && !old(self).entry_at(holder@).task_done ==> (r
                == TermOutcome::AwaitTask && final(self).has_entry(holder@)
                && final(self).entry_at(holder@) == (Session {
                detached: true,
                ..old(self).entry_at(holder@)
            }) && final(self).entries@.len() == old(self).entries@.len()),
            old(self).has_entry(holder@) && old(self).entry_at(holder@).task_done ==> (
            !final(self).has_entry(holder@) && (r matches TermOutcome::Done(res) && (res
                is Ok <==> old(self).errors.is_empty()) && (res matches Err(m) ==> m@
                == old(self).errors.messages()[0]))),
            forall|h2: Seq<char>|
                h2 != holder@ ==> final(self).has_entry(h2) == old(self).has_entry(h2),
            forall|h2: Seq<char>|
                h2 != holder@ && old(self).has_entry(h2) ==> final(self).entry_at(h2)
                    == old(self).entry_at(h2),
    {
        let ghost pre = *self;
        match self.find_index(holder) {
            None => {
                match self.errors.check_error() {
                    Ok(()) => TermOutcome::Done(Ok(())),
                    Err(m) => TermOutcome::Done(Err(m)),
                }
            },
            Some(i) => {
                if !self.entries[i].session.task_done {
                    // drop the reading end: the task will observe it as a
                    // failed forward and exit; nothing blocks here
                    let mut e = self.entries.remove(i);
                    e.session.detach();
                    self.entries.insert(i, e);
                    proof {
                        assert(self.entries@[i as int].holder@ == pre.entries@[i as int].holder@);
                        Bridge::lemma_update_frame(pre, *self, i as int);
                    }
                    TermOutcome::AwaitTask
                } else {
                    let _removed = self.entries.remove(i);
                    proof {
                        Bridge::lemma_remove_frame(pre, *self, i as int);
                    }
                    // a terminate that leaves the holder registered would
                    // be a fatal registry fault; here the fact is proved
                    assert(!self.has_entry(holder@));
                    match self.errors.check_error() {
                        Ok(()) => TermOutcome::Done(Ok(())),
                        Err(m) => TermOutcome::Done(Err(m)),
                    }
                }
            },
        }
    }

    /// Index of the slot keyed by `holder`, which must exist.
    fn lookup(&self, holder: &String) -> (i: usize)
        requires
            self.wf(),
            self.has_entry(holder@),
        ensures
            0 <= i < self.entries@.len(),
            self.entries@[i as int].holder@ == holder@,
            self.entry_at(holder@) == self.entries@[i as int].session,
    {
        let n = self.entries.len();
        let mut i: usize = 0;
        while i < n
            invariant
                n == self.entries@.len(),
                0 <= i <= n,
                self.wf(),
                self.has_entry(holder@),
                forall|k: int| 0 <= k < i ==> self.entries@[k].holder@ != holder@,
            decreases n - i,
        {
            if self.entries[i].holder == *holder {
                proof {
                    self.lemma_entry_at(i as int);
                }
                return i;
            }
            i = i + 1;
        }
        proof {
            assert(false);
        }
        0
    }

    /// Open the connection and register a fresh session; the connection
    /// outcome is handed in by the embedding runtime.
    fn connect_and_insert(&mut self, holder: &String, conn_ok: bool) -> (r: InitOutcome)
        requires
            old(self).wf(),
            !old(self).has_entry(holder@),
        ensures
            final(self).wf(),
            final(self).errors == old(self).errors,
            !conn_ok ==> (*final(self) == *old(self) && (r matches InitOutcome::Done(res)
                && res matches Err(m) && m@
                == "could not successfully connect to the blob server"@)),
            conn_ok ==> (r == InitOutcome::Done(Ok(())) && final(self).live(holder@)
                && final(self).entry_at(holder@).buffered() == Seq::<Seq<u8>>::empty()
                && final(self).entry_at(holder@).produced@ == Seq::<Seq<u8>>::empty()
                && final(self).entry_at(holder@).delivered@ == Seq::<Seq<u8>>::empty()
                && !final(self).entry_at(holder@).task_done),
            forall|h2: Seq<char>|
                h2 != holder@ ==> final(self).has_entry(h2) == old(self).has_entry(h2),
            forall|h2: Seq<char>|
                h2 != holder@ && old(self).has_entry(h2) ==> final(self).entry_at(h2)
                    == old(self).entry_at(h2),
    {
        if conn_ok {
            let ghost pre = *self;
            let e = Entry { holder: holder.clone(), session: Session::new() };
            let ghost ge = e;
            self.entries.push(e);
            proof {
                Bridge::lemma_push_frame(pre, *self, ge);
            }
            InitOutcome::Done(Ok(()))
        } else {
            InitOutcome::Done(
                Err("could not successfully connect to the blob server".to_owned()),
            )
        }
    }

    /// Open a download session for `holder`, replacing any existing one.
    /// One call is one step: while a previous session's receiver task has
    /// not exited, the step answers `AwaitTask` and the caller blocks and
    /// steps again. Once no session remains — the sequencing fault the
    /// body rules out by proof — the connection outcome decides: on failure
    /// the error is returned and no session is created; on success a
    /// fresh session with an empty queue is registered.
    pub fn initialize(&mut self, holder: &String, conn_ok: bool) -> (r: InitOutcome)
        requires
            old(self).wf(),
        ensures
            final(self).wf(),
            final(self).errors == old(self).errors,
            old(self).has_entry(holder@) && !old(self).entry_at(holder@).task_done ==> (r
                == InitOutcome::AwaitTask && final(self).has_entry(holder@)
                && final(self).entry_at(holder@) == (Session {
                detached: true,
                ..old(self).entry_at(holder@)
            })),
            old(self).has_entry(holder@) && old(self).entry_at(holder@).task_done && !old(self).errors.is_empty() ==> ((r matches InitOutcome::Done(res) && res matches Err(m)
                && m@ == old(self).errors.messages()[0]) && !final(self).has_entry(holder@)),
            (!old(self).has_entry(holder@) || (old(self).entry_at(holder@).task_done && old(self).errors.is_empty())) && !conn_ok ==> ((r matches InitOutcome::Done(res)
                && res matches Err(m) && m@
                == "could not successfully connect to the blob server"@) && !final(self).has_entry(holder@)),
            (!old(self).has_entry(holder@) || (old(self).entry_at(holder@).task_done && old(self).errors.is_empty())) && conn_ok ==> (r == InitOutcome::Done(Ok(())) && final(self).live(holder@) && final(self).entry_at(holder@).buffered() == Seq::<Seq<u8>>::empty() && final(self).entry_at(holder@).produced@ == Seq::<Seq<u8>>::empty()
                && final(self).entry_at(holder@).delivered@ == Seq::<Seq<u8>>::empty()
                && !final(self).entry_at(holder@).task_done),
            forall|h2: Seq<char>|
                h2 != holder@ ==> final(self).has_entry(h2) == old(self).has_entry(h2),
            forall|h2: Seq<char>|
                h2 != holder@ && old(self).has_entry(h2) ==> final(self).entry_at(h2)
                    == old(self).entry_at(h2),
    {
        let ghost pre = *self;
        match self.find_index(holder) {
            Some(i) => {
                if !self.entries[i].session.task_done {
                    // a session already exists: begin the terminate
                    // sequence by dropping its reading end
                    let mut e = self.entries.remove(i);
                    e.session.detach();
                    self.entries.insert(i, e);
                    proof {
                        Bridge::lemma_update_frame(pre, *self, i as int);
                    }
                    return InitOutcome::AwaitTask;
                }
                let _removed = self.entries.remove(i);
                proof {
                    Bridge::lemma_remove_frame(pre, *self, i as int);
                }
                // a session cannot be initialized twice: after the
                // teardown the holder must be gone
                assert(!self.has_entry(holder@));
                if let Err(m) = self.errors.check_error() {
                    return InitOutcome::Done(Err(m));
                }
                self.connect_and_insert(holder, conn_ok)
            },
            None => self.connect_and_insert(holder, conn_ok),
        }
    }

    /// Return the next chunk of the stream for `holder`, in order. One
    /// call is one step: the shared error log is consulted first and a
    /// recorded failure fails the read; a missing (or closing) session is
    /// a state error; an empty queue whose task still runs answers
    /// `AwaitChunk`, and the caller blocks until the task forwards more
    /// and steps again — so a failure recorded while the caller waited is
    /// observed on the retry. An empty queue whose task
    /// has exited yields an empty chunk: end of stream.
    pub fn blocking_read(&mut self, holder: &String) -> (r: ReadOutcome)
        requires
            old(self).wf(),
        ensures
            final(self).wf(),
            final(self).errors == old(self).errors,
            !old(self).errors.is_empty() ==> (*final(self) == *old(self) && (r matches
                ReadOutcome::Failed(m) && m@ == old(self).errors.messages()[0])),
            old(self).errors.is_empty() && !old(self).live(holder@) ==> (*final(self)
                == *old(self) && (r matches ReadOutcome::Failed(m) && m@ == "no session"@)),
            old(self).errors.is_empty() && old(self).live(holder@) && old(self).entry_at(holder@).buffered().len() > 0 ==> ((r matches ReadOutcome::Data(d) && d@ == old(self).entry_at(holder@).buffered()[0] && d@ == old(self).entry_at(holder@).produced@[old(self).entry_at(holder@).delivered@.len() as int]) && final(self).live(holder@)
                && final(self).entry_at(holder@).buffered() == old(self).entry_at(holder@).buffered().drop_first() && final(self).entry_at(holder@).delivered@ == old(self).entry_at(holder@).delivered@.push(old(self).entry_at(holder@).buffered()[0])
                && final(self).entry_at(holder@).produced@ == old(self).entry_at(holder@).produced@ && final(self).entry_at(holder@).task_done == old(self).entry_at(holder@).task_done),
            old(self).errors.is_empty() && old(self).live(holder@) && old(self).entry_at(holder@).buffered().len() == 0 && old(self).entry_at(holder@).task_done ==> (*final(self)
                == *old(self) && (r matches ReadOutcome::Data(d) && d@ == Seq::<u8>::empty())),
            old(self).errors.is_empty() && old(self).live(holder@) && old(self).entry_at(holder@).buffered().len() == 0 && !old(self).entry_at(holder@).task_done ==> (*final(self)
                == *old(self) && r == ReadOutcome::AwaitChunk),
            forall|h2: Seq<char>|
                h2 != holder@ ==> final(self).has_entry(h2) == old(self).has_entry(h2),
            forall|h2: Seq<char>|
                h2 != holder@ && old(self).has_entry(h2) ==> final(self).entry_at(h2)
                    == old(self).entry_at(h2),
    {
        let ghost pre = *self;
        if let Err(m) = self.errors.check_error() {
            return ReadOutcome::Failed(m);
        }
        match self.find_index(holder) {
            None => ReadOutcome::Failed("no session".to_owned()),
            Some(i) => {
                if self.entries[i].session.detached {
                    return ReadOutcome::Failed("no session".to_owned());
                }
                if self.entries[i].session.queue.len() > 0 {
                    let mut e = self.entries.remove(i);
                    let chunk = e.session.pop_chunk();
                    self.entries.insert(i, e);
                    proof {
                        Bridge::lemma_update_frame(pre, *self, i as int);
                    }
                    ReadOutcome::Data(chunk)
                } else if self.entries[i].session.task_done {
                    let empty: Vec<u8> = Vec::new();
                    proof {
                        assert(empty@ =~= Seq::<u8>::empty());
                    }
                    ReadOutcome::Data(empty)
                } else {
                    ReadOutcome::AwaitChunk
                }
            },
        }
    }

    /// The receiver task forwards one chunk it read from the stream.
    /// While a terminate is in progress the forward fails instead: the
    /// failure is recorded — expected during teardown — and the task
    /// exits. A full queue holds the task back without any effect.
    pub fn chunk_arrived(&mut self, holder: &String, data: Vec<u8>) -> (r: ForwardOutcome)
        requires
            old(self).wf(),
            old(self).has_entry(holder@),
            !old(self).entry_at(holder@).task_done,
        ensures
            final(self).wf(),
            final(self).has_entry(holder@),
            old(self).entry_at(holder@).detached ==> (r == ForwardOutcome::Closed && final(self).entry_at(holder@) == (Session {
                task_done: true,
                ..old(self).entry_at(holder@)
            }) && final(self).errors.messages() == old(self).errors.messages().push("channel closed"@)),
            !old(self).entry_at(holder@).detached && old(self).entry_at(holder@).buffered().len() >= MPSC_CHANNEL_BUFFER_CAPACITY ==> (r == ForwardOutcome::Full
                && *final(self) == *old(self)),
            !old(self).entry_at(holder@).detached && old(self).entry_at(holder@).buffered().len() < MPSC_CHANNEL_BUFFER_CAPACITY ==> (r == ForwardOutcome::Delivered
                && final(self).errors == old(self).errors && final(self).entry_at(holder@).buffered() == old(self).entry_at(holder@).buffered().push(data@) && final(self).entry_at(holder@).produced@ == old(self).entry_at(holder@).produced@.push(data@)
                && final(self).entry_at(holder@).delivered@ == old(self).entry_at(holder@).delivered@ && !final(self).entry_at(holder@).task_done && !final(self).entry_at(holder@).detached),
            forall|h2: Seq<char>|
                h2 != holder@ ==> final(self).has_entry(h2) == old(self).has_entry(h2),
            forall|h2: Seq<char>|
                h2 != holder@ && old(self).has_entry(h2) ==> final(self).entry_at(h2)
                    == old(self).entry_at(h2),
    {
        let ghost pre = *self;
        let i = self.lookup(holder);
        if self.entries[i].session.detached {
            let mut e = self.entries.remove(i);
            e.session.finish();
            self.entries.insert(i, e);
            let ghost mid = *self;
            proof {
                Bridge::lemma_update_frame(pre, mid, i as int);
            }
            self.errors.report_error("channel closed".to_owned(), Some("get".to_owned()));
            proof {
                Bridge::lemma_same_entries(mid, *self);
            }
            ForwardOutcome::Closed
        } else if self.entries[i].session.queue.len() >= MPSC_CHANNEL_BUFFER_CAPACITY {
            ForwardOutcome::Full
        } else {
            let mut e = self.entries.remove(i);
            let outcome = e.session.push_chunk(data);
            self.entries.insert(i, e);
            proof {
                Bridge::lemma_update_frame(pre, *self, i as int);
            }
            proof {
                assert(outcome == PushOutcome::Delivered);
            }
            ForwardOutcome::Delivered
        }
    }

    /// The receiver task observed the remote side close the stream
    /// cleanly: the task exits without recording anything, and the
    /// drained queue becomes the end-of-stream signal for the reader.
    pub fn stream_closed(&mut self, holder: &String)
        requires
            old(self).wf(),
            old(self).has_entry(holder@),
            !old(self).entry_at(holder@).task_done,
        ensures
            final(self).wf(),
            final(self).errors == old(self).errors,
            final(self).has_entry(holder@),
            final(self).entry_at(holder@) == (Session {
                task_done: true,
                ..old(self).entry_at(holder@)
            }),
            forall|h2: Seq<char>|
                h2 != holder@ ==> final(self).has_entry(h2) == old(self).has_entry(h2),
            forall|h2: Seq<char>|
                h2 != holder@ && old(self).has_entry(h2) ==> final(self).entry_at(h2)
                    == old(self).entry_at(h2),
    {
        let ghost pre = *self;
        let i = self.lookup(holder);
        let mut e = self.entries.remove(i);
        e.session.finish();
        self.entries.insert(i, e);
        proof {
            Bridge::lemma_update_frame(pre, *self, i as int);
        }
    }

    /// The receiver task hit a protocol or transport failure mid-stream:
    /// the failure is recorded and the task exits.
    pub fn stream_failed(&mut self, holder: &String, message: String)
        requires
            old(self).wf(),
            old(self).has_entry(holder@),
            !old(self).entry_at(holder@).task_done,
        ensures
            final(self).wf(),
            final(self).errors.messages() == old(self).errors.messages().push(message@),
            final(self).has_entry(holder@),
            final(self).entry_at(holder@) == (Session {
                task_done: true,
                ..old(self).entry_at(holder@)
            }),
            forall|h2: Seq<char>|
                h2 != holder@ ==> final(self).has_entry(h2) == old(self).has_entry(h2),
            forall|h2: Seq<char>|
                h2 != holder@ && old(self).has_entry(h2) ==> final(self).entry_at(h2)
                    == old(self).entry_at(h2),
    {
        let ghost pre = *self;
        let i = self.lookup(holder);
        let mut e = self.entries.remove(i);
        e.session.finish();
        self.entries.insert(i, e);
        let ghost mid = *self;
        proof {
            Bridge::lemma_update_frame(pre, mid, i as int);
        }
        self.errors.report_error(message, Some("get".to_owned()));
        proof {
            Bridge::lemma_same_entries(mid, *self);
        }
    }

    /// The receiver task could not establish the streaming call at all:
    /// a connection failure is recorded and the task exits with no chunk
    /// ever delivered.
    pub fn open_failed(&mut self, holder: &String)
        requires
            old(self).wf(),
            old(self).has_entry(holder@),
            !old(self).entry_at(holder@).task_done,
        ensures
            final(self).wf(),
            final(self).errors.messages() == old(self).errors.messages().push("couldn't perform grpc get operation"@),
            final(self).has_entry(holder@),
            final(self).entry_at(holder@) == (Session {
                task_done: true,
                ..old(self).entry_at(holder@)
            }),
            forall|h2: Seq<char>|
                h2 != holder@ ==> final(self).has_entry(h2) == old(self).has_entry(h2),
            forall|h2: Seq<char>|
                h2 != holder@ && old(self).has_entry(h2) ==> final(self).entry_at(h2)
                    == old(self).entry_at(h2),
    {
        self.stream_failed(holder, "couldn't perform grpc get operation".to_owned());
    }

    /// For any holder, at most one session exists at any instant: any two
    /// registry slots keyed by the same holder are the same slot. A
    /// successful `initialize` registers the holder, and only `terminate`
    /// (or the teardown a replacing `initialize` performs) removes it.
    pub proof fn lemma_one_session_per_holder(self, h: Seq<char>)
        requires
            self.wf(),
        ensures
            forall|i: int, j: int|
                (0 <= i < self.entries@.len() && 0 <= j < self.entries@.len()
                    && self.entries@[i].holder@ == h && self.entries@[j].holder@ == h) ==> i
                    == j,
    {
        assert forall|i: int, j: int|
            (0 <= i < self.entries@.len() && 0 <= j < self.entries@.len()
                && self.entries@[i].holder@ == h && self.entries@[j].holder@ == h) implies i
            == j by {
            self.lemma_at_most_one_session(i, j);
        }
    }

    /// Sessions never cross-deliver: every chunk a read for `h` can hand
    /// out — each element of `h`'s queue — is the next unread element of
    /// `h`'s own produced history, so reading one holder never yields a
    /// chunk forwarded for another.
    pub proof fn lemma_reads_deliver_own_stream(self, h: Seq<char>)
        requires
            self.wf(),
            self.has_entry(h),
        ensures
            forall|k: int|
                0 <= k < self.entry_at(h).buffered().len() ==> self.entry_at(h).buffered()[k]
                    == self.entry_at(h).produced@[self.entry_at(h).delivered@.len() + k],
    {
        let i = choose|i: int|
            0 <= i < self.entries@.len() && self.entries@[i].holder@ == h;
        assert(self.entries@[i].session.wf());
    }

    /// Record one failure in the shared log; the receiver task and the
    /// embedding runtime use this for failures they detect themselves.
    pub fn report_error(&mut self, message: String, context: Option<String>)
        requires
            old(self).wf(),
        ensures
            final(self).wf(),
            final(self).entries == old(self).entries,
            final(self).errors.messages() == old(self).errors.messages().push(message@),
    {
        self.errors.report_error(message, context);
    }
}

} // verus!
