//! A lock that keeps its own queue of waiting threads in its word
//!
//! The word holds a lock bit, a queue lock bit, and the record of the first
//! waiting thread. The queue itself lists the waiting threads in order.
use vstd::prelude::*;
use crate::exclusive_lock::RawExclusiveLock;

verus! {

/// The lock bit of a [`WordLock`] word
pub const LOCK_BIT: usize = 0b01;

/// The queue lock bit of a [`WordLock`] word: the queue is being changed
pub const QUEUE_LOCK_BIT: usize = 0b10;

/// The bits of a [`WordLock`] word that hold the first waiting thread
pub const QUEUE_MASK: usize = !0b11;

/// The bit facts about word lock words that the operations rely on: `s` is a
/// word, `h` the record of a waiting thread
pub proof fn lemma_word_lock_bits(s: usize, h: usize)
    by (bit_vector)
    ensures
        (s | LOCK_BIT) & LOCK_BIT != 0usize,
        (s | LOCK_BIT) & QUEUE_MASK == s & QUEUE_MASK,
        (s | LOCK_BIT) & QUEUE_LOCK_BIT == s & QUEUE_LOCK_BIT,
        (s & QUEUE_MASK) & LOCK_BIT == 0usize,
        (s & QUEUE_MASK) & QUEUE_LOCK_BIT == 0usize,
        (s & QUEUE_MASK) & QUEUE_MASK == s & QUEUE_MASK,
        s == LOCK_BIT ==> s & QUEUE_MASK == 0usize,
        h & 3usize == 0usize ==> ((s & (LOCK_BIT | QUEUE_LOCK_BIT)) | h) & QUEUE_MASK == h,
        h & 3usize == 0usize ==> (((s & (LOCK_BIT | QUEUE_LOCK_BIT)) | h) & LOCK_BIT) == (s & LOCK_BIT),
        h & 3usize == 0usize ==> (((s & (LOCK_BIT | QUEUE_LOCK_BIT)) | h) & QUEUE_LOCK_BIT) == (s & QUEUE_LOCK_BIT),
        0usize & LOCK_BIT == 0usize,
        0usize & QUEUE_LOCK_BIT == 0usize,
        0usize & QUEUE_MASK == 0usize,
        (s & QUEUE_LOCK_BIT == 0usize && s & LOCK_BIT != 0usize) ==> (s & QUEUE_MASK) | LOCK_BIT == s,
{
}

/// A waiting thread's record: a nonzero address aligned to 4 bytes
pub open spec fn valid_waiter(w: usize) -> bool {
    w != 0 && w % 4 == 0
}

/// A lock word with a queue of waiting threads
pub struct WordLock {
    state: usize,
    queue: Vec<usize>,
}

impl WordLock {
    /// The lock word
    pub closed spec fn word(&self) -> usize {
        self.state
    }

    /// The waiting threads, first one first
    pub closed spec fn queue_view(&self) -> Seq<usize> {
        self.queue@
    }

    /// Whether the lock is held
    pub open spec fn locked(&self) -> bool {
        self.word() & LOCK_BIT != 0
    }

    /// The first waiting thread as the word records it, or 0
    pub open spec fn head(&self) -> usize {
        self.word() & QUEUE_MASK
    }

    /// The word names the first thread of the queue, the queue is not being
    /// changed, and the queue holds distinct valid records
    pub open spec fn wf(&self) -> bool {
        &&& self.word() & QUEUE_LOCK_BIT == 0
        &&& self.head() == (if self.queue_view().len() == 0 { 0 } else { self.queue_view()[0] })
        &&& forall|i: int| 0 <= i < self.queue_view().len() ==> valid_waiter(#[trigger] self.queue_view()[i])
        &&& self.queue_view().no_duplicates()
    }

    /// Create a new word lock
    pub fn new() -> (r: Self)
        ensures
            r.wf(),
            r.word() == 0,
            r.queue_view().len() == 0,
    {
        proof {
            lemma_word_lock_bits(0usize, 0usize);
        }
        WordLock { state: 0, queue: Vec::new() }
    }

    /// The word a successful acquisition swaps in for `state`, if the lock is free
    pub fn try_lock_word(state: usize) -> (r: Option<usize>)
        ensures
            r is Some <==> state & LOCK_BIT == 0,
            r matches Some(n) ==> n == state | LOCK_BIT,
    {
        if state & LOCK_BIT == 0 {
            Some(state | LOCK_BIT)
        } else {
            None
        }
    }

    /// The word the fast unlock path swaps in for `state`: a held lock with
    /// nobody waiting
    pub fn unlock_fast_word(state: usize) -> (r: Option<usize>)
        ensures
            r is Some <==> state == LOCK_BIT,
            r matches Some(n) ==> n == 0,
    {
        if state == LOCK_BIT {
            Some(0)
        } else {
            None
        }
    }

    /// The word that takes the queue lock, if it is free
    pub fn lock_queue_word(state: usize) -> (r: Option<usize>)
        ensures
            r is Some <==> state & QUEUE_LOCK_BIT == 0,
            r matches Some(n) ==> n == state | QUEUE_LOCK_BIT,
    {
        if state & QUEUE_LOCK_BIT == 0 {
            Some(state | QUEUE_LOCK_BIT)
        } else {
            None
        }
    }

    /// The word after the slow unlock path: the lock and queue lock bits are
    /// cleared and the first waiting thread, which is the one woken, stays
    /// recorded
    pub fn unlock_slow_word(state: usize) -> (r: (usize, Option<usize>))
        ensures
            r.0 == state & QUEUE_MASK,
            r.1 is None <==> state & QUEUE_MASK == 0,
            r.1 matches Some(h) ==> h == state & QUEUE_MASK,
    {
        let head: usize = state & QUEUE_MASK;
        if head == 0 {
            (0, None)
        } else {
            (head, Some(head))
        }
    }

    /// One step of the first phase of the locking slow path: take the lock if
    /// it is free, spin while nobody waits and the spin budget lasts, and join
    /// the queue otherwise
    pub fn lock_slow_step(state: usize, spin_exhausted: bool) -> (r: WordLockStep)
        ensures
            state & LOCK_BIT == 0 ==> r == WordLockStep::Acquire(state | LOCK_BIT),
            state & LOCK_BIT != 0 && (state & QUEUE_MASK != 0 || spin_exhausted) ==> r is Enqueue,
            state & LOCK_BIT != 0 && state & QUEUE_MASK == 0 && !spin_exhausted ==> r is Spin,
    {
        if state & LOCK_BIT == 0 {
            WordLockStep::Acquire(state | LOCK_BIT)
        } else if state & QUEUE_MASK != 0 || spin_exhausted {
            WordLockStep::Enqueue
        } else {
            WordLockStep::Spin
        }
    }

    /// Releases the lock through the slow path, returning the waiting thread
    /// to wake, if any
    pub fn unlock_slow(&mut self) -> (r: Option<usize>)
        requires
            old(self).wf(),
        ensures
            final(self).wf(),
            !final(self).locked(),
            final(self).queue_view() == old(self).queue_view(),
            r is None <==> old(self).queue_view().len() == 0,
            r matches Some(h) ==> h == old(self).queue_view()[0],
    {
        let state: usize = self.state;
        let (n, wake) = Self::unlock_slow_word(state);
        self.state = n;
        proof {
            lemma_word_lock_bits(state, 0usize);
        }
        wake
    }

    /// Adds a waiting thread at the end of the queue
    pub fn enqueue(&mut self, waiter: usize)
        requires
            old(self).wf(),
            valid_waiter(waiter),
            !old(self).queue_view().contains(waiter),
        ensures
            final(self).wf(),
            final(self).queue_view() == old(self).queue_view().push(waiter),
            final(self).locked() == old(self).locked(),
    {
        let state: usize = self.state;
        proof {
            lemma_word_lock_bits(state, waiter);
            assert(waiter & 3usize == 0usize) by {
                lemma_aligned(waiter);
            }
        }
        if state & QUEUE_MASK == 0 {
            self.state = (state & (LOCK_BIT | QUEUE_LOCK_BIT)) | waiter;
        }
        self.queue.push(waiter);
        proof {
            assert(self.queue@ == old(self).queue@.push(waiter));
            assert forall|i: int, j: int| 0 <= i < j < self.queue@.len() implies self.queue@[i] != self.queue@[j] by {
                if j == self.queue@.len() - 1 {
                    assert(old(self).queue@[i] == self.queue@[i]);
                }
            }
        }
    }

    /// Removes a waiting thread from the queue, which it leaves once it holds
    /// the lock or gives up waiting
    pub fn remove_waiter(&mut self, waiter: usize)
        requires
            old(self).wf(),
            old(self).queue_view().contains(waiter),
        ensures
            final(self).wf(),
            final(self).queue_view() == old(self).queue_view().remove(old(self).queue_view().index_of(waiter)),
            final(self).locked() == old(self).locked(),
    {
        let mut i: usize = 0;
        while self.queue[i] != waiter
            invariant
                0 <= i < self.queue@.len(),
                self.queue@.len() == self.queue.len(),
                self.queue@.contains(waiter),
                forall|j: int| 0 <= j < i ==> self.queue@[j] != waiter,
            decreases self.queue@.len() - i,
        {
            i = i + 1;
            proof {
                if i >= self.queue@.len() {
                    let k = choose|k: int| 0 <= k < self.queue@.len() && self.queue@[k] == waiter;
                    assert(false);
                }
            }
        }
        proof {
            self.queue@.index_of_first_ensures(waiter);
            assert(self.queue@.index_of(waiter) == i) by {
                let k = self.queue@.index_of(waiter);
                assert(self.queue@[k] == waiter);
                if k < i {
                    assert(false);
                }
                if k > i {
                    assert(self.queue@[i as int] == waiter);
                    assert(false);
                }
            }
        }
        let state: usize = self.state;
        self.queue.remove(i);
        if i == 0 {
            let next: usize = if self.queue.len() > 0 { self.queue[0] } else { 0 };
            proof {
                lemma_word_lock_bits(state, next);
                if self.queue@.len() > 0 {
                    assert(self.queue@[0] == old(self).queue@[1]);
                    assert(valid_waiter(old(self).queue@[1]));
                }
                lemma_aligned(next);
            }
            self.state = (state & (LOCK_BIT | QUEUE_LOCK_BIT)) | next;
        }
        proof {
            let q = old(self).queue@;
            assert(self.queue@ == q.remove(i as int));
            assert forall|a: int| 0 <= a < self.queue@.len() implies valid_waiter(#[trigger] self.queue@[a]) by {
                if a < i {
                    assert(self.queue@[a] == q[a]);
                } else {
                    assert(self.queue@[a] == q[a + 1]);
                }
            }
            assert forall|a: int, b: int| 0 <= a < b < self.queue@.len() implies self.queue@[a] != self.queue@[b] by {
                let a2 = if a < i { a } else { a + 1 };
                let b2 = if b < i { b } else { b + 1 };
                assert(self.queue@[a] == q[a2]);
                assert(self.queue@[b] == q[b2]);
            }
            if i > 0 {
                assert(self.queue@[0] == q[0]);
            }
        }
    }
}

/// An aligned record has its two low bits clear
pub proof fn lemma_aligned(w: usize)
    requires
        w % 4 == 0,
    ensures
        w & 3usize == 0usize,
{
    assert(w & 3usize == w % 4) by (bit_vector);
}

/// One step of the first phase of the word lock's slow path
pub enum WordLockStep {
    /// The lock is free: compare-and-swap the observed word for this one
    Acquire(usize),
    /// Nobody waits yet: spin once more
    Spin,
    /// Join the queue of waiting threads
    Enqueue,
}

impl crate::Init for WordLock {
    open spec fn is_init(&self) -> bool {
        self.wf() && self.word() == 0 && self.queue_view().len() == 0
    }

    fn init() -> (r: Self) {
        Self::new()
    }
}

impl crate::RawLockInfo for WordLock {
    type ExclusiveGuardTraits = ();
    type ShareGuardTraits = ();
}

impl crate::mutex::RawMutex for WordLock {
    proof fn lemma_init_available(&self) {
        lemma_word_lock_bits(0usize, 0usize);
    }
}

impl RawExclusiveLock for WordLock {
    open spec fn exc_wf(&self) -> bool {
        self.wf()
    }

    open spec fn exc_count(&self) -> nat {
        if self.locked() { 1 } else { 0 }
    }

    open spec fn exc_available(&self) -> bool {
        !self.locked()
    }

    proof fn lemma_available_unheld(&self) {
    }

    /// Bumping leaves the lock word as it is
    open spec fn exc_bumped(&self) -> Self {
        *self
    }

    fn exc_lock(&mut self)
        ensures
            final(self).queue_view() == old(self).queue_view(),
    {
        let ok = self.exc_try_lock();
    }

    fn exc_try_lock(&mut self) -> (r: bool)
        ensures
            final(self).queue_view() == old(self).queue_view(),
    {
        let state: usize = self.state;
        proof {
            lemma_word_lock_bits(state, 0usize);
        }
        match Self::try_lock_word(state) {
            Some(n) => {
                self.state = n;
                true
            },
            None => false,
        }
    }

    fn exc_unlock(&mut self)
        ensures
            final(self).queue_view() == old(self).queue_view(),
    {
        let state: usize = self.state;
        proof {
            lemma_word_lock_bits(state, 0usize);
        }
        match Self::unlock_fast_word(state) {
            Some(n) => {
                self.state = n;
            },
            None => {
                let woken = self.unlock_slow();
            },
        }
    }

    /// When threads wait, the lock is released to the first of them through
    /// the slow path and taken back, which leaves the word as it was
    fn exc_bump(&mut self)
        ensures
            final(self).queue_view() == old(self).queue_view(),
    {
        let state: usize = self.state;
        proof {
            lemma_word_lock_bits(state, 0usize);
        }
        if state & QUEUE_MASK != 0 {
            let (released, _woken) = Self::unlock_slow_word(state);
            match Self::try_lock_word(released) {
                Some(n) => {
                    self.state = n;
                },
                None => {},
            }
        }
    }
}

/// A waiting thread that joins the queue and leaves it again leaves the queue
/// as it was
pub proof fn join_then_leave_restores_queue(q: Seq<usize>, w: usize)
    requires
        !q.contains(w),
    ensures
        q.push(w).remove(q.push(w).index_of(w)) == q,
{
    let p = q.push(w);
    p.index_of_first_ensures(w);
    assert(p[q.len() as int] == w);
    let k = p.index_of(w);
    assert(k == q.len()) by {
        if k < q.len() {
            assert(q[k] == w);
            assert(q.contains(w));
        }
    }
    assert(p.remove(k) =~= q);
}

} // verus!
