# locker

Lock primitives — mutexes, reentrant mutexes, reader-writer locks, `Once`
cells, condition variables and their asynchronous counterparts — whose
behaviour is proved with Verus.

Each lock keeps its state in a plain lock word. Its operations are the
transitions that word goes through, and each operation's contract says which
transition it makes; the slow paths that wait for other threads are split into
decisions on the observed word (in `src/`) and the waiting itself, which the
library does not model. A reentrant lock records which thread owns it, and a
call from another thread names its thread explicitly.

Layout:

- `src/exclusive_lock.rs`, `src/share_lock.rs`: the traits of exclusive and
  shared locks, their guards, and the laws every lock obeys.
- `src/mutex/`: the raw locks (spinning, parking, tagged, splittable, queue
  based, local) and the global lock set; `src/mutex.rs` the typed mutex.
- `src/reentrant/`, `src/remutex/`: reentrant locks and their counters.
- `src/rwlock.rs`, `src/once.rs`, `src/condvar.rs`, `src/combinators/`.
- `src/park.rs`: what the parking lot reports, and what the locks do with it.
- `src/async_locker/`: locks whose waiting tasks register wakers; one poll of
  a lock future is one verified step.
- `app/`: the lock words in atomics, driven across threads with the parking
  lot of `parking_lot_core`, and the thread ids of `std`.
- `tests/`: scenarios run against the compiled library.
