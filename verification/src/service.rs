//! The shared-counter service: one `Counter` per process behind a verified
//! reader-writer lock, callable from any number of concurrent tasks through
//! a shared reference.
//!
//! The lock's invariant is the counter's well-formedness, so every critical
//! section starts and ends with a counter whose history of returned values
//! is exactly 1, 2, ..., count. Concurrent calls are strictly serialized by
//! lock-acquisition order, and the critical section is exactly one call of
//! the verified `Counter::increment`: no two callers can observe the same
//! pre-increment value.

use vstd::prelude::*;
use vstd::rwlock::RwLock;

use crate::counter::Counter;

verus! {

/// The counter service of a process: owns the one shared counter for its
/// whole lifetime. A new instance starts over at 0.
pub struct SharedCounterService {
    lock: RwLock<Counter, spec_fn(Counter) -> bool>,
}

impl SharedCounterService {
    /// The value every critical section must leave in the lock: a
    /// well-formed counter.
    pub closed spec fn wf(self) -> bool {
        self.lock.pred() == (|c: Counter| c.wf())
    }

    /// A fresh service instance around a fresh counter at 0.
    pub fn new() -> (s: SharedCounterService)
        ensures
            s.wf(),
    {
        let lock = RwLock::new(Counter::new(), Ghost(|c: Counter| c.wf()));
        SharedCounterService { lock }
    }

    /// Acquire the exclusive lock, increment the counter, release, and hand
    /// back the post-increment value, which is at least 1.
    ///
    /// The exact read-modify-write semantics live in `Counter::increment`'s
    /// contract; this method only adds the mutual exclusion, under which the
    /// counter's invariant is preserved across every interleaving. `None` is
    /// returned in the one case `Counter::increment` excludes: a counter
    /// that has already reached the machine maximum. No lock poisoning
    /// exists here: the lock is this crate's verified one, and the critical
    /// section contains no call that can fail.
    pub fn increment(&self) -> (r: Option<u64>)
        requires
            self.wf(),
        ensures
            r is Some ==> 1 <= r->Some_0,
    {
        let (mut c, handle) = self.lock.acquire_write();
        let r = if c.peek() == u64::MAX {
            None
        } else {
            Some(c.increment())
        };
        handle.release_write(c);
        r
    }

    /// Acquire a shared read-lock and report the counter's current value
    /// without incrementing. Exposed for testing: after M completed
    /// increments (and none in flight) it returns exactly M.
    pub fn peek(&self) -> (r: u64)
        requires
            self.wf(),
    {
        let read_handle = self.lock.acquire_read();
        let r = read_handle.borrow().peek();
        read_handle.release_read();
        r
    }
}

} // verus!
