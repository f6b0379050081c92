//! The shared-counter service core: one mutable integer, initial value 0,
//! mutated only by `increment`, which returns the post-increment value.
//!
//! Beside the machine integer the type carries a ghost history: the sequence
//! of values handed back to callers, in the order the increments took effect.
//! Well-formedness (`wf`) says that history is exactly 1, 2, ..., count, so
//! every sequence of increments serialized through this type returns each
//! value once, with no gaps and no repeats.

use vstd::prelude::*;

verus! {

/// The values returned by the first `m` increments of a fresh counter:
/// the sequence 1, 2, ..., m.
pub open spec fn expected_returns(m: nat) -> Seq<nat> {
    Seq::new(m, |i: int| (i + 1) as nat)
}

/// A single in-memory counter, owned by one service instance per process.
/// No persistence: a new instance starts over at 0.
pub struct Counter {
    value: u64,
    returns: Ghost<Seq<nat>>,
}

impl Counter {
    /// The current value: the number of increments that have taken effect.
    pub closed spec fn count(self) -> nat {
        self.value as nat
    }

    /// The values handed back to callers so far, oldest first.
    pub closed spec fn history(self) -> Seq<nat> {
        self.returns@
    }

    /// The counter's invariant: the history of returned values is exactly
    /// 1, 2, ..., count. Constructors establish it; `increment` preserves it.
    pub closed spec fn wf(self) -> bool {
        self.history() == expected_returns(self.count())
    }

    /// A fresh service instance: counter at 0, nothing returned yet.
    pub fn new() -> (c: Counter)
        ensures
            c.wf(),
            c.count() == 0,
            c.history() == Seq::<nat>::empty(),
    {
        let c = Counter { value: 0, returns: Ghost(Seq::empty()) };
        proof {
            assert(c.history() =~= expected_returns(c.count()));
        }
        c
    }

    /// Read the current value, add one, store it, and return the new value.
    /// Strictly serialized callers (one at a time through an exclusive lock)
    /// therefore each receive a distinct value, with no gaps.
    pub fn increment(&mut self) -> (r: u64)
        requires
            old(self).wf(),
            old(self).count() < u64::MAX,
        ensures
            final(self).wf(),
            final(self).count() == old(self).count() + 1,
            r == final(self).count(),
            final(self).history() == old(self).history().push(r as nat),
    {
        self.value = self.value + 1;
        let r = self.value;
        proof {
            self.returns@ = self.returns@.push(r as nat);
            assert(self.history() =~= expected_returns(self.count()));
        }
        r
    }

    /// Read the current value without incrementing. Exposed for testing:
    /// after M successful increments it returns exactly M.
    pub fn peek(&self) -> (r: u64)
        ensures
            r == self.count(),
    {
        self.value
    }
}

/// After any number of successful increments, the counter's value equals
/// the number of values handed out: nothing decrements, resets, or skips.
pub proof fn lemma_count_equals_increments(c: Counter)
    requires
        c.wf(),
    ensures
        c.history().len() == c.count(),
{
}

/// For any well-formed counter, the returned values are exactly
/// 1, 2, ..., count: every value in that range occurs, nothing outside it
/// does, and no value is returned twice. For N increments serialized
/// through one instance the multiset of returns is therefore {1, ..., N},
/// with no duplicates and no gaps.
pub proof fn lemma_returns_complete_and_distinct(c: Counter)
    requires
        c.wf(),
    ensures
        forall|i: int| 0 <= i < c.history().len() ==> c.history()[i] == i + 1,
        forall|v: nat| #[trigger] c.history().contains(v) <==> 1 <= v <= c.count(),
        forall|i: int, j: int|
            0 <= i < c.history().len() && 0 <= j < c.history().len() && i != j
                ==> c.history()[i] != c.history()[j],
{
    assert forall|v: nat| 1 <= v <= c.count() implies c.history().contains(v) by {
        assert(c.history()[v - 1] == v);
    }
}

} // verus!
