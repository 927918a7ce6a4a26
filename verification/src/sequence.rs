//! A cursor-style iteration protocol: a single `advance` operation produces
//! the next element or reports exhaustion, and `count` is derived from it.

use vstd::prelude::*;
use crate::variant::Maybe;

verus! {

/// A capability for stepwise production of successive elements.
///
/// `advance` either returns the next element and moves the cursor forward by
/// one logical position, or returns `Absent` once the sequence is exhausted.
/// Exhaustion is permanent: the contract forces `remaining` to stay at zero
/// after `advance` has reported `Absent` once, so every later call reports
/// `Absent` as well. Exhaustion is a normal terminal value, not a failure.
pub trait Sequence: Sized {
    type Item;

    /// The number of elements the cursor has not yet produced.
    spec fn remaining(&self) -> nat;

    /// Produces the next element, or `Absent` when the sequence is exhausted.
    fn advance(&mut self) -> (r: Maybe<Self::Item>)
        ensures
            old(self).remaining() > 0 ==> r is Present && final(self).remaining()
                == old(self).remaining() - 1,
            old(self).remaining() == 0 ==> r is Absent && final(self).remaining() == 0,
    ;

    /// Counts the elements left by advancing until exhaustion, built purely
    /// from `advance`. It consumes the sequence and is not restartable.
    fn count(self) -> (r: usize)
        requires
            self.remaining() <= usize::MAX,
        ensures
            r == self.remaining(),
    {
        let ghost total: nat = self.remaining();
        let mut s = self;
        let mut n: usize = 0;
        #[verifier::loop_isolation(false)]
        loop
            invariant
                n + s.remaining() == total,
            decreases s.remaining(),
        {
            match s.advance() {
                Maybe::Present(_) => {
                    n = n + 1;
                },
                Maybe::Absent => {
                    return n;
                },
            }
        }
    }
}

/// The number of elements of the half-open integer range `[start, end)`:
/// `end - start` when `start < end`, and zero otherwise.
pub open spec fn range_count(start: i32, end: i32) -> nat {
    if start < end {
        (end - start) as nat
    } else {
        0
    }
}

/// A bounded integer range `[start, end)`, produced in increasing order.
pub struct RangeIterator {
    current: i32,
    end: i32,
}

impl RangeIterator {
    /// The cursor: the next value to be produced.
    pub closed spec fn spec_current(&self) -> i32 {
        self.current
    }

    /// The exclusive upper bound.
    pub closed spec fn spec_end(&self) -> i32 {
        self.end
    }

    /// A fresh range sequence over `[start, end)`; empty when `start >= end`.
    pub fn new(start: i32, end: i32) -> (r: RangeIterator)
        ensures
            r.spec_current() == start,
            r.spec_end() == end,
            r.remaining() == range_count(start, end),
    {
        RangeIterator { current: start, end }
    }
}

impl Sequence for RangeIterator {
    type Item = i32;

    closed spec fn remaining(&self) -> nat {
        range_count(self.current, self.end)
    }

    /// Returns the current value and moves the cursor up by one while
    /// `current < end`; returns `Absent` otherwise.
    fn advance(&mut self) -> (r: Maybe<i32>)
        ensures
            old(self).remaining() > 0 ==> r == Maybe::Present(old(self).spec_current())
                && final(self).spec_current() == old(self).spec_current() + 1,
            old(self).remaining() == 0 ==> *final(self) == *old(self),
            final(self).spec_end() == old(self).spec_end(),
    {
        if self.current < self.end {
            let value = self.current;
            self.current = self.current + 1;
            Maybe::Present(value)
        } else {
            Maybe::Absent
        }
    }
}

} // verus!
