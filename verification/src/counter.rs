//! A lazy, finite, non-restartable sequence of increasing integers:
//! starting at 1, it stops strictly before a configured upper bound.

use vstd::prelude::*;

verus! {

/// A bounded counting sequence. `max` is the exclusive upper bound of
/// the values produced; `count` is the last value produced, or 0 when
/// nothing has been produced yet.
pub struct Counter {
    pub max: u32,
    pub count: u32,
}

impl Counter {
    /// The sequence is exhausted once the next candidate value would
    /// reach the bound. Exhaustion is permanent: no advance ever makes
    /// an exhausted counter produce again.
    pub open spec fn exhausted(self) -> bool {
        self.count + 1 >= self.max
    }

    /// A fresh sequence with the given exclusive upper bound. A bound
    /// of 0 or 1 yields a sequence that is exhausted from the start.
    pub fn new(max: u32) -> (c: Counter)
        ensures
            c.max == max,
            c.count == 0,
    {
        Counter { max, count: 0 }
    }

    /// Advance the sequence: produce the next value if it is still
    /// below the bound, and signal exhaustion with `None` otherwise.
    /// Once exhausted, the counter no longer changes, so every later
    /// advance signals exhaustion again.
    pub fn next(&mut self) -> (r: Option<u32>)
        ensures
            final(self).max == old(self).max,
            !old(self).exhausted() ==> r == Some((old(self).count + 1) as u32)
                && final(self).count == old(self).count + 1,
            old(self).exhausted() ==> r is None && *final(self) == *old(self),
            old(self).exhausted() ==> final(self).exhausted(),
    {
        if self.count < self.max && self.count + 1 < self.max {
            self.count = self.count + 1;
            Some(self.count)
        } else {
            None
        }
    }

    /// Collect every value the sequence will produce, in order. A
    /// counter with bound `max` produces exactly the integers
    /// 1, 2, ..., max - 1, so the result has length max(0, max - 1).
    pub fn collect(max: u32) -> (r: Vec<u32>)
        ensures
            r@.len() == if max == 0 { 0int } else { max - 1 },
            forall|i: int| 0 <= i < r@.len() ==> r@[i] == i + 1,
    {
        let mut c = Counter::new(max);
        let mut out: Vec<u32> = Vec::new();
        loop
            invariant
                c.max == max,
                out@.len() == c.count,
                max == 0 ==> c.count == 0,
                max > 0 ==> c.count < max,
                forall|i: int| 0 <= i < out@.len() ==> out@[i] == i + 1,
            ensures
                c.exhausted(),
                out@.len() == c.count,
                max == 0 ==> c.count == 0,
                max > 0 ==> c.count < max,
                forall|i: int| 0 <= i < out@.len() ==> out@[i] == i + 1,
            decreases max - c.count,
        {
            let step = c.next();
            match step {
                Some(v) => out.push(v),
                None => break,
            }
        }
        out
    }
}

} // verus!
