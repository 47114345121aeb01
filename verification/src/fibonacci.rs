//! An unbounded Fibonacci walker: a pair of consecutive Fibonacci numbers
//! stepped forward one position at a time, stopping cleanly when the next
//! number no longer fits in a `u128`.

use vstd::prelude::*;

verus! {

/// The Fibonacci sequence.
pub open spec fn spec_fib(n: nat) -> nat
    decreases n,
{
    if n == 0 {
        0
    } else if n == 1 {
        1
    } else {
        spec_fib((n - 1) as nat) + spec_fib((n - 2) as nat)
    }
}

/// A position in the Fibonacci sequence: the number there and the one
/// after it.
pub struct Fibonacci {
    pub curr: u128,
    pub next: u128,
}

impl Fibonacci {
    /// The walker stands at position `n` of the sequence.
    pub open spec fn is_at(self, n: nat) -> bool {
        self.curr == spec_fib(n) && self.next == spec_fib(n + 1)
    }

    /// Step one position forward and return the number reached, or `None`,
    /// changing nothing, once the next number exceeds `u128::MAX`.
    pub fn next(&mut self) -> (r: Option<u128>)
        ensures
            old(self).curr + old(self).next <= u128::MAX ==> {
                &&& r == Some(old(self).next)
                &&& final(self).curr == old(self).next
                &&& final(self).next == old(self).curr + old(self).next
            },
            old(self).curr + old(self).next > u128::MAX ==> r is None && *final(self) == *old(
                self,
            ),
            forall|n: nat|
                #[trigger] old(self).is_at(n) && old(self).curr + old(self).next <= u128::MAX
                    ==> final(self).is_at(n + 1) && r == Some(spec_fib(n + 1) as u128),
    {
        match self.curr.checked_add(self.next) {
            None => None,
            Some(new_next) => {
                self.curr = self.next;
                self.next = new_next;
                Some(self.curr)
            },
        }
    }
}

impl Default for Fibonacci {
    /// The walker at the start of the sequence.
    fn default() -> (r: Self)
        ensures
            r.curr == 0,
            r.next == 1,
            r.is_at(0),
    {
        Self { curr: 0, next: 1 }
    }
}

} // verus!
