//! How often a failed call is tried again, and how long to wait in between:
//! delays double from a base up to a cap.

use vstd::prelude::*;

verus! {

/// The limits within which the orchestrator retries and waits. Times are in
/// milliseconds.
#[derive(Clone, Copy, Debug, PartialEq, Eq, Structural)]
pub struct Policy {
    /// How many times a call is made before its failure is final. At least
    /// one call is made whatever this says.
    pub max_attempts: u32,
    /// The first delay. A delay is never shorter than one millisecond.
    pub base_delay: u64,
    /// The longest delay between two tries.
    pub max_delay: u64,
    /// The longest time to wait, in all, for one resource to become stable.
    pub wait_limit: u64,
}

/// The smaller of two numbers.
pub open spec fn least(a: int, b: int) -> int {
    if a <= b {
        a
    } else {
        b
    }
}

/// Two to the power of `n`.
pub open spec fn two_to(n: nat) -> nat
    decreases n,
{
    if n == 0 {
        1
    } else {
        2 * two_to((n - 1) as nat)
    }
}

impl Policy {
    /// The longest delay, which is at least one.
    pub open spec fn cap(self) -> int {
        if self.max_delay == 0 {
            1
        } else {
            self.max_delay as int
        }
    }

    /// The base of the delays, which is at least one.
    pub open spec fn base(self) -> int {
        if self.base_delay == 0 {
            1
        } else {
            self.base_delay as int
        }
    }

    /// The first delay: the base, capped.
    pub open spec fn first(self) -> int {
        least(self.base(), self.cap())
    }

    /// The delay that follows a delay of `d`: twice as long, capped.
    pub open spec fn next(self, d: int) -> int {
        least(2 * d, self.cap())
    }

    /// The delay before the `n`-th retry, counted from zero.
    pub open spec fn nth(self, n: nat) -> int
        decreases n,
    {
        if n == 0 {
            self.first()
        } else {
            self.next(self.nth((n - 1) as nat))
        }
    }

    /// Whether another attempt may follow `attempt` attempts.
    pub open spec fn allows_retry(self, attempt: int) -> bool {
        attempt < self.max_attempts
    }

    /// Returns the first delay.
    pub fn first_delay(&self) -> (d: u64)
        ensures
            d == self.first(),
            d >= 1,
    {
        let cap: u64 = if self.max_delay == 0 {
            1
        } else {
            self.max_delay
        };
        let base: u64 = if self.base_delay == 0 {
            1
        } else {
            self.base_delay
        };
        if base <= cap {
            base
        } else {
            cap
        }
    }

    /// Returns the delay that follows a delay of `d`.
    pub fn next_delay(&self, d: u64) -> (r: u64)
        ensures
            r == self.next(d as int),
            d >= 1 ==> r >= 1,
    {
        let cap: u64 = if self.max_delay == 0 {
            1
        } else {
            self.max_delay
        };
        if d >= cap - cap / 2 {
            cap
        } else {
            2 * d
        }
    }

    /// Tells whether another attempt may follow `attempt` attempts.
    pub fn may_retry(&self, attempt: u32) -> (b: bool)
        ensures
            b == self.allows_retry(attempt as int),
    {
        attempt < self.max_attempts
    }
}

/// Delays grow exponentially up to the cap: the delay before the `n`-th
/// retry is the base doubled `n` times, or the cap if that is less.
pub proof fn lemma_delay_is_exponential(p: Policy, n: nat)
    ensures
        p.nth(n) == least(p.base() * two_to(n), p.cap()),
        1 <= p.nth(n) <= p.cap(),
    decreases n,
{
    if n == 0 {
        assert(p.base() * two_to(0) == p.base()) by (nonlinear_arith)
            requires
                two_to(0) == 1,
        ;
    } else {
        let m = (n - 1) as nat;
        lemma_delay_is_exponential(p, m);
        assert(p.base() * two_to(n) == 2 * (p.base() * two_to(m))) by (nonlinear_arith)
            requires
                two_to(n) == 2 * two_to(m),
        ;
        assert(p.nth(n) == p.next(p.nth(m)));
    }
}

/// Delays never shrink from one retry to the next.
pub proof fn lemma_delay_grows(p: Policy, n: nat)
    ensures
        p.nth(n) <= p.nth(n + 1),
{
    lemma_delay_is_exponential(p, n);
    assert(p.nth(n + 1) == p.next(p.nth(n)));
}

} // verus!
