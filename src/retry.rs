//! Retry with capped exponential backoff, shared by the crawl and the
//! downloads.

use vstd::prelude::*;

verus! {

/// `2` to the power `n`.
pub open spec fn pow2(n: nat) -> nat
    decreases n,
{
    if n == 0 {
        1
    } else {
        2 * pow2((n - 1) as nat)
    }
}

/// How often an operation is tried, and how long to wait between tries.
#[derive(Debug, Clone, Copy)]
pub struct RetryPolicy {
    /// The number of tries, the first one included.
    pub max_attempts: u32,
    /// The wait after the first failed try, in milliseconds.
    pub base_delay_ms: u64,
    /// The longest wait, in milliseconds.
    pub max_delay_ms: u64,
}

impl RetryPolicy {
    /// The wait after the failure of try number `attempt` (counted from
    /// 1): the base delay doubled for each earlier failure, capped.
    pub open spec fn delay_after(&self, attempt: nat) -> int {
        let d = self.base_delay_ms * pow2((attempt - 1) as nat);
        if d < self.max_delay_ms {
            d
        } else {
            self.max_delay_ms as int
        }
    }

    /// The wait after the failure of try number `attempt` (see
    /// `delay_after`).
    pub fn backoff_ms(&self, attempt: u32) -> (r: u64)
        requires
            attempt >= 1,
        ensures
            r == self.delay_after(attempt as nat),
    {
        let cap = self.max_delay_ms;
        let base = self.base_delay_ms;
        let mut d: u64 = if base < cap {
            base
        } else {
            cap
        };
        let mut i: u32 = 1;
        assert(pow2(0) == 1);
        assert(base * pow2(0) == base);
        while i < attempt
            invariant
                1 <= i <= attempt,
                cap == self.max_delay_ms,
                base == self.base_delay_ms,
                d == self.delay_after(i as nat),
                d <= cap,
            decreases attempt - i,
        {
            proof {
                let p = pow2((i - 1) as nat);
                assert(pow2(i as nat) == 2 * p);
                assert(base * pow2(i as nat) == 2 * (base * p)) by (nonlinear_arith)
                    requires
                        pow2(i as nat) == 2 * p,
                ;
            }
            d = if d >= cap - d {
                cap
            } else {
                d + d
            };
            i = i + 1;
        }
        d
    }

    /// Whether a failure of try number `attempt` leaves a try.
    pub fn retries_after(&self, attempt: u32) -> (r: bool)
        ensures
            r == (attempt < self.max_attempts),
    {
        attempt < self.max_attempts
    }
}

} // verus!
