//! A retry policy: a bounded number of attempts with a fixed or
//! exponentially growing delay between them.

use vstd::prelude::*;
use vstd::arithmetic::mul::lemma_mul_inequality;

verus! {

/// Two to the given power.
pub open spec fn pow2(n: nat) -> nat
    decreases n,
{
    if n == 0 {
        1
    } else {
        2 * pow2((n - 1) as nat)
    }
}

proof fn lemma_pow2_le(a: nat, b: nat)
    requires
        a <= b,
    ensures
        1 <= pow2(a) <= pow2(b),
    decreases b,
{
    if b != 0 {
        if a == b {
            lemma_pow2_le((a - 1) as nat, (b - 1) as nat);
        } else {
            lemma_pow2_le(a, (b - 1) as nat);
        }
    }
}

/// How many retries are allowed, how long to wait between them, and how
/// many have run.
#[derive(Clone)]
pub struct RetryPolicy {
    max_retries: u32,
    retry_delay_secs: u64,
    exponential_backoff: bool,
    current_retry: u32,
}

impl RetryPolicy {
    pub closed spec fn spec_max_retries(self) -> u32 {
        self.max_retries
    }

    pub closed spec fn spec_delay_secs(self) -> u64 {
        self.retry_delay_secs
    }

    pub closed spec fn spec_exponential(self) -> bool {
        self.exponential_backoff
    }

    pub closed spec fn spec_current_retry(self) -> u32 {
        self.current_retry
    }

    /// The delay before the next attempt, in seconds: the configured delay,
    /// doubled once per retry already taken when backing off exponentially.
    pub open spec fn next_delay_spec(self) -> int {
        if self.spec_exponential() {
            self.spec_delay_secs() * pow2(self.spec_current_retry() as nat)
        } else {
            self.spec_delay_secs() as int
        }
    }

    /// A policy with no retry taken yet.
    pub fn new(max_retries: u32, retry_delay_secs: u64, exponential_backoff: bool) -> (p:
        RetryPolicy)
        ensures
            p.spec_max_retries() == max_retries,
            p.spec_delay_secs() == retry_delay_secs,
            p.spec_exponential() == exponential_backoff,
            p.spec_current_retry() == 0,
    {
        RetryPolicy { max_retries, retry_delay_secs, exponential_backoff, current_retry: 0 }
    }

    /// The delay before the next attempt, in seconds.
    pub fn get_next_retry_delay(&self) -> (d: u64)
        requires
            self.next_delay_spec() <= u64::MAX,
        ensures
            d == self.next_delay_spec(),
    {
        if self.exponential_backoff {
            let mut d: u64 = self.retry_delay_secs;
            let mut i: u32 = 0;
            proof {
                assert(pow2(0) == 1);
            }
            while i < self.current_retry
                invariant
                    0 <= i <= self.current_retry,
                    d == self.retry_delay_secs * pow2(i as nat),
                    self.retry_delay_secs * pow2(self.current_retry as nat) <= u64::MAX,
                    self.exponential_backoff,
                decreases self.current_retry - i,
            {
                proof {
                    assert(pow2((i + 1) as nat) == 2 * pow2(i as nat));
                    lemma_pow2_le((i + 1) as nat, self.current_retry as nat);
                    lemma_mul_inequality(
                        pow2((i + 1) as nat) as int,
                        pow2(self.current_retry as nat) as int,
                        self.retry_delay_secs as int,
                    );
                    assert(self.retry_delay_secs * pow2((i + 1) as nat) == d * 2)
                        by (nonlinear_arith)
                        requires
                            d == self.retry_delay_secs * pow2(i as nat),
                            pow2((i + 1) as nat) == 2 * pow2(i as nat),
                    ;
                    assert(pow2((i + 1) as nat) * self.retry_delay_secs == self.retry_delay_secs
                        * pow2((i + 1) as nat)) by (nonlinear_arith);
                    assert(pow2(self.current_retry as nat) * self.retry_delay_secs
                        == self.retry_delay_secs * pow2(self.current_retry as nat))
                        by (nonlinear_arith);
                }
                d = d * 2;
                i = i + 1;
            }
            d
        } else {
            self.retry_delay_secs
        }
    }

    /// How many retries have run.
    pub fn get_current_retry(&self) -> (r: u32)
        ensures
            r == self.spec_current_retry(),
    {
        self.current_retry
    }

    /// Sets how many retries count as taken.
    pub fn set_current_retry(&mut self, retry: u32)
        ensures
            final(self).spec_current_retry() == retry,
            final(self).spec_max_retries() == old(self).spec_max_retries(),
            final(self).spec_delay_secs() == old(self).spec_delay_secs(),
            final(self).spec_exponential() == old(self).spec_exponential(),
    {
        self.current_retry = retry;
    }

    /// How many retries are allowed.
    pub fn get_max_retries(&self) -> (r: u32)
        ensures
            r == self.spec_max_retries(),
    {
        self.max_retries
    }

    /// Counts one more retry as taken.
    pub fn increase_current_retry(&mut self)
        requires
            old(self).spec_current_retry() < u32::MAX,
        ensures
            final(self).spec_current_retry() == old(self).spec_current_retry() + 1,
            final(self).spec_max_retries() == old(self).spec_max_retries(),
            final(self).spec_delay_secs() == old(self).spec_delay_secs(),
            final(self).spec_exponential() == old(self).spec_exponential(),
    {
        self.current_retry = self.current_retry + 1;
    }
}

} // verus!
