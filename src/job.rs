use vstd::prelude::*;

use rand::Rng;

use crate::primitives::Timestamp;

verus! {

/// What the scheduler does with a job after one run. The `WithOp` variants
/// commit the run's open database operation first.
#[derive(Debug, Clone, Copy, PartialEq, Eq, Structural)]
pub enum JobCompletion {
    Complete,
    CompleteWithOp,
    RescheduleNow,
    RescheduleNowWithOp,
    /// Run again after this many milliseconds.
    RescheduleIn(u64),
    RescheduleInWithOp(u64),
    /// Run again at this time.
    RescheduleAt(Timestamp),
    RescheduleAtWithOp(Timestamp),
}

/// Two to the power `n`.
pub open spec fn pow2(n: nat) -> nat
    decreases n,
{
    if n == 0 {
        1
    } else {
        2 * pow2((n - 1) as nat)
    }
}

/// How a failing job is retried: exponential backoff from `min_backoff`,
/// spread by up to `backoff_jitter_pct` percent either way and capped at
/// `max_backoff` (both in milliseconds).
#[derive(Debug, Clone, Copy, PartialEq, Eq, Structural)]
pub struct RetrySettings {
    pub n_attempts: Option<u32>,
    pub n_warn_attempts: Option<u32>,
    pub min_backoff: u64,
    pub max_backoff: u64,
    pub backoff_jitter_pct: u32,
}

pub const SECS_IN_ONE_MONTH: u64 = 2592000;

impl RetrySettings {
    pub open spec fn spec_default() -> Self {
        RetrySettings {
            n_attempts: Some(30),
            n_warn_attempts: Some(3),
            min_backoff: 1000,
            max_backoff: (SECS_IN_ONE_MONTH * 1000) as u64,
            backoff_jitter_pct: 20,
        }
    }

    /// The defaults with no limit on the number of attempts nor on warnings.
    pub fn repeat_indefinitely() -> (r: Self)
        ensures
            r == (RetrySettings { n_attempts: None, n_warn_attempts: None, ..Self::spec_default() }),
    {
        RetrySettings { n_attempts: None, n_warn_attempts: None, ..Self::default() }
    }

    /// Backoff before attempt `attempt` (counted from 1), without jitter.
    pub open spec fn spec_base_backoff(&self, attempt: u32) -> int {
        self.min_backoff * pow2((attempt - 1) as nat)
    }

    /// Half-width of the jitter window of attempt `attempt`.
    pub open spec fn spec_jitter_range(&self, attempt: u32) -> int {
        self.spec_base_backoff(attempt) * self.backoff_jitter_pct / 100
    }

    /// The delay for attempt `attempt` once `jitter` is added: never below
    /// zero, never above `max_backoff`.
    pub open spec fn spec_backoff(&self, attempt: u32, jitter: int) -> int {
        let j = self.spec_base_backoff(attempt) + jitter;
        let j = if j < 0 {
            0
        } else {
            j
        };
        if j < self.max_backoff {
            j
        } else {
            self.max_backoff as int
        }
    }

    /// Whether the backoff of attempt `attempt` can be computed.
    pub open spec fn handles_attempt(&self, attempt: u32) -> bool {
        1 <= attempt && self.spec_base_backoff(attempt) <= u64::MAX && self.backoff_jitter_pct
            <= 100
    }

    fn base_backoff(&self, attempt: u32) -> (r: u64)
        requires
            self.handles_attempt(attempt),
        ensures
            r == self.spec_base_backoff(attempt),
    {
        let mut b: u128 = self.min_backoff as u128;
        let mut k: u32 = 1;
        assert(pow2(0) == 1);
        assert(self.min_backoff * pow2(0) == self.min_backoff);
        while k < attempt
            invariant
                1 <= k <= attempt,
                self.handles_attempt(attempt),
                b == self.min_backoff * pow2((k - 1) as nat),
            decreases attempt - k,
        {
            proof {
                lemma_pow2_mono(k as nat, (attempt - 1) as nat);
                assert(self.min_backoff * pow2(k as nat) <= self.min_backoff * pow2(
                    (attempt - 1) as nat,
                )) by (nonlinear_arith)
                    requires
                        pow2(k as nat) <= pow2((attempt - 1) as nat),
                ;
                assert(pow2(k as nat) == 2 * pow2((k - 1) as nat));
                assert(self.min_backoff * pow2(k as nat) == 2 * (self.min_backoff * pow2(
                    (k - 1) as nat,
                ))) by (nonlinear_arith)
                    requires
                        pow2(k as nat) == 2 * pow2((k - 1) as nat),
                ;
            }
            b = b * 2;
            k = k + 1;
        }
        b as u64
    }

    /// The delay before attempt `attempt` when the drawn jitter is `jitter`.
    pub fn backoff_with_jitter(&self, attempt: u32, jitter: i128) -> (r: u64)
        requires
            self.handles_attempt(attempt),
            -self.spec_jitter_range(attempt) <= jitter <= self.spec_jitter_range(attempt),
        ensures
            r == self.spec_backoff(attempt, jitter as int),
    {
        let base = self.base_backoff(attempt);
        assert(self.spec_jitter_range(attempt) <= base) by (nonlinear_arith)
            requires
                self.spec_jitter_range(attempt) == base * self.backoff_jitter_pct / 100,
                self.backoff_jitter_pct <= 100,
                base >= 0,
        ;
        let j = base as i128 + jitter;
        let j: u128 = if j < 0 {
            0
        } else {
            j as u128
        };
        if j < self.max_backoff as u128 {
            j as u64
        } else {
            self.max_backoff
        }
    }

    /// When attempt `attempt` of a job that failed at `now` (milliseconds)
    /// should run: after the backoff, with a random jitter within the window.
    pub fn next_attempt_at(&self, attempt: u32, now: u64) -> (r: u64)
        requires
            self.handles_attempt(attempt),
            now + self.max_backoff <= u64::MAX,
        ensures
            exists|jitter: int|
                -self.spec_jitter_range(attempt) <= jitter <= self.spec_jitter_range(attempt) && r
                    == now + self.spec_backoff(attempt, jitter),
            now <= r <= now + self.max_backoff,
    {
        let base = self.base_backoff(attempt);
        assert(base * (self.backoff_jitter_pct as u128) <= (u64::MAX as u128) * 100) by (nonlinear_arith)
            requires
                base <= u64::MAX,
                self.backoff_jitter_pct <= 100,
        ;
        let range = (base as u128) * (self.backoff_jitter_pct as u128) / 100;
        let jitter = random_jitter(range as i128);
        let backoff = self.backoff_with_jitter(attempt, jitter);
        now + backoff
    }
}

impl Default for RetrySettings {
    fn default() -> (r: Self)
        ensures
            r == Self::spec_default(),
    {
        RetrySettings {
            n_attempts: Some(30),
            n_warn_attempts: Some(3),
            min_backoff: 1000,
            max_backoff: SECS_IN_ONE_MONTH * 1000,
            backoff_jitter_pct: 20,
        }
    }
}

pub proof fn lemma_pow2_mono(a: nat, b: nat)
    requires
        a <= b,
    ensures
        pow2(a) <= pow2(b),
        pow2(a) >= 1,
    decreases b,
{
    if b > 0 {
        if a < b {
            lemma_pow2_mono(a, (b - 1) as nat);
        }
    }
    if a > 0 {
        lemma_pow2_mono((a - 1) as nat, (a - 1) as nat);
    }
}

/// A uniformly drawn integer in `[-range, range]`.
/// Relies on rand::Rng::random_range over an inclusive range of i128 on the
/// thread-local generator: the value lies within the range, which is never
/// empty here.
#[verifier::external_body]
fn random_jitter(range: i128) -> (r: i128)
    requires
        range >= 0,
    ensures
        -range <= r <= range,
{
    rand::rng().random_range(-range..=range)
}

} // verus!
