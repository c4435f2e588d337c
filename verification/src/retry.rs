//! Join-retry controller: bounded exponential backoff for one
//! invitation.
//!
//! Each accepted invitation gets one `RetryState`, owned by its own
//! unit of work.  The unit attempts the external join; on failure it
//! asks [`RetryState::on_failure`] how long to suspend, and before each
//! further attempt asks [`RetryState::abandoned`] whether the pending
//! wait has passed the ceiling, in which case it stops for good.

use vstd::prelude::*;
use vstd::arithmetic::power2::lemma2_to64;
use vstd::arithmetic::power2::lemma_pow2_strictly_increases;
use vstd::arithmetic::power2::lemma_pow2_unfold;
use vstd::arithmetic::power2::pow2;

verus! {

/// The wait between the first failure and the second attempt, in seconds.
pub const INITIAL_BACKOFF_SECONDS: u64 = 2;

/// Once the pending wait passes this many seconds, the unit gives up.
pub const BACKOFF_CEILING_SECONDS: u64 = 3600;

/// The ephemeral state of one retry unit.
pub struct RetryState {
    /// The wait before the next attempt, in seconds.
    pub delay_seconds: u64,
    /// How many attempts have failed so far.
    pub attempts: u32,
}

impl RetryState {
    /// Every reachable state: the pending wait has doubled once per
    /// failed attempt, and no unit outlives its eleventh failure.
    pub open spec fn wf(self) -> bool {
        self.delay_seconds == 2 * pow2(self.attempts as nat) && self.attempts <= 11
    }

    /// The pending wait has passed the ceiling: no further attempt.
    pub open spec fn spec_abandoned(self) -> bool {
        self.delay_seconds > BACKOFF_CEILING_SECONDS
    }

    /// The state a unit starts in when an invitation is accepted.
    pub fn begin() -> (s: Self)
        ensures
            s.wf(),
            s.delay_seconds == INITIAL_BACKOFF_SECONDS,
            s.attempts == 0,
    {
        proof {
            lemma2_to64();
        }
        RetryState { delay_seconds: INITIAL_BACKOFF_SECONDS, attempts: 0 }
    }

    /// Whether the unit has given up.
    pub fn abandoned(&self) -> (b: bool)
        ensures
            b == self.spec_abandoned(),
    {
        self.delay_seconds > BACKOFF_CEILING_SECONDS
    }

    /// Records one failed attempt: hands back the wait to suspend for,
    /// doubles the pending wait, and counts the failure.
    pub fn on_failure(&mut self) -> (wait: u64)
        requires
            old(self).wf(),
            !old(self).spec_abandoned(),
        ensures
            final(self).wf(),
            wait == old(self).delay_seconds,
            final(self).delay_seconds == 2 * old(self).delay_seconds,
            final(self).attempts == old(self).attempts + 1,
    {
        proof {
            lemma2_to64();
            assert(old(self).attempts <= 10) by {
                lemma2_to64();
                if old(self).attempts == 11 {
                    assert(old(self).delay_seconds == 4096);
                }
            }
            lemma_pow2_unfold((old(self).attempts + 1) as nat);
        }
        let wait = self.delay_seconds;
        self.delay_seconds = self.delay_seconds * 2;
        self.attempts = self.attempts + 1;
        wait
    }
}

/// The state of a retry unit after `n` failed attempts.
pub open spec fn spec_state_after(n: nat) -> RetryState
    decreases n,
{
    if n == 0 {
        RetryState { delay_seconds: 2, attempts: 0 }
    } else {
        let p = spec_state_after((n - 1) as nat);
        RetryState {
            delay_seconds: (2 * p.delay_seconds) as u64,
            attempts: (p.attempts + 1) as u32,
        }
    }
}

/// Law: under a permanently failing join, the pending wait after `n`
/// failures is exactly `2 * 2^n` seconds — so the waits issued are
/// 2, 4, 8, ... — and the unit abandons exactly at the eleventh
/// failure, when the pending wait (4096s) first passes the 3600s
/// ceiling; no further attempt is made after that.
pub proof fn lemma_backoff_sequence(n: nat)
    requires
        n <= 11,
    ensures
        spec_state_after(n).wf(),
        spec_state_after(n).attempts == n,
        spec_state_after(n).delay_seconds == 2 * pow2(n),
        spec_state_after(n).spec_abandoned() <==> n == 11,
        n > 0 ==> spec_state_after(n).delay_seconds == 2 * spec_state_after(
            (n - 1) as nat,
        ).delay_seconds,
    decreases n,
{
    lemma2_to64();
    if n > 0 {
        lemma_backoff_sequence((n - 1) as nat);
        lemma_pow2_unfold(n);
    }
    if n < 10 {
        lemma_pow2_strictly_increases(n, 10);
    }
}

/// Law: one failed attempt carries the trace from its `n`-th state to
/// its `n + 1`-th, and the wait it issues is exactly `2^(n + 1)`
/// seconds — each wait double the one before.
pub proof fn lemma_step_follows_trace(pre: RetryState, post: RetryState, wait: u64, n: nat)
    requires
        n < 11,
        pre == spec_state_after(n),
        wait == pre.delay_seconds,
        post.delay_seconds == 2 * pre.delay_seconds,
        post.attempts == pre.attempts + 1,
    ensures
        post == spec_state_after(n + 1),
        wait == pow2(n + 1),
    decreases n,
{
    lemma_backoff_sequence(n);
    lemma_backoff_sequence(n + 1);
    lemma_pow2_unfold(n + 1);
}

} // verus!
