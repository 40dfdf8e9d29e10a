//! The retry policy: exponential backoff, capped, for as long as failures
//! are transient.
//!
//! The caller runs an attempt, hands its outcome to `after_attempt`, and
//! either stops or sleeps for the given delay and runs another attempt.
use vstd::arithmetic::power2::{
    lemma2_to64, lemma_pow2_strictly_increases, lemma_pow2_unfold, pow2,
};
use vstd::prelude::*;

use crate::error::RCopyResult;

verus! {

/// How an attempt ended, as far as retrying is concerned.
#[derive(Clone, Copy, Debug, PartialEq, Eq, Structural)]
pub enum AttemptOutcome {
    Succeeded,
    /// A failure that another attempt may not repeat.
    FailedTransient,
    /// A failure that another attempt would repeat, or make worse.
    FailedFatal,
}

/// What follows an attempt.
#[derive(Clone, Copy, Debug, PartialEq, Eq, Structural)]
pub enum RetryDecision {
    /// No further attempt: the last outcome stands.
    Stop,
    /// Wait this many milliseconds, then attempt again.
    Retry { delay_ms: u64 },
}

pub open spec fn outcome_of(r: RCopyResult<()>) -> AttemptOutcome {
    match r {
        Ok(_) => AttemptOutcome::Succeeded,
        Err(e) => if e.spec_retryable() {
            AttemptOutcome::FailedTransient
        } else {
            AttemptOutcome::FailedFatal
        },
    }
}

/// The wait after the failure of attempt `n` (counted from zero): `2^n`
/// milliseconds, but never more than `max_wait`.
pub open spec fn backoff_delay(n: nat, max_wait: nat) -> nat {
    if pow2(n) < max_wait {
        pow2(n)
    } else {
        max_wait
    }
}

/// The state of a retry loop, as values.
pub struct RetryModel {
    /// Attempts whose outcome has been handed in.
    pub attempts: nat,
    pub max_wait: nat,
}

impl RetryModel {
    pub open spec fn decide(self, o: AttemptOutcome) -> RetryDecision {
        if o == AttemptOutcome::FailedTransient {
            RetryDecision::Retry { delay_ms: backoff_delay(self.attempts, self.max_wait) as u64 }
        } else {
            RetryDecision::Stop
        }
    }

    pub open spec fn after(self) -> RetryModel {
        RetryModel { attempts: self.attempts + 1, ..self }
    }

    /// The decisions taken on a run of outcomes, one per attempt.
    pub open spec fn decisions(self, outcomes: Seq<AttemptOutcome>) -> Seq<RetryDecision>
        decreases outcomes.len(),
    {
        if outcomes.len() == 0 {
            Seq::empty()
        } else {
            seq![self.decide(outcomes[0])] + self.after().decisions(outcomes.drop_first())
        }
    }
}

/// The retry loop of one operation.
pub struct RetryBackoff {
    max_wait_ms: u64,
    delay_ms: u64,
    attempts: Ghost<nat>,
}

impl View for RetryBackoff {
    type V = RetryModel;

    closed spec fn view(&self) -> RetryModel {
        RetryModel { attempts: self.attempts@, max_wait: self.max_wait_ms as nat }
    }
}

impl RetryBackoff {
    pub closed spec fn wf(&self) -> bool {
        self.delay_ms == backoff_delay(self.attempts@, self.max_wait_ms as nat)
    }

    /// A retry loop whose waits never exceed `max_wait_ms`.
    pub fn new(max_wait_ms: u64) -> (r: RetryBackoff)
        ensures
            r@ == (RetryModel { attempts: 0, max_wait: max_wait_ms as nat }),
            r.wf(),
    {
        proof {
            lemma2_to64();
        }
        let delay_ms = if max_wait_ms > 1 {
            1
        } else {
            max_wait_ms
        };
        RetryBackoff { max_wait_ms, delay_ms, attempts: Ghost(0) }
    }

    /// Decides, from the outcome of the attempt just made, whether to make
    /// another and after what wait.
    pub fn after_attempt(&mut self, outcome: &RCopyResult<()>) -> (d: RetryDecision)
        requires
            old(self).wf(),
        ensures
            final(self).wf(),
            d == old(self)@.decide(outcome_of(*outcome)),
            final(self)@ == old(self)@.after(),
    {
        let transient = match outcome {
            Ok(_) => false,
            Err(e) => e.is_retryable(),
        };
        let d = if transient {
            RetryDecision::Retry { delay_ms: self.delay_ms }
        } else {
            RetryDecision::Stop
        };
        let ghost n = self.attempts@;
        proof {
            lemma_pow2_unfold(n + 1);
        }
        self.delay_ms = if self.delay_ms > self.max_wait_ms / 2 {
            self.max_wait_ms
        } else if self.delay_ms * 2 < self.max_wait_ms {
            self.delay_ms * 2
        } else {
            self.max_wait_ms
        };
        proof {
            self.attempts@ = n + 1;
            if pow2(n) >= self.max_wait_ms {
                lemma_pow2_strictly_increases(n, n + 1);
            }
        }
        d
    }
}

/// The waits grow with the number of failed attempts and never exceed the cap.
pub proof fn lemma_backoff_delay_bounded_monotone(i: nat, j: nat, max_wait: nat)
    requires
        i <= j,
    ensures
        backoff_delay(i, max_wait) <= backoff_delay(j, max_wait) <= max_wait,
{
    if i < j {
        lemma_pow2_strictly_increases(i, j);
    }
}

proof fn lemma_transient_run_from(m: RetryModel, n: nat)
    ensures
        m.decisions(Seq::new(n, |i: int| AttemptOutcome::FailedTransient).push(
            AttemptOutcome::Succeeded,
        )) == Seq::new(
            n,
            |i: int|
                RetryDecision::Retry {
                    delay_ms: backoff_delay((m.attempts + i) as nat, m.max_wait) as u64,
                },
        ).push(RetryDecision::Stop),
    decreases n,
{
    let outcomes = Seq::new(n, |i: int| AttemptOutcome::FailedTransient).push(
        AttemptOutcome::Succeeded,
    );
    let expected = Seq::new(
        n,
        |i: int|
            RetryDecision::Retry {
                delay_ms: backoff_delay((m.attempts + i) as nat, m.max_wait) as u64,
            },
    ).push(RetryDecision::Stop);
    if n == 0 {
        assert(outcomes.drop_first() =~= Seq::<AttemptOutcome>::empty());
        assert(m.after().decisions(Seq::<AttemptOutcome>::empty()) =~= Seq::<RetryDecision>::empty());
        assert(m.decisions(outcomes) =~= expected);
    } else {
        let k = (n - 1) as nat;
        lemma_transient_run_from(m.after(), k);
        assert(outcomes.drop_first() =~= Seq::new(k, |i: int| AttemptOutcome::FailedTransient).push(
            AttemptOutcome::Succeeded,
        ));
        let rest = Seq::new(
            k,
            |i: int|
                RetryDecision::Retry {
                    delay_ms: backoff_delay((m.after().attempts + i) as nat, m.max_wait) as u64,
                },
        ).push(RetryDecision::Stop);
        assert(m.decisions(outcomes) == seq![m.decide(outcomes[0])] + rest);
        assert(seq![m.decide(outcomes[0])] + rest =~= expected);
    }
}

/// An operation that fails transiently `n` times and then succeeds is run
/// exactly `n + 1` times: the loop asks for a retry after each failure, with
/// waits that never shrink and never exceed the cap, and stops after the
/// success.
pub proof fn lemma_transient_failures_then_success(max_wait_ms: u64, n: nat)
    ensures
        ({
            let d = RetryModel { attempts: 0, max_wait: max_wait_ms as nat }.decisions(
                Seq::new(n, |i: int| AttemptOutcome::FailedTransient).push(
                    AttemptOutcome::Succeeded,
                ),
            );
            &&& d.len() == n + 1
            &&& d[n as int] == RetryDecision::Stop
            &&& forall|i: int|
                0 <= i < n ==> #[trigger] d[i] == RetryDecision::Retry {
                    delay_ms: backoff_delay(i as nat, max_wait_ms as nat) as u64,
                }
            &&& forall|i: int, j: int|
                0 <= i <= j < n ==> #[trigger] backoff_delay(i as nat, max_wait_ms as nat)
                    <= #[trigger] backoff_delay(j as nat, max_wait_ms as nat) <= max_wait_ms
        }),
{
    let m = RetryModel { attempts: 0, max_wait: max_wait_ms as nat };
    lemma_transient_run_from(m, n);
    assert forall|i: int, j: int| 0 <= i <= j < n implies #[trigger] backoff_delay(
        i as nat,
        max_wait_ms as nat,
    ) <= #[trigger] backoff_delay(j as nat, max_wait_ms as nat) <= max_wait_ms by {
        lemma_backoff_delay_bounded_monotone(i as nat, j as nat, max_wait_ms as nat);
    }
}

} // verus!
