//! The bounded exponential-backoff retry driver shared by order submission and
//! polling: at most five attempts, waits of 500 ms doubling up to 10 s, and a new
//! attempt only after a transient error.

use crate::constants::DURATION_COMPUTING_MARKER;
use crate::error::{is_retryable, is_transient, IflyrecError};
use crate::text::contains_seq;
use vstd::prelude::*;

verus! {

/// Attempts one retry run may make.
pub const MAX_ATTEMPTS: u32 = 5;

/// Wait after the first failed attempt, in milliseconds.
pub const INITIAL_DELAY_MS: u64 = 500;

/// Longest wait between two attempts, in milliseconds.
pub const MAX_DELAY_MS: u64 = 10000;

/// Wait, in milliseconds, after the `failed`-th failed attempt (counting from one):
/// 500 ms, doubled after each further failure, never above 10 s.
pub open spec fn backoff_delay_ms(failed: nat) -> nat
    decreases failed,
{
    if failed <= 1 {
        INITIAL_DELAY_MS as nat
    } else {
        let doubled = 2 * backoff_delay_ms((failed - 1) as nat);
        if doubled < MAX_DELAY_MS {
            doubled
        } else {
            MAX_DELAY_MS as nat
        }
    }
}

proof fn lemma_backoff_bounded(failed: nat)
    ensures
        INITIAL_DELAY_MS <= backoff_delay_ms(failed) <= MAX_DELAY_MS,
    decreases failed,
{
    if failed > 1 {
        lemma_backoff_bounded((failed - 1) as nat);
    }
}

/// The wait after the `failed`-th failed attempt.
pub fn backoff_delay(failed: u32) -> (ms: u64)
    ensures
        ms == backoff_delay_ms(failed as nat),
{
    let mut ms: u64 = INITIAL_DELAY_MS;
    let mut k: u32 = 1;
    while k < failed
        invariant
            1 <= k,
            k <= failed || k == 1,
            ms == backoff_delay_ms(k as nat),
        decreases failed - k,
    {
        proof {
            lemma_backoff_bounded(k as nat);
        }
        let doubled: u64 = 2 * ms;
        ms = if doubled < MAX_DELAY_MS {
            doubled
        } else {
            MAX_DELAY_MS
        };
        k = k + 1;
    }
    ms
}

/// What the driver asks for after an attempt.
#[derive(Clone, Debug, PartialEq)]
pub enum RetryStep<T> {
    /// The attempt succeeded with this value.
    Done(T),
    /// The run is over with this error.
    GiveUp(IflyrecError),
    /// Wait this many milliseconds, then make another attempt.
    Wait(u64),
}

/// The driver's decision once `made` attempts came before the one that gave `outcome`.
pub open spec fn retry_step<T>(made: nat, outcome: Result<T, IflyrecError>) -> RetryStep<T> {
    match outcome {
        Ok(v) => RetryStep::Done(v),
        Err(e) => if is_transient(e) && made + 1 < MAX_ATTEMPTS {
            RetryStep::Wait(backoff_delay_ms(made + 1) as u64)
        } else {
            RetryStep::GiveUp(e)
        },
    }
}

/// Counts the attempts of one retry run and decides after each.
#[derive(Debug)]
pub struct RetryDriver {
    attempts: u32,
}

impl RetryDriver {
    /// Attempts recorded so far.
    pub closed spec fn attempts_made(&self) -> nat {
        self.attempts as nat
    }

    /// A driver before its first attempt.
    pub fn new() -> (d: Self)
        ensures
            d.attempts_made() == 0,
    {
        RetryDriver { attempts: 0 }
    }

    /// Attempts recorded so far.
    pub fn attempts(&self) -> (n: u32)
        ensures
            n == self.attempts_made(),
    {
        self.attempts
    }

    /// Records the outcome of one attempt and decides what comes next.
    pub fn record<T>(&mut self, outcome: Result<T, IflyrecError>) -> (step: RetryStep<T>)
        ensures
            step == retry_step(old(self).attempts_made(), outcome),
            final(self).attempts_made() == if old(self).attempts_made() < u32::MAX {
                old(self).attempts_made() + 1
            } else {
                old(self).attempts_made()
            },
    {
        let made = self.attempts;
        if self.attempts < u32::MAX {
            self.attempts = self.attempts + 1;
        }
        match outcome {
            Ok(v) => RetryStep::Done(v),
            Err(e) => {
                if is_retryable(&e) && made < MAX_ATTEMPTS - 1 {
                    RetryStep::Wait(backoff_delay(made + 1))
                } else {
                    RetryStep::GiveUp(e)
                }
            },
        }
    }
}

/// A retry run fed with the outcomes of successive attempts, `made` attempts
/// already behind it: how many attempts it has made when it stops, and the
/// outcome it stops with (`None` when the outcomes run out before it stops).
pub open spec fn run_from<T>(outcomes: Seq<Result<T, IflyrecError>>, made: nat) -> (nat, Option<
    Result<T, IflyrecError>,
>)
    decreases outcomes.len() - made,
{
    if made >= outcomes.len() {
        (made, None)
    } else {
        match retry_step(made, outcomes[made as int]) {
            RetryStep::Done(v) => (made + 1, Some(Ok(v))),
            RetryStep::GiveUp(e) => (made + 1, Some(Err(e))),
            RetryStep::Wait(_) => run_from(outcomes, made + 1),
        }
    }
}

/// A whole retry run over the outcomes of successive attempts.
pub open spec fn run<T>(outcomes: Seq<Result<T, IflyrecError>>) -> (nat, Option<
    Result<T, IflyrecError>,
>) {
    run_from(outcomes, 0)
}

proof fn lemma_run_reaches<T>(outcomes: Seq<Result<T, IflyrecError>>, made: nat, n: nat)
    requires
        made < n <= MAX_ATTEMPTS,
        n <= outcomes.len(),
        forall|i: int| made <= i < n - 1 ==> #[trigger] outcomes[i] is Err && is_transient(outcomes[i]->Err_0),
        outcomes[n - 1] is Ok || !is_transient(outcomes[n - 1]->Err_0) || n == MAX_ATTEMPTS,
    ensures
        run_from(outcomes, made) == (n, Some(outcomes[n - 1])),
    decreases n - made,
{
    if made + 1 < n {
        lemma_run_reaches(outcomes, made + 1, n);
    }
}

/// When the first `n - 1` attempts (`n` at most five) fail with a transient error
/// and attempt `n` succeeds, the run succeeds with that value after exactly `n`
/// attempts.
pub proof fn law_success_after_transient_failures<T>(outcomes: Seq<Result<T, IflyrecError>>, n: nat)
    requires
        1 <= n <= MAX_ATTEMPTS,
        n <= outcomes.len(),
        forall|i: int| 0 <= i < n - 1 ==> #[trigger] outcomes[i] is Err && is_transient(outcomes[i]->Err_0),
        outcomes[n - 1] is Ok,
    ensures
        run(outcomes) == (n, Some(outcomes[n - 1])),
{
    lemma_run_reaches(outcomes, 0, n);
}

/// A fatal error on the first attempt ends the run with that error after exactly
/// one attempt.
pub proof fn law_fatal_error_fails_fast<T>(outcomes: Seq<Result<T, IflyrecError>>)
    requires
        outcomes.len() >= 1,
        outcomes[0] is Err,
        !is_transient(outcomes[0]->Err_0),
    ensures
        run(outcomes) == (1nat, Some(outcomes[0])),
{
}

/// An API error whose description lacks the duration-computing marker, on the
/// first attempt, ends the run with that error after exactly one attempt.
pub proof fn law_other_api_error_fails_fast<T>(outcomes: Seq<Result<T, IflyrecError>>)
    requires
        outcomes.len() >= 1,
        outcomes[0] matches Err(IflyrecError::ApiError { desc, .. }) && !contains_seq(
            desc@,
            DURATION_COMPUTING_MARKER@,
        ),
    ensures
        run(outcomes) == (1nat, Some(outcomes[0])),
{
}

/// When every attempt fails with a transient error, the run gives up after exactly
/// five attempts with the error of the fifth.
pub proof fn law_budget_exhausted<T>(outcomes: Seq<Result<T, IflyrecError>>)
    requires
        outcomes.len() >= MAX_ATTEMPTS,
        forall|i: int| 0 <= i < MAX_ATTEMPTS ==> #[trigger] outcomes[i] is Err && is_transient(outcomes[i]->Err_0),
    ensures
        run(outcomes) == (MAX_ATTEMPTS as nat, Some(outcomes[MAX_ATTEMPTS - 1])),
        outcomes[MAX_ATTEMPTS - 1] is Err,
{
    lemma_run_reaches(outcomes, 0, MAX_ATTEMPTS as nat);
}

} // verus!
