//! Retrying point-to-point RPC policy.
//!
//! One cluster RPC message is delivered to one remote node with a bounded
//! number of retries and a fixed delay between attempts — deliberately
//! without backoff, since cluster RPC is expected to be low-latency LAN
//! traffic. The send itself is network work done by the host; this module
//! decides, after each attempt, whether to accept the reply, wait and
//! resend, or give up with the last error. No idempotency is provided:
//! retries may deliver a message twice, so callers must make their own
//! messages idempotent.

use vstd::prelude::*;

verus! {

/// What the messenger decides after seeing one send attempt's outcome.
#[derive(Debug, PartialEq, Eq)]
pub enum SendStep<R, E> {
    /// The attempt succeeded: the remote reply, and how many retries were
    /// needed before it (zero when the first attempt succeeded).
    Delivered(R, usize),
    /// The attempt failed and retries remain: wait the fixed delay, then
    /// send again.
    Retry,
    /// The attempt failed and retries are exhausted: the last error, tagged
    /// with the retry count — the maximum, so `max_retries + 1` attempts
    /// were made in all.
    Exhausted(E, usize),
}

/// Progress of one delivery: how many retries were spent, out of a fixed
/// maximum, and the fixed delay to wait between attempts.
#[derive(Debug, PartialEq, Eq)]
pub struct RetryingMessenger {
    pub current_retry: usize,
    pub max_retries: usize,
    pub retry_interval_ms: u64,
}

impl RetryingMessenger {
    /// A fresh delivery with the given retry maximum and inter-attempt delay.
    pub fn new(max_retries: usize, retry_interval_ms: u64) -> (r: Self)
        ensures
            r.current_retry == 0,
            r.max_retries == max_retries,
            r.retry_interval_ms == retry_interval_ms,
    {
        RetryingMessenger { current_retry: 0, max_retries, retry_interval_ms }
    }

    /// What [`Self::on_attempt`] decides: a reply ends the delivery; a failed
    /// attempt is retried while retries remain, and otherwise ends the
    /// delivery with the last error.
    pub open spec fn decision<R, E>(self, outcome: Result<R, E>) -> SendStep<R, E> {
        match outcome {
            Ok(reply) => SendStep::Delivered(reply, self.current_retry),
            Err(e) => if self.current_retry < self.max_retries {
                SendStep::Retry
            } else {
                SendStep::Exhausted(e, self.current_retry)
            },
        }
    }

    /// Feed the outcome of one send attempt and decide what to do next.
    pub fn on_attempt<R, E>(&mut self, outcome: Result<R, E>) -> (step: SendStep<R, E>)
        ensures
            final(self).max_retries == old(self).max_retries,
            final(self).retry_interval_ms == old(self).retry_interval_ms,
            step == old(self).decision(outcome),
            step is Retry ==> final(self).current_retry == old(self).current_retry + 1,
            !(step is Retry) ==> final(self).current_retry == old(self).current_retry,
    {
        match outcome {
            Ok(reply) => SendStep::Delivered(reply, self.current_retry),
            Err(e) => {
                if self.current_retry < self.max_retries {
                    self.current_retry = self.current_retry + 1;
                    SendStep::Retry
                } else {
                    SendStep::Exhausted(e, self.current_retry)
                }
            },
        }
    }
}

/// The step a full delivery ends with when its successive attempts see these
/// outcomes, having already spent `current_retry` of `max_retries` retries:
/// `None` when the outcomes run out before the delivery ends.
pub open spec fn send_run<R, E>(
    outcomes: Seq<Result<R, E>>,
    current_retry: usize,
    max_retries: usize,
) -> Option<SendStep<R, E>>
    decreases outcomes.len(),
{
    if outcomes.len() == 0 {
        None
    } else {
        match outcomes[0] {
            Ok(reply) => Some(SendStep::Delivered(reply, current_retry)),
            Err(e) => if current_retry < max_retries {
                send_run(outcomes.drop_first(), (current_retry + 1) as usize, max_retries)
            } else {
                Some(SendStep::Exhausted(e, current_retry))
            },
        }
    }
}

/// How many attempts such a delivery makes before it ends.
pub open spec fn send_attempts<R, E>(
    outcomes: Seq<Result<R, E>>,
    current_retry: usize,
    max_retries: usize,
) -> nat
    decreases outcomes.len(),
{
    if outcomes.len() == 0 {
        0
    } else {
        match outcomes[0] {
            Ok(reply) => 1,
            Err(e) => if current_retry < max_retries {
                1 + send_attempts(outcomes.drop_first(), (current_retry + 1) as usize, max_retries)
            } else {
                1
            },
        }
    }
}

/// Law: a destination that fails the first `k` attempts and then replies —
/// with `k` at most the retry maximum — yields the reply of attempt `k`,
/// reported with `k` retries, after `k + 1` attempts in all.
pub proof fn lemma_send_retries_then_delivers<R, E>(
    outcomes: Seq<Result<R, E>>,
    k: int,
    max_retries: usize,
)
    requires
        0 <= k < outcomes.len(),
        k <= max_retries,
        outcomes[k] is Ok,
        forall|j: int| 0 <= j < k ==> outcomes[j] is Err,
    ensures
        (send_run(outcomes, 0, max_retries) matches Some(step)
            && step matches SendStep::Delivered(reply, retries)
            && outcomes[k] == Ok::<R, E>(reply) && retries == k),
        send_attempts(outcomes, 0, max_retries) == k + 1,
{
    lemma_send_delivers_general(outcomes, k, 0, max_retries);
}

/// The delivery law above, from any number of retries already spent.
pub proof fn lemma_send_delivers_general<R, E>(
    outcomes: Seq<Result<R, E>>,
    k: int,
    current_retry: usize,
    max_retries: usize,
)
    requires
        0 <= k < outcomes.len(),
        current_retry + k <= max_retries,
        outcomes[k] is Ok,
        forall|j: int| 0 <= j < k ==> outcomes[j] is Err,
    ensures
        (send_run(outcomes, current_retry, max_retries) matches Some(step)
            && step matches SendStep::Delivered(reply, retries)
            && outcomes[k] == Ok::<R, E>(reply) && retries == current_retry + k),
        send_attempts(outcomes, current_retry, max_retries) == k + 1,
    decreases k,
{
    if k > 0 {
        lemma_send_delivers_general(
            outcomes.drop_first(),
            k - 1,
            (current_retry + 1) as usize,
            max_retries,
        );
    }
}

/// Law: a destination that always fails ends the delivery with the error of
/// the last allowed attempt, after exactly `max_retries + 1` attempts.
pub proof fn lemma_send_exhaustion<R, E>(outcomes: Seq<Result<R, E>>, max_retries: usize)
    requires
        max_retries < outcomes.len(),
        forall|j: int| 0 <= j <= max_retries ==> outcomes[j] is Err,
    ensures
        (send_run(outcomes, 0, max_retries) matches Some(step)
            && step matches SendStep::Exhausted(e, retries)
            && outcomes[max_retries as int] == Err::<R, E>(e) && retries == max_retries),
        send_attempts(outcomes, 0, max_retries) == max_retries + 1,
{
    lemma_send_exhaustion_general(outcomes, 0, max_retries);
}

/// The exhaustion law above, from any number of retries already spent.
pub proof fn lemma_send_exhaustion_general<R, E>(
    outcomes: Seq<Result<R, E>>,
    current_retry: usize,
    max_retries: usize,
)
    requires
        current_retry <= max_retries,
        max_retries - current_retry < outcomes.len(),
        forall|j: int| 0 <= j <= max_retries - current_retry ==> outcomes[j] is Err,
    ensures
        (send_run(outcomes, current_retry, max_retries) matches Some(step)
            && step matches SendStep::Exhausted(e, retries)
            && outcomes[max_retries - current_retry] == Err::<R, E>(e)
            && retries == max_retries),
        send_attempts(outcomes, current_retry, max_retries) == max_retries - current_retry + 1,
    decreases max_retries - current_retry,
{
    if current_retry < max_retries {
        lemma_send_exhaustion_general(
            outcomes.drop_first(),
            (current_retry + 1) as usize,
            max_retries,
        );
    }
}

/// Run a whole delivery against the outcomes its attempts would see, and
/// report the step it ends with — `None` when the outcomes run out first —
/// together with the number of attempts consumed.
pub fn send_from_outcomes<R, E>(
    max_retries: usize,
    retry_interval_ms: u64,
    outcomes: Vec<Result<R, E>>,
) -> (r: (Option<SendStep<R, E>>, usize))
    ensures
        r.0 == send_run(outcomes@, 0, max_retries),
        r.1 == send_attempts(outcomes@, 0, max_retries),
{
    let ghost all = outcomes@;
    let mut remaining = outcomes;
    let mut messenger = RetryingMessenger::new(max_retries, retry_interval_ms);
    let mut attempts: usize = 0;
    let total: usize = remaining.len();
    proof {
        assert(all.len() == total);
    }
    loop
        invariant
            all == outcomes@,
            messenger.max_retries == max_retries,
            attempts + remaining@.len() == all.len(),
            all.len() <= usize::MAX,
            send_run(all, 0, max_retries) == send_run(
                remaining@,
                messenger.current_retry,
                max_retries,
            ),
            send_attempts(all, 0, max_retries) == attempts + send_attempts(
                remaining@,
                messenger.current_retry,
                max_retries,
            ),
        decreases remaining@.len(),
    {
        if remaining.len() == 0 {
            return (None, attempts);
        }
        let ghost pre = remaining@;
        let outcome = remaining.remove(0);
        proof {
            assert(pre.drop_first() =~= remaining@);
        }
        attempts = attempts + 1;
        match messenger.on_attempt(outcome) {
            SendStep::Delivered(reply, retries) => {
                return (Some(SendStep::Delivered(reply, retries)), attempts);
            },
            SendStep::Retry => {
            },
            SendStep::Exhausted(e, retries) => {
                return (Some(SendStep::Exhausted(e, retries)), attempts);
            },
        }
    }
}

} // verus!
