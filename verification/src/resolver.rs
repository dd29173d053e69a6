//! Retrying address resolution policy.
//!
//! A configured peer address may be a DNS name that is not resolvable at
//! process start (for example an orchestrator-assigned hostname), so
//! resolution is attempted a bounded number of times, with a randomized
//! delay between attempts. The resolution itself is network work done by
//! the host; this module decides, after each attempt, whether to accept an
//! endpoint, wait and retry, or give up.

use vstd::prelude::*;

verus! {

/// How many resolution attempts are made before giving up.
pub const RESOLVE_ATTEMPTS: usize = 10;

/// Smallest delay between two resolution attempts, in milliseconds.
pub const RESOLVE_DELAY_BASE_MS: u64 = 500;

/// Width of the randomized delay window, in milliseconds.
pub const RESOLVE_DELAY_SPREAD_MS: u64 = 300;

/// The delay before the next resolution attempt, drawn from the window
/// `[RESOLVE_DELAY_BASE_MS, RESOLVE_DELAY_BASE_MS + RESOLVE_DELAY_SPREAD_MS)`
/// by reducing one uniformly random machine word.
pub fn retry_delay_ms(random: u64) -> (d: u64)
    ensures
        d == random % RESOLVE_DELAY_SPREAD_MS + RESOLVE_DELAY_BASE_MS,
        RESOLVE_DELAY_BASE_MS <= d < RESOLVE_DELAY_BASE_MS + RESOLVE_DELAY_SPREAD_MS,
{
    random % RESOLVE_DELAY_SPREAD_MS + RESOLVE_DELAY_BASE_MS
}

/// What the resolver decides after seeing one attempt's outcome.
#[derive(Debug, PartialEq, Eq)]
pub enum ResolveStep<T> {
    /// The attempt produced an endpoint: resolution is over.
    Resolved(T),
    /// The attempt produced nothing and attempts remain: wait a randomized
    /// delay (see [`retry_delay_ms`]), then try again.
    Retry,
    /// The attempt produced nothing and the budget is spent: resolution has
    /// failed, and the caller reports an error naming the original address.
    Failed,
}

/// Progress of one resolution: how many attempts were made, out of a fixed
/// budget.
#[derive(Debug, PartialEq, Eq)]
pub struct AddressResolver {
    pub attempts_done: usize,
    pub budget: usize,
}

impl AddressResolver {
    /// A fresh resolution with the given attempt budget.
    pub fn new(budget: usize) -> (r: Self)
        ensures
            r.attempts_done == 0,
            r.budget == budget,
    {
        AddressResolver { attempts_done: 0, budget }
    }

    /// What [`Self::on_attempt`] decides: an endpoint ends the resolution; a
    /// failed attempt — a resolution error and a resolution with zero results
    /// are the same outcome, `None` — is retried while attempts remain.
    pub open spec fn decision<T>(self, outcome: Option<T>) -> ResolveStep<T> {
        match outcome {
            Some(endpoint) => ResolveStep::Resolved(endpoint),
            None => if self.attempts_done + 1 < self.budget {
                ResolveStep::Retry
            } else {
                ResolveStep::Failed
            },
        }
    }

    /// Feed the outcome of one resolution attempt and decide what to do next.
    pub fn on_attempt<T>(&mut self, outcome: Option<T>) -> (step: ResolveStep<T>)
        requires
            old(self).attempts_done < old(self).budget,
        ensures
            final(self).budget == old(self).budget,
            final(self).attempts_done == old(self).attempts_done + 1,
            step == old(self).decision(outcome),
    {
        self.attempts_done = self.attempts_done + 1;
        match outcome {
            Some(endpoint) => ResolveStep::Resolved(endpoint),
            None => {
                if self.attempts_done < self.budget {
                    ResolveStep::Retry
                } else {
                    ResolveStep::Failed
                }
            },
        }
    }
}

/// The endpoint a full resolution returns when its successive attempts see
/// these outcomes, one outcome per allowed attempt: the first endpoint seen,
/// or `None` when no attempt produces one.
pub open spec fn resolver_run<T>(outcomes: Seq<Option<T>>) -> Option<T>
    decreases outcomes.len(),
{
    if outcomes.len() == 0 {
        None
    } else if outcomes[0] is Some {
        outcomes[0]
    } else {
        resolver_run(outcomes.drop_first())
    }
}

/// How many attempts such a resolution makes before it stops.
pub open spec fn resolver_attempts<T>(outcomes: Seq<Option<T>>) -> nat
    decreases outcomes.len(),
{
    if outcomes.len() == 0 {
        0
    } else if outcomes[0] is Some {
        1
    } else {
        1 + resolver_attempts(outcomes.drop_first())
    }
}

/// Law: an address that becomes resolvable within the attempt budget — its
/// first productive attempt is the `i`-th of the outcomes allowed — resolves
/// to that attempt's endpoint, after exactly `i + 1` attempts.
pub proof fn lemma_resolver_first_success<T>(outcomes: Seq<Option<T>>, i: int)
    requires
        0 <= i < outcomes.len(),
        outcomes[i] is Some,
        forall|j: int| 0 <= j < i ==> outcomes[j] is None,
    ensures
        resolver_run(outcomes) == outcomes[i],
        resolver_attempts(outcomes) == i + 1,
    decreases i,
{
    if i > 0 {
        lemma_resolver_first_success(outcomes.drop_first(), i - 1);
    }
}

/// Law: an address that becomes resolvable within the attempt budget — any
/// of the outcomes allowed is an endpoint — resolves.
pub proof fn lemma_resolver_eventually_succeeds<T>(outcomes: Seq<Option<T>>)
    requires
        exists|i: int| 0 <= i < outcomes.len() && outcomes[i] is Some,
    ensures
        resolver_run(outcomes) is Some,
    decreases outcomes.len(),
{
    if !(outcomes[0] is Some) {
        let i = choose|i: int| 0 <= i < outcomes.len() && outcomes[i] is Some;
        assert(outcomes.drop_first()[i - 1] is Some);
        lemma_resolver_eventually_succeeds(outcomes.drop_first());
    }
}

/// Law: an address none of whose allowed attempts resolves fails after
/// exactly the allowed number of attempts, never more.
pub proof fn lemma_resolver_exhaustion<T>(outcomes: Seq<Option<T>>)
    requires
        forall|j: int| 0 <= j < outcomes.len() ==> outcomes[j] is None,
    ensures
        resolver_run(outcomes) is None,
        resolver_attempts(outcomes) == outcomes.len(),
    decreases outcomes.len(),
{
    if outcomes.len() > 0 {
        lemma_resolver_exhaustion(outcomes.drop_first());
    }
}

/// Run a whole resolution against the outcomes its attempts would see — one
/// per allowed attempt — and report the endpoint found, if any, together
/// with the number of attempts consumed.
pub fn resolve_from_outcomes<T>(outcomes: Vec<Option<T>>) -> (r: (Option<T>, usize))
    ensures
        r.0 == resolver_run(outcomes@),
        r.1 == resolver_attempts(outcomes@),
{
    let ghost all = outcomes@;
    let mut remaining = outcomes;
    let mut resolver = AddressResolver::new(remaining.len());
    if remaining.len() == 0 {
        return (None, 0);
    }
    loop
        invariant
            all == outcomes@,
            resolver.budget == all.len(),
            resolver.attempts_done + remaining@.len() == all.len(),
            remaining@.len() > 0,
            resolver_run(all) == resolver_run(remaining@),
            resolver_attempts(all) == resolver.attempts_done + resolver_attempts(remaining@),
        decreases remaining@.len(),
    {
        let ghost pre = remaining@;
        let outcome = remaining.remove(0);
        proof {
            assert(pre.drop_first() =~= remaining@);
        }
        match resolver.on_attempt(outcome) {
            ResolveStep::Resolved(endpoint) => {
                proof {
                    assert(resolver_run(pre) == pre[0]);
                    assert(resolver_attempts(pre) == 1);
                }
                return (Some(endpoint), resolver.attempts_done);
            },
            ResolveStep::Retry => {
            },
            ResolveStep::Failed => {
                proof {
                    assert(outcome is None);
                    assert(remaining@.len() == 0);
                    assert(resolver_run(pre) == resolver_run(remaining@));
                    assert(resolver_attempts(pre) == 1 + resolver_attempts(remaining@));
                }
                return (None, resolver.attempts_done);
            },
        }
    }
}

} // verus!
