//! Startup gate: wait, best-effort, for the consensus group to start.
//!
//! After bootstrap the broker polls consensus status a bounded number of
//! times, at a fixed interval, before announcing itself ready. A status
//! query that fails is a transient condition — the engine may still be
//! initializing — and is retried exactly like a status that is not yet
//! started. Readiness is advisory: when the budget is exhausted the broker
//! proceeds anyway and keeps serving local traffic while the group
//! converges. The status query itself is done by the host; this module
//! decides, after each poll, whether to stop or keep waiting.

use vstd::prelude::*;

verus! {

/// How many status polls are made before proceeding anyway.
pub const STARTUP_POLL_ATTEMPTS: usize = 30;

/// Fixed delay between two status polls, in milliseconds.
pub const STARTUP_POLL_INTERVAL_MS: u64 = 500;

/// What one status poll reported.
#[derive(Debug, PartialEq, Eq, Clone, Copy)]
pub enum PollOutcome {
    /// The group reports itself started.
    Started,
    /// The query succeeded but the group is not started yet.
    NotStarted,
    /// The query itself failed: transient, treated like a group that is not
    /// started yet.
    QueryFailed,
}

/// The decision made after one status poll.
#[derive(Debug, PartialEq, Eq)]
pub enum GateStep {
    /// The group is started: stop polling, the broker is ready.
    Ready,
    /// Not started and polls remain: wait the fixed interval, then poll
    /// again.
    Retry,
    /// Not started and the poll budget is spent: stop polling and proceed
    /// anyway.
    Exhausted,
}

/// Progress of one gate wait: how many polls were made, out of a fixed
/// budget.
#[derive(Debug, PartialEq, Eq)]
pub struct StartupGate {
    pub polls_done: usize,
    pub budget: usize,
}

impl StartupGate {
    /// A fresh gate with the given poll budget.
    pub fn new(budget: usize) -> (r: Self)
        ensures
            r.polls_done == 0,
            r.budget == budget,
    {
        StartupGate { polls_done: 0, budget }
    }

    /// What [`Self::on_poll`] decides: a started group ends the wait; any
    /// other outcome — not started, or the query failing — is retried while
    /// polls remain, and otherwise ends the wait with the budget spent.
    pub open spec fn decision(self, outcome: PollOutcome) -> GateStep {
        match outcome {
            PollOutcome::Started => GateStep::Ready,
            _ => if self.polls_done + 1 < self.budget {
                GateStep::Retry
            } else {
                GateStep::Exhausted
            },
        }
    }

    /// Feed the outcome of one status poll and decide what to do next.
    pub fn on_poll(&mut self, outcome: PollOutcome) -> (step: GateStep)
        requires
            old(self).polls_done < old(self).budget,
        ensures
            final(self).budget == old(self).budget,
            final(self).polls_done == old(self).polls_done + 1,
            step == old(self).decision(outcome),
    {
        self.polls_done = self.polls_done + 1;
        match outcome {
            PollOutcome::Started => GateStep::Ready,
            _ => {
                if self.polls_done < self.budget {
                    GateStep::Retry
                } else {
                    GateStep::Exhausted
                }
            },
        }
    }
}

/// Whether a full gate wait sees the group start when its successive polls
/// report these outcomes, one outcome per allowed poll.
pub open spec fn gate_started(outcomes: Seq<PollOutcome>) -> bool
    decreases outcomes.len(),
{
    if outcomes.len() == 0 {
        false
    } else if outcomes[0] is Started {
        true
    } else {
        gate_started(outcomes.drop_first())
    }
}

/// How many polls such a wait makes before it stops.
pub open spec fn gate_attempts(outcomes: Seq<PollOutcome>) -> nat
    decreases outcomes.len(),
{
    if outcomes.len() == 0 {
        0
    } else if outcomes[0] is Started {
        1
    } else {
        1 + gate_attempts(outcomes.drop_first())
    }
}

/// Law: when the group first reports itself started on poll `i` — within
/// the budget of outcomes allowed — the wait stops right there, after
/// `i + 1` polls, not continuing to the budget.
pub proof fn lemma_gate_stops_at_started(outcomes: Seq<PollOutcome>, i: int)
    requires
        0 <= i < outcomes.len(),
        outcomes[i] is Started,
        forall|j: int| 0 <= j < i ==> !(outcomes[j] is Started),
    ensures
        gate_started(outcomes),
        gate_attempts(outcomes) == i + 1,
    decreases i,
{
    if i > 0 {
        lemma_gate_stops_at_started(outcomes.drop_first(), i - 1);
    }
}

/// Law: when the group never reports itself started, the wait makes exactly
/// the allowed number of polls, never more, and then proceeds anyway.
pub proof fn lemma_gate_exhaustion(outcomes: Seq<PollOutcome>)
    requires
        forall|j: int| 0 <= j < outcomes.len() ==> !(outcomes[j] is Started),
    ensures
        !gate_started(outcomes),
        gate_attempts(outcomes) == outcomes.len(),
    decreases outcomes.len(),
{
    if outcomes.len() > 0 {
        lemma_gate_exhaustion(outcomes.drop_first());
    }
}

/// Run a whole gate wait against the outcomes its polls would see — one per
/// allowed poll — and report whether the group was seen started, together
/// with the number of polls consumed.
pub fn wait_from_outcomes(outcomes: Vec<PollOutcome>) -> (r: (bool, usize))
    ensures
        r.0 == gate_started(outcomes@),
        r.1 == gate_attempts(outcomes@),
{
    let ghost all = outcomes@;
    let mut remaining = outcomes;
    let mut gate = StartupGate::new(remaining.len());
    if remaining.len() == 0 {
        return (false, 0);
    }
    loop
        invariant
            all == outcomes@,
            gate.budget == all.len(),
            gate.polls_done + remaining@.len() == all.len(),
            remaining@.len() > 0,
            gate_started(all) == gate_started(remaining@),
            gate_attempts(all) == gate.polls_done + gate_attempts(remaining@),
        decreases remaining@.len(),
    {
        let ghost pre = remaining@;
        let outcome = remaining.remove(0);
        proof {
            assert(pre.drop_first() =~= remaining@);
        }
        match gate.on_poll(outcome) {
            GateStep::Ready => {
                return (true, gate.polls_done);
            },
            GateStep::Retry => {
            },
            GateStep::Exhausted => {
                proof {
                    assert(!(outcome is Started));
                    assert(remaining@.len() == 0);
                    assert(gate_started(pre) == gate_started(remaining@));
                    assert(gate_attempts(pre) == 1 + gate_attempts(remaining@));
                }
                return (false, gate.polls_done);
            },
        }
    }
}

/// The verdict the broker's own start procedure draws from one status
/// query: a group that reports itself started lets startup complete, any
/// other status is an error.
pub fn confirm_started(started: bool) -> (r: Result<(), StartError>)
    ensures
        r is Ok <==> started,
        started ==> r == Result::<(), StartError>::Ok(()),
        !started ==> r == Result::<(), StartError>::Err(StartError::ClusterNotStarted),
{
    if started {
        Ok(())
    } else {
        Err(StartError::ClusterNotStarted)
    }
}

/// Why the broker's start procedure refused to complete.
#[derive(Debug, PartialEq, Eq)]
pub enum StartError {
    /// The consensus group did not report itself started.
    ClusterNotStarted,
}

} // verus!
