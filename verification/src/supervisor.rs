//! Fail-fast supervision of the consensus run loop.
//!
//! The consensus engine's leader-or-follower future runs forever on one
//! dedicated thread with its own scheduler, isolated from the broker's
//! primary scheduler. Under correct operation that future never returns;
//! if it ever completes — success, engine error or scheduler failure alike
//! — the node's consensus participation is dead, and a node serving client
//! traffic with a stale view of cluster state is worse than a dead one.
//! This module fixes the dedicated scheduler's shape, and answers every
//! termination of the run loop in the same way: record the cause, wait
//! briefly so the record can flush, then terminate the whole process with
//! a non-zero exit status. The host carries that action out; an external
//! process supervisor is expected to restart and re-bootstrap the node.

use vstd::prelude::*;

verus! {

/// Worker threads of the dedicated scheduler that drives the run loop.
pub const SUPERVISOR_WORKER_THREADS: usize = 8;

/// Stack size of each of those workers, in bytes.
pub const SUPERVISOR_WORKER_STACK_BYTES: usize = 4 * 1024 * 1024;

/// How long to wait before exiting, in milliseconds, so the final log line
/// can flush.
pub const EXIT_FLUSH_DELAY_MS: u64 = 500;

/// The process exit status reported when the run loop terminates.
pub const EXIT_STATUS: i32 = -1;

/// Shape of the dedicated scheduler the supervisor's thread runs.
#[derive(Debug, PartialEq, Eq, Clone, Copy)]
pub struct SchedulerConfig {
    pub worker_threads: usize,
    pub worker_stack_bytes: usize,
}

/// The fixed shape of the supervisor's dedicated scheduler.
pub fn scheduler_config() -> (c: SchedulerConfig)
    ensures
        c.worker_threads == SUPERVISOR_WORKER_THREADS,
        c.worker_stack_bytes == SUPERVISOR_WORKER_STACK_BYTES,
{
    SchedulerConfig {
        worker_threads: SUPERVISOR_WORKER_THREADS,
        worker_stack_bytes: SUPERVISOR_WORKER_STACK_BYTES,
    }
}

/// How the consensus run loop came to return.
#[derive(Debug, PartialEq, Eq, Clone, Copy)]
pub enum RunTermination {
    /// The future returned without an error.
    RanToEnd,
    /// The future returned an engine error.
    EngineFailed,
    /// The scheduler task driving the future failed.
    SchedulerFailed,
}

/// What the supervisor does about a terminated run loop.
#[derive(Debug, PartialEq, Eq, Clone, Copy)]
pub struct FatalAction {
    pub flush_delay_ms: u64,
    pub exit_status: i32,
}

/// The verdict on a terminated run loop: the same fatal action whatever the
/// cause — this core recognizes no distinction between the engine's own
/// error, a scheduler failure, and a clean return.
pub open spec fn verdict_of(termination: RunTermination) -> FatalAction {
    FatalAction { flush_delay_ms: EXIT_FLUSH_DELAY_MS, exit_status: EXIT_STATUS }
}

/// Decide what to do about a terminated run loop. Every termination is
/// fatal: the process exits with a non-zero status after a short flush
/// delay, rather than degrading silently.
pub fn supervisor_verdict(termination: RunTermination) -> (a: FatalAction)
    ensures
        a == verdict_of(termination),
        a.exit_status != 0,
        a.flush_delay_ms == EXIT_FLUSH_DELAY_MS,
{
    FatalAction { flush_delay_ms: EXIT_FLUSH_DELAY_MS, exit_status: EXIT_STATUS }
}

/// Law: the supervision policy is total — every way the run loop can
/// terminate draws the same fatal, non-zero-exit verdict.
pub proof fn lemma_every_termination_is_fatal(termination: RunTermination)
    ensures
        verdict_of(termination).exit_status != 0,
        verdict_of(termination) == verdict_of(RunTermination::RanToEnd),
{
}

} // verus!
