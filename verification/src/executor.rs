//! Bounded, admission-controlled task executor.
//!
//! All cross-node fan-out and background replication work is submitted to
//! one process-wide executor with a fixed worker count and a bounded
//! backlog, so that one slow or partitioned peer cannot cause unbounded
//! memory or thread growth locally. A task here is its admission ticket —
//! an id chosen by the submitter; running the work it stands for is the
//! host's job. The executor admits tasks first come first served, hands
//! them to workers in admission order, and exposes its waiting, active and
//! completed counts for observability.

use vstd::prelude::*;

verus! {

/// Live counters of the executor, for operational visibility.
#[derive(Debug, PartialEq, Eq, Clone, Copy)]
pub struct ExecutorStats {
    pub waiting_count: usize,
    pub active_count: usize,
    pub completed_count: u64,
}

/// The bounded executor: a FIFO backlog of admitted tasks, a count of
/// tasks being executed, and a cumulative count of tasks completed.
pub struct BoundedTaskExecutor {
    workers: usize,
    queue_max: usize,
    queue: Vec<u64>,
    active: usize,
    completed: u64,
    started_order: Ghost<Seq<u64>>,
    admitted_order: Ghost<Seq<u64>>,
}

impl BoundedTaskExecutor {
    /// The configured worker count.
    pub closed spec fn worker_count(self) -> nat {
        self.workers as nat
    }

    /// The configured backlog bound.
    pub closed spec fn capacity(self) -> nat {
        self.queue_max as nat
    }

    /// The admitted tasks still waiting, in admission order.
    pub closed spec fn pending(self) -> Seq<u64> {
        self.queue@
    }

    /// How many tasks are waiting.
    pub open spec fn waiting(self) -> nat {
        self.pending().len()
    }

    /// How many tasks are being executed.
    pub closed spec fn active(self) -> nat {
        self.active as nat
    }

    /// How many tasks have completed since construction.
    pub closed spec fn completed(self) -> nat {
        self.completed as nat
    }

    /// Every task handed to a worker so far, in the order handed out.
    pub closed spec fn started(self) -> Seq<u64> {
        self.started_order@
    }

    /// Every task ever admitted, in admission order.
    pub closed spec fn admitted(self) -> Seq<u64> {
        self.admitted_order@
    }

    /// The executor's invariant: the backlog never exceeds its bound, no
    /// more tasks run than there are workers, the counters agree with the
    /// admission history, and tasks are handed out in admission order —
    /// what was handed out so far, followed by what still waits, is
    /// exactly what was admitted.
    pub closed spec fn wf(self) -> bool {
        &&& self.queue@.len() <= self.queue_max
        &&& self.active <= self.workers
        &&& self.started_order@.len() == self.completed + self.active
        &&& self.admitted_order@ == self.started_order@ + self.queue@
    }

    /// Law: counter consistency, in every state reachable through this
    /// interface. The backlog is bounded by the configured capacity, no
    /// more tasks are active than workers, no task is counted completed
    /// before it was handed to a worker, tasks are handed to workers in
    /// admission order, and the three counters partition the admission
    /// history.
    pub proof fn lemma_counter_consistency(self)
        requires
            self.wf(),
        ensures
            self.waiting() <= self.capacity(),
            self.active() <= self.worker_count(),
            self.completed() <= self.started().len(),
            self.started().len() == self.completed() + self.active(),
            self.started() + self.pending() == self.admitted(),
            self.admitted().len() == self.waiting() + self.active() + self.completed(),
    {
    }

    /// A fresh executor with the given worker count and backlog bound.
    pub fn new(workers: usize, queue_max: usize) -> (r: Self)
        ensures
            r.wf(),
            r.worker_count() == workers,
            r.capacity() == queue_max,
            r.waiting() == 0,
            r.active() == 0,
            r.completed() == 0,
            r.admitted() == Seq::<u64>::empty(),
            r.started() == Seq::<u64>::empty(),
    {
        BoundedTaskExecutor {
            workers,
            queue_max,
            queue: Vec::new(),
            active: 0,
            completed: 0,
            started_order: Ghost(Seq::empty()),
            admitted_order: Ghost(Seq::empty()),
        }
    }

    /// Submit one task. It is admitted — appended to the backlog — exactly
    /// when the backlog is below its bound; otherwise it is rejected, the
    /// executor unchanged, and the caller must shed the load rather than
    /// retry unboundedly.
    pub fn try_submit(&mut self, task: u64) -> (admitted: bool)
        requires
            old(self).wf(),
        ensures
            final(self).wf(),
            admitted <==> old(self).waiting() < old(self).capacity(),
            !admitted ==> *final(self) == *old(self),
            admitted ==> final(self).pending() == old(self).pending().push(task),
            admitted ==> final(self).admitted() == old(self).admitted().push(task),
            final(self).started() == old(self).started(),
            final(self).active() == old(self).active(),
            final(self).completed() == old(self).completed(),
            final(self).worker_count() == old(self).worker_count(),
            final(self).capacity() == old(self).capacity(),
    {
        if self.queue.len() < self.queue_max {
            self.queue.push(task);
            proof {
                self.admitted_order@ = self.admitted_order@.push(task);
                assert(self.admitted_order@ =~= self.started_order@ + self.queue@);
            }
            true
        } else {
            false
        }
    }

    /// Hand the longest-waiting task to a worker. A task is handed out —
    /// first admitted, first scheduled — exactly when the backlog is
    /// non-empty and a worker is free; otherwise nothing changes.
    pub fn start_next(&mut self) -> (task: Option<u64>)
        requires
            old(self).wf(),
        ensures
            final(self).wf(),
            task is Some <==> old(self).waiting() > 0 && old(self).active() < old(
                self,
            ).worker_count(),
            task is None ==> *final(self) == *old(self),
            task matches Some(t) ==> {
                &&& t == old(self).pending()[0]
                &&& final(self).pending() == old(self).pending().drop_first()
                &&& final(self).started() == old(self).started().push(t)
                &&& final(self).active() == old(self).active() + 1
            },
            final(self).admitted() == old(self).admitted(),
            final(self).completed() == old(self).completed(),
            final(self).worker_count() == old(self).worker_count(),
            final(self).capacity() == old(self).capacity(),
    {
        if self.queue.len() > 0 && self.active < self.workers {
            let ghost pre = self.queue@;
            let task = self.queue.remove(0);
            self.active = self.active + 1;
            proof {
                self.started_order@ = self.started_order@.push(task);
                assert(pre.remove(0) =~= pre.drop_first());
                assert(self.admitted_order@ =~= self.started_order@ + self.queue@);
            }
            Some(task)
        } else {
            None
        }
    }

    /// Record that a worker finished one task.
    pub fn complete_one(&mut self)
        requires
            old(self).wf(),
            old(self).active() > 0,
            old(self).completed() < u64::MAX,
        ensures
            final(self).wf(),
            final(self).completed() == old(self).completed() + 1,
            final(self).active() == old(self).active() - 1,
            final(self).pending() == old(self).pending(),
            final(self).started() == old(self).started(),
            final(self).admitted() == old(self).admitted(),
            final(self).worker_count() == old(self).worker_count(),
            final(self).capacity() == old(self).capacity(),
    {
        self.active = self.active - 1;
        self.completed = self.completed + 1;
    }

    /// How many admitted tasks are waiting.
    pub fn waiting_count(&self) -> (n: usize)
        ensures
            n == self.waiting(),
    {
        self.queue.len()
    }

    /// How many tasks are being executed.
    pub fn active_count(&self) -> (n: usize)
        ensures
            n == self.active(),
    {
        self.active
    }

    /// How many tasks have completed since construction.
    pub fn completed_count(&self) -> (n: u64)
        ensures
            n == self.completed(),
    {
        self.completed
    }

    /// A point-in-time snapshot of the three counters.
    pub fn stats(&self) -> (s: ExecutorStats)
        ensures
            s.waiting_count == self.waiting(),
            s.active_count == self.active(),
            s.completed_count == self.completed(),
    {
        ExecutorStats {
            waiting_count: self.queue.len(),
            active_count: self.active,
            completed_count: self.completed,
        }
    }
}

/// Why the executor singleton could not be initialized.
#[derive(Debug, PartialEq, Eq)]
pub enum ExecInitError {
    /// The executor was already initialized: initializing it twice is a
    /// programming error, reported loudly.
    AlreadyInitialized,
}

/// The process-wide executor slot: constructed empty once at startup,
/// initialized exactly once, then shared by every submitter.
pub struct ExecutorSlot {
    inner: Option<BoundedTaskExecutor>,
}

impl ExecutorSlot {
    /// Whether the slot has been initialized.
    pub closed spec fn is_init(self) -> bool {
        self.inner is Some
    }

    /// The executor held by an initialized slot.
    pub closed spec fn executor(self) -> BoundedTaskExecutor {
        self.inner->0
    }

    /// An empty, not yet initialized slot.
    pub fn empty() -> (s: Self)
        ensures
            !s.is_init(),
    {
        ExecutorSlot { inner: None }
    }

    /// Initialize the slot with a fresh executor. Exactly the first
    /// initialization succeeds; any later one fails loudly and leaves the
    /// slot as it was.
    pub fn init(&mut self, workers: usize, queue_max: usize) -> (r: Result<(), ExecInitError>)
        ensures
            r is Ok <==> !old(self).is_init(),
            old(self).is_init() ==> *final(self) == *old(self) && r == Result::<
                (),
                ExecInitError,
            >::Err(ExecInitError::AlreadyInitialized),
            !old(self).is_init() ==> {
                &&& final(self).is_init()
                &&& final(self).executor().wf()
                &&& final(self).executor().worker_count() == workers
                &&& final(self).executor().capacity() == queue_max
                &&& final(self).executor().waiting() == 0
                &&& final(self).executor().active() == 0
                &&& final(self).executor().completed() == 0
                &&& final(self).executor().admitted() == Seq::<u64>::empty()
            },
    {
        if self.inner.is_some() {
            Err(ExecInitError::AlreadyInitialized)
        } else {
            self.inner = Some(BoundedTaskExecutor::new(workers, queue_max));
            Ok(())
        }
    }

    /// Read access to the executor of an initialized slot.
    pub fn get(&self) -> (e: &BoundedTaskExecutor)
        requires
            self.is_init(),
        ensures
            *e == self.executor(),
    {
        match &self.inner {
            Some(e) => e,
            None => unreached(),
        }
    }

    /// Write access to the executor of an initialized slot.
    pub fn get_mut(&mut self) -> (e: &mut BoundedTaskExecutor)
        requires
            old(self).is_init(),
        ensures
            *e == old(self).executor(),
            final(self).is_init(),
            final(self).executor() == *final(e),
    {
        match &mut self.inner {
            Some(e) => e,
            None => unreached(),
        }
    }
}

} // verus!
