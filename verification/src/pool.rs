//! The worker pool: a fixed set of workers that drain one shared FIFO job
//! queue until an explicit shutdown closes the queue and every worker has
//! drained what remained and terminated.
//!
//! This type is the pool's decision core: it holds the queue and the state of
//! every worker, and each step of the protocol is one call with a full
//! contract. The blocking parts of a running pool — parking an idle worker
//! until a job arrives, executing a job body, joining workers during
//! shutdown — are the embedding program's side of the protocol:
//!
//! - a submitter calls `submit`;
//! - an idle worker calls `worker_fetch`; on `Job` it runs the job body
//!   inside a fault boundary and then calls `worker_finish` (faulted or not),
//!   on `NoneReady` it blocks until woken, on `Finished` it exits its loop;
//! - the owner's shutdown calls `begin_shutdown`, wakes all workers, and
//!   waits until `all_terminated` holds before returning.
//!
//! Two ghost logs record every job accepted by `submit` and every job handed
//! to a worker. The pool invariant ties them to the queue: the submitted log
//! is always the handed log followed by the still-queued jobs. From that,
//! once every worker has terminated, every accepted job was handed to
//! exactly one worker, in submission order, and none was lost, duplicated or
//! left behind — see `lemma_terminated_pool_is_drained`.

use vstd::prelude::*;

use crate::queue::JobQueue;
use crate::queue::Received;

verus! {

/// Error returned by `Pool::new` when asked for a pool of zero workers: such
/// a pool could accept jobs but never run one, so construction refuses it.
#[derive(Debug, PartialEq, Eq, Structural, Clone, Copy)]
pub enum ConstructionError {
    ZeroWorkers,
}

/// Error returned by `submit` once shutdown has begun.
#[derive(Debug, PartialEq, Eq, Structural, Clone, Copy)]
pub enum SubmitError {
    Closed,
}

/// The lifecycle state of one worker. A worker is `Idle` while waiting for
/// work, `Executing` while running one job, and `Terminated` after it has
/// observed the closed, drained queue and exited its loop.
#[derive(Debug, PartialEq, Eq, Structural, Clone, Copy)]
pub enum WorkerState {
    Idle,
    Executing,
    Terminated,
}

/// Outcome of one `worker_fetch` step.
///
/// `Job` hands the caller one job to execute. `NoneReady` means the queue is
/// empty but still open: the worker should block until woken. `Finished`
/// means the queue was closed and fully drained: the worker has terminated.
pub enum Dispatch<J> {
    Job(J),
    NoneReady,
    Finished,
}

/// A fixed-size worker pool built around one shared FIFO job queue.
#[verifier::reject_recursive_types(J)]
pub struct Pool<J> {
    queue: JobQueue<J>,
    workers: Vec<WorkerState>,
    submitted: Ghost<Seq<J>>,
    handed: Ghost<Seq<J>>,
    faults: Ghost<nat>,
}

impl<J> Pool<J> {
    /// Every job `submit` has accepted, in submission order.
    pub closed spec fn submitted_jobs(self) -> Seq<J> {
        self.submitted@
    }

    /// Every job handed to some worker, in hand-off order.
    pub closed spec fn handed_jobs(self) -> Seq<J> {
        self.handed@
    }

    /// The jobs accepted but not yet handed to a worker, oldest first.
    pub closed spec fn pending_jobs(self) -> Seq<J> {
        self.queue.contents()
    }

    /// The state of each worker.
    pub closed spec fn worker_states(self) -> Seq<WorkerState> {
        self.workers@
    }

    /// The fixed number of workers.
    pub open spec fn num_workers(self) -> nat {
        self.worker_states().len()
    }

    /// Whether `begin_shutdown` has closed the queue.
    pub closed spec fn is_shutting_down(self) -> bool {
        self.queue.is_closed()
    }

    /// How many job executions have ended in a contained fault.
    pub closed spec fn fault_count(self) -> nat {
        self.faults@
    }

    /// The pool invariant. The set of workers is fixed and non-empty; the
    /// submitted log is exactly the handed log followed by the queue; and a
    /// worker terminates only once the queue is closed and drained, so a
    /// terminated worker never leaves a job behind.
    pub open spec fn inv(self) -> bool {
        &&& self.num_workers() >= 1
        &&& self.submitted_jobs() == self.handed_jobs() + self.pending_jobs()
        &&& (forall|i: int|
            0 <= i < self.num_workers() && self.worker_states()[i] is Terminated
                ==> self.is_shutting_down() && self.pending_jobs().len() == 0)
    }

    /// Starts a pool of exactly `worker_count` workers, all idle, bound to
    /// one fresh open queue. A zero-worker pool is a construction error, not
    /// a degenerate pool.
    pub fn new(worker_count: usize) -> (r: Result<Self, ConstructionError>)
        ensures
            r is Ok <==> worker_count >= 1,
            r is Err ==> r == Result::<Self, ConstructionError>::Err(
                ConstructionError::ZeroWorkers,
            ),
            r matches Ok(p) ==> {
                &&& p.inv()
                &&& p.num_workers() == worker_count
                &&& forall|i: int| 0 <= i < worker_count ==> p.worker_states()[i] is Idle
                &&& p.submitted_jobs() == Seq::<J>::empty()
                &&& p.handed_jobs() == Seq::<J>::empty()
                &&& p.pending_jobs() == Seq::<J>::empty()
                &&& !p.is_shutting_down()
                &&& p.fault_count() == 0
            },
    {
        if worker_count == 0 {
            return Err(ConstructionError::ZeroWorkers);
        }
        let mut workers: Vec<WorkerState> = Vec::new();
        let mut i: usize = 0;
        while i < worker_count
            invariant
                i <= worker_count,
                workers@.len() == i,
                forall|k: int| 0 <= k < i ==> workers@[k] is Idle,
            decreases worker_count - i,
        {
            workers.push(WorkerState::Idle);
            i += 1;
        }
        Ok(
            Pool {
                queue: JobQueue::new(),
                workers,
                submitted: Ghost(Seq::empty()),
                handed: Ghost(Seq::empty()),
                faults: Ghost(0),
            },
        )
    }

    /// Accepts one job for later execution. The queue is unbounded, so an
    /// accepted job is appended without blocking; once shutdown has begun
    /// the job is refused with `SubmitError::Closed` and will never run.
    pub fn submit(&mut self, job: J) -> (r: Result<(), SubmitError>)
        requires
            old(self).inv(),
        ensures
            final(self).inv(),
            r is Ok <==> !old(self).is_shutting_down(),
            r is Err ==> r == Result::<(), SubmitError>::Err(SubmitError::Closed),
            final(self).is_shutting_down() == old(self).is_shutting_down(),
            final(self).worker_states() == old(self).worker_states(),
            final(self).handed_jobs() == old(self).handed_jobs(),
            final(self).fault_count() == old(self).fault_count(),
            r is Ok ==> final(self).submitted_jobs() == old(self).submitted_jobs().push(job)
                && final(self).pending_jobs() == old(self).pending_jobs().push(job),
            r is Err ==> final(self).submitted_jobs() == old(self).submitted_jobs()
                && final(self).pending_jobs() == old(self).pending_jobs(),
    {
        let ghost j = job;
        match self.queue.send(job) {
            Result::Ok(()) => {
                proof {
                    self.submitted@ = self.submitted@.push(j);
                    assert(self.submitted@ =~= self.handed@ + self.queue.contents());
                }
                Ok(())
            },
            Result::Err(_) => Err(SubmitError::Closed),
        }
    }

    /// One receive attempt by the idle worker `w`. With a job queued, the
    /// oldest job is handed to `w` and `w` starts executing it. With an
    /// empty open queue nothing changes and the worker should block. With an
    /// empty closed queue the worker terminates.
    pub fn worker_fetch(&mut self, w: usize) -> (r: Dispatch<J>)
        requires
            old(self).inv(),
            w < old(self).num_workers(),
            old(self).worker_states()[w as int] is Idle,
        ensures
            final(self).inv(),
            final(self).num_workers() == old(self).num_workers(),
            final(self).submitted_jobs() == old(self).submitted_jobs(),
            final(self).is_shutting_down() == old(self).is_shutting_down(),
            final(self).fault_count() == old(self).fault_count(),
            r matches Dispatch::Job(job) ==> {
                &&& old(self).pending_jobs().len() > 0
                &&& job == old(self).pending_jobs()[0]
                &&& final(self).pending_jobs() == old(self).pending_jobs().drop_first()
                &&& final(self).handed_jobs() == old(self).handed_jobs().push(job)
                &&& final(self).worker_states() == old(self).worker_states().update(
                    w as int,
                    WorkerState::Executing,
                )
            },
            r is NoneReady ==> final(self).pending_jobs() == old(self).pending_jobs()
                && final(self).handed_jobs() == old(self).handed_jobs()
                && final(self).worker_states() == old(self).worker_states(),
            r is Finished ==> final(self).pending_jobs() == old(self).pending_jobs()
                && final(self).handed_jobs() == old(self).handed_jobs()
                && final(self).worker_states() == old(self).worker_states().update(
                w as int,
                WorkerState::Terminated,
            ),
            old(self).pending_jobs().len() > 0 ==> r is Job,
            old(self).pending_jobs().len() == 0 && !old(self).is_shutting_down() ==> r
                is NoneReady,
            old(self).pending_jobs().len() == 0 && old(self).is_shutting_down() ==> r
                is Finished,
    {
        match self.queue.try_receive() {
            Received::Job(job) => {
                self.workers[w] = WorkerState::Executing;
                proof {
                    self.handed@ = self.handed@.push(job);
                    assert(self.submitted@ =~= self.handed@ + self.queue.contents());
                    assert forall|i: int|
                        0 <= i < self.workers@.len() && self.workers@[i]
                            is Terminated implies self.queue.is_closed()
                        && self.queue.contents().len() == 0 by {
                        assert(old(self).workers@[i] is Terminated);
                        assert(old(self).queue.contents().len() == 0);
                    }
                }
                Dispatch::Job(job)
            },
            Received::Pending => Dispatch::NoneReady,
            Received::Closed => {
                self.workers[w] = WorkerState::Terminated;
                Dispatch::Finished
            },
        }
    }

    /// The idle/executing transition back: worker `w` finished the job it
    /// was handed. A fault inside the job body is contained by the worker's
    /// fault boundary: whether or not the job faulted, `w` returns to `Idle`
    /// with the pool's capacity intact, and only the fault count differs.
    pub fn worker_finish(&mut self, w: usize, faulted: bool)
        requires
            old(self).inv(),
            w < old(self).num_workers(),
            old(self).worker_states()[w as int] is Executing,
        ensures
            final(self).inv(),
            final(self).worker_states() == old(self).worker_states().update(
                w as int,
                WorkerState::Idle,
            ),
            final(self).submitted_jobs() == old(self).submitted_jobs(),
            final(self).handed_jobs() == old(self).handed_jobs(),
            final(self).pending_jobs() == old(self).pending_jobs(),
            final(self).is_shutting_down() == old(self).is_shutting_down(),
            final(self).fault_count() == old(self).fault_count() + (if faulted {
                1nat
            } else {
                0nat
            }),
    {
        self.workers[w] = WorkerState::Idle;
        proof {
            if faulted {
                self.faults@ = self.faults@ + 1;
            }
        }
    }

    /// Begins shutdown: closes the queue so that no further job is accepted,
    /// while everything already queued stays receivable. The state after the
    /// call does not depend on whether shutdown had already begun, so a
    /// second call — or an explicit call after an implicit one on the
    /// owner's teardown path — changes nothing.
    pub fn begin_shutdown(&mut self)
        requires
            old(self).inv(),
        ensures
            final(self).inv(),
            final(self).is_shutting_down(),
            final(self).worker_states() == old(self).worker_states(),
            final(self).submitted_jobs() == old(self).submitted_jobs(),
            final(self).handed_jobs() == old(self).handed_jobs(),
            final(self).pending_jobs() == old(self).pending_jobs(),
            final(self).fault_count() == old(self).fault_count(),
    {
        self.queue.close();
    }

    /// Whether every worker has reached `Terminated`. The owner's shutdown
    /// returns only once this holds.
    pub fn all_terminated(&self) -> (r: bool)
        ensures
            r == (forall|i: int|
                0 <= i < self.num_workers() ==> self.worker_states()[i] is Terminated),
    {
        let mut i: usize = 0;
        while i < self.workers.len()
            invariant
                i <= self.workers.len(),
                forall|k: int| 0 <= k < i ==> self.workers@[k] is Terminated,
            decreases self.workers.len() - i,
        {
            let st = self.workers[i];
            if st != WorkerState::Terminated {
                return false;
            }
            i += 1;
        }
        true
    }
}

/// Law: a pool whose workers have all terminated has drained its queue, and
/// the jobs handed to workers are exactly the jobs accepted by `submit` — in
/// submission order, each exactly once, none lost, duplicated or abandoned.
/// This holds after any interleaving of submissions and worker steps, since
/// every step preserves the pool invariant.
pub proof fn lemma_terminated_pool_is_drained<J>(p: Pool<J>)
    requires
        p.inv(),
        forall|i: int| 0 <= i < p.num_workers() ==> p.worker_states()[i] is Terminated,
    ensures
        p.is_shutting_down(),
        p.pending_jobs().len() == 0,
        p.handed_jobs() == p.submitted_jobs(),
{
    assert(p.worker_states()[0] is Terminated);
    assert(p.handed_jobs() + p.pending_jobs() =~= p.handed_jobs());
}

/// Law: jobs are handed out in submission order — at every reachable state
/// the handed log is a prefix of the submitted log, and the queue holds
/// precisely the submitted jobs that follow it.
pub proof fn lemma_handoff_in_submission_order<J>(p: Pool<J>)
    requires
        p.inv(),
    ensures
        p.handed_jobs() == p.submitted_jobs().take(p.handed_jobs().len() as int),
        p.pending_jobs() == p.submitted_jobs().skip(p.handed_jobs().len() as int),
        p.handed_jobs().len() + p.pending_jobs().len() == p.submitted_jobs().len(),
{
    assert(p.handed_jobs() =~= (p.handed_jobs() + p.pending_jobs()).take(
        p.handed_jobs().len() as int,
    ));
    assert(p.pending_jobs() =~= (p.handed_jobs() + p.pending_jobs()).skip(
        p.handed_jobs().len() as int,
    ));
}

} // verus!
