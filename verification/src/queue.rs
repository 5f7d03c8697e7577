//! The job queue: an unbounded FIFO hand-off channel between submitters and
//! workers, with a close signal that lets workers drain what remains and then
//! stop.
//!
//! This type holds the queue's logical state (buffered jobs and the closed
//! flag). Callers that share one queue between several threads keep it behind
//! their own lock; every access goes through `send`, `try_receive` and
//! `close`, whose contracts below pin down exactly what each step does.

use std::collections::VecDeque;
use vstd::prelude::*;

verus! {

/// Error returned by `send` once the queue has been closed.
#[derive(Debug, PartialEq, Eq, Structural, Clone, Copy)]
pub enum SendError {
    Closed,
}

/// Outcome of one non-blocking receive attempt.
///
/// `Pending` means the queue is empty but still open: the caller should block
/// (or retry) rather than stop. `Closed` means the queue was closed and fully
/// drained: no job will ever arrive again.
pub enum Received<J> {
    Job(J),
    Pending,
    Closed,
}

/// An unbounded FIFO queue of jobs with a one-way close signal.
pub struct JobQueue<J> {
    items: VecDeque<J>,
    closed: bool,
}

impl<J> JobQueue<J> {
    /// The jobs currently buffered, oldest first.
    pub closed spec fn contents(self) -> Seq<J> {
        self.items@
    }

    /// Whether the close signal has been delivered.
    pub closed spec fn is_closed(self) -> bool {
        self.closed
    }

    /// A fresh queue: open and empty.
    pub fn new() -> (q: Self)
        ensures
            q.contents() == Seq::<J>::empty(),
            !q.is_closed(),
    {
        JobQueue { items: VecDeque::new(), closed: false }
    }

    /// Enqueues one job at the back, unless the queue has been closed; a
    /// closed queue rejects the job rather than dropping it silently.
    pub fn send(&mut self, job: J) -> (r: Result<(), SendError>)
        ensures
            r is Ok <==> !old(self).is_closed(),
            final(self).is_closed() == old(self).is_closed(),
            r is Ok ==> final(self).contents() == old(self).contents().push(job),
            r is Err ==> r == Result::<(), SendError>::Err(SendError::Closed)
                && final(self).contents() == old(self).contents(),
    {
        if self.closed {
            Err(SendError::Closed)
        } else {
            self.items.push_back(job);
            Ok(())
        }
    }

    /// Takes the oldest buffered job if there is one; otherwise reports
    /// whether the caller should keep waiting (`Pending`) or stop (`Closed`).
    pub fn try_receive(&mut self) -> (r: Received<J>)
        ensures
            final(self).is_closed() == old(self).is_closed(),
            old(self).contents().len() > 0 ==> (r matches Received::Job(j)
                && j == old(self).contents()[0]
                && final(self).contents() == old(self).contents().drop_first()),
            old(self).contents().len() == 0 ==> final(self).contents() == old(self).contents(),
            old(self).contents().len() == 0 && !old(self).is_closed() ==> r is Pending,
            old(self).contents().len() == 0 && old(self).is_closed() ==> r is Closed,
    {
        match self.items.pop_front() {
            Option::Some(job) => {
                proof {
                    assert(self.items@ =~= old(self).items@.drop_first());
                }
                Received::Job(job)
            },
            Option::None => {
                if self.closed {
                    Received::Closed
                } else {
                    Received::Pending
                }
            },
        }
    }

    /// Delivers the close signal. Jobs already buffered stay receivable; only
    /// new sends are refused. The state after the call does not depend on
    /// whether the queue was already closed, so a second call changes
    /// nothing.
    pub fn close(&mut self)
        ensures
            final(self).is_closed(),
            final(self).contents() == old(self).contents(),
    {
        self.closed = true;
    }
}

} // verus!
