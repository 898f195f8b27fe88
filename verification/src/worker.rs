//! The life cycle of one worker.

use vstd::prelude::*;

verus! {

/// Where a worker stands in its loop.
#[derive(Clone, Copy, Debug, PartialEq, Eq, Structural)]
pub enum WorkerState {
    /// Between jobs, not holding the dequeue lock.
    Idle,
    /// Holding the dequeue lock, inside the blocking receive.
    Waiting,
    /// Has taken the job with this ticket and let go of the lock; the job has
    /// not been invoked yet.
    Received(u64),
    /// Inside the job with this ticket.
    Running(u64),
    /// Saw the channel closed and empty; its thread has returned.
    Exited,
}

/// What happened to a worker.
#[derive(Clone, Copy, Debug, PartialEq, Eq, Structural)]
pub enum WorkerEvent {
    /// It obtained the dequeue lock.
    Acquired,
    /// Its receive returned the job with this ticket.
    Job(u64),
    /// Its receive reported the channel closed and empty.
    ChannelClosed,
    /// It invoked the job it had received.
    Invoked,
    /// The job it was running came to an end, by returning or by unwinding.
    Finished,
}

/// How a job came to an end.
#[derive(Clone, Copy, Debug, PartialEq, Eq, Structural)]
pub enum JobOutcome {
    /// The job returned.
    Returned,
    /// The job unwound; the worker caught it.
    Panicked,
}

impl WorkerState {
    /// The ticket of the job this worker has taken and not yet finished.
    pub open spec fn holding(self) -> Option<u64> {
        match self {
            WorkerState::Received(t) => Some(t),
            WorkerState::Running(t) => Some(t),
            _ => None,
        }
    }

    /// Whether the worker's thread is still there.
    pub open spec fn live(self) -> bool {
        !(self is Exited)
    }

    /// The state after `event`, or `None` where the event cannot happen in
    /// this state.
    pub open spec fn next(self, event: WorkerEvent) -> Option<WorkerState> {
        match (self, event) {
            (WorkerState::Idle, WorkerEvent::Acquired) => Some(WorkerState::Waiting),
            (WorkerState::Waiting, WorkerEvent::Job(t)) => Some(WorkerState::Received(t)),
            (WorkerState::Waiting, WorkerEvent::ChannelClosed) => Some(WorkerState::Exited),
            (WorkerState::Received(t), WorkerEvent::Invoked) => Some(WorkerState::Running(t)),
            (WorkerState::Running(_), WorkerEvent::Finished) => Some(WorkerState::Idle),
            _ => None,
        }
    }

    /// The ticket of the job in hand, if any.
    pub fn ticket(&self) -> (t: Option<u64>)
        ensures
            t == self.holding(),
    {
        match self {
            WorkerState::Received(t) => Some(*t),
            WorkerState::Running(t) => Some(*t),
            _ => None,
        }
    }

    /// Whether the worker has not exited.
    pub fn is_live(&self) -> (b: bool)
        ensures
            b == self.live(),
    {
        match self {
            WorkerState::Exited => false,
            _ => true,
        }
    }

    /// Moves the worker along one edge of its life cycle: from `Idle` to
    /// `Waiting` on the lock, from `Waiting` to `Received` on a job or to
    /// `Exited` on a closed channel, from `Received` to `Running` on the call,
    /// from `Running` back to `Idle` when the job ends. Any other pair is
    /// refused.
    pub fn step(&self, event: WorkerEvent) -> (r: Option<WorkerState>)
        ensures
            r == self.next(event),
    {
        match (*self, event) {
            (WorkerState::Idle, WorkerEvent::Acquired) => Some(WorkerState::Waiting),
            (WorkerState::Waiting, WorkerEvent::Job(t)) => Some(WorkerState::Received(t)),
            (WorkerState::Waiting, WorkerEvent::ChannelClosed) => Some(WorkerState::Exited),
            (WorkerState::Received(t), WorkerEvent::Invoked) => Some(WorkerState::Running(t)),
            (WorkerState::Running(_), WorkerEvent::Finished) => Some(WorkerState::Idle),
            _ => None,
        }
    }
}

/// An exited worker stays exited: no event leads out of `Exited`.
pub proof fn lemma_exited_is_terminal(event: WorkerEvent)
    ensures
        WorkerState::Exited.next(event) is None,
{
}

/// No single event takes a live worker's job away without finishing it: a
/// worker that holds a ticket either keeps it or gives it up on `Finished`.
pub proof fn lemma_ticket_kept_until_finished(state: WorkerState, event: WorkerEvent)
    requires
        state.holding() is Some,
        state.next(event) is Some,
    ensures
        state.next(event)->0.holding() == state.holding() || (event is Finished
            && state is Running && state.next(event)->0 is Idle),
{
}

} // verus!
