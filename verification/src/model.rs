//! The pool as a state machine over mathematical values: its states, its
//! steps, and the invariant that every step keeps.

use crate::channel::ChannelState;
use crate::worker::{JobOutcome, WorkerEvent, WorkerState};
use vstd::prelude::*;

verus! {

/// What a pool is, mathematically.
pub struct PoolState<J> {
    /// The task channel.
    pub channel: ChannelState<J>,
    /// The state of each worker; a worker's id is its index.
    pub workers: Seq<WorkerState>,
    /// The worker that holds the dequeue lock, if any.
    pub lock: Option<int>,
    /// The tickets of the jobs that came to an end, in the order they did.
    pub finished: Seq<u64>,
    /// How many of the finished jobs unwound.
    pub panics: nat,
    /// How many workers have been joined; they are joined in id order.
    pub joined: nat,
}

/// How many workers in `workers` have not exited.
pub open spec fn live_count(workers: Seq<WorkerState>) -> nat
    decreases workers.len(),
{
    if workers.len() == 0 {
        0
    } else {
        live_count(workers.drop_last()) + if workers.last().live() {
            1nat
        } else {
            0nat
        }
    }
}

impl<J> PoolState<J> {
    /// The configured number of workers.
    pub open spec fn size(self) -> nat {
        self.workers.len()
    }

    /// Whether `w` is the id of a worker of this pool.
    pub open spec fn has_worker(self, w: int) -> bool {
        0 <= w < self.workers.len()
    }

    /// Worker `w` has taken job `t` and not finished it.
    pub open spec fn holds(self, w: int, t: u64) -> bool {
        self.has_worker(w) && self.workers[w].holding() == Some(t)
    }

    /// Some worker has taken job `t` and not finished it.
    pub open spec fn in_flight(self, t: u64) -> bool {
        exists|w: int| self.holds(w, t)
    }

    /// Job `t` is with a worker or has come to an end.
    pub open spec fn accounted(self, t: u64) -> bool {
        self.finished.contains(t) || self.in_flight(t)
    }

    /// Every worker has exited.
    pub open spec fn all_exited(self) -> bool {
        forall|w: int| self.has_worker(w) ==> (#[trigger] self.workers[w]) is Exited
    }

    /// How many workers have not exited.
    pub open spec fn live_workers(self) -> nat {
        live_count(self.workers)
    }

    /// Every worker has been joined: the pool is released.
    pub open spec fn released(self) -> bool {
        self.joined == self.workers.len()
    }

    /// The dequeue lock is held by exactly the worker that is inside the
    /// receive, so by at most one worker, and never by one that runs a job.
    pub open spec fn lock_inv(self) -> bool {
        &&& self.lock matches Some(h) ==> self.has_worker(h)
        &&& forall|w: int|
            self.has_worker(w) ==> ((#[trigger] self.workers[w]) is Waiting <==> self.lock == Some(
                w,
            ))
    }

    /// A job in a worker's hands was taken from the channel, is in no other
    /// worker's hands, and has not come to an end.
    pub open spec fn tickets_inv(self) -> bool {
        &&& forall|w: int, t: u64| #[trigger]
            self.holds(w, t) ==> t < self.channel.taken && !self.finished.contains(t)
        &&& forall|w1: int, w2: int, t: u64|
            #[trigger] self.holds(w1, t) && #[trigger] self.holds(w2, t) ==> w1 == w2
    }

    /// No job came to an end twice, and each that did was taken from the channel.
    pub open spec fn finished_inv(self) -> bool {
        &&& self.finished.no_duplicates()
        &&& forall|i: int|
            0 <= i < self.finished.len() ==> (#[trigger] self.finished[i]) < self.channel.taken
        &&& self.panics <= self.finished.len()
    }

    /// No job that was taken from the channel got lost.
    pub open spec fn coverage_inv(self) -> bool {
        forall|t: u64| t < self.channel.taken ==> #[trigger] self.accounted(t)
    }

    /// A worker exits only after the channel is closed and drained.
    pub open spec fn exit_inv(self) -> bool {
        forall|w: int|
            self.has_worker(w) && (#[trigger] self.workers[w]) is Exited ==> self.channel.closed
                && self.channel.pending() == 0
    }

    /// Workers are joined in id order, and only after they exited.
    pub open spec fn join_inv(self) -> bool {
        &&& self.joined <= self.workers.len()
        &&& forall|w: int| 0 <= w < self.joined ==> (#[trigger] self.workers[w]) is Exited
    }

    /// The invariant of the pool.
    pub open spec fn inv(self) -> bool {
        &&& self.workers.len() > 0
        &&& self.channel.inv()
        &&& self.channel.admitted.len() <= u64::MAX
        &&& self.lock_inv()
        &&& self.tickets_inv()
        &&& self.finished_inv()
        &&& self.coverage_inv()
        &&& self.exit_inv()
        &&& self.join_inv()
    }

    /// A new pool of `size` workers: all idle, nothing admitted.
    pub open spec fn init(size: nat) -> Self {
        PoolState {
            channel: ChannelState::init(),
            workers: Seq::new(size, |w: int| WorkerState::Idle),
            lock: None,
            finished: Seq::empty(),
            panics: 0,
            joined: 0,
        }
    }

    /// The workers after worker `w` moved along `event`.
    pub open spec fn moved(self, w: int, event: WorkerEvent) -> Seq<WorkerState> {
        self.workers.update(w, self.workers[w].next(event)->0)
    }

    /// A job can be submitted while the pool is open.
    pub open spec fn can_submit(self) -> bool {
        !self.channel.closed
    }

    /// The pool after `job` was submitted.
    pub open spec fn submit(self, job: J) -> Self {
        PoolState { channel: self.channel.send(job), ..self }
    }

    /// Worker `w` is idle: it may try for the dequeue lock.
    pub open spec fn can_acquire(self, w: int) -> bool {
        self.has_worker(w) && self.workers[w] is Idle
    }

    /// The pool after idle worker `w` tried for the dequeue lock: it has the
    /// lock if the lock was free, else nothing changed.
    pub open spec fn acquire(self, w: int) -> Self {
        if self.lock is None {
            PoolState { workers: self.moved(w, WorkerEvent::Acquired), lock: Some(w), ..self }
        } else {
            self
        }
    }

    /// Worker `w` is inside the receive.
    pub open spec fn can_receive(self, w: int) -> bool {
        self.has_worker(w) && self.workers[w] is Waiting
    }

    /// The pool after worker `w`, inside the receive, looked at the channel.
    /// With a job waiting it takes the oldest and lets go of the lock. With
    /// none waiting and the channel closed it exits and lets go of the lock.
    /// Otherwise it goes on waiting, lock in hand.
    pub open spec fn receive(self, w: int) -> Self {
        if self.channel.pending() > 0 {
            PoolState {
                channel: self.channel.take(),
                workers: self.moved(w, WorkerEvent::Job(self.channel.taken as u64)),
                lock: None,
                ..self
            }
        } else if self.channel.closed {
            PoolState { workers: self.moved(w, WorkerEvent::ChannelClosed), lock: None, ..self }
        } else {
            self
        }
    }

    /// Worker `w` has received a job and not invoked it yet.
    pub open spec fn can_start(self, w: int) -> bool {
        self.has_worker(w) && self.workers[w] is Received
    }

    /// The pool after worker `w` invoked the job it had received.
    pub open spec fn start(self, w: int) -> Self {
        PoolState { workers: self.moved(w, WorkerEvent::Invoked), ..self }
    }

    /// Worker `w` is inside a job.
    pub open spec fn can_complete(self, w: int) -> bool {
        self.has_worker(w) && self.workers[w] is Running
    }

    /// The pool after the job that worker `w` was running came to an end.
    pub open spec fn complete(self, w: int, outcome: JobOutcome) -> Self {
        PoolState {
            workers: self.moved(w, WorkerEvent::Finished),
            finished: self.finished.push(self.workers[w]->Running_0),
            panics: if outcome is Panicked {
                self.panics + 1
            } else {
                self.panics
            },
            ..self
        }
    }

    /// Worker `w` is at the top of its loop: idle, or inside the receive.
    pub open spec fn can_poll(self, w: int) -> bool {
        self.can_acquire(w) || self.can_receive(w)
    }

    /// The pool after worker `w` went as far round its loop as it can without
    /// blocking: an idle worker tries for the lock; with the lock it looks at
    /// the channel; with a job it invokes it.
    pub open spec fn poll(self, w: int) -> Self {
        let locked = if self.can_acquire(w) {
            self.acquire(w)
        } else {
            self
        };
        if locked.can_receive(w) {
            let looked = locked.receive(w);
            if looked.can_start(w) {
                looked.start(w)
            } else {
                looked
            }
        } else {
            locked
        }
    }

    /// The pool after shutdown began: the channel is closed.
    pub open spec fn shutdown(self) -> Self {
        PoolState { channel: self.channel.close(), ..self }
    }

    /// Worker `w` can be joined without blocking: shutdown has begun, it is
    /// the next in id order, and it has exited.
    pub open spec fn can_join(self, w: int) -> bool {
        &&& self.channel.closed
        &&& self.has_worker(w)
        &&& w == self.joined
        &&& self.workers[w] is Exited
    }

    /// The pool after the next worker was joined.
    pub open spec fn join(self) -> Self {
        PoolState { joined: self.joined + 1, ..self }
    }
}

/// One step of the pool.
pub enum Step<J> {
    /// A producer submits a job.
    Submit(J),
    /// An idle worker tries for the dequeue lock.
    Acquire(int),
    /// The worker inside the receive looks at the channel.
    Receive(int),
    /// A worker invokes the job it received.
    Start(int),
    /// The job a worker was running comes to an end.
    Complete(int, JobOutcome),
    /// The owner begins shutdown.
    Shutdown,
    /// The owner joins the next worker.
    Join,
}

impl<J> PoolState<J> {
    /// Whether `step` can be taken in this state.
    pub open spec fn enabled(self, step: Step<J>) -> bool {
        match step {
            Step::Submit(_) => self.can_submit() && self.channel.admitted.len() < u64::MAX,
            Step::Acquire(w) => self.can_acquire(w),
            Step::Receive(w) => self.can_receive(w),
            Step::Start(w) => self.can_start(w),
            Step::Complete(w, _) => self.can_complete(w),
            Step::Shutdown => true,
            Step::Join => self.can_join(self.joined as int),
        }
    }

    /// The state after `step`.
    pub open spec fn apply(self, step: Step<J>) -> Self {
        match step {
            Step::Submit(job) => self.submit(job),
            Step::Acquire(w) => self.acquire(w),
            Step::Receive(w) => self.receive(w),
            Step::Start(w) => self.start(w),
            Step::Complete(w, outcome) => self.complete(w, outcome),
            Step::Shutdown => self.shutdown(),
            Step::Join => self.join(),
        }
    }
}

} // verus!
