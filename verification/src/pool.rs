//! The worker pool: a fixed set of workers fed from one task channel.

use crate::channel::{Received, TaskChannel};
use crate::invariants::{
    lemma_acquire_inv, lemma_complete_inv, lemma_init_inv, lemma_join_inv, lemma_receive_inv,
    lemma_shutdown_inv, lemma_start_inv, lemma_submit_inv,
};
use crate::counting::lemma_distinct_below;
use crate::model::{live_count, PoolState};
use crate::worker::{JobOutcome, WorkerEvent, WorkerState};
use vstd::prelude::*;

verus! {

/// Why a pool could not be made.
#[derive(Clone, Copy, Debug, PartialEq, Eq, Structural)]
pub enum PoolCreationError {
    /// A pool needs at least one worker.
    PoolSizeZero,
}

/// Why the pool refused a step.
#[derive(Clone, Copy, Debug, PartialEq, Eq, Structural)]
pub enum PoolError {
    /// Shutdown has begun: no job is admitted any more.
    Closed,
    /// The pool has no worker with that id.
    NoSuchWorker,
    /// The worker is not in the state that the step starts from.
    WrongState,
    /// Workers are joined only after shutdown has begun.
    NotShutDown,
    /// Workers are joined in id order, each once; another one is next.
    OutOfOrder,
    /// The worker has not exited: a join would block.
    StillLive,
}

/// What a worker's thread is to do next.
pub enum Dispatch<J> {
    /// Run this job, then report how it ended.
    Run { ticket: u64, job: J },
    /// Block until a job is submitted, the lock is released or shutdown begins.
    Wait,
    /// Return: the worker has exited.
    Exit,
}

/// A pool of a fixed number of workers and the channel that feeds them.
///
/// The pool decides; its caller acts. A worker thread reports each move of its
/// loop (`acquire`, `receive`, `start`, `complete`) and does what the answer
/// says; the owner reports `shutdown` and each `join`.
pub struct ThreadPool<J> {
    channel: TaskChannel<J>,
    workers: Vec<WorkerState>,
    lock: Option<usize>,
    completed: u64,
    panicked: u64,
    joined: usize,
    finished: Ghost<Seq<u64>>,
}

impl<J> View for ThreadPool<J> {
    type V = PoolState<J>;

    closed spec fn view(&self) -> PoolState<J> {
        PoolState {
            channel: self.channel@,
            workers: self.workers@,
            lock: match self.lock {
                Some(w) => Some(w as int),
                None => None,
            },
            finished: self.finished@,
            panics: self.panicked as nat,
            joined: self.joined as nat,
        }
    }
}

impl<J> ThreadPool<J> {
    /// The pool in memory stands for a state that satisfies the invariant.
    pub closed spec fn wf(&self) -> bool {
        &&& self.channel.wf()
        &&& self@.inv()
        &&& self.completed == self.finished@.len()
    }

    /// A well-formed pool satisfies the invariant of the model.
    pub proof fn lemma_wf_inv(&self)
        requires
            self.wf(),
        ensures
            self@.inv(),
    {
    }

    /// Makes a pool of `size` idle workers with an open, empty channel.
    pub fn new(size: usize) -> (pool: Self)
        requires
            size > 0,
        ensures
            pool.wf(),
            pool@ == PoolState::<J>::init(size as nat),
    {
        let mut workers: Vec<WorkerState> = Vec::new();
        while workers.len() < size
            invariant
                workers.len() <= size,
                forall|w: int| 0 <= w < workers.len() ==> workers[w] == WorkerState::Idle,
            decreases size - workers.len(),
        {
            workers.push(WorkerState::Idle);
        }
        let pool = ThreadPool {
            channel: TaskChannel::new(),
            workers,
            lock: None,
            completed: 0,
            panicked: 0,
            joined: 0,
            finished: Ghost(Seq::empty()),
        };
        proof {
            assert(pool@.workers =~= PoolState::<J>::init(size as nat).workers);
            lemma_init_inv::<J>(size as nat);
        }
        pool
    }

    /// Makes a pool of `size` workers, or refuses a size of zero.
    pub fn build(size: usize) -> (res: Result<Self, PoolCreationError>)
        ensures
            res is Err <==> size == 0,
            res matches Err(e) ==> e == PoolCreationError::PoolSizeZero,
            res matches Ok(pool) ==> pool.wf() && pool@ == PoolState::<J>::init(size as nat),
    {
        if size == 0 {
            Err(PoolCreationError::PoolSizeZero)
        } else {
            Ok(Self::new(size))
        }
    }

    /// The configured number of workers. It never changes.
    pub fn size(&self) -> (n: usize)
        ensures
            n == self@.size(),
    {
        self.workers.len()
    }

    /// Whether shutdown has begun.
    pub fn is_closed(&self) -> (b: bool)
        ensures
            b == self@.channel.closed,
    {
        self.channel.is_closed()
    }

    /// How many jobs wait in the channel.
    pub fn pending(&self) -> (n: usize)
        requires
            self.wf(),
        ensures
            n == self@.channel.pending(),
    {
        self.channel.len()
    }

    /// How many jobs have been admitted.
    pub fn submitted(&self) -> (n: u64)
        requires
            self.wf(),
        ensures
            n == self@.channel.admitted.len(),
    {
        self.channel.sent()
    }

    /// How many jobs have been taken from the channel.
    pub fn dequeued(&self) -> (n: u64)
        ensures
            n == self@.channel.taken,
    {
        self.channel.taken()
    }

    /// How many jobs have come to an end, by return or by unwinding.
    pub fn completed(&self) -> (n: u64)
        requires
            self.wf(),
        ensures
            n == self@.finished.len(),
    {
        self.completed
    }

    /// How many jobs unwound.
    pub fn panicked(&self) -> (n: u64)
        ensures
            n == self@.panics,
    {
        self.panicked
    }

    /// How many workers have been joined.
    pub fn joined(&self) -> (n: usize)
        ensures
            n == self@.joined,
    {
        self.joined
    }

    /// The worker that holds the dequeue lock, if any.
    pub fn lock_holder(&self) -> (h: Option<usize>)
        ensures
            match h {
                Some(w) => self@.lock == Some(w as int),
                None => self@.lock is None,
            },
    {
        self.lock
    }

    /// The state of worker `worker`, or `None` if the pool has no such worker.
    pub fn worker_state(&self, worker: usize) -> (st: Option<WorkerState>)
        ensures
            st is Some <==> self@.has_worker(worker as int),
            st matches Some(state) ==> state == self@.workers[worker as int],
    {
        if worker < self.workers.len() {
            Some(self.workers[worker])
        } else {
            None
        }
    }

    /// How many workers have not exited.
    pub fn live_workers(&self) -> (n: usize)
        ensures
            n == self@.live_workers(),
    {
        let mut n: usize = 0;
        let mut i: usize = 0;
        while i < self.workers.len()
            invariant
                i <= self.workers.len(),
                n <= i,
                n == live_count(self.workers@.take(i as int)),
            decreases self.workers.len() - i,
        {
            proof {
                assert(self.workers@.take(i + 1).drop_last() =~= self.workers@.take(i as int));
            }
            if self.workers[i].is_live() {
                n = n + 1;
            }
            i = i + 1;
        }
        proof {
            assert(self.workers@.take(i as int) =~= self.workers@);
        }
        n
    }

    /// Whether every worker has been joined.
    pub fn is_released(&self) -> (b: bool)
        ensures
            b == self@.released(),
    {
        self.joined == self.workers.len()
    }

    /// Submits `job`: admits it at the back of the channel and returns its
    /// ticket, the number of jobs admitted before it. Returns at once; the job
    /// runs when a worker takes it. After shutdown has begun the job is
    /// dropped and `Closed` comes back.
    pub fn execute(&mut self, job: J) -> (res: Result<u64, PoolError>)
        requires
            old(self).wf(),
            old(self)@.channel.admitted.len() < u64::MAX,
        ensures
            final(self).wf(),
            res is Ok <==> old(self)@.can_submit(),
            res matches Ok(ticket) ==> ticket == old(self)@.channel.admitted.len() && final(self)@
                == old(self)@.submit(job),
            res matches Err(e) ==> e == PoolError::Closed && final(self)@ == old(self)@,
    {
        match self.channel.send(job) {
            Ok(ticket) => {
                proof {
                    lemma_submit_inv(old(self)@, job);
                }
                Ok(ticket)
            },
            Err(_) => Err(PoolError::Closed),
        }
    }

    /// Worker `worker`, idle, tries for the dequeue lock. `Ok(true)`: it has
    /// the lock and is now inside the receive. `Ok(false)`: another worker has
    /// it, and nothing changed.
    pub fn acquire(&mut self, worker: usize) -> (res: Result<bool, PoolError>)
        requires
            old(self).wf(),
        ensures
            final(self).wf(),
            res is Ok <==> old(self)@.can_acquire(worker as int),
            res matches Ok(got) ==> got == (old(self)@.lock is None) && final(self)@ == old(
                self,
            )@.acquire(worker as int),
            res matches Err(e) ==> e == refusal(old(self)@, worker as int) && final(self)@ == old(
                self,
            )@,
    {
        if worker >= self.workers.len() {
            return Err(PoolError::NoSuchWorker);
        }
        match self.workers[worker].step(WorkerEvent::Acquired) {
            None => Err(PoolError::WrongState),
            Some(next) => {
                if self.lock.is_some() {
                    return Ok(false);
                }
                self.workers.set(worker, next);
                self.lock = Some(worker);
                proof {
                    lemma_acquire_inv(old(self)@, worker as int);
                }
                Ok(true)
            },
        }
    }

    /// Worker `worker`, inside the receive, looks at the channel. `Job`: it
    /// took the oldest waiting job, has let go of the lock, and is to call
    /// `start` and run the job. `Empty`: nothing waits; it keeps the lock and
    /// is to block until something changes. `Closed`: the channel is closed
    /// and drained; it has let go of the lock and exited.
    pub fn receive(&mut self, worker: usize) -> (res: Result<Received<J>, PoolError>)
        requires
            old(self).wf(),
        ensures
            final(self).wf(),
            res is Ok <==> old(self)@.can_receive(worker as int),
            res matches Ok(r) ==> final(self)@ == old(self)@.receive(worker as int) && match r {
                Received::Job { ticket, job } => {
                    &&& old(self)@.channel.pending() > 0
                    &&& ticket == old(self)@.channel.taken
                    &&& job == old(self)@.channel.admitted[old(self)@.channel.taken as int]
                },
                Received::Empty => old(self)@.channel.pending() == 0 && !old(
                    self,
                )@.channel.closed,
                Received::Closed => old(self)@.channel.pending() == 0 && old(
                    self,
                )@.channel.closed,
            },
            res matches Err(e) ==> e == refusal(old(self)@, worker as int) && final(self)@ == old(
                self,
            )@,
    {
        if worker >= self.workers.len() {
            return Err(PoolError::NoSuchWorker);
        }
        match self.workers[worker] {
            WorkerState::Waiting => {},
            _ => {
                return Err(PoolError::WrongState);
            },
        }
        let received = self.channel.recv();
        let event = match &received {
            Received::Job { ticket, .. } => Some(WorkerEvent::Job(*ticket)),
            Received::Empty => None,
            Received::Closed => Some(WorkerEvent::ChannelClosed),
        };
        if let Some(event) = event {
            if let Some(next) = self.workers[worker].step(event) {
                self.workers.set(worker, next);
            }
            self.lock = None;
        }
        proof {
            lemma_receive_inv(old(self)@, worker as int);
        }
        Ok(received)
    }

    /// Worker `worker` invokes the job it received. Returns the job's ticket.
    pub fn start(&mut self, worker: usize) -> (res: Result<u64, PoolError>)
        requires
            old(self).wf(),
        ensures
            final(self).wf(),
            res is Ok <==> old(self)@.can_start(worker as int),
            res matches Ok(ticket) ==> old(self)@.workers[worker as int] == WorkerState::Received(
                ticket,
            ) && final(self)@ == old(self)@.start(worker as int),
            res matches Err(e) ==> e == refusal(old(self)@, worker as int) && final(self)@ == old(
                self,
            )@,
    {
        if worker >= self.workers.len() {
            return Err(PoolError::NoSuchWorker);
        }
        match self.workers[worker] {
            WorkerState::Received(ticket) => {
                self.workers.set(worker, WorkerState::Running(ticket));
                proof {
                    lemma_start_inv(old(self)@, worker as int);
                }
                Ok(ticket)
            },
            _ => Err(PoolError::WrongState),
        }
    }

    /// The job that worker `worker` was running came to an end. Whether it
    /// returned or unwound, the worker is idle again and stays in the pool.
    /// Returns the job's ticket.
    pub fn complete(&mut self, worker: usize, outcome: JobOutcome) -> (res: Result<
        u64,
        PoolError,
    >)
        requires
            old(self).wf(),
        ensures
            final(self).wf(),
            res is Ok <==> old(self)@.can_complete(worker as int),
            res matches Ok(ticket) ==> old(self)@.workers[worker as int] == WorkerState::Running(
                ticket,
            ) && final(self)@ == old(self)@.complete(worker as int, outcome),
            res matches Err(e) ==> e == refusal(old(self)@, worker as int) && final(self)@ == old(
                self,
            )@,
    {
        if worker >= self.workers.len() {
            return Err(PoolError::NoSuchWorker);
        }
        match self.workers[worker] {
            WorkerState::Running(ticket) => {
                proof {
                    let after = old(self)@.complete(worker as int, outcome);
                    lemma_complete_inv(old(self)@, worker as int, outcome);
                    lemma_distinct_below(after.finished, after.channel.taken);
                }
                self.workers.set(worker, WorkerState::Idle);
                self.finished = Ghost(self.finished@.push(ticket));
                self.completed = self.completed + 1;
                match outcome {
                    JobOutcome::Panicked => {
                        self.panicked = self.panicked + 1;
                    },
                    JobOutcome::Returned => {},
                }
                Ok(ticket)
            },
            _ => Err(PoolError::WrongState),
        }
    }

    /// Takes worker `worker` as far round its loop as it can go without
    /// blocking, and says what its thread is to do next. `Run`: it took the
    /// oldest waiting job and is now running it; call `complete` when the job
    /// ends. `Wait`: the lock is taken or nothing waits; block until something
    /// changes and poll again. `Exit`: the channel is closed and drained; the
    /// worker has exited.
    pub fn poll(&mut self, worker: usize) -> (res: Result<Dispatch<J>, PoolError>)
        requires
            old(self).wf(),
        ensures
            final(self).wf(),
            res is Ok <==> old(self)@.can_poll(worker as int),
            res matches Ok(d) ==> final(self)@ == old(self)@.poll(worker as int) && match d {
                Dispatch::Run { ticket, job } => {
                    &&& ticket == old(self)@.channel.taken
                    &&& job == old(self)@.channel.admitted[old(self)@.channel.taken as int]
                    &&& final(self)@.workers[worker as int] == WorkerState::Running(ticket)
                },
                Dispatch::Wait => final(self)@.can_poll(worker as int),
                Dispatch::Exit => final(self)@.workers[worker as int] is Exited,
            },
            res matches Err(e) ==> e == refusal(old(self)@, worker as int) && final(self)@ == old(
                self,
            )@,
    {
        match self.worker_state(worker) {
            None => {
                return Err(PoolError::NoSuchWorker);
            },
            Some(WorkerState::Idle) => {
                match self.acquire(worker) {
                    Ok(true) => {},
                    _ => {
                        return Ok(Dispatch::Wait);
                    },
                }
            },
            Some(WorkerState::Waiting) => {},
            Some(_) => {
                return Err(PoolError::WrongState);
            },
        }
        match self.receive(worker) {
            Ok(Received::Job { ticket, job }) => {
                let started = self.start(worker);
                assert(started is Ok);
                Ok(Dispatch::Run { ticket, job })
            },
            Ok(Received::Closed) => Ok(Dispatch::Exit),
            _ => Ok(Dispatch::Wait),
        }
    }

    /// Begins shutdown: closes the channel. Jobs that wait are still handed
    /// out; a worker exits when it finds the channel closed and empty.
    pub fn shutdown(&mut self)
        requires
            old(self).wf(),
        ensures
            final(self).wf(),
            final(self)@ == old(self)@.shutdown(),
    {
        self.channel.close();
        proof {
            lemma_shutdown_inv(old(self)@);
        }
    }

    /// Records that worker `worker` was joined. Workers are joined after
    /// shutdown has begun, in id order, and only once they have exited.
    pub fn join(&mut self, worker: usize) -> (res: Result<(), PoolError>)
        requires
            old(self).wf(),
        ensures
            final(self).wf(),
            res is Ok <==> old(self)@.can_join(worker as int),
            res is Ok ==> final(self)@ == old(self)@.join(),
            res matches Err(e) ==> e == join_refusal(old(self)@, worker as int) && final(self)@
                == old(self)@,
    {
        if !self.channel.is_closed() {
            return Err(PoolError::NotShutDown);
        }
        if worker >= self.workers.len() {
            return Err(PoolError::NoSuchWorker);
        }
        if worker != self.joined {
            return Err(PoolError::OutOfOrder);
        }
        match self.workers[worker] {
            WorkerState::Exited => {
                self.joined = self.joined + 1;
                proof {
                    lemma_join_inv(old(self)@);
                }
                Ok(())
            },
            _ => Err(PoolError::StillLive),
        }
    }
}

/// Why a worker's step is refused: the pool has no such worker, or the
/// worker is not in the state the step starts from.
pub open spec fn refusal<J>(s: PoolState<J>, w: int) -> PoolError {
    if s.has_worker(w) {
        PoolError::WrongState
    } else {
        PoolError::NoSuchWorker
    }
}

/// Why a join that cannot be recorded is refused.
pub open spec fn join_refusal<J>(s: PoolState<J>, w: int) -> PoolError {
    if !s.channel.closed {
        PoolError::NotShutDown
    } else if !s.has_worker(w) {
        PoolError::NoSuchWorker
    } else if w != s.joined {
        PoolError::OutOfOrder
    } else {
        PoolError::StillLive
    }
}

} // verus!
