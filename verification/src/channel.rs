//! The task channel: a closable first-in first-out queue of jobs.

use std::collections::VecDeque;
use vstd::prelude::*;

verus! {

/// What a channel is, mathematically: every job ever admitted, in admission
/// order, how many of them have been taken out, and whether the sending side
/// is gone.
pub struct ChannelState<J> {
    pub admitted: Seq<J>,
    pub taken: nat,
    pub closed: bool,
}

impl<J> ChannelState<J> {
    /// No more jobs were taken than were admitted.
    pub open spec fn inv(self) -> bool {
        self.taken <= self.admitted.len()
    }

    /// The jobs still waiting, oldest first.
    pub open spec fn queue(self) -> Seq<J> {
        self.admitted.skip(self.taken as int)
    }

    /// How many jobs are still waiting.
    pub open spec fn pending(self) -> nat {
        (self.admitted.len() - self.taken) as nat
    }

    /// A fresh channel: open, nothing admitted.
    pub open spec fn init() -> Self {
        ChannelState { admitted: Seq::empty(), taken: 0, closed: false }
    }

    /// The channel after `job` was admitted.
    pub open spec fn send(self, job: J) -> Self {
        ChannelState { admitted: self.admitted.push(job), ..self }
    }

    /// The channel after its oldest waiting job was taken.
    pub open spec fn take(self) -> Self {
        ChannelState { taken: self.taken + 1, ..self }
    }

    /// The channel after the sending side was dropped.
    pub open spec fn close(self) -> Self {
        ChannelState { closed: true, ..self }
    }
}

/// A job that was refused because the channel is closed. The job comes back
/// to the sender untouched.
pub struct SendError<J> {
    pub job: J,
}

/// The result of one receive attempt.
pub enum Received<J> {
    /// The oldest waiting job, with its ticket: its position in admission order.
    Job { ticket: u64, job: J },
    /// Nothing is waiting, but the channel is still open: a receiver would block.
    Empty,
    /// Nothing is waiting and nothing will come.
    Closed,
}

/// A closable first-in first-out queue of jobs. Tickets count admissions from 0.
pub struct TaskChannel<J> {
    queue: VecDeque<J>,
    taken: u64,
    closed: bool,
    admitted: Ghost<Seq<J>>,
}

impl<J> View for TaskChannel<J> {
    type V = ChannelState<J>;

    closed spec fn view(&self) -> ChannelState<J> {
        ChannelState { admitted: self.admitted@, taken: self.taken as nat, closed: self.closed }
    }
}

impl<J> TaskChannel<J> {
    /// The queue in memory holds exactly the jobs the model says are waiting,
    /// and every ticket fits a `u64`.
    pub closed spec fn wf(&self) -> bool {
        &&& self@.inv()
        &&& self.queue@ =~= self@.queue()
        &&& self@.admitted.len() <= u64::MAX
    }

    /// An open channel with nothing in it.
    pub fn new() -> (ch: Self)
        ensures
            ch.wf(),
            ch@ == ChannelState::<J>::init(),
    {
        TaskChannel { queue: VecDeque::new(), taken: 0, closed: false, admitted: Ghost(Seq::empty()) }
    }

    /// Whether the sending side has been dropped.
    pub fn is_closed(&self) -> (b: bool)
        ensures
            b == self@.closed,
    {
        self.closed
    }

    /// How many jobs have been taken out so far.
    pub fn taken(&self) -> (n: u64)
        ensures
            n == self@.taken,
    {
        self.taken
    }

    /// How many jobs are waiting.
    pub fn len(&self) -> (n: usize)
        requires
            self.wf(),
        ensures
            n == self@.pending(),
    {
        self.queue.len()
    }

    /// Whether no job is waiting.
    pub fn is_empty(&self) -> (b: bool)
        requires
            self.wf(),
        ensures
            b == (self@.pending() == 0),
    {
        self.queue.len() == 0
    }

    /// How many jobs have been admitted so far; also the next ticket.
    pub fn sent(&self) -> (n: u64)
        requires
            self.wf(),
        ensures
            n == self@.admitted.len(),
    {
        let waiting: u64 = self.queue.len() as u64;
        self.taken + waiting
    }

    /// Admits `job` at the back of the queue and returns its ticket. A closed
    /// channel admits nothing and hands the job back.
    pub fn send(&mut self, job: J) -> (res: Result<u64, SendError<J>>)
        requires
            old(self).wf(),
            old(self)@.admitted.len() < u64::MAX,
        ensures
            final(self).wf(),
            res is Err <==> old(self)@.closed,
            res matches Ok(ticket) ==> ticket == old(self)@.admitted.len() && final(self)@ == old(
                self,
            )@.send(job),
            res matches Err(e) ==> e.job == job && final(self)@ == old(self)@,
    {
        if self.closed {
            return Err(SendError { job });
        }
        let ticket: u64 = self.sent();
        self.admitted = Ghost(self.admitted@.push(job));
        self.queue.push_back(job);
        Ok(ticket)
    }

    /// Takes the oldest waiting job, if there is one; otherwise says whether
    /// more may come.
    pub fn recv(&mut self) -> (r: Received<J>)
        requires
            old(self).wf(),
        ensures
            final(self).wf(),
            match r {
                Received::Job { ticket, job } => {
                    &&& old(self)@.pending() > 0
                    &&& ticket == old(self)@.taken
                    &&& job == old(self)@.admitted[old(self)@.taken as int]
                    &&& final(self)@ == old(self)@.take()
                },
                Received::Empty => {
                    &&& old(self)@.pending() == 0
                    &&& !old(self)@.closed
                    &&& final(self)@ == old(self)@
                },
                Received::Closed => {
                    &&& old(self)@.pending() == 0
                    &&& old(self)@.closed
                    &&& final(self)@ == old(self)@
                },
            },
    {
        match self.queue.pop_front() {
            Some(job) => {
                let ticket: u64 = self.taken;
                self.taken = ticket + 1;
                Received::Job { ticket, job }
            },
            None => {
                if self.closed {
                    Received::Closed
                } else {
                    Received::Empty
                }
            },
        }
    }

    /// Drops the sending side: nothing more is admitted, what waits can still
    /// be received.
    pub fn close(&mut self)
        requires
            old(self).wf(),
        ensures
            final(self).wf(),
            final(self)@ == old(self)@.close(),
    {
        self.closed = true;
    }
}

} // verus!
