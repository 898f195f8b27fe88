//! What the pool guarantees, proved from the invariant.

use crate::counting::{
    lemma_covering, lemma_distinct_below, lemma_live_count_all, lemma_live_count_none,
    lemma_live_count_update,
};
use crate::invariants::{
    lemma_acquire_inv, lemma_complete_inv, lemma_join_inv, lemma_receive_inv, lemma_shutdown_inv,
    lemma_start_inv, lemma_submit_inv,
};
use crate::model::{PoolState, Step};
use crate::worker::{JobOutcome, WorkerState};
use vstd::prelude::*;

verus! {

/// Every step that can be taken keeps the invariant.
pub proof fn lemma_step_inv<J>(s: PoolState<J>, step: Step<J>)
    requires
        s.inv(),
        s.enabled(step),
    ensures
        s.apply(step).inv(),
{
    match step {
        Step::Submit(job) => lemma_submit_inv(s, job),
        Step::Acquire(w) => lemma_acquire_inv(s, w),
        Step::Receive(w) => lemma_receive_inv(s, w),
        Step::Start(w) => lemma_start_inv(s, w),
        Step::Complete(w, outcome) => lemma_complete_inv(s, w, outcome),
        Step::Shutdown => lemma_shutdown_inv(s),
        Step::Join => lemma_join_inv(s),
    }
}

/// The number of workers is fixed at construction: no step changes it.
pub proof fn lemma_size_is_fixed<J>(s: PoolState<J>, step: Step<J>)
    requires
        s.enabled(step),
    ensures
        s.apply(step).size() == s.size(),
{
}

/// Until shutdown begins, every worker is live: the pool has exactly as
/// many live workers as it was built with.
pub proof fn lemma_all_live_until_shutdown<J>(s: PoolState<J>)
    requires
        s.inv(),
        !s.channel.closed,
    ensures
        s.live_workers() == s.size(),
        forall|w: int| s.has_worker(w) ==> (#[trigger] s.workers[w]).live(),
{
    lemma_live_count_all(s.workers);
}

/// A job is never with two workers, never comes to an end twice, and never
/// comes to an end while a worker still has it. One that was not taken from
/// the channel is with no worker and has not come to an end.
pub proof fn lemma_at_most_once<J>(s: PoolState<J>, t: u64)
    requires
        s.inv(),
    ensures
        forall|i: int, j: int|
            0 <= i < s.finished.len() && 0 <= j < s.finished.len() && s.finished[i] == t
                && s.finished[j] == t ==> i == j,
        forall|w1: int, w2: int| s.holds(w1, t) && s.holds(w2, t) ==> w1 == w2,
        !(s.in_flight(t) && s.finished.contains(t)),
        t >= s.channel.taken ==> !s.in_flight(t) && !s.finished.contains(t),
{
}

/// Tickets are handed out once, in order: the job a receive hands out has
/// the ticket that counts the jobs taken before it, and no later step hands
/// that ticket out again, because the count never goes down.
pub proof fn lemma_tickets_never_reissued<J>(s: PoolState<J>, step: Step<J>)
    requires
        s.inv(),
        s.enabled(step),
    ensures
        s.apply(step).channel.taken >= s.channel.taken,
        s.apply(step).channel.taken > s.channel.taken ==> {
            &&& step matches Step::Receive(w)
            &&& s.apply(step).channel.taken == s.channel.taken + 1
            &&& s.apply(step).workers[w] == WorkerState::Received(s.channel.taken as u64)
        },
{
}

/// A job that was taken from the channel and is with no worker has come to
/// an end exactly once.
pub proof fn lemma_taken_jobs_run<J>(s: PoolState<J>, t: u64)
    requires
        s.inv(),
        t < s.channel.taken,
        !s.in_flight(t),
    ensures
        s.finished.contains(t),
{
    assert(s.accounted(t));
}

/// Shutdown drains: once every worker has exited, every job that was ever
/// submitted has come to an end, each exactly once.
pub proof fn lemma_drained_on_exit<J>(s: PoolState<J>)
    requires
        s.inv(),
        s.all_exited(),
    ensures
        s.channel.closed,
        s.channel.pending() == 0,
        s.finished.len() == s.channel.admitted.len(),
        s.finished.no_duplicates(),
        forall|t: u64| t < s.channel.admitted.len() ==> s.finished.contains(t),
{
    assert(s.workers[0] is Exited);
    assert forall|t: u64| t < s.channel.admitted.len() implies s.finished.contains(t) by {
        assert(s.accounted(t));
    }
    lemma_distinct_below(s.finished, s.channel.taken);
    lemma_covering(s.finished, s.channel.taken);
}

/// Jobs leave the channel in the order they entered it: a submitted job
/// goes to the back of the queue, a receive takes the front, and the job
/// with ticket `k` is the `k`-th job that was ever admitted.
pub proof fn lemma_fifo<J>(s: PoolState<J>, job: J, w: int)
    requires
        s.inv(),
    ensures
        s.submit(job).channel.queue() == s.channel.queue().push(job),
        s.submit(job).channel.admitted[s.channel.admitted.len() as int] == job,
        s.channel.pending() > 0 ==> {
            &&& s.channel.queue()[0] == s.channel.admitted[s.channel.taken as int]
            &&& s.receive(w).channel.queue() == s.channel.queue().skip(1)
        },
{
}

/// No step rewrites history: what was admitted stays admitted, in place.
pub proof fn lemma_admitted_is_append_only<J>(s: PoolState<J>, step: Step<J>)
    requires
        s.inv(),
        s.enabled(step),
    ensures
        s.channel.admitted.is_prefix_of(s.apply(step).channel.admitted),
        s.finished.is_prefix_of(s.apply(step).finished),
{
}

/// At most one worker is inside the receive, and it is the one that holds
/// the dequeue lock. A worker that has a job in hand does not hold it.
pub proof fn lemma_lock_is_exclusive<J>(s: PoolState<J>, w1: int, w2: int)
    requires
        s.inv(),
        s.has_worker(w1),
        s.has_worker(w2),
    ensures
        s.workers[w1] is Waiting && s.workers[w2] is Waiting ==> w1 == w2,
        s.workers[w1].holding() is Some ==> s.lock != Some(w1),
{
}

/// A running job does not hold other workers up: while worker `a` runs a
/// job, an idle worker `b` that finds the lock free and a job waiting takes
/// that job and runs it, and both jobs are then running at once.
pub proof fn lemma_jobs_overlap<J>(s: PoolState<J>, a: int, b: int)
    requires
        s.inv(),
        s.has_worker(a),
        s.workers[a] is Running,
        s.can_acquire(b),
        s.lock is None,
        s.channel.pending() > 0,
    ensures
        ({
            let n = s.acquire(b).receive(b).start(b);
            &&& n.inv()
            &&& n.workers[a] == s.workers[a]
            &&& n.workers[b] == WorkerState::Running(s.channel.taken as u64)
            &&& n.lock is None
        }),
{
    lemma_acquire_inv(s, b);
    let locked = s.acquire(b);
    lemma_receive_inv(locked, b);
    let looked = locked.receive(b);
    lemma_start_inv(looked, b);
}

/// A job that unwinds costs the pool no worker: the worker is idle again,
/// as after a job that returned, and as many workers are live as before.
pub proof fn lemma_panic_keeps_worker<J>(s: PoolState<J>, w: int)
    requires
        s.inv(),
        s.can_complete(w),
    ensures
        s.complete(w, JobOutcome::Panicked).workers[w] == WorkerState::Idle,
        s.complete(w, JobOutcome::Panicked).workers == s.complete(w, JobOutcome::Returned).workers,
        s.complete(w, JobOutcome::Panicked).live_workers() == s.live_workers(),
        s.complete(w, JobOutcome::Panicked).size() == s.size(),
{
    lemma_live_count_update(s.workers, w, WorkerState::Idle);
}

/// Once every worker has been joined, every worker has exited: none is
/// live, and all that was submitted has run.
pub proof fn lemma_released_is_final<J>(s: PoolState<J>)
    requires
        s.inv(),
        s.released(),
    ensures
        s.all_exited(),
        s.live_workers() == 0,
        s.finished.len() == s.channel.admitted.len(),
{
    lemma_live_count_none(s.workers);
    lemma_drained_on_exit(s);
}

/// A worker exits only by finding the channel closed and empty, and an
/// exited worker takes no further step.
pub proof fn lemma_exit_is_final<J>(s: PoolState<J>, w: int, step: Step<J>)
    requires
        s.inv(),
        s.has_worker(w),
        s.workers[w] is Exited,
        s.enabled(step),
    ensures
        s.apply(step).workers[w] is Exited,
        s.apply(step).channel.pending() == 0,
        !(step is Submit),
{
}

} // verus!
