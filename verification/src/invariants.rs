//! Every step of the pool keeps its invariant.

use crate::model::PoolState;
use crate::worker::JobOutcome;
use vstd::prelude::*;

verus! {

/// A job that is accounted for stays so over a step after which every
/// worker still holds what it held and the finished jobs are all still there.
proof fn lemma_accounted_carries<J>(s: PoolState<J>, n: PoolState<J>)
    requires
        forall|w: int, t: u64| s.holds(w, t) ==> n.holds(w, t),
        s.finished.is_prefix_of(n.finished),
    ensures
        forall|t: u64| s.accounted(t) ==> #[trigger] n.accounted(t),
{
    assert forall|t: u64| s.accounted(t) implies #[trigger] n.accounted(t) by {
        if s.finished.contains(t) {
            let i = choose|i: int| 0 <= i < s.finished.len() && s.finished[i] == t;
            assert(n.finished[i] == t);
        } else {
            let w = choose|w: int| s.holds(w, t);
            assert(n.holds(w, t));
        }
    }
}

/// A new pool of at least one worker satisfies the invariant.
pub proof fn lemma_init_inv<J>(size: nat)
    requires
        size > 0,
    ensures
        PoolState::<J>::init(size).inv(),
{
}

/// Submitting a job to an open pool keeps the invariant.
pub proof fn lemma_submit_inv<J>(s: PoolState<J>, job: J)
    requires
        s.inv(),
        s.can_submit(),
        s.channel.admitted.len() < u64::MAX,
    ensures
        s.submit(job).inv(),
{
    let n = s.submit(job);
    assert forall|w: int, t: u64| n.holds(w, t) == s.holds(w, t) by {}
    lemma_accounted_carries(s, n);
}

/// Trying for the dequeue lock keeps the invariant.
pub proof fn lemma_acquire_inv<J>(s: PoolState<J>, w: int)
    requires
        s.inv(),
        s.can_acquire(w),
    ensures
        s.acquire(w).inv(),
{
    let n = s.acquire(w);
    assert forall|v: int, t: u64| n.holds(v, t) == s.holds(v, t) by {}
    lemma_accounted_carries(s, n);
}

/// A look at the channel from inside the receive keeps the invariant.
pub proof fn lemma_receive_inv<J>(s: PoolState<J>, w: int)
    requires
        s.inv(),
        s.can_receive(w),
    ensures
        s.receive(w).inv(),
{
    let n = s.receive(w);
    let fresh = s.channel.taken as u64;
    if s.channel.pending() > 0 {
        assert(n.holds(w, fresh));
        assert forall|v: int, t: u64| n.holds(v, t) == (s.holds(v, t) || (v == w && t == fresh)) by {}
        assert forall|i: int| 0 <= i < s.finished.len() implies s.finished[i] != fresh by {}
    } else {
        assert forall|v: int, t: u64| n.holds(v, t) == s.holds(v, t) by {}
    }
    lemma_accounted_carries(s, n);
}

/// Invoking a received job keeps the invariant.
pub proof fn lemma_start_inv<J>(s: PoolState<J>, w: int)
    requires
        s.inv(),
        s.can_start(w),
    ensures
        s.start(w).inv(),
{
    let n = s.start(w);
    assert forall|v: int, t: u64| n.holds(v, t) == s.holds(v, t) by {}
    lemma_accounted_carries(s, n);
}

/// The end of a job, by return or by unwinding, keeps the invariant.
pub proof fn lemma_complete_inv<J>(s: PoolState<J>, w: int, outcome: JobOutcome)
    requires
        s.inv(),
        s.can_complete(w),
    ensures
        s.complete(w, outcome).inv(),
{
    let n = s.complete(w, outcome);
    let done = s.workers[w]->Running_0;
    assert(s.holds(w, done));
    assert forall|v: int, t: u64| n.holds(v, t) == (s.holds(v, t) && v != w) by {}
    assert forall|t: u64| t < n.channel.taken implies #[trigger] n.accounted(t) by {
        assert(s.accounted(t));
        if t == done {
            assert(n.finished[s.finished.len() as int] == t);
        } else if s.finished.contains(t) {
            let i = choose|i: int| 0 <= i < s.finished.len() && s.finished[i] == t;
            assert(n.finished[i] == t);
        } else {
            let v = choose|v: int| s.holds(v, t);
            assert(n.holds(v, t));
        }
    }
}

/// Closing the channel keeps the invariant.
pub proof fn lemma_shutdown_inv<J>(s: PoolState<J>)
    requires
        s.inv(),
    ensures
        s.shutdown().inv(),
{
    let n = s.shutdown();
    assert forall|v: int, t: u64| n.holds(v, t) == s.holds(v, t) by {}
    lemma_accounted_carries(s, n);
}

/// Joining the next exited worker keeps the invariant.
pub proof fn lemma_join_inv<J>(s: PoolState<J>)
    requires
        s.inv(),
        s.can_join(s.joined as int),
    ensures
        s.join().inv(),
{
    let n = s.join();
    assert forall|v: int, t: u64| n.holds(v, t) == s.holds(v, t) by {}
    lemma_accounted_carries(s, n);
}

} // verus!
