//! Whole runs of the pool: what holds after any sequence of steps.

use crate::guarantees::{lemma_drained_on_exit, lemma_step_inv};
use crate::invariants::lemma_init_inv;
use crate::model::{PoolState, Step};
use vstd::prelude::*;

verus! {

impl<J> PoolState<J> {
    /// Whether `steps` can be taken one after the other, starting here.
    pub open spec fn can_run(self, steps: Seq<Step<J>>) -> bool
        decreases steps.len(),
    {
        steps.len() == 0 || (self.enabled(steps[0]) && self.apply(steps[0]).can_run(
            steps.skip(1),
        ))
    }

    /// The state after `steps` were taken one after the other.
    pub open spec fn run(self, steps: Seq<Step<J>>) -> Self
        decreases steps.len(),
    {
        if steps.len() == 0 {
            self
        } else {
            self.apply(steps[0]).run(steps.skip(1))
        }
    }

    /// The jobs that `step` hands to a worker: the oldest waiting job on a
    /// receive that finds one, nothing otherwise.
    pub open spec fn hands_out(self, step: Step<J>) -> Seq<J> {
        if step is Receive && self.channel.pending() > 0 {
            seq![self.channel.admitted[self.channel.taken as int]]
        } else {
            Seq::empty()
        }
    }

    /// The jobs handed to workers in the course of `steps`, in the order
    /// they were handed out.
    pub open spec fn handed_out(self, steps: Seq<Step<J>>) -> Seq<J>
        decreases steps.len(),
    {
        if steps.len() == 0 {
            Seq::empty()
        } else {
            self.hands_out(steps[0]) + self.apply(steps[0]).handed_out(steps.skip(1))
        }
    }

    /// The jobs submitted in the course of `steps`, in submission order.
    pub open spec fn submitted(steps: Seq<Step<J>>) -> Seq<J>
        decreases steps.len(),
    {
        if steps.len() == 0 {
            Seq::empty()
        } else {
            (match steps[0] {
                Step::Submit(job) => seq![job],
                _ => Seq::empty(),
            }) + Self::submitted(steps.skip(1))
        }
    }
}

/// The invariant holds after every run that starts where it holds.
pub proof fn lemma_run_inv<J>(s: PoolState<J>, steps: Seq<Step<J>>)
    requires
        s.inv(),
        s.can_run(steps),
    ensures
        s.run(steps).inv(),
        s.run(steps).size() == s.size(),
    decreases steps.len(),
{
    if steps.len() > 0 {
        lemma_step_inv(s, steps[0]);
        lemma_run_inv(s.apply(steps[0]), steps.skip(1));
    }
}

/// A run adds the jobs it submits to the end of what was admitted, in
/// submission order, and changes nothing that was admitted before.
pub proof fn lemma_run_admits_in_order<J>(s: PoolState<J>, steps: Seq<Step<J>>)
    requires
        s.inv(),
        s.can_run(steps),
    ensures
        s.run(steps).channel.admitted == s.channel.admitted + PoolState::<J>::submitted(steps),
        s.run(steps).channel.taken >= s.channel.taken,
    decreases steps.len(),
{
    if steps.len() > 0 {
        let next = s.apply(steps[0]);
        lemma_step_inv(s, steps[0]);
        lemma_run_admits_in_order(next, steps.skip(1));
        assert(s.run(steps).channel.admitted =~= s.channel.admitted + PoolState::<J>::submitted(
            steps,
        ));
    }
}

/// First in, first out. Over any run, the jobs are handed to workers in
/// the order they were admitted, none skipped and none twice: what is handed
/// out is exactly the stretch of the admitted jobs between the number taken
/// before the run and the number taken after it.
pub proof fn lemma_run_fifo<J>(s: PoolState<J>, steps: Seq<Step<J>>)
    requires
        s.inv(),
        s.can_run(steps),
    ensures
        s.channel.taken <= s.run(steps).channel.taken <= s.run(steps).channel.admitted.len(),
        s.handed_out(steps) == s.run(steps).channel.admitted.subrange(
            s.channel.taken as int,
            s.run(steps).channel.taken as int,
        ),
    decreases steps.len(),
{
    let end = s.run(steps);
    if steps.len() > 0 {
        let next = s.apply(steps[0]);
        lemma_step_inv(s, steps[0]);
        lemma_run_inv(next, steps.skip(1));
        lemma_run_fifo(next, steps.skip(1));
        lemma_run_admits_in_order(next, steps.skip(1));
        if s.hands_out(steps[0]).len() > 0 {
            // The job handed out first is still where it was admitted.
            assert(end.channel.admitted[s.channel.taken as int]
                == s.channel.admitted[s.channel.taken as int]);
        }
    }
    assert(s.handed_out(steps) =~= end.channel.admitted.subrange(
        s.channel.taken as int,
        end.channel.taken as int,
    ));
}

/// A pool that was built with at least one worker, took any run of steps
/// and ended with every worker exited has run each job submitted to it
/// exactly once: as many jobs came to an end as were submitted, no ticket
/// twice, and every job was handed to a worker, in submission order.
pub proof fn lemma_clean_shutdown_runs_all<J>(size: nat, steps: Seq<Step<J>>)
    requires
        size > 0,
        PoolState::<J>::init(size).can_run(steps),
        PoolState::<J>::init(size).run(steps).all_exited(),
    ensures
        ({
            let end = PoolState::<J>::init(size).run(steps);
            &&& end.size() == size
            &&& end.finished.len() == PoolState::<J>::submitted(steps).len()
            &&& end.finished.no_duplicates()
            &&& PoolState::<J>::init(size).handed_out(steps) == PoolState::<J>::submitted(steps)
        }),
{
    let start = PoolState::<J>::init(size);
    let end = start.run(steps);
    lemma_init_inv::<J>(size);
    lemma_run_inv(start, steps);
    lemma_run_admits_in_order(start, steps);
    lemma_run_fifo(start, steps);
    lemma_drained_on_exit(end);
}

} // verus!
