//! Counting arguments: how long a sequence of distinct tickets can be, and
//! how the number of live workers changes when one worker moves.

use crate::model::live_count;
use crate::worker::WorkerState;
use vstd::prelude::*;

verus! {

/// Distinct tickets below `n` are at most `n` many.
pub proof fn lemma_distinct_below(s: Seq<u64>, n: nat)
    requires
        s.no_duplicates(),
        forall|i: int| 0 <= i < s.len() ==> (#[trigger] s[i]) < n,
    ensures
        s.len() <= n,
    decreases n,
{
    if s.len() == 0 {
    } else if n == 0 {
        assert(s[0] < n);
    } else {
        let below = (n - 1) as nat;
        if exists|k: int| 0 <= k < s.len() && s[k] == below {
            // Take the one entry `below` out: the rest is distinct and lies below it.
            let k = choose|k: int| 0 <= k < s.len() && s[k] == below;
            lemma_distinct_below(s.remove(k), below);
        } else {
            lemma_distinct_below(s, below);
        }
    }
}

/// A sequence that holds every ticket below `n` has at least `n` entries.
pub proof fn lemma_covering(s: Seq<u64>, n: nat)
    requires
        n <= u64::MAX + 1,
        forall|t: u64| t < n ==> s.contains(t),
    ensures
        s.len() >= n,
    decreases n,
{
    if n > 0 {
        let below = (n - 1) as nat;
        let top = below as u64;
        assert(s.contains(top));
        let k = choose|k: int| 0 <= k < s.len() && s[k] == top;
        let r = s.remove(k);
        assert forall|t: u64| t < below implies r.contains(t) by {
            assert(s.contains(t));
            let j = choose|j: int| 0 <= j < s.len() && s[j] == t;
            if j < k {
                assert(r[j] == t);
            } else {
                assert(r[j - 1] == t);
            }
        }
        lemma_covering(r, below);
    }
}

/// Where every worker is live, all of them count.
pub proof fn lemma_live_count_all(workers: Seq<WorkerState>)
    requires
        forall|w: int| 0 <= w < workers.len() ==> (#[trigger] workers[w]).live(),
    ensures
        live_count(workers) == workers.len(),
    decreases workers.len(),
{
    if workers.len() > 0 {
        lemma_live_count_all(workers.drop_last());
    }
}

/// Where every worker has exited, none counts.
pub proof fn lemma_live_count_none(workers: Seq<WorkerState>)
    requires
        forall|w: int| 0 <= w < workers.len() ==> !(#[trigger] workers[w]).live(),
    ensures
        live_count(workers) == 0,
    decreases workers.len(),
{
    if workers.len() > 0 {
        lemma_live_count_none(workers.drop_last());
    }
}

/// Moving one worker changes the count by that worker alone.
pub proof fn lemma_live_count_update(workers: Seq<WorkerState>, w: int, state: WorkerState)
    requires
        0 <= w < workers.len(),
    ensures
        live_count(workers.update(w, state)) + (if workers[w].live() {
            1nat
        } else {
            0nat
        }) == live_count(workers) + (if state.live() {
            1nat
        } else {
            0nat
        }),
    decreases workers.len(),
{
    let moved = workers.update(w, state);
    if w == workers.len() - 1 {
        assert(moved.drop_last() =~= workers.drop_last());
    } else {
        assert(moved.drop_last() =~= workers.drop_last().update(w, state));
        lemma_live_count_update(workers.drop_last(), w, state);
    }
}

} // verus!
