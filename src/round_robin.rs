//! The order in which the scheduler dispatches threads.
//!
//! A thread is described here by its id and by how many times it will yield
//! before it exits; a run queue by the sequence of such pairs, front first.
//! The scheduler pops the front thread and runs it; if it yields it goes to
//! the back with one yield fewer left, and if it exits it is gone.
use vstd::prelude::*;

verus! {

/// The number of dispatches still owed to the threads of `q`.
pub open spec fn work(q: Seq<(u32, nat)>) -> nat
    decreases q.len(),
{
    if q.len() == 0 {
        0
    } else {
        q[0].1 + 1 + work(q.drop_first())
    }
}

/// The queue after its front thread ran once: gone if it had no yield left,
/// otherwise at the back with one yield fewer.
pub open spec fn after_dispatch(q: Seq<(u32, nat)>) -> Seq<(u32, nat)>
    recommends
        q.len() > 0,
{
    if q[0].1 == 0 {
        q.drop_first()
    } else {
        q.drop_first().push((q[0].0, (q[0].1 - 1) as nat))
    }
}

/// The ids of the threads that run, in dispatch order, until the queue is empty.
pub open spec fn round_robin(q: Seq<(u32, nat)>) -> Seq<u32>
    decreases work(q),
    via round_robin_decreases
{
    if q.len() == 0 {
        Seq::empty()
    } else {
        seq![q[0].0] + round_robin(after_dispatch(q))
    }
}

proof fn lemma_work_push(q: Seq<(u32, nat)>, x: (u32, nat))
    ensures
        work(q.push(x)) == work(q) + x.1 + 1,
    decreases q.len(),
{
    if q.len() > 0 {
        assert(q.push(x).drop_first() =~= q.drop_first().push(x));
        assert(q.push(x)[0] == q[0]);
        lemma_work_push(q.drop_first(), x);
    } else {
        assert(q.push(x).drop_first() =~= Seq::<(u32, nat)>::empty());
        assert(q.push(x)[0] == x);
        assert(work(q.push(x).drop_first()) == 0);
    }
}

/// Each dispatch takes one unit of work off the queue.
pub proof fn lemma_work_after_dispatch(q: Seq<(u32, nat)>)
    requires
        q.len() > 0,
    ensures
        work(after_dispatch(q)) + 1 == work(q),
{
    if q[0].1 > 0 {
        lemma_work_push(q.drop_first(), (q[0].0, (q[0].1 - 1) as nat));
    }
}

#[via_fn]
proof fn round_robin_decreases(q: Seq<(u32, nat)>) {
    if q.len() > 0 {
        lemma_work_after_dispatch(q);
    }
}

/// How often `id` occurs in `s`.
pub open spec fn occurrences(s: Seq<u32>, id: u32) -> nat
    decreases s.len(),
{
    if s.len() == 0 {
        0
    } else {
        (if s[0] == id {
            1nat
        } else {
            0nat
        }) + occurrences(s.drop_first(), id)
    }
}

/// How many dispatches the threads of `q` that carry `id` are owed.
pub open spec fn owed(q: Seq<(u32, nat)>, id: u32) -> nat
    decreases q.len(),
{
    if q.len() == 0 {
        0
    } else {
        (if q[0].0 == id {
            q[0].1 + 1
        } else {
            0
        }) + owed(q.drop_first(), id)
    }
}

proof fn lemma_owed_push(q: Seq<(u32, nat)>, x: (u32, nat), id: u32)
    ensures
        owed(q.push(x), id) == owed(q, id) + if x.0 == id {
            x.1 + 1
        } else {
            0
        },
    decreases q.len(),
{
    if q.len() > 0 {
        assert(q.push(x).drop_first() =~= q.drop_first().push(x));
        assert(q.push(x)[0] == q[0]);
        lemma_owed_push(q.drop_first(), x, id);
    } else {
        assert(q.push(x).drop_first() =~= Seq::<(u32, nat)>::empty());
        assert(q.push(x)[0] == x);
        assert(owed(q.push(x).drop_first(), id) == 0);
    }
}

/// No two threads of `q` have the same id.
pub open spec fn distinct_ids(q: Seq<(u32, nat)>) -> bool {
    forall|i: int, j: int| 0 <= i < j < q.len() ==> (#[trigger] q[i]).0 != (#[trigger] q[j]).0
}

/// Threads that never yield are each dispatched once, in the order they were
/// queued.
pub proof fn lemma_round_robin_fifo(q: Seq<(u32, nat)>)
    requires
        forall|i: int| 0 <= i < q.len() ==> (#[trigger] q[i]).1 == 0,
    ensures
        round_robin(q) == q.map_values(|p: (u32, nat)| p.0),
    decreases q.len(),
{
    if q.len() > 0 {
        lemma_round_robin_fifo(q.drop_first());
        assert(round_robin(q) =~= q.map_values(|p: (u32, nat)| p.0));
    } else {
        assert(round_robin(q) =~= q.map_values(|p: (u32, nat)| p.0));
    }
}

/// The first round dispatches every queued thread once, in queue order,
/// whether or not the threads yield later: the first `k` dispatches are the
/// ids of the first `k` queued threads.
pub proof fn lemma_first_round_in_queue_order(q: Seq<(u32, nat)>, k: int)
    requires
        0 <= k <= q.len(),
    ensures
        round_robin(q).len() >= k,
        round_robin(q).take(k) == q.take(k).map_values(|p: (u32, nat)| p.0),
    decreases k,
{
    if k > 0 {
        let a = after_dispatch(q);
        assert(a.len() >= q.len() - 1);
        assert forall|i: int| 0 <= i < k - 1 implies #[trigger] a[i] == q[i + 1] by {}
        lemma_first_round_in_queue_order(a, k - 1);
        assert(round_robin(q) == seq![q[0].0] + round_robin(a));
        assert(round_robin(q).take(k) =~= q.take(k).map_values(|p: (u32, nat)| p.0)) by {
            assert forall|i: int| 0 <= i < k implies #[trigger] round_robin(q).take(k)[i] == q.take(k).map_values(|p: (u32, nat)| p.0)[i] by {
                if i > 0 {
                    assert(round_robin(q)[i] == round_robin(a)[i - 1]);
                    assert(round_robin(a).take(k - 1)[i - 1] == a.take(k - 1).map_values(|p: (u32, nat)| p.0)[i - 1]);
                }
            }
        }
    } else {
        assert(round_robin(q).take(0) =~= q.take(0).map_values(|p: (u32, nat)| p.0));
    }
}

/// A value that occurs once in `s` occurs at no other position.
pub proof fn lemma_single_occurrence(s: Seq<u32>, id: u32, i: int)
    requires
        occurrences(s, id) == 1,
        0 <= i < s.len(),
        s[i] == id,
    ensures
        forall|m: int| 0 <= m < s.len() && s[m] == id ==> m == i,
    decreases s.len(),
{
    if i == 0 {
        assert forall|m: int| 0 <= m < s.len() && s[m] == id implies m == i by {
            if m > 0 {
                assert(s.drop_first()[m - 1] == id);
                lemma_occurrences_at(s.drop_first(), id, m - 1);
            }
        }
    } else {
        if s[0] == id {
            lemma_occurrences_at(s.drop_first(), id, i - 1);
        }
        lemma_single_occurrence(s.drop_first(), id, i - 1);
        assert forall|m: int| 0 <= m < s.len() && s[m] == id implies m == i by {
            if m == 0 {
                lemma_occurrences_at(s.drop_first(), id, i - 1);
            } else {
                assert(s.drop_first()[m - 1] == id);
            }
        }
    }
}

proof fn lemma_occurrences_at(s: Seq<u32>, id: u32, i: int)
    requires
        0 <= i < s.len(),
        s[i] == id,
    ensures
        occurrences(s, id) >= 1,
    decreases s.len(),
{
    if i > 0 {
        lemma_occurrences_at(s.drop_first(), id, i - 1);
    }
}

/// Every thread is dispatched once more than it yields: the dispatches of the
/// threads that carry `id` are exactly what they are owed.
pub proof fn lemma_round_robin_dispatch_count(q: Seq<(u32, nat)>, id: u32)
    ensures
        occurrences(round_robin(q), id) == owed(q, id),
    decreases work(q),
{
    if q.len() > 0 {
        let next = after_dispatch(q);
        lemma_work_after_dispatch(q);
        lemma_round_robin_dispatch_count(next, id);
        let s = round_robin(q);
        assert(s.drop_first() =~= round_robin(next));
        if q[0].1 > 0 {
            lemma_owed_push(q.drop_first(), (q[0].0, (q[0].1 - 1) as nat), id);
        }
    }
}

/// With distinct ids, the thread at position `i` that yields `k` times is
/// dispatched exactly `k + 1` times.
pub proof fn lemma_yields_then_dispatches(q: Seq<(u32, nat)>, i: int)
    requires
        distinct_ids(q),
        0 <= i < q.len(),
    ensures
        occurrences(round_robin(q), q[i].0) == q[i].1 + 1,
    decreases q.len(),
{
    lemma_round_robin_dispatch_count(q, q[i].0);
    lemma_owed_single(q, i);
}

proof fn lemma_owed_single(q: Seq<(u32, nat)>, i: int)
    requires
        distinct_ids(q),
        0 <= i < q.len(),
    ensures
        owed(q, q[i].0) == q[i].1 + 1,
    decreases q.len(),
{
    let r = q.drop_first();
    if i == 0 {
        lemma_owed_absent(r, q[0].0);
    } else {
        assert(r[i - 1] == q[i]);
        assert(q[0].0 != q[i].0);
        lemma_owed_single(r, i - 1);
    }
}

proof fn lemma_owed_absent(q: Seq<(u32, nat)>, id: u32)
    requires
        forall|j: int| 0 <= j < q.len() ==> (#[trigger] q[j]).0 != id,
    ensures
        owed(q, id) == 0,
    decreases q.len(),
{
    if q.len() > 0 {
        lemma_owed_absent(q.drop_first(), id);
    }
}

} // verus!
