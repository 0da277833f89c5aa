use vstd::prelude::*;

use std::collections::VecDeque;

verus! {

/// The shared queue of pending work: seeded once, then drained one item at a
/// time. Callers that share it across workers hold it under a lock, so that
/// each `take_one` happens whole, one after another.
pub struct WorkQueue<T> {
    items: VecDeque<T>,
}

/// One take from a queue holding `q`: its front item and the rest, or nothing
/// and the queue unchanged when it is empty.
pub open spec fn take_step<T>(q: Seq<T>) -> (Option<T>, Seq<T>) {
    if q.len() == 0 {
        (None, q)
    } else {
        (Some(q[0]), q.drop_first())
    }
}

/// What `n` takes in a row hand out, starting from a queue holding `q`.
pub open spec fn take_results<T>(q: Seq<T>, n: nat) -> Seq<Option<T>>
    decreases n,
{
    if n == 0 {
        Seq::empty()
    } else {
        let (r, rest) = take_step(q);
        seq![r] + take_results(rest, (n - 1) as nat)
    }
}

/// What a queue holding `q` holds after `n` takes in a row.
pub open spec fn remaining_after<T>(q: Seq<T>, n: nat) -> Seq<T>
    decreases n,
{
    if n == 0 {
        q
    } else {
        remaining_after(take_step(q).1, (n - 1) as nat)
    }
}

impl<T> View for WorkQueue<T> {
    type V = Seq<T>;

    closed spec fn view(&self) -> Seq<T> {
        self.items@
    }
}

impl<T> WorkQueue<T> {
    /// A queue holding `items`, the first in front.
    pub fn load(items: Vec<T>) -> (r: WorkQueue<T>)
        ensures
            r@ == items@,
    {
        let mut q: VecDeque<T> = VecDeque::new();
        let mut rest = items;
        let ghost all = rest@;
        let mut back: Vec<T> = Vec::new();
        // Reverse first, so that items can be moved out from the end.
        while rest.len() > 0
            invariant
                all == rest@ + back@.reverse(),
            decreases rest@.len(),
        {
            let x = rest.pop().unwrap();
            proof {
                assert(back@.push(x).reverse() =~= seq![x] + back@.reverse());
            }
            back.push(x);
            assert(all =~= rest@ + back@.reverse());
        }
        while back.len() > 0
            invariant
                all == q@ + back@.reverse(),
            decreases back@.len(),
        {
            let x = back.pop().unwrap();
            proof {
                assert(back@.push(x).reverse() =~= seq![x] + back@.reverse());
            }
            q.push_back(x);
            assert(all =~= q@ + back@.reverse());
        }
        assert(all =~= q@);
        WorkQueue { items: q }
    }

    /// Takes the front item, or returns `None` when the queue is empty.
    pub fn take_one(&mut self) -> (r: Option<T>)
        ensures
            (r, final(self)@) == take_step(old(self)@),
    {
        self.items.pop_front()
    }

    /// How many items are still queued.
    pub fn len(&self) -> (r: usize)
        ensures
            r == self@.len(),
    {
        self.items.len()
    }

    /// Whether the queue is drained.
    pub fn is_empty(&self) -> (r: bool)
        ensures
            r == (self@.len() == 0),
    {
        self.items.len() == 0
    }
}

/// A queue seeded with `M` items and taken from `n >= M` times, by any number
/// of callers whose takes happen one after another, hands out each item
/// exactly once, in queue order, in the first `M` takes, and nothing in the
/// `n - M` takes after; it is then empty.
pub proof fn lemma_drain_exactly_once<T>(q: Seq<T>, n: nat)
    requires
        n >= q.len(),
    ensures
        take_results(q, n).len() == n,
        forall|i: int| 0 <= i < q.len() ==> #[trigger] take_results(q, n)[i] == Some(q[i]),
        forall|i: int| q.len() <= i < n ==> #[trigger] take_results(q, n)[i] is None,
        remaining_after(q, n).len() == 0,
    decreases n,
{
    if n > 0 {
        let rest = take_step(q).1;
        lemma_drain_exactly_once(rest, (n - 1) as nat);
        if q.len() > 0 {
            assert forall|i: int| 0 <= i < q.len() implies #[trigger] take_results(q, n)[i] == Some(
                q[i],
            ) by {
                if i > 0 {
                    assert(take_results(q, n)[i] == take_results(rest, (n - 1) as nat)[i - 1]);
                }
            }
            assert forall|i: int| q.len() <= i < n implies #[trigger] take_results(q, n)[i] is None by {
                assert(take_results(q, n)[i] == take_results(rest, (n - 1) as nat)[i - 1]);
            }
        } else {
            assert forall|i: int| q.len() <= i < n implies #[trigger] take_results(q, n)[i] is None by {
                if i > 0 {
                    assert(take_results(q, n)[i] == take_results(rest, (n - 1) as nat)[i - 1]);
                }
            }
        }
    }
}

} // verus!
