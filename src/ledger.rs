use vstd::prelude::*;

use crate::model::Message;

verus! {

/// The fields that settling a message writes to the store, against its id.
pub struct SettleUpdate {
    pub id: u128,
    pub sent: bool,
    pub failed: bool,
    pub time_took: Option<i32>,
}

pub open spec fn update_of(m: Message) -> SettleUpdate {
    SettleUpdate { id: m.id, sent: m.sent, failed: m.failed, time_took: m.time_took }
}

/// The ids of the messages.
pub open spec fn ids_in(s: Seq<Message>) -> Set<u128> {
    Set::new(|x: u128| exists|i: int| 0 <= i < s.len() && #[trigger] s[i].id == x)
}

/// The settled ids after the writer receives `id`: it is added when it is
/// expected and not settled yet, and nothing changes otherwise.
pub open spec fn accept_step(expected: Set<u128>, settled: Set<u128>, id: u128) -> Set<u128> {
    if expected.contains(id) && !settled.contains(id) {
        settled.insert(id)
    } else {
        settled
    }
}

/// The settled ids after the writer receives `ids` in order.
pub open spec fn settled_after(expected: Set<u128>, settled: Set<u128>, ids: Seq<u128>) -> Set<u128>
    decreases ids.len(),
{
    if ids.len() == 0 {
        settled
    } else {
        settled_after(expected, accept_step(expected, settled, ids[0]), ids.drop_first())
    }
}

/// How many of `ids`, received in order, the writer persists.
pub open spec fn accepted_count(expected: Set<u128>, settled: Set<u128>, ids: Seq<u128>) -> nat
    decreases ids.len(),
{
    if ids.len() == 0 {
        0
    } else {
        let persisted: nat = if expected.contains(ids[0]) && !settled.contains(ids[0]) {
            1
        } else {
            0
        };
        persisted + accepted_count(expected, accept_step(expected, settled, ids[0]), ids.drop_first())
    }
}

/// Where `x` stands in `ids`, if it does.
fn position(ids: &Vec<u128>, x: u128) -> (r: Option<usize>)
    ensures
        match r {
            Some(i) => i < ids@.len() && ids@[i as int] == x,
            None => !ids@.contains(x),
        },
{
    let mut i: usize = 0;
    while i < ids.len()
        invariant
            i <= ids@.len(),
            forall|j: int| 0 <= j < i ==> ids@[j] != x,
        decreases ids@.len() - i,
    {
        if ids[i] == x {
            return Some(i);
        }
        i = i + 1;
    }
    None
}

/// The writer's record of a dispatch: which messages it expects, which of
/// them it has settled, and how many results it has received. It persists a
/// result only for an expected message that is not settled yet, so no
/// message is written twice.
pub struct SettleLedger {
    ids: Vec<u128>,
    settled: Vec<bool>,
    received: usize,
}

impl SettleLedger {
    pub closed spec fn wf(&self) -> bool {
        &&& self.ids@.len() == self.settled@.len()
        &&& self.ids@.no_duplicates()
    }

    /// The ids of the messages that the dispatch is to settle.
    pub closed spec fn expected(&self) -> Set<u128> {
        Set::new(|x: u128| self.ids@.contains(x))
    }

    /// The ids settled so far.
    pub closed spec fn settled_ids(&self) -> Set<u128> {
        Set::new(
            |x: u128|
                exists|i: int| 0 <= i < self.ids@.len() && self.ids@[i] == x && #[trigger] self.settled@[i],
        )
    }

    /// How many results have been received.
    pub closed spec fn spec_received(&self) -> nat {
        self.received as nat
    }

    /// A ledger that expects the given messages and has settled none.
    pub fn new(items: &Vec<Message>) -> (r: SettleLedger)
        ensures
            r.wf(),
            r.expected() == ids_in(items@),
            r.settled_ids() == Set::<u128>::empty(),
            r.spec_received() == 0,
    {
        let mut ids: Vec<u128> = Vec::new();
        let mut settled: Vec<bool> = Vec::new();
        let mut i: usize = 0;
        while i < items.len()
            invariant
                i <= items@.len(),
                ids@.len() == settled@.len(),
                ids@.no_duplicates(),
                forall|x: u128|
                    ids@.contains(x) <==> exists|j: int| 0 <= j < i && #[trigger] items@[j].id == x,
                forall|j: int| 0 <= j < settled@.len() ==> !(#[trigger] settled@[j]),
            decreases items@.len() - i,
        {
            let id = items[i].id;
            let ghost old_ids = ids@;
            if position(&ids, id).is_none() {
                ids.push(id);
                settled.push(false);
                assert(ids@ == old_ids.push(id));
                assert(ids@[ids@.len() - 1] == id);
            } else {
                assert(old_ids.contains(id));
            }
            assert(ids@.contains(id));
            assert forall|x: u128|
                ids@.contains(x) <==> exists|j: int| 0 <= j < i + 1 && #[trigger] items@[j].id == x by {
                if x != id {
                    if ids@.contains(x) {
                        let k = choose|k: int| 0 <= k < ids@.len() && ids@[k] == x;
                        assert(k < old_ids.len());
                        assert(old_ids.contains(x));
                    }
                    if old_ids.contains(x) {
                        let k = choose|k: int| 0 <= k < old_ids.len() && old_ids[k] == x;
                        assert(ids@[k] == x);
                    }
                } else {
                    assert(items@[i as int].id == x);
                }
            }
            i = i + 1;
        }
        let r = SettleLedger { ids, settled, received: 0 };
        assert(r.expected() =~= ids_in(items@)) by {
            assert forall|x: u128| r.expected().contains(x) == ids_in(items@).contains(x) by {}
        }
        assert(r.settled_ids() =~= Set::<u128>::empty());
        r
    }

    /// Receives a settled message. Returns the fields to persist when the
    /// message is expected and not settled yet, and marks it settled; returns
    /// `None` for an unknown or repeated message.
    pub fn accept(&mut self, m: &Message) -> (r: Option<SettleUpdate>)
        requires
            old(self).wf(),
            old(self).spec_received() < usize::MAX,
        ensures
            final(self).wf(),
            final(self).expected() == old(self).expected(),
            final(self).settled_ids() == accept_step(
                old(self).expected(),
                old(self).settled_ids(),
                m.id,
            ),
            final(self).spec_received() == old(self).spec_received() + 1,
            r is Some <==> old(self).expected().contains(m.id) && !old(self).settled_ids().contains(
                m.id,
            ),
            r matches Some(u) ==> u == update_of(*m),
    {
        self.received = self.received + 1;
        match position(&self.ids, m.id) {
            None => {
                assert(!self.expected().contains(m.id));
                None
            },
            Some(i) => {
                let ghost before = *self;
                if self.settled[i] {
                    assert(self.settled_ids().contains(m.id));
                    return None;
                }
                assert(!self.settled_ids().contains(m.id)) by {
                    if self.settled_ids().contains(m.id) {
                        let j = choose|j: int|
                            0 <= j < self.ids@.len() && self.ids@[j] == m.id && #[trigger] self.settled@[j];
                        assert(j != i);
                    }
                }
                assert(self.expected().contains(m.id));
                self.settled.set(i, true);
                assert(self.settled_ids() =~= before.settled_ids().insert(m.id)) by {
                    assert forall|x: u128| #[trigger] self.settled_ids().contains(x) implies before.settled_ids().insert(m.id).contains(x) by {
                        let j = choose|j: int|
                            0 <= j < self.ids@.len() && self.ids@[j] == x && #[trigger] self.settled@[j];
                        if j != i {
                            assert(before.settled@[j]);
                        }
                    }
                    assert forall|x: u128| #[trigger] before.settled_ids().insert(m.id).contains(x) implies self.settled_ids().contains(x) by {
                        if x == m.id {
                            assert(self.settled@[i as int]);
                        } else {
                            let j = choose|j: int|
                                0 <= j < before.ids@.len() && before.ids@[j] == x && #[trigger] before.settled@[j];
                            assert(self.settled@[j]);
                        }
                    }
                }
                Some(SettleUpdate { id: m.id, sent: m.sent, failed: m.failed, time_took: m.time_took })
            },
        }
    }

    /// How many results have been received.
    pub fn received(&self) -> (r: usize)
        ensures
            r == self.spec_received(),
    {
        self.received
    }

    /// Whether every expected message has been settled.
    pub fn all_settled(&self) -> (r: bool)
        requires
            self.wf(),
        ensures
            r == (self.settled_ids() == self.expected()),
    {
        let n = self.settled.len();
        let mut i: usize = 0;
        while i < n
            invariant
                n == self.settled@.len(),
                self.wf(),
                i <= n,
                forall|j: int| 0 <= j < i ==> #[trigger] self.settled@[j],
            decreases n - i,
        {
            if !self.settled[i] {
                proof {
                    let x = self.ids@[i as int];
                    assert(self.expected().contains(x));
                    if self.settled_ids().contains(x) {
                        let j = choose|j: int|
                            0 <= j < self.ids@.len() && self.ids@[j] == x && #[trigger] self.settled@[j];
                        assert(j != i);
                    }
                }
                return false;
            }
            i = i + 1;
        }
        assert(self.settled_ids() =~= self.expected()) by {
            assert forall|x: u128| #[trigger] self.expected().contains(x) implies self.settled_ids().contains(x) by {
                let j = choose|j: int| 0 <= j < self.ids@.len() && self.ids@[j] == x;
                assert(self.settled@[j]);
            }
        }
        true
    }
}

/// The writer's bookkeeping over a stream of received ids, from any starting
/// point: the settled ids grow by exactly the expected ones received, and one
/// result is persisted for each id that this adds.
pub proof fn lemma_accept_stream(expected: Set<u128>, settled: Set<u128>, ids: Seq<u128>)
    requires
        expected.finite(),
        settled.subset_of(expected),
    ensures
        settled_after(expected, settled, ids) == settled + expected.intersect(ids.to_set()),
        accepted_count(expected, settled, ids) + settled.len() == (settled + expected.intersect(
            ids.to_set(),
        )).len(),
    decreases ids.len(),
{
    if ids.len() == 0 {
        assert(ids.to_set() =~= Set::<u128>::empty());
        assert(settled + expected.intersect(ids.to_set()) =~= settled);
    } else {
        let x = ids[0];
        let rest = ids.drop_first();
        let next = accept_step(expected, settled, x);
        vstd::set_lib::lemma_len_subset(settled, expected);
        assert(next.subset_of(expected));
        lemma_accept_stream(expected, next, rest);
        assert(ids.to_set() =~= rest.to_set().insert(x)) by {
            assert forall|y: u128| #[trigger] ids.to_set().contains(y) implies rest.to_set().insert(
                x,
            ).contains(y) by {
                let k = choose|k: int| 0 <= k < ids.len() && ids[k] == y;
                if k > 0 {
                    assert(rest[k - 1] == y);
                }
            }
            assert forall|y: u128| #[trigger] rest.to_set().insert(x).contains(y) implies ids.to_set().contains(
                y,
            ) by {
                if y != x {
                    let k = choose|k: int| 0 <= k < rest.len() && rest[k] == y;
                    assert(ids[k + 1] == y);
                } else {
                    assert(ids[0] == y);
                }
            }
        }
        assert(next + expected.intersect(rest.to_set()) =~= settled + expected.intersect(
            ids.to_set(),
        ));
        if expected.contains(x) && !settled.contains(x) {
            assert(next.len() == settled.len() + 1);
        }
    }
}

/// A dispatch whose results reach the writer, in any order and with any
/// repeats, such that every message of the dispatch is among them, ends with
/// every message settled, and the writer persists exactly one result per
/// message: as many as the dispatch has distinct messages.
pub proof fn lemma_dispatch_settles_each_once(items: Seq<Message>, received: Seq<u128>)
    requires
        forall|x: u128| ids_in(items).contains(x) ==> received.contains(x),
    ensures
        settled_after(ids_in(items), Set::empty(), received) == ids_in(items),
        accepted_count(ids_in(items), Set::empty(), received) == ids_in(items).len(),
{
    let expected = ids_in(items);
    let as_ids = items.map_values(|m: Message| m.id);
    assert(expected =~= as_ids.to_set()) by {
        assert forall|x: u128| #[trigger] expected.contains(x) implies as_ids.to_set().contains(x) by {
            let k = choose|k: int| 0 <= k < items.len() && #[trigger] items[k].id == x;
            assert(as_ids[k] == x);
        }
        assert forall|x: u128| #[trigger] as_ids.to_set().contains(x) implies expected.contains(x) by {
            let k = choose|k: int| 0 <= k < as_ids.len() && as_ids[k] == x;
            assert(items[k].id == x);
        }
    }
    vstd::seq_lib::seq_to_set_is_finite(as_ids);
    lemma_accept_stream(expected, Set::empty(), received);
    assert(Set::<u128>::empty() + expected.intersect(received.to_set()) =~= expected);
}

} // verus!
