use vstd::prelude::*;

verus! {

/// Tracks the correlation of one conversation: the thread id, an optional
/// parent thread id, the count of messages this party has sent, and the
/// last-seen counter for each peer that has sent a message.
///
/// Inbound counters are held as a vector of `(peer id, counter)` pairs with
/// pairwise-distinct keys, in first-seen order.
#[derive(Debug)]
pub struct Thread {
    pub thid: Option<String>,
    pub pthid: Option<String>,
    pub sender_order: u32,
    pub received_orders: Vec<(String, u32)>,
}

/// The mathematical image of a [`Thread`]: strings become sequences of
/// characters, the counter table becomes a sequence of key/counter pairs.
#[verifier::ext_equal]
pub struct ThreadView {
    pub thid: Option<Seq<char>>,
    pub pthid: Option<Seq<char>>,
    pub sender_order: u32,
    pub received_orders: Seq<(Seq<char>, u32)>,
}

impl View for Thread {
    type V = ThreadView;

    open spec fn view(&self) -> ThreadView {
        ThreadView {
            thid: match self.thid {
                Some(s) => Some(s@),
                None => None,
            },
            pthid: match self.pthid {
                Some(s) => Some(s@),
                None => None,
            },
            sender_order: self.sender_order,
            received_orders: self.received_orders@.map_values(|p: (String, u32)| (p.0@, p.1)),
        }
    }
}

/// Whether `did` has an entry in the counter table `s`.
pub open spec fn has_order(s: Seq<(Seq<char>, u32)>, did: Seq<char>) -> bool {
    exists|i: int| 0 <= i < s.len() && s[i].0 == did
}

/// The position of `did`'s entry in `s` (meaningful when `has_order` holds
/// and the keys of `s` are distinct).
pub open spec fn order_index(s: Seq<(Seq<char>, u32)>, did: Seq<char>) -> int {
    choose|i: int| 0 <= i < s.len() && s[i].0 == did
}

/// The counter recorded for `did` in `s`.
pub open spec fn order_of(s: Seq<(Seq<char>, u32)>, did: Seq<char>) -> u32 {
    s[order_index(s, did)].1
}

/// The keys of `s` are pairwise distinct.
pub open spec fn orders_unique(s: Seq<(Seq<char>, u32)>) -> bool {
    forall|i: int, j: int| 0 <= i < j < s.len() ==> s[i].0 != s[j].0
}

/// The successor of thread `t` after one inbound message from `did`: an
/// unseen peer is recorded with counter 0, a seen peer's counter advances
/// by exactly 1.
pub open spec fn spec_increment_receiver(t: ThreadView, did: Seq<char>) -> ThreadView {
    if has_order(t.received_orders, did) {
        ThreadView {
            received_orders: t.received_orders.update(
                order_index(t.received_orders, did),
                (did, (order_of(t.received_orders, did) + 1) as u32),
            ),
            ..t
        }
    } else {
        ThreadView { received_orders: t.received_orders.push((did, 0u32)), ..t }
    }
}

/// The thread id as a plain string value: empty until one is assigned.
pub open spec fn spec_thread_id(t: ThreadView) -> Seq<char> {
    match t.thid {
        Some(s) => s,
        None => Seq::empty(),
    }
}

/// One inbound increment keeps the counter keys distinct and raises the
/// bound on the counters by at most one.
pub proof fn lemma_increment_receiver_bound(t: ThreadView, did: Seq<char>, bound: u32)
    requires
        orders_unique(t.received_orders),
        forall|i: int| 0 <= i < t.received_orders.len() ==> (#[trigger] t.received_orders[i]).1
            <= bound,
        bound < u32::MAX,
    ensures
        orders_unique(spec_increment_receiver(t, did).received_orders),
        forall|i: int|
            0 <= i < spec_increment_receiver(t, did).received_orders.len() ==> (
            #[trigger] spec_increment_receiver(t, did).received_orders[i]).1 <= bound + 1,
{
    let s0 = t.received_orders;
    let s1 = spec_increment_receiver(t, did).received_orders;
    if has_order(s0, did) {
        let i0 = order_index(s0, did);
        assert(0 <= i0 < s0.len() && s0[i0].0 == did);
        assert forall|i: int| 0 <= i < s1.len() implies (#[trigger] s1[i]).1 <= bound + 1 by {
            if i != i0 {
                assert(s1[i] == s0[i]);
            }
        }
        assert forall|p: int, q: int| 0 <= p < q < s1.len() implies s1[p].0 != s1[q].0 by {
            assert(s1[p].0 == s0[p].0);
            assert(s1[q].0 == s0[q].0);
        }
    } else {
        assert forall|i: int| 0 <= i < s1.len() implies (#[trigger] s1[i]).1 <= bound + 1 by {
            if i < s0.len() {
                assert(s1[i] == s0[i]);
            }
        }
        assert forall|p: int, q: int| 0 <= p < q < s1.len() implies s1[p].0 != s1[q].0 by {
            if q == s1.len() - 1 {
                assert(s1[p].0 == s0[p].0);
                assert(!has_order(s0, did));
            }
        }
    }
}

/// A peer the tracker has not seen is recorded at counter 0 by its first
/// inbound message, and at counter 1 by its second.
pub proof fn lemma_first_two_increments(t: ThreadView, did: Seq<char>)
    requires
        orders_unique(t.received_orders),
        !has_order(t.received_orders, did),
    ensures
        has_order(spec_increment_receiver(t, did).received_orders, did),
        order_of(spec_increment_receiver(t, did).received_orders, did) == 0,
        order_of(
            spec_increment_receiver(spec_increment_receiver(t, did), did).received_orders,
            did,
        ) == 1,
{
    let s0 = t.received_orders;
    let t1 = spec_increment_receiver(t, did);
    let s1 = t1.received_orders;
    assert(s1 == s0.push((did, 0u32)));
    assert(s1[s0.len() as int].0 == did);
    assert(has_order(s1, did));
    assert forall|i: int| 0 <= i < s1.len() && s1[i].0 == did implies i == s0.len() as int by {
        if i < s0.len() {
            assert(s0[i].0 == did);
            assert(has_order(s0, did));
        }
    }
    let i1 = order_index(s1, did);
    assert(0 <= i1 < s1.len() && s1[i1].0 == did);
    assert(i1 == s0.len());
    assert(order_of(s1, did) == 0);
    let t2 = spec_increment_receiver(t1, did);
    let s2 = t2.received_orders;
    assert(s2 == s1.update(i1, (did, 1u32)));
    assert(s2[i1].0 == did && s2[i1].1 == 1);
    assert forall|i: int| 0 <= i < s2.len() && s2[i].0 == did implies i == i1 by {
        if i != i1 {
            assert(s2[i] == s1[i]);
            if i < s0.len() {
                assert(s0[i].0 == did);
                assert(has_order(s0, did));
            }
        }
    }
    let i2 = order_index(s2, did);
    assert(0 <= i2 < s2.len() && s2[i2].0 == did);
    assert(order_of(s2, did) == 1);
}

impl Clone for Thread {
    fn clone(&self) -> (r: Self)
        ensures
            r@ == self@,
    {
        let mut ro: Vec<(String, u32)> = Vec::new();
        let n = self.received_orders.len();
        let mut i: usize = 0;
        while i < n
            invariant
                0 <= i <= n,
                n == self.received_orders.len(),
                ro@.len() == i,
                forall|k: int| 0 <= k < i ==> ro@[k] == self.received_orders@[k],
            decreases n - i,
        {
            let p0 = self.received_orders[i].0.clone();
            let p1 = self.received_orders[i].1;
            ro.push((p0, p1));
            i = i + 1;
        }
        proof {
            assert(ro@ =~= self.received_orders@);
        }
        Thread {
            thid: self.thid.clone(),
            pthid: self.pthid.clone(),
            sender_order: self.sender_order,
            received_orders: ro,
        }
    }
}

impl Thread {
    /// Well-formed: no peer id appears twice in the counter table.
    pub open spec fn wf(self) -> bool {
        orders_unique(self@.received_orders)
    }

    /// A fresh tracker: no thread id yet, no parent, no messages either way.
    pub fn new() -> (t: Thread)
        ensures
            t@.thid is None,
            t@.pthid is None,
            t@.sender_order == 0,
            t@.received_orders == Seq::<(Seq<char>, u32)>::empty(),
            t.wf(),
    {
        Thread { thid: None, pthid: None, sender_order: 0, received_orders: Vec::new() }
    }

    /// Assigns the thread id, leaving every other field as it was.
    pub fn set_thid(self, thid: String) -> (t: Thread)
        ensures
            t@.thid == Some(thid@),
            t@.pthid == self@.pthid,
            t@.sender_order == self@.sender_order,
            t@.received_orders == self@.received_orders,
            self.wf() ==> t.wf(),
    {
        Thread { thid: Some(thid), ..self }
    }

    /// Records one more inbound message from `did`: inserts the pair
    /// `(did, 0)` when the peer is unseen, otherwise advances its counter
    /// by exactly 1.
    pub fn increment_receiver(&mut self, did: &str)
        requires
            old(self).wf(),
            has_order(old(self)@.received_orders, did@) ==> order_of(
                old(self)@.received_orders,
                did@,
            ) < u32::MAX,
        ensures
            final(self)@ == spec_increment_receiver(old(self)@, did@),
            final(self).wf(),
    {
        let key: String = did.to_owned();
        let n = self.received_orders.len();
        let mut i: usize = 0;
        while i < n
            invariant
                0 <= i <= n,
                n == self.received_orders.len(),
                *self == *old(self),
                old(self).wf(),
                key@ == did@,
                has_order(old(self)@.received_orders, did@) ==> order_of(
                    old(self)@.received_orders,
                    did@,
                ) < u32::MAX,
                forall|k: int| 0 <= k < i ==> self.received_orders@[k].0@ != did@,
            decreases n - i,
        {
            if self.received_orders[i].0 == key {
                proof {
                    let s = self@.received_orders;
                    assert(s[i as int].0 == did@);
                    assert(has_order(s, did@));
                    assert(order_index(s, did@) == i as int) by {
                        let j = order_index(s, did@);
                        assert(0 <= j < s.len() && s[j].0 == did@);
                        if j < i as int {
                            assert(s[j].0 == self.received_orders@[j].0@);
                        }
                        if (i as int) < j {
                            assert(s[i as int].0 != s[j].0);
                        }
                    }
                }
                let c = self.received_orders[i].1;
                let entry_key = self.received_orders[i].0.clone();
                self.received_orders.set(i, (entry_key, c + 1));
                proof {
                    let s0 = old(self)@.received_orders;
                    let s1 = self@.received_orders;
                    assert(s1 =~= s0.update(i as int, (did@, (order_of(s0, did@) + 1) as u32)));
                    assert(self@ =~= spec_increment_receiver(old(self)@, did@)) by {
                        assert(self@.received_orders =~= spec_increment_receiver(
                            old(self)@,
                            did@,
                        ).received_orders);
                    }
                    assert forall|p: int, q: int| 0 <= p < q < s1.len() implies s1[p].0
                        != s1[q].0 by {
                        assert(s0[p].0 != s0[q].0);
                    }
                }
                return ;
            }
            proof {
                assert(self.received_orders@[i as int].0@ != did@);
            }
            i = i + 1;
        }
        proof {
            assert(!has_order(self@.received_orders, did@)) by {
                let s = self@.received_orders;
                assert forall|k: int| 0 <= k < s.len() implies s[k].0 != did@ by {
                    assert(s[k].0 == self.received_orders@[k].0@);
                }
            }
        }
        self.received_orders.push((did.to_owned(), 0));
        proof {
            let s0 = old(self)@.received_orders;
            let s1 = self@.received_orders;
            assert(s1 =~= s0.push((did@, 0u32)));
            assert(self@ =~= spec_increment_receiver(old(self)@, did@));
            assert forall|p: int, q: int| 0 <= p < q < s1.len() implies s1[p].0 != s1[q].0 by {
                if q == s1.len() - 1 {
                    assert(s1[p].0 == s0[p].0);
                    assert(!has_order(s0, did@));
                } else {
                    assert(s0[p].0 != s0[q].0);
                }
            }
        }
    }
}

} // verus!
