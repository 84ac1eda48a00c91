//! The endpoint balancer: a discovery-fed endpoint table and cost-based
//! picks.
//!
//! The discovery stream delivers add, remove, reset and does-not-exist
//! updates for a concrete destination.  The balancer keeps the table,
//! tracks a moving average of each endpoint's latency as an integer cost,
//! and picks an endpoint of minimal cost.  A reset replaces the table
//! atomically, so picks after a reset come from the reset set only.

use crate::addr::InetAddr;
use crate::errors::ErrorKind;
use vstd::prelude::*;

verus! {

/// One update of an endpoint stream.
#[derive(Clone, Debug, PartialEq, Eq)]
pub enum Update<E> {
    Add(Vec<(InetAddr, E)>),
    Remove(Vec<InetAddr>),
    Reset(Vec<(InetAddr, E)>),
    DoesNotExist,
}

/// The default cost a fresh endpoint starts from, in milliseconds.
pub const EWMA_DEFAULT_RTT_MS: u64 = 30;

/// The cost cap; samples above it are clamped so the average stays exact.
pub const EWMA_MAX_MS: u64 = 1000000000;

/// The decay of the moving average: nine parts old, one part new.
pub const EWMA_DECAY_NUM: u64 = 9;

/// The denominator of the decay fraction.
pub const EWMA_DECAY_DEN: u64 = 10;

/// One tracked endpoint: its metadata and its load cost.
#[derive(Clone, Debug, PartialEq, Eq)]
pub struct EpState<E> {
    pub meta: E,
    pub cost: u64,
}

/// The first index holding address `a` at or after `i`, or -1.
pub open spec fn spec_ep_idx_from<E>(s: Seq<(InetAddr, EpState<E>)>, a: InetAddr, i: int) -> int
    decreases s.len() - i,
{
    if i < 0 || i >= s.len() {
        -1
    } else if s[i].0 == a {
        i
    } else {
        spec_ep_idx_from(s, a, i + 1)
    }
}

/// The first index holding address `a`, or -1.
pub open spec fn spec_ep_idx<E>(s: Seq<(InetAddr, EpState<E>)>, a: InetAddr) -> int {
    spec_ep_idx_from(s, a, 0)
}

/// Whether the table holds address `a`.
pub open spec fn spec_ep_contains<E>(s: Seq<(InetAddr, EpState<E>)>, a: InetAddr) -> bool {
    spec_ep_idx(s, a) >= 0
}

/// What a found index means, and what -1 means.
pub proof fn lemma_ep_idx_from<E>(s: Seq<(InetAddr, EpState<E>)>, a: InetAddr, from: int)
    requires
        from >= 0,
    ensures
        ({
            let i = spec_ep_idx_from(s, a, from);
            if i == -1 {
                forall|j: int| from <= j < s.len() ==> s[j].0 != a
            } else {
                from <= i < s.len() && s[i].0 == a
            }
        }),
    decreases s.len() - from,
{
    if from >= s.len() {
    } else if s[from].0 == a {
    } else {
        lemma_ep_idx_from(s, a, from + 1);
    }
}

/// An address is in the table exactly when some slot carries it.
pub proof fn lemma_ep_contains_iff<E>(s: Seq<(InetAddr, EpState<E>)>, b: InetAddr)
    ensures
        spec_ep_contains(s, b) == exists|i: int| 0 <= i < s.len() && s[i].0 == b,
{
    lemma_ep_idx_from(s, b, 0);
    if spec_ep_idx(s, b) >= 0 {
        assert(s[spec_ep_idx(s, b)].0 == b);
    }
}

/// The table without the slots carrying address `a`; order is kept.
pub open spec fn spec_drop_addr<E>(s: Seq<(InetAddr, EpState<E>)>, a: InetAddr) -> Seq<
    (InetAddr, EpState<E>),
>
    decreases s.len(),
{
    if s.len() == 0 {
        Seq::empty()
    } else {
        let r = spec_drop_addr(s.drop_last(), a);
        if s.last().0 == a {
            r
        } else {
            r.push(s.last())
        }
    }
}

/// No slot of the dropped table carries the dropped address.
pub proof fn lemma_drop_addr_no_a<E>(s: Seq<(InetAddr, EpState<E>)>, a: InetAddr)
    ensures
        forall|i: int| 0 <= i < spec_drop_addr(s, a).len() ==> (#[trigger] spec_drop_addr(s, a)[i]).0
            != a,
    decreases s.len(),
{
    if s.len() == 0 {
    } else {
        lemma_drop_addr_no_a(s.drop_last(), a);
        let r = spec_drop_addr(s.drop_last(), a);
        if s.last().0 != a {
            assert(forall|i: int|
                0 <= i < r.len() ==> r.push(s.last())[i] == (#[trigger] r[i]));
            assert(r.push(s.last())[r.len() as int] == s.last());
        }
    }
}

/// An address in the dropped table was in the original one.
pub proof fn lemma_drop_addr_member<E>(s: Seq<(InetAddr, EpState<E>)>, a: InetAddr, b: InetAddr)
    requires
        spec_ep_contains(spec_drop_addr(s, a), b),
    ensures
        spec_ep_contains(s, b),
    decreases s.len(),
{
    lemma_ep_contains_iff(spec_drop_addr(s, a), b);
    lemma_ep_contains_iff(s, b);
    if s.len() == 0 {
    } else {
        let r = spec_drop_addr(s.drop_last(), a);
        let i = choose|i: int| 0 <= i < spec_drop_addr(s, a).len() && spec_drop_addr(s, a)[i].0
            == b;
        if s.last().0 != a && i == r.len() {
            assert(s[s.len() - 1].0 == b);
        } else {
            assert(r[i].0 == b);
            lemma_ep_contains_iff(r, b);
            lemma_drop_addr_member(s.drop_last(), a, b);
            lemma_ep_contains_iff(s.drop_last(), b);
            let t = choose|t: int| 0 <= t < s.drop_last().len() && s.drop_last()[t].0 == b;
            assert(s[t].0 == b);
        }
    }
}

/// Dropping an address keeps every cost within the cap.
pub proof fn lemma_drop_addr_bounded<E>(s: Seq<(InetAddr, EpState<E>)>, a: InetAddr)
    requires
        spec_costs_bounded(s),
    ensures
        spec_costs_bounded(spec_drop_addr(s, a)),
    decreases s.len(),
{
    if s.len() == 0 {
    } else {
        assert(spec_costs_bounded(s.drop_last())) by {
            assert(forall|i: int|
                0 <= i < s.len() - 1 ==> (#[trigger] s.drop_last()[i]) == s[i]);
        }
        lemma_drop_addr_bounded(s.drop_last(), a);
        let r = spec_drop_addr(s.drop_last(), a);
        if s.last().0 != a {
            assert(forall|i: int|
                0 <= i < r.len() ==> (#[trigger] r.push(s.last())[i]) == r[i]);
            assert(r.push(s.last())[r.len() as int] == s[s.len() - 1]);
        }
    }
}

/// Whether the balancer still serves, and its endpoint table.
#[derive(Clone, Debug, PartialEq, Eq)]
pub struct Balancer<E> {
    pub eps: Vec<(InetAddr, EpState<E>)>,
    pub exists: bool,
}

/// The table after one upsert: a known address keeps its cost and takes
/// the new metadata; a new address joins at the end with the default
/// cost.
pub open spec fn spec_upsert<E>(s: Seq<(InetAddr, EpState<E>)>, a: InetAddr, m: E) -> Seq<
    (InetAddr, EpState<E>),
> {
    let i = spec_ep_idx(s, a);
    if i >= 0 {
        s.update(i, (a, EpState { meta: m, cost: s[i].1.cost }))
    } else {
        s.push((a, EpState { meta: m, cost: EWMA_DEFAULT_RTT_MS }))
    }
}

/// The table after an add: each listed endpoint upserted in order.
pub open spec fn spec_apply_add<E>(s: Seq<(InetAddr, EpState<E>)>, v: Seq<(InetAddr, E)>) -> Seq<
    (InetAddr, EpState<E>),
>
    decreases v.len(),
{
    if v.len() == 0 {
        s
    } else {
        spec_apply_add(spec_upsert(s, v[0].0, v[0].1), v.skip(1))
    }
}

/// Every cost in the table is within the cap.
pub open spec fn spec_costs_bounded<E>(s: Seq<(InetAddr, EpState<E>)>) -> bool {
    forall|i: int| 0 <= i < s.len() ==> #[trigger] s[i].1.cost <= EWMA_MAX_MS
}

impl<E> Balancer<E> {
    /// A well-formed balancer: bounded costs.
    pub open spec fn wf(&self) -> bool {
        spec_costs_bounded(self.eps@)
    }

    /// An empty, live balancer.
    pub fn new() -> (b: Balancer<E>)
        ensures
            b.wf(),
            b.eps@.len() == 0,
            b.exists,
    {
        Balancer { eps: Vec::new(), exists: true }
    }

    /// The index of address `a` in the table.
    fn find(&self, a: InetAddr) -> (r: Option<usize>)
        ensures
            match r {
                Some(i) => spec_ep_idx(self.eps@, a) == i && i < self.eps@.len(),
                None => spec_ep_idx(self.eps@, a) == -1,
            },
    {
        let mut i: usize = 0;
        while i < self.eps.len()
            invariant
                i <= self.eps@.len(),
                spec_ep_idx_from(self.eps@, a, 0) == spec_ep_idx_from(self.eps@, a, i as int),
            decreases self.eps@.len() - i,
        {
            let here = self.eps[i].0;
            if here.ip == a.ip && here.port == a.port {
                proof {
                    assert(self.eps@[i as int].0 == a);
                }
                return Some(i);
            }
            proof {
                assert(self.eps@[i as int].0 != a);
            }
            i = i + 1;
        }
        None
    }

    /// Applies one discovery update.
    /// - `Add` upserts each listed endpoint in order: a known address
    ///   keeps its cost and takes the new metadata; a new address joins
    ///   at the default cost.
    /// - `Remove` drops the listed addresses.
    /// - `Reset` replaces the table with exactly the listed endpoints,
    ///   each at the default cost.
    /// - `DoesNotExist` moves the balancer to its terminal state: the
    ///   table empties and new calls fail with the not-found error.
    pub fn apply(&mut self, update: Update<E>)
        requires
            old(self).wf(),
        ensures
            final(self).wf(),
            match update {
                Update::Reset(v) => {
                    &&& final(self).exists == old(self).exists
                    &&& final(self).eps@.len() == v@.len()
                    &&& forall|i: int|
                        0 <= i < v@.len() ==> final(self).eps@[i].0 == v@[i].0 && final(self).eps@[i].1.meta == v@[i].1 && final(self).eps@[i].1.cost
                            == EWMA_DEFAULT_RTT_MS
                },
                Update::Remove(addrs) => {
                    &&& final(self).exists == old(self).exists
                    &&& forall|a: InetAddr|
                        spec_ep_contains(final(self).eps@, a) ==> spec_ep_contains(
                            old(self).eps@,
                            a,
                        )
                    &&& forall|j: int|
                        0 <= j < addrs@.len() ==> !spec_ep_contains(
                            final(self).eps@,
                            #[trigger] addrs@[j],
                        )
                },
                Update::Add(v) => {
                    &&& final(self).exists == old(self).exists
                    &&& final(self).eps@ == spec_apply_add(old(self).eps@, v@)
                    &&& forall|a: InetAddr|
                        spec_ep_contains(final(self).eps@, a) == (spec_ep_contains(
                            old(self).eps@,
                            a,
                        ) || exists|j: int| 0 <= j < v@.len() && v@[j].0 == a)
                },
                Update::DoesNotExist => {
                    &&& !final(self).exists
                    &&& final(self).eps@.len() == 0
                },
            },
    {
        match update {
            Update::Reset(v) => {
                let fresh = build_table(v);
                self.eps = fresh;
            },
            Update::Remove(addrs) => {
                let mut k: usize = 0;
                while k < addrs.len()
                    invariant
                        k <= addrs@.len(),
                        spec_costs_bounded(self.eps@),
                        self.exists == old(self).exists,
                        forall|a: InetAddr|
                            spec_ep_contains(self.eps@, a) ==> spec_ep_contains(old(self).eps@, a),
                        forall|j: int|
                            0 <= j < k ==> !spec_ep_contains(self.eps@, #[trigger] addrs@[j]),
                    decreases addrs@.len() - k,
                {
                    let ghost before = self.eps@;
                    self.remove_addr(addrs[k]);
                    k = k + 1;
                    proof {
                        lemma_drop_addr_no_a(before, addrs@[k - 1]);
                        assert forall|j: int|
                            0 <= j < k implies !spec_ep_contains(
                            self.eps@,
                            #[trigger] addrs@[j],
                        ) by {
                            lemma_ep_contains_iff(self.eps@, addrs@[j]);
                            if j < k - 1 {
                                if spec_ep_contains(self.eps@, addrs@[j]) {
                                    lemma_drop_addr_member(before, addrs@[k - 1], addrs@[j]);
                                }
                            }
                        }
                        assert forall|a: InetAddr|
                            spec_ep_contains(self.eps@, a) implies spec_ep_contains(
                            old(self).eps@,
                            a,
                        ) by {
                            lemma_drop_addr_member(before, addrs@[k - 1], a);
                        }
                    }
                }
            },
            Update::Add(v) => {
                let ghost v0 = v@;
                let mut rest = v;
                let ghost k: int = 0;
                proof {
                    assert(v0.skip(0) =~= v0);
                }
                while rest.len() > 0
                    invariant
                        0 <= k <= v0.len(),
                        rest@.len() == v0.len() - k,
                        forall|i: int| 0 <= i < rest@.len() ==> rest@[i] == v0[k + i],
                        spec_costs_bounded(self.eps@),
                        self.exists == old(self).exists,
                        spec_apply_add(old(self).eps@, v0) == spec_apply_add(
                            self.eps@,
                            v0.skip(k),
                        ),
                        forall|a: InetAddr|
                            spec_ep_contains(self.eps@, a) == (spec_ep_contains(old(self).eps@, a)
                                || exists|j: int| 0 <= j < k && v0[j].0 == a),
                    decreases rest@.len(),
                {
                    let (a, m) = rest.remove(0);
                    proof {
                        assert((a, m) == v0[k]);
                    }
                    let ghost mid = self.eps@;
                    self.upsert(a, m);
                    proof {
                        k = k + 1;
                        assert(v0.skip(k - 1)[0] == v0[k - 1]);
                        assert(v0.skip(k - 1).skip(1) =~= v0.skip(k));
                        assert(spec_apply_add(mid, v0.skip(k - 1)) == spec_apply_add(
                            self.eps@,
                            v0.skip(k),
                        ));
                        assert forall|b: InetAddr|
                            spec_ep_contains(self.eps@, b) == (spec_ep_contains(
                                old(self).eps@,
                                b,
                            ) || exists|j: int| 0 <= j < k && v0[j].0 == b) by {
                            if spec_ep_contains(self.eps@, b) {
                                if !spec_ep_contains(old(self).eps@, b) {
                                    if spec_ep_contains(mid, b) {
                                        let j = choose|j: int|
                                            0 <= j < k - 1 && v0[j].0 == b;
                                        assert(0 <= j < k && v0[j].0 == b);
                                    } else {
                                        assert(v0[k - 1].0 == b);
                                    }
                                }
                            } else {
                                if exists|j: int| 0 <= j < k && v0[j].0 == b {
                                    let j = choose|j: int| 0 <= j < k && v0[j].0 == b;
                                    if j < k - 1 {
                                        assert(spec_ep_contains(mid, b));
                                    }
                                    assert(spec_ep_contains(self.eps@, b));
                                }
                            }
                        }
                    }
                }
                proof {
                    assert(v0.skip(k) =~= Seq::<(InetAddr, E)>::empty());
                    assert(spec_apply_add(self.eps@, v0.skip(k)) == self.eps@);
                }
            },
            Update::DoesNotExist => {
                self.exists = false;
                self.eps = Vec::new();
            },
        }
    }

    /// Removes one address from the table.
    fn remove_addr(&mut self, a: InetAddr)
        requires
            old(self).wf(),
        ensures
            final(self).wf(),
            final(self).exists == old(self).exists,
            final(self).eps@ == spec_drop_addr(old(self).eps@, a),
    {
        let ghost s0 = self.eps@;
        let mut i: usize = 0;
        let ghost j: int = 0;
        while i < self.eps.len()
            invariant
                0 <= i as int <= self.eps@.len(),
                0 <= j <= s0.len(),
                self.exists == old(self).exists,
                self.eps@ == spec_drop_addr(s0.take(j), a) + s0.skip(j),
                i as int == spec_drop_addr(s0.take(j), a).len(),
            decreases s0.len() - j,
        {
            proof {
                assert(self.eps@[i as int] == s0[j]);
                assert(s0.take(j + 1).drop_last() =~= s0.take(j));
                assert(s0.take(j + 1).last() == s0[j]);
            }
            let here = self.eps[i].0;
            if here.ip == a.ip && here.port == a.port {
                let _gone = self.eps.remove(i);
                proof {
                    assert(s0[j].0 == a);
                    j = j + 1;
                    assert(self.eps@ =~= spec_drop_addr(s0.take(j), a) + s0.skip(j));
                }
            } else {
                proof {
                    assert(s0[j].0 != a);
                }
                i = i + 1;
                proof {
                    j = j + 1;
                    assert(self.eps@ =~= spec_drop_addr(s0.take(j), a) + s0.skip(j));
                }
            }
        }
        proof {
            assert(s0.take(j) =~= s0);
            assert(self.eps@ =~= spec_drop_addr(s0, a));
            lemma_drop_addr_bounded(s0, a);
        }
    }

    /// Inserts or refreshes one endpoint.
    fn upsert(&mut self, a: InetAddr, m: E)
        requires
            old(self).wf(),
        ensures
            final(self).wf(),
            final(self).exists == old(self).exists,
            final(self).eps@ == spec_upsert(old(self).eps@, a, m),
            forall|b: InetAddr|
                #[trigger] spec_ep_contains(final(self).eps@, b) == (spec_ep_contains(
                    old(self).eps@,
                    b,
                ) || b == a),
    {
        let ghost s0 = self.eps@;
        match self.find(a) {
            Some(i) => {
                let slot = self.eps.remove(i);
                let e = EpState { meta: m, cost: slot.1.cost };
                self.eps.insert(i, (a, e));
                proof {
                    lemma_ep_idx_from(s0, a, 0);
                    assert(s0[i as int].0 == a);
                    assert(self.eps@ =~= s0.update(i as int, (a, e)));
                    assert forall|b: InetAddr|
                        #[trigger] spec_ep_contains(self.eps@, b) == (spec_ep_contains(s0, b) || b
                        == a) by {
                        lemma_ep_idx_update(s0, i as int, e, b, 0);
                        lemma_ep_idx_from(s0, b, 0);
                        lemma_ep_idx_from(self.eps@, b, 0);
                        if b == a {
                            if spec_ep_idx(self.eps@, b) == -1 {
                                assert(self.eps@[i as int].0 != b);
                            }
                        }
                    }
                    assert(spec_costs_bounded(self.eps@)) by {
                        assert(forall|t: int|
                            0 <= t < self.eps@.len() && t != i ==> self.eps@[t] == s0[t]);
                        assert(self.eps@[i as int].1.cost == s0[i as int].1.cost);
                    }
                }
            },
            None => {
                let e = EpState { meta: m, cost: EWMA_DEFAULT_RTT_MS };
                self.eps.push((a, e));
                proof {
                    lemma_ep_idx_from(s0, a, 0);
                    assert forall|b: InetAddr|
                        #[trigger] spec_ep_contains(self.eps@, b) == (spec_ep_contains(s0, b) || b
                        == a) by {
                        lemma_ep_idx_push(s0, a, e, b, 0);
                        lemma_ep_idx_from(self.eps@, b, 0);
                        lemma_ep_idx_from(s0, b, 0);
                    }
                    assert(spec_costs_bounded(self.eps@)) by {
                        assert(forall|t: int| 0 <= t < s0.len() ==> self.eps@[t] == s0[t]);
                        assert(self.eps@[s0.len() as int].1.cost == EWMA_DEFAULT_RTT_MS);
                    }
                }
            },
        }
    }

    /// Folds one latency sample into an endpoint's moving average:
    /// nine parts the old cost, one part the clamped sample.
    pub fn update_rtt(&mut self, a: InetAddr, sample_ms: u64)
        requires
            old(self).wf(),
        ensures
            final(self).wf(),
            final(self).exists == old(self).exists,
            final(self).eps@.len() == old(self).eps@.len(),
            forall|i: int|
                0 <= i < final(self).eps@.len() ==> final(self).eps@[i].0 == old(self).eps@[i].0
                    && final(self).eps@[i].1.meta == old(self).eps@[i].1.meta,
            ({
                let i = spec_ep_idx(old(self).eps@, a);
                let clamped: u64 = if sample_ms > EWMA_MAX_MS {
                    EWMA_MAX_MS
                } else {
                    sample_ms
                };
                forall|t: int|
                    0 <= t < final(self).eps@.len() ==> final(self).eps@[t].1.cost == (if t == i {
                        ((old(self).eps@[t].1.cost * EWMA_DECAY_NUM + clamped * (EWMA_DECAY_DEN
                            - EWMA_DECAY_NUM)) / (EWMA_DECAY_DEN as int)) as u64
                    } else {
                        old(self).eps@[t].1.cost
                    })
            }),
    {
        let ghost s0 = self.eps@;
        let clamped: u64 = if sample_ms > EWMA_MAX_MS {
            EWMA_MAX_MS
        } else {
            sample_ms
        };
        match self.find(a) {
            Some(i) => {
                let slot = self.eps.remove(i);
                proof {
                    assert(s0[i as int].1.cost <= EWMA_MAX_MS);
                    assert(s0[i as int].1.cost * EWMA_DECAY_NUM + clamped * (EWMA_DECAY_DEN
                        - EWMA_DECAY_NUM) <= EWMA_MAX_MS * EWMA_DECAY_DEN) by (nonlinear_arith)
                        requires
                            s0[i as int].1.cost <= EWMA_MAX_MS,
                            clamped <= EWMA_MAX_MS,
                    ;
                }
                let cost = (slot.1.cost * EWMA_DECAY_NUM + clamped * (EWMA_DECAY_DEN
                    - EWMA_DECAY_NUM)) / EWMA_DECAY_DEN;
                let e = EpState { meta: slot.1.meta, cost };
                self.eps.insert(i, (a, e));
                proof {
                    lemma_ep_idx_from(s0, a, 0);
                    assert(s0[i as int].0 == a);
                    assert(self.eps@ =~= s0.update(i as int, (a, e)));
                    assert(cost <= EWMA_MAX_MS) by (nonlinear_arith)
                        requires
                            s0[i as int].1.cost <= EWMA_MAX_MS,
                            clamped <= EWMA_MAX_MS,
                            cost == (s0[i as int].1.cost * EWMA_DECAY_NUM + clamped
                                * (EWMA_DECAY_DEN - EWMA_DECAY_NUM)) / (EWMA_DECAY_DEN as int),
                    ;
                    assert(forall|t: int|
                        0 <= t < self.eps@.len() && t != i ==> self.eps@[t] == s0[t]);
                }
            },
            None => {
                proof {
                    lemma_ep_idx_from(s0, a, 0);
                }
            },
        }
    }

    /// Picks an endpoint: one of minimal cost among the table, or the
    /// not-found error once the stream said the target does not exist,
    /// or nothing while the table is empty.
    pub fn pick(&self) -> (r: Result<Option<InetAddr>, ErrorKind>)
        ensures
            match r {
                Err(kind) => kind == ErrorKind::NotFound && !self.exists,
                Ok(found) => self.exists && match found {
                    None => self.eps@.len() == 0,
                    Some(a) => {
                        &&& spec_ep_contains(self.eps@, a)
                        &&& exists|i: int|
                            0 <= i < self.eps@.len() && self.eps@[i].0 == a && (forall|j: int|
                                0 <= j < self.eps@.len() ==> #[trigger] self.eps@[j].1.cost
                                    >= self.eps@[i].1.cost)
                    },
                },
            },
    {
        if !self.exists {
            return Err(ErrorKind::NotFound);
        }
        if self.eps.len() == 0 {
            return Ok(None);
        }
        let mut best: usize = 0;
        let mut i: usize = 1;
        while i < self.eps.len()
            invariant
                best < i <= self.eps@.len(),
                forall|j: int| 0 <= j < i ==> #[trigger] self.eps@[j].1.cost >= self.eps@[
                    best as int].1.cost,
            decreases self.eps@.len() - i,
        {
            if self.eps[i].1.cost < self.eps[best].1.cost {
                best = i;
            }
            i = i + 1;
        }
        let a = self.eps[best].0;
        proof {
            lemma_ep_idx_from(self.eps@, a, 0);
            if spec_ep_idx(self.eps@, a) == -1 {
                assert(self.eps@[best as int].0 != a);
            }
        }
        Ok(Some(a))
    }
}

/// After a reset to `v`, every endpoint the balancer can pick carries an
/// address listed in `v`: picks after a reset are from the reset set
/// only.
pub proof fn lemma_reset_confines_picks<E>(b: Balancer<E>, v: Seq<(InetAddr, E)>, i: int)
    requires
        b.eps@.len() == v.len(),
        forall|t: int| 0 <= t < v.len() ==> b.eps@[t].0 == v[t].0,
        0 <= i < b.eps@.len(),
    ensures
        exists|j: int| 0 <= j < v.len() && v[j].0 == b.eps@[i].0,
{
    assert(v[i].0 == b.eps@[i].0);
}

/// A fresh table from a reset list: the listed endpoints in order, each
/// at the default cost.
fn build_table<E>(v: Vec<(InetAddr, E)>) -> (r: Vec<(InetAddr, EpState<E>)>)
    ensures
        r@.len() == v@.len(),
        forall|i: int|
            0 <= i < v@.len() ==> r@[i].0 == v@[i].0 && r@[i].1.meta == v@[i].1 && r@[i].1.cost
                == EWMA_DEFAULT_RTT_MS,
        spec_costs_bounded(r@),
{
    let mut out: Vec<(InetAddr, EpState<E>)> = Vec::new();
    let mut rest = v;
    let ghost v0 = rest@;
    let ghost k: int = 0;
    while rest.len() > 0
        invariant
            0 <= k <= v0.len(),
            rest@.len() == v0.len() - k,
            forall|i: int| 0 <= i < rest@.len() ==> rest@[i] == v0[k + i],
            out@.len() == k,
            forall|i: int|
                0 <= i < k ==> (#[trigger] out@[i]).0 == v0[i].0 && out@[i].1.meta == v0[i].1
                    && out@[i].1.cost == EWMA_DEFAULT_RTT_MS,
        decreases rest@.len(),
    {
        let (a, m) = rest.remove(0);
        proof {
            assert((a, m) == v0[k]);
        }
        out.push((a, EpState { meta: m, cost: EWMA_DEFAULT_RTT_MS }));
        proof {
            k = k + 1;
        }
    }
    proof {
        assert forall|i: int| 0 <= i < out@.len() implies #[trigger] out@[i].1.cost
            <= EWMA_MAX_MS by {
            assert(out@[i].1.cost == EWMA_DEFAULT_RTT_MS);
        }
    }
    out
}

/// The sum of the first `i` weights.
pub open spec fn spec_prefix_weight(w: Seq<u32>, i: int) -> int
    decreases i,
{
    if i <= 0 {
        0
    } else {
        spec_prefix_weight(w, i - 1) + w[i - 1]
    }
}

/// The total weight of a split.
pub open spec fn spec_total_weight(w: Seq<u32>) -> int {
    spec_prefix_weight(w, w.len() as int)
}

/// Prefix sums never shrink.
pub proof fn lemma_prefix_weight_mono(w: Seq<u32>, i: int, j: int)
    requires
        0 <= i <= j <= w.len(),
    ensures
        spec_prefix_weight(w, i) <= spec_prefix_weight(w, j),
    decreases j - i,
{
    if i < j {
        lemma_prefix_weight_mono(w, i, j - 1);
    }
}

/// Picks the split entry owning the draw: entry `i` owns the draws in
/// `prefix(i) .. prefix(i+1)`, so zero-weighted entries own nothing and
/// weights set the odds.  The draw is reduced modulo the total weight;
/// an all-zero split has no entry to pick.
pub fn pick_split(weights: &Vec<u32>, draw: u64) -> (r: Option<usize>)
    requires
        weights@.len() <= 1000000,
    ensures
        match r {
            Some(i) => {
                &&& i < weights@.len()
                &&& weights@[i as int] > 0
                &&& spec_total_weight(weights@) > 0
                &&& spec_prefix_weight(weights@, i as int) <= draw as int % spec_total_weight(
                    weights@,
                ) < spec_prefix_weight(weights@, i as int + 1)
            },
            None => spec_total_weight(weights@) == 0,
        },
{
    let mut total: u64 = 0;
    let mut i: usize = 0;
    while i < weights.len()
        invariant
            i <= weights@.len(),
            weights@.len() <= 1000000,
            total == spec_prefix_weight(weights@, i as int),
            total <= i * 4294967295,
        decreases weights@.len() - i,
    {
        proof {
            assert(i * 4294967295 + 4294967295 <= 1000000 * 4294967295) by (nonlinear_arith)
                requires
                    i < 1000000,
            ;
        }
        total = total + (weights[i] as u64);
        i = i + 1;
        proof {
            assert(i as int * 4294967295 >= (i - 1) * 4294967295 + 4294967295);
        }
    }
    if total == 0 {
        return None;
    }
    let d: u64 = draw % total;
    let mut acc: u64 = 0;
    let mut j: usize = 0;
    while j < weights.len()
        invariant
            j <= weights@.len(),
            acc == spec_prefix_weight(weights@, j as int),
            total == spec_total_weight(weights@),
            d < total,
            acc <= d,
        decreases weights@.len() - j,
    {
        proof {
            lemma_prefix_weight_mono(weights@, j as int + 1, weights@.len() as int);
        }
        let w = weights[j];
        if (w as u64) > d - acc {
            return Some(j);
        }
        acc = acc + (w as u64);
        j = j + 1;
    }
    proof {
        assert(acc == total);
        assert(false);
    }
    None
}

/// Replacing the slot at an index scans other addresses as before.
proof fn lemma_ep_idx_update<E>(s: Seq<(InetAddr, EpState<E>)>, i: int, e: EpState<E>, b: InetAddr,
    from: int)
    requires
        0 <= i < s.len(),
        0 <= from <= s.len(),
    ensures
        spec_ep_idx_from(s.update(i, (s[i].0, e)), b, from) == spec_ep_idx_from(s, b, from),
    decreases s.len() - from,
{
    if from == s.len() {
    } else {
        lemma_ep_idx_update(s, i, e, b, from + 1);
    }
}

/// Appending a slot leaves other addresses' scans alone and puts the new
/// address at the end.
proof fn lemma_ep_idx_push<E>(s: Seq<(InetAddr, EpState<E>)>, a: InetAddr, e: EpState<E>,
    b: InetAddr, from: int)
    requires
        0 <= from <= s.len(),
    ensures
        b != a ==> spec_ep_idx_from(s.push((a, e)), b, from) == spec_ep_idx_from(s, b, from),
        b == a && spec_ep_idx_from(s, b, from) == -1 ==> spec_ep_idx_from(s.push((a, e)), b, from)
            == s.len(),
        b == a && spec_ep_idx_from(s, b, from) >= 0 ==> spec_ep_idx_from(s.push((a, e)), b, from)
            == spec_ep_idx_from(s, b, from),
    decreases s.len() - from,
{
    if from == s.len() {
        assert(s.push((a, e))[from] == (a, e));
        assert(spec_ep_idx_from(s.push((a, e)), b, from + 1) == -1);
    } else {
        lemma_ep_idx_push(s, a, e, b, from + 1);
    }
}

} // verus!
