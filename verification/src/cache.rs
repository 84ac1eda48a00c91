//! The per-target service cache: single-flight construction and idle
//! eviction.
//!
//! The cache maps interned target keys to service slots.  A lookup that
//! misses starts exactly one construction and leaves a pending slot that
//! concurrent callers join; a sweep drops every slot that has been idle
//! for the configured age.  The number of constructions started is kept
//! in the cache so tests can observe the single-flight guarantee.

use vstd::prelude::*;

verus! {

/// One cached slot: when it was last used and, once construction has
/// finished, the service itself.
#[derive(Clone, Debug, PartialEq, Eq)]
pub struct Entry<T> {
    pub last_used: u64,
    pub service: Option<T>,
}

/// What a lookup did.
#[derive(Clone, Copy, Debug, PartialEq, Eq, Structural)]
pub enum GetOutcome {
    /// A ready slot was found.
    Hit,
    /// A pending slot was found; the caller joins the in-flight build.
    Joined,
    /// No slot existed; exactly one construction starts now.
    Started,
}

/// The first index holding `k` at or after `i`, or -1.
pub open spec fn spec_idx_from<T>(s: Seq<(u64, Entry<T>)>, k: u64, i: int) -> int
    decreases s.len() - i,
{
    if i < 0 || i >= s.len() {
        -1
    } else if s[i].0 == k {
        i
    } else {
        spec_idx_from(s, k, i + 1)
    }
}

/// The first index holding `k`, or -1.
pub open spec fn spec_idx<T>(s: Seq<(u64, Entry<T>)>, k: u64) -> int {
    spec_idx_from(s, k, 0)
}

/// Whether a slot for `k` exists.
pub open spec fn spec_contains<T>(s: Seq<(u64, Entry<T>)>, k: u64) -> bool {
    spec_idx(s, k) >= 0
}

/// The slot stored for `k`, if any.
pub open spec fn spec_lookup<T>(s: Seq<(u64, Entry<T>)>, k: u64) -> Option<Entry<T>> {
    if spec_idx(s, k) >= 0 {
        Some(s[spec_idx(s, k)].1)
    } else {
        None
    }
}

/// No key appears twice.
pub open spec fn spec_unique<T>(s: Seq<(u64, Entry<T>)>) -> bool {
    forall|i: int, j: int| 0 <= i < j < s.len() ==> s[i].0 != s[j].0
}

/// What a found index means, and what -1 means.
pub proof fn lemma_idx_from<T>(s: Seq<(u64, Entry<T>)>, k: u64, from: int)
    requires
        from >= 0,
    ensures
        ({
            let i = spec_idx_from(s, k, from);
            if i == -1 {
                forall|j: int| from <= j < s.len() ==> s[j].0 != k
            } else {
                from <= i < s.len() && s[i].0 == k
            }
        }),
    decreases s.len() - from,
{
    if from >= s.len() {
    } else if s[from].0 == k {
    } else {
        lemma_idx_from(s, k, from + 1);
    }
}

/// A missing key means no index holds it.
pub proof fn lemma_not_found<T>(s: Seq<(u64, Entry<T>)>, k: u64)
    requires
        !spec_contains(s, k),
    ensures
        forall|j: int| 0 <= j < s.len() ==> s[j].0 != k,
{
    lemma_idx_from(s, k, 0);
}

/// Appending a fresh key puts its slot at the end of the scan.
pub proof fn lemma_idx_push<T>(s: Seq<(u64, Entry<T>)>, k: u64, e: Entry<T>, from: int)
    requires
        0 <= from <= s.len(),
        spec_idx_from(s, k, from) == -1,
    ensures
        spec_idx_from(s.push((k, e)), k, from) == s.len(),
    decreases s.len() - from,
{
    if from == s.len() {
        assert(s.push((k, e))[from] == (k, e));
    } else {
        lemma_idx_push(s, k, e, from + 1);
    }
}

/// A key other than the appended one scans as before.
pub proof fn lemma_idx_push_other<T>(s: Seq<(u64, Entry<T>)>, k: u64, e: Entry<T>, k2: u64,
    from: int)
    requires
        0 <= from <= s.len(),
        k2 != k,
    ensures
        spec_idx_from(s.push((k, e)), k2, from) == spec_idx_from(s, k2, from),
    decreases s.len() - from,
{
    if from == s.len() {
        assert(s.push((k, e))[from] == (k, e));
        assert(spec_idx_from(s.push((k, e)), k2, from + 1) == -1);
    } else {
        lemma_idx_push_other(s, k, e, k2, from + 1);
    }
}

/// Replacing the slot at `i` with `e`, under the same key, touches that
/// key's lookup alone.
pub proof fn lemma_update_at<T>(s: Seq<(u64, Entry<T>)>, i: int, e: Entry<T>)
    requires
        0 <= i < s.len(),
        spec_unique(s),
    ensures
        spec_unique(s.update(i, (s[i].0, e))),
        spec_lookup(s.update(i, (s[i].0, e)), s[i].0) == Some(e),
        forall|k2: u64|
            k2 != s[i].0 ==> spec_lookup(s.update(i, (s[i].0, e)), k2) == spec_lookup(s, k2),
{
    let k = s[i].0;
    let s2 = s.update(i, (k, e));
    assert forall|k2: u64| true implies spec_idx(s2, k2) == spec_idx(s, k2) by {
        lemma_idx_update(s, i, e, k2, 0);
    }
    assert(spec_unique(s2)) by {
        assert(forall|a: int| 0 <= a < s.len() ==> s2[a].0 == s[a].0);
    }
    lemma_idx_from(s, k, 0);
    if spec_idx(s, k) == -1 {
        assert(s[i].0 != k);
    }
    let ik = spec_idx(s, k);
    assert(ik == i) by {
        if ik != i {
            assert(s[ik].0 == k && s[i].0 == k);
        }
    }
    assert forall|k2: u64| k2 != k implies spec_lookup(s2, k2) == spec_lookup(s, k2) by {
        lemma_idx_from(s, k2, 0);
        if spec_idx(s, k2) >= 0 {
            assert(s[spec_idx(s, k2)].0 == k2);
            assert(s2[spec_idx(s, k2)] == s[spec_idx(s, k2)]);
        }
    }
}

/// Updating the slot at a key's index moves no other key's scan.
pub proof fn lemma_idx_update<T>(s: Seq<(u64, Entry<T>)>, i: int, e: Entry<T>, k2: u64, from: int)
    requires
        0 <= i < s.len(),
        0 <= from <= s.len(),
    ensures
        spec_idx_from(s.update(i, (s[i].0, e)), k2, from) == spec_idx_from(s, k2, from),
    decreases s.len() - from,
{
    if from == s.len() {
    } else {
        lemma_idx_update(s, i, e, k2, from + 1);
    }
}

/// The slots that survive a sweep at `now`: those used less than
/// `max_idle` ago.  Order is kept.
pub open spec fn spec_keep<T>(e: Entry<T>, now: u64, max_idle: u64) -> bool {
    now <= e.last_used || now - e.last_used < max_idle
}

/// The cache contents after a sweep at `now`.
pub open spec fn spec_sweep<T>(s: Seq<(u64, Entry<T>)>, now: u64, max_idle: u64) -> Seq<
    (u64, Entry<T>),
>
    decreases s.len(),
{
    if s.len() == 0 {
        Seq::empty()
    } else {
        let r = spec_sweep(s.drop_last(), now, max_idle);
        if spec_keep(s.last().1, now, max_idle) {
            r.push(s.last())
        } else {
            r
        }
    }
}

/// A swept cache keeps a key exactly when its slot was fresh, with the
/// slot unchanged: after `max_idle` has elapsed since a slot's last use
/// it is gone, and before that moment it is reachable as it was.
pub proof fn lemma_sweep_lookup<T>(s: Seq<(u64, Entry<T>)>, now: u64, max_idle: u64, k: u64)
    requires
        spec_unique(s),
    ensures
        spec_lookup(spec_sweep(s, now, max_idle), k) == (match spec_lookup(s, k) {
            Some(e) => if spec_keep(e, now, max_idle) {
                Some(e)
            } else {
                None::<Entry<T>>
            },
            None => None::<Entry<T>>,
        }),
        spec_unique(spec_sweep(s, now, max_idle)),
    decreases s.len(),
{
    lemma_idx_from(s, k, 0);
    if s.len() == 0 {
    } else {
        let butlast = s.drop_last();
        let last = s.last();
        assert(spec_unique(butlast)) by {
            assert(forall|i: int, j: int|
                0 <= i < j < butlast.len() ==> butlast[i] == s[i] && butlast[j] == s[j]);
        }
        lemma_sweep_lookup(butlast, now, max_idle, k);
        let r = spec_sweep(butlast, now, max_idle);
        lemma_idx_from(r, k, 0);
        lemma_idx_from(butlast, k, 0);
        if spec_keep(last.1, now, max_idle) {
            if last.0 == k {
                assert(!spec_contains(butlast, k)) by {
                    if spec_contains(butlast, k) {
                        let i = spec_idx(butlast, k);
                        assert(s[i].0 == k && s[s.len() - 1].0 == k);
                    }
                }
                lemma_not_found(r, k);
                lemma_idx_push(r, k, last.1, 0);
                assert(spec_lookup(s, k) == Some(last.1)) by {
                    let i = spec_idx(s, k);
                    if i < s.len() - 1 {
                        assert(butlast[i].0 == k);
                        assert(spec_contains(butlast, k)) by {
                            lemma_idx_from(butlast, k, 0);
                            if spec_idx(butlast, k) == -1 {
                                assert(butlast[i].0 != k);
                            }
                        }
                    }
                }
            } else {
                lemma_idx_push_other(r, last.0, last.1, k, 0);
                assert(spec_lookup(s, k) == spec_lookup(butlast, k)) by {
                    lemma_idx_eq_butlast(s, k);
                }
            }
            assert(spec_unique(r.push(last))) by {
                lemma_sweep_members(butlast, now, max_idle);
                assert(forall|j: int|
                    0 <= j < r.len() ==> exists|t: int|
                        0 <= t < butlast.len() && butlast[t] == #[trigger] r[j]);
                assert(forall|j: int| 0 <= j < r.len() ==> #[trigger] r[j].0 != last.0) by {
                    assert forall|j: int| 0 <= j < r.len() implies #[trigger] r[j].0
                        != last.0 by {
                        let t = choose|t: int| 0 <= t < butlast.len() && butlast[t] == r[j];
                        assert(s[t] == butlast[t]);
                        assert(s[t].0 != s[s.len() - 1].0);
                    }
                }
            }
        } else {
            if last.0 == k {
                assert(!spec_contains(butlast, k)) by {
                    if spec_contains(butlast, k) {
                        let i = spec_idx(butlast, k);
                        assert(s[i].0 == k && s[s.len() - 1].0 == k);
                    }
                }
                assert(spec_lookup(s, k) == Some(last.1)) by {
                    let i = spec_idx(s, k);
                    if i < s.len() - 1 {
                        assert(butlast[i].0 == k);
                        assert(spec_contains(butlast, k)) by {
                            lemma_idx_from(butlast, k, 0);
                            if spec_idx(butlast, k) == -1 {
                                assert(butlast[i].0 != k);
                            }
                        }
                    }
                }
                assert(spec_lookup(r, k) is None) by {
                    if spec_contains(r, k) {
                        lemma_sweep_members(butlast, now, max_idle);
                        let i = spec_idx(r, k);
                        let t = choose|t: int| 0 <= t < butlast.len() && butlast[t] == r[i];
                        assert(butlast[t].0 == k);
                    }
                }
            } else {
                assert(spec_lookup(s, k) == spec_lookup(butlast, k)) by {
                    lemma_idx_eq_butlast(s, k);
                }
            }
        }
    }
}

/// Every swept slot was a slot of the original cache.
pub proof fn lemma_sweep_members<T>(s: Seq<(u64, Entry<T>)>, now: u64, max_idle: u64)
    ensures
        forall|j: int|
            0 <= j < spec_sweep(s, now, max_idle).len() ==> exists|t: int|
                0 <= t < s.len() && s[t] == #[trigger] spec_sweep(s, now, max_idle)[j],
    decreases s.len(),
{
    if s.len() == 0 {
    } else {
        let butlast = s.drop_last();
        lemma_sweep_members(butlast, now, max_idle);
        let r = spec_sweep(butlast, now, max_idle);
        assert forall|j: int| 0 <= j < spec_sweep(s, now, max_idle).len() implies exists|t: int|
            0 <= t < s.len() && s[t] == #[trigger] spec_sweep(s, now, max_idle)[j] by {
            if j < r.len() {
                let t = choose|t: int| 0 <= t < butlast.len() && butlast[t] == r[j];
                assert(s[t] == spec_sweep(s, now, max_idle)[j]);
            } else {
                assert(s[s.len() - 1] == spec_sweep(s, now, max_idle)[j]);
            }
        }
    }
}

/// A key's scan ignores the last slot when it sits elsewhere.
proof fn lemma_idx_eq_butlast<T>(s: Seq<(u64, Entry<T>)>, k: u64)
    requires
        s.len() > 0,
        s.last().0 != k,
    ensures
        spec_lookup(s, k) == spec_lookup(s.drop_last(), k),
{
    lemma_idx_eq_butlast_from(s, k, 0);
    let i = spec_idx(s, k);
    if i >= 0 {
        lemma_idx_from(s, k, 0);
        assert(s[i] == s.drop_last()[i]);
    }
}

/// As above, from any starting point of the scan.
proof fn lemma_idx_eq_butlast_from<T>(s: Seq<(u64, Entry<T>)>, k: u64, from: int)
    requires
        s.len() > 0,
        s.last().0 != k,
        0 <= from <= s.len(),
    ensures
        spec_idx_from(s, k, from) == spec_idx_from(s.drop_last(), k, from),
    decreases s.len() - from,
{
    if from == s.len() - 1 {
        assert(spec_idx_from(s, k, from + 1) == -1);
        assert(spec_idx_from(s.drop_last(), k, from) == -1);
    } else if from == s.len() {
        assert(spec_idx_from(s.drop_last(), k, from) == -1);
    } else {
        lemma_idx_eq_butlast_from(s, k, from + 1);
    }
}

/// The cache: slots by interned key, the idle age, and how many
/// constructions have been started.
#[derive(Debug)]
pub struct Cache<T> {
    pub entries: Vec<(u64, Entry<T>)>,
    pub max_idle_ms: u64,
    pub builds: u64,
}

/// The cache contents after a lookup of `k` at `now`: a present slot is
/// touched, a missing one appears pending.
pub open spec fn spec_gom<T>(s: Seq<(u64, Entry<T>)>, k: u64, now: u64) -> Seq<(u64, Entry<T>)> {
    let i = spec_idx(s, k);
    if i >= 0 {
        s.update(i, (k, Entry { last_used: now, service: s[i].1.service }))
    } else {
        s.push((k, Entry { last_used: now, service: None }))
    }
}

/// How many constructions have started after a lookup of `k`.
pub open spec fn spec_gom_builds<T>(s: Seq<(u64, Entry<T>)>, builds: u64, k: u64) -> int {
    if spec_contains(s, k) {
        builds as int
    } else {
        builds + 1
    }
}

impl<T> Cache<T> {
    /// A well-formed cache holds each key at most once.
    pub open spec fn wf(&self) -> bool {
        spec_unique(self.entries@)
    }

    /// An empty cache with the given idle age.
    pub fn new(max_idle_ms: u64) -> (c: Cache<T>)
        ensures
            c.wf(),
            c.entries@.len() == 0,
            c.max_idle_ms == max_idle_ms,
            c.builds == 0,
    {
        Cache { entries: Vec::new(), max_idle_ms, builds: 0 }
    }

    /// The index of `k`'s slot.
    fn find(&self, k: u64) -> (r: Option<usize>)
        ensures
            match r {
                Some(i) => spec_idx(self.entries@, k) == i && i < self.entries@.len(),
                None => spec_idx(self.entries@, k) == -1,
            },
    {
        let mut i: usize = 0;
        while i < self.entries.len()
            invariant
                i <= self.entries@.len(),
                spec_idx_from(self.entries@, k, 0) == spec_idx_from(self.entries@, k, i as int),
            decreases self.entries@.len() - i,
        {
            if self.entries[i].0 == k {
                return Some(i);
            }
            i = i + 1;
        }
        None
    }

    /// Whether a slot for `k` is reachable.
    pub fn contains(&self, k: u64) -> (r: bool)
        ensures
            r == spec_contains(self.entries@, k),
    {
        self.find(k).is_some()
    }

    /// The service cached for `k`, when its slot is ready.
    pub fn get(&self, k: u64) -> (r: Option<&T>)
        ensures
            match r {
                Some(t) => spec_lookup(self.entries@, k) matches Some(e) && e.service == Some(*t),
                None => spec_lookup(self.entries@, k) matches Some(e) ==> e.service is None,
            },
    {
        match self.find(k) {
            Some(i) => self.entries[i].1.service.as_ref(),
            None => None,
        }
    }

    /// Looks up `k` at time `now`.  A ready slot is a hit and a pending
    /// slot is joined — in both cases no construction starts and the slot
    /// is touched.  A missing key starts exactly one construction and
    /// leaves a pending slot.  Slots of other keys are untouched.
    pub fn get_or_make(&mut self, k: u64, now: u64) -> (r: GetOutcome)
        requires
            old(self).wf(),
            old(self).builds < u64::MAX,
        ensures
            final(self).wf(),
            final(self).max_idle_ms == old(self).max_idle_ms,
            final(self).entries@ == spec_gom(old(self).entries@, k, now),
            final(self).builds == spec_gom_builds(old(self).entries@, old(self).builds, k),
            match r {
                GetOutcome::Hit => spec_lookup(old(self).entries@, k) matches Some(e) && e.service
                    is Some,
                GetOutcome::Joined => spec_lookup(old(self).entries@, k) matches Some(e)
                    && e.service is None,
                GetOutcome::Started => !spec_contains(old(self).entries@, k),
            },
            spec_lookup(final(self).entries@, k) matches Some(e2) && e2.last_used == now,
            forall|k2: u64|
                k2 != k ==> spec_lookup(final(self).entries@, k2) == spec_lookup(
                    old(self).entries@,
                    k2,
                ),
    {
        let ghost s0 = self.entries@;
        proof {
            lemma_idx_from(s0, k, 0);
        }
        match self.find(k) {
            Some(i) => {
                let was_ready = self.entries[i].1.service.is_some();
                let slot = self.entries.remove(i);
                let e = Entry { last_used: now, service: slot.1.service };
                self.entries.insert(i, (k, e));
                proof {
                    assert(s0[i as int].0 == k);
                    assert(self.entries@ =~= s0.update(i as int, (k, e)));
                    lemma_update_at(s0, i as int, e);
                }
                if was_ready {
                    GetOutcome::Hit
                } else {
                    GetOutcome::Joined
                }
            },
            None => {
                let e = Entry { last_used: now, service: None };
                self.entries.push((k, e));
                self.builds = self.builds + 1;
                proof {
                    lemma_not_found(s0, k);
                    lemma_idx_push(s0, k, e, 0);
                    assert(self.entries@ == s0.push((k, e)));
                    assert(final(self).wf()) by {
                        assert(forall|a: int|
                            0 <= a < s0.len() ==> self.entries@[a] == s0[a]);
                    }
                    assert forall|k2: u64| k2 != k implies spec_lookup(self.entries@, k2)
                        == spec_lookup(s0, k2) by {
                        lemma_idx_push_other(s0, k, e, k2, 0);
                        lemma_idx_from(s0, k2, 0);
                        if spec_idx(s0, k2) >= 0 {
                            assert(self.entries@[spec_idx(s0, k2)] == s0[spec_idx(s0, k2)]);
                        }
                    }
                    assert(spec_idx(self.entries@, k) == s0.len());
                }
                GetOutcome::Started
            },
        }
    }

    /// Finishes a construction: the slot becomes ready with the built
    /// service.  A slot evicted while the build was in flight is left
    /// alone: eviction never aborts in-flight work.
    pub fn complete(&mut self, k: u64, service: T, now: u64)
        requires
            old(self).wf(),
        ensures
            final(self).wf(),
            final(self).max_idle_ms == old(self).max_idle_ms,
            final(self).builds == old(self).builds,
            if spec_contains(old(self).entries@, k) {
                &&& spec_lookup(final(self).entries@, k) matches Some(e) && e.service is Some
                    && e.last_used == now
                &&& forall|k2: u64|
                    k2 != k ==> spec_lookup(final(self).entries@, k2) == spec_lookup(
                        old(self).entries@,
                        k2,
                    )
            } else {
                final(self).entries@ == old(self).entries@
            },
    {
        let ghost s0 = self.entries@;
        proof {
            lemma_idx_from(s0, k, 0);
        }
        match self.find(k) {
            Some(i) => {
                let _slot = self.entries.remove(i);
                let e = Entry { last_used: now, service: Some(service) };
                self.entries.insert(i, (k, e));
                proof {
                    assert(s0[i as int].0 == k);
                    assert(self.entries@ =~= s0.update(i as int, (k, e)));
                    lemma_update_at(s0, i as int, e);
                }
            },
            None => {},
        }
    }

    /// Records a successful readiness of `k`'s slot at `now`.  The
    /// timestamp only moves forward.
    pub fn touch(&mut self, k: u64, now: u64)
        requires
            old(self).wf(),
        ensures
            final(self).wf(),
            final(self).max_idle_ms == old(self).max_idle_ms,
            final(self).builds == old(self).builds,
            if spec_contains(old(self).entries@, k) {
                &&& spec_lookup(final(self).entries@, k) matches Some(e) && (
                spec_lookup(old(self).entries@, k) matches Some(e0) && e.service == e0.service
                    && e.last_used == if now > e0.last_used {
                    now
                } else {
                    e0.last_used
                })
                &&& forall|k2: u64|
                    k2 != k ==> spec_lookup(final(self).entries@, k2) == spec_lookup(
                        old(self).entries@,
                        k2,
                    )
            } else {
                final(self).entries@ == old(self).entries@
            },
    {
        let ghost s0 = self.entries@;
        proof {
            lemma_idx_from(s0, k, 0);
        }
        match self.find(k) {
            Some(i) => {
                let slot = self.entries.remove(i);
                let stamp = if now > slot.1.last_used {
                    now
                } else {
                    slot.1.last_used
                };
                let e = Entry { last_used: stamp, service: slot.1.service };
                self.entries.insert(i, (k, e));
                proof {
                    assert(s0[i as int].0 == k);
                    assert(self.entries@ =~= s0.update(i as int, (k, e)));
                    lemma_update_at(s0, i as int, e);
                }
            },
            None => {},
        }
    }

    /// Evicts every slot idle for at least the cache's idle age.  The
    /// surviving slots and their timestamps are exactly those of
    /// `spec_sweep`; `lemma_sweep_lookup` gives the per-key reading.
    pub fn sweep(&mut self, now: u64)
        requires
            old(self).wf(),
        ensures
            final(self).wf(),
            final(self).max_idle_ms == old(self).max_idle_ms,
            final(self).builds == old(self).builds,
            final(self).entries@ == spec_sweep(old(self).entries@, now, old(self).max_idle_ms),
    {
        let ghost s0 = self.entries@;
        let mut i: usize = 0;
        let ghost j: int = 0;
        while i < self.entries.len()
            invariant
                0 <= i as int <= self.entries@.len(),
                0 <= j <= s0.len(),
                self.max_idle_ms == old(self).max_idle_ms,
                self.builds == old(self).builds,
                self.entries@ == spec_sweep(s0.take(j), now, self.max_idle_ms) + s0.skip(j),
                i as int == spec_sweep(s0.take(j), now, self.max_idle_ms).len(),
            decreases s0.len() - j,
        {
            proof {
                assert(self.entries@[i as int] == s0[j]);
            }
            let keep = {
                let lu = self.entries[i].1.last_used;
                now <= lu || now - lu < self.max_idle_ms
            };
            proof {
                assert(s0.take(j + 1).drop_last() =~= s0.take(j));
                assert(s0.take(j + 1).last() == s0[j]);
            }
            if keep {
                i = i + 1;
                proof {
                    j = j + 1;
                    assert(self.entries@ =~= spec_sweep(s0.take(j), now, self.max_idle_ms)
                        + s0.skip(j));
                }
            } else {
                let _slot = self.entries.remove(i);
                proof {
                    j = j + 1;
                    assert(self.entries@ =~= spec_sweep(s0.take(j), now, self.max_idle_ms)
                        + s0.skip(j));
                }
            }
        }
        proof {
            assert(s0.take(j) =~= s0);
            assert(self.entries@ =~= spec_sweep(s0, now, self.max_idle_ms));
            lemma_sweep_lookup(s0, now, self.max_idle_ms, 0);
        }
    }
}

/// Single flight: when two lookups of the same absent key overlap — the
/// second runs while the first call's slot is still in the cache —
/// exactly one construction is performed across the two calls.
pub proof fn lemma_single_flight<T>(s: Seq<(u64, Entry<T>)>, builds: u64, k: u64, t1: u64, t2: u64)
    requires
        !spec_contains(s, k),
        builds < u64::MAX,
    ensures
        ({
            let s1 = spec_gom(s, k, t1);
            let b1 = spec_gom_builds(s, builds, k);
            spec_gom_builds(s1, b1 as u64, k) == builds + 1
        }),
{
    let e = Entry::<T> { last_used: t1, service: None };
    lemma_idx_from(s, k, 0);
    lemma_idx_push(s, k, e, 0);
    assert(spec_contains(spec_gom(s, k, t1), k));
}

} // verus!
