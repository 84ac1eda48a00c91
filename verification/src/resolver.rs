//! An in-memory discovery resolver for exercising the pipelines.
//!
//! Endpoint resolutions and profile lookups are served from tables built
//! up front.  Each configured target is handed out exactly once; a lookup
//! of anything else marks the resolver as having seen an unconfigured
//! target and answers with the does-not-exist update, so a run can assert
//! that only the configured destinations were resolved.

use crate::addr::Addr;
use crate::addr::InetAddr;
use crate::addr::NameAddr;
use crate::addr::clone_bytes;
use crate::balance::Update;
use crate::errors::ErrorKind;
use crate::profiles::ProfileValue;
use crate::profiles::Receiver;
use vstd::prelude::*;

verus! {

/// Whether two named authorities are the same key.
pub open spec fn spec_name_eq(a: &NameAddr, b: &NameAddr) -> bool {
    a.host@ == b.host@ && a.port == b.port
}

/// Whether two destinations are the same key.
pub open spec fn spec_addr_eq(a: &Addr, b: &Addr) -> bool {
    match (a, b) {
        (Addr::Sock(x), Addr::Sock(y)) => x == y,
        (Addr::Name(x), Addr::Name(y)) => spec_name_eq(x, y),
        _ => false,
    }
}

/// Whether two destinations are the same key.
pub fn addr_eq(a: &Addr, b: &Addr) -> (r: bool)
    ensures
        r == spec_addr_eq(a, b),
{
    match (a, b) {
        (Addr::Sock(x), Addr::Sock(y)) => x.ip == y.ip && x.port == y.port,
        (Addr::Name(x), Addr::Name(y)) => x.same(y),
        _ => false,
    }
}

/// The frames an endpoint subscription delivers.
pub type DstReceiver<E> = Vec<Result<Update<E>, ErrorKind>>;

/// A table of configured answers, handed out once each.
#[derive(Debug)]
pub struct Resolver<A, E> {
    pub endpoints: Vec<(A, E)>,
    pub only: bool,
}

/// An endpoint resolver keyed by named authorities.
pub type Dst<E> = Resolver<NameAddr, DstReceiver<E>>;

/// A profile resolver keyed by destinations.
pub type Profiles = Resolver<Addr, Option<Receiver>>;

/// Observes what a resolver has been asked for.
#[derive(Clone, Copy, Debug, PartialEq, Eq, Structural)]
pub struct Handle {
    pub empty: bool,
    pub only: bool,
}

/// A resolver that answers no endpoint resolutions.
#[derive(Debug)]
pub struct NoDst<E>(pub core::marker::PhantomData<E>);

/// A resolver that answers no profile lookups.
#[derive(Clone, Copy, Debug, Default, PartialEq, Eq, Structural)]
pub struct NoProfiles;

/// The subscription was gone when a frame was pushed at it.
#[derive(Clone, Copy, Debug, PartialEq, Eq, Structural)]
pub struct SendFailed;

/// A resolver expecting no endpoint resolutions at all.
pub fn no_destinations<E>() -> (r: NoDst<E>) {
    NoDst(core::marker::PhantomData)
}

/// A resolver expecting no profile lookups at all.
pub fn no_profiles() -> (r: NoProfiles)
    ensures
        r == NoProfiles,
{
    NoProfiles
}

impl<A, E> Resolver<A, E> {
    /// An empty resolver and its observation handle.
    pub fn with_handle() -> (r: (Resolver<A, E>, Handle))
        ensures
            r.0.endpoints@.len() == 0,
            r.0.only,
            r.1.empty,
            r.1.only,
    {
        let resolver = Resolver { endpoints: Vec::new(), only: true };
        let handle = resolver.handle();
        (resolver, handle)
    }

    /// What the resolver has seen so far: whether every configured answer
    /// has been handed out, and whether only configured targets were
    /// asked for.
    pub fn handle(&self) -> (h: Handle)
        ensures
            h.empty == (self.endpoints@.len() == 0),
            h.only == self.only,
    {
        Handle { empty: self.endpoints.len() == 0, only: self.only }
    }
}

impl<A, E> Default for Resolver<A, E> {
    /// An empty resolver that has seen nothing unexpected.
    fn default() -> (r: Resolver<A, E>)
        ensures
            r.endpoints@.len() == 0,
            r.only,
    {
        Resolver { endpoints: Vec::new(), only: true }
    }
}

impl Handle {
    /// Whether all configured answers were handed out.
    pub fn is_empty(&self) -> (r: bool)
        ensures
            r == self.empty,
    {
        self.empty
    }

    /// Whether only the configured targets were asked for.
    pub fn only_configured(&self) -> (r: bool)
        ensures
            r == self.only,
    {
        self.only
    }
}

/// The first index whose key is `k` at or after `i`, or -1.
pub open spec fn spec_dst_idx_from<E>(s: Seq<(NameAddr, E)>, k: &NameAddr, i: int) -> int
    decreases s.len() - i,
{
    if i < 0 || i >= s.len() {
        -1
    } else if spec_name_eq(&s[i].0, k) {
        i
    } else {
        spec_dst_idx_from(s, k, i + 1)
    }
}

/// Pushes one frame at the subscription of `addr`, if it still exists.
pub struct DstSender<E> {
    pub addr: NameAddr,
    pub marker: core::marker::PhantomData<E>,
}

impl<E> Dst<E> {
    /// The index of `k`'s subscription.
    fn find(&self, k: &NameAddr) -> (r: Option<usize>)
        ensures
            match r {
                Some(i) => spec_dst_idx_from(self.endpoints@, k, 0) == i && i
                    < self.endpoints@.len(),
                None => spec_dst_idx_from(self.endpoints@, k, 0) == -1,
            },
    {
        let mut i: usize = 0;
        while i < self.endpoints.len()
            invariant
                i <= self.endpoints@.len(),
                spec_dst_idx_from(self.endpoints@, k, 0) == spec_dst_idx_from(
                    self.endpoints@,
                    k,
                    i as int,
                ),
            decreases self.endpoints@.len() - i,
        {
            if self.endpoints[i].0.same(k) {
                return Some(i);
            }
            i = i + 1;
        }
        None
    }

    /// Opens a subscription for `addr`: an empty frame queue replaces any
    /// earlier one, and the sender pushes frames at it.
    pub fn endpoint_tx(&mut self, addr: NameAddr) -> (tx: DstSender<E>)
        ensures
            final(self).only == old(self).only,
            spec_name_eq(&tx.addr, &addr),
            ({
                let i = spec_dst_idx_from(old(self).endpoints@, &addr, 0);
                if i >= 0 {
                    &&& final(self).endpoints@.len() == old(self).endpoints@.len()
                    &&& forall|j: int|
                        0 <= j < old(self).endpoints@.len() && j != i ==> final(self).endpoints@[j]
                            == old(self).endpoints@[j]
                    &&& final(self).endpoints@[i].0 == addr
                    &&& final(self).endpoints@[i].1@.len() == 0
                } else {
                    &&& final(self).endpoints@.len() == old(self).endpoints@.len() + 1
                    &&& forall|j: int|
                        0 <= j < old(self).endpoints@.len() ==> final(self).endpoints@[j] == old(self).endpoints@[j]
                    &&& final(self).endpoints@[old(self).endpoints@.len() as int].0 == addr
                    &&& final(self).endpoints@[old(self).endpoints@.len() as int].1@.len() == 0
                }
            }),
    {
        let tx = DstSender {
            addr: NameAddr { host: clone_bytes(&addr.host), port: addr.port },
            marker: core::marker::PhantomData,
        };
        let fresh: DstReceiver<E> = Vec::new();
        match self.find(&addr) {
            Some(i) => {
                let _old = self.endpoints.remove(i);
                self.endpoints.insert(i, (addr, fresh));
            },
            None => {
                self.endpoints.push((addr, fresh));
            },
        }
        tx
    }

    /// Configures `target` to resolve once to the single endpoint
    /// `(addr, meta)`.
    pub fn endpoint_exists(self, target: NameAddr, addr: InetAddr, meta: E) -> (r: Dst<E>)
        ensures
            r.only == self.only,
            spec_dst_idx_from(r.endpoints@, &target, 0) >= 0,
    {
        let mut me = self;
        let mut eps: Vec<(InetAddr, E)> = Vec::new();
        eps.push((addr, meta));
        let mut q: DstReceiver<E> = Vec::new();
        q.push(Ok(Update::Add(eps)));
        let ghost before = me.endpoints@;
        match me.find(&target) {
            Some(i) => {
                let _old = me.endpoints.remove(i);
                me.endpoints.insert(i, (target, q));
                proof {
                    lemma_dst_idx_meaning(me.endpoints@, &target, 0);
                    if spec_dst_idx_from(me.endpoints@, &target, 0) == -1 {
                        assert(!spec_name_eq(&me.endpoints@[i as int].0, &target));
                        assert(me.endpoints@[i as int].0 == target);
                    }
                }
            },
            None => {
                me.endpoints.push((target, q));
                proof {
                    lemma_dst_idx_meaning(me.endpoints@, &target, 0);
                    if spec_dst_idx_from(me.endpoints@, &target, 0) == -1 {
                        assert(!spec_name_eq(&me.endpoints@[before.len() as int].0, &target));
                        assert(me.endpoints@[before.len() as int].0 == target);
                    }
                }
            },
        }
        me
    }

    /// Serves one resolution: a configured target hands out its frame
    /// queue and leaves the table; an unconfigured one marks the resolver
    /// and answers with the does-not-exist frame.
    pub fn resolve(&mut self, target: &NameAddr) -> (r: DstReceiver<E>)
        ensures
            ({
                let i = spec_dst_idx_from(old(self).endpoints@, target, 0);
                if i >= 0 {
                    &&& final(self).only == old(self).only
                    &&& final(self).endpoints@ == old(self).endpoints@.remove(i)
                    &&& r@ == old(self).endpoints@[i].1@
                } else {
                    &&& !final(self).only
                    &&& final(self).endpoints@ == old(self).endpoints@
                    &&& r@.len() == 1
                    &&& r@[0] == Ok::<Update<E>, ErrorKind>(Update::DoesNotExist)
                }
            }),
    {
        match self.find(target) {
            Some(i) => {
                let (_key, q) = self.endpoints.remove(i);
                q
            },
            None => {
                self.only = false;
                let mut q: DstReceiver<E> = Vec::new();
                q.push(Ok(Update::DoesNotExist));
                q
            },
        }
    }
}

impl<E> DstSender<E> {
    /// Pushes one update frame at the subscription, which fails once the
    /// subscription has been resolved away.
    pub fn update(&self, dst: &mut Dst<E>, up: Update<E>) -> (r: Result<(), SendFailed>)
        ensures
            final(dst).only == old(dst).only,
            ({
                let i = spec_dst_idx_from(old(dst).endpoints@, &self.addr, 0);
                if i >= 0 {
                    &&& r is Ok
                    &&& final(dst).endpoints@.len() == old(dst).endpoints@.len()
                    &&& forall|j: int|
                        0 <= j < old(dst).endpoints@.len() && j != i ==> final(dst).endpoints@[j]
                            == old(dst).endpoints@[j]
                    &&& final(dst).endpoints@[i].0 == old(dst).endpoints@[i].0
                    &&& final(dst).endpoints@[i].1@ == old(dst).endpoints@[i].1@.push(Ok(up))
                } else {
                    &&& r == Err::<(), SendFailed>(SendFailed)
                    &&& final(dst).endpoints@ == old(dst).endpoints@
                }
            }),
    {
        match dst.find(&self.addr) {
            Some(i) => {
                let (key, mut q) = dst.endpoints.remove(i);
                q.push(Ok(up));
                dst.endpoints.insert(i, (key, q));
                Ok(())
            },
            None => Err(SendFailed),
        }
    }

    /// Sends an add of the listed endpoints.
    pub fn add(&self, dst: &mut Dst<E>, addrs: Vec<(InetAddr, E)>) -> (r: Result<(), SendFailed>)
        ensures
            final(dst).only == old(dst).only,
            r is Ok == (spec_dst_idx_from(old(dst).endpoints@, &self.addr, 0) >= 0),
    {
        self.update(dst, Update::Add(addrs))
    }

    /// Sends a removal of the listed addresses.
    pub fn remove(&self, dst: &mut Dst<E>, addrs: Vec<InetAddr>) -> (r: Result<(), SendFailed>)
        ensures
            final(dst).only == old(dst).only,
            r is Ok == (spec_dst_idx_from(old(dst).endpoints@, &self.addr, 0) >= 0),
    {
        self.update(dst, Update::Remove(addrs))
    }

    /// Sends an atomic replacement of the endpoint set.
    pub fn reset(&self, dst: &mut Dst<E>, addrs: Vec<(InetAddr, E)>) -> (r: Result<(), SendFailed>)
        ensures
            final(dst).only == old(dst).only,
            r is Ok == (spec_dst_idx_from(old(dst).endpoints@, &self.addr, 0) >= 0),
    {
        self.update(dst, Update::Reset(addrs))
    }

    /// Sends the terminal does-not-exist update.
    pub fn does_not_exist(&self, dst: &mut Dst<E>) -> (r: Result<(), SendFailed>)
        ensures
            final(dst).only == old(dst).only,
            r is Ok == (spec_dst_idx_from(old(dst).endpoints@, &self.addr, 0) >= 0),
    {
        self.update(dst, Update::DoesNotExist)
    }

    /// Pushes an error frame at the subscription.
    pub fn err(&self, dst: &mut Dst<E>, kind: ErrorKind) -> (r: Result<(), SendFailed>)
        ensures
            final(dst).only == old(dst).only,
            r is Ok == (spec_dst_idx_from(old(dst).endpoints@, &self.addr, 0) >= 0),
    {
        match dst.find(&self.addr) {
            Some(i) => {
                let (key, mut q) = dst.endpoints.remove(i);
                q.push(Err(kind));
                dst.endpoints.insert(i, (key, q));
                Ok(())
            },
            None => Err(SendFailed),
        }
    }
}

/// The first index whose key is `k` at or after `i`, or -1.
pub open spec fn spec_profile_idx_from<V>(s: Seq<(Addr, V)>, k: &Addr, i: int) -> int
    decreases s.len() - i,
{
    if i < 0 || i >= s.len() {
        -1
    } else if spec_addr_eq(&s[i].0, k) {
        i
    } else {
        spec_profile_idx_from(s, k, i + 1)
    }
}

/// Replaces the profile snapshot behind a configured address.
pub struct ProfileSender {
    pub addr: Addr,
}

impl Profiles {
    /// The index of `k`'s profile.
    fn find_addr(&self, k: &Addr) -> (r: Option<usize>)
        ensures
            match r {
                Some(i) => spec_profile_idx_from(self.endpoints@, k, 0) == i && i
                    < self.endpoints@.len(),
                None => spec_profile_idx_from(self.endpoints@, k, 0) == -1,
            },
    {
        let mut i: usize = 0;
        while i < self.endpoints.len()
            invariant
                i <= self.endpoints@.len(),
                spec_profile_idx_from(self.endpoints@, k, 0) == spec_profile_idx_from(
                    self.endpoints@,
                    k,
                    i as int,
                ),
            decreases self.endpoints@.len() - i,
        {
            if addr_eq(&self.endpoints[i].0, k) {
                return Some(i);
            }
            i = i + 1;
        }
        None
    }

    /// Inserts `value` under `addr`, replacing any earlier entry.
    fn put(&mut self, addr: Addr, value: Option<Receiver>)
        ensures
            final(self).only == old(self).only,
            ({
                let i = spec_profile_idx_from(old(self).endpoints@, &addr, 0);
                if i >= 0 {
                    final(self).endpoints@ == old(self).endpoints@.update(i, (addr, value))
                } else {
                    final(self).endpoints@ == old(self).endpoints@.push((addr, value))
                }
            }),
    {
        match self.find_addr(&addr) {
            Some(i) => {
                let _old = self.endpoints.remove(i);
                self.endpoints.insert(i, (addr, value));
                proof {
                    assert(self.endpoints@ =~= old(self).endpoints@.update(
                        spec_profile_idx_from(old(self).endpoints@, &addr, 0),
                        self.endpoints@[spec_profile_idx_from(old(self).endpoints@, &addr, 0)],
                    ));
                }
            },
            None => {
                self.endpoints.push((addr, value));
            },
        }
    }

    /// Opens a live profile for `addr`, starting from the empty snapshot,
    /// and hands back the sender that replaces its snapshots.
    pub fn profile_tx(&mut self, addr: Addr) -> (tx: ProfileSender)
        ensures
            final(self).only == old(self).only,
            spec_addr_eq(&tx.addr, &addr),
            spec_profile_idx_from(final(self).endpoints@, &addr, 0) >= 0,
    {
        let key = clone_addr(&addr);
        let ghost before = self.endpoints@;
        self.put(addr, Some(Receiver::new(ProfileValue::empty())));
        proof {
            lemma_profile_put_found(before, self.endpoints@, &addr);
        }
        ProfileSender { addr: key }
    }

    /// Configures `addr` to carry the given profile snapshot.
    pub fn profile(self, addr: Addr, profile: ProfileValue) -> (r: Profiles)
        ensures
            r.only == self.only,
            spec_profile_idx_from(r.endpoints@, &addr, 0) >= 0,
    {
        let mut me = self;
        let ghost before = me.endpoints@;
        me.put(addr, Some(Receiver::new(profile)));
        proof {
            lemma_profile_put_found(before, me.endpoints@, &addr);
        }
        me
    }

    /// Configures `addr` to have no profile.
    pub fn no_profile(self, addr: Addr) -> (r: Profiles)
        ensures
            r.only == self.only,
            spec_profile_idx_from(r.endpoints@, &addr, 0) >= 0,
    {
        let mut me = self;
        let ghost before = me.endpoints@;
        me.put(addr, None);
        proof {
            lemma_profile_put_found(before, me.endpoints@, &addr);
        }
        me
    }

    /// Serves one lookup: a configured address hands out its entry and
    /// leaves the table; an unconfigured one marks the resolver and
    /// answers with no profile.
    pub fn lookup(&mut self, addr: &Addr) -> (r: Option<Receiver>)
        ensures
            ({
                let i = spec_profile_idx_from(old(self).endpoints@, addr, 0);
                if i >= 0 {
                    &&& final(self).only == old(self).only
                    &&& final(self).endpoints@ == old(self).endpoints@.remove(i)
                    &&& r == old(self).endpoints@[i].1
                } else {
                    &&& !final(self).only
                    &&& final(self).endpoints@ == old(self).endpoints@
                    &&& r is None
                }
            }),
    {
        match self.find_addr(addr) {
            Some(i) => {
                let (_key, value) = self.endpoints.remove(i);
                value
            },
            None => {
                self.only = false;
                None
            },
        }
    }
}

impl ProfileSender {
    /// Replaces the snapshot behind the sender's address with `next`;
    /// fails once the profile has been looked up and taken away, or when
    /// the address was configured with no profile.
    pub fn send(&self, profiles: &mut Profiles, next: ProfileValue) -> (r: Result<(), SendFailed>)
        ensures
            final(profiles).only == old(profiles).only,
            ({
                let i = spec_profile_idx_from(old(profiles).endpoints@, &self.addr, 0);
                if i >= 0 && (old(profiles).endpoints@[i].1 matches Some(rx)
                    && rx.generation < u64::MAX) {
                    &&& r is Ok
                    &&& final(profiles).endpoints@.len() == old(profiles).endpoints@.len()
                    &&& final(profiles).endpoints@[i].1 matches Some(rx2) && (old(profiles).endpoints@[i].1 matches Some(rx) && rx2.current == next && rx2.generation
                        == rx.generation + 1)
                } else {
                    &&& r == Err::<(), SendFailed>(SendFailed)
                    &&& final(profiles).endpoints@ == old(profiles).endpoints@
                }
            }),
    {
        match profiles.find_addr(&self.addr) {
            Some(i) => {
                let (key, value) = profiles.endpoints.remove(i);
                match value {
                    Some(mut rx) => {
                        if rx.generation == u64::MAX {
                            profiles.endpoints.insert(i, (key, Some(rx)));
                            proof {
                                assert(profiles.endpoints@ =~= old(profiles).endpoints@);
                            }
                            return Err(SendFailed);
                        }
                        rx.update(next);
                        profiles.endpoints.insert(i, (key, Some(rx)));
                        Ok(())
                    },
                    None => {
                        profiles.endpoints.insert(i, (key, None));
                        proof {
                            assert(profiles.endpoints@ =~= old(profiles).endpoints@);
                        }
                        Err(SendFailed)
                    },
                }
            },
            None => Err(SendFailed),
        }
    }
}

/// A copy of a destination key.
pub fn clone_addr(a: &Addr) -> (r: Addr)
    ensures
        spec_addr_eq(&r, a),
{
    match a {
        Addr::Sock(sa) => Addr::Sock(*sa),
        Addr::Name(na) => Addr::Name(NameAddr { host: clone_bytes(&na.host), port: na.port }),
    }
}

/// After a put of `addr`, the table holds `addr`.
proof fn lemma_profile_put_found<V>(before: Seq<(Addr, V)>, after: Seq<(Addr, V)>, addr: &Addr)
    requires
        ({
            let i = spec_profile_idx_from(before, addr, 0);
            if i >= 0 {
                exists|v: V| after == before.update(i, (*addr, v))
            } else {
                exists|v: V| after == before.push((*addr, v))
            }
        }),
    ensures
        spec_profile_idx_from(after, addr, 0) >= 0,
{
    lemma_profile_idx_meaning(before, addr, 0);
    let i = spec_profile_idx_from(before, addr, 0);
    if i >= 0 {
        let v = choose|v: V| after == before.update(i, (*addr, v));
        lemma_profile_idx_meaning(after, addr, 0);
        if spec_profile_idx_from(after, addr, 0) == -1 {
            assert(!spec_addr_eq(&after[i].0, addr));
            assert(after[i].0 == *addr);
            lemma_addr_eq_refl(addr);
        }
    } else {
        let v = choose|v: V| after == before.push((*addr, v));
        lemma_profile_idx_meaning(after, addr, 0);
        if spec_profile_idx_from(after, addr, 0) == -1 {
            assert(!spec_addr_eq(&after[before.len() as int].0, addr));
            assert(after[before.len() as int].0 == *addr);
            lemma_addr_eq_refl(addr);
        }
    }
}

/// Key equality is reflexive.
proof fn lemma_addr_eq_refl(a: &Addr)
    ensures
        spec_addr_eq(a, a),
{
}

/// What a found index means, and what -1 means.
proof fn lemma_dst_idx_meaning<E>(s: Seq<(NameAddr, E)>, k: &NameAddr, from: int)
    requires
        from >= 0,
    ensures
        ({
            let i = spec_dst_idx_from(s, k, from);
            if i == -1 {
                forall|j: int| from <= j < s.len() ==> !spec_name_eq(&s[j].0, k)
            } else {
                from <= i < s.len() && spec_name_eq(&s[i].0, k)
            }
        }),
    decreases s.len() - from,
{
    if from >= s.len() {
    } else if spec_name_eq(&s[from].0, k) {
    } else {
        lemma_dst_idx_meaning(s, k, from + 1);
    }
}

/// What a found index means, and what -1 means.
proof fn lemma_profile_idx_meaning<V>(s: Seq<(Addr, V)>, k: &Addr, from: int)
    requires
        from >= 0,
    ensures
        ({
            let i = spec_profile_idx_from(s, k, from);
            if i == -1 {
                forall|j: int| from <= j < s.len() ==> !spec_addr_eq(&s[j].0, k)
            } else {
                from <= i < s.len() && spec_addr_eq(&s[i].0, k)
            }
        }),
    decreases s.len() - from,
{
    if from >= s.len() {
    } else if spec_addr_eq(&s[from].0, k) {
    } else {
        lemma_profile_idx_meaning(s, k, from + 1);
    }
}

} // verus!
