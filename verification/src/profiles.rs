//! Service profiles: routes, response classes and traffic splits.
//!
//! A profile is a live snapshot for a named logical destination.  Routes
//! are matched first-match in insertion order; the traffic split carries
//! integer weights.  A receiver hands out the latest snapshot and counts
//! generations, so a request that started on one snapshot keeps it while
//! later requests see the newer one.

use crate::addr::NameAddr;
use vstd::prelude::*;

verus! {

/// A response classification rule: statuses in `status_min..=status_max`
/// count as failures when `is_failure` is set.
#[derive(Clone, Copy, Debug, PartialEq, Eq, Structural)]
pub struct ResponseClass {
    pub status_min: u16,
    pub status_max: u16,
    pub is_failure: bool,
}

/// How a route matches a request: an optional exact method and a path
/// prefix.
#[derive(Clone, Debug, PartialEq, Eq)]
pub struct RequestMatch {
    pub method: Option<Vec<u8>>,
    pub path_prefix: Vec<u8>,
}

/// The parts of a request a route looks at.
#[derive(Clone, Debug, PartialEq, Eq)]
pub struct RequestMeta {
    pub method: Vec<u8>,
    pub path: Vec<u8>,
}

/// Whether `s` starts with `p`.
pub open spec fn spec_starts_with(s: Seq<u8>, p: Seq<u8>) -> bool {
    p.len() <= s.len() && s.take(p.len() as int) == p
}

/// Whether `s` starts with `p`.
pub fn starts_with(s: &Vec<u8>, p: &Vec<u8>) -> (r: bool)
    ensures
        r == spec_starts_with(s@, p@),
{
    if p.len() > s.len() {
        return false;
    }
    let mut i: usize = 0;
    while i < p.len()
        invariant
            i <= p@.len() <= s@.len(),
            forall|j: int| 0 <= j < i ==> s@[j] == p@[j],
        decreases p@.len() - i,
    {
        if s[i] != p[i] {
            proof {
                assert(s@.take(p@.len() as int)[i as int] == s@[i as int]);
                assert(s@.take(p@.len() as int) != p@);
            }
            return false;
        }
        i = i + 1;
    }
    proof {
        assert(s@.take(p@.len() as int) =~= p@);
    }
    true
}

impl RequestMatch {
    /// Whether the request matches: the method is unconstrained or equal,
    /// and the path starts with the prefix.
    pub open spec fn spec_matches(&self, req: &RequestMeta) -> bool {
        &&& match self.method {
            Some(m) => m@ == req.method@,
            None => true,
        }
        &&& spec_starts_with(req.path@, self.path_prefix@)
    }

    /// Whether the request matches this rule.
    pub fn matches(&self, req: &RequestMeta) -> (r: bool)
        ensures
            r == self.spec_matches(req),
    {
        let method_ok = match &self.method {
            Some(m) => crate::addr::bytes_eq(m, &req.method),
            None => true,
        };
        method_ok && starts_with(&req.path, &self.path_prefix)
    }
}

/// One route of a profile: its matcher, response classes, per-route
/// timeout and retry policy.
#[derive(Clone, Debug, PartialEq, Eq)]
pub struct RouteSpec {
    pub matcher: RequestMatch,
    pub response_classes: Vec<ResponseClass>,
    pub timeout_ms: Option<u64>,
    pub retryable: bool,
}

/// The first route that matches the request, in insertion order.
pub fn match_route(routes: &Vec<RouteSpec>, req: &RequestMeta) -> (r: Option<usize>)
    ensures
        match r {
            Some(i) => i < routes@.len() && routes@[i as int].matcher.spec_matches(req) && forall|
                j: int,
            | 0 <= j < i ==> !routes@[j].matcher.spec_matches(req),
            None => forall|j: int| 0 <= j < routes@.len() ==> !routes@[j].matcher.spec_matches(req),
        },
{
    let mut i: usize = 0;
    while i < routes.len()
        invariant
            i <= routes@.len(),
            forall|j: int| 0 <= j < i ==> !routes@[j].matcher.spec_matches(req),
        decreases routes@.len() - i,
    {
        if routes[i].matcher.matches(req) {
            return Some(i);
        }
        i = i + 1;
    }
    None
}

/// A profile snapshot: optional canonical name, the logical address it
/// resolved to, ordered routes, the weighted split, and whether the
/// destination speaks an opaque protocol.
#[derive(Clone, Debug, PartialEq, Eq)]
pub struct ProfileValue {
    pub name: Option<Vec<u8>>,
    pub logical_addr: Option<NameAddr>,
    pub routes: Vec<RouteSpec>,
    pub split: Vec<(NameAddr, u32)>,
    pub opaque_protocol: bool,
}

impl ProfileValue {
    /// The empty profile: no name, no routes, no split.
    pub fn empty() -> (r: ProfileValue)
        ensures
            r.name is None,
            r.logical_addr is None,
            r.routes@.len() == 0,
            r.split@.len() == 0,
            !r.opaque_protocol,
    {
        ProfileValue {
            name: None,
            logical_addr: None,
            routes: Vec::new(),
            split: Vec::new(),
            opaque_protocol: false,
        }
    }
}

/// A watch on a profile: the latest snapshot and its generation.  A
/// request that read one snapshot keeps that value even after a newer
/// generation arrives.
#[derive(Clone, Debug, PartialEq, Eq)]
pub struct Receiver {
    pub current: ProfileValue,
    pub generation: u64,
}

impl Receiver {
    /// A receiver starting from the given snapshot.
    pub fn new(initial: ProfileValue) -> (r: Receiver)
        ensures
            r.current == initial,
            r.generation == 0,
    {
        Receiver { current: initial, generation: 0 }
    }

    /// The latest snapshot.
    pub fn borrow(&self) -> (r: &ProfileValue)
        ensures
            r == self.current,
    {
        &self.current
    }

    /// Replaces the snapshot with a newer generation.
    pub fn update(&mut self, next: ProfileValue)
        requires
            old(self).generation < u64::MAX,
        ensures
            final(self).current == next,
            final(self).generation == old(self).generation + 1,
    {
        self.current = next;
        self.generation = self.generation + 1;
    }
}

} // verus!
