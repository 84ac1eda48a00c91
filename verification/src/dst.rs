//! The route key: a matched route joined with its logical target, used
//! for per-route metrics and response classification.

use crate::addr::NameAddr;
use crate::profiles::ResponseClass;
use crate::profiles::RouteSpec;
use vstd::prelude::*;

verus! {

/// Which side of the proxy a route serves.
#[derive(Clone, Copy, Debug, PartialEq, Eq, Hash, Structural)]
pub enum Direction {
    In,
    Out,
}

/// A value-typed join of a logical target and a matched route.
#[derive(Clone, Debug, PartialEq, Eq)]
pub struct Route {
    pub addr: NameAddr,
    pub route: RouteSpec,
    pub direction: Direction,
}

impl Route {
    /// An outbound route key.
    pub fn outbound(route: RouteSpec, addr: NameAddr) -> (r: Route)
        ensures
            r.route == route,
            r.addr == addr,
            r.direction == Direction::Out,
    {
        Route { route, addr, direction: Direction::Out }
    }

    /// An inbound route key.
    pub fn inbound(route: RouteSpec, addr: NameAddr) -> (r: Route)
        ensures
            r.route == route,
            r.addr == addr,
            r.direction == Direction::In,
    {
        Route { route, addr, direction: Direction::In }
    }

    /// The response classes a response on this route is judged by.
    pub fn classify(&self) -> (r: &Vec<ResponseClass>)
        ensures
            r == self.route.response_classes,
    {
        &self.route.response_classes
    }

    /// The per-route timeout, if the route sets one.
    pub fn timeout(&self) -> (r: Option<u64>)
        ensures
            r == self.route.timeout_ms,
    {
        self.route.timeout_ms
    }
}

} // verus!
