//! Cooperative shutdown: stop accepting, let in-flight work finish
//! within a grace window, then close.

use vstd::prelude::*;

verus! {

/// Where a draining server stands.
#[derive(Clone, Copy, Debug, PartialEq, Eq, Structural)]
pub enum DrainState {
    /// Serving normally.
    Accepting,
    /// Signaled at the given instant: new work is rejected while
    /// in-flight work finishes.
    Draining(u64),
    /// Every task yielded, or the grace window closed.
    Closed,
}

/// The shared drain watch every spawned task registers with.
#[derive(Clone, Copy, Debug, PartialEq, Eq, Structural)]
pub struct Drain {
    pub grace_ms: u64,
    pub state: DrainState,
    pub in_flight: usize,
}

impl Drain {
    /// A serving watch with nothing in flight.
    pub fn new(grace_ms: u64) -> (r: Drain)
        ensures
            r.grace_ms == grace_ms,
            r.state == DrainState::Accepting,
            r.in_flight == 0,
    {
        Drain { grace_ms, state: DrainState::Accepting, in_flight: 0 }
    }

    /// Accepts one unit of work while serving; once signaled, new work is
    /// rejected.
    pub fn accept_work(&mut self) -> (accepted: bool)
        requires
            old(self).in_flight < usize::MAX,
        ensures
            final(self).grace_ms == old(self).grace_ms,
            final(self).state == old(self).state,
            if old(self).state == DrainState::Accepting {
                accepted && final(self).in_flight == old(self).in_flight + 1
            } else {
                !accepted && final(self).in_flight == old(self).in_flight
            },
    {
        match self.state {
            DrainState::Accepting => {
                self.in_flight = self.in_flight + 1;
                true
            },
            _ => false,
        }
    }

    /// Retires one finished unit of work.
    pub fn finish(&mut self)
        requires
            old(self).in_flight > 0,
        ensures
            final(self).grace_ms == old(self).grace_ms,
            final(self).state == old(self).state,
            final(self).in_flight == old(self).in_flight - 1,
    {
        self.in_flight = self.in_flight - 1;
    }

    /// The drain signal: stop accepting and start the grace window.
    pub fn signal(&mut self, now: u64)
        ensures
            final(self).grace_ms == old(self).grace_ms,
            final(self).in_flight == old(self).in_flight,
            final(self).state == (if old(self).state == DrainState::Accepting {
                DrainState::Draining(now)
            } else {
                old(self).state
            }),
    {
        match self.state {
            DrainState::Accepting => {
                self.state = DrainState::Draining(now);
            },
            _ => {},
        }
    }

    /// One shutdown poll: a draining watch closes when all in-flight work
    /// has finished or when the grace window has elapsed; otherwise it
    /// keeps waiting.
    pub fn poll_shutdown(&mut self, now: u64) -> (closed: bool)
        requires
            old(self).state matches DrainState::Draining(since) ==> since <= now,
        ensures
            final(self).grace_ms == old(self).grace_ms,
            final(self).in_flight == old(self).in_flight,
            match old(self).state {
                DrainState::Accepting => !closed && final(self).state == DrainState::Accepting,
                DrainState::Closed => closed && final(self).state == DrainState::Closed,
                DrainState::Draining(since) => {
                    if old(self).in_flight == 0 || now - since >= old(self).grace_ms {
                        closed && final(self).state == DrainState::Closed
                    } else {
                        !closed && final(self).state == old(self).state
                    }
                },
            },
    {
        match self.state {
            DrainState::Accepting => false,
            DrainState::Closed => true,
            DrainState::Draining(since) => {
                if self.in_flight == 0 || now - since >= self.grace_ms {
                    self.state = DrainState::Closed;
                    true
                } else {
                    false
                }
            },
        }
    }
}

} // verus!
