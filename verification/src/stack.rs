//! Stack combinators: the small middleware machines every pipeline is
//! assembled from.
//!
//! Readiness here is a value fed in by the runtime; each combinator is a
//! state machine over it.  Fail-fast sheds pending calls once the inner
//! stack has been unready past its timeout, the concurrency limit caps
//! in-flight calls, and the spawn buffer decouples caller and callee
//! through a bounded first-in-first-out queue.

use crate::errors::ErrorKind;
use vstd::prelude::*;

verus! {

/// One of two services chosen at build time.
#[derive(Clone, Copy, Debug, PartialEq, Eq)]
pub enum Either<A, B> {
    A(A),
    B(B),
}

/// Builds from the optional alternate factory when it is present, else
/// from the inner one.
#[derive(Clone, Debug)]
pub struct NewOptional<N, O> {
    pub inner: N,
    pub opt: Option<O>,
}

/// A layer holding the optional alternate until an inner stack arrives.
#[derive(Clone, Debug)]
pub struct NewOptionalLayer<O> {
    pub opt: Option<O>,
}

impl<N, O> NewOptional<N, O> {
    /// A factory choosing between `inner` and an optional alternate.
    pub fn new(inner: N, opt: Option<O>) -> (r: NewOptional<N, O>)
        ensures
            r.inner == inner,
            r.opt == opt,
    {
        NewOptional { inner, opt }
    }

    /// The layer form, holding the optional alternate.
    pub fn layer(opt: Option<O>) -> (r: NewOptionalLayer<O>)
        ensures
            r.opt == opt,
    {
        NewOptionalLayer { opt }
    }

    /// Builds for one target: the alternate serves when present.
    pub fn new_service(self) -> (r: Either<N, O>)
        ensures
            match self.opt {
                Some(o) => r == Either::<N, O>::B(o),
                None => r == Either::<N, O>::A(self.inner),
            },
    {
        match self.opt {
            Some(o) => Either::B(o),
            None => Either::A(self.inner),
        }
    }
}

/// Layers background readiness driving onto a factory's services.
#[derive(Clone, Copy, Debug, Default, PartialEq, Eq, Structural)]
pub struct SpawnReadyLayer;

impl SpawnReadyLayer {
    /// The layer that drives readiness on a background task.
    pub fn new() -> (r: SpawnReadyLayer)
        ensures
            r == SpawnReadyLayer,
    {
        SpawnReadyLayer
    }

    /// Wraps a factory so each built service is driven in the background.
    pub fn layer<S>(&self, service: S) -> (r: MakeSpawnReady<S>)
        ensures
            r.inner == service,
    {
        MakeSpawnReady { inner: service }
    }
}

/// Builds background-driven services with the result of an inner factory.
#[derive(Clone, Debug)]
pub struct MakeSpawnReady<S> {
    pub inner: S,
}

impl<S> MakeSpawnReady<S> {
    /// A factory wrapping `service`.
    pub fn new(service: S) -> (r: MakeSpawnReady<S>)
        ensures
            r.inner == service,
    {
        MakeSpawnReady { inner: service }
    }

    /// Builds for one target by handing the target to the inner factory's
    /// pending build.
    pub fn call(self) -> (r: MakeFuture<S>)
        ensures
            r.inner == self.inner,
    {
        MakeFuture { inner: self.inner }
    }
}

/// The pending build of a background-driven service.
#[derive(Clone, Debug)]
pub struct MakeFuture<F> {
    pub inner: F,
}

/// What a combinator tells its caller about one poll.
#[derive(Clone, Copy, Debug, PartialEq, Eq, Structural)]
pub enum Poll {
    /// The stack accepts one more call.
    Ready,
    /// The caller waits.
    Pending,
    /// The call is shed with the given error.
    Shed(ErrorKind),
}

/// The fail-fast state: how long the inner stack has been unready.
#[derive(Clone, Copy, Debug, PartialEq, Eq, Structural)]
pub enum FailFastState {
    /// The inner stack was ready at the last poll.
    Ready,
    /// Unready since the given instant, still within the timeout.
    Waiting(u64),
    /// Unready past the timeout: pending calls fail until ready again.
    Failing,
}

/// Fails pending calls once the inner stack has been unready for the
/// configured timeout, so callers are load-shed promptly.
#[derive(Clone, Copy, Debug, PartialEq, Eq, Structural)]
pub struct FailFast {
    pub timeout_ms: u64,
    pub state: FailFastState,
}

impl FailFast {
    /// A fail-fast switch in its ready state.
    pub fn new(timeout_ms: u64) -> (r: FailFast)
        ensures
            r.timeout_ms == timeout_ms,
            r.state == FailFastState::Ready,
    {
        FailFast { timeout_ms, state: FailFastState::Ready }
    }

    /// One readiness poll at `now`: a ready inner stack resets the switch;
    /// an unready one starts or continues the wait, and once the wait
    /// reaches the timeout every pending call is shed with the fail-fast
    /// error until the inner stack is ready again.
    pub fn poll(&mut self, now: u64, inner_ready: bool) -> (r: Poll)
        requires
            old(self).state matches FailFastState::Waiting(since) ==> since <= now,
        ensures
            final(self).timeout_ms == old(self).timeout_ms,
            if inner_ready {
                final(self).state == FailFastState::Ready && r == Poll::Ready
            } else {
                match old(self).state {
                    FailFastState::Ready => final(self).state == FailFastState::Waiting(now) && r
                        == Poll::Pending,
                    FailFastState::Waiting(since) => {
                        if now - since >= old(self).timeout_ms {
                            final(self).state == FailFastState::Failing && r == Poll::Shed(
                                ErrorKind::FailFast,
                            )
                        } else {
                            final(self).state == old(self).state && r == Poll::Pending
                        }
                    },
                    FailFastState::Failing => final(self).state == FailFastState::Failing && r
                        == Poll::Shed(ErrorKind::FailFast),
                }
            },
    {
        if inner_ready {
            self.state = FailFastState::Ready;
            return Poll::Ready;
        }
        match self.state {
            FailFastState::Ready => {
                self.state = FailFastState::Waiting(now);
                Poll::Pending
            },
            FailFastState::Waiting(since) => {
                if now - since >= self.timeout_ms {
                    self.state = FailFastState::Failing;
                    Poll::Shed(ErrorKind::FailFast)
                } else {
                    Poll::Pending
                }
            },
            FailFastState::Failing => Poll::Shed(ErrorKind::FailFast),
        }
    }
}

/// Caps the number of in-flight calls.
#[derive(Clone, Copy, Debug, PartialEq, Eq, Structural)]
pub struct ConcurrencyLimit {
    pub max: usize,
    pub in_flight: usize,
}

impl ConcurrencyLimit {
    /// The cap never admits more than `max` calls.
    pub open spec fn wf(&self) -> bool {
        self.in_flight <= self.max
    }

    /// An idle limiter.
    pub fn new(max: usize) -> (r: ConcurrencyLimit)
        ensures
            r.max == max,
            r.in_flight == 0,
            r.wf(),
    {
        ConcurrencyLimit { max, in_flight: 0 }
    }

    /// Admits one call while under the cap; at the cap the call is shed.
    pub fn acquire(&mut self) -> (r: Poll)
        requires
            old(self).wf(),
        ensures
            final(self).wf(),
            final(self).max == old(self).max,
            if old(self).in_flight < old(self).max {
                final(self).in_flight == old(self).in_flight + 1 && r == Poll::Ready
            } else {
                final(self).in_flight == old(self).in_flight && r == Poll::Shed(
                    ErrorKind::LoadShed,
                )
            },
    {
        if self.in_flight < self.max {
            self.in_flight = self.in_flight + 1;
            Poll::Ready
        } else {
            Poll::Shed(ErrorKind::LoadShed)
        }
    }

    /// Releases one finished call.
    pub fn release(&mut self)
        requires
            old(self).wf(),
            old(self).in_flight > 0,
        ensures
            final(self).wf(),
            final(self).max == old(self).max,
            final(self).in_flight == old(self).in_flight - 1,
    {
        self.in_flight = self.in_flight - 1;
    }
}

/// A bounded first-in-first-out queue decoupling caller and callee: the
/// caller is ready while the queue has room, and the callee drains the
/// oldest item first.
#[derive(Clone, Debug)]
pub struct SpawnBuffer<T> {
    pub cap: usize,
    pub queue: Vec<T>,
}

impl<T> SpawnBuffer<T> {
    /// The queue never exceeds its capacity.
    pub open spec fn wf(&self) -> bool {
        self.queue@.len() <= self.cap
    }

    /// An empty buffer of the given capacity.
    pub fn new(cap: usize) -> (r: SpawnBuffer<T>)
        ensures
            r.cap == cap,
            r.queue@.len() == 0,
            r.wf(),
    {
        SpawnBuffer { cap, queue: Vec::new() }
    }

    /// Whether the caller may enqueue one more item.
    pub fn ready(&self) -> (r: bool)
        ensures
            r == (self.queue@.len() < self.cap),
    {
        self.queue.len() < self.cap
    }

    /// Enqueues an item at the back; a full buffer rejects it unchanged.
    pub fn push(&mut self, item: T) -> (r: Result<(), ErrorKind>)
        requires
            old(self).wf(),
        ensures
            final(self).wf(),
            final(self).cap == old(self).cap,
            if old(self).queue@.len() < old(self).cap {
                final(self).queue@ == old(self).queue@.push(item) && r == Ok::<(), ErrorKind>(())
            } else {
                final(self).queue@ == old(self).queue@ && r == Err::<(), ErrorKind>(
                    ErrorKind::LoadShed,
                )
            },
    {
        if self.queue.len() < self.cap {
            self.queue.push(item);
            Ok(())
        } else {
            Err(ErrorKind::LoadShed)
        }
    }

    /// Dequeues the oldest item, first in first out.
    pub fn pop(&mut self) -> (r: Option<T>)
        requires
            old(self).wf(),
        ensures
            final(self).wf(),
            final(self).cap == old(self).cap,
            match r {
                Some(item) => old(self).queue@.len() > 0 && item == old(self).queue@[0] && final(self).queue@ == old(self).queue@.skip(1),
                None => old(self).queue@.len() == 0 && final(self).queue@ == old(self).queue@,
            },
    {
        if self.queue.len() == 0 {
            return None;
        }
        let item = self.queue.remove(0);
        proof {
            assert(self.queue@ =~= old(self).queue@.skip(1));
        }
        Some(item)
    }
}

} // verus!
