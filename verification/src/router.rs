//! The router: extracts a key from each request, asks a per-key builder
//! for the route's service, and dispatches the request on it exactly
//! once, only after observing its readiness.

use crate::PollReady;
use vstd::prelude::*;

verus! {

/// Key extraction: what of a request identifies its route.
pub trait Key<T> {
    type Key;

    /// What it means for `k` to be the key of `t`.
    spec fn key_matches(&self, t: &T, k: &Self::Key) -> bool;

    /// Extracts the key of `t`.
    fn key(&self, t: &T) -> (r: Self::Key)
        ensures
            self.key_matches(t, &r),
    ;
}

/// The layer that binds a key extractor in front of a route builder.
#[derive(Clone, Copy, Debug)]
pub struct Layer<K> {
    pub make_key: K,
}

/// A route-builder maker bound to a key extractor.
pub struct MakeRouter<K, M> {
    pub make_key: K,
    pub make_route: M,
}

/// The per-request router: a key extractor and the route builder.
pub struct Router<K, M> {
    pub key: K,
    pub make: M,
}

impl<K: Copy> Layer<K> {
    pub fn new(make_key: K) -> (r: Layer<K>)
        ensures
            r.make_key == make_key,
    {
        Layer { make_key }
    }

    /// Binds the key extractor in front of a route builder.
    pub fn layer<M>(&self, make_route: M) -> (r: MakeRouter<K, M>)
        ensures
            r.make_key == self.make_key,
            r.make_route == make_route,
    {
        MakeRouter { make_key: self.make_key, make_route }
    }
}

impl<K, M> MakeRouter<K, M> {
    /// The router for one connection.
    pub fn make(self) -> (r: Router<K, M>)
        ensures
            r.key == self.make_key,
            r.make == self.make_route,
    {
        Router { key: self.make_key, make: self.make_route }
    }
}

/// A one-shot dispatch: the request waits for the service's readiness
/// and is then dispatched, exactly once.
pub enum Oneshot<S, Req> {
    Waiting { svc: S, request: Req },
}

/// One step of a one-shot dispatch.
pub enum OneshotStep<S, Req> {
    /// The service was not ready; keep waiting.
    Pending(Oneshot<S, Req>),
    /// The service reported ready: dispatch the request on it now.
    Dispatch { svc: S, request: Req },
}

impl<S, Req> Oneshot<S, Req> {
    pub fn new(svc: S, request: Req) -> (r: Oneshot<S, Req>)
        ensures
            r == (Oneshot::Waiting { svc, request }),
    {
        Oneshot::Waiting { svc, request }
    }

    /// Drives the dispatch by one poll of the service's readiness: the
    /// request is handed over exactly when the service reported ready,
    /// and is kept unchanged until then.
    pub fn poll(self, ready: PollReady) -> (r: OneshotStep<S, Req>)
        ensures
            match self {
                Oneshot::Waiting { svc, request } => if ready is Ready {
                    r == (OneshotStep::Dispatch { svc, request })
                } else {
                    r == OneshotStep::Pending(self)
                },
            },
    {
        match self {
            Oneshot::Waiting { svc, request } => match ready {
                PollReady::Ready => OneshotStep::Dispatch { svc, request },
                PollReady::NotReady => OneshotStep::Pending(Oneshot::Waiting { svc, request }),
            },
        }
    }
}

/// The response future of one routed request: first the builder must
/// deliver the route's service, then the request is dispatched one-shot.
pub enum ResponseFuture<Req, S> {
    /// Waiting on the builder.
    Make { request: Req },
    /// Waiting on the service's readiness.
    Respond { oneshot: Oneshot<S, Req> },
}

impl<Req, S> ResponseFuture<Req, S> {
    /// The builder delivered the service: move to the dispatch phase,
    /// carrying the request unchanged.
    pub fn service_made(self, svc: S) -> (r: ResponseFuture<Req, S>)
        requires
            self is Make,
        ensures
            match self {
                ResponseFuture::Make { request } => r == (ResponseFuture::Respond {
                    oneshot: Oneshot::Waiting { svc, request },
                }),
                _ => false,
            },
    {
        match self {
            ResponseFuture::Make { request } => ResponseFuture::Respond {
                oneshot: Oneshot::Waiting { svc, request },
            },
            ResponseFuture::Respond { oneshot } => {
                proof {
                    assert(false);
                }
                ResponseFuture::Respond { oneshot }
            },
        }
    }

    /// Drives the dispatch phase by one readiness poll of the service.
    pub fn poll_respond(self, ready: PollReady) -> (r: OneshotStep<S, Req>)
        requires
            self is Respond,
        ensures
            match self {
                ResponseFuture::Respond { oneshot: Oneshot::Waiting { svc, request } } => if ready
                    is Ready {
                    r == (OneshotStep::Dispatch { svc, request })
                } else {
                    r == OneshotStep::Pending(Oneshot::Waiting { svc, request })
                },
                _ => false,
            },
    {
        match self {
            ResponseFuture::Respond { oneshot } => oneshot.poll(ready),
            ResponseFuture::Make { request } => {
                proof {
                    assert(false);
                }
                OneshotStep::Pending(Oneshot::Waiting { svc: vstd::pervasive::unreached(), request })
            },
        }
    }
}

impl<K, M> Router<K, M> {
    /// Routes one request: extracts its key (to hand to the builder) and
    /// opens the response future that will dispatch the request on the
    /// built service.
    pub fn call<T, S>(&self, request: T) -> (r: (K::Key, ResponseFuture<T, S>)) where K: Key<T>
        ensures
            self.key.key_matches(&request, &r.0),
            r.1 == (ResponseFuture::<T, S>::Make { request }),
    {
        let key = self.key.key(&request);
        (key, ResponseFuture::Make { request })
    }
}

} // verus!
