//! The pending-service adapter: a service handle that exists before its
//! asynchronous construction has finished. The handle starts out making;
//! a readiness poll drives the construction, and once made it stays made.

use crate::PollReady;
use vstd::prelude::*;

verus! {

/// What one poll of the constructor observed.
pub enum ConstructorPoll<S> {
    /// The constructor has not produced the service yet.
    NotReady,
    /// The constructor produced the service.
    Ready(S),
    /// The constructor failed; the handle surfaces the error.
    Failed,
}

/// Outcome of polling a pending service for readiness.
#[derive(Clone, Copy, Debug, PartialEq, Eq, Structural)]
pub enum PendingPoll {
    Ready,
    NotReady,
    /// Construction failed.
    Failed,
}

/// A service handle whose construction may still be in progress.
pub enum Pending<F, S> {
    /// The constructor `F` is still running.
    Making(F),
    /// The service was produced.
    Made(S),
}

/// The layer that wraps a maker so its services are handed out as
/// pending handles.
#[derive(Clone, Copy, Debug)]
pub struct Layer;

/// A maker whose built services are pending handles.
pub struct MakePending<M> {
    pub inner: M,
}

pub fn layer() -> Layer {
    Layer
}

impl Layer {
    /// Wraps a maker.
    pub fn layer<M>(&self, inner: M) -> (r: MakePending<M>)
        ensures
            r.inner == inner,
    {
        MakePending { inner }
    }
}

impl<M> MakePending<M> {
    /// Hands back a service handle at once, with the construction
    /// `fut` still pending.
    pub fn make<F, S>(&self, fut: F) -> (r: Pending<F, S>)
        ensures
            r == Pending::<F, S>::Making(fut),
    {
        Pending::Making(fut)
    }
}

impl<F, S> Pending<F, S> {
    /// One readiness poll, fed with what the constructor and (once made)
    /// the service report. A handle that is made stays made, with the
    /// same service; a handle that is making becomes made exactly when
    /// the constructor delivers.
    pub fn poll_ready(&mut self, fut: ConstructorPoll<S>, inner_ready: PollReady) -> (r:
        PendingPoll)
        ensures
            *old(self) is Made ==> *final(self) == *old(self),
            match *old(self) {
                Pending::Made(_) => r == (if inner_ready is Ready {
                    PendingPoll::Ready
                } else {
                    PendingPoll::NotReady
                }),
                Pending::Making(_) => match fut {
                    ConstructorPoll::NotReady => *final(self) == *old(self) && r
                        == PendingPoll::NotReady,
                    ConstructorPoll::Failed => *final(self) == *old(self) && r
                        == PendingPoll::Failed,
                    ConstructorPoll::Ready(svc) => *final(self) == Pending::<F, S>::Made(svc) && r
                        == (if inner_ready is Ready {
                        PendingPoll::Ready
                    } else {
                        PendingPoll::NotReady
                    }),
                },
            },
    {
        let making = match self {
            Pending::Making(_) => true,
            Pending::Made(_) => false,
        };
        if making {
            match fut {
                ConstructorPoll::NotReady => {
                    return PendingPoll::NotReady;
                },
                ConstructorPoll::Failed => {
                    return PendingPoll::Failed;
                },
                ConstructorPoll::Ready(svc) => {
                    *self = Pending::Made(svc);
                },
            }
        }
        match inner_ready {
            PollReady::Ready => PendingPoll::Ready,
            PollReady::NotReady => PendingPoll::NotReady,
        }
    }

    /// The made service, for dispatching a call. Calling before the
    /// handle is made is a caller error, so the handle must be made.
    pub fn call(&mut self) -> (r: &S)
        requires
            *old(self) is Made,
        ensures
            *final(self) == *old(self),
            match *old(self) {
                Pending::Made(s) => *r == s,
                Pending::Making(_) => false,
            },
    {
        match self {
            Pending::Made(s) => s,
            Pending::Making(_) => vstd::pervasive::unreached(),
        }
    }
}

} // verus!
