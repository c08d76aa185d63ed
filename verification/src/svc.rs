//! The service kernel: the stack and layer combinators the proxy is
//! assembled from, and the glue layers around a service — concurrency
//! limiting, load shedding, timeouts, and a bounded FIFO buffer.

use crate::pending::MakePending;
use vstd::prelude::*;

verus! {

/// The errors the glue layers surface.
#[derive(Clone, Copy, Debug, PartialEq, Eq, Structural)]
pub enum SvcError {
    /// A builder failed to produce a service.
    Construction,
    /// Load shedding failed the request fast: the service was not ready.
    Overloaded,
    /// A layer's deadline expired before the inner future finished.
    DeadlineExceeded,
}

/// A service or a wrapped one: the tagged output of a conditional layer.
pub enum Either<A, B> {
    A(A),
    B(B),
}

/// A pair of layers, applied inner-to-outer.
#[derive(Clone, Copy, Debug)]
pub struct Pair<L, O> {
    pub inner: L,
    pub outer: O,
}

/// The layer that changes nothing.
#[derive(Clone, Copy, Debug)]
pub struct IdentityLayer;

/// An ordered collection of layers.
#[derive(Clone, Copy, Debug)]
pub struct Layers<L>(pub L);

/// A stack of services under construction.
#[derive(Clone, Copy, Debug)]
pub struct Stack<S>(pub S);

/// An ordered collection of per-request proxies.
#[derive(Clone, Copy, Debug)]
pub struct Proxies<P>(pub P);

/// An empty collection of layers.
pub fn layers() -> Layers<IdentityLayer> {
    Layers(IdentityLayer)
}

/// A stack around an innermost service.
pub fn stack<S>(inner: S) -> (r: Stack<S>)
    ensures
        r.0 == inner,
{
    Stack(inner)
}

impl<L> Layers<L> {
    /// Adds an outer layer; it will wrap everything pushed before it.
    pub fn push<O>(self, outer: O) -> (r: Layers<Pair<L, O>>)
        ensures
            r.0.inner == self.0,
            r.0.outer == outer,
    {
        Layers(Pair { inner: self.0, outer })
    }

    /// Adds the pending-service layer.
    pub fn push_pending(self) -> (r: Layers<Pair<L, crate::pending::Layer>>)
        ensures
            r.0.inner == self.0,
    {
        self.push(crate::pending::layer())
    }

    /// Adds a bounded buffer in front of the stack built so far.
    pub fn push_buffer(self, bound: usize) -> (r: Layers<Pair<L, BufferLayer>>)
        ensures
            r.0.inner == self.0,
            r.0.outer.bound == bound,
    {
        self.push(BufferLayer { bound })
    }
}

/// The layer that puts a bounded buffer in front of a service.
#[derive(Clone, Copy, Debug)]
pub struct BufferLayer {
    pub bound: usize,
}

/// A maker whose built services sit behind a bounded buffer.
pub struct MakeBuffer<S> {
    pub inner: S,
    pub bound: usize,
}

impl<S> Stack<S> {
    /// Wraps the stack so its services are handed out as pending
    /// handles while their construction is in progress.
    pub fn push_pending(self) -> (r: Stack<MakePending<S>>)
        ensures
            r.0.inner == self.0,
    {
        Stack(MakePending { inner: self.0 })
    }

    /// Puts a bounded buffer in front of the stack's services.
    pub fn push_buffer(self, bound: usize) -> (r: Stack<MakeBuffer<S>>)
        ensures
            r.0.inner == self.0,
            r.0.bound == bound,
    {
        Stack(MakeBuffer { inner: self.0, bound })
    }

    /// Limits how many requests may be in flight at once.
    pub fn push_concurrency_limit(self, max: usize) -> (r: Stack<ConcurrencyLimit<S>>)
        ensures
            r.0.inner == self.0,
            r.0.max == max,
            r.0.in_flight == 0,
    {
        Stack(ConcurrencyLimit { inner: self.0, max, in_flight: 0 })
    }

    /// Fails fast instead of queueing when the inner service is not
    /// ready.
    pub fn push_load_shed(self) -> (r: Stack<LoadShed<S>>)
        ensures
            r.0.inner == self.0,
    {
        Stack(LoadShed { inner: self.0 })
    }

    /// Races each inner response against a deadline.
    pub fn push_timeout(self, deadline_ms: u64) -> (r: Stack<Timeout<S>>)
        ensures
            r.0.inner == self.0,
            r.0.deadline_ms == deadline_ms,
    {
        Stack(Timeout { inner: self.0, deadline_ms })
    }

    /// The assembled stack.
    pub fn into_inner(self) -> (r: S)
        ensures
            r == self.0,
    {
        self.0
    }
}

/// Concurrency limiting: readiness is granted while fewer than `max`
/// requests are in flight; each dispatch takes a slot and each finished
/// response releases it.
pub struct ConcurrencyLimit<S> {
    pub inner: S,
    pub max: usize,
    pub in_flight: usize,
}

impl<S> ConcurrencyLimit<S> {
    /// Ready exactly when a slot is free and the inner service is ready.
    pub fn poll_ready(&self, inner_ready: crate::PollReady) -> (r: crate::PollReady)
        ensures
            r is Ready <==> (self.in_flight < self.max && inner_ready is Ready),
    {
        if self.in_flight < self.max && inner_ready.is_ready() {
            crate::PollReady::Ready
        } else {
            crate::PollReady::NotReady
        }
    }

    /// Dispatches one request, taking a slot.
    pub fn call(&mut self)
        requires
            old(self).in_flight < old(self).max,
        ensures
            final(self).in_flight == old(self).in_flight + 1,
            final(self).max == old(self).max,
            final(self).inner == old(self).inner,
    {
        self.in_flight = self.in_flight + 1;
    }

    /// A response finished (or its future was dropped): the slot is
    /// released.
    pub fn release(&mut self)
        requires
            old(self).in_flight > 0,
        ensures
            final(self).in_flight == old(self).in_flight - 1,
            final(self).max == old(self).max,
            final(self).inner == old(self).inner,
    {
        self.in_flight = self.in_flight - 1;
    }
}

/// Load shedding: a call made while the inner service is not ready is
/// failed at once with `Overloaded` instead of queueing.
pub struct LoadShed<S> {
    pub inner: S,
}

impl<S> LoadShed<S> {
    /// Dispatches or sheds: succeeds exactly when the inner service is
    /// ready.
    pub fn try_call(&self, inner_ready: crate::PollReady) -> (r: Result<(), SvcError>)
        ensures
            inner_ready is Ready <==> r is Ok,
            !(inner_ready is Ready) ==> r == Result::<(), SvcError>::Err(SvcError::Overloaded),
    {
        match inner_ready {
            crate::PollReady::Ready => Ok(()),
            crate::PollReady::NotReady => Err(SvcError::Overloaded),
        }
    }
}

/// A deadline around each inner response.
pub struct Timeout<S> {
    pub inner: S,
    pub deadline_ms: u64,
}

/// Outcome of racing an inner response against a deadline.
pub enum TimeoutPoll<R> {
    /// The inner response arrived in time.
    Done(R),
    /// Neither the response nor the deadline yet.
    Pending,
    /// The deadline expired first.
    Expired(SvcError),
}

impl<S> Timeout<S> {
    /// One poll of the race: the response wins when it is there; the
    /// deadline fails the request once `elapsed_ms` reaches it.
    pub fn poll_result<R>(&self, inner: Option<R>, elapsed_ms: u64) -> (r: TimeoutPoll<R>)
        ensures
            match inner {
                Some(resp) => r == TimeoutPoll::<R>::Done(resp),
                None => if elapsed_ms >= self.deadline_ms {
                    r == TimeoutPoll::<R>::Expired(SvcError::DeadlineExceeded)
                } else {
                    r is Pending
                },
            },
    {
        match inner {
            Some(resp) => TimeoutPoll::Done(resp),
            None => {
                if elapsed_ms >= self.deadline_ms {
                    TimeoutPoll::Expired(SvcError::DeadlineExceeded)
                } else {
                    TimeoutPoll::Pending
                }
            },
        }
    }
}

/// A bounded FIFO buffer in front of a service: producers enqueue while
/// there is room, and the driver drains from the front, so enqueue order
/// is preserved.
pub struct Buffer<Req> {
    queue: Vec<Req>,
    bound: usize,
}

impl<Req> Buffer<Req> {
    /// The queued requests, oldest first.
    pub closed spec fn queued(self) -> Seq<Req> {
        self.queue@
    }

    /// The capacity the buffer was made with.
    pub closed spec fn capacity(self) -> usize {
        self.bound
    }

    pub fn new(bound: usize) -> (r: Buffer<Req>)
        ensures
            r.queued().len() == 0,
            r.capacity() == bound,
    {
        Buffer { queue: Vec::new(), bound }
    }

    /// Enqueues a request at the back; backpressure surfaces as the
    /// request handed back when the buffer is full.
    pub fn push(&mut self, req: Req) -> (r: Result<(), Req>)
        ensures
            final(self).capacity() == old(self).capacity(),
            old(self).queued().len() < old(self).capacity() ==> r is Ok && final(self).queued()
                == old(self).queued().push(req),
            old(self).queued().len() >= old(self).capacity() ==> r == Result::<(), Req>::Err(req)
                && final(self).queued() == old(self).queued(),
    {
        if self.queue.len() < self.bound {
            self.queue.push(req);
            Ok(())
        } else {
            Err(req)
        }
    }

    /// Takes the oldest request, when there is one.
    pub fn pop(&mut self) -> (r: Option<Req>)
        ensures
            final(self).capacity() == old(self).capacity(),
            old(self).queued().len() == 0 ==> r is None && final(self).queued() == old(
                self,
            ).queued(),
            old(self).queued().len() > 0 ==> match r {
                Some(req) => req == old(self).queued()[0] && final(self).queued() == old(
                    self,
                ).queued().drop_first(),
                None => false,
            },
    {
        if self.queue.len() == 0 {
            None
        } else {
            let req = self.queue.remove(0);
            proof {
                assert(self.queue@ =~= old(self).queue@.drop_first());
            }
            Some(req)
        }
    }
}

} // verus!
