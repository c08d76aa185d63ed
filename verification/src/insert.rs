//! Request-extension insertion: wraps a service so that a value produced
//! per request is set in the request's extensions before the inner
//! service sees it.

pub mod target;

use vstd::prelude::*;

verus! {

/// Produces a value per request.
pub trait Lazy<V> {
    /// When the producer may run.
    spec fn lazy_requires(&self) -> bool;

    /// What holds of a produced value.
    spec fn lazy_ensures(&self, v: V) -> bool;

    fn value(&self) -> (r: V)
        requires
            self.lazy_requires(),
        ensures
            self.lazy_ensures(r),
    ;
}

/// Produces copies of one fixed value.
#[derive(Clone, Copy, Debug)]
pub struct ValLazy<V>(pub V);

/// Produces a value by calling a function each time.
#[derive(Clone, Copy, Debug)]
pub struct FnLazy<F>(pub F);

impl<V: Copy> Lazy<V> for ValLazy<V> {
    open spec fn lazy_requires(&self) -> bool {
        true
    }

    open spec fn lazy_ensures(&self, v: V) -> bool {
        v == self.0
    }

    fn value(&self) -> (r: V) {
        self.0
    }
}

impl<V, F: Fn() -> V> Lazy<V> for FnLazy<F> {
    open spec fn lazy_requires(&self) -> bool {
        call_requires(self.0, ())
    }

    open spec fn lazy_ensures(&self, v: V) -> bool {
        call_ensures(self.0, (), v)
    }

    fn value(&self) -> (r: V) {
        (self.0)()
    }
}

/// The layer that adds extension insertion around a maker.
#[derive(Clone, Copy, Debug)]
pub struct Layer<L> {
    pub lazy: L,
}

/// A maker whose built services insert the produced value.
pub struct MakeInsert<M, L> {
    pub inner: M,
    pub lazy: L,
}

/// A pending construction of an inserting service.
pub struct MakeFuture<L> {
    pub lazy: L,
}

/// The inserting service around an inner service.
pub struct Insert<S, L> {
    pub inner: S,
    pub lazy: L,
}

/// A request carrying a typed extension slot.
pub struct WithExt<R, V> {
    pub inner: R,
    pub ext: Option<V>,
}

/// The layer that inserts what `f` produces into each request.
pub fn layer<F, V>(f: F) -> (r: Layer<FnLazy<F>>) where F: Fn() -> V
    ensures
        r.lazy.0 == f,
{
    Layer::new(FnLazy(f))
}

impl<L> Layer<L> {
    pub fn new(lazy: L) -> (r: Layer<L>)
        ensures
            r.lazy == lazy,
    {
        Layer { lazy }
    }
}

impl<L: Copy> Layer<L> {
    /// Wraps a maker.
    pub fn layer<M>(&self, inner: M) -> (r: MakeInsert<M, L>)
        ensures
            r.inner == inner,
            r.lazy == self.lazy,
    {
        MakeInsert { inner, lazy: self.lazy }
    }
}

impl<M, L> MakeInsert<M, L> {
    /// The built service: insertion around the inner maker's service.
    pub fn make(self) -> (r: Insert<M, L>)
        ensures
            r.inner == self.inner,
            r.lazy == self.lazy,
    {
        Insert::new(self.inner, self.lazy)
    }
}

impl<L> MakeFuture<L> {
    /// Wraps the service the inner construction produced.
    pub fn poll<S>(self, inner: S) -> (r: Insert<S, L>)
        ensures
            r.inner == inner,
            r.lazy == self.lazy,
    {
        Insert::new(inner, self.lazy)
    }
}

impl<S, L> Insert<S, L> {
    pub fn new(inner: S, lazy: L) -> (r: Insert<S, L>)
        ensures
            r.inner == inner,
            r.lazy == lazy,
    {
        Insert { inner, lazy }
    }

    /// What the inner service receives: the request with the produced
    /// value set in its extension slot, the rest untouched.
    pub fn proxy<R, V>(&self, req: WithExt<R, V>) -> (r: WithExt<R, V>) where L: Lazy<V>
        requires
            self.lazy.lazy_requires(),
        ensures
            r.inner == req.inner,
            match r.ext {
                Some(v) => self.lazy.lazy_ensures(v),
                None => false,
            },
    {
        let v = self.lazy.value();
        WithExt { inner: req.inner, ext: Some(v) }
    }
}

} // verus!
