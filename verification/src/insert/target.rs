//! Target insertion: wraps a maker so that the construction target
//! itself is set in each request's extensions, letting downstream layers
//! recover the target from the request alone.

use crate::insert::{Insert, ValLazy};
use vstd::prelude::*;

verus! {

/// A maker whose built services insert their construction target.
pub struct Make<M>(pub M);

/// A pending construction of a target-inserting service.
pub struct MakeFuture<T> {
    pub target: T,
}

impl<M> Make<M> {
    /// The built service: the target rides into every request.
    pub fn make<T: Copy>(self, target: T) -> (r: Insert<M, ValLazy<T>>)
        ensures
            r.inner == self.0,
            r.lazy.0 == target,
    {
        Insert::new(self.0, ValLazy(target))
    }
}

impl<T: Copy> MakeFuture<T> {
    /// Wraps the service the inner construction produced.
    pub fn poll<S>(self, inner: S) -> (r: Insert<S, ValLazy<T>>)
        ensures
            r.inner == inner,
            r.lazy.0 == self.target,
    {
        Insert::new(inner, ValLazy(self.target))
    }
}

} // verus!
