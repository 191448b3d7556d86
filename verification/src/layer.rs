//! The layer and the middleware it produces.

use vstd::prelude::*;

verus! {

/// Layer that adds the `Host` header on requests if it is not present.
///
/// It has nothing to configure: every layer is the same.
#[derive(Debug, Clone)]
pub struct SetHostLayer {}

/// Middleware to set the `Host` header on requests if it is not present.
///
/// It holds the inner handler and nothing else.
#[derive(Debug, Clone)]
pub struct SetHost<S> {
    inner: S,
}

impl SetHostLayer {
    /// Creates a new layer.
    pub fn new() -> (layer: Self)
        ensures
            layer == (SetHostLayer {  }),
    {
        SetHostLayer {  }
    }

    /// Wraps an inner handler, which the middleware then owns unchanged.
    pub fn layer<S>(&self, inner: S) -> (service: SetHost<S>)
        ensures
            service.inner() == inner,
    {
        SetHost { inner }
    }
}

impl Default for SetHostLayer {
    fn default() -> (layer: Self)
        ensures
            layer == (SetHostLayer {  }),
    {
        Self::new()
    }
}

impl<S> SetHost<S> {
    /// The inner handler.
    pub closed spec fn inner(self) -> S {
        self.inner
    }

    /// Gets a reference to the inner handler.
    pub fn get_ref(&self) -> (inner: &S)
        ensures
            *inner == self.inner(),
    {
        &self.inner
    }

    /// Gets a mutable reference to the inner handler. What the caller does to
    /// it is what happens to the middleware.
    pub fn get_mut(&mut self) -> (inner: &mut S)
        ensures
            *inner == old(self).inner(),
            final(self).inner() == *final(inner),
    {
        &mut self.inner
    }

    /// Consumes the middleware, returning the inner handler.
    pub fn into_inner(self) -> (inner: S)
        ensures
            inner == self.inner(),
    {
        self.inner
    }
}

} // verus!
