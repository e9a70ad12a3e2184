//! Carrying a connection's socket file descriptor along with its requests.
use vstd::prelude::*;

verus! {

/// Extension that stores the socket file descriptor
#[derive(Clone, Copy, Debug)]
pub struct SocketFd(pub i32);

/// Layer that wraps a service so that it sees each request's socket descriptor.
#[derive(Clone, Copy, Debug)]
pub struct SocketFdLayer;

/// Service that passes each request to the service it wraps.
#[derive(Clone, Debug)]
pub struct SocketFdService<S> {
    inner: S,
}

impl<S> SocketFdService<S> {
    /// The wrapped service.
    pub closed spec fn spec_inner(&self) -> S {
        self.inner
    }

    /// The wrapped service.
    pub fn inner(&self) -> (r: &S)
        ensures
            *r == self.spec_inner(),
    {
        &self.inner
    }

    /// The wrapped service, taken out of its wrapper.
    pub fn into_inner(self) -> (r: S)
        ensures
            r == self.spec_inner(),
    {
        self.inner
    }
}

impl SocketFdLayer {
    /// Wraps `inner`.
    pub fn layer<S>(&self, inner: S) -> (r: SocketFdService<S>)
        ensures
            r.spec_inner() == inner,
    {
        SocketFdService { inner }
    }
}

} // verus!
