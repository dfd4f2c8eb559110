//! The answer to an acquisition attempt.

use vstd::prelude::*;

verus! {

/// What an adapter answers to an attempt: the guard, or the request to poll again later.
pub enum Acquire<G, F> {
    /// The primitive was free: here is what stands for holding it.
    Ready(G),
    /// The primitive was taken: poll this request again after a wake.
    Pending(F),
}

impl<G, F> Acquire<G, F> {
    /// Whether the attempt was granted.
    pub fn is_ready(&self) -> (b: bool)
        ensures
            b == (self is Ready),
    {
        match self {
            Acquire::Ready(_) => true,
            Acquire::Pending(_) => false,
        }
    }

    /// Whether the attempt has to be repeated.
    pub fn is_pending(&self) -> (b: bool)
        ensures
            b == (self is Pending),
    {
        match self {
            Acquire::Ready(_) => false,
            Acquire::Pending(_) => true,
        }
    }

    /// The guard of a granted attempt.
    pub fn ready(self) -> (guard: Option<G>)
        ensures
            guard == (match self {
                Acquire::Ready(g) => Some(g),
                Acquire::Pending(_) => None,
            }),
    {
        match self {
            Acquire::Ready(g) => Some(g),
            Acquire::Pending(_) => None,
        }
    }

    /// The request of an attempt that was not granted.
    pub fn pending(self) -> (request: Option<F>)
        ensures
            request == (match self {
                Acquire::Ready(_) => None,
                Acquire::Pending(f) => Some(f),
            }),
    {
        match self {
            Acquire::Ready(_) => None,
            Acquire::Pending(f) => Some(f),
        }
    }
}

} // verus!
