//! What an endpoint answers when it is offered an item or driven towards
//! completion.
//!
//! The types have the shape of those that `futures` gives its sinks, so that
//! an answer of a sink converts variant by variant. They are declared here
//! because contracts have to look into them.

use vstd::prelude::*;

verus! {

/// Answer of an endpoint to the offer of one item.
#[derive(Clone, Copy, Debug, PartialEq, Eq)]
pub enum AsyncSink<T> {
    /// The item was taken; the endpoint is ready for the next one.
    Ready,
    /// The endpoint has no room at present. The item comes back untouched so
    /// that the caller can offer it again later.
    NotReady(T),
}

/// Answer of an endpoint that was driven towards completion.
#[derive(Clone, Copy, Debug, PartialEq, Eq)]
pub enum Async<T> {
    /// Nothing is outstanding any more.
    Ready(T),
    /// Work is still outstanding; drive again later.
    NotReady,
}

/// Result of offering an item: taken, handed back, or failed.
pub type StartSend<T, E> = Result<AsyncSink<T>, E>;

/// Result of driving towards completion: complete, pending, or failed.
pub type Poll<T, E> = Result<Async<T>, E>;

} // verus!
