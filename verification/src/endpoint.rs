//! The capability a router asks of each of its two ends.

use crate::poll::{Async, AsyncSink, Poll, StartSend};
use vstd::prelude::*;

verus! {

/// A consumer of items that takes them one at a time, may push back, and is
/// flushed by being driven towards completion.
///
/// Each endpoint describes, as `sends` and `polls`, every answer it can give
/// and the state it is left in. `taken` is the history of what it has
/// accepted, and the two laws tie the answers to that history.
pub trait Endpoint: Sized {
    /// What the endpoint consumes.
    type Item;

    /// How the endpoint fails.
    type Error;

    /// The items accepted so far, oldest first.
    spec fn taken(&self) -> Seq<Self::Item>;

    /// `outcome` is a possible answer to the offer of `item` in state `self`,
    /// leaving the endpoint in state `after`.
    spec fn sends(
        &self,
        item: Self::Item,
        after: &Self,
        outcome: StartSend<Self::Item, Self::Error>,
    ) -> bool;

    /// `outcome` is a possible answer to a completion drive in state `self`,
    /// leaving the endpoint in state `after`.
    spec fn polls(&self, after: &Self, outcome: Poll<(), Self::Error>) -> bool;

    /// An accepted item is appended to the history exactly once; a rejected
    /// item is the one offered, and the history keeps its value.
    proof fn sends_extends_taken(
        &self,
        item: Self::Item,
        after: &Self,
        outcome: StartSend<Self::Item, Self::Error>,
    )
        requires
            self.sends(item, after, outcome),
        ensures
            outcome matches Ok(AsyncSink::Ready) ==> after.taken() == self.taken().push(item),
            outcome matches Ok(AsyncSink::NotReady(back)) ==> back == item && after.taken()
                == self.taken(),
    ;

    /// A completion drive that does not fail leaves the history as it was.
    proof fn polls_keeps_taken(&self, after: &Self, outcome: Poll<(), Self::Error>)
        requires
            self.polls(after, outcome),
        ensures
            outcome is Ok ==> after.taken() == self.taken(),
    ;

    /// Offers `item` to the endpoint.
    fn start_send(&mut self, item: Self::Item) -> (outcome: StartSend<Self::Item, Self::Error>)
        ensures
            old(self).sends(item, final(self), outcome),
    ;

    /// Drives the endpoint towards completion.
    fn poll_complete(&mut self) -> (outcome: Poll<(), Self::Error>)
        ensures
            old(self).polls(final(self), outcome),
    ;
}

/// Calls `futures::Sink::start_send` on a `Vec`. That impl pushes the item
/// and answers `Ok(AsyncSink::Ready)`; it never rejects and never fails.
#[verifier::external_body]
fn vec_start_send<T>(sink: &mut Vec<T>, item: T) -> (outcome: StartSend<T, ()>)
    ensures
        outcome matches Ok(AsyncSink::Ready),
        final(sink)@ == old(sink)@.push(item),
{
    match futures::Sink::start_send(sink, item) {
        Ok(futures::AsyncSink::Ready) => Ok(AsyncSink::Ready),
        Ok(futures::AsyncSink::NotReady(back)) => Ok(AsyncSink::NotReady(back)),
        Err(e) => Err(e),
    }
}

/// Calls `futures::Sink::poll_complete` on a `Vec`. That impl answers
/// `Ok(Async::Ready(()))` and leaves the vector alone.
#[verifier::external_body]
fn vec_poll_complete<T>(sink: &mut Vec<T>) -> (outcome: Poll<(), ()>)
    ensures
        outcome matches Ok(Async::Ready(_)),
        *final(sink) == *old(sink),
{
    match futures::Sink::poll_complete(sink) {
        Ok(futures::Async::Ready(done)) => Ok(Async::Ready(done)),
        Ok(futures::Async::NotReady) => Ok(Async::NotReady),
        Err(e) => Err(e),
    }
}

/// A vector is an endpoint that always has room: it takes every item at its
/// end and has nothing to flush.
impl<T> Endpoint for Vec<T> {
    type Item = T;

    type Error = ();

    open spec fn taken(&self) -> Seq<T> {
        self@
    }

    open spec fn sends(&self, item: T, after: &Self, outcome: StartSend<T, ()>) -> bool {
        outcome matches Ok(AsyncSink::Ready) && after@ == self@.push(item)
    }

    open spec fn polls(&self, after: &Self, outcome: Poll<(), ()>) -> bool {
        outcome matches Ok(Async::Ready(_)) && *after == *self
    }

    proof fn sends_extends_taken(&self, item: T, after: &Self, outcome: StartSend<T, ()>) {
    }

    proof fn polls_keeps_taken(&self, after: &Self, outcome: Poll<(), ()>) {
    }

    fn start_send(&mut self, item: T) -> (outcome: StartSend<T, ()>) {
        vec_start_send(self, item)
    }

    fn poll_complete(&mut self) -> (outcome: Poll<(), ()>) {
        vec_poll_complete(self)
    }
}

} // verus!
