//! The router: two endpoints behind one, with each item sent to the end its
//! tag names.

use crate::endpoint::Endpoint;
use crate::error::RouterSinkError;
use crate::poll::{Async, AsyncSink, Poll, StartSend};
use crate::routed::Routed;
use vstd::prelude::*;

verus! {

/// An item together with the end it is meant for.
#[derive(Clone, Debug, PartialEq, Eq)]
pub enum Route<A, B> {
    /// The payload goes to the left endpoint.
    Left(A),
    /// The payload goes to the right endpoint.
    Right(B),
}

/// Two endpoints that are fed through one: an item tagged `Left` goes to the
/// left one, an item tagged `Right` to the right one.
pub struct RouterSink<A, B> {
    left_sink: A,
    right_sink: B,
}

impl<A, B> RouterSink<A, B> {
    /// The left endpoint, as contracts see it.
    pub closed spec fn spec_left(&self) -> &A {
        &self.left_sink
    }

    /// The right endpoint, as contracts see it.
    pub closed spec fn spec_right(&self) -> &B {
        &self.right_sink
    }

    /// A router over the two given endpoints, which it owns from now on.
    pub fn new(left_sink: A, right_sink: B) -> (router: RouterSink<A, B>)
        ensures
            router.left() == left_sink,
            router.right() == right_sink,
    {
        RouterSink { left_sink, right_sink }
    }

    /// The left endpoint.
    #[verifier::when_used_as_spec(spec_left)]
    pub fn left(&self) -> (end: &A)
        ensures
            end == self.spec_left(),
    {
        &self.left_sink
    }

    /// The right endpoint.
    #[verifier::when_used_as_spec(spec_right)]
    pub fn right(&self) -> (end: &B)
        ensures
            end == self.spec_right(),
    {
        &self.right_sink
    }

    /// The left endpoint, for the caller to change. Whatever the caller
    /// makes of it is the router's left endpoint afterwards; the right one
    /// stays as it is.
    pub fn left_mut(&mut self) -> (end: &mut A)
        ensures
            *end == old(self).left(),
            final(self).left() == *final(end),
            final(self).right() == old(self).right(),
    {
        &mut self.left_sink
    }

    /// The right endpoint, for the caller to change. Whatever the caller
    /// makes of it is the router's right endpoint afterwards; the left one
    /// stays as it is.
    pub fn right_mut(&mut self) -> (end: &mut B)
        ensures
            *end == old(self).right(),
            final(self).right() == *final(end),
            final(self).left() == old(self).left(),
    {
        &mut self.right_sink
    }
}

/// A router can be duplicated where both of its endpoints can: the copy
/// owns a copy of each.
impl<A: Clone, B: Clone> Clone for RouterSink<A, B> {
    fn clone(&self) -> (copy: Self)
        ensures
            cloned::<A>(*self.left(), *copy.left()),
            cloned::<B>(*self.right(), *copy.right()),
    {
        RouterSink::new(self.left_sink.clone(), self.right_sink.clone())
    }
}

/// What the left endpoint answered to an offer, seen from outside the
/// router: a rejected payload is tagged `Left` again, and so is a failure.
pub open spec fn tagged_left<L, R, EL, ER>(inner: StartSend<L, EL>) -> StartSend<
    Route<L, R>,
    RouterSinkError<EL, ER>,
> {
    match inner {
        Ok(AsyncSink::Ready) => Ok(AsyncSink::Ready),
        Ok(AsyncSink::NotReady(back)) => Ok(AsyncSink::NotReady(Route::Left(back))),
        Err(e) => Err(RouterSinkError::Left(e)),
    }
}

/// What the right endpoint answered to an offer, seen from outside the
/// router: a rejected payload is tagged `Right` again, and so is a failure.
pub open spec fn tagged_right<L, R, EL, ER>(inner: StartSend<R, ER>) -> StartSend<
    Route<L, R>,
    RouterSinkError<EL, ER>,
> {
    match inner {
        Ok(AsyncSink::Ready) => Ok(AsyncSink::Ready),
        Ok(AsyncSink::NotReady(back)) => Ok(AsyncSink::NotReady(Route::Right(back))),
        Err(e) => Err(RouterSinkError::Right(e)),
    }
}

/// The one answer that stands for the answers of both endpoints to a
/// completion drive: a failure before anything else, the left one before the
/// right one; complete if both are; pending otherwise.
pub open spec fn joined<EL, ER>(left: Poll<(), EL>, right: Poll<(), ER>) -> Poll<
    (),
    RouterSinkError<EL, ER>,
> {
    match (left, right) {
        (Err(e), _) => Err(RouterSinkError::Left(e)),
        (Ok(_), Err(e)) => Err(RouterSinkError::Right(e)),
        (Ok(Async::Ready(_)), Ok(Async::Ready(_))) => Ok(Async::Ready(())),
        (Ok(_), Ok(_)) => Ok(Async::NotReady),
    }
}

/// The joined answer is complete exactly when both answers are. While
/// neither end fails, it is pending as soon as one of the two is.
pub proof fn joined_is_ready_iff_both<EL, ER>(left: Poll<(), EL>, right: Poll<(), ER>)
    ensures
        joined(left, right) matches Ok(Async::Ready(_)) <==> (left matches Ok(Async::Ready(_))
            && right matches Ok(Async::Ready(_))),
        left is Ok && right is Ok && (left matches Ok(Async::NotReady) || right matches Ok(
            Async::NotReady,
        )) ==> joined(left, right) matches Ok(Async::NotReady),
{
}

/// A failure of the left end is the one reported, whatever the right end
/// answered, a failure of its own included. A failure of the right end is
/// reported only when the left end did not fail.
pub proof fn joined_prefers_left_failure<EL, ER>(left: Poll<(), EL>, right: Poll<(), ER>)
    ensures
        left matches Err(e) ==> (joined(left, right) matches Err(RouterSinkError::Left(f)) && f
            == e),
        right matches Err(e) ==> (left is Ok ==> (joined(left, right) matches Err(
            RouterSinkError::Right(f),
        ) && f == e)),
{
}

/// Turns the left endpoint's answer to an offer into the router's answer.
pub fn tag_left<L, R, EL, ER>(inner: StartSend<L, EL>) -> (outcome: StartSend<
    Route<L, R>,
    RouterSinkError<EL, ER>,
>)
    ensures
        outcome == tagged_left::<L, R, EL, ER>(inner),
{
    match inner {
        Ok(AsyncSink::Ready) => Ok(AsyncSink::Ready),
        Ok(AsyncSink::NotReady(back)) => Ok(AsyncSink::NotReady(Route::Left(back))),
        Err(e) => Err(RouterSinkError::Left(e)),
    }
}

/// Turns the right endpoint's answer to an offer into the router's answer.
pub fn tag_right<L, R, EL, ER>(inner: StartSend<R, ER>) -> (outcome: StartSend<
    Route<L, R>,
    RouterSinkError<EL, ER>,
>)
    ensures
        outcome == tagged_right::<L, R, EL, ER>(inner),
{
    match inner {
        Ok(AsyncSink::Ready) => Ok(AsyncSink::Ready),
        Ok(AsyncSink::NotReady(back)) => Ok(AsyncSink::NotReady(Route::Right(back))),
        Err(e) => Err(RouterSinkError::Right(e)),
    }
}

/// Combines the answers of both endpoints to a completion drive.
pub fn join<EL, ER>(left: Poll<(), EL>, right: Poll<(), ER>) -> (outcome: Poll<
    (),
    RouterSinkError<EL, ER>,
>)
    ensures
        outcome == joined(left, right),
{
    match (left, right) {
        (Ok(Async::Ready(())), Ok(Async::Ready(()))) => Ok(Async::Ready(())),
        (Err(e), _) => Err(RouterSinkError::Left(e)),
        (_, Err(e)) => Err(RouterSinkError::Right(e)),
        (Ok(Async::NotReady), _) | (_, Ok(Async::NotReady)) => Ok(Async::NotReady),
    }
}

impl<A: Endpoint, B: Endpoint> View for RouterSink<A, B> {
    type V = Routed<A::Item, B::Item>;

    /// The histories of the two endpoints.
    open spec fn view(&self) -> Routed<A::Item, B::Item> {
        Routed { left: self.left().taken(), right: self.right().taken() }
    }
}

impl<A: Endpoint, B: Endpoint> RouterSink<A, B> {
    /// `outcome` is a possible answer of the router to the offer of `item`
    /// in state `self`, leaving it in state `after`: the end that the tag
    /// names was offered the payload and gave an answer of its own, which
    /// the router hands on under the same tag, and the other end is as it
    /// was.
    pub open spec fn sends(
        &self,
        item: Route<A::Item, B::Item>,
        after: &Self,
        outcome: StartSend<Route<A::Item, B::Item>, RouterSinkError<A::Error, B::Error>>,
    ) -> bool {
        match item {
            Route::Left(x) => {
                &&& after.right() == self.right()
                &&& exists|inner: StartSend<A::Item, A::Error>|
                    {
                        &&& #[trigger] self.left().sends(x, after.left(), inner)
                        &&& outcome == tagged_left::<A::Item, B::Item, A::Error, B::Error>(inner)
                    }
            },
            Route::Right(y) => {
                &&& after.left() == self.left()
                &&& exists|inner: StartSend<B::Item, B::Error>|
                    {
                        &&& #[trigger] self.right().sends(y, after.right(), inner)
                        &&& outcome == tagged_right::<A::Item, B::Item, A::Error, B::Error>(inner)
                    }
            },
        }
    }

    /// `outcome` is a possible answer of the router to a completion drive in
    /// state `self`, leaving it in state `after`: both ends were driven, each
    /// gave an answer of its own, and the router joins the two.
    pub open spec fn polls(
        &self,
        after: &Self,
        outcome: Poll<(), RouterSinkError<A::Error, B::Error>>,
    ) -> bool {
        exists|left: Poll<(), A::Error>, right: Poll<(), B::Error>|
            {
                &&& #[trigger] self.left().polls(after.left(), left)
                &&& #[trigger] self.right().polls(after.right(), right)
                &&& outcome == joined(left, right)
            }
    }

    /// What an answer to an offer says of the histories: an accepted item
    /// has been delivered, once, to the side its tag names; a rejected item
    /// is the one that was offered, and nothing has been delivered; a failure
    /// carries the tag of the item. Whatever the answer, the end that the tag
    /// does not name is as it was.
    pub proof fn sends_delivers(
        &self,
        item: Route<A::Item, B::Item>,
        after: &Self,
        outcome: StartSend<Route<A::Item, B::Item>, RouterSinkError<A::Error, B::Error>>,
    )
        requires
            self.sends(item, after, outcome),
        ensures
            item is Left ==> after.right() == self.right(),
            item is Right ==> after.left() == self.left(),
            outcome matches Ok(AsyncSink::Ready) ==> after@ == self@.deliver(item),
            outcome matches Ok(AsyncSink::NotReady(back)) ==> back == item && after@ == self@,
            outcome matches Err(RouterSinkError::Left(_)) ==> item is Left,
            outcome matches Err(RouterSinkError::Right(_)) ==> item is Right,
    {
        match item {
            Route::Left(x) => {
                let inner = choose|inner: StartSend<A::Item, A::Error>|
                    {
                        &&& #[trigger] self.left().sends(x, after.left(), inner)
                        &&& outcome == tagged_left::<A::Item, B::Item, A::Error, B::Error>(inner)
                    };
                self.left().sends_extends_taken(x, after.left(), inner);
            },
            Route::Right(y) => {
                let inner = choose|inner: StartSend<B::Item, B::Error>|
                    {
                        &&& #[trigger] self.right().sends(y, after.right(), inner)
                        &&& outcome == tagged_right::<A::Item, B::Item, A::Error, B::Error>(inner)
                    };
                self.right().sends_extends_taken(y, after.right(), inner);
            },
        }
    }

    /// What an answer to a completion drive says of the histories: unless
    /// the drive fails, both are as they were. Where the right end is
    /// reported to have failed, the left history is as it was. Where the left
    /// end is reported to have failed, the right history is as it was unless
    /// the right end failed in the same drive.
    pub proof fn polls_keeps_histories(
        &self,
        after: &Self,
        outcome: Poll<(), RouterSinkError<A::Error, B::Error>>,
    )
        requires
            self.polls(after, outcome),
        ensures
            outcome is Ok ==> after@ == self@,
            outcome matches Err(RouterSinkError::Right(_)) ==> after.left().taken()
                == self.left().taken(),
            outcome matches Err(RouterSinkError::Left(_)) ==> (after.right().taken()
                == self.right().taken() || exists|e: B::Error|
                #[trigger] self.right().polls(after.right(), Err(e))),
    {
        let (left, right) = choose|left: Poll<(), A::Error>, right: Poll<(), B::Error>|
            {
                &&& #[trigger] self.left().polls(after.left(), left)
                &&& #[trigger] self.right().polls(after.right(), right)
                &&& outcome == joined(left, right)
            };
        self.left().polls_keeps_taken(after.left(), left);
        self.right().polls_keeps_taken(after.right(), right);
        if let Err(e) = right {
            assert(self.right().polls(after.right(), Err(e)));
        }
    }

    /// An item that was rejected and is offered again later, with nothing
    /// delivered in between, is delivered exactly once when it is accepted:
    /// the histories end as if it had been accepted at the first offer.
    pub proof fn rejected_item_is_delivered_once(
        &self,
        item: Route<A::Item, B::Item>,
        rejected: &Self,
        back: Route<A::Item, B::Item>,
        ready: &Self,
        accepted: &Self,
    )
        requires
            self.sends(item, rejected, Ok(AsyncSink::NotReady(back))),
            ready@ == rejected@,
            ready.sends(back, accepted, Ok(AsyncSink::Ready)),
        ensures
            back == item,
            rejected@ == self@,
            accepted@ == self@.deliver(item),
    {
        self.sends_delivers(item, rejected, Ok(AsyncSink::NotReady(back)));
        ready.sends_delivers(back, accepted, Ok(AsyncSink::Ready));
    }

    /// The router reports completion only when both ends did, and while
    /// neither end fails it reports pending as soon as one of them does.
    pub proof fn completion_requires_both(
        &self,
        after: &Self,
        outcome: Poll<(), RouterSinkError<A::Error, B::Error>>,
    )
        requires
            self.polls(after, outcome),
        ensures
            outcome matches Ok(Async::Ready(_)) ==> (self.left().polls(
                after.left(),
                Ok(Async::Ready(())),
            ) && self.right().polls(after.right(), Ok(Async::Ready(())))),
            outcome matches Ok(Async::NotReady) ==> (self.left().polls(
                after.left(),
                Ok(Async::NotReady),
            ) || self.right().polls(after.right(), Ok(Async::NotReady))),
    {
        let (left, right) = choose|left: Poll<(), A::Error>, right: Poll<(), B::Error>|
            {
                &&& #[trigger] self.left().polls(after.left(), left)
                &&& #[trigger] self.right().polls(after.right(), right)
                &&& outcome == joined(left, right)
            };
        if outcome matches Ok(Async::Ready(_)) {
            assert(left matches Ok(Async::Ready(done)) && done == ());
            assert(right matches Ok(Async::Ready(done)) && done == ());
        }
    }

    /// Offers `item` to the endpoint its tag names, and to that one alone.
    ///
    /// An accepted payload stands last in that endpoint's history. A
    /// rejected item comes back as it was offered, with nothing delivered.
    /// A failure carries the tag of the item. Whatever the answer, the other
    /// endpoint is untouched.
    pub fn start_send(&mut self, item: Route<A::Item, B::Item>) -> (outcome: StartSend<
        Route<A::Item, B::Item>,
        RouterSinkError<A::Error, B::Error>,
    >)
        ensures
            old(self).sends(item, final(self), outcome),
            item is Left ==> final(self).right() == old(self).right(),
            item is Right ==> final(self).left() == old(self).left(),
            outcome matches Ok(AsyncSink::Ready) ==> final(self)@ == old(self)@.deliver(item),
            outcome matches Ok(AsyncSink::NotReady(back)) ==> back == item && final(self)@ == old(
                self,
            )@,
            outcome matches Err(RouterSinkError::Left(_)) ==> item is Left,
            outcome matches Err(RouterSinkError::Right(_)) ==> item is Right,
    {
        match item {
            Route::Left(x) => {
                let inner = self.left_sink.start_send(x);
                let outcome = tag_left(inner);
                proof {
                    assert(old(self).left().sends(x, self.left(), inner));
                    old(self).sends_delivers(item, self, outcome);
                }
                outcome
            },
            Route::Right(y) => {
                let inner = self.right_sink.start_send(y);
                let outcome = tag_right(inner);
                proof {
                    assert(old(self).right().sends(y, self.right(), inner));
                    old(self).sends_delivers(item, self, outcome);
                }
                outcome
            },
        }
    }

    /// Drives both endpoints towards completion, the left one first and the
    /// right one whatever the left one answered, and joins their answers: a
    /// failure is reported at once, the left one's before the right one's;
    /// completion is reported when both are complete; otherwise the router
    /// is pending.
    ///
    /// Unless the drive fails, both histories are as they were. A failure of
    /// one end leaves the history of the other as it was, unless that one
    /// failed in the same drive.
    pub fn poll_complete(&mut self) -> (outcome: Poll<(), RouterSinkError<A::Error, B::Error>>)
        ensures
            old(self).polls(final(self), outcome),
            outcome is Ok ==> final(self)@ == old(self)@,
            outcome matches Err(RouterSinkError::Right(_)) ==> final(self).left().taken() == old(
                self,
            ).left().taken(),
            outcome matches Err(RouterSinkError::Left(_)) ==> (final(self).right().taken() == old(
                self,
            ).right().taken() || exists|e: B::Error|
                #[trigger] old(self).right().polls(final(self).right(), Err(e))),
    {
        let left = self.left_sink.poll_complete();
        let right = self.right_sink.poll_complete();
        let outcome = join(left, right);
        proof {
            old(self).polls_keeps_histories(self, outcome);
        }
        outcome
    }
}

} // verus!
