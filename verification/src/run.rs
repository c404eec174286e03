//! Whole runs of a router: any number of offers and completion drives, one
//! after the other, and where the accepted items have gone at the end.

use crate::endpoint::Endpoint;
use crate::error::RouterSinkError;
use crate::poll::{AsyncSink, Poll, StartSend};
use crate::routed::{lefts, payloads_of_push, rights};
use crate::router_sink::{Route, RouterSink};
use vstd::prelude::*;

verus! {

/// One call made on a router, together with the answer it gave.
pub enum Call<L, R, EL, ER> {
    /// An item was offered.
    Offer { item: Route<L, R>, outcome: StartSend<Route<L, R>, RouterSinkError<EL, ER>> },
    /// The router was driven towards completion.
    Drive { outcome: Poll<(), RouterSinkError<EL, ER>> },
}

impl<L, R, EL, ER> Call<L, R, EL, ER> {
    /// The call was answered with a failure.
    pub open spec fn failed(self) -> bool {
        match self {
            Call::Offer { outcome, .. } => outcome is Err,
            Call::Drive { outcome } => outcome is Err,
        }
    }

    /// The answer reports no failure of the left end. A failure of the right
    /// end may be reported: it is reported only where the left end answered
    /// without failing, or was not called at all.
    pub open spec fn spares_left(self) -> bool {
        match self {
            Call::Offer { outcome, .. } => !(outcome matches Err(RouterSinkError::Left(_))),
            Call::Drive { outcome } => !(outcome matches Err(RouterSinkError::Left(_))),
        }
    }

    /// The answer rules out a failure of the right end. A failed offer may
    /// report the left end, which shows that the right end was not called. A
    /// drive must not fail at all: behind a reported failure of the left end
    /// one of the right end may hide.
    pub open spec fn spares_right(self) -> bool {
        match self {
            Call::Offer { outcome, .. } => !(outcome matches Err(RouterSinkError::Right(_))),
            Call::Drive { outcome } => outcome is Ok,
        }
    }

    /// The item that the call delivered: the offered one where the offer was
    /// accepted, none where it was rejected or failed, and none for a drive.
    pub open spec fn delivered(self) -> Option<Route<L, R>> {
        match self {
            Call::Offer { item, outcome: Ok(AsyncSink::Ready) } => Some(item),
            _ => None,
        }
    }
}

/// The items that a sequence of calls delivered, in the order of the calls.
pub open spec fn delivered_items<L, R, EL, ER>(calls: Seq<Call<L, R, EL, ER>>) -> Seq<
    Route<L, R>,
> {
    calls.filter_map(|call: Call<L, R, EL, ER>| call.delivered())
}

impl<A: Endpoint, B: Endpoint> RouterSink<A, B> {
    /// The router, in state `self`, can answer `call` as recorded and be in
    /// state `after` then.
    pub open spec fn answers(
        &self,
        call: Call<A::Item, B::Item, A::Error, B::Error>,
        after: &Self,
    ) -> bool {
        match call {
            Call::Offer { item, outcome } => self.sends(item, after, outcome),
            Call::Drive { outcome } => self.polls(after, outcome),
        }
    }

    /// `states` are the states that one router went through while `calls`
    /// were made on it in order: the state before the first call, then the
    /// state after each.
    pub open spec fn run(
        states: Seq<Self>,
        calls: Seq<Call<A::Item, B::Item, A::Error, B::Error>>,
    ) -> bool {
        &&& states.len() == calls.len() + 1
        &&& forall|i: int|
            0 <= i < calls.len() ==> (#[trigger] states[i]).answers(calls[i], &states[i + 1])
    }

    /// Over any run in which the left end is never reported to have
    /// failed, its history grows by exactly the payloads of the accepted
    /// items tagged `Left`, in the order in which they were accepted. Offers
    /// that were rejected and retried, drives in between, and failures of the
    /// right end change nothing of that.
    pub proof fn left_history_of_run(
        states: Seq<Self>,
        calls: Seq<Call<A::Item, B::Item, A::Error, B::Error>>,
    )
        requires
            Self::run(states, calls),
            forall|i: int| 0 <= i < calls.len() ==> (#[trigger] calls[i]).spares_left(),
        ensures
            states.last().left().taken() == states[0].left().taken() + lefts(
                delivered_items(calls),
            ),
        decreases calls.len(),
    {
        if calls.len() > 0 {
            let before = states[calls.len() - 1];
            let after = states[calls.len() as int];
            let earlier = delivered_items(calls.drop_last());
            Self::left_history_of_run(states.drop_last(), calls.drop_last());
            assert(before.left().taken() == states[0].left().taken() + lefts(earlier));
            assert(before.answers(calls.last(), &after));
            match calls.last() {
                Call::Offer { item, outcome } => {
                    before.sends_delivers(item, &after, outcome);
                },
                Call::Drive { outcome } => {
                    before.polls_keeps_histories(&after, outcome);
                },
            }
            if let Some(item) = calls.last().delivered() {
                assert(delivered_items(calls) == earlier.push(item));
                payloads_of_push(earlier, item);
            }
        }
    }

    /// Over any run in which every answer rules out a failure of the right
    /// end, its history grows by exactly the payloads of the accepted items
    /// tagged `Right`, in the order in which they were accepted. Offers that
    /// were rejected and retried, drives in between, and failed offers to the
    /// left end change nothing of that.
    pub proof fn right_history_of_run(
        states: Seq<Self>,
        calls: Seq<Call<A::Item, B::Item, A::Error, B::Error>>,
    )
        requires
            Self::run(states, calls),
            forall|i: int| 0 <= i < calls.len() ==> (#[trigger] calls[i]).spares_right(),
        ensures
            states.last().right().taken() == states[0].right().taken() + rights(
                delivered_items(calls),
            ),
        decreases calls.len(),
    {
        if calls.len() > 0 {
            let before = states[calls.len() - 1];
            let after = states[calls.len() as int];
            let earlier = delivered_items(calls.drop_last());
            Self::right_history_of_run(states.drop_last(), calls.drop_last());
            assert(before.right().taken() == states[0].right().taken() + rights(earlier));
            assert(before.answers(calls.last(), &after));
            match calls.last() {
                Call::Offer { item, outcome } => {
                    before.sends_delivers(item, &after, outcome);
                },
                Call::Drive { outcome } => {
                    before.polls_keeps_histories(&after, outcome);
                },
            }
            if let Some(item) = calls.last().delivered() {
                assert(delivered_items(calls) == earlier.push(item));
                payloads_of_push(earlier, item);
            }
        }
    }

    /// Over any run in which no call fails, whatever offers were rejected
    /// and retried and however often the router was driven in between, every
    /// accepted item tagged `Left` is in the left history and in no other,
    /// every accepted item tagged `Right` is in the right history and in no
    /// other, each side in the order of acceptance, and no accepted item is
    /// missing or doubled.
    pub proof fn run_routes_by_tag(
        states: Seq<Self>,
        calls: Seq<Call<A::Item, B::Item, A::Error, B::Error>>,
    )
        requires
            Self::run(states, calls),
            forall|i: int| 0 <= i < calls.len() ==> !(#[trigger] calls[i]).failed(),
        ensures
            states.last()@ == states[0]@.deliver_all(delivered_items(calls)),
            states.last().left().taken() == states[0].left().taken() + lefts(
                delivered_items(calls),
            ),
            states.last().right().taken() == states[0].right().taken() + rights(
                delivered_items(calls),
            ),
            lefts(delivered_items(calls)).len() + rights(delivered_items(calls)).len()
                == delivered_items(calls).len(),
    {
        Self::left_history_of_run(states, calls);
        Self::right_history_of_run(states, calls);
        states[0]@.deliver_all_splits_by_tag(delivered_items(calls));
    }
}

} // verus!
