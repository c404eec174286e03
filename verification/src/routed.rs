//! The histories of the two ends of a router, and how accepted items extend
//! them.

use crate::router_sink::Route;
use vstd::prelude::*;

verus! {

/// What the two ends of a router have accepted so far.
pub struct Routed<L, R> {
    /// The left endpoint's history, oldest first.
    pub left: Seq<L>,
    /// The right endpoint's history, oldest first.
    pub right: Seq<R>,
}

/// The payloads of the items tagged `Left`, in the order of `items`.
pub open spec fn lefts<L, R>(items: Seq<Route<L, R>>) -> Seq<L> {
    items.filter_map(
        |item: Route<L, R>|
            match item {
                Route::Left(x) => Some(x),
                Route::Right(_) => None,
            },
    )
}

/// The payloads of the items tagged `Right`, in the order of `items`.
pub open spec fn rights<L, R>(items: Seq<Route<L, R>>) -> Seq<R> {
    items.filter_map(
        |item: Route<L, R>|
            match item {
                Route::Left(_) => None,
                Route::Right(y) => Some(y),
            },
    )
}

/// One more item adds its payload at the end of the payloads of its own tag
/// and leaves those of the other tag alone.
pub proof fn payloads_of_push<L, R>(items: Seq<Route<L, R>>, item: Route<L, R>)
    ensures
        item matches Route::Left(x) ==> lefts(items.push(item)) == lefts(items).push(x)
            && rights(items.push(item)) == rights(items),
        item matches Route::Right(y) ==> lefts(items.push(item)) == lefts(items)
            && rights(items.push(item)) == rights(items).push(y),
{
    assert(items.push(item).drop_last() == items);
}

impl<L, R> Routed<L, R> {
    /// The histories after `item` has been accepted: its payload stands last
    /// on the side its tag names, and the other side is as before.
    pub open spec fn deliver(self, item: Route<L, R>) -> Self {
        match item {
            Route::Left(x) => Routed { left: self.left.push(x), right: self.right },
            Route::Right(y) => Routed { left: self.left, right: self.right.push(y) },
        }
    }

    /// The histories after every item of `items` has been accepted, in order.
    pub open spec fn deliver_all(self, items: Seq<Route<L, R>>) -> Self
        decreases items.len(),
    {
        if items.len() == 0 {
            self
        } else {
            self.deliver_all(items.drop_last()).deliver(items.last())
        }
    }

    /// Accepting a sequence of items appends to the left history the payloads
    /// tagged `Left` and to the right history the payloads tagged `Right`,
    /// each in the order of the sequence. Every item lands on exactly one
    /// side: none is lost and none is doubled.
    pub proof fn deliver_all_splits_by_tag(self, items: Seq<Route<L, R>>)
        ensures
            self.deliver_all(items).left == self.left + lefts(items),
            self.deliver_all(items).right == self.right + rights(items),
            lefts(items).len() + rights(items).len() == items.len(),
        decreases items.len(),
    {
        if items.len() > 0 {
            self.deliver_all_splits_by_tag(items.drop_last());
        }
    }
}

} // verus!
