//! The failure of a router: the failure of one of its ends, tagged with the
//! side it came from.

use vstd::prelude::*;
use vstd::string::to_string_from_display_ensures;

verus! {

/// A failure of the left or of the right endpoint, carrying that endpoint's
/// own error value as it was.
#[derive(Clone, Debug, PartialEq, Eq)]
pub enum RouterSinkError<A, B> {
    /// The left endpoint failed.
    Left(A),
    /// The right endpoint failed.
    Right(B),
}

impl<A: core::fmt::Display, B: core::fmt::Display> RouterSinkError<A, B> {
    /// The text of the error that the failing endpoint reported, as that
    /// error displays itself; the side adds nothing to it.
    pub fn to_string(&self) -> (text: String)
        ensures
            *self matches RouterSinkError::Left(e) ==> to_string_from_display_ensures::<A>(
                &e,
                text,
            ),
            *self matches RouterSinkError::Right(e) ==> to_string_from_display_ensures::<B>(
                &e,
                text,
            ),
    {
        match self {
            RouterSinkError::Left(e) => e.to_string(),
            RouterSinkError::Right(e) => e.to_string(),
        }
    }
}

} // verus!
