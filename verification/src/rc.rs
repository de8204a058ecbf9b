//! A fallible constructor for `Rc`.

use vstd::prelude::*;
use crate::boxed::{FallibleBox, OwnedBox};
use std::collections::TryReserveError;
use std::rc::Rc;

verus! {

/// Building a reference-counted box with a checked first allocation.
///
/// The value first moves into an owning box, whose slot is reserved fallibly.
/// Turning that box into a shared one allocates the counted block a second
/// time, and that second allocation is not checked: it aborts where no memory
/// is left. Only the first step reports a failure.
pub trait FallibleRc<T>: Sized {
    /// The value that the handle shares.
    spec fn shared(&self) -> T;

    fn try_new(t: T) -> (r: Result<Self, TryReserveError>)
        ensures
            r matches Ok(rc) ==> rc.shared() == t,
    ;
}

impl<T> FallibleRc<T> for Rc<T> {
    open spec fn shared(&self) -> T {
        **self
    }

    fn try_new(t: T) -> (r: Result<Self, TryReserveError>) {
        share_boxed(<OwnedBox<T> as FallibleBox<T>>::try_new(t))
    }
}

/// Completes the construction, given the outcome of boxing the value: the
/// boxed value moves on into a counted block, which a single handle shares;
/// where the box could not be had, its error is handed on.
pub fn share_boxed<T>(boxed: Result<OwnedBox<T>, TryReserveError>) -> (r: Result<Rc<T>, TryReserveError>)
    ensures
        match boxed {
            Ok(b) => r matches Ok(rc) && *rc == b@,
            Err(e) => r == Err::<Rc<T>, TryReserveError>(e),
        },
{
    match boxed {
        Ok(b) => Ok(Rc::new(b.into_inner())),
        Err(e) => Err(e),
    }
}

} // verus!
