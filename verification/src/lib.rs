//! Fallible counterparts of the growth and cloning operations of `Vec`, of a
//! single-value heap owner and of `Rc`: where reserving memory fails, the
//! operation hands back an error instead of aborting, and the container is
//! left as it was.

use vstd::prelude::*;

pub mod attribute;
pub mod boxed;
pub mod hashmap;
pub mod rc;
pub mod try_clone;
pub mod vec;

pub use std::collections::TryReserveError;
pub use attribute::Attribute;
pub use boxed::{FallibleBox, OwnedBox};
pub use hashmap::{TableReserveError, TryHashMap};
pub use rc::FallibleRc;
pub use vec::{FallibleVec, TryCollect, TryFromIterator};

verus! {

/// A type that can try to produce an independent copy of a value, and reports
/// a failed allocation instead of aborting.
pub trait TryClone: Sized {
    /// Whether `copy` carries the same value as `self`: that the two are equal,
    /// unless the type says otherwise. A container says that it holds as many
    /// elements as the source, each carrying the same value as its counterpart.
    open spec fn same_value(&self, copy: &Self) -> bool {
        *self == *copy
    }

    /// Whether copying a value of this type never needs memory, so that
    /// `try_clone` always succeeds. Unless the type says so, it may fail.
    open spec fn clone_is_infallible() -> bool {
        false
    }

    /// Tries to copy `self`. A copy that is handed back carries the same value;
    /// for a type whose copy needs no memory the call never fails.
    fn try_clone(&self) -> (r: Result<Self, TryReserveError>)
        ensures
            r matches Ok(copy) ==> self.same_value(&copy),
            Self::clone_is_infallible() ==> r is Ok,
    ;
}

} // verus!
