//! A fallible owning box: one heap slot that holds one value.

use vstd::prelude::*;
use crate::TryClone;
use std::collections::TryReserveError;

verus! {

/// Building a single-value heap owner without aborting where no memory can be
/// had.
pub trait FallibleBox<T>: Sized {
    /// The value that the box owns.
    spec fn content(&self) -> T;

    /// Moves `t` into a freshly reserved slot. A box that is handed back owns
    /// exactly `t`.
    fn try_new(t: T) -> (r: Result<Self, TryReserveError>)
        ensures
            r matches Ok(b) ==> b.content() == t,
    ;
}

/// The owner of one heap slot, which always holds exactly one value.
pub struct OwnedBox<T> {
    slot: Vec<T>,
}

/// `Vec::try_reserve_exact`: asks for room for exactly `additional` more
/// elements. Whether or not the memory could be had, the elements stay as
/// they are.
#[verifier::external_body]
fn try_reserve_exact<T>(v: &mut Vec<T>, additional: usize) -> (r: Result<(), TryReserveError>)
    ensures
        final(v)@ == old(v)@,
{
    v.try_reserve_exact(additional)
}

impl<T> View for OwnedBox<T> {
    type V = T;

    closed spec fn view(&self) -> T {
        self.slot@[0]
    }
}

impl<T> OwnedBox<T> {
    #[verifier::type_invariant]
    spec fn holds_one(self) -> bool {
        self.slot@.len() == 1
    }

    /// Completes the construction, given the vector in which the slot was
    /// reserved and the outcome of reserving it: `t` moves into the slot where
    /// it was had; where not, the error comes back and `t` is dropped, once.
    /// Elements that `slot` still holds are dropped first.
    pub fn from_slot(slot: Vec<T>, t: T, reserved: Result<(), TryReserveError>) -> (r: Result<
        Self,
        TryReserveError,
    >)
        ensures
            match reserved {
                Ok(_) => r matches Ok(b) && b@ == t,
                Err(e) => r == Err::<Self, TryReserveError>(e),
            },
    {
        match reserved {
            Ok(_) => {
                let mut slot = slot;
                slot.clear();
                slot.push(t);
                Ok(OwnedBox { slot })
            },
            Err(e) => Err(e),
        }
    }

    /// The value in the box.
    pub fn get(&self) -> (r: &T)
        ensures
            *r == self@,
    {
        proof {
            use_type_invariant(self);
        }
        &self.slot[0]
    }

    /// Takes the value out of the box; the slot is released.
    pub fn into_inner(self) -> (t: T)
        ensures
            t == self@,
    {
        proof {
            use_type_invariant(&self);
        }
        let mut slot = self.slot;
        slot.remove(0)
    }
}

impl<T> std::ops::Deref for OwnedBox<T> {
    type Target = T;

    /// The value in the box.
    fn deref(&self) -> (r: &T)
        ensures
            *r == self@,
    {
        self.get()
    }
}

impl<T> std::ops::DerefMut for OwnedBox<T> {
    /// The place of the value: what is written there is what the box holds
    /// from then on. No memory is needed.
    fn deref_mut(&mut self) -> (r: &mut T)
        ensures
            *r == old(self)@,
            final(self)@ == *final(r),
    {
        proof {
            use_type_invariant(&*self);
        }
        &mut self.slot[0]
    }
}

impl<T> FallibleBox<T> for OwnedBox<T> {
    open spec fn content(&self) -> T {
        self@
    }

    fn try_new(t: T) -> (r: Result<Self, TryReserveError>) {
        let mut slot = Vec::new();
        let reserved = try_reserve_exact(&mut slot, 1);
        Self::from_slot(slot, t, reserved)
    }
}

impl<T: TryClone> TryClone for OwnedBox<T> {
    open spec fn same_value(&self, copy: &Self) -> bool {
        self@.same_value(&copy@)
    }

    /// Copies the value, then moves the copy into a slot of its own. Where
    /// either step fails, nothing is left behind.
    fn try_clone(&self) -> (r: Result<Self, TryReserveError>) {
        Self::box_copied(self.get().try_clone())
    }
}

impl<T> OwnedBox<T> {
    /// Completes a copy, given the outcome of copying the value: a copy that
    /// was made moves into a slot of its own, which is reserved here; where
    /// none was made, the error is handed on and no slot is asked for.
    pub fn box_copied(copied: Result<T, TryReserveError>) -> (r: Result<Self, TryReserveError>)
        ensures
            copied matches Err(e) ==> r == Err::<Self, TryReserveError>(e),
            r matches Ok(b) ==> copied matches Ok(copy) && b@ == copy,
    {
        match copied {
            Ok(copy) => Self::try_new(copy),
            Err(e) => Err(e),
        }
    }
}

} // verus!
