//! `TryClone` for the scalar types and for `Option`.
//!
//! A scalar is copied as it is: no memory is needed, so the copy never fails.

use vstd::prelude::*;
use crate::TryClone;
use std::collections::TryReserveError;

verus! {

impl TryClone for u8 {
    open spec fn clone_is_infallible() -> bool {
        true
    }

    #[inline(always)]
    fn try_clone(&self) -> (r: Result<Self, TryReserveError>)
        ensures
            r == Ok::<u8, TryReserveError>(*self),
    {
        Ok(*self)
    }
}

impl TryClone for u16 {
    open spec fn clone_is_infallible() -> bool {
        true
    }

    #[inline(always)]
    fn try_clone(&self) -> (r: Result<Self, TryReserveError>)
        ensures
            r == Ok::<u16, TryReserveError>(*self),
    {
        Ok(*self)
    }
}

impl TryClone for u32 {
    open spec fn clone_is_infallible() -> bool {
        true
    }

    #[inline(always)]
    fn try_clone(&self) -> (r: Result<Self, TryReserveError>)
        ensures
            r == Ok::<u32, TryReserveError>(*self),
    {
        Ok(*self)
    }
}

impl TryClone for u64 {
    open spec fn clone_is_infallible() -> bool {
        true
    }

    #[inline(always)]
    fn try_clone(&self) -> (r: Result<Self, TryReserveError>)
        ensures
            r == Ok::<u64, TryReserveError>(*self),
    {
        Ok(*self)
    }
}

impl TryClone for i8 {
    open spec fn clone_is_infallible() -> bool {
        true
    }

    #[inline(always)]
    fn try_clone(&self) -> (r: Result<Self, TryReserveError>)
        ensures
            r == Ok::<i8, TryReserveError>(*self),
    {
        Ok(*self)
    }
}

impl TryClone for i16 {
    open spec fn clone_is_infallible() -> bool {
        true
    }

    #[inline(always)]
    fn try_clone(&self) -> (r: Result<Self, TryReserveError>)
        ensures
            r == Ok::<i16, TryReserveError>(*self),
    {
        Ok(*self)
    }
}

impl TryClone for i32 {
    open spec fn clone_is_infallible() -> bool {
        true
    }

    #[inline(always)]
    fn try_clone(&self) -> (r: Result<Self, TryReserveError>)
        ensures
            r == Ok::<i32, TryReserveError>(*self),
    {
        Ok(*self)
    }
}

impl TryClone for i64 {
    open spec fn clone_is_infallible() -> bool {
        true
    }

    #[inline(always)]
    fn try_clone(&self) -> (r: Result<Self, TryReserveError>)
        ensures
            r == Ok::<i64, TryReserveError>(*self),
    {
        Ok(*self)
    }
}

impl TryClone for usize {
    open spec fn clone_is_infallible() -> bool {
        true
    }

    #[inline(always)]
    fn try_clone(&self) -> (r: Result<Self, TryReserveError>)
        ensures
            r == Ok::<usize, TryReserveError>(*self),
    {
        Ok(*self)
    }
}

impl TryClone for isize {
    open spec fn clone_is_infallible() -> bool {
        true
    }

    #[inline(always)]
    fn try_clone(&self) -> (r: Result<Self, TryReserveError>)
        ensures
            r == Ok::<isize, TryReserveError>(*self),
    {
        Ok(*self)
    }
}

impl TryClone for bool {
    open spec fn clone_is_infallible() -> bool {
        true
    }

    #[inline(always)]
    fn try_clone(&self) -> (r: Result<Self, TryReserveError>)
        ensures
            r == Ok::<bool, TryReserveError>(*self),
    {
        Ok(*self)
    }
}

impl TryClone for [i8; 256] {
    open spec fn clone_is_infallible() -> bool {
        true
    }

    #[inline(always)]
    fn try_clone(&self) -> (r: Result<Self, TryReserveError>)
        ensures
            r == Ok::<[i8; 256], TryReserveError>(*self),
    {
        Ok(*self)
    }
}

impl<T: TryClone> TryClone for Option<T> {
    open spec fn same_value(&self, copy: &Self) -> bool {
        match (*self, *copy) {
            (Some(a), Some(b)) => a.same_value(&b),
            (None, None) => true,
            _ => false,
        }
    }

    open spec fn clone_is_infallible() -> bool {
        T::clone_is_infallible()
    }

    fn try_clone(&self) -> (r: Result<Self, TryReserveError>)
        ensures
            self is None ==> r == Ok::<Option<T>, TryReserveError>(None),
    {
        match self {
            Some(t) => match t.try_clone() {
                Ok(c) => Ok(Some(c)),
                Err(e) => Err(e),
            },
            None => Ok(None),
        }
    }
}

} // verus!
