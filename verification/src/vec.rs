//! Fallible growth of `Vec`: every operation that may need memory reserves it
//! first, and hands the failure back with the vector as it was.

use vstd::prelude::*;
use crate::TryClone;
use vstd::std_specs::iter::IteratorSpec;
use std::collections::TryReserveError;

verus! {

/// `s` cut down to `len` elements, or `s` itself where it has no more than `len`.
pub open spec fn truncated<T>(s: Seq<T>, len: nat) -> Seq<T> {
    if len <= s.len() {
        s.take(len as int)
    } else {
        s
    }
}

/// `s` brought to `new_len` elements: cut down, or filled up with `value`.
pub open spec fn resized<T>(s: Seq<T>, new_len: nat, value: T) -> Seq<T> {
    if new_len <= s.len() {
        s.take(new_len as int)
    } else {
        s + Seq::new((new_len - s.len()) as nat, |i: int| value)
    }
}

/// `after` is `before` followed by one copy of each element of `src`, in order.
pub open spec fn extended_by_copies<T: TryClone>(before: Seq<T>, src: Seq<T>, after: Seq<T>) -> bool {
    &&& after.len() == before.len() + src.len()
    &&& after.take(before.len() as int) == before
    &&& forall|i: int| 0 <= i < src.len() ==> (#[trigger] src[i]).same_value(&after[before.len() + i])
}

/// `after` is `before` followed by `n` values, each of which the generator
/// `source` yields, the last of them being the value that the generator holds.
pub open spec fn extended_with<T, E: ExtendWith<T>>(before: Seq<T>, n: nat, source: E, after: Seq<T>) -> bool {
    &&& after.len() == before.len() + n
    &&& after.take(before.len() as int) == before
    &&& forall|i: int| before.len() <= i < after.len() - 1 ==> source.yields(#[trigger] after[i])
    &&& n > 0 ==> after.last() == source.last_value()
}

/// `after` is `before` brought to `new_len` elements: cut down, or filled up
/// with copies of `value` and, in the last place, `value` itself.
pub open spec fn resized_by_copies<T: TryClone>(before: Seq<T>, new_len: nat, value: T, after: Seq<T>) -> bool {
    if new_len <= before.len() {
        after == before.take(new_len as int)
    } else {
        &&& after.len() == new_len
        &&& after.take(before.len() as int) == before
        &&& forall|i: int| before.len() <= i < new_len - 1 ==> value.same_value(&#[trigger] after[i])
        &&& after.last() == value
    }
}

/// What a vector holds after each element of `elems` was pushed onto `start`,
/// one call after the other.
pub open spec fn pushed_all<T>(start: Seq<T>, elems: Seq<T>) -> Seq<T>
    decreases elems.len(),
{
    if elems.len() == 0 {
        start
    } else {
        pushed_all(start, elems.drop_last()).push(elems.last())
    }
}

/// Pushes that all succeed append the pushed elements to what the vector
/// held, in the order of the calls.
pub proof fn lemma_pushes_append_in_call_order<T>(start: Seq<T>, elems: Seq<T>)
    ensures
        pushed_all(start, elems) == start + elems,
    decreases elems.len(),
{
    if elems.len() == 0 {
        assert(start + elems =~= start);
    } else {
        lemma_pushes_append_in_call_order(start, elems.drop_last());
        assert((start + elems.drop_last()).push(elems.last()) =~= start + elems);
    }
}

/// Pushes onto an empty vector that all succeed give exactly the pushed
/// elements: as many as there were calls, and in call order.
pub proof fn lemma_pushes_from_empty<T>(elems: Seq<T>)
    ensures
        pushed_all(Seq::<T>::empty(), elems) == elems,
        pushed_all(Seq::<T>::empty(), elems).len() == elems.len(),
{
    lemma_pushes_append_in_call_order(Seq::<T>::empty(), elems);
    assert(Seq::<T>::empty() + elems =~= elems);
}

/// Truncating to no elements leaves an empty vector, whatever it held.
pub proof fn lemma_truncated_to_zero<T>(s: Seq<T>)
    ensures
        truncated(s, 0) == Seq::<T>::empty(),
{
    assert(s.take(0) =~= Seq::<T>::empty());
}

/// Where a copy of an element is an equal element, a copy of a vector holds
/// the same sequence as its source.
pub proof fn lemma_copy_holds_equal_elements<T: TryClone>(source: Vec<T>, copy: Vec<T>)
    requires
        source.same_value(&copy),
        forall|x: T, y: T| #[trigger] x.same_value(&y) ==> x == y,
    ensures
        copy@ == source@,
{
    assert(copy@ =~= source@);
}

/// Where a copy of an element is an equal element, filling up with copies
/// gives the same sequence as filling up with the value itself.
pub proof fn lemma_resized_by_equal_copies<T: TryClone>(before: Seq<T>, new_len: nat, value: T, after: Seq<T>)
    requires
        resized_by_copies(before, new_len, value, after),
        forall|x: T, y: T| #[trigger] x.same_value(&y) ==> x == y,
    ensures
        after == resized(before, new_len, value),
{
    if new_len > before.len() {
        let filled = before + Seq::new((new_len - before.len()) as nat, |i: int| value);
        assert forall|i: int| 0 <= i < new_len implies after[i] == filled[i] by {
            if i < before.len() {
                assert(after.take(before.len() as int)[i] == after[i]);
            } else if i < new_len - 1 {
                assert(value.same_value(&after[i]));
            }
        }
        assert(after =~= filled);
    }
}

/// Drops the elements of `v` beyond the first `len`, one at a time from the
/// end inward: the length goes down by one before each element is dropped.
pub fn truncate<T>(v: &mut Vec<T>, len: usize)
    ensures
        final(v)@ == truncated(old(v)@, len as nat),
{
    while v.len() > len
        invariant
            v@.len() <= old(v)@.len(),
            v@ == old(v)@.take(v@.len() as int),
            len <= v@.len() || v@.len() == old(v)@.len(),
        decreases v@.len(),
    {
        // The vector is one shorter before the element that left it is dropped.
        let _last = v.pop();
    }
}

/// Reserves room for `additional` more elements. Room for no element is
/// always there: nothing is asked of the allocator then.
fn reserve<T>(v: &mut Vec<T>, additional: usize) -> (r: Result<(), TryReserveError>)
    ensures
        final(v)@ == old(v)@,
        additional == 0 ==> r is Ok,
{
    if additional == 0 {
        Ok(())
    } else {
        v.try_reserve(additional)
    }
}

/// Completes a push, given the outcome of reserving one slot: the element is
/// appended where the slot was had, and handed back with the error where not.
pub fn push_reserved<T>(v: &mut Vec<T>, elem: T, reserved: Result<(), TryReserveError>) -> (r: Result<
    (),
    (T, TryReserveError),
>)
    ensures
        match reserved {
            Ok(_) => r is Ok && final(v)@ == old(v)@.push(elem),
            Err(e) => r == Err::<(), (T, TryReserveError)>((elem, e)) && final(v)@ == old(v)@,
        },
{
    match reserved {
        Ok(_) => {
            v.push(elem);
            Ok(())
        },
        Err(e) => Err((elem, e)),
    }
}

/// Completes an insertion at `index`, given the outcome of reserving one slot.
pub fn insert_reserved<T>(
    v: &mut Vec<T>,
    index: usize,
    element: T,
    reserved: Result<(), TryReserveError>,
) -> (r: Result<(), (T, TryReserveError)>)
    requires
        index <= old(v)@.len(),
    ensures
        match reserved {
            Ok(_) => r is Ok && final(v)@ == old(v)@.insert(index as int, element),
            Err(e) => r == Err::<(), (T, TryReserveError)>((element, e)) && final(v)@ == old(v)@,
        },
{
    match reserved {
        Ok(_) => {
            v.insert(index, element);
            Ok(())
        },
        Err(e) => Err((element, e)),
    }
}

/// Completes an append, given the outcome of reserving room for all of
/// `other`: its elements move over in order, or both vectors stay as they were.
pub fn append_reserved<T>(v: &mut Vec<T>, other: &mut Vec<T>, reserved: Result<(), TryReserveError>) -> (r:
    Result<(), TryReserveError>)
    ensures
        match reserved {
            Ok(_) => {
                &&& r is Ok
                &&& final(v)@ == old(v)@ + old(other)@
                &&& final(other)@ == Seq::<T>::empty()
            },
            Err(e) => {
                &&& r == Err::<(), TryReserveError>(e)
                &&& final(v)@ == old(v)@
                &&& final(other)@ == old(other)@
            },
        },
{
    match reserved {
        Ok(_) => {
            v.append(other);
            Ok(())
        },
        Err(e) => Err(e),
    }
}

/// Completes a resize, given the outcome of reserving the slots that growing
/// needs. Shrinking reserves nothing and never fails, whatever `reserved` is.
pub fn resize_reserved<T: Copy>(
    v: &mut Vec<T>,
    new_len: usize,
    value: T,
    reserved: Result<(), TryReserveError>,
) -> (r: Result<(), TryReserveError>)
    ensures
        new_len <= old(v)@.len() || reserved is Ok ==> r is Ok && final(v)@ == resized(
            old(v)@,
            new_len as nat,
            value,
        ),
        new_len > old(v)@.len() ==> (reserved matches Err(e) ==> r == Err::<(), TryReserveError>(e)
            && final(v)@ == old(v)@),
{
    let len = v.len();
    if new_len > len {
        match reserved {
            Ok(_) => {
                let mut i: usize = len;
                while i < new_len
                    invariant
                        len <= i <= new_len,
                        len == old(v)@.len(),
                        v@ == old(v)@ + Seq::new((i - len) as nat, |j: int| value),
                    decreases new_len - i,
                {
                    v.push(value);
                    i += 1;
                    assert(v@ =~= old(v)@ + Seq::new((i - len) as nat, |j: int| value));
                }
                Ok(())
            },
            Err(e) => Err(e),
        }
    } else {
        truncate(v, new_len);
        Ok(())
    }
}

/// Completes an extension by the elements of `other`, given the outcome of
/// reserving room for them.
pub fn extend_from_slice_reserved<T: Copy>(v: &mut Vec<T>, other: &[T], reserved: Result<(), TryReserveError>) -> (r:
    Result<(), TryReserveError>)
    ensures
        match reserved {
            Ok(_) => r is Ok && final(v)@ == old(v)@ + other@,
            Err(e) => r == Err::<(), TryReserveError>(e) && final(v)@ == old(v)@,
        },
{
    match reserved {
        Ok(_) => {
            let mut i: usize = 0;
            while i < other.len()
                invariant
                    i <= other@.len(),
                    v@ == old(v)@ + other@.take(i as int),
                decreases other@.len() - i,
            {
                v.push(other[i]);
                i += 1;
                assert(v@ =~= old(v)@ + other@.take(i as int));
            }
            assert(other@.take(i as int) =~= other@);
            Ok(())
        },
        Err(e) => Err(e),
    }
}

/// Completes an extension by copies of the elements of `other`, given the
/// outcome of reserving room for them. Where an element cannot be copied, the
/// copies made so far are dropped again and the vector is as it was.
pub fn extend_from_slice_no_copy_reserved<T: TryClone>(
    v: &mut Vec<T>,
    other: &[T],
    reserved: Result<(), TryReserveError>,
) -> (r: Result<(), TryReserveError>)
    ensures
        r is Ok ==> extended_by_copies(old(v)@, other@, final(v)@),
        r is Err ==> final(v)@ == old(v)@,
        reserved matches Err(e) ==> r == Err::<(), TryReserveError>(e),
        reserved is Ok && (T::clone_is_infallible() || other@.len() == 0) ==> r is Ok,
{
    match reserved {
        Ok(_) => {
            let start = v.len();
            let mut i: usize = 0;
            while i < other.len()
                invariant
                    reserved is Ok,
                    i <= other@.len(),
                    start == old(v)@.len(),
                    v@.len() == start + i,
                    v@.take(start as int) == old(v)@,
                    forall|j: int| 0 <= j < i ==> (#[trigger] other@[j]).same_value(&v@[start + j]),
                decreases other@.len() - i,
            {
                match other[i].try_clone() {
                    Ok(copy) => {
                        let ghost before = v@;
                        v.push(copy);
                        assert(v@.take(start as int) =~= before.take(start as int));
                    },
                    Err(e) => {
                        truncate(v, start);
                        return Err(e);
                    },
                }
                i += 1;
            }
            Ok(())
        },
        Err(e) => Err(e),
    }
}

/// A source of values to extend a vector with: `next` makes one more, `last`
/// gives up the value that the source holds.
pub trait ExtendWith<T>: Sized {
    /// Whether `next` may hand out `t`.
    spec fn yields(&self, t: T) -> bool;

    /// The value that `last` hands out.
    spec fn last_value(&self) -> T;

    /// Whether `next` always succeeds.
    spec fn never_fails() -> bool;

    fn next(&mut self) -> (r: Result<T, TryReserveError>)
        ensures
            *final(self) == *old(self),
            r matches Ok(t) ==> old(self).yields(t),
            Self::never_fails() ==> r is Ok,
    ;

    fn last(self) -> (t: T)
        ensures
            t == self.last_value(),
    ;
}

/// The source that yields copies of one value, and at last the value itself.
pub struct TryExtendElement<T: TryClone>(pub T);

impl<T: TryClone> ExtendWith<T> for TryExtendElement<T> {
    open spec fn yields(&self, t: T) -> bool {
        self.0.same_value(&t)
    }

    open spec fn last_value(&self) -> T {
        self.0
    }

    open spec fn never_fails() -> bool {
        T::clone_is_infallible()
    }

    fn next(&mut self) -> (r: Result<T, TryReserveError>) {
        self.0.try_clone()
    }

    fn last(self) -> (t: T) {
        self.0
    }
}

/// Completes an extension by `n` values of `source`, given the outcome of
/// reserving room for them: `n - 1` values from `next`, then the one from
/// `last`. Where `next` fails, the values placed so far are dropped again.
pub fn extend_with_reserved<T, E: ExtendWith<T>>(
    v: &mut Vec<T>,
    n: usize,
    source: E,
    reserved: Result<(), TryReserveError>,
) -> (r: Result<(), TryReserveError>)
    ensures
        r is Ok ==> extended_with(old(v)@, n as nat, source, final(v)@),
        r is Err ==> final(v)@ == old(v)@,
        reserved matches Err(e) ==> r == Err::<(), TryReserveError>(e),
        reserved is Ok && (E::never_fails() || n <= 1) ==> r is Ok,
{
    match reserved {
        Ok(_) => {
            let mut source = source;
            let ghost first = source;
            let start = v.len();
            let mut i: usize = 1;
            // All elements but the last come from `next`.
            while i < n
                invariant
                    reserved is Ok,
                    1 <= i,
                    i <= n || (n == 0 && i == 1),
                    source == first,
                    start == old(v)@.len(),
                    v@.len() == start + i - 1,
                    v@.take(start as int) == old(v)@,
                    forall|j: int| start <= j < v@.len() ==> first.yields(#[trigger] v@[j]),
                decreases n - i,
            {
                match source.next() {
                    Ok(t) => {
                        let ghost before = v@;
                        v.push(t);
                        assert(v@.take(start as int) =~= before.take(start as int));
                    },
                    Err(e) => {
                        truncate(v, start);
                        return Err(e);
                    },
                }
                i += 1;
            }
            if n > 0 {
                // The last one is the held value itself: no needless copy.
                let ghost before = v@;
                v.push(source.last());
                assert(v@.take(start as int) =~= before.take(start as int));
                assert(forall|j: int| start <= j < v@.len() - 1 ==> first.yields(#[trigger] v@[j])) by {
                    assert(forall|j: int| start <= j < v@.len() - 1 ==> v@[j] == before[j]);
                }
            }
            Ok(())
        },
        Err(e) => Err(e),
    }
}

/// Extends `v` by `n` values of `source`, after reserving room for them.
pub fn try_extend_with<T, E: ExtendWith<T>>(v: &mut Vec<T>, n: usize, source: E) -> (r: Result<
    (),
    TryReserveError,
>)
    ensures
        r is Ok ==> extended_with(old(v)@, n as nat, source, final(v)@),
        r is Err ==> final(v)@ == old(v)@,
        n == 0 ==> r is Ok,
{
    let reserved = reserve(v, n);
    extend_with_reserved(v, n, source, reserved)
}

/// Completes a resize that copies `value` with `try_clone`, given the outcome
/// of reserving the slots that growing needs. Shrinking never fails.
pub fn resize_no_copy_reserved<T: TryClone>(
    v: &mut Vec<T>,
    new_len: usize,
    value: T,
    reserved: Result<(), TryReserveError>,
) -> (r: Result<(), TryReserveError>)
    ensures
        r is Ok ==> resized_by_copies(old(v)@, new_len as nat, value, final(v)@),
        r is Err ==> final(v)@ == old(v)@ && new_len > old(v)@.len(),
        new_len > old(v)@.len() ==> (reserved matches Err(e) ==> r == Err::<(), TryReserveError>(e)),
        reserved is Ok && (T::clone_is_infallible() || new_len <= old(v)@.len() + 1) ==> r is Ok,
{
    let len = v.len();
    if new_len > len {
        extend_with_reserved(v, new_len - len, TryExtendElement(value), reserved)
    } else {
        truncate(v, new_len);
        Ok(())
    }
}

/// The fallible methods of a growable array. Each one that may need memory
/// reserves it first; where that fails, the error comes back and the array
/// holds what it held before the call.
pub trait FallibleVec<T>: View<V = Seq<T>> + Sized {
    /// Makes room for `additional` more elements. The elements stay as they
    /// are, whether or not the memory could be had. Asking for no room
    /// always succeeds.
    fn try_reserve(&mut self, additional: usize) -> (r: Result<(), TryReserveError>)
        ensures
            final(self)@ == old(self)@,
            additional == 0 ==> r is Ok,
    ;

    /// Appends `elem` after reserving one slot.
    fn try_push(&mut self, elem: T) -> (r: Result<(), TryReserveError>)
        ensures
            r is Ok ==> final(self)@ == old(self)@.push(elem),
            r is Err ==> final(self)@ == old(self)@,
    ;

    /// Appends `elem` after reserving one slot, and hands it back with the
    /// error where the slot could not be had.
    fn try_push_give_back(&mut self, elem: T) -> (r: Result<(), (T, TryReserveError)>)
        ensures
            r is Ok ==> final(self)@ == old(self)@.push(elem),
            r matches Err(back) ==> back.0 == elem && final(self)@ == old(self)@,
    ;

    /// An empty array with room for `capacity` elements.
    fn try_with_capacity(capacity: usize) -> (r: Result<Self, TryReserveError>)
        ensures
            r matches Ok(v) ==> v@ == Seq::<T>::empty(),
            capacity == 0 ==> r is Ok,
    ;

    /// Puts `element` at `index` after reserving one slot; the elements from
    /// `index` on move one place up. On failure `element` comes back.
    fn try_insert(&mut self, index: usize, element: T) -> (r: Result<(), (T, TryReserveError)>)
        requires
            index <= old(self)@.len(),
        ensures
            r is Ok ==> final(self)@ == old(self)@.insert(index as int, element),
            r matches Err(back) ==> back.0 == element && final(self)@ == old(self)@,
    ;

    /// Moves all elements of `other` to the end of `self`, in order, after
    /// reserving room for them. On failure neither array changes.
    fn try_append(&mut self, other: &mut Self) -> (r: Result<(), TryReserveError>)
        ensures
            r is Ok ==> final(self)@ == old(self)@ + old(other)@ && final(other)@ == Seq::<T>::empty(),
            r is Err ==> final(self)@ == old(self)@ && final(other)@ == old(other)@,
            old(other)@.len() == 0 ==> r is Ok,
    ;

    /// Brings the array to `new_len` elements: cuts it down, or reserves the
    /// missing slots and fills them with `value`. Cutting down never fails.
    fn try_resize(&mut self, new_len: usize, value: T) -> (r: Result<(), TryReserveError>) where
        T: Copy + Clone,

        ensures
            r is Ok ==> final(self)@ == resized(old(self)@, new_len as nat, value),
            r is Err ==> final(self)@ == old(self)@ && new_len > old(self)@.len(),
    ;

    /// Brings the array to `new_len` elements: cuts it down, or reserves the
    /// missing slots and fills them with copies that `try_clone` makes of
    /// `value`, and with `value` itself in the last place. Cutting down never
    /// fails; where a slot or a copy cannot be had, the array is left as it was.
    fn try_resize_no_copy(&mut self, new_len: usize, value: T) -> (r: Result<(), TryReserveError>) where
        T: TryClone,

        ensures
            r is Ok ==> resized_by_copies(old(self)@, new_len as nat, value, final(self)@),
            r is Err ==> final(self)@ == old(self)@ && new_len > old(self)@.len(),
    ;

    /// Appends the elements of `other` after reserving room for them.
    fn try_extend_from_slice(&mut self, other: &[T]) -> (r: Result<(), TryReserveError>) where
        T: Copy + Clone,

        ensures
            r is Ok ==> final(self)@ == old(self)@ + other@,
            r is Err ==> final(self)@ == old(self)@,
            other@.len() == 0 ==> r is Ok,
    ;

    /// Appends a copy of each element of `other` after reserving room for them
    /// all. Where the room or a copy cannot be had, the array is left as it was.
    fn try_extend_from_slice_no_copy(&mut self, other: &[T]) -> (r: Result<(), TryReserveError>) where
        T: TryClone,

        ensures
            r is Ok ==> extended_by_copies(old(self)@, other@, final(self)@),
            r is Err ==> final(self)@ == old(self)@,
            other@.len() == 0 ==> r is Ok,
    ;
}

impl<T> FallibleVec<T> for Vec<T> {
    fn try_reserve(&mut self, additional: usize) -> (r: Result<(), TryReserveError>) {
        reserve(self, additional)
    }

    fn try_push(&mut self, elem: T) -> (r: Result<(), TryReserveError>) {
        let reserved = reserve(self, 1);
        match push_reserved(self, elem, reserved) {
            Ok(_) => Ok(()),
            Err(back) => Err(back.1),
        }
    }

    fn try_push_give_back(&mut self, elem: T) -> (r: Result<(), (T, TryReserveError)>) {
        let reserved = reserve(self, 1);
        push_reserved(self, elem, reserved)
    }

    fn try_with_capacity(capacity: usize) -> (r: Result<Self, TryReserveError>) {
        let mut n = Vec::new();
        match reserve(&mut n, capacity) {
            Ok(_) => Ok(n),
            Err(e) => Err(e),
        }
    }

    fn try_insert(&mut self, index: usize, element: T) -> (r: Result<(), (T, TryReserveError)>) {
        let reserved = reserve(self, 1);
        insert_reserved(self, index, element, reserved)
    }

    fn try_append(&mut self, other: &mut Self) -> (r: Result<(), TryReserveError>) {
        let reserved = reserve(self, other.len());
        append_reserved(self, other, reserved)
    }

    fn try_resize(&mut self, new_len: usize, value: T) -> (r: Result<(), TryReserveError>) where
        T: Copy + Clone,
     {
        let len = self.len();
        if new_len > len {
            let reserved = reserve(self, new_len - len);
            resize_reserved(self, new_len, value, reserved)
        } else {
            resize_reserved(self, new_len, value, Ok(()))
        }
    }

    fn try_resize_no_copy(&mut self, new_len: usize, value: T) -> (r: Result<(), TryReserveError>) where
        T: TryClone,
     {
        let len = self.len();
        if new_len > len {
            let reserved = reserve(self, new_len - len);
            resize_no_copy_reserved(self, new_len, value, reserved)
        } else {
            resize_no_copy_reserved(self, new_len, value, Ok(()))
        }
    }

    fn try_extend_from_slice(&mut self, other: &[T]) -> (r: Result<(), TryReserveError>) where
        T: Copy + Clone,
     {
        let reserved = reserve(self, other.len());
        extend_from_slice_reserved(self, other, reserved)
    }

    fn try_extend_from_slice_no_copy(&mut self, other: &[T]) -> (r: Result<(), TryReserveError>) where
        T: TryClone,
     {
        let reserved = reserve(self, other.len());
        extend_from_slice_no_copy_reserved(self, other, reserved)
    }
}

/// A vector of `n` elements made from `elem`: copies that `try_clone` makes
/// of it and, in the last place, `elem` itself.
pub fn try_from_elem<T: TryClone>(elem: T, n: usize) -> (r: Result<Vec<T>, TryReserveError>)
    ensures
        r matches Ok(v) ==> resized_by_copies(Seq::<T>::empty(), n as nat, elem, v@),
        n == 0 ==> r is Ok,
{
    let mut v = Vec::new();
    match v.try_resize_no_copy(n, elem) {
        Ok(_) => Ok(v),
        Err(e) => Err(e),
    }
}

/// A vector of `n` times the plain value `elem`, which is copied as it is.
pub fn try_from_elem_copy<T: Copy>(elem: T, n: usize) -> (r: Result<Vec<T>, TryReserveError>)
    ensures
        r matches Ok(v) ==> v@ == Seq::new(n as nat, |i: int| elem),
        n == 0 ==> r is Ok,
{
    let mut v = Vec::new();
    let reserved = reserve(&mut v, n);
    match resize_reserved(&mut v, n, elem, reserved) {
        Ok(_) => {
            assert(v@ =~= Seq::new(n as nat, |i: int| elem));
            Ok(v)
        },
        Err(e) => Err(e),
    }
}

impl<T: TryClone> TryClone for Vec<T> {
    open spec fn same_value(&self, copy: &Self) -> bool {
        &&& self@.len() == copy@.len()
        &&& forall|i: int| 0 <= i < self@.len() ==> (#[trigger] self@[i]).same_value(&copy@[i])
    }

    /// A fresh vector that holds a copy of each element, in order. The copy
    /// of an empty vector needs no memory and always succeeds.
    fn try_clone(&self) -> (r: Result<Self, TryReserveError>)
        ensures
            self@.len() == 0 ==> r is Ok,
    {
        let mut v = Vec::new();
        match v.try_extend_from_slice_no_copy(self.as_slice()) {
            Ok(_) => Ok(v),
            Err(e) => Err(e),
        }
    }
}

/// Building a collection from the items of an iterator, with every
/// allocation checked.
pub trait TryFromIterator<I>: Sized {
    /// The items that the collection holds, in the order in which it took them.
    spec fn collected(&self) -> Seq<I>;

    /// Takes the items of `iterator` one by one. A collection that is handed
    /// back holds all of them in the order in which they came; an iterator
    /// without items always gives one.
    fn try_from_iterator<T: Iterator<Item = I>>(iterator: T) -> (r: Result<Self, TryReserveError>)
        requires
            iterator.obeys_prophetic_iter_laws(),
            iterator.decrease() is Some,
        ensures
            r matches Ok(c) ==> c.collected() == iterator.remaining(),
            iterator.remaining().len() == 0 ==> r is Ok,
    ;
}

impl<I> TryFromIterator<I> for Vec<I> {
    open spec fn collected(&self) -> Seq<I> {
        self@
    }

    /// Pushes the items one by one, in the order in which they come.
    fn try_from_iterator<T: Iterator<Item = I>>(iterator: T) -> (r: Result<Self, TryReserveError>) {
        let mut new = Vec::new();
        let mut it = iterator;
        loop
            invariant
                it.obeys_prophetic_iter_laws(),
                it.decrease() is Some,
                new@ + it.remaining() == iterator.remaining(),
            decreases it.decrease()->0,
        {
            match it.next() {
                Some(i) => {
                    match new.try_push(i) {
                        Ok(_) => {
                            assert(new@ + it.remaining() =~= iterator.remaining());
                        },
                        Err(e) => {
                            return Err(e);
                        },
                    }
                },
                None => {
                    assert(new@ =~= iterator.remaining());
                    return Ok(new);
                },
            }
        }
    }
}

/// The counterpart of `collect` with every allocation checked.
pub trait TryCollect<I>: Iterator<Item = I> + Sized {
    /// Collects the items that are left into a `C`, in order.
    fn try_collect<C: TryFromIterator<I>>(self) -> (r: Result<C, TryReserveError>)
        requires
            self.obeys_prophetic_iter_laws(),
            self.decrease() is Some,
        ensures
            r matches Ok(c) ==> c.collected() == self.remaining(),
            self.remaining().len() == 0 ==> r is Ok,
    ;
}

impl<I, T: Iterator<Item = I>> TryCollect<I> for T {
    fn try_collect<C: TryFromIterator<I>>(self) -> (r: Result<C, TryReserveError>)
    {
        C::try_from_iterator(self)
    }
}

} // verus!
