//! The list object and the operations of native code on it.

use crate::error::{catch_exception, Error};
use crate::gc::{Gc, Heap};
use crate::obj::Obj;
use std::collections::TryReserveError;
use vstd::prelude::*;
use vstd::std_specs::convert::{FromSpecImpl, TryFromSpecImpl};
use vstd::std_specs::iter::IteratorSpec;

verus! {

/// A list object of the interpreter: a run of value handles, of which the
/// first `len()` are its elements, in storage reserved for `capacity()` of them.
///
/// Native code never holds a `List` by value. It reaches one through a
/// reference into the heap that owns it.
pub struct List {
    items: Vec<Obj>,
    reserved: usize,
}

impl View for List {
    type V = Seq<Obj>;

    /// The elements, first to last.
    closed spec fn view(&self) -> Seq<Obj> {
        self.items@
    }
}

/// The upper bound that `iter` gives for the number of items it has left, by
/// `Iterator::size_hint`. It is a hint: an iterator may yield more items than
/// its bound or fewer, so nothing is claimed of it.
#[verifier::external_body]
fn upper_bound<I: Iterator>(iter: &I) -> (bound: Option<usize>) {
    iter.size_hint().1
}

/// The conversion of `item` to a value handle can give `obj`.
pub open spec fn converts<T: TryInto<Obj>>(item: T, obj: Obj) -> bool {
    call_ensures(<T as TryInto<Obj>>::try_into, (item,), Ok::<Obj, T::Error>(obj))
}

/// The conversion of `item` to a value handle can succeed.
pub open spec fn convertible<T: TryInto<Obj>>(item: T) -> bool {
    exists|obj: Obj| converts(item, obj)
}

/// The conversion of `item` to a value handle can fail.
pub open spec fn can_fail<T: TryInto<Obj>>(item: T) -> bool {
    exists|e: T::Error|
        call_ensures(<T as TryInto<Obj>>::try_into, (item,), Err::<Obj, T::Error>(e))
}

/// The conversion of `item` to a value handle can fail, with an error that
/// `err` stands for.
pub open spec fn refuses<T: TryInto<Obj>>(item: T, err: Error) -> bool
    where
        Error: From<T::Error>,
{
    exists|e: T::Error|
        {
            &&& call_ensures(<T as TryInto<Obj>>::try_into, (item,), Err::<Obj, T::Error>(e))
            &&& call_ensures(<Error as From<T::Error>>::from, (e,), err)
        }
}

/// The capacity of a list that had room for `room` elements and has come to
/// `len` of them by appending: the room it had, until that was too little.
pub open spec fn capacity_when_filled(room: usize, len: nat) -> nat {
    if len <= room {
        room as nat
    } else {
        len
    }
}

/// What adding `items` at the end of the list `before` may end in, with the
/// list `after`.
///
/// Either way `after` is `before` followed by the handles of the first items,
/// in their order, and its capacity is that of `before` unless it had to grow.
/// Without an error those are all the items. With an error, the items stop
/// before the first failure, which is that of the next item: it did not
/// convert, and `err` stands for its error, or it did and the allocator
/// refused the room for it, which it is asked for only where the list is full.
pub open spec fn extended<T: TryInto<Obj>>(
    before: &List,
    after: &List,
    items: Seq<T>,
    res: Result<(), Error>,
) -> bool
    where
        Error: From<T::Error>,
{
    let added = after@.len() - before@.len();
    &&& 0 <= added <= items.len()
    &&& forall|j: int| 0 <= j < before@.len() ==> #[trigger] after@[j] == before@[j]
    &&& forall|j: int|
        before@.len() <= j < after@.len() ==> converts(
            items[j - before@.len()],
            #[trigger] after@[j],
        )
    &&& after.capacity() == if added == 0 {
        before.capacity() as nat
    } else {
        capacity_when_filled(before.capacity(), after@.len())
    }
    &&& match res {
        Ok(()) => added == items.len(),
        Err(err) => {
            &&& added < items.len()
            &&& {
                ||| refuses(items[added], err)
                ||| {
                    &&& err == Error::AllocationFailure
                    &&& convertible(items[added])
                    &&& after@.len() >= after.capacity()
                }
            }
        },
    }
}

/// What building a list of `items` on the heap `before` may end in, with the
/// heap `after`.
///
/// With a reference, the list it names was built of the items, as `built`
/// says. With an error, either the allocator refused the list itself and the
/// heap is as it was, or the list was begun and given up at the first failure,
/// as `stopped` says; it then stays behind as the newest object, with no
/// reference to it. The objects of `before` are as they were in either case.
pub open spec fn collected<T: TryInto<Obj>>(
    before: &Heap,
    after: &Heap,
    items: Seq<T>,
    res: Result<Gc<List>, Error>,
) -> bool
    where
        Error: From<T::Error>,
{
    match res {
        Ok(gc) => built(before, after, items, gc),
        Err(e) => {
            ||| e == Error::AllocationFailure && after@ == before@
            ||| stopped(before, after, items, e)
        },
    }
}

/// The list that `gc` names was built of `items` on the heap `before`, which
/// left the heap `after`: it is new, has as many elements as there are items,
/// and each element is what the item in its place converts to.
pub open spec fn built<T: TryInto<Obj>>(
    before: &Heap,
    after: &Heap,
    items: Seq<T>,
    gc: Gc<List>,
) -> bool {
    &&& after.allocated(before, &gc)
    &&& after.list(gc)@.len() == items.len()
    &&& forall|i: int| 0 <= i < items.len() ==> converts(items[i], #[trigger] after.list(gc)@[i])
}

/// Building a list of `items` on the heap `before` was begun and given up with
/// the error `err`, which left the heap `after`.
///
/// The list that was begun holds the handles of the items that came before the
/// failure, in their order. The failure is that of the next item: it did not
/// convert, and `err` stands for its error, or it did and the allocator refused
/// the room for it, which it is asked for only where the list is full.
pub open spec fn stopped<T: TryInto<Obj>>(
    before: &Heap,
    after: &Heap,
    items: Seq<T>,
    err: Error,
) -> bool
    where
        Error: From<T::Error>,
{
    let part = after@.last()@;
    &&& after@.len() == before@.len() + 1
    &&& after@.drop_last() == before@
    &&& part.len() < items.len()
    &&& forall|i: int| 0 <= i < part.len() ==> converts(items[i], #[trigger] part[i])
    &&& {
        ||| refuses(items[part.len() as int], err)
        ||| {
            &&& err == Error::AllocationFailure
            &&& convertible(items[part.len() as int])
            &&& part.len() >= after@.last().capacity()
        }
    }
}

/// Every one of `items` converts, whatever its conversion answers, and they
/// are no more than `room`: nothing can then stand in the way of adding them
/// to a list that has that room left.
pub open spec fn fits<T: TryInto<Obj>>(items: Seq<T>, room: int) -> bool {
    &&& items.len() <= room
    &&& forall|i: int| 0 <= i < items.len() ==> !can_fail(#[trigger] items[i])
}

impl List {
    /// The number of elements for which storage is reserved.
    pub closed spec fn spec_capacity(&self) -> usize {
        self.reserved
    }

    /// The capacity that the list has once one more element has been added:
    /// unchanged where there was room, else just enough for the new length.
    pub open spec fn capacity_with_one_more(&self) -> nat {
        if self@.len() < self.spec_capacity() {
            self.spec_capacity() as nat
        } else {
            self@.len() + 1
        }
    }

    /// The number of elements, as the machine counts it.
    pub open spec fn spec_len(&self) -> usize {
        self@.len() as usize
    }

    /// Asks the allocator for storage for `capacity` elements. Its answer is
    /// that storage, empty, or its refusal.
    fn request(capacity: usize) -> (room: Result<Vec<Obj>, TryReserveError>)
        ensures
            room matches Ok(storage) ==> storage@ == Seq::<Obj>::empty(),
    {
        let mut storage: Vec<Obj> = Vec::new();
        match storage.try_reserve(capacity) {
            Ok(()) => Ok(storage),
            Err(refusal) => Err(refusal),
        }
    }

    /// Allocates a list that holds a copy of `values`, in their order. The
    /// handles are copied; `values` itself is not kept. The allocator is asked
    /// twice, for the storage of the elements and for the room of the list
    /// itself; `allocate_granted` says what becomes of its answers.
    pub fn allocate(heap: &mut Heap, values: &[Obj]) -> (res: Result<Gc<List>, Error>)
        ensures
            match res {
                Ok(gc) => {
                    &&& final(heap).allocated(old(heap), &gc)
                    &&& final(heap).list(gc)@ == values@
                    &&& final(heap).list(gc).capacity() == values@.len()
                },
                Err(e) => e == Error::AllocationFailure && final(heap)@ == old(heap)@,
            },
    {
        let room = Self::request(values.len());
        let slot = heap.request_slot();
        Self::allocate_granted(heap, values, room, slot)
    }

    /// Does the work of `allocate`, given the allocator's answers: `room`, the
    /// storage for the elements or its refusal, and `slot`, its answer for the
    /// room of the list itself. There is a list exactly where both were
    /// granted. The storage is taken for empty: what it holds is dropped.
    pub fn allocate_granted(
        heap: &mut Heap,
        values: &[Obj],
        room: Result<Vec<Obj>, TryReserveError>,
        slot: Result<(), TryReserveError>,
    ) -> (res: Result<Gc<List>, Error>)
        ensures
            res is Ok <==> room is Ok && slot is Ok,
            match res {
                Ok(gc) => {
                    &&& final(heap).allocated(old(heap), &gc)
                    &&& final(heap).list(gc)@ == values@
                    &&& final(heap).list(gc).capacity() == values@.len()
                },
                Err(e) => e == Error::AllocationFailure && final(heap)@ == old(heap)@,
            },
    {
        let mut items = catch_exception(room)?;
        items.clear();
        let n = values.len();
        let mut i: usize = 0;
        while i < n
            invariant
                i <= n,
                n == values@.len(),
                items@ == values@.take(i as int),
            decreases n - i,
        {
            items.push(values[i]);
            i += 1;
        }
        heap.adopt(List { items, reserved: n }, slot)
    }

    /// Allocates an empty list with storage for `capacity` elements, to be
    /// filled by `append`. The allocator is asked twice, for that storage and
    /// for the room of the list itself; `with_capacity_granted` says what
    /// becomes of its answers.
    pub fn with_capacity(heap: &mut Heap, capacity: usize) -> (res: Result<Gc<List>, Error>)
        ensures
            match res {
                Ok(gc) => {
                    &&& final(heap).allocated(old(heap), &gc)
                    &&& final(heap).list(gc)@ == Seq::<Obj>::empty()
                    &&& final(heap).list(gc).capacity() == capacity
                },
                Err(e) => e == Error::AllocationFailure && final(heap)@ == old(heap)@,
            },
    {
        let room = Self::request(capacity);
        let slot = heap.request_slot();
        Self::with_capacity_granted(heap, capacity, room, slot)
    }

    /// Does the work of `with_capacity`, given the allocator's answers:
    /// `room`, the storage for the elements or its refusal, and `slot`, its
    /// answer for the room of the list itself. There is a list exactly where
    /// both were granted. The storage is taken for empty: what it holds is
    /// dropped.
    pub fn with_capacity_granted(
        heap: &mut Heap,
        capacity: usize,
        room: Result<Vec<Obj>, TryReserveError>,
        slot: Result<(), TryReserveError>,
    ) -> (res: Result<Gc<List>, Error>)
        ensures
            res is Ok <==> room is Ok && slot is Ok,
            match res {
                Ok(gc) => {
                    &&& final(heap).allocated(old(heap), &gc)
                    &&& final(heap).list(gc)@ == Seq::<Obj>::empty()
                    &&& final(heap).list(gc).capacity() == capacity
                },
                Err(e) => e == Error::AllocationFailure && final(heap)@ == old(heap)@,
            },
    {
        let mut items = catch_exception(room)?;
        items.clear();
        heap.adopt(List { items, reserved: capacity }, slot)
    }

    /// Allocates a list of the items of `iter`, each converted to a value
    /// handle, in their order. The list is made with room for as many elements
    /// as the iterator says it has at most, and grows where that was too few.
    /// The first item that does not convert, or the first refusal of the
    /// allocator, ends the work with that error.
    pub fn from_iter<T, E>(heap: &mut Heap, iter: impl Iterator<Item = T>) -> (res: Result<Gc<List>, Error>)
        where
            T: TryInto<Obj, Error = E>,
            Error: From<E>,
        requires
            iter.obeys_prophetic_iter_laws(),
            iter.decrease() is Some,
        ensures
            collected(old(heap), final(heap), iter.remaining(), res),
    {
        let bound = upper_bound(&iter);
        Self::from_iter_with_hint(heap, iter, bound)
    }

    /// Does the work of `from_iter`, with `bound` for what the iterator says
    /// of its length: the list is made with room for `bound` elements, or for
    /// none where there is no bound. The allocator is asked for that room and
    /// for the room of the list itself; `from_iter_granted` says what becomes
    /// of its answers.
    pub fn from_iter_with_hint<T, E>(
        heap: &mut Heap,
        iter: impl Iterator<Item = T>,
        bound: Option<usize>,
    ) -> (res: Result<Gc<List>, Error>)
        where
            T: TryInto<Obj, Error = E>,
            Error: From<E>,
        requires
            iter.obeys_prophetic_iter_laws(),
            iter.decrease() is Some,
        ensures
            collected(old(heap), final(heap), iter.remaining(), res),
            final(heap)@.len() > old(heap)@.len() ==> final(heap)@.last().capacity()
                == capacity_when_filled(bound.unwrap_or(0), final(heap)@.last()@.len()),
    {
        let room = Self::request(bound.unwrap_or(0));
        let slot = heap.request_slot();
        Self::from_iter_granted(heap, iter, bound, room, slot)
    }

    /// Does the work of `from_iter_with_hint`, given the allocator's answers to
    /// the two requests that come before any item is looked at: `room`, the
    /// storage for `bound` elements or its refusal, and `slot`, its answer for
    /// the room of the list itself.
    ///
    /// Where either was refused there is no list, and the heap is as it was.
    /// Where both were granted the list is begun, and the items are added as
    /// `extend` adds them. The allocator is asked again only for an item
    /// beyond the bound: items that all convert and are no more than the bound
    /// give a list, whatever else.
    pub fn from_iter_granted<T, E>(
        heap: &mut Heap,
        iter: impl Iterator<Item = T>,
        bound: Option<usize>,
        room: Result<Vec<Obj>, TryReserveError>,
        slot: Result<(), TryReserveError>,
    ) -> (res: Result<Gc<List>, Error>)
        where
            T: TryInto<Obj, Error = E>,
            Error: From<E>,
        requires
            iter.obeys_prophetic_iter_laws(),
            iter.decrease() is Some,
        ensures
            collected(old(heap), final(heap), iter.remaining(), res),
            final(heap)@.len() > old(heap)@.len() ==> final(heap)@.last().capacity()
                == capacity_when_filled(bound.unwrap_or(0), final(heap)@.last()@.len()),
            final(heap)@ == old(heap)@ <==> room is Err || slot is Err,
            room is Ok && slot is Ok && fits(iter.remaining(), bound.unwrap_or(0) as int)
                ==> res is Ok,
    {
        let mut gc_list = Self::with_capacity_granted(heap, bound.unwrap_or(0), room, slot)?;
        let res = Gc::as_mut(&mut gc_list, heap).extend(iter);
        proof {
            assert(heap@ == old(heap)@.push(heap.list(gc_list)));
            assert(heap@.drop_last() == old(heap)@);
        }
        match res {
            Ok(()) => Ok(gc_list),
            Err(e) => Err(e),
        }
    }

    /// Adds the items of `iter` at the end of the list, each converted to a
    /// value handle, in their order, and stops at the first item that does not
    /// convert, or at the first refusal of the allocator. What was added before
    /// that stays.
    ///
    /// The allocator is asked only for an item for which the list has no room
    /// left. Items that all convert and are no more than the room left are
    /// added, all of them, whatever else.
    pub fn extend<T, E>(&mut self, iter: impl Iterator<Item = T>) -> (res: Result<(), Error>)
        where
            T: TryInto<Obj, Error = E>,
            Error: From<E>,
        requires
            iter.obeys_prophetic_iter_laws(),
            iter.decrease() is Some,
        ensures
            extended(old(self), final(self), iter.remaining(), res),
            fits(iter.remaining(), old(self).capacity() - old(self)@.len()) ==> res is Ok,
    {
        let ghost items = iter.remaining();
        let mut it = iter;
        loop
            invariant
                it.obeys_prophetic_iter_laws(),
                it.decrease() is Some,
                items == iter.remaining(),
                self@.len() + it.remaining().len() == old(self)@.len() + items.len(),
                self@.len() >= old(self)@.len(),
                forall|j: int| 0 <= j < old(self)@.len() ==> #[trigger] self@[j] == old(self)@[j],
                forall|i: int|
                    0 <= i < it.remaining().len() ==> it.remaining()[i] == items[self@.len() - old(
                        self,
                    )@.len() + i],
                forall|j: int|
                    old(self)@.len() <= j < self@.len() ==> converts(
                        items[j - old(self)@.len()],
                        #[trigger] self@[j],
                    ),
                self.capacity() == if self@.len() == old(self)@.len() {
                    old(self).capacity() as nat
                } else {
                    capacity_when_filled(old(self).capacity(), self@.len())
                },
            decreases it.decrease()->0,
        {
            match it.next() {
                None => {
                    return Ok(());
                },
                Some(value) => {
                    match value.try_into() {
                        Ok(obj) => {
                            assert(converts(value, obj));
                            match self.append(obj) {
                                Ok(()) => {},
                                Err(e) => {
                                    return Err(e);
                                },
                            }
                        },
                        Err(e) => {
                            return Err(Error::from(e));
                        },
                    }
                },
            }
        }
    }

    /// The number of elements.
    #[verifier::when_used_as_spec(spec_len)]
    pub fn len(&self) -> (n: usize)
        ensures
            n == self@.len(),
    {
        self.as_slice().len()
    }

    /// The number of elements that the list can hold before it has to ask the
    /// allocator for more storage.
    #[verifier::when_used_as_spec(spec_capacity)]
    pub fn capacity(&self) -> (n: usize)
        ensures
            n == self.spec_capacity(),
    {
        self.reserved
    }

    /// The elements, for reading.
    pub fn as_slice(&self) -> (slice: &[Obj])
        ensures
            slice@ == self@,
    {
        self.items.as_slice()
    }

    /// The elements, for replacing them in place. What the slice holds when the
    /// borrow ends is what the list holds from then on; its length and its
    /// capacity stay as they are.
    pub fn as_mut_slice(&mut self) -> (slice: &mut [Obj])
        ensures
            slice@ == old(self)@,
            final(self)@ == final(slice)@,
            final(self).capacity() == old(self).capacity(),
    {
        self.items.as_mut_slice()
    }

    /// Adds `value` as the new last element, given the allocator's answer to a
    /// request for storage for one more element. The answer counts only where
    /// the list is full: a list with room left takes the element at once.
    pub fn append_reserved(
        &mut self,
        value: Obj,
        outcome: Result<(), TryReserveError>,
    ) -> (res: Result<(), Error>)
        ensures
            res is Ok <==> old(self)@.len() < old(self).capacity() || (outcome is Ok
                && old(self)@.len() < usize::MAX),
            res is Ok ==> final(self)@ == old(self)@.push(value),
            res is Ok ==> final(self).capacity() == old(self).capacity_with_one_more(),
            res is Err ==> res == Err::<(), Error>(Error::AllocationFailure),
            res is Err ==> *final(self) == *old(self),
    {
        let len = self.items.len();
        if len >= self.reserved {
            catch_exception(outcome)?;
            if len == usize::MAX {
                return Err(Error::AllocationFailure);
            }
            self.reserved = len + 1;
        }
        self.items.push(value);
        Ok(())
    }

    /// Adds `value` as the new last element. A list with room left takes it at
    /// once; a full one first asks the allocator for more storage, and where
    /// that is refused the list stays as it was.
    pub fn append(&mut self, value: Obj) -> (res: Result<(), Error>)
        ensures
            old(self)@.len() < old(self).capacity() ==> res is Ok,
            res is Ok ==> final(self)@ == old(self)@.push(value),
            res is Ok ==> final(self).capacity() == old(self).capacity_with_one_more(),
            res is Err ==> res == Err::<(), Error>(Error::AllocationFailure),
            res is Err ==> final(self)@ == old(self)@,
            res is Err ==> final(self).capacity() == old(self).capacity(),
    {
        let outcome = if self.items.len() < self.reserved {
            Ok(())
        } else {
            self.items.try_reserve(1)
        };
        self.append_reserved(value, outcome)
    }
}

/// The value handle of the list that `gc` names: its address under the list tag.
pub open spec fn handle_of(gc: Gc<List>) -> Obj {
    Obj::List(gc@)
}

/// The reference that `value` converts to: to the object at its address where
/// it carries the list tag, and none otherwise.
pub open spec fn list_of(value: Obj) -> Result<Gc<List>, Error> {
    match value {
        Obj::List(addr) => Ok(Gc::spec_from_raw(addr)),
        Obj::SmallInt(_) => Err(Error::TypeMismatch),
    }
}

/// A reference to a list becomes a value handle: the list's address under the
/// list tag. The list is not touched, and the handle owns nothing.
impl From<Gc<List>> for Obj {
    fn from(value: Gc<List>) -> (obj: Obj)
        ensures
            obj == handle_of(value),
    {
        Obj::List(Gc::into_raw(value))
    }
}

impl FromSpecImpl<Gc<List>> for Obj {
    open spec fn obeys_from_spec() -> bool {
        true
    }

    open spec fn from_spec(value: Gc<List>) -> Obj {
        handle_of(value)
    }
}

/// A value handle becomes a reference to a list exactly where it carries the
/// list tag; the reference then names the object at the handle's address. Any
/// other handle is refused with `Error::TypeMismatch`.
impl TryFrom<Obj> for Gc<List> {
    type Error = Error;

    fn try_from(value: Obj) -> (res: Result<Gc<List>, Error>)
        ensures
            res == list_of(value),
    {
        match value {
            Obj::List(addr) => Ok(Gc::from_raw(addr)),
            Obj::SmallInt(_) => Err(Error::TypeMismatch),
        }
    }
}

impl TryFromSpecImpl<Obj> for Gc<List> {
    open spec fn obeys_try_from_spec() -> bool {
        true
    }

    open spec fn try_from_spec(value: Obj) -> Result<Gc<List>, Error> {
        list_of(value)
    }
}

/// A reference that goes to a value handle and back is the reference it was,
/// so it names the same list in every heap: same length, same elements.
pub proof fn lemma_handle_round_trip(gc: Gc<List>)
    ensures
        list_of(handle_of(gc)) == Ok::<Gc<List>, Error>(gc),
{
    gc.lemma_address_is_all();
}

/// A list handle that goes to a reference and back is the handle it was: the
/// reference names the object at the handle's address.
pub proof fn lemma_reference_round_trip(value: Obj)
    requires
        value is List,
    ensures
        list_of(value) matches Ok(gc) && handle_of(gc) == value,
{
    Gc::<List>::lemma_from_raw_view(value->List_0);
}

/// What is written through the mutable view of a list is what every later
/// read finds, by whatever reference to that list: when the borrow of the list
/// that `gc` names ends with the list `left`, the heap `after` holds `left` at
/// that address, also for a reference that was made from a value handle of
/// `gc`; every other object is as it was in `before`.
pub proof fn lemma_mutation_is_visible(before: Heap, after: Heap, gc: Gc<List>, left: List)
    requires
        before.contains(&gc),
        after@ == before@.update(gc@ as int, left),
    ensures
        after.contains(&gc),
        after.list(gc)@ == left@,
        list_of(handle_of(gc)) matches Ok(back) && after.contains(&back)
            && after.list(back)@ == left@,
        forall|other: Gc<List>|
            before.contains(&other) && other@ != gc@ ==> after.contains(&other) && #[trigger]
                after.list(other) == before.list(other),
{
    gc.lemma_address_is_all();
}

/// A list that was built from `items` holds their handles in their order, and
/// nothing else: where the conversion of an item can give one handle only,
/// `encode` of it, the list is `items` with `encode` applied to each.
pub proof fn lemma_items_in_order<T: TryInto<Obj>>(
    before: Heap,
    after: Heap,
    items: Seq<T>,
    gc: Gc<List>,
    encode: spec_fn(T) -> Obj,
)
    requires
        built(&before, &after, items, gc),
        forall|item: T, obj: Obj| #[trigger] converts(item, obj) ==> obj == encode(item),
    ensures
        after.list(gc)@ == items.map_values(encode),
{
    assert forall|i: int| 0 <= i < items.len() implies (#[trigger] after.list(gc)@[i]) == encode(
        items[i],
    ) by {
        assert(converts(items[i], after.list(gc)@[i]));
    }
}

/// A list that was built from items of type `u8` reads back as those items, in
/// their order: it has their number of elements, and the element in each place
/// is read as the item that stood there.
pub proof fn lemma_u8_items_read_back(before: Heap, after: Heap, items: Seq<u8>, gc: Gc<List>)
    requires
        built(&before, &after, items, gc),
    ensures
        after.list(gc)@.len() == items.len(),
        forall|i: int|
            0 <= i < items.len() ==> (#[trigger] after.list(gc)@[i]).to_u8() == Ok::<u8, Error>(
                items[i],
            ),
{
    assert forall|i: int| 0 <= i < items.len() implies (#[trigger] after.list(gc)@[i]).to_u8()
        == Ok::<u8, Error>(items[i]) by {
        assert(converts(items[i], after.list(gc)@[i]));
    }
}

/// A list that was built from items of type `u16` reads back as those items,
/// in their order.
pub proof fn lemma_u16_items_read_back(before: Heap, after: Heap, items: Seq<u16>, gc: Gc<List>)
    requires
        built(&before, &after, items, gc),
    ensures
        after.list(gc)@.len() == items.len(),
        forall|i: int|
            0 <= i < items.len() ==> (#[trigger] after.list(gc)@[i]).to_u16() == Ok::<u16, Error>(
                items[i],
            ),
{
    assert forall|i: int| 0 <= i < items.len() implies (#[trigger] after.list(gc)@[i]).to_u16()
        == Ok::<u16, Error>(items[i]) by {
        assert(converts(items[i], after.list(gc)@[i]));
    }
}

} // verus!
