//! The interpreter's heap and the references of native code into it.
//!
//! The heap owns every list object. Native code holds references: small values
//! that name an object by its address and own no storage, so that dropping one
//! releases nothing.

use crate::error::{catch_exception, Error};
use crate::list::List;
use core::marker::PhantomData;
use std::collections::TryReserveError;
use vstd::prelude::*;

verus! {

/// A reference to an object of type `T` that the heap owns.
///
/// It is not `Copy`: native code hands a reference on rather than duplicating
/// it. Two references to one object still arise, through value handles, and the
/// borrow of the heap is what keeps their accesses apart.
pub struct Gc<T> {
    addr: usize,
    kind: PhantomData<T>,
}

impl<T> View for Gc<T> {
    type V = usize;

    /// The address of the object.
    closed spec fn view(&self) -> usize {
        self.addr
    }
}

impl<T> Gc<T> {
    /// The reference to the object at `addr`.
    pub closed spec fn spec_from_raw(addr: usize) -> Gc<T> {
        Gc { addr, kind: PhantomData }
    }

    /// A reference is its address and nothing more.
    pub proof fn lemma_address_is_all(self)
        ensures
            Self::spec_from_raw(self@) == self,
    {
    }

    /// The reference made from an address holds that address.
    pub proof fn lemma_from_raw_view(addr: usize)
        ensures
            Self::spec_from_raw(addr)@ == addr,
    {
    }

    /// Makes the reference to the object at `addr`. Whether an object is there
    /// is for the caller to know: see `Heap::contains`.
    #[verifier::when_used_as_spec(spec_from_raw)]
    pub fn from_raw(addr: usize) -> (gc: Gc<T>)
        ensures
            gc == Self::spec_from_raw(addr),
            gc@ == addr,
    {
        Gc { addr, kind: PhantomData }
    }

    /// Gives the reference up for the address it holds.
    pub fn into_raw(this: Gc<T>) -> (addr: usize)
        ensures
            addr == this@,
    {
        this.addr
    }
}

/// The heap: the list objects that were allocated, each at the address at which
/// it was put. Nothing is ever moved, and this library reclaims nothing.
pub struct Heap {
    lists: Vec<List>,
}

impl View for Heap {
    type V = Seq<List>;

    /// The objects by address.
    closed spec fn view(&self) -> Seq<List> {
        self.lists@
    }
}

impl Heap {
    /// Whether `gc` refers to an object of this heap.
    pub open spec fn spec_contains(&self, gc: &Gc<List>) -> bool {
        gc@ < self@.len()
    }

    /// The object that `gc` refers to.
    pub open spec fn list(&self, gc: Gc<List>) -> List
        recommends
            self.spec_contains(&gc),
    {
        self@[gc@ as int]
    }

    /// This heap is `before` with one object more: the one that `gc` names,
    /// which stands at the first address that was free.
    pub open spec fn allocated(&self, before: &Heap, gc: &Gc<List>) -> bool {
        &&& gc@ == before@.len()
        &&& self@ == before@.push(self.list(*gc))
    }

    /// A heap without objects.
    pub fn new() -> (heap: Heap)
        ensures
            heap@ == Seq::<List>::empty(),
    {
        Heap { lists: Vec::new() }
    }

    /// Whether `gc` refers to an object of this heap.
    #[verifier::when_used_as_spec(spec_contains)]
    pub fn contains(&self, gc: &Gc<List>) -> (b: bool)
        ensures
            b == self.spec_contains(gc),
    {
        gc.addr < self.lists.len()
    }

    /// Asks the allocator for the room to hold one more object, and returns
    /// its answer. The objects are as they were, whatever the answer.
    pub(crate) fn request_slot(&mut self) -> (slot: Result<(), TryReserveError>)
        ensures
            final(self)@ == old(self)@,
    {
        self.lists.try_reserve(1)
    }

    /// Puts `list` on the heap, at the first free address, given the
    /// allocator's answer to the request for its room, and returns the
    /// reference to it. Where the room was refused, the heap stays as it was.
    pub(crate) fn adopt(
        &mut self,
        list: List,
        slot: Result<(), TryReserveError>,
    ) -> (res: Result<Gc<List>, Error>)
        ensures
            res is Ok <==> slot is Ok,
            match res {
                Ok(gc) => gc@ == old(self)@.len() && final(self)@ == old(self)@.push(list),
                Err(e) => e == Error::AllocationFailure && final(self)@ == old(self)@,
            },
    {
        let addr = self.lists.len();
        catch_exception(slot)?;
        self.lists.push(list);
        Ok(Gc::from_raw(addr))
    }
}

impl Gc<List> {
    /// The list that the reference names, for reading.
    pub fn as_ref<'a>(&self, heap: &'a Heap) -> (list: &'a List)
        requires
            heap.contains(self),
        ensures
            *list == heap.list(*self),
    {
        &heap.lists[self.addr]
    }

    /// The list that the reference names, for changing it. The heap is borrowed
    /// for as long as the list is: no other access to any object can take place
    /// in between. When the borrow ends the heap holds the list as it was left,
    /// and every other object as before.
    pub fn as_mut<'a>(this: &mut Gc<List>, heap: &'a mut Heap) -> (list: &'a mut List)
        requires
            old(heap).contains(old(this)),
        ensures
            *final(this) == *old(this),
            *list == old(heap).list(*old(this)),
            final(heap)@ == old(heap)@.update(old(this)@ as int, *final(list)),
    {
        &mut heap.lists[this.addr]
    }
}

} // verus!
