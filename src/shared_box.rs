use crate::pointers::ConstPtr;
use vstd::prelude::*;

verus! {

/// Relies on `core::slice::from_ref`: a slice of length one over the
/// referenced value.
#[verifier::external_body]
fn one_cell<T>(x: &T) -> (r: &[T])
    ensures
        r@ == seq![*x],
{
    core::slice::from_ref(x)
}

/// Relies on `core::slice::from_mut`: a slice of length one over the same
/// place, so that what is left in its element is what the place holds.
#[verifier::external_body]
fn one_cell_mut<T>(x: &mut T) -> (r: &mut [T])
    ensures
        r@ == seq![*old(x)],
        final(r)@.len() == 1,
        *final(x) == final(r)@[0],
{
    core::slice::from_mut(x)
}

/// A container that owns one heap value and hands out plain addresses to it.
///
/// The addresses index the owner's region, a single cell, which is reached
/// through [`SharedBox::memory`] and [`SharedBox::memory_mut`]. The value is
/// released exactly once: when the owner goes out of scope, or when
/// [`SharedBox::into_box`] gives it back to an exclusive box. The owner can be
/// sent to or shared with another thread exactly when its contents can.
pub struct SharedBox<T> {
    data: Box<T>,
}

impl<T> View for SharedBox<T> {
    type V = T;

    closed spec fn view(&self) -> T {
        *self.data
    }
}

impl<T> SharedBox<T> {
    /// The owner's region: the one cell its addresses point into.
    pub open spec fn cells(&self) -> Seq<T> {
        seq![self@]
    }

    /// Whether `p` is an address into this owner's cell.
    pub open spec fn is_handle(&self, p: ConstPtr) -> bool {
        p.addr < self.cells().len()
    }

    /// An address of the owned value. It can be taken any number of times,
    /// and every one names the same cell.
    pub fn as_ptr(&mut self) -> (r: ConstPtr)
        ensures
            r.addr == 0,
            old(self).is_handle(r),
            final(self)@ == old(self)@,
    {
        ConstPtr { addr: 0 }
    }

    /// The owner's region, for reading through addresses.
    pub fn memory(&self) -> (r: &[T])
        ensures
            r@ == self.cells(),
    {
        one_cell(&*self.data)
    }

    /// The owner's region, for writing through addresses; what is left in
    /// the region is what the owner holds afterwards.
    pub fn memory_mut(&mut self) -> (r: &mut [T])
        ensures
            r@ == old(self).cells(),
            final(self).cells() == final(r)@,
            final(self)@ == final(r)@[0],
    {
        let r = one_cell_mut(&mut *self.data);
        proof {
            assert(final(r)@ =~= seq![final(r)@[0]]);
        }
        r
    }

    /// Gives the value back to an exclusive box.
    pub fn into_box(self) -> (r: Box<T>)
        ensures
            *r == self@,
    {
        self.data
    }
}

impl<T> From<Box<T>> for SharedBox<T> {
    /// Takes over the value that `x` owned.
    fn from(x: Box<T>) -> Self {
        SharedBox { data: x }
    }
}

impl<T> vstd::std_specs::convert::FromSpecImpl<Box<T>> for SharedBox<T> {
    open spec fn obeys_from_spec() -> bool {
        true
    }

    closed spec fn from_spec(x: Box<T>) -> Self {
        SharedBox { data: x }
    }
}

/// Handing a value to an owner and taking it back gives the value unchanged.
pub proof fn lemma_round_trip<T>(x: Box<T>)
    ensures
        <SharedBox<T> as vstd::std_specs::convert::FromSpec<Box<T>>>::from_spec(x)@ == *x,
{
}

/// Two addresses taken from one owner name the same cell: a value stored
/// through either one is what a read through the other finds.
pub proof fn lemma_handles_alias<T>(s: SharedBox<T>, p: ConstPtr, q: ConstPtr, v: T)
    requires
        s.is_handle(p),
        s.is_handle(q),
    ensures
        p.addr == q.addr,
        s.cells().update(p.addr as int, v)[q.addr as int] == v,
{
}

} // verus!
