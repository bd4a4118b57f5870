use core::marker::PhantomData;
use vstd::prelude::*;

verus! {

/// A raw address through which a cell may be written: the index of a cell in
/// a region of memory (a slice).
#[derive(Clone, Copy, Debug)]
pub struct MutPtr {
    pub addr: usize,
}

/// A raw address handed out for reading: the index of a cell in a region of
/// memory. Like any raw address it may be turned into one for writing.
#[derive(Clone, Copy, Debug)]
pub struct ConstPtr {
    pub addr: usize,
}

/// A shared view of one possibly uninitialized cell. It may be read through,
/// never written through.
#[derive(Clone, Copy, Debug)]
pub struct CellRef {
    pub addr: usize,
}

/// An exclusive view of one possibly uninitialized cell.
#[derive(Clone, Copy, Debug)]
pub struct CellMut {
    pub addr: usize,
}

/// Pointer-like values: each names one cell and says whether that cell may be
/// written through it.
pub trait Pointer<T>: Sized {
    /// The index of the cell this value points at.
    spec fn addr(&self) -> usize;

    /// Whether writing through this value is permitted.
    spec fn writable(&self) -> bool;

    /// The address to write through; only writable pointers have one.
    fn as_mut_ptr(&mut self) -> (r: MutPtr)
        requires
            old(self).writable(),
        ensures
            r.addr == old(self).addr(),
            final(self).addr() == old(self).addr(),
            final(self).writable() == old(self).writable(),
    ;

    /// The address to read through.
    fn as_ptr(&self) -> (r: ConstPtr)
        ensures
            r.addr == self.addr(),
    ;

    /// Runs `f` and stores its result in the cell this value points at.
    fn write_with(&mut self, mem: &mut [T], f: impl FnOnce() -> T)
        requires
            old(self).writable(),
            old(self).addr() < old(mem)@.len(),
            call_requires(f, ()),
        ensures
            final(self).addr() == old(self).addr(),
            final(self).writable() == old(self).writable(),
            exists|v: T|
                call_ensures(f, (), v) && final(mem)@ == old(mem)@.update(
                    old(self).addr() as int,
                    v,
                ),
    {
        let p = self.as_mut_ptr();
        let v = f();
        let ghost written = v;
        mem[p.addr] = v;
        assert(call_ensures(f, (), written) && mem@ == old(mem)@.update(p.addr as int, written));
    }
}

impl<T> Pointer<T> for MutPtr {
    open spec fn addr(&self) -> usize {
        self.addr
    }

    open spec fn writable(&self) -> bool {
        true
    }

    fn as_mut_ptr(&mut self) -> (r: MutPtr) {
        *self
    }

    fn as_ptr(&self) -> (r: ConstPtr) {
        ConstPtr { addr: self.addr }
    }
}

impl<T> Pointer<T> for ConstPtr {
    open spec fn addr(&self) -> usize {
        self.addr
    }

    open spec fn writable(&self) -> bool {
        true
    }

    fn as_mut_ptr(&mut self) -> (r: MutPtr) {
        MutPtr { addr: self.addr }
    }

    fn as_ptr(&self) -> (r: ConstPtr) {
        *self
    }
}

impl<T> Pointer<T> for CellRef {
    open spec fn addr(&self) -> usize {
        self.addr
    }

    open spec fn writable(&self) -> bool {
        false
    }

    fn as_mut_ptr(&mut self) -> (r: MutPtr) {
        vstd::pervasive::unreached()
    }

    fn as_ptr(&self) -> (r: ConstPtr) {
        ConstPtr { addr: self.addr }
    }
}

impl<T> Pointer<T> for CellMut {
    open spec fn addr(&self) -> usize {
        self.addr
    }

    open spec fn writable(&self) -> bool {
        true
    }

    fn as_mut_ptr(&mut self) -> (r: MutPtr) {
        MutPtr { addr: self.addr }
    }

    fn as_ptr(&self) -> (r: ConstPtr) {
        ConstPtr { addr: self.addr }
    }
}

/// A zero-sized scope token through which memory is dereferenced.
///
/// Each reference handed out borrows the guard, so within one scope a single
/// guard yields at most one live exclusive reference at a time. Aliasing
/// between different guards, or between references taken from distinct
/// regions, stays the caller's concern: the guard only scopes references.
pub struct Bind<T> {
    _ph: PhantomData<T>,
}

impl<T> Bind<T> {
    /// A fresh guard; it carries no state.
    pub fn new() -> (r: Self) {
        Bind { _ph: PhantomData }
    }

    /// The cell that `ptr` points at, borrowed for as long as the guard.
    pub fn get<'a>(&'a self, mem: &'a [T], ptr: impl Pointer<T>) -> (r: &'a T)
        requires
            ptr.addr() < mem@.len(),
        ensures
            *r == mem@[ptr.addr() as int],
    {
        let p = ptr.as_ptr();
        &mem[p.addr]
    }

    /// The cell that `ptr` points at, borrowed exclusively for as long as the
    /// guard; what is written through the result lands in that cell only.
    pub fn get_mut<'a>(&'a mut self, mem: &'a mut [T], ptr: impl Pointer<T>) -> (r: &'a mut T)
        requires
            ptr.writable(),
            ptr.addr() < old(mem)@.len(),
        ensures
            *r == old(mem)@[ptr.addr() as int],
            final(mem)@ == old(mem)@.update(ptr.addr() as int, *final(r)),
    {
        let mut ptr = ptr;
        let p = ptr.as_mut_ptr();
        &mut mem[p.addr]
    }

    /// The `len` cells starting at the one `ptr` points at.
    pub fn slice<'a>(&'a self, mem: &'a [T], ptr: impl Pointer<T>, len: usize) -> (r: &'a [T])
        requires
            ptr.addr() + len <= mem@.len(),
        ensures
            r@ == mem@.subrange(ptr.addr() as int, ptr.addr() + len),
    {
        let p = ptr.as_ptr();
        let (_, rest) = mem.split_at(p.addr);
        let (cells, _) = rest.split_at(len);
        cells
    }

    /// The `len` cells starting at the one `ptr` points at, borrowed
    /// exclusively; the cells around them are left as they were.
    pub fn slice_mut<'a>(&'a mut self, mem: &'a mut [T], ptr: impl Pointer<T>, len: usize) -> (r:
        &'a mut [T])
        requires
            ptr.writable(),
            ptr.addr() + len <= old(mem)@.len(),
        ensures
            r@ == old(mem)@.subrange(ptr.addr() as int, ptr.addr() + len),
            final(mem)@ == old(mem)@.subrange(0, ptr.addr() as int) + final(r)@ + old(
                mem,
            )@.subrange(ptr.addr() + len, old(mem)@.len() as int),
    {
        let mut ptr = ptr;
        let p = ptr.as_mut_ptr();
        let (_, rest) = mem.split_at_mut(p.addr);
        let (mid, _) = rest.split_at_mut(len);
        mid
    }
}

/// The cells `s` after the values at `a` and `b` trade places.
pub open spec fn swapped<T>(s: Seq<T>, a: int, b: int) -> Seq<T> {
    s.update(a, s[b]).update(b, s[a])
}

/// Exchanges the values at `a` and `b` through one guard, one dereference at
/// a time, so that `a` and `b` may be the same address.
pub fn swap_aliasing<T: Copy>(mem: &mut [T], a: MutPtr, b: MutPtr)
    requires
        a.addr < old(mem)@.len(),
        b.addr < old(mem)@.len(),
    ensures
        final(mem)@ == swapped(old(mem)@, a.addr as int, b.addr as int),
{
    let mut bind: Bind<T> = Bind::new();
    let temp = *bind.get(mem, a);
    let other = *bind.get(mem, b);
    *bind.get_mut(mem, a) = other;
    *bind.get_mut(mem, b) = temp;
}

/// Swapping a cell with itself leaves memory as it was.
pub proof fn lemma_self_swap_is_identity<T>(s: Seq<T>, a: int)
    requires
        0 <= a < s.len(),
    ensures
        swapped(s, a, a) == s,
{
    assert(swapped(s, a, a) =~= s);
}

} // verus!
