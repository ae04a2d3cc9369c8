use vstd::prelude::*;

use crate::shared_pointer::kind::SharedPointerKind;
use std::rc::Rc;

verus! {

/// Pointer kind backed by [`Rc`]: non-atomic reference counting.  Fastest,
/// but never sendable or shareable across threads, which the `Rc` inside
/// enforces automatically.
pub struct RcK<T> {
    inner: Rc<T>,
    addr: usize,
}

/// Relies on `Rc::as_ptr`: the address of the contained value, stable for as
/// long as the allocation is alive.
#[verifier::external_body]
fn rc_addr<T>(v: &Rc<T>) -> usize {
    Rc::as_ptr(v) as usize
}

/// Relies on `Rc::clone`: a handle to the same allocation, so the same
/// contained value; only the count changes.
#[verifier::external_body]
fn rc_clone<T>(v: &Rc<T>) -> (r: Rc<T>)
    ensures
        r == *v,
{
    Rc::clone(v)
}

/// Relies on `Rc`'s `Deref`: a shared borrow of the contained value.
#[verifier::external_body]
fn rc_deref<T>(v: &Rc<T>) -> (r: &T)
    ensures
        *r == **v,
{
    &**v
}

/// Relies on `Rc::get_mut`: a mutable borrow of the contained value when this
/// is the only owner, nothing otherwise.
#[verifier::external_body]
fn rc_get_mut<T>(v: &mut Rc<T>) -> (r: Option<&mut T>)
    ensures
        match r {
            Some(m) => *m == **old(v) && **final(v) == *final(m),
            None => *final(v) == *old(v),
        },
{
    Rc::get_mut(v)
}

/// Relies on `Rc::make_mut` (clone-on-write: afterwards this owner is
/// unique, the value kept when it already was and duplicated with `T::clone`
/// otherwise; the second call finds a unique owner and mutates in place) and
/// on `Rc::as_ptr` for the identity of the possibly new allocation.
#[verifier::external_body]
fn rc_cow_mut<T: Clone>(p: &mut RcK<T>) -> (r: &mut T)
    ensures
        cloned::<T>(old(p)@, *r),
        final(p)@ == *final(r),
{
    Rc::make_mut(&mut p.inner);
    p.addr = Rc::as_ptr(&p.inner) as usize;
    Rc::make_mut(&mut p.inner)
}

/// Relies on `Rc::strong_count`: the number of owners, at least this one.
#[verifier::external_body]
fn rc_strong_count<T>(v: &Rc<T>) -> (r: usize)
    ensures
        r >= 1,
{
    Rc::strong_count(v)
}

/// Relies on `Rc`'s `From<Box<T>>`: counted storage taking over the boxed
/// value without copying it.
#[verifier::external_body]
fn rc_from_box<T>(v: Box<T>) -> (r: Rc<T>)
    ensures
        *r == *v,
{
    Rc::from(v)
}

impl<T> View for RcK<T> {
    type V = T;

    closed spec fn view(&self) -> T {
        *self.inner
    }
}

impl<T> SharedPointerKind<T> for RcK<T> {
    closed spec fn id(&self) -> int {
        self.addr as int
    }

    fn new(v: T) -> (r: Self) {
        let inner = Rc::new(v);
        let addr = rc_addr(&inner);
        RcK { inner, addr }
    }

    fn from_box(v: Box<T>) -> (r: Self) {
        let inner = rc_from_box(v);
        let addr = rc_addr(&inner);
        RcK { inner, addr }
    }

    fn deref(&self) -> (r: &T) {
        rc_deref(&self.inner)
    }

    fn addr(&self) -> (r: usize) {
        self.addr
    }

    fn clone(&self) -> (r: Self) {
        RcK { inner: rc_clone(&self.inner), addr: self.addr }
    }

    fn try_unwrap(self) -> (r: Result<T, Self>) {
        let addr = self.addr;
        match Rc::try_unwrap(self.inner) {
            Ok(v) => Ok(v),
            Err(inner) => Err(RcK { inner, addr }),
        }
    }

    fn get_mut(&mut self) -> (r: Option<&mut T>) {
        rc_get_mut(&mut self.inner)
    }

    fn make_mut(&mut self) -> (r: &mut T) where T: Clone {
        rc_cow_mut(self)
    }

    fn strong_count(&self) -> (r: usize) {
        rc_strong_count(&self.inner)
    }
}

} // verus!
