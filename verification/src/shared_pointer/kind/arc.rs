use vstd::prelude::*;

use crate::shared_pointer::kind::SharedPointerKind;
use std::sync::Arc;

verus! {

/// Pointer kind backed by [`Arc`]: atomic reference counting.  Sendable and
/// shareable across threads exactly when the contained type is, which the
/// `Arc` inside enforces automatically.
pub struct SharedPointerKindArc<T> {
    inner: Arc<T>,
    addr: usize,
}

/// Relies on `Arc::as_ptr`: the address of the contained value, stable for
/// as long as the allocation is alive.
#[verifier::external_body]
fn arc_addr<T>(v: &Arc<T>) -> usize {
    Arc::as_ptr(v) as usize
}

/// Relies on `Arc::clone`: a handle to the same allocation, so the same
/// contained value; only the count changes.
#[verifier::external_body]
fn arc_clone<T>(v: &Arc<T>) -> (r: Arc<T>)
    ensures
        r == *v,
{
    Arc::clone(v)
}

/// Relies on `Arc`'s `Deref`: a shared borrow of the contained value.
#[verifier::external_body]
fn arc_deref<T>(v: &Arc<T>) -> (r: &T)
    ensures
        *r == **v,
{
    &**v
}

/// Relies on `Arc::try_unwrap`: the contained value if this was the only
/// owner, the pointer itself unchanged otherwise.
#[verifier::external_body]
fn arc_try_unwrap<T>(v: Arc<T>) -> (r: Result<T, Arc<T>>)
    ensures
        match r {
            Ok(t) => t == *v,
            Err(e) => e == v,
        },
{
    Arc::try_unwrap(v)
}

/// Relies on `Arc::get_mut`: a mutable borrow of the contained value when
/// this is the only owner, nothing otherwise.
#[verifier::external_body]
fn arc_get_mut<T>(v: &mut Arc<T>) -> (r: Option<&mut T>)
    ensures
        match r {
            Some(m) => *m == **old(v) && **final(v) == *final(m),
            None => *final(v) == *old(v),
        },
{
    Arc::get_mut(v)
}

/// Relies on `Arc::make_mut` (clone-on-write: afterwards this owner is
/// unique, the value kept when it already was and duplicated with `T::clone`
/// otherwise; the second call finds a unique owner and mutates in place) and
/// on `Arc::as_ptr` for the identity of the possibly new allocation.
#[verifier::external_body]
fn arc_cow_mut<T: Clone>(p: &mut SharedPointerKindArc<T>) -> (r: &mut T)
    ensures
        cloned::<T>(old(p)@, *r),
        final(p)@ == *final(r),
{
    Arc::make_mut(&mut p.inner);
    p.addr = Arc::as_ptr(&p.inner) as usize;
    Arc::make_mut(&mut p.inner)
}

/// Relies on `Arc::strong_count`: the number of owners, at least this one;
/// under concurrent cloning and dropping the value may already be stale.
#[verifier::external_body]
fn arc_strong_count<T>(v: &Arc<T>) -> (r: usize)
    ensures
        r >= 1,
{
    Arc::strong_count(v)
}

/// Relies on `Arc`'s `From<Box<T>>`: counted storage taking over the boxed
/// value without copying it.
#[verifier::external_body]
fn arc_from_box<T>(v: Box<T>) -> (r: Arc<T>)
    ensures
        *r == *v,
{
    Arc::from(v)
}

impl<T> View for SharedPointerKindArc<T> {
    type V = T;

    closed spec fn view(&self) -> T {
        *self.inner
    }
}

impl<T> SharedPointerKind<T> for SharedPointerKindArc<T> {
    closed spec fn id(&self) -> int {
        self.addr as int
    }

    fn new(v: T) -> (r: Self) {
        let inner = Arc::new(v);
        let addr = arc_addr(&inner);
        SharedPointerKindArc { inner, addr }
    }

    fn from_box(v: Box<T>) -> (r: Self) {
        let inner = arc_from_box(v);
        let addr = arc_addr(&inner);
        SharedPointerKindArc { inner, addr }
    }

    fn deref(&self) -> (r: &T) {
        arc_deref(&self.inner)
    }

    fn addr(&self) -> (r: usize) {
        self.addr
    }

    fn clone(&self) -> (r: Self) {
        SharedPointerKindArc { inner: arc_clone(&self.inner), addr: self.addr }
    }

    fn try_unwrap(self) -> (r: Result<T, Self>) {
        let addr = self.addr;
        match arc_try_unwrap(self.inner) {
            Ok(v) => Ok(v),
            Err(inner) => Err(SharedPointerKindArc { inner, addr }),
        }
    }

    fn get_mut(&mut self) -> (r: Option<&mut T>) {
        arc_get_mut(&mut self.inner)
    }

    fn make_mut(&mut self) -> (r: &mut T) where T: Clone {
        arc_cow_mut(self)
    }

    fn strong_count(&self) -> (r: usize) {
        arc_strong_count(&self.inner)
    }
}

} // verus!
