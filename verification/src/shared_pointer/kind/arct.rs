use vstd::prelude::*;

use crate::shared_pointer::kind::SharedPointerKind;

verus! {

/// Declares `triomphe::Arc` so that it can stand in fields and signatures;
/// its values stay opaque to verification.
#[verifier::external_type_specification]
#[verifier::external_body]
#[verifier::reject_recursive_types(T)]
pub struct ExTriompheArc<T: ?Sized>(triomphe::Arc<T>);

/// Pointer kind backed by [`triomphe::Arc`]: atomic reference counting with
/// a leaner allocation than the standard one, because `triomphe` keeps no
/// weak count (this crate offers no weak references anyway).  Sendable and
/// shareable across threads exactly when the contained type is, which the
/// `Arc` inside enforces automatically.
///
/// `triomphe::Arc` is opaque to verification, so the contained value is
/// mirrored in the ghost field `value`.  The fields are private and every
/// function below keeps `value` equal to the value stored in `inner` and
/// `addr` equal to its address; the contracts of the trusted functions are
/// stated against that correspondence.
#[verifier::reject_recursive_types(T)]
pub struct ArcTK<T> {
    inner: triomphe::Arc<T>,
    value: Ghost<T>,
    addr: usize,
}

/// Relies on `triomphe::Arc::new`: counted storage holding the value, with a
/// count of one.
#[verifier::external_body]
fn tarc_new<T>(v: T) -> triomphe::Arc<T> {
    triomphe::Arc::new(v)
}

/// Relies on `triomphe::Arc`'s `From<Box<T>>`: counted storage taking over
/// the boxed value without copying it.
#[verifier::external_body]
fn tarc_from_box<T>(v: Box<T>) -> triomphe::Arc<T> {
    triomphe::Arc::from(v)
}

/// Relies on `triomphe::Arc::as_ptr`: the address of the contained value,
/// stable for as long as the allocation is alive.
#[verifier::external_body]
fn tarc_addr<T>(v: &triomphe::Arc<T>) -> usize {
    triomphe::Arc::as_ptr(v) as usize
}

/// Relies on `triomphe::Arc::clone`: a handle to the same allocation, hence
/// the same pointer value; only the count changes.
#[verifier::external_body]
fn tarc_clone<T>(v: &triomphe::Arc<T>) -> (r: triomphe::Arc<T>)
    ensures
        r == *v,
{
    triomphe::Arc::clone(v)
}

/// Relies on `triomphe::Arc`'s `Deref` and on `inner` holding the value that
/// `value` mirrors: a shared borrow of the contained value.
#[verifier::external_body]
fn tarc_deref<T>(p: &ArcTK<T>) -> (r: &T)
    ensures
        *r == p@,
{
    &*p.inner
}

/// Relies on `triomphe::Arc::try_unwrap` and on `inner` holding the value
/// that `value` mirrors: the contained value if this was the only owner, the
/// pointer unchanged otherwise.
#[verifier::external_body]
fn tarc_try_unwrap<T>(p: ArcTK<T>) -> (r: Result<T, ArcTK<T>>)
    ensures
        match r {
            Ok(v) => v == p@,
            Err(q) => q@ == p@ && q.id() == p.id(),
        },
{
    let value = p.value;
    let addr = p.addr;
    match triomphe::Arc::try_unwrap(p.inner) {
        Ok(v) => Ok(v),
        Err(inner) => Err(ArcTK { inner, value, addr }),
    }
}

/// Relies on `triomphe::Arc::get_mut` and on `inner` holding the value that
/// `value` mirrors: a mutable borrow of the contained value when this is the
/// only owner, nothing otherwise.
#[verifier::external_body]
fn tarc_get_mut<T>(p: &mut ArcTK<T>) -> (r: Option<&mut T>)
    ensures
        match r {
            Some(m) => {
                &&& *m == old(p)@
                &&& final(p)@ == *final(m)
                &&& final(p).id() == old(p).id()
            },
            None => *final(p) == *old(p),
        },
{
    triomphe::Arc::get_mut(&mut p.inner)
}

/// Relies on `triomphe::Arc::make_mut` (clone-on-write: afterwards this
/// owner is unique, the value kept when it already was and duplicated with
/// `T::clone` otherwise; the second call finds a unique owner and mutates in
/// place) and on `triomphe::Arc::as_ptr` for the identity of the possibly
/// new allocation.
#[verifier::external_body]
fn tarc_cow_mut<T: Clone>(p: &mut ArcTK<T>) -> (r: &mut T)
    ensures
        cloned::<T>(old(p)@, *r),
        final(p)@ == *final(r),
{
    triomphe::Arc::make_mut(&mut p.inner);
    p.addr = triomphe::Arc::as_ptr(&p.inner) as usize;
    triomphe::Arc::make_mut(&mut p.inner)
}

/// Relies on `triomphe::Arc::count`: the number of owners, at least this
/// one; under concurrent cloning and dropping the value may already be
/// stale.
#[verifier::external_body]
fn tarc_count<T>(v: &triomphe::Arc<T>) -> (r: usize)
    ensures
        r >= 1,
{
    triomphe::Arc::count(v)
}

impl<T> View for ArcTK<T> {
    type V = T;

    closed spec fn view(&self) -> T {
        self.value@
    }
}

impl<T> SharedPointerKind<T> for ArcTK<T> {
    closed spec fn id(&self) -> int {
        self.addr as int
    }

    fn new(v: T) -> (r: Self) {
        let ghost g: T = v;
        let inner = tarc_new(v);
        let addr = tarc_addr(&inner);
        ArcTK { inner, value: Ghost(g), addr }
    }

    fn from_box(v: Box<T>) -> (r: Self) {
        let ghost g: T = *v;
        let inner = tarc_from_box(v);
        let addr = tarc_addr(&inner);
        ArcTK { inner, value: Ghost(g), addr }
    }

    fn deref(&self) -> (r: &T) {
        tarc_deref(self)
    }

    fn addr(&self) -> (r: usize) {
        self.addr
    }

    fn clone(&self) -> (r: Self) {
        ArcTK { inner: tarc_clone(&self.inner), value: Ghost(self.value@), addr: self.addr }
    }

    fn try_unwrap(self) -> (r: Result<T, Self>) {
        tarc_try_unwrap(self)
    }

    fn get_mut(&mut self) -> (r: Option<&mut T>) {
        tarc_get_mut(self)
    }

    fn make_mut(&mut self) -> (r: &mut T) where T: Clone {
        tarc_cow_mut(self)
    }

    fn strong_count(&self) -> (r: usize) {
        tarc_count(&self.inner)
    }
}

} // verus!
