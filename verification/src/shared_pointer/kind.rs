use vstd::prelude::*;

mod arc;
mod arct;
mod rc;

pub use arc::SharedPointerKindArc;
pub use arct::ArcTK;
pub use rc::RcK;

verus! {

/// The conventional short name of the atomically counted kind.
pub type ArcK<T> = SharedPointerKindArc<T>;

/// Contract for type constructors of reference-counting pointers.
///
/// A value of an implementing type owns one reference-counted allocation
/// holding a `T`.  Its abstract state is the contained value (the `View`,
/// written `@`) and the identity of the allocation (`id`), which is shared by
/// all clones of the same pointer and distinguishes allocations that are
/// simultaneously alive.
///
/// The strong count itself is state shared between all clones of a pointer
/// and is therefore not part of the abstract state of a single value: whether
/// `try_unwrap` or `get_mut` find this owner to be unique depends on how many
/// clones are alive at the call, which only the run time can see.  The
/// contracts state what holds of every outcome instead.
pub trait SharedPointerKind<T>: View<V = T> + Sized {
    /// Identity of the underlying allocation: clones share it, distinct live
    /// allocations differ in it.
    spec fn id(&self) -> int;

    /// Allocates counted storage holding `v`; the count starts at one.
    fn new(v: T) -> (r: Self)
        ensures
            r@ == v,
    ;

    /// Like `new`, but takes over an already boxed value.
    fn from_box(v: Box<T>) -> (r: Self)
        ensures
            r@ == *v,
    ;

    /// Shared read-only access to the contained value.
    fn deref(&self) -> (r: &T)
        ensures
            *r == self@,
    ;

    /// The address of the contained value, stable across clones: equal
    /// addresses of live pointers mean the same allocation.
    fn addr(&self) -> (r: usize)
        ensures
            r as int == self.id(),
    ;

    /// Duplicates the pointer, incrementing the count; the contained value is
    /// not copied.
    fn clone(&self) -> (r: Self)
        ensures
            r@ == self@,
            r.id() == self.id(),
    ;

    /// Moves the contained value out if this is the only owner; otherwise
    /// returns the pointer unchanged.
    fn try_unwrap(self) -> (r: Result<T, Self>)
        ensures
            match r {
                Ok(v) => v == self@,
                Err(p) => p@ == self@ && p.id() == self.id(),
            },
    ;

    /// Mutable access to the contained value if this is the only owner;
    /// nothing otherwise, and the pointer is left unchanged.
    fn get_mut(&mut self) -> (r: Option<&mut T>)
        ensures
            match r {
                Some(m) => {
                    &&& *m == old(self)@
                    &&& final(self)@ == *final(m)
                    &&& final(self).id() == old(self).id()
                },
                None => *final(self) == *old(self),
            },
    ;

    /// Clone-on-write mutable access: if other owners exist the value is
    /// first duplicated into a new allocation owned only by `self`, so that
    /// the mutation is never visible to the other owners.
    fn make_mut(&mut self) -> (r: &mut T) where T: Clone
        ensures
            cloned::<T>(old(self)@, *r),
            final(self)@ == *final(r),
    ;

    /// The number of owners of the allocation at the moment of the call; at
    /// least this one.  Under concurrent cloning and dropping the value may
    /// be stale as soon as it is read.
    fn strong_count(&self) -> (r: usize)
        ensures
            r >= 1,
    ;
}

} // verus!
