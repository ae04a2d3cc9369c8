use vstd::prelude::*;

pub mod kind;

use core::cmp::Ordering;
use core::marker::PhantomData;
use core::ops::Deref;
use kind::SharedPointerKind;
use vstd::std_specs::cmp::OrdSpec;
use vstd::std_specs::cmp::PartialEqSpec;
use vstd::std_specs::cmp::PartialOrdSpec;

verus! {

/// Pointer to shared data with reference counting.
///
/// The type parameter `P` picks the counting strategy (the pointer kind), so
/// data structures can stay generic over it.  The wrapper owns exactly one
/// kind instance and forwards every operation to it; its abstract state is
/// the contained value (the `View`, written `@`) and the identity of the
/// allocation (`id`), shared by clones and nothing else.
pub struct SharedPointer<T, P>
where
    P: SharedPointerKind<T>,
{
    ptr: P,
    _phantom_t: PhantomData<T>,
}

impl<T, P> View for SharedPointer<T, P>
where
    P: SharedPointerKind<T>,
{
    type V = T;

    closed spec fn view(&self) -> T {
        self.ptr@
    }
}

impl<T, P> SharedPointer<T, P>
where
    P: SharedPointerKind<T>,
{
    /// Identity of the underlying allocation: clones share it, distinct live
    /// allocations differ in it.
    pub closed spec fn id(&self) -> int {
        self.ptr.id()
    }

    fn new_from_inner(ptr: P) -> (r: SharedPointer<T, P>)
        ensures
            r@ == ptr@,
            r.id() == ptr.id(),
    {
        SharedPointer { ptr, _phantom_t: PhantomData }
    }

    /// Allocates counted storage holding `v`; the count starts at one.
    pub fn new(v: T) -> (r: SharedPointer<T, P>)
        ensures
            r@ == v,
    {
        SharedPointer::new_from_inner(P::new(v))
    }

    /// Like `new`, but takes over an already boxed value, avoiding a copy.
    pub fn from_box(v: Box<T>) -> (r: SharedPointer<T, P>)
        ensures
            r@ == *v,
    {
        SharedPointer::new_from_inner(P::from_box(v))
    }

    /// Moves the contained value out if `this` is the only owner of the
    /// allocation; otherwise returns the pointer unchanged and still usable.
    pub fn try_unwrap(this: SharedPointer<T, P>) -> (r: Result<T, SharedPointer<T, P>>)
        ensures
            match r {
                Ok(v) => v == this@,
                Err(p) => p@ == this@ && p.id() == this.id(),
            },
    {
        match this.ptr.try_unwrap() {
            Ok(v) => Ok(v),
            Err(ptr) => Err(SharedPointer::new_from_inner(ptr)),
        }
    }

    /// Mutable access to the contained value if `this` is the only owner of
    /// the allocation; nothing otherwise, and the pointer is left unchanged.
    pub fn get_mut(this: &mut SharedPointer<T, P>) -> (r: Option<&mut T>)
        ensures
            match r {
                Some(m) => {
                    &&& *m == old(this)@
                    &&& final(this)@ == *final(m)
                    &&& final(this).id() == old(this).id()
                },
                None => *final(this) == *old(this),
            },
    {
        this.ptr.get_mut()
    }

    /// The number of owners of the allocation at the moment of the call; at
    /// least one.  On atomically counted kinds the value may be stale as soon
    /// as it is read and must not be used for synchronization.
    pub fn strong_count(this: &SharedPointer<T, P>) -> (r: usize)
        ensures
            r >= 1,
    {
        this.ptr.strong_count()
    }

    /// Whether the two pointers share one allocation.  Pointers of different
    /// kinds can never share storage, so across kinds this is always false.
    pub fn ptr_eq<PO: SharedPointerKind<T>>(
        this: &SharedPointer<T, P>,
        other: &SharedPointer<T, PO>,
    ) -> (r: bool)
        ensures
            r == (this.id() == other.id()),
    {
        this.ptr.addr() == other.ptr.addr()
    }
}

impl<T, P> core::ops::Deref for SharedPointer<T, P>
where
    P: SharedPointerKind<T>,
{
    type Target = T;

    /// Shared read-only access to the contained value.
    fn deref(&self) -> (r: &T)
        ensures
            *r == self@,
    {
        self.ptr.deref()
    }
}

impl<T, P> SharedPointer<T, P>
where
    T: Clone,
    P: SharedPointerKind<T>,
{
    /// Clone-on-write mutable access: if other owners exist the value is
    /// first duplicated into a new allocation owned only by `this`, so the
    /// mutation is never visible to the other owners, whose pointers this
    /// call does not touch.
    pub fn make_mut(this: &mut SharedPointer<T, P>) -> (r: &mut T)
        ensures
            cloned::<T>(old(this)@, *r),
            final(this)@ == *final(r),
    {
        this.ptr.make_mut()
    }
}

impl<T, P> Clone for SharedPointer<T, P>
where
    P: SharedPointerKind<T>,
{
    /// Duplicates the pointer to the same allocation, incrementing the
    /// count; the contained value is not copied.
    fn clone(&self) -> (r: Self)
        ensures
            r@ == self@,
            r.id() == self.id(),
    {
        SharedPointer::new_from_inner(SharedPointerKind::clone(&self.ptr))
    }
}

impl<T, P> Default for SharedPointer<T, P>
where
    T: Default,
    P: SharedPointerKind<T>,
{
    /// A pointer over the contained type's default value.
    fn default() -> (r: Self)
        ensures
            T::default.ensures((), r@),
    {
        SharedPointer::new(T::default())
    }
}

impl<T, P, PO> vstd::std_specs::cmp::PartialEqSpecImpl<SharedPointer<T, PO>> for SharedPointer<T, P> where
    T: PartialEq,
    P: SharedPointerKind<T>,
    PO: SharedPointerKind<T>,
 {
    open spec fn obeys_eq_spec() -> bool {
        T::obeys_eq_spec()
    }

    open spec fn eq_spec(&self, other: &SharedPointer<T, PO>) -> bool {
        self@.eq_spec(&other@)
    }
}

/// Equality of the dereferenced values, also between pointers of different
/// kinds; identity plays no part in it.
impl<T, P, PO> PartialEq<SharedPointer<T, PO>> for SharedPointer<T, P> where
    T: PartialEq,
    P: SharedPointerKind<T>,
    PO: SharedPointerKind<T>,
 {
    fn eq(&self, other: &SharedPointer<T, PO>) -> (r: bool) {
        self.deref().eq(other.deref())
    }

    fn ne(&self, other: &SharedPointer<T, PO>) -> (r: bool) {
        self.deref().ne(other.deref())
    }
}

impl<T, P> Eq for SharedPointer<T, P> where T: Eq, P: SharedPointerKind<T> {

}

impl<T, P, PO> vstd::std_specs::cmp::PartialOrdSpecImpl<SharedPointer<T, PO>> for SharedPointer<T, P> where
    T: PartialOrd,
    P: SharedPointerKind<T>,
    PO: SharedPointerKind<T>,
 {
    open spec fn obeys_partial_cmp_spec() -> bool {
        T::obeys_partial_cmp_spec()
    }

    open spec fn partial_cmp_spec(&self, other: &SharedPointer<T, PO>) -> Option<Ordering> {
        self@.partial_cmp_spec(&other@)
    }
}

/// Ordering of the dereferenced values, also between pointers of different
/// kinds; identity plays no part in it.
impl<T, P, PO> PartialOrd<SharedPointer<T, PO>> for SharedPointer<T, P> where
    T: PartialOrd,
    P: SharedPointerKind<T>,
    PO: SharedPointerKind<T>,
 {
    fn partial_cmp(&self, other: &SharedPointer<T, PO>) -> (r: Option<Ordering>) {
        self.deref().partial_cmp(other.deref())
    }

    fn lt(&self, other: &SharedPointer<T, PO>) -> (r: bool) {
        self.deref().lt(other.deref())
    }

    fn le(&self, other: &SharedPointer<T, PO>) -> (r: bool) {
        self.deref().le(other.deref())
    }

    fn gt(&self, other: &SharedPointer<T, PO>) -> (r: bool) {
        self.deref().gt(other.deref())
    }

    fn ge(&self, other: &SharedPointer<T, PO>) -> (r: bool) {
        self.deref().ge(other.deref())
    }
}

impl<T, P> SharedPointer<T, P>
where
    T: Ord,
    P: SharedPointerKind<T>,
{
    /// Total ordering of the dereferenced values.
    pub fn cmp(&self, other: &SharedPointer<T, P>) -> (r: Ordering)
        ensures
            T::obeys_cmp_spec() ==> r == self@.cmp_spec(&other@),
    {
        self.deref().cmp(other.deref())
    }
}

/// Hashing of the dereferenced value, so that pointers of any kind over
/// equal values hash alike.
impl<T, P> core::hash::Hash for SharedPointer<T, P>
where
    T: core::hash::Hash,
    P: SharedPointerKind<T>,
{
    /// Relies on `T`'s `Hash`: feeds the dereferenced value, and nothing
    /// else, to the hasher.
    #[verifier::external_body]
    fn hash<H: core::hash::Hasher>(&self, state: &mut H) {
        self.deref().hash(state);
    }
}

impl<T, P> vstd::std_specs::convert::FromSpecImpl<T> for SharedPointer<T, P> where
    P: SharedPointerKind<T>,
 {
    open spec fn obeys_from_spec() -> bool {
        false
    }

    open spec fn from_spec(v: T) -> Self {
        arbitrary()
    }
}

impl<T, P> From<T> for SharedPointer<T, P>
where
    P: SharedPointerKind<T>,
{
    /// The same as `new`: a fresh allocation holding `v`.  Which allocation
    /// the result owns is not a function of `v`, so the conversion has no
    /// `from_spec`; this `ensures` carries the contract instead.
    fn from(v: T) -> (r: Self)
        ensures
            r@ == v,
    {
        SharedPointer::new(v)
    }
}

impl<T, P> vstd::std_specs::convert::FromSpecImpl<Box<T>> for SharedPointer<T, P> where
    P: SharedPointerKind<T>,
 {
    open spec fn obeys_from_spec() -> bool {
        false
    }

    open spec fn from_spec(v: Box<T>) -> Self {
        arbitrary()
    }
}

impl<T, P> From<Box<T>> for SharedPointer<T, P>
where
    P: SharedPointerKind<T>,
{
    /// The same as `from_box`: counted storage taking over the boxed value.
    /// Which allocation the result owns is not a function of the value, so
    /// the conversion has no `from_spec`; this `ensures` carries the
    /// contract instead.
    fn from(v: Box<T>) -> (r: Self)
        ensures
            r@ == *v,
    {
        SharedPointer::from_box(v)
    }
}

/// Law: dereferencing a pointer constructed over `v` yields `v` again, for
/// every value, every kind, and every outcome of the two calls.
pub proof fn lemma_construct_dereference<T, P: SharedPointerKind<T>>(
    v: T,
    p: SharedPointer<T, P>,
    r: &T,
)
    requires
        call_ensures(SharedPointer::<T, P>::new, (v,), p),
        call_ensures(<SharedPointer<T, P> as Deref>::deref, (&p,), r),
    ensures
        *r == v,
{
}

/// Law: `try_unwrap` loses nothing.  Either it yields exactly the contained
/// value, or it gives back a pointer with the same value and the same
/// identity as the one passed in.
pub proof fn lemma_try_unwrap_preserves<T, P: SharedPointerKind<T>>(
    p: SharedPointer<T, P>,
    r: Result<T, SharedPointer<T, P>>,
)
    requires
        call_ensures(SharedPointer::<T, P>::try_unwrap, (p,), r),
    ensures
        r matches Ok(v) ==> v == p@,
        r matches Err(q) ==> q@ == p@ && q.id() == p.id(),
{
}

/// Law: a pointer and its clone are identity-equal: the clone shares the
/// allocation, and `ptr_eq` reports exactly that.
pub proof fn lemma_clone_identity_equal<T, P: SharedPointerKind<T>>(
    p: SharedPointer<T, P>,
    q: SharedPointer<T, P>,
    b: bool,
)
    requires
        call_ensures(<SharedPointer<T, P> as Clone>::clone, (&p,), q),
        call_ensures(SharedPointer::<T, P>::ptr_eq::<P>, (&p, &q), b),
    ensures
        b,
{
}

/// Law: equality of two pointers, of the same or of different kinds, agrees
/// with equality of the dereferenced bare values, whenever the contained
/// type's own equality obeys its specification.
pub proof fn lemma_eq_agrees_with_values<T, P, PO>(
    a: SharedPointer<T, P>,
    b: SharedPointer<T, PO>,
    r: bool,
) where T: PartialEq, P: SharedPointerKind<T>, PO: SharedPointerKind<T>
    requires
        T::obeys_eq_spec(),
        call_ensures(<SharedPointer<T, P> as PartialEq<SharedPointer<T, PO>>>::eq, (&a, &b), r),
    ensures
        r == a@.eq_spec(&b@),
{
}

/// Law: ordering of two pointers, of the same or of different kinds, agrees
/// with ordering of the dereferenced bare values, whenever the contained
/// type's own comparison obeys its specification.
pub proof fn lemma_ord_agrees_with_values<T, P, PO>(
    a: SharedPointer<T, P>,
    b: SharedPointer<T, PO>,
    r: Option<Ordering>,
) where T: PartialOrd, P: SharedPointerKind<T>, PO: SharedPointerKind<T>
    requires
        T::obeys_partial_cmp_spec(),
        call_ensures(
            <SharedPointer<T, P> as PartialOrd<SharedPointer<T, PO>>>::partial_cmp,
            (&a, &b),
            r,
        ),
    ensures
        r == a@.partial_cmp_spec(&b@),
{
}

} // verus!


