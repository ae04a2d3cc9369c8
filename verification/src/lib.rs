//! Reference-counted pointers with the counting strategy as a type parameter.
//!
//! `SharedPointer<T, P>` defers the choice between non-atomic and atomic
//! reference counting to instantiation time: data structures can be generic
//! over the pointer kind `P` instead of committing to `Rc` or `Arc`.

mod shared_pointer;

pub use shared_pointer::SharedPointer;
pub use shared_pointer::kind::SharedPointerKind;
pub use shared_pointer::kind::RcK;
pub use shared_pointer::kind::SharedPointerKindArc;
pub use shared_pointer::kind::ArcK;
pub use shared_pointer::kind::ArcTK;
