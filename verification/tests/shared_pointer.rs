use archery::ArcK;
use archery::RcK;
use archery::SharedPointer;
use archery::SharedPointerKind;
use std::cell::Cell;
use std::cmp::Ordering;
use std::hash::Hash;
use std::hash::Hasher;
use std::ops::Deref;

fn ok_of<T, E>(r: Result<T, E>) -> T {
    match r {
        Ok(v) => v,
        Err(_) => panic!("expected success"),
    }
}

fn err_of<T, E>(r: Result<T, E>) -> E {
    match r {
        Ok(_) => panic!("expected failure"),
        Err(e) => e,
    }
}

#[test]
fn test_test_deref() {
    let ptr_42: SharedPointer<i32, RcK<i32>> = SharedPointer::new(42);
    let ptr_box_dyn_hello: SharedPointer<Box<dyn ToString>, RcK<Box<dyn ToString>>> =
        SharedPointer::new(Box::new("hello"));

    assert_eq!(*ptr_42, 42);
    assert_eq!(ptr_box_dyn_hello.to_string(), "hello");

    assert_eq!(*ptr_42.deref(), 42);
    assert_eq!(ptr_box_dyn_hello.deref().to_string(), "hello");
}

#[test]
fn test_try_unwrap() {
    let ptr: SharedPointer<i32, RcK<i32>> = SharedPointer::new(42);

    assert_eq!(ok_of(SharedPointer::try_unwrap(ptr)), 42);

    let ptr: SharedPointer<i32, RcK<i32>> = SharedPointer::new(42);
    let ptr_clone = SharedPointer::clone(&ptr);

    let ptr_clone = err_of(SharedPointer::try_unwrap(ptr_clone));
    let ptr = err_of(SharedPointer::try_unwrap(ptr));

    assert_eq!(*ptr, 42);
    assert_eq!(*ptr_clone, 42);
}

#[test]
fn test_get_mut() {
    let mut ptr: SharedPointer<i32, RcK<i32>> = SharedPointer::new(42);

    assert_eq!(*ptr, 42);

    *SharedPointer::get_mut(&mut ptr).unwrap() += 1;

    assert_eq!(*ptr, 43);

    let mut ptr_clone = SharedPointer::clone(&ptr);

    assert_eq!(SharedPointer::get_mut(&mut ptr), None);
    assert_eq!(SharedPointer::get_mut(&mut ptr_clone), None);

    drop(ptr);

    *SharedPointer::get_mut(&mut ptr_clone).unwrap() += 1;

    assert_eq!(*ptr_clone, 44);
}

#[test]
fn test_strong_count() {
    let ptr: SharedPointer<i32, RcK<i32>> = SharedPointer::new(42);

    assert_eq!(SharedPointer::strong_count(&ptr), 1);

    let ptr_clone = SharedPointer::clone(&ptr);

    assert_eq!(SharedPointer::strong_count(&ptr), 2);
    assert_eq!(SharedPointer::strong_count(&ptr_clone), 2);

    drop(ptr);

    assert_eq!(SharedPointer::strong_count(&ptr_clone), 1);
}

#[test]
fn test_ptr_eq() {
    let ptr: SharedPointer<i32, RcK<i32>> = SharedPointer::new(42);
    let ptr_same_content: SharedPointer<i32, RcK<i32>> = SharedPointer::new(42);
    let ptr_clone: SharedPointer<i32, RcK<i32>> = SharedPointer::clone(&ptr);

    assert!(SharedPointer::ptr_eq(&ptr, &ptr));
    assert!(!SharedPointer::ptr_eq(&ptr, &ptr_same_content));
    assert!(SharedPointer::ptr_eq(&ptr, &ptr_clone));
}

#[test]
fn test_make_mut() {
    let mut ptr: SharedPointer<i32, RcK<i32>> = SharedPointer::new(42);

    assert_eq!(*ptr, 42);

    *SharedPointer::make_mut(&mut ptr) += 1;

    assert_eq!(*ptr, 43);

    // Clone to force make_mut to clone the data.
    let mut ptr_clone = SharedPointer::clone(&ptr);

    assert_eq!(*ptr_clone, 43);

    *SharedPointer::make_mut(&mut ptr_clone) += 1;

    assert_eq!(*ptr, 43);
    assert_eq!(*ptr_clone, 44);

    *SharedPointer::make_mut(&mut ptr) *= 2;

    assert_eq!(*ptr, 2 * 43);
    assert_eq!(*ptr_clone, 44);

    drop(ptr);

    assert_eq!(*ptr_clone, 44);
}

#[test]
fn test_clone() {
    let ptr: SharedPointer<Cell<i32>, RcK<Cell<i32>>> = SharedPointer::new(Cell::new(42));
    let ptr_clone = SharedPointer::clone(&ptr);

    assert_eq!(ptr.get(), 42);
    assert_eq!(ptr_clone.get(), 42);

    ptr_clone.set(3);

    assert_eq!(ptr.get(), 3);
    assert_eq!(ptr_clone.get(), 3);

    drop(ptr);

    assert_eq!(ptr_clone.get(), 3);
}

fn hash<T: Hash, P: SharedPointerKind<T>>(pointer: &SharedPointer<T, P>) -> u64 {
    let mut hasher = std::collections::hash_map::DefaultHasher::new();

    pointer.hash(&mut hasher);

    hasher.finish()
}

#[test]
fn test_hash() {
    let ptr_42: SharedPointer<i32, RcK<i32>> = SharedPointer::new(42);
    let ptr_hello: SharedPointer<&str, RcK<&str>> = SharedPointer::new("hello");

    assert_eq!(hash(&ptr_42), hash(&SharedPointer::<i32, RcK<i32>>::new(42)));
    assert_eq!(hash(&ptr_hello), hash(&SharedPointer::<&str, RcK<&str>>::new("hello")));
}

#[test]
fn test_hash_pointer_kind_consistent() {
    let ptr_hello_rc: SharedPointer<&str, RcK<&str>> = SharedPointer::new("hello");
    let ptr_hello_arc: SharedPointer<&str, ArcK<&str>> = SharedPointer::new("hello");

    assert_eq!(hash(&ptr_hello_rc), hash(&ptr_hello_arc));
}

#[allow(clippy::eq_op)]
#[allow(clippy::nonminimal_bool)]
#[test]
fn test_eq() {
    let ptr_22: SharedPointer<i32, RcK<i32>> = SharedPointer::new(22);
    let ptr_42: SharedPointer<i32, RcK<i32>> = SharedPointer::new(42);

    assert!(ptr_22 == SharedPointer::<i32, RcK<i32>>::new(22));
    assert!(ptr_22 == SharedPointer::<i32, ArcK<i32>>::new(22));
    assert!(ptr_22 == ptr_22);
    assert!(!(ptr_22 == SharedPointer::<i32, RcK<i32>>::new(42)));
    assert!(!(ptr_22 == SharedPointer::<i32, ArcK<i32>>::new(42)));
    assert!(!(ptr_22 == ptr_42));

    assert!(ptr_22 != SharedPointer::<i32, RcK<i32>>::new(42));
    assert!(ptr_22 != SharedPointer::<i32, ArcK<i32>>::new(42));
    assert!(ptr_22 != ptr_42);
    assert!(!(ptr_22 != SharedPointer::<i32, RcK<i32>>::new(22)));
    assert!(!(ptr_22 != SharedPointer::<i32, ArcK<i32>>::new(22)));
    assert!(!(ptr_22 != ptr_22));
}

#[allow(clippy::nonminimal_bool)]
#[test]
fn test_ord() {
    let ptr_22: SharedPointer<i32, RcK<i32>> = SharedPointer::new(22);
    let ptr_42: SharedPointer<i32, RcK<i32>> = SharedPointer::new(42);

    assert_eq!(
        ptr_22.partial_cmp(&SharedPointer::<i32, RcK<i32>>::new(22)),
        Some(Ordering::Equal)
    );
    assert_eq!(
        ptr_22.partial_cmp(&SharedPointer::<i32, RcK<i32>>::new(42)),
        Some(Ordering::Less)
    );
    assert_eq!(
        ptr_42.partial_cmp(&SharedPointer::<i32, RcK<i32>>::new(22)),
        Some(Ordering::Greater)
    );

    assert_eq!(ptr_22.cmp(&SharedPointer::<i32, RcK<i32>>::new(22)), Ordering::Equal);
    assert_eq!(ptr_22.cmp(&SharedPointer::<i32, RcK<i32>>::new(42)), Ordering::Less);
    assert_eq!(ptr_42.cmp(&SharedPointer::<i32, RcK<i32>>::new(22)), Ordering::Greater);

    assert!(ptr_22 < SharedPointer::<i32, RcK<i32>>::new(42));
    assert!(ptr_22 < SharedPointer::<i32, ArcK<i32>>::new(42));
    assert!(ptr_22 < ptr_42);
    assert!(!(ptr_42 < SharedPointer::<i32, RcK<i32>>::new(22)));
    assert!(!(ptr_42 < SharedPointer::<i32, ArcK<i32>>::new(22)));
    assert!(!(ptr_42 < ptr_22));
    assert!(!(ptr_22 < ptr_22));

    assert!(ptr_22 <= SharedPointer::<i32, RcK<i32>>::new(42));
    assert!(ptr_22 <= SharedPointer::<i32, ArcK<i32>>::new(42));
    assert!(ptr_22 <= ptr_42);
    assert!(ptr_22 <= ptr_22);
    assert!(!(ptr_42 <= SharedPointer::<i32, RcK<i32>>::new(22)));
    assert!(!(ptr_42 <= SharedPointer::<i32, ArcK<i32>>::new(22)));
    assert!(!(ptr_42 <= ptr_22));

    assert!(ptr_42 > SharedPointer::<i32, RcK<i32>>::new(22));
    assert!(ptr_42 > SharedPointer::<i32, ArcK<i32>>::new(22));
    assert!(ptr_42 > ptr_22);
    assert!(!(ptr_22 > SharedPointer::<i32, RcK<i32>>::new(42)));
    assert!(!(ptr_22 > SharedPointer::<i32, ArcK<i32>>::new(42)));
    assert!(!(ptr_22 > ptr_42));
    assert!(!(ptr_42 > ptr_42));

    assert!(ptr_42 >= SharedPointer::<i32, RcK<i32>>::new(22));
    assert!(ptr_42 >= SharedPointer::<i32, ArcK<i32>>::new(22));
    assert!(ptr_42 >= ptr_22);
    assert!(ptr_42 >= ptr_42);
    assert!(!(ptr_22 >= SharedPointer::<i32, RcK<i32>>::new(42)));
    assert!(!(ptr_22 >= SharedPointer::<i32, ArcK<i32>>::new(42)));
    assert!(!(ptr_22 >= ptr_42));
}

#[test]
fn test_default() {
    let ptr: SharedPointer<i32, RcK<i32>> = SharedPointer::default();

    assert_eq!(*ptr, 0);
}

#[test]
fn test_from_box_t() {
    let ptr: SharedPointer<i32, RcK<i32>> = SharedPointer::from(Box::new(42));

    assert_eq!(*ptr, 42);
}

#[test]
fn test_from_t() {
    let ptr: SharedPointer<i32, RcK<i32>> = SharedPointer::from(42);

    assert_eq!(*ptr, 42);
}
