use native::{ClosureGuard, GParamType};

#[test]
fn closure_guard_refs_closure() {
    let ptr: usize = 0x1000;
    let (guard, ref_action) = ClosureGuard::new(ptr);
    assert_eq!(guard.as_ptr(), ptr);
    assert_eq!(ref_action.ptr, ptr);
}

#[test]
fn closure_guard_unrefs_on_drop() {
    let ptr: usize = 0x1000;
    let unref_fn: usize = 0x200;
    let (guard, ref_action) = ClosureGuard::new(ptr);

    let unref = guard.release(unref_fn);
    assert_eq!(unref.ptr, ref_action.ptr);
    assert_eq!(unref.func, unref_fn);
}

#[test]
fn closure_guard_from_ptr_with_valid_ptr() {
    let ptr: usize = 0x1000;
    let guard = ClosureGuard::from_ptr(ptr);

    assert!(guard.is_some());
    let (g, r) = guard.unwrap();
    assert_eq!(g.as_ptr(), ptr);
    assert_eq!(r.ptr, ptr);
}

#[test]
fn closure_guard_from_ptr_with_null_returns_none() {
    let guard = ClosureGuard::from_ptr(0);
    assert!(guard.is_none());
}

#[test]
fn gparam_type_new_creates_correct_type() {
    let gparam_type = GParamType::new(true);
    assert!(gparam_type.is_borrowed);

    let gparam_type = GParamType::new(false);
    assert!(!gparam_type.is_borrowed);
}

#[test]
fn gparam_type_equality() {
    let borrowed = GParamType::new(true);
    let not_borrowed = GParamType::new(false);
    let borrowed2 = GParamType::new(true);

    assert_eq!(borrowed, borrowed2);
    assert_ne!(borrowed, not_borrowed);
}

#[test]
fn gparam_type_clone() {
    let original = GParamType::new(true);
    let cloned = original;
    assert_eq!(original, cloned);
}
