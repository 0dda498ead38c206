use native::{Boxed, BoxedAcquire, CopyRequest, FreeAction, OwnedPtr};

#[test]
fn boxed_from_glib_full_owns_pointer() {
    let gtype: usize = 7;
    let ptr: usize = 0x1000;

    let boxed = Boxed::from_glib_full(Some(gtype), ptr);

    assert_eq!(boxed.as_ptr(), ptr);
    assert!(boxed.is_owned());
    assert_eq!(boxed.gtype(), Some(gtype));
}

#[test]
fn boxed_from_glib_full_null_not_owned() {
    let boxed = Boxed::from_glib_full(None, 0);

    assert_eq!(boxed.as_ptr(), 0);
    assert!(boxed.is_owned());
}

#[test]
fn boxed_from_glib_none_copies_pointer() {
    let gtype: usize = 7;
    let original_ptr: usize = 0x2000;

    let acquire = Boxed::from_glib_none(Some(gtype), original_ptr)
        .expect("acquiring a borrowed pointer with a known type must succeed");
    let request = match acquire {
        BoxedAcquire::NeedsCopy { request, .. } => request,
        BoxedAcquire::Done(_) => panic!("a borrowed non-null pointer must be copied"),
    };
    assert_eq!(
        request,
        CopyRequest::TypedCopy { gtype, src: original_ptr }
    );

    let copied_ptr: usize = 0x3000;
    let boxed = acquire.complete(copied_ptr);
    assert_ne!(boxed.as_ptr(), original_ptr);
    assert_eq!(boxed.as_ptr(), copied_ptr);
    assert!(boxed.is_owned());
}

#[test]
fn boxed_from_glib_none_null_not_owned() {
    let gtype: usize = 7;
    let acquire = Boxed::from_glib_none(Some(gtype), 0).unwrap();

    let boxed = match acquire {
        BoxedAcquire::Done(b) => b,
        BoxedAcquire::NeedsCopy { .. } => panic!("a null pointer needs no copy"),
    };
    assert_eq!(boxed.as_ptr(), 0);
    assert!(!boxed.is_owned());
}

#[test]
fn boxed_clone_copies_when_owned() {
    let gtype: usize = 7;
    let ptr: usize = 0x4000;
    let boxed = Boxed::from_glib_full(Some(gtype), ptr);

    let plan = boxed.clone_plan();
    let request = match plan {
        BoxedAcquire::NeedsCopy { request, .. } => request,
        BoxedAcquire::Done(_) => panic!("an owned typed value must be re-copied"),
    };
    assert_eq!(request, CopyRequest::TypedCopy { gtype, src: ptr });

    let cloned = plan.complete(0x5000);
    assert_ne!(cloned.as_ptr(), boxed.as_ptr());
    assert!(cloned.is_owned());
}

#[test]
fn boxed_clone_borrows_when_not_owned() {
    let gtype: usize = 7;
    let acquire = Boxed::from_glib_none(Some(gtype), 0).unwrap();
    let boxed = match acquire {
        BoxedAcquire::Done(b) => b,
        BoxedAcquire::NeedsCopy { .. } => panic!("a null pointer needs no copy"),
    };

    let cloned = match boxed.clone_plan() {
        BoxedAcquire::Done(b) => b,
        BoxedAcquire::NeedsCopy { .. } => panic!("an unowned value is aliased, not copied"),
    };

    assert_eq!(cloned.as_ptr(), 0);
    assert!(!cloned.is_owned());
}

#[test]
fn boxed_from_glib_none_with_size_copies_without_gtype() {
    let ptr: usize = 0x6000;

    let acquire = Boxed::from_glib_none_with_size(None, ptr, Some(16), Some("TestStruct"))
        .expect("a borrowed pointer with a known size must be copyable");
    let request = match &acquire {
        BoxedAcquire::NeedsCopy { request, .. } => request.clone(),
        BoxedAcquire::Done(_) => panic!("a borrowed non-null pointer must be copied"),
    };
    assert_eq!(request, CopyRequest::ByteCopy { size: 16, src: ptr });

    let boxed = acquire.complete(0x7000);
    assert_ne!(boxed.as_ptr(), 0);
    assert_ne!(boxed.as_ptr(), ptr);
    assert!(boxed.is_owned());
}

#[test]
fn boxed_from_glib_none_without_size_or_gtype_fails() {
    let ptr: usize = 0x8000;

    let result = Boxed::from_glib_none_with_size(None, ptr, None, Some("TestStruct"));

    assert!(result.is_err());
    let err = result.unwrap_err();
    assert!(err.message().contains("Cannot safely copy"));
}

#[test]
fn boxed_release_frees_owned_pointer_once() {
    let boxed = Boxed::from_glib_full(Some(7), 0x9000);
    let action = boxed.release();
    assert_eq!(action, Some(FreeAction::TypedFree { gtype: 7, ptr: 0x9000 }));

    let raw = Boxed::from_glib_full(None, 0xa000);
    assert_eq!(raw.release(), Some(FreeAction::RawFree { ptr: 0xa000 }));
}

#[test]
fn boxed_release_skips_borrowed_pointer() {
    let acquire = Boxed::from_glib_none(Some(7), 0).unwrap();
    let boxed = match acquire {
        native::BoxedAcquire::Done(b) => b,
        _ => panic!("a null pointer needs no copy"),
    };
    assert_eq!(boxed.release(), None);
}

#[test]
fn owned_ptr_tracks_ownership() {
    let full = OwnedPtr::from_full(0x10);
    assert!(full.is_owned());
    assert!(full.should_free());

    let none = OwnedPtr::from_none(0x10);
    assert!(!none.is_owned());
    assert!(!none.should_free());

    let null = OwnedPtr::null();
    assert!(null.is_null());
    assert!(!null.should_free());

    let borrowed = full.borrow();
    assert_eq!(borrowed.as_ptr(), 0x10);
    assert!(!borrowed.is_owned());
}
