use native::{Fundamental, FundamentalAcquire, UnrefAction};

const REF_FN: usize = 0x100;
const UNREF_FN: usize = 0x200;

#[test]
fn from_glib_full_takes_ownership() {
    let ptr: usize = 0x1000;

    let fundamental = Fundamental::from_glib_full(ptr, Some(REF_FN), Some(UNREF_FN));

    assert!(fundamental.is_owned());
    assert_eq!(fundamental.as_ptr(), ptr);
}

#[test]
fn from_glib_full_drop_calls_unref() {
    let ptr: usize = 0x1000;

    let fundamental = Fundamental::from_glib_full(ptr, Some(REF_FN), Some(UNREF_FN));
    let action = fundamental.release();

    assert_eq!(action, Some(UnrefAction { func: UNREF_FN, ptr }));
}

#[test]
fn from_glib_none_refs_pointer() {
    let ptr: usize = 0x1000;

    let acquire = Fundamental::from_glib_none(ptr, Some(REF_FN), Some(UNREF_FN));
    let (func, arg) = match acquire {
        FundamentalAcquire::NeedsRef { func, arg, .. } => (func, arg),
        FundamentalAcquire::Done(_) => panic!("a borrowed pointer with a ref function must be re-referenced"),
    };
    assert_eq!(func, REF_FN);
    assert_eq!(arg, ptr);

    // For ref-counted types the ref function hands the same pointer back;
    // whatever it returns is what the value owns afterwards.
    let fundamental = acquire.complete(ptr);
    assert!(fundamental.is_owned());
    assert_eq!(fundamental.as_ptr(), ptr);

    assert_eq!(
        fundamental.release(),
        Some(UnrefAction { func: UNREF_FN, ptr })
    );
}

#[test]
fn from_glib_none_copy_on_ref_adopts_returned_pointer() {
    let ptr: usize = 0x1000;
    let copied: usize = 0x2000;

    let acquire = Fundamental::from_glib_none(ptr, Some(REF_FN), Some(UNREF_FN));
    let fundamental = acquire.complete(copied);

    assert_eq!(fundamental.as_ptr(), copied);
    assert_eq!(
        fundamental.release(),
        Some(UnrefAction { func: UNREF_FN, ptr: copied })
    );
}

#[test]
fn from_glib_none_null_ptr_safe() {
    let acquire = Fundamental::from_glib_none(0, Some(REF_FN), Some(UNREF_FN));

    let fundamental = match acquire {
        FundamentalAcquire::Done(f) => f,
        FundamentalAcquire::NeedsRef { .. } => panic!("a null pointer is never re-referenced"),
    };
    assert!(!fundamental.is_owned());
    assert_eq!(fundamental.as_ptr(), 0);
    assert_eq!(fundamental.release(), None);
}

#[test]
fn clone_increases_refcount() {
    let ptr: usize = 0x1000;
    let fundamental = Fundamental::from_glib_full(ptr, Some(REF_FN), Some(UNREF_FN));

    let plan = fundamental.clone_plan();
    let (func, arg) = match plan {
        FundamentalAcquire::NeedsRef { func, arg, .. } => (func, arg),
        FundamentalAcquire::Done(_) => panic!("cloning with a ref function must re-reference"),
    };
    assert_eq!(func, REF_FN);
    assert_eq!(arg, ptr);

    let cloned = plan.complete(ptr);
    assert_eq!(cloned.as_ptr(), ptr);

    // The clone's release pairs the one ref the clone took.
    assert_eq!(cloned.release(), Some(UnrefAction { func: UNREF_FN, ptr }));
    assert_eq!(
        fundamental.release(),
        Some(UnrefAction { func: UNREF_FN, ptr })
    );
}

#[test]
fn clone_null_ptr_safe() {
    let acquire = Fundamental::from_glib_none(0, Some(REF_FN), Some(UNREF_FN));
    let fundamental = match acquire {
        FundamentalAcquire::Done(f) => f,
        _ => panic!("a null pointer is never re-referenced"),
    };

    let cloned = match fundamental.clone_plan() {
        FundamentalAcquire::Done(f) => f,
        FundamentalAcquire::NeedsRef { .. } => panic!("a null value clones without a ref call"),
    };

    assert_eq!(cloned.as_ptr(), 0);
}

#[test]
fn drop_without_unref_fn_does_not_crash() {
    let ptr: usize = 0x1000;

    let fundamental = Fundamental::from_glib_full(ptr, Some(REF_FN), None);
    assert_eq!(fundamental.release(), None);
}

#[test]
fn from_glib_none_without_ref_fn_does_not_ref() {
    let ptr: usize = 0x1000;

    let acquire = Fundamental::from_glib_none(ptr, None, Some(UNREF_FN));

    let fundamental = match acquire {
        FundamentalAcquire::Done(f) => f,
        FundamentalAcquire::NeedsRef { .. } => panic!("without a ref function nothing is called"),
    };
    assert!(fundamental.is_owned());
    assert_eq!(fundamental.as_ptr(), ptr);
}

#[test]
fn multiple_clones_maintain_correct_refcount() {
    let ptr: usize = 0x1000;
    let fundamental = Fundamental::from_glib_full(ptr, Some(REF_FN), Some(UNREF_FN));

    // Each clone requests exactly one ref call, and each completed clone's
    // release requests exactly one unref of the pointer the ref returned:
    // three clones, three refs, three unrefs, plus the original's one.
    let mut refs: usize = 0;
    let mut unrefs: usize = 0;

    let clone1 = match fundamental.clone_plan() {
        FundamentalAcquire::NeedsRef { func, arg, .. } => {
            assert_eq!((func, arg), (REF_FN, ptr));
            refs += 1;
            fundamental.clone_plan().complete(ptr)
        },
        _ => panic!("cloning with a ref function must re-reference"),
    };
    let clone2 = match fundamental.clone_plan() {
        FundamentalAcquire::NeedsRef { .. } => {
            refs += 1;
            fundamental.clone_plan().complete(ptr)
        },
        _ => panic!("cloning with a ref function must re-reference"),
    };
    let clone3 = match clone1.clone_plan() {
        FundamentalAcquire::NeedsRef { .. } => {
            refs += 1;
            clone1.clone_plan().complete(ptr)
        },
        _ => panic!("cloning with a ref function must re-reference"),
    };

    for c in [clone3, clone2, clone1] {
        assert_eq!(c.release(), Some(UnrefAction { func: UNREF_FN, ptr }));
        unrefs += 1;
    }
    assert_eq!(refs, unrefs);

    assert_eq!(
        fundamental.release(),
        Some(UnrefAction { func: UNREF_FN, ptr })
    );
}
