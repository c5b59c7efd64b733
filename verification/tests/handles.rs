use libgssapi::error::{GSS_S_BAD_MECH, GSS_S_BAD_NAME, GSS_S_COMPLETE};
use libgssapi::name::{compare_outcome, Name, GSS_C_NO_NAME};

#[test]
fn successful_outcome_owns_the_reference() {
    let n = Name::from_outcome(GSS_S_COMPLETE, 0, 42).unwrap();
    assert_eq!(n.raw(), 42);
}

#[test]
fn failed_outcome_yields_the_decoded_error_and_no_handle() {
    // A failed native call leaves no valid reference in its output
    // parameter, so nothing needs releasing.
    let r = Name::from_outcome(GSS_S_BAD_NAME, 9, 0);
    let e = r.unwrap_err();
    assert_eq!(e.major, GSS_S_BAD_NAME);
    assert_eq!(e.minor, 9);
    assert_ne!(e.major, GSS_S_COMPLETE);
}

#[test]
fn release_happens_exactly_once() {
    let mut n = Name::from_outcome(GSS_S_COMPLETE, 0, 7).unwrap();
    assert_eq!(n.release_plan(), Some(7));
    // The absent sentinel is left behind: a second release is a no-op.
    assert_eq!(n.raw(), GSS_C_NO_NAME);
    assert_eq!(n.release_plan(), None);
    assert_eq!(n.release_plan(), None);
}

#[test]
fn releasing_an_absent_handle_is_a_no_op() {
    let mut n = Name::from_outcome(GSS_S_COMPLETE, 0, GSS_C_NO_NAME).unwrap();
    assert_eq!(n.release_plan(), None);
}

#[test]
fn releasing_one_handle_leaves_another_untouched() {
    let mut n1 = Name::from_outcome(GSS_S_COMPLETE, 0, 7).unwrap();
    let mut n2 = Name::from_outcome(GSS_S_COMPLETE, 0, 8).unwrap();
    assert_eq!(n1.release_plan(), Some(7));
    // The duplicate's own reference is still owned and still releasable.
    assert_eq!(n2.raw(), 8);
    assert_eq!(n2.release_plan(), Some(8));
}

#[test]
fn comparison_reads_the_flag_only() {
    assert!(compare_outcome(1));
    assert!(!compare_outcome(0));
    // A failed comparison call leaves the zero-initialised flag untouched
    // and reads as "not equal", never as an error.
    assert!(!compare_outcome(-1));
    assert!(!compare_outcome(2));
}

#[test]
fn distinct_error_majors_stay_distinct() {
    let e1 = Name::from_outcome(GSS_S_BAD_NAME, 0, 0).unwrap_err();
    let e2 = Name::from_outcome(GSS_S_BAD_MECH, 0, 0).unwrap_err();
    assert_ne!(e1, e2);
}
