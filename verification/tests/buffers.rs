use libgssapi::buf::{bytes_equal, Buf, BufRef};
use libgssapi::error::{GSS_S_BAD_MECH, GSS_S_COMPLETE};

#[test]
fn an_empty_descriptor_owns_nothing() {
    let mut b = Buf::empty();
    assert_eq!(b.as_parts(), (0, 0));
    assert_eq!(b.release_plan(), None);
}

#[test]
fn a_populated_descriptor_is_released_exactly_once() {
    let mut b = Buf::from_outcome(GSS_S_COMPLETE, 0, 0x1000, 17).unwrap();
    assert_eq!(b.as_parts(), (0x1000, 17));
    assert_eq!(b.release_plan(), Some((0x1000, 17)));
    // The zeroed state is left behind: a second release is a no-op.
    assert_eq!(b.as_parts(), (0, 0));
    assert_eq!(b.release_plan(), None);
}

#[test]
fn a_failed_populating_call_yields_the_error_and_no_region() {
    let e = Buf::from_outcome(GSS_S_BAD_MECH, 4, 0, 0).unwrap_err();
    assert_eq!(e.major, GSS_S_BAD_MECH);
    assert_eq!(e.minor, 4);
    assert_ne!(e.major, GSS_S_COMPLETE);
}

#[test]
fn a_borrowed_view_exposes_the_bytes_unchanged() {
    let data = b"token bytes";
    let view = BufRef::from_bytes(data);
    assert_eq!(view.as_bytes(), data);
    assert_eq!(view.len(), data.len());
}

#[test]
fn token_comparison_is_byte_wise() {
    assert!(bytes_equal(b"", b""));
    assert!(bytes_equal(b"exported token", b"exported token"));
    assert!(!bytes_equal(b"exported token", b"exported token!"));
    assert!(!bytes_equal(b"exported token", b"exported Token"));
    assert!(!bytes_equal(b"", b"x"));
}

#[test]
fn a_borrowed_view_of_nothing_is_empty() {
    let view = BufRef::from_bytes(&[]);
    assert_eq!(view.len(), 0);
    assert_eq!(view.as_bytes(), &[] as &[u8]);
}
