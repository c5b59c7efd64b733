use libgssapi::oid::{mech_krb5, nt_hostbased_service, nt_krb5_principal, nt_user_name, Oid};

#[test]
fn well_known_identifiers_have_their_standard_encodings() {
    assert_eq!(
        nt_hostbased_service().as_bytes(),
        &[0x2a, 0x86, 0x48, 0x86, 0xf7, 0x12, 0x01, 0x02, 0x01, 0x04]
    );
    assert_eq!(
        nt_user_name().as_bytes(),
        &[0x2a, 0x86, 0x48, 0x86, 0xf7, 0x12, 0x01, 0x02, 0x01, 0x01]
    );
    assert_eq!(
        nt_krb5_principal().as_bytes(),
        &[0x2a, 0x86, 0x48, 0x86, 0xf7, 0x12, 0x01, 0x02, 0x02, 0x01]
    );
    assert_eq!(
        mech_krb5().as_bytes(),
        &[0x2a, 0x86, 0x48, 0x86, 0xf7, 0x12, 0x01, 0x02, 0x02]
    );
}

#[test]
fn identifiers_compare_by_their_bytes() {
    let a = nt_hostbased_service();
    let b = nt_hostbased_service();
    let c = nt_user_name();
    assert!(a.eq_oid(&b));
    assert!(b.eq_oid(&a));
    assert!(!a.eq_oid(&c));
    // The mechanism identifier is a strict prefix of the principal
    // syntax: a length mismatch alone must be unequal.
    assert!(!mech_krb5().eq_oid(&nt_krb5_principal()));
}

#[test]
fn wrapped_bytes_come_back_unchanged() {
    let raw = vec![0x2a, 0x03, 0x7f];
    let oid = Oid::from_bytes(raw.clone());
    assert_eq!(oid.as_bytes(), raw.as_slice());
    assert_eq!(oid.len(), 3);
}
