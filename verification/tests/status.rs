use libgssapi::error::{
    decode, Error, GSS_C_CALLING_ERROR_MASK, GSS_C_ROUTINE_ERROR_MASK, GSS_C_SUPPLEMENTARY_MASK,
    GSS_S_BAD_MECH, GSS_S_BAD_NAME, GSS_S_BAD_NAMETYPE, GSS_S_CALL_BAD_STRUCTURE,
    GSS_S_CALL_INACCESSIBLE_READ, GSS_S_COMPLETE, GSS_S_CONTINUE_NEEDED, GSS_S_DUPLICATE_TOKEN,
    GSS_S_FAILURE, GSS_S_NAME_NOT_MN,
};

#[test]
fn complete_decodes_to_success() {
    assert!(decode(GSS_S_COMPLETE, 0).is_ok());
    // The minor word is ignored on success.
    assert!(decode(GSS_S_COMPLETE, 0xdead_beef).is_ok());
}

#[test]
fn failure_carries_both_words() {
    let e = decode(GSS_S_BAD_NAME, 77).unwrap_err();
    assert_eq!(e.major, GSS_S_BAD_NAME);
    assert_eq!(e.minor, 77);
    assert_ne!(e.major, GSS_S_COMPLETE);
}

#[test]
fn any_nonzero_major_is_a_failure() {
    // Even a bare supplementary bit is treated as a failure by this layer.
    assert!(decode(GSS_S_CONTINUE_NEEDED, 0).is_err());
    assert!(decode(GSS_S_FAILURE, 0).is_err());
    assert!(decode(GSS_S_CALL_INACCESSIBLE_READ, 0).is_err());
}

#[test]
fn fields_are_extracted_by_range() {
    let major = GSS_S_CALL_BAD_STRUCTURE | GSS_S_BAD_NAMETYPE | GSS_S_DUPLICATE_TOKEN;
    let e = decode(major, 5).unwrap_err();
    assert_eq!(e.calling_error(), GSS_S_CALL_BAD_STRUCTURE);
    assert_eq!(e.routine_error(), GSS_S_BAD_NAMETYPE);
    assert_eq!(e.supplementary_info(), GSS_S_DUPLICATE_TOKEN);
}

#[test]
fn routine_error_values_sit_in_the_routine_field() {
    for major in [GSS_S_BAD_MECH, GSS_S_BAD_NAME, GSS_S_NAME_NOT_MN, GSS_S_FAILURE] {
        assert_eq!(major & GSS_C_ROUTINE_ERROR_MASK, major);
        assert_eq!(major & GSS_C_CALLING_ERROR_MASK, 0);
        assert_eq!(major & GSS_C_SUPPLEMENTARY_MASK, 0);
    }
}

#[test]
fn errors_compare_by_both_words() {
    let a = Error { major: GSS_S_BAD_NAME, minor: 1 };
    let b = Error { major: GSS_S_BAD_NAME, minor: 1 };
    let c = Error { major: GSS_S_BAD_NAME, minor: 2 };
    assert_eq!(a, b);
    assert_ne!(a, c);
}
