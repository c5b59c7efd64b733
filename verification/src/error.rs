//! Decoding of the two-word native status into a typed result.
//!
//! Every native call reports a bit-flagged "major" status word and an
//! opaque, mechanism-specific "minor" word.  The major word is partitioned
//! into three fields: calling errors (caller misuse) in the top byte,
//! routine errors (operation-specific failures) in the next byte, and
//! supplementary-information bits in the low half.  A call succeeded
//! exactly when the major word is the all-zero `GSS_S_COMPLETE` sentinel;
//! any other value is decoded into an [`Error`] carrying both words.

use vstd::prelude::*;

verus! {

/// The all-zero major status: the call completed successfully.
pub const GSS_S_COMPLETE: u32 = 0;

/// Bits of the major status holding the calling-error field.
pub const GSS_C_CALLING_ERROR_MASK: u32 = 0xff00_0000;

/// Bits of the major status holding the routine-error field.
pub const GSS_C_ROUTINE_ERROR_MASK: u32 = 0x00ff_0000;

/// Bits of the major status holding supplementary information.
pub const GSS_C_SUPPLEMENTARY_MASK: u32 = 0x0000_ffff;

// Calling errors: misuse of the interface by the caller, numbered from
// one in the top byte.
pub const GSS_S_CALL_INACCESSIBLE_READ: u32 = 0x0100_0000;
pub const GSS_S_CALL_INACCESSIBLE_WRITE: u32 = 0x0200_0000;
pub const GSS_S_CALL_BAD_STRUCTURE: u32 = 0x0300_0000;

// Routine errors: operation-specific failures, numbered from one in the
// next byte.
pub const GSS_S_BAD_MECH: u32 = 0x0001_0000;
pub const GSS_S_BAD_NAME: u32 = 0x0002_0000;
pub const GSS_S_BAD_NAMETYPE: u32 = 0x0003_0000;
pub const GSS_S_BAD_BINDINGS: u32 = 0x0004_0000;
pub const GSS_S_BAD_STATUS: u32 = 0x0005_0000;
pub const GSS_S_BAD_MIC: u32 = 0x0006_0000;
pub const GSS_S_NO_CRED: u32 = 0x0007_0000;
pub const GSS_S_NO_CONTEXT: u32 = 0x0008_0000;
pub const GSS_S_DEFECTIVE_TOKEN: u32 = 0x0009_0000;
pub const GSS_S_DEFECTIVE_CREDENTIAL: u32 = 0x000a_0000;
pub const GSS_S_CREDENTIALS_EXPIRED: u32 = 0x000b_0000;
pub const GSS_S_CONTEXT_EXPIRED: u32 = 0x000c_0000;
pub const GSS_S_FAILURE: u32 = 0x000d_0000;
pub const GSS_S_BAD_QOP: u32 = 0x000e_0000;
pub const GSS_S_UNAUTHORIZED: u32 = 0x000f_0000;
pub const GSS_S_UNAVAILABLE: u32 = 0x0010_0000;
pub const GSS_S_DUPLICATE_ELEMENT: u32 = 0x0011_0000;
pub const GSS_S_NAME_NOT_MN: u32 = 0x0012_0000;

// Supplementary information: non-fatal annotations co-reported with a
// failure or even with success, one bit each in the low half.
pub const GSS_S_CONTINUE_NEEDED: u32 = 0x0000_0001;
pub const GSS_S_DUPLICATE_TOKEN: u32 = 0x0000_0002;
pub const GSS_S_OLD_TOKEN: u32 = 0x0000_0004;
pub const GSS_S_UNSEQ_TOKEN: u32 = 0x0000_0008;
pub const GSS_S_GAP_TOKEN: u32 = 0x0000_0010;

/// The calling-error bits of a major status word.
pub open spec fn spec_calling_error(major: u32) -> u32 {
    major & GSS_C_CALLING_ERROR_MASK
}

/// The routine-error bits of a major status word.
pub open spec fn spec_routine_error(major: u32) -> u32 {
    major & GSS_C_ROUTINE_ERROR_MASK
}

/// The supplementary-information bits of a major status word.
pub open spec fn spec_supplementary_info(major: u32) -> u32 {
    major & GSS_C_SUPPLEMENTARY_MASK
}

/// A failed native call: the non-zero major status word together with the
/// mechanism-specific minor word attached to it.
#[derive(Clone, Copy, PartialEq, Eq, Structural, Debug)]
pub struct Error {
    /// The bit-flagged major status word of the failed call; never
    /// `GSS_S_COMPLETE` for a decoded error.
    pub major: u32,
    /// The opaque mechanism-specific diagnostic word; meaningful only in
    /// combination with the active mechanism.
    pub minor: u32,
}

/// What decoding a two-word status yields: success exactly on the all-zero
/// major word, and otherwise an error holding both words unchanged.
pub open spec fn spec_decode(major: u32, minor: u32) -> Result<(), Error> {
    if major == GSS_S_COMPLETE {
        Ok(())
    } else {
        Err(Error { major, minor })
    }
}

/// Decode the two status words of a native call.  This is applied uniformly
/// immediately after every native call; no component inspects the raw words
/// directly.
pub fn decode(major: u32, minor: u32) -> (r: Result<(), Error>)
    ensures
        r == spec_decode(major, minor),
        r is Ok <==> major == GSS_S_COMPLETE,
        r is Err ==> r->Err_0.major != GSS_S_COMPLETE,
{
    if major == GSS_S_COMPLETE {
        Ok(())
    } else {
        Err(Error { major, minor })
    }
}

impl Error {
    /// The calling-error bits of this error's major status.
    pub fn calling_error(&self) -> (r: u32)
        ensures
            r == spec_calling_error(self.major),
    {
        self.major & GSS_C_CALLING_ERROR_MASK
    }

    /// The routine-error bits of this error's major status.
    pub fn routine_error(&self) -> (r: u32)
        ensures
            r == spec_routine_error(self.major),
    {
        self.major & GSS_C_ROUTINE_ERROR_MASK
    }

    /// The supplementary-information bits of this error's major status.
    pub fn supplementary_info(&self) -> (r: u32)
        ensures
            r == spec_supplementary_info(self.major),
    {
        self.major & GSS_C_SUPPLEMENTARY_MASK
    }
}

/// The three fields cover the whole major word: recombining the
/// calling-error, routine-error and supplementary bits gives the word back.
pub proof fn lemma_status_fields_partition(major: u32)
    ensures
        spec_calling_error(major) | spec_routine_error(major) | spec_supplementary_info(major)
            == major,
{
    assert((major & 0xff00_0000u32) | (major & 0x00ff_0000u32) | (major & 0x0000_ffffu32)
        == major) by (bit_vector);
}

/// A major word is the success sentinel exactly when all three of its
/// fields are zero: no calling error, no routine error and no
/// supplementary bits.
pub proof fn lemma_complete_iff_fields_zero(major: u32)
    ensures
        major == GSS_S_COMPLETE <==> (spec_calling_error(major) == 0 && spec_routine_error(major)
            == 0 && spec_supplementary_info(major) == 0),
{
    assert(major == 0u32 <==> ((major & 0xff00_0000u32) == 0u32 && (major & 0x00ff_0000u32) == 0u32
        && (major & 0x0000_ffffu32) == 0u32)) by (bit_vector);
}

} // verus!
