//! The identity-handle (principal name) ownership model.
//!
//! A principal name is an opaque native reference, produced by a native
//! name-producing call (import, canonicalize, duplicate) and released
//! through the native release primitive exactly once.  The reference is
//! carried here as a plain address value, with `0` as the "absent"
//! sentinel: a released or moved-out handle holds the sentinel, and the
//! release plan for such a handle is a no-op.  The native calls themselves
//! are made by the unverified shell around this crate; the functions here
//! make every decision those calls do not: whether an outcome yields a
//! handle or an error, whether a release must happen, and how a principal
//! is rendered without ever failing the caller.

use vstd::prelude::*;

use crate::error::{Error, GSS_S_COMPLETE};
use crate::text::is_utf8;
use vstd::utf8::{decode_utf8, valid_utf8};

verus! {

/// The address value of the "absent" native reference: a handle holding it
/// owns nothing and must never be passed to the native release call.
pub const GSS_C_NO_NAME: usize = 0;

/// An exclusively-owned native name reference, as a plain address value.
///
/// At most one live value claims ownership of a given native reference;
/// duplication always goes through the native duplicate call, which hands
/// back a distinct reference wrapped in a distinct `Name`.  The underlying
/// native library is assumed internally thread-safe for independent
/// handles, but concurrent use of one handle needs external
/// synchronization; exclusive ownership is the only guarantee made here.
#[derive(Debug)]
pub struct Name {
    raw: usize,
}

impl Name {
    /// The address value of the underlying native reference.
    pub closed spec fn spec_raw(&self) -> usize {
        self.raw
    }

    /// True when this handle owns a native reference; false once it holds
    /// the absent sentinel.
    pub open spec fn is_present(&self) -> bool {
        self.spec_raw() != GSS_C_NO_NAME
    }

    /// Wrap the outcome of a native name-producing call (import,
    /// canonicalize or duplicate): the two status words and the reference
    /// the call wrote into its output parameter.  Success yields an owned
    /// handle over that reference; any other major word yields the decoded
    /// error, and no handle needing release is produced — a failed native
    /// call leaves no valid reference in its output parameter.
    pub fn from_outcome(major: u32, minor: u32, raw: usize) -> (r: Result<Name, Error>)
        ensures
            r is Ok <==> major == GSS_S_COMPLETE,
            r is Ok ==> r->Ok_0.spec_raw() == raw,
            r is Err ==> r->Err_0 == (Error { major, minor }) && r->Err_0.major
                != GSS_S_COMPLETE,
    {
        match crate::error::decode(major, minor) {
            Ok(()) => Ok(Name { raw }),
            Err(e) => Err(e),
        }
    }

    /// Decide the release of this handle, as its destructor must: if a
    /// native reference is owned, hand its address out exactly once for
    /// the native release call and leave the absent sentinel behind; if
    /// the sentinel is already held (after a release or a move), plan
    /// nothing.  Planning the release of one handle never touches any
    /// other handle, so independently owned references stay independently
    /// releasable.
    pub fn release_plan(&mut self) -> (r: Option<usize>)
        ensures
            final(self).spec_raw() == GSS_C_NO_NAME,
            old(self).is_present() ==> r == Some(old(self).spec_raw()),
            !old(self).is_present() ==> r is None,
    {
        let raw = self.raw;
        self.raw = GSS_C_NO_NAME;
        if raw == GSS_C_NO_NAME {
            None
        } else {
            Some(raw)
        }
    }

    /// The address value to hand to a native call that reads this name.
    pub fn raw(&self) -> (r: usize)
        ensures
            r == self.spec_raw(),
    {
        self.raw
    }
}

/// The boolean read of the native comparison primitive's output flag: the
/// principals are reported equal exactly when the flag is one.  The caller
/// zero-initialises the flag, and a failed comparison call leaves it
/// untouched, so a failure reads as "not equal" rather than as an error.
pub fn compare_outcome(eq_flag: i32) -> (r: bool)
    ensures
        r == (eq_flag == 1i32),
{
    eq_flag == 1
}

/// The fixed placeholder rendered for a principal whose display bytes are
/// not valid text.
pub fn placeholder_undecodable() -> (r: &'static str)
    ensures
        r@ == "<name can't be decoded>"@,
{
    "<name can't be decoded>"
}

/// The fixed placeholder rendered for a principal whose display operation
/// failed outright.
pub fn placeholder_undisplayable() -> (r: &'static str)
    ensures
        r@ == "<name can't be displayed>"@,
{
    "<name can't be displayed>"
}

/// Render the outcome of the native display call for diagnostics.
/// Rendering never fails the caller: display bytes that are valid text
/// are decoded and passed through, and anything else — undecodable bytes
/// or a failed display call — becomes a fixed placeholder.
pub fn rendered(display: &Result<Vec<u8>, Error>) -> (r: String)
    ensures
        display matches Ok(b) ==> r@ == (if valid_utf8(b@) {
            decode_utf8(b@)
        } else {
            "<name can't be decoded>"@
        }),
        display is Err ==> r@ == "<name can't be displayed>"@,
{
    match display {
        Ok(bytes) => {
            if is_utf8(bytes.as_slice()) {
                crate::text::bytes_to_string(bytes.as_slice())
            } else {
                placeholder_undecodable().to_owned()
            }
        },
        Err(_) => placeholder_undisplayable().to_owned(),
    }
}

} // verus!
