//! The scoped native-buffer bridge: owned output regions and borrowed
//! input views.
//!
//! Byte data crosses the native boundary through a pointer/length
//! descriptor.  Data handed *in* is wrapped as a [`BufRef`], a borrowed
//! view of caller-owned bytes that is never released by this layer.  Data
//! handed *out* is received in a [`Buf`], an owned region allocated by the
//! native library and released exactly once through the matching native
//! deallocation primitive.  The region's address is carried as a plain
//! value, with `0` standing for "nothing owned": the state of a fresh
//! output descriptor and of a descriptor whose release was already
//! planned.

use vstd::prelude::*;

use crate::error::{Error, GSS_S_COMPLETE};

verus! {

/// An owned native buffer descriptor: the address and length of a byte
/// region the native library allocated, or the zeroed state when nothing
/// is owned.
#[derive(Debug)]
pub struct Buf {
    addr: usize,
    len: usize,
}

impl Buf {
    /// The address of the owned region, or `0` when nothing is owned.
    pub closed spec fn spec_addr(&self) -> usize {
        self.addr
    }

    /// The length in bytes of the owned region.
    pub closed spec fn spec_len(&self) -> usize {
        self.len
    }

    /// True when this descriptor owns a native region that must still be
    /// released.
    pub open spec fn is_owned(&self) -> bool {
        self.spec_addr() != 0
    }

    /// A zeroed output descriptor, ready for a native call to populate;
    /// ownership of whatever the call allocates into it transfers to the
    /// value built from the call's outcome.
    pub fn empty() -> (r: Buf)
        ensures
            !r.is_owned(),
            r.spec_addr() == 0,
            r.spec_len() == 0,
    {
        Buf { addr: 0, len: 0 }
    }

    /// Wrap the outcome of a native call that populates an output buffer:
    /// the two status words and the address and length the call wrote into
    /// the descriptor.  Success yields the owned region; any other major
    /// word yields the decoded error, and no owned region needing release
    /// is produced.
    pub fn from_outcome(major: u32, minor: u32, addr: usize, len: usize) -> (r: Result<Buf, Error>)
        ensures
            r is Ok <==> major == GSS_S_COMPLETE,
            r is Ok ==> r->Ok_0.spec_addr() == addr && r->Ok_0.spec_len() == len,
            r is Err ==> r->Err_0 == (Error { major, minor }) && r->Err_0.major
                != GSS_S_COMPLETE,
    {
        match crate::error::decode(major, minor) {
            Ok(()) => Ok(Buf { addr, len }),
            Err(e) => Err(e),
        }
    }

    /// The address and length to hand to a native call that reads the
    /// region; ownership stays with this descriptor.
    pub fn as_parts(&self) -> (r: (usize, usize))
        ensures
            r.0 == self.spec_addr(),
            r.1 == self.spec_len(),
    {
        (self.addr, self.len)
    }

    /// Decide the release of this descriptor, as its destructor must: if
    /// a region is owned, hand its address and length out exactly once
    /// for the native deallocation call and leave the zeroed state
    /// behind; if nothing is owned, plan nothing.
    pub fn release_plan(&mut self) -> (r: Option<(usize, usize)>)
        ensures
            !final(self).is_owned(),
            final(self).spec_addr() == 0,
            old(self).is_owned() ==> r == Some((old(self).spec_addr(), old(self).spec_len())),
            !old(self).is_owned() ==> r is None,
    {
        let addr = self.addr;
        let len = self.len;
        self.addr = 0;
        self.len = 0;
        if addr == 0 {
            None
        } else {
            Some((addr, len))
        }
    }
}

/// Byte-wise equality of two byte regions.  This is the comparison an
/// exported name token is made for: two canonical principals can be
/// compared by the bytes of their exported tokens alone, without another
/// native comparison call.
pub fn bytes_equal(a: &[u8], b: &[u8]) -> (r: bool)
    ensures
        r == (a@ == b@),
{
    if a.len() != b.len() {
        proof {
            assert(a@ != b@);
        }
        return false;
    }
    let n = a.len();
    let mut i: usize = 0;
    while i < n
        invariant
            0 <= i <= n,
            n == a@.len(),
            n == b@.len(),
            forall|j: int| 0 <= j < i ==> a@[j] == b@[j],
        decreases n - i,
    {
        if a[i] != b[i] {
            return false;
        }
        i = i + 1;
    }
    proof {
        assert(a@ =~= b@);
    }
    true
}

/// A borrowed view of caller-owned bytes, wrapped immediately before a
/// native call and discarded immediately after.  It performs no
/// allocation or copy, must not outlive the bytes it borrows, and is
/// never released by this layer.
pub struct BufRef<'a> {
    bytes: &'a [u8],
}

impl<'a> View for BufRef<'a> {
    type V = Seq<u8>;

    closed spec fn view(&self) -> Seq<u8> {
        self.bytes@
    }
}

impl<'a> BufRef<'a> {
    /// Wrap caller-owned bytes for the duration of a single native call.
    pub fn from_bytes(bytes: &'a [u8]) -> (r: BufRef<'a>)
        ensures
            r@ == bytes@,
    {
        BufRef { bytes }
    }

    /// The borrowed bytes, unchanged.
    pub fn as_bytes(&self) -> (r: &[u8])
        ensures
            r@ == self@,
    {
        self.bytes
    }

    /// The length of the borrowed view.
    pub fn len(&self) -> (r: usize)
        ensures
            r == self@.len(),
    {
        self.bytes.len()
    }
}

} // verus!
