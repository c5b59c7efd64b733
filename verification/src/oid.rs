//! The object-identifier wrapper used to select name syntaxes and
//! mechanisms.
//!
//! An object identifier is a variable-length encoded value; the native
//! library reads it as a tag-and-bytes structure and never releases the
//! ones handed in by this layer.  It is carried here as its encoded byte
//! sequence, with the well-known name-syntax and mechanism identifiers
//! provided as constants.  An intentionally unspecified identifier (the
//! "no identifier" sentinel of the native interface) is an absent
//! `Option` at every call that takes one.

use vstd::prelude::*;

verus! {

/// An object identifier, as its encoded byte sequence.
#[derive(Debug)]
pub struct Oid {
    der: Vec<u8>,
}

impl View for Oid {
    type V = Seq<u8>;

    closed spec fn view(&self) -> Seq<u8> {
        self.der@
    }
}

impl Oid {
    /// Wrap an encoded identifier value.
    pub fn from_bytes(der: Vec<u8>) -> (r: Oid)
        ensures
            r@ == der@,
    {
        Oid { der }
    }

    /// The encoded bytes, for handing to a native call; ownership stays
    /// with this value.
    pub fn as_bytes(&self) -> (r: &[u8])
        ensures
            r@ == self@,
    {
        self.der.as_slice()
    }

    /// The length of the encoded identifier.
    pub fn len(&self) -> (r: usize)
        ensures
            r == self@.len(),
    {
        self.der.len()
    }

    /// Two identifiers are the same exactly when their encoded bytes are
    /// equal.
    pub fn eq_oid(&self, other: &Oid) -> (r: bool)
        ensures
            r == (self@ == other@),
    {
        crate::buf::bytes_equal(self.der.as_slice(), other.der.as_slice())
    }
}

/// The encoded form of the host-based service name syntax
/// (1.2.840.113554.1.2.1.4).
pub open spec fn spec_nt_hostbased_service() -> Seq<u8> {
    seq![0x2au8, 0x86u8, 0x48u8, 0x86u8, 0xf7u8, 0x12u8, 0x01u8, 0x02u8, 0x01u8, 0x04u8]
}

/// The encoded form of the user (realm-qualified principal) name syntax
/// (1.2.840.113554.1.2.1.1).
pub open spec fn spec_nt_user_name() -> Seq<u8> {
    seq![0x2au8, 0x86u8, 0x48u8, 0x86u8, 0xf7u8, 0x12u8, 0x01u8, 0x02u8, 0x01u8, 0x01u8]
}

/// The encoded form of the Kerberos principal name syntax
/// (1.2.840.113554.1.2.2.1).
pub open spec fn spec_nt_krb5_principal() -> Seq<u8> {
    seq![0x2au8, 0x86u8, 0x48u8, 0x86u8, 0xf7u8, 0x12u8, 0x01u8, 0x02u8, 0x02u8, 0x01u8]
}

/// The encoded form of the Kerberos 5 mechanism identifier
/// (1.2.840.113554.1.2.2).
pub open spec fn spec_mech_krb5() -> Seq<u8> {
    seq![0x2au8, 0x86u8, 0x48u8, 0x86u8, 0xf7u8, 0x12u8, 0x01u8, 0x02u8, 0x02u8]
}

/// The host-based service name syntax, e.g. `service@host`.
pub fn nt_hostbased_service() -> (r: Oid)
    ensures
        r@ == spec_nt_hostbased_service(),
{
    let mut der: Vec<u8> = Vec::new();
    der.push(0x2a);
    der.push(0x86);
    der.push(0x48);
    der.push(0x86);
    der.push(0xf7);
    der.push(0x12);
    der.push(0x01);
    der.push(0x02);
    der.push(0x01);
    der.push(0x04);
    proof {
        assert(der@ =~= spec_nt_hostbased_service());
    }
    Oid { der }
}

/// The user name syntax, e.g. `user@REALM`.
pub fn nt_user_name() -> (r: Oid)
    ensures
        r@ == spec_nt_user_name(),
{
    let mut der: Vec<u8> = Vec::new();
    der.push(0x2a);
    der.push(0x86);
    der.push(0x48);
    der.push(0x86);
    der.push(0xf7);
    der.push(0x12);
    der.push(0x01);
    der.push(0x02);
    der.push(0x01);
    der.push(0x01);
    proof {
        assert(der@ =~= spec_nt_user_name());
    }
    Oid { der }
}

/// The Kerberos principal name syntax.
pub fn nt_krb5_principal() -> (r: Oid)
    ensures
        r@ == spec_nt_krb5_principal(),
{
    let mut der: Vec<u8> = Vec::new();
    der.push(0x2a);
    der.push(0x86);
    der.push(0x48);
    der.push(0x86);
    der.push(0xf7);
    der.push(0x12);
    der.push(0x01);
    der.push(0x02);
    der.push(0x02);
    der.push(0x01);
    proof {
        assert(der@ =~= spec_nt_krb5_principal());
    }
    Oid { der }
}

/// The Kerberos 5 mechanism identifier.
pub fn mech_krb5() -> (r: Oid)
    ensures
        r@ == spec_mech_krb5(),
{
    let mut der: Vec<u8> = Vec::new();
    der.push(0x2a);
    der.push(0x86);
    der.push(0x48);
    der.push(0x86);
    der.push(0xf7);
    der.push(0x12);
    der.push(0x01);
    der.push(0x02);
    der.push(0x02);
    proof {
        assert(der@ =~= spec_mech_krb5());
    }
    Oid { der }
}

} // verus!
