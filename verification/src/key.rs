//! DER-encoded certificates.

use vstd::prelude::*;

verus! {

/// One certificate, as the DER bytes that the peer sent.
///
/// The bytes are opaque here: nothing is read from them but by the
/// certificate parser at the moment of a verification.
#[derive(Clone, Debug, PartialEq, Eq)]
pub struct Certificate(pub Vec<u8>);

impl View for Certificate {
    type V = Seq<u8>;

    open spec fn view(&self) -> Seq<u8> {
        self.0@
    }
}

impl Certificate {
    /// Wraps DER bytes.
    pub fn new(der: Vec<u8>) -> (cert: Certificate)
        ensures
            cert@ == der@,
    {
        Certificate(der)
    }

    /// The DER bytes.
    pub fn as_bytes(&self) -> (der: &[u8])
        ensures
            der@ == self@,
    {
        self.0.as_slice()
    }
}

/// The DER bytes of each certificate of a list, in the list's order.
pub open spec fn certificates_view(certs: Seq<Certificate>) -> Seq<Seq<u8>> {
    certs.map_values(|c: Certificate| c@)
}

} // verus!
