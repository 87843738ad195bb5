//! DNS names.

use crate::pki::check_dns_name_syntax;
use crate::pki::is_dns_name;
use vstd::prelude::*;
use vstd::slice::slice_to_vec;

verus! {

/// A DNS name that is known to be one by syntax.
///
/// It serves as the name that a server's certificate must be valid for,
/// and as the server name that a client quoted. The latter comes out of an
/// unauthenticated message: it may select a policy and is never an
/// identity.
#[derive(Debug)]
pub struct DnsName {
    name: Vec<u8>,
}

impl View for DnsName {
    type V = Seq<u8>;

    closed spec fn view(&self) -> Seq<u8> {
        self.name@
    }
}

impl DnsName {
    #[verifier::type_invariant]
    spec fn well_formed(self) -> bool {
        is_dns_name(self.name@)
    }

    /// Takes `name` as a DNS name if it is one.
    pub fn try_from_ascii(name: &[u8]) -> (r: Option<DnsName>)
        ensures
            match r {
                Some(dns_name) => is_dns_name(name@) && dns_name@ == name@,
                None => !is_dns_name(name@),
            },
    {
        if check_dns_name_syntax(name) {
            Some(DnsName { name: slice_to_vec(name) })
        } else {
            None
        }
    }

    /// The name's bytes.
    pub fn as_bytes(&self) -> (name: &[u8])
        ensures
            name@ == self@,
            is_dns_name(name@),
    {
        proof {
            use_type_invariant(self);
        }
        self.name.as_slice()
    }
}

} // verus!
