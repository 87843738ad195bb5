//! The trust store: the anchors that chains are verified against.

use crate::key::Certificate;
use crate::pki::trust_anchor_parse;
use crate::pki::trust_anchor_view;
use crate::pki::trust_anchors_view;
use crate::pki::TrustAnchorView;
use crate::x509::der_sequence;
use crate::x509::wrap_in_sequence;
use vstd::prelude::*;
use vstd::slice::slice_to_vec;

verus! {

/// The distinguished names of the anchors of a store, each a DER-encoded
/// name.
pub type DistinguishedNames = Vec<Vec<u8>>;

/// A trust anchor that owns its bytes.
#[derive(Clone, Debug)]
pub struct OwnedTrustAnchor {
    subject: Vec<u8>,
    spki: Vec<u8>,
    name_constraints: Option<Vec<u8>>,
}

impl View for OwnedTrustAnchor {
    type V = TrustAnchorView;

    closed spec fn view(&self) -> TrustAnchorView {
        TrustAnchorView {
            subject: self.subject@,
            spki: self.spki@,
            name_constraints: match self.name_constraints {
                Some(constraints) => Some(constraints@),
                None => None,
            },
        }
    }
}

impl OwnedTrustAnchor {
    /// An anchor from the contents of its subject name, its public key
    /// information and its name constraints.
    pub fn from_subject_spki_name_constraints(
        subject: &[u8],
        spki: &[u8],
        name_constraints: Option<&[u8]>,
    ) -> (anchor: OwnedTrustAnchor)
        ensures
            anchor@.subject == subject@,
            anchor@.spki == spki@,
            match name_constraints {
                Some(constraints) => anchor@.name_constraints == Some(constraints@),
                None => anchor@.name_constraints is None,
            },
    {
        OwnedTrustAnchor {
            subject: slice_to_vec(subject),
            spki: slice_to_vec(spki),
            name_constraints: match name_constraints {
                Some(constraints) => Some(slice_to_vec(constraints)),
                None => None,
            },
        }
    }

    /// A copy of a borrowed anchor.
    pub fn from_trust_anchor(anchor: &webpki::TrustAnchor) -> (owned: OwnedTrustAnchor)
        ensures
            owned@ == trust_anchor_view(*anchor),
    {
        OwnedTrustAnchor::from_subject_spki_name_constraints(
            anchor.subject,
            anchor.spki,
            anchor.name_constraints,
        )
    }

    /// The anchor, borrowed.
    pub fn to_trust_anchor(&self) -> (anchor: webpki::TrustAnchor<'_>)
        ensures
            trust_anchor_view(anchor) == self@,
    {
        webpki::TrustAnchor {
            subject: self.subject.as_slice(),
            spki: self.spki.as_slice(),
            name_constraints: match &self.name_constraints {
                Some(constraints) => Some(constraints.as_slice()),
                None => None,
            },
        }
    }

    /// The anchor's distinguished name: its subject in a DER SEQUENCE.
    pub fn distinguished_name(&self) -> (name: Vec<u8>)
        ensures
            name@ == der_sequence(self@.subject),
    {
        let mut name = self.subject.clone();
        wrap_in_sequence(&mut name);
        name
    }
}

/// The anchors of a list, in the list's order.
pub open spec fn owned_anchors_view(anchors: Seq<OwnedTrustAnchor>) -> Seq<TrustAnchorView> {
    anchors.map_values(|anchor: OwnedTrustAnchor| anchor@)
}

/// The distinguished names of anchors, in the anchors' order.
pub open spec fn subject_names(anchors: Seq<TrustAnchorView>) -> Seq<Seq<u8>> {
    anchors.map_values(|anchor: TrustAnchorView| der_sequence(anchor.subject))
}

/// The bytes of each name of a list, in the list's order.
pub open spec fn names_view(names: Seq<Vec<u8>>) -> Seq<Seq<u8>> {
    names.map_values(|name: Vec<u8>| name@)
}

/// The anchor that `der` yields, if it parses as a certificate.
pub open spec fn parsed_anchor(der: Seq<u8>) -> Option<TrustAnchorView> {
    match trust_anchor_parse(der) {
        Ok(anchor) => Some(anchor),
        Err(_) => None,
    }
}

/// The anchors of those of `ders` that parse, in the order of `ders`.
pub open spec fn parsable_anchors(ders: Seq<Seq<u8>>) -> Seq<TrustAnchorView> {
    ders.filter_map(|der: Seq<u8>| parsed_anchor(der))
}

/// The bytes of each of a list of DER blobs, in the list's order.
pub open spec fn ders_view(ders: Seq<Vec<u8>>) -> Seq<Seq<u8>> {
    ders.map_values(|der: Vec<u8>| der@)
}

/// An ordered collection of trust anchors.
#[derive(Clone, Debug)]
pub struct RootCertStore {
    /// The anchors, in the order in which they were added.
    pub roots: Vec<OwnedTrustAnchor>,
}

impl View for RootCertStore {
    type V = Seq<TrustAnchorView>;

    open spec fn view(&self) -> Seq<TrustAnchorView> {
        owned_anchors_view(self.roots@)
    }
}

impl RootCertStore {
    /// A store without anchors.
    pub fn empty() -> (store: RootCertStore)
        ensures
            store@ == Seq::<TrustAnchorView>::empty(),
    {
        RootCertStore { roots: Vec::new() }
    }

    /// Whether the store holds no anchor.
    pub fn is_empty(&self) -> (r: bool)
        ensures
            r == (self@.len() == 0),
    {
        self.roots.len() == 0
    }

    /// The number of anchors.
    pub fn len(&self) -> (r: usize)
        ensures
            r == self@.len(),
    {
        self.roots.len()
    }

    /// The distinguished names of the anchors, in the anchors' order.
    pub fn subjects(&self) -> (names: DistinguishedNames)
        ensures
            names_view(names@) == subject_names(self@),
    {
        let mut names: DistinguishedNames = Vec::new();
        let mut i: usize = 0;
        while i < self.roots.len()
            invariant
                i <= self.roots.len(),
                names@.len() == i,
                forall|j: int|
                    0 <= j < i ==> (#[trigger] names@[j])@ == der_sequence(self.roots@[j]@.subject),
            decreases self.roots.len() - i,
        {
            names.push(self.roots[i].distinguished_name());
            i += 1;
        }
        assert(names_view(names@) =~= subject_names(self@));
        names
    }

    /// Adds the anchor that the certificate `der` yields. A certificate
    /// that does not parse is refused and leaves the store as it was.
    pub fn add(&mut self, der: &Certificate) -> (r: Result<(), webpki::Error>)
        ensures
            match trust_anchor_parse(der@) {
                Ok(anchor) => r == Ok::<(), webpki::Error>(()) && final(self)@ == old(self)@.push(
                    anchor,
                ),
                Err(e) => r == Err::<(), webpki::Error>(e) && final(self)@ == old(self)@,
            },
    {
        match webpki::TrustAnchor::try_from_cert_der(der.as_bytes()) {
            Ok(anchor) => {
                let owned = OwnedTrustAnchor::from_trust_anchor(&anchor);
                self.roots.push(owned);
                assert(self@ =~= old(self)@.push(owned@));
                Ok(())
            },
            Err(e) => Err(e),
        }
    }

    /// Adds all of `anchors`, in their order.
    pub fn add_server_trust_anchors(&mut self, anchors: &webpki::TlsServerTrustAnchors)
        ensures
            final(self)@ == old(self)@ + trust_anchors_view(anchors.0@),
    {
        let mut i: usize = 0;
        while i < anchors.0.len()
            invariant
                i <= anchors.0.len(),
                self@ == old(self)@ + trust_anchors_view(anchors.0@.take(i as int)),
            decreases anchors.0.len() - i,
        {
            let ghost before = self@;
            let owned = OwnedTrustAnchor::from_trust_anchor(&anchors.0[i]);
            self.roots.push(owned);
            assert(self@ =~= before.push(owned@));
            assert(anchors.0@.take(i + 1) =~= anchors.0@.take(i as int).push(anchors.0@[i as int]));
            assert(trust_anchors_view(anchors.0@.take(i + 1)) =~= trust_anchors_view(
                anchors.0@.take(i as int),
            ).push(owned@));
            assert(self@ =~= old(self)@ + trust_anchors_view(anchors.0@.take(i + 1)));
            i += 1;
        }
        assert(anchors.0@.take(i as int) =~= anchors.0@);
    }

    /// Adds the anchor of each of `der_certs` that parses as a certificate
    /// and passes over the others. Returns how many were added and how
    /// many were passed over.
    pub fn add_parsable_certificates(&mut self, der_certs: &[Vec<u8>]) -> (counts: (usize, usize))
        ensures
            final(self)@ == old(self)@ + parsable_anchors(ders_view(der_certs@)),
            counts.0 == parsable_anchors(ders_view(der_certs@)).len(),
            counts.0 + counts.1 == der_certs@.len(),
    {
        let ghost ders = ders_view(der_certs@);
        let mut valid_count: usize = 0;
        let mut invalid_count: usize = 0;
        let mut i: usize = 0;
        while i < der_certs.len()
            invariant
                i <= der_certs.len(),
                ders == ders_view(der_certs@),
                ders.len() == der_certs.len(),
                self@ == old(self)@ + parsable_anchors(ders.take(i as int)),
                valid_count == parsable_anchors(ders.take(i as int)).len(),
                valid_count + invalid_count == i,
            decreases der_certs.len() - i,
        {
            proof {
                ders.lemma_filter_map_take_succ(|der: Seq<u8>| parsed_anchor(der), i as int);
                assert(ders[i as int] == der_certs@[i as int]@);
            }
            let ghost before = self@;
            match webpki::TrustAnchor::try_from_cert_der(der_certs[i].as_slice()) {
                Ok(anchor) => {
                    let owned = OwnedTrustAnchor::from_trust_anchor(&anchor);
                    self.roots.push(owned);
                    assert(self@ =~= before.push(owned@));
                    assert(parsable_anchors(ders.take(i + 1)) =~= parsable_anchors(
                        ders.take(i as int),
                    ).push(owned@));
                    assert(self@ =~= old(self)@ + parsable_anchors(ders.take(i + 1)));
                    valid_count += 1;
                },
                Err(_) => {
                    invalid_count += 1;
                },
            }
            i += 1;
        }
        assert(ders.take(i as int) =~= ders);
        (valid_count, invalid_count)
    }
}

/// Every anchor that a batch adds was read from one of its entries: an
/// entry that does not parse adds nothing.
pub proof fn lemma_batch_adds_parsed_entries_only(ders: Seq<Seq<u8>>, anchor: TrustAnchorView)
    requires
        parsable_anchors(ders).contains(anchor),
    ensures
        exists|i: int|
            0 <= i < ders.len() && trust_anchor_parse(#[trigger] ders[i]) == Ok::<
                TrustAnchorView,
                webpki::Error,
            >(anchor),
{
    ders.lemma_filter_map_contains(|der: Seq<u8>| parsed_anchor(der), anchor);
    let der = choose|der: Seq<u8>| ders.contains(der) && parsed_anchor(der) == Some(anchor);
    let i = choose|i: int| 0 <= i < ders.len() && ders[i] == der;
    assert(trust_anchor_parse(ders[i]) == Ok::<TrustAnchorView, webpki::Error>(anchor));
}

/// A batch adds one anchor for each entry that parses and none for the
/// others: one more entry adds its anchor or nothing, and the count of
/// anchors never exceeds that of entries.
pub proof fn lemma_batch_counts(ders: Seq<Seq<u8>>, der: Seq<u8>)
    ensures
        parsable_anchors(ders).len() <= ders.len(),
        parsable_anchors(ders.push(der)) == match trust_anchor_parse(der) {
            Ok(anchor) => parsable_anchors(ders).push(anchor),
            Err(_) => parsable_anchors(ders),
        },
    decreases ders.len(),
{
    assert(ders.push(der).drop_last() =~= ders);
    assert(parsable_anchors(ders.push(der)) =~= match trust_anchor_parse(der) {
        Ok(anchor) => parsable_anchors(ders).push(anchor),
        Err(_) => parsable_anchors(ders),
    });
    if ders.len() > 0 {
        lemma_batch_counts(ders.drop_last(), ders.last());
        assert(ders.drop_last().push(ders.last()) =~= ders);
    }
}

} // verus!
