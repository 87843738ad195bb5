//! The verifiers of a client's certificate, and the policy that a server
//! can switch while it runs.

use crate::anchors::names_view;
use crate::anchors::parsable_anchors;
use crate::anchors::ders_view;
use crate::anchors::subject_names;
use crate::anchors::DistinguishedNames;
use crate::anchors::RootCertStore;
use crate::enums::DigitallySignedStruct;
use crate::enums::SignatureScheme;
use crate::error::reports;
use crate::error::Failure;
use crate::error::TlsError;
use crate::error::WebPkiOp;
use crate::key::certificates_view;
use crate::key::Certificate;
use crate::name::DnsName;
use crate::pki::check_client_chain;
use crate::pki::client_chain_verdict;
use crate::pki::end_entity_parse;
use crate::pki::trust_anchor_parse;
use crate::pki::trust_anchors_view;
use crate::pki::webpki_algorithms;
use crate::pki::TrustAnchorView;
use crate::signature::tls12_signature_outcome;
use crate::signature::tls13_signature_outcome;
use crate::signature::verify_signed_struct;
use crate::signature::verify_tls13;
use crate::signature::webpki_result;
use crate::time::unix_seconds;
use crate::time::unix_time_seconds;
use crate::verify::prepare;
use crate::verify::supported_sig_algs;
use crate::verify::supported_sig_algs_spec;
use crate::verify::verification_schemes_spec;
use crate::verify::ClientCertVerified;
use crate::verify::HandshakeSignatureValid;
use crate::verify::WebPkiVerifier;
use std::sync::Arc;
use std::time::SystemTime;
use vstd::pervasive::unreached;
use vstd::prelude::*;

verus! {

/// Something that can verify a client's certificate chain, and the
/// signatures that the client makes with its certificate.
///
/// The server name that a method takes is the one that the client quoted
/// in its hello. It is a DNS name by syntax and otherwise untrusted.
pub trait ClientCertVerifier: Send + Sync {
    /// Whether the server asks clients for a certificate. It does unless
    /// the verifier says otherwise.
    open spec fn offers_client_auth(&self) -> bool {
        true
    }

    /// Whether the server should ask the client for a certificate.
    fn offer_client_auth(&self) -> (r: bool)
        ensures
            r == self.offers_client_auth(),
    ;

    /// `Some(true)` where a client must present a certificate,
    /// `Some(false)` where it may, `None` to abort the connection.
    fn client_auth_mandatory(&self, sni: Option<&DnsName>) -> (r: Option<bool>)
        default_ensures
            r == Some(self.offers_client_auth()),
    {
        Some(self.offer_client_auth())
    }

    /// The subjects of the trust anchors to name to the client as
    /// acceptable issuers; `None` to abort the connection.
    ///
    /// This is called only where client authentication is offered.
    fn client_auth_root_subjects(&self, sni: Option<&DnsName>) -> (r: Option<DistinguishedNames>)
        requires
            self.offers_client_auth(),
    ;

    /// Verifies that `end_entity` chains to a trust anchor.
    /// `intermediates` are the certificates that the client sent along, in
    /// the order in which it sent them.
    ///
    /// This is called only where client authentication is offered.
    fn verify_client_cert(
        &self,
        end_entity: &Certificate,
        intermediates: &[Certificate],
        sni: Option<&DnsName>,
        now: SystemTime,
    ) -> (r: Result<ClientCertVerified, TlsError>)
        requires
            self.offers_client_auth(),
    ;

    /// Verifies a TLS 1.2 signature by the client's certificate, `cert`,
    /// which [`ClientCertVerifier::verify_client_cert`] verified before.
    /// `message` is not hashed yet.
    fn verify_tls12_signature(
        &self,
        message: &[u8],
        cert: &Certificate,
        dss: &DigitallySignedStruct,
    ) -> (r: Result<HandshakeSignatureValid, TlsError>)
        default_ensures
            reports(r, tls12_signature_outcome(message@, cert@, dss.scheme, dss.sig@)),
    {
        verify_signed_struct(message, cert, dss)
    }

    /// Verifies a TLS 1.3 signature by the client's certificate.
    fn verify_tls13_signature(
        &self,
        message: &[u8],
        cert: &Certificate,
        dss: &DigitallySignedStruct,
    ) -> (r: Result<HandshakeSignatureValid, TlsError>)
        default_ensures
            reports(r, tls13_signature_outcome(message@, cert@, dss.scheme, dss.sig@)),
    {
        verify_tls13(message, cert, dss)
    }

    /// The schemes that this verifier checks signatures under, the most
    /// preferred first.
    fn supported_verify_schemes(&self) -> (schemes: Vec<SignatureScheme>)
        default_ensures
            schemes@ == verification_schemes_spec(),
    {
        WebPkiVerifier::verification_schemes()
    }
}

/// The failure, if any, of verifying a client's certificate: the steps of
/// a server's certificate without the SCTs and without a name, since a
/// client is not known by one.
pub open spec fn client_cert_outcome(
    end_entity: Seq<u8>,
    intermediates: Seq<Seq<u8>>,
    roots: Seq<TrustAnchorView>,
    now: SystemTime,
) -> Option<Failure> {
    match end_entity_parse(end_entity) {
        Err(e) => Some(Failure::WebPki(e, WebPkiOp::ParseEndEntity)),
        Ok(_) => match unix_seconds(now) {
            None => Some(Failure::FailedToGetCurrentTime),
            Some(secs) => match client_chain_verdict(
                end_entity,
                intermediates,
                roots,
                supported_sig_algs_spec(),
                secs,
            ) {
                Err(e) => Some(Failure::WebPki(e, WebPkiOp::ValidateClientCert)),
                Ok(_) => None,
            },
        },
    }
}

/// A client verifier that requires of every client a certificate that
/// chains to a trusted root, and checks no name.
#[derive(Clone, Debug)]
pub struct AllowAnyAuthenticatedClient {
    roots: RootCertStore,
}

impl View for AllowAnyAuthenticatedClient {
    type V = Seq<TrustAnchorView>;

    closed spec fn view(&self) -> Seq<TrustAnchorView> {
        self.roots@
    }
}

impl AllowAnyAuthenticatedClient {
    /// A verifier that trusts `roots` to issue client certificates.
    pub fn new(roots: RootCertStore) -> (verifier: Arc<AllowAnyAuthenticatedClient>)
        ensures
            verifier@ == roots@,
    {
        Arc::new(AllowAnyAuthenticatedClient { roots })
    }
}

impl ClientCertVerifier for AllowAnyAuthenticatedClient {
    open spec fn offers_client_auth(&self) -> bool {
        true
    }

    fn offer_client_auth(&self) -> (r: bool) {
        true
    }

    fn client_auth_mandatory(&self, sni: Option<&DnsName>) -> (r: Option<bool>)
        ensures
            r == Some(true),
    {
        Some(true)
    }

    fn client_auth_root_subjects(&self, sni: Option<&DnsName>) -> (r: Option<DistinguishedNames>)
        ensures
            r matches Some(names) && names_view(names@) == subject_names(self@),
    {
        Some(self.roots.subjects())
    }

    fn verify_client_cert(
        &self,
        end_entity: &Certificate,
        intermediates: &[Certificate],
        sni: Option<&DnsName>,
        now: SystemTime,
    ) -> (r: Result<ClientCertVerified, TlsError>)
        ensures
            reports(
                r,
                client_cert_outcome(end_entity@, certificates_view(intermediates@), self@, now),
            ),
    {
        let (cert, chain, trustroots) = prepare(end_entity, intermediates, &self.roots)?;
        let now = unix_time_seconds(now)?;
        let algs = webpki_algorithms(supported_sig_algs().as_slice());
        let chain_verdict = check_client_chain(
            cert,
            chain.as_slice(),
            trustroots.as_slice(),
            algs.as_slice(),
            now,
        );
        webpki_result(chain_verdict, WebPkiOp::ValidateClientCert)?;
        Ok(ClientCertVerified::assertion())
    }
}

/// A client verifier that turns client authentication off.
///
/// It offers no client authentication, so nothing may ask it for root
/// subjects or hand it a certificate.
#[derive(Debug)]
pub struct NoClientAuth;

impl NoClientAuth {
    /// The verifier.
    pub fn new() -> (verifier: Arc<NoClientAuth>)
        ensures
            !verifier.offers_client_auth(),
    {
        Arc::new(NoClientAuth)
    }
}

impl ClientCertVerifier for NoClientAuth {
    open spec fn offers_client_auth(&self) -> bool {
        false
    }

    fn offer_client_auth(&self) -> (r: bool) {
        false
    }

    fn client_auth_root_subjects(&self, sni: Option<&DnsName>) -> (r: Option<DistinguishedNames>) {
        unreached()
    }

    fn verify_client_cert(
        &self,
        end_entity: &Certificate,
        intermediates: &[Certificate],
        sni: Option<&DnsName>,
        now: SystemTime,
    ) -> (r: Result<ClientCertVerified, TlsError>) {
        unreached()
    }
}

/// What a server asks of its clients.
#[derive(Clone, Debug)]
pub enum ClientCertVerifyMode {
    /// No client is asked for a certificate.
    AllowAnyClient,
    /// Every client must present a certificate that the verifier accepts.
    MustVerifyClientCert(AllowAnyAuthenticatedClient),
}

/// A client verifier whose policy can be switched while the server runs:
/// either every client is served anonymously, or every client must
/// authenticate against a trust store that can be filled and emptied.
///
/// The store belongs to the authenticating mode. Leaving that mode drops
/// the store, and entering it starts from an empty one.
#[derive(Clone, Debug)]
pub struct SafeDefaultClientVerifier {
    mode: ClientCertVerifyMode,
}

impl View for SafeDefaultClientVerifier {
    type V = Option<Seq<TrustAnchorView>>;

    /// `None` while clients are served anonymously, else the anchors that
    /// clients are verified against.
    closed spec fn view(&self) -> Option<Seq<TrustAnchorView>> {
        match self.mode {
            ClientCertVerifyMode::AllowAnyClient => None,
            ClientCertVerifyMode::MustVerifyClientCert(verifier) => Some(verifier@),
        }
    }
}

/// The policy of a switchable verifier as a plain value: `None` while
/// clients are served anonymously, else the anchors that clients are
/// verified against.
pub type ClientPolicy = Option<Seq<TrustAnchorView>>;

/// The policy that a new verifier starts with: every client
/// authenticates, and the store is empty.
pub open spec fn initial_policy() -> ClientPolicy {
    Some(Seq::empty())
}

/// Whether a policy asks clients for a certificate.
pub open spec fn policy_offers_client_auth(policy: ClientPolicy) -> bool {
    policy is Some
}

/// Whether a policy has no anchor to verify a client against.
pub open spec fn policy_store_is_empty(policy: ClientPolicy) -> bool {
    match policy {
        None => true,
        Some(anchors) => anchors.len() == 0,
    }
}

/// The number of anchors of a policy.
pub open spec fn policy_store_len(policy: ClientPolicy) -> nat {
    match policy {
        None => 0,
        Some(anchors) => anchors.len(),
    }
}

/// The policy after the switch to anonymous clients.
pub open spec fn anonymous_policy(policy: ClientPolicy) -> ClientPolicy {
    None
}

/// The policy after the switch to authenticated clients: an empty store
/// where clients were anonymous, else the policy as it was.
pub open spec fn authenticated_policy(policy: ClientPolicy) -> ClientPolicy {
    match policy {
        None => Some(Seq::empty()),
        Some(anchors) => Some(anchors),
    }
}

/// The policy after adding the anchor of the certificate `der`, and what
/// the addition reports.
pub open spec fn policy_with_root(policy: ClientPolicy, der: Seq<u8>) -> (
    ClientPolicy,
    Option<Result<(), webpki::Error>>,
) {
    match policy {
        None => (None, None),
        Some(anchors) => match trust_anchor_parse(der) {
            Ok(anchor) => (Some(anchors.push(anchor)), Some(Ok(()))),
            Err(e) => (Some(anchors), Some(Err(e))),
        },
    }
}

/// The policy after adding `more` anchors, and whether there was a store
/// to add them to.
pub open spec fn policy_with_anchors(policy: ClientPolicy, more: Seq<TrustAnchorView>) -> (
    ClientPolicy,
    bool,
) {
    match policy {
        None => (None, false),
        Some(anchors) => (Some(anchors + more), true),
    }
}

/// The policy after adding those of `ders` that parse, with the counts of
/// the entries added and passed over where there was a store to add to.
pub open spec fn policy_with_batch(policy: ClientPolicy, ders: Seq<Seq<u8>>) -> (
    ClientPolicy,
    Option<(nat, nat)>,
) {
    match policy {
        None => (None, None),
        Some(anchors) => (
            Some(anchors + parsable_anchors(ders)),
            Some(
                (
                    parsable_anchors(ders).len(),
                    (ders.len() - parsable_anchors(ders).len()) as nat,
                ),
            ),
        ),
    }
}

/// The policy after emptying the store, and whether there was a store to
/// empty.
pub open spec fn policy_reset(policy: ClientPolicy) -> (ClientPolicy, bool) {
    match policy {
        None => (None, false),
        Some(_) => (Some(Seq::empty()), true),
    }
}

impl SafeDefaultClientVerifier {
    /// A verifier that authenticates every client, against a store that is
    /// still empty.
    pub fn new() -> (verifier: SafeDefaultClientVerifier)
        ensures
            verifier@ == initial_policy(),
    {
        SafeDefaultClientVerifier {
            mode: ClientCertVerifyMode::MustVerifyClientCert(
                AllowAnyAuthenticatedClient { roots: RootCertStore::empty() },
            ),
        }
    }

    /// Drops the trust store and serves every client anonymously from now
    /// on.
    pub fn serve_anonymous_clients(&mut self)
        ensures
            final(self)@ == anonymous_policy(old(self)@),
    {
        self.mode = ClientCertVerifyMode::AllowAnyClient;
    }

    /// Where clients are served anonymously, starts to authenticate them,
    /// against an empty store. Where they are authenticated already,
    /// nothing changes.
    pub fn serve_only_authenticated_clients(&mut self)
        ensures
            final(self)@ == authenticated_policy(old(self)@),
    {
        match &self.mode {
            ClientCertVerifyMode::AllowAnyClient => {
                self.mode = ClientCertVerifyMode::MustVerifyClientCert(
                    AllowAnyAuthenticatedClient { roots: RootCertStore::empty() },
                );
            },
            ClientCertVerifyMode::MustVerifyClientCert(_) => {},
        }
    }

    /// Whether there is no anchor to verify a client against: clients are
    /// served anonymously, or the store is empty.
    pub fn is_cert_store_empty(&self) -> (r: bool)
        ensures
            r == policy_store_is_empty(self@),
    {
        match &self.mode {
            ClientCertVerifyMode::AllowAnyClient => true,
            ClientCertVerifyMode::MustVerifyClientCert(verifier) => verifier.roots.is_empty(),
        }
    }

    /// The number of anchors in the store; zero while clients are served
    /// anonymously.
    pub fn root_cert_store_len(&self) -> (r: usize)
        ensures
            r == policy_store_len(self@),
    {
        match &self.mode {
            ClientCertVerifyMode::AllowAnyClient => 0,
            ClientCertVerifyMode::MustVerifyClientCert(verifier) => verifier.roots.len(),
        }
    }

    /// The distinguished names of the anchors in the store; `None` while
    /// clients are served anonymously.
    pub fn root_cert_store_subjects(&self) -> (r: Option<DistinguishedNames>)
        ensures
            match self@ {
                None => r is None,
                Some(anchors) => r matches Some(names) && names_view(names@) == subject_names(
                    anchors,
                ),
            },
    {
        match &self.mode {
            ClientCertVerifyMode::AllowAnyClient => None,
            ClientCertVerifyMode::MustVerifyClientCert(verifier) => Some(verifier.roots.subjects()),
        }
    }

    /// Adds the anchor that the certificate `der` yields to the store.
    /// Returns `None`, and does nothing, while clients are served
    /// anonymously; else whether the certificate parsed.
    pub fn add_trusted_root_ca(&mut self, der: &Certificate) -> (r: Option<
        Result<(), webpki::Error>,
    >)
        ensures
            (final(self)@, r) == policy_with_root(old(self)@, der@),
    {
        match &mut self.mode {
            ClientCertVerifyMode::AllowAnyClient => None,
            ClientCertVerifyMode::MustVerifyClientCert(verifier) => Some(verifier.roots.add(der)),
        }
    }

    /// Adds all of `anchors` to the store and returns true. Returns false,
    /// and does nothing, while clients are served anonymously.
    pub fn add_server_trust_anchors(&mut self, anchors: &webpki::TlsServerTrustAnchors) -> (r:
        bool)
        ensures
            (final(self)@, r) == policy_with_anchors(old(self)@, trust_anchors_view(anchors.0@)),
    {
        match &mut self.mode {
            ClientCertVerifyMode::AllowAnyClient => false,
            ClientCertVerifyMode::MustVerifyClientCert(verifier) => {
                verifier.roots.add_server_trust_anchors(anchors);
                true
            },
        }
    }

    /// Adds the anchor of each of `der_certs` that parses as a certificate
    /// to the store and passes over the others: collections of roots tend
    /// to hold certificates that no parser accepts. Returns how many were
    /// added and how many were passed over; `None`, having done nothing,
    /// while clients are served anonymously.
    pub fn batch_add_certificates(&mut self, der_certs: &[Vec<u8>]) -> (r: Option<(usize, usize)>)
        ensures
            final(self)@ == policy_with_batch(old(self)@, ders_view(der_certs@)).0,
            match policy_with_batch(old(self)@, ders_view(der_certs@)).1 {
                None => r is None,
                Some(counts) => r matches Some((added, ignored)) && added == counts.0 && ignored
                    == counts.1,
            },
    {
        match &mut self.mode {
            ClientCertVerifyMode::AllowAnyClient => None,
            ClientCertVerifyMode::MustVerifyClientCert(verifier) => Some(
                verifier.roots.add_parsable_certificates(der_certs),
            ),
        }
    }

    /// Empties the store and returns true. Returns false, and does
    /// nothing, while clients are served anonymously.
    ///
    /// Sessions that were set up with a client trusted before are not
    /// touched: to forget them is the session cache's business.
    pub fn reset_root_cert_store(&mut self) -> (r: bool)
        ensures
            (final(self)@, r) == policy_reset(old(self)@),
    {
        match &mut self.mode {
            ClientCertVerifyMode::AllowAnyClient => false,
            ClientCertVerifyMode::MustVerifyClientCert(verifier) => {
                verifier.roots = RootCertStore::empty();
                true
            },
        }
    }
}

impl ClientCertVerifier for SafeDefaultClientVerifier {
    open spec fn offers_client_auth(&self) -> bool {
        self@ is Some
    }

    fn offer_client_auth(&self) -> (r: bool) {
        match &self.mode {
            ClientCertVerifyMode::AllowAnyClient => false,
            ClientCertVerifyMode::MustVerifyClientCert(_) => true,
        }
    }

    fn client_auth_mandatory(&self, sni: Option<&DnsName>) -> (r: Option<bool>)
        ensures
            r == Some(self@ is Some),
    {
        Some(self.offer_client_auth())
    }

    fn client_auth_root_subjects(&self, sni: Option<&DnsName>) -> (r: Option<DistinguishedNames>)
        ensures
            r matches Some(names) && names_view(names@) == subject_names(self@->0),
    {
        match &self.mode {
            ClientCertVerifyMode::AllowAnyClient => unreached(),
            ClientCertVerifyMode::MustVerifyClientCert(strict_verifier) => Some(
                strict_verifier.roots.subjects(),
            ),
        }
    }

    fn verify_client_cert(
        &self,
        end_entity: &Certificate,
        intermediates: &[Certificate],
        sni: Option<&DnsName>,
        now: SystemTime,
    ) -> (r: Result<ClientCertVerified, TlsError>)
        ensures
            reports(
                r,
                client_cert_outcome(end_entity@, certificates_view(intermediates@), self@->0, now),
            ),
    {
        match &self.mode {
            ClientCertVerifyMode::AllowAnyClient => unreached(),
            ClientCertVerifyMode::MustVerifyClientCert(strict_verifier) => {
                strict_verifier.verify_client_cert(end_entity, intermediates, sni, now)
            },
        }
    }
}

/// A client's certificate is accepted exactly where it parses, the time
/// counts in seconds, and a path leads from it to a trusted root at that
/// time.
pub proof fn lemma_client_cert_accepted(
    end_entity: Seq<u8>,
    intermediates: Seq<Seq<u8>>,
    roots: Seq<TrustAnchorView>,
    now: SystemTime,
)
    ensures
        client_cert_outcome(end_entity, intermediates, roots, now) is None <==> {
            &&& end_entity_parse(end_entity) is Ok
            &&& unix_seconds(now) is Some
            &&& client_chain_verdict(
                end_entity,
                intermediates,
                roots,
                supported_sig_algs_spec(),
                unix_seconds(now)->0,
            ) is Ok
        },
{
}

/// A client's certificate without a valid path to a trusted root is
/// refused with the error of the path building. A certificate that is
/// not valid at the time given is such a certificate, and so is one that
/// no trusted root leads to.
pub proof fn lemma_client_chain_error_refuses(
    end_entity: Seq<u8>,
    intermediates: Seq<Seq<u8>>,
    roots: Seq<TrustAnchorView>,
    now: SystemTime,
    secs: u64,
    e: webpki::Error,
)
    requires
        end_entity_parse(end_entity) is Ok,
        unix_seconds(now) == Some(secs),
        client_chain_verdict(end_entity, intermediates, roots, supported_sig_algs_spec(), secs)
            == Err::<(), webpki::Error>(e),
    ensures
        client_cert_outcome(end_entity, intermediates, roots, now) == Some(
            Failure::WebPki(e, WebPkiOp::ValidateClientCert),
        ),
{
}

/// A new verifier authenticates: it offers client authentication, and
/// its store is empty.
pub proof fn lemma_initial_policy_authenticates()
    ensures
        policy_offers_client_auth(initial_policy()),
        policy_store_is_empty(initial_policy()),
        policy_store_len(initial_policy()) == 0,
{
}

/// While clients are served anonymously no client authentication is
/// offered, and every change to the store reports that there is none and
/// changes nothing.
pub proof fn lemma_anonymous_policy_has_no_store(
    policy: ClientPolicy,
    der: Seq<u8>,
    more: Seq<TrustAnchorView>,
    ders: Seq<Seq<u8>>,
)
    ensures
        !policy_offers_client_auth(anonymous_policy(policy)),
        policy_store_is_empty(anonymous_policy(policy)),
        policy_with_root(anonymous_policy(policy), der) == (
            anonymous_policy(policy),
            None::<Result<(), webpki::Error>>,
        ),
        policy_with_anchors(anonymous_policy(policy), more) == (anonymous_policy(policy), false),
        policy_with_batch(anonymous_policy(policy), ders) == (
            anonymous_policy(policy),
            None::<(nat, nat)>,
        ),
        policy_reset(anonymous_policy(policy)) == (anonymous_policy(policy), false),
{
}

/// Anchors do not survive a time of anonymous service: whatever the
/// store held before, and whatever was tried on it meanwhile, the switch
/// back to authentication starts from an empty store.
pub proof fn lemma_anonymous_excursion_empties_store(policy: ClientPolicy)
    ensures
        authenticated_policy(anonymous_policy(policy)) == initial_policy(),
        policy_store_is_empty(authenticated_policy(anonymous_policy(policy))),
        policy_offers_client_auth(authenticated_policy(anonymous_policy(policy))),
{
}

/// Asking for authentication while clients are authenticated changes
/// nothing: the anchors gathered so far stay.
pub proof fn lemma_authenticated_policy_keeps_anchors(anchors: Seq<TrustAnchorView>)
    ensures
        authenticated_policy(Some(anchors)) == Some(anchors),
        policy_store_len(authenticated_policy(Some(anchors))) == anchors.len(),
{
}

} // verus!
