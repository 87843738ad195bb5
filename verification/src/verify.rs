//! The verifiers of a peer's certificate, and the tokens that prove a
//! verification took place.

use crate::anchors::RootCertStore;
use crate::ct::blobs_view;
use crate::ct::logs_view;
use crate::ct::sct_verdict;
use crate::ct::verify_scts;
use crate::ct::verify_scts_outcome;
use crate::ct::LogView;
use crate::enums::DigitallySignedStruct;
use crate::enums::SignatureAlg;
use crate::enums::SignatureScheme;
use crate::error::reports;
use crate::error::Failure;
use crate::error::TlsError;
use crate::error::WebPkiOp;
use crate::key::certificates_view;
use crate::key::Certificate;
use crate::name::DnsName;
use crate::pki::check_dns_name;
use crate::pki::check_server_chain;
use crate::pki::dns_name_verdict;
use crate::pki::end_entity_parse;
use crate::pki::parse_end_entity;
use crate::pki::server_chain_verdict;
use crate::pki::slices_view;
use crate::pki::trust_anchors_view;
use crate::pki::webpki_algorithms;
use crate::pki::TrustAnchorView;
use crate::signature::tls12_signature_outcome;
use crate::signature::tls13_signature_outcome;
use crate::signature::verify_signed_struct;
use crate::signature::verify_tls13;
use crate::signature::webpki_result;
use crate::time::millis_in_range;
use crate::time::unix_millis;
use crate::time::unix_seconds;
use crate::time::unix_time_millis;
use crate::time::unix_time_seconds;
use std::time::SystemTime;
use vstd::pervasive::unreached;
use vstd::prelude::*;

verus! {

/// Proof that a handshake signature was checked and found valid.
///
/// The token carries nothing. It cannot be written down as a value; the
/// one way to one is [`HandshakeSignatureValid::assertion`], so that every
/// place where a signature is declared valid can be found by that name.
#[derive(Debug)]
pub struct HandshakeSignatureValid(());

impl HandshakeSignatureValid {
    /// Declares a handshake signature valid.
    pub fn assertion() -> Self {
        Self(())
    }
}

/// Proof that the peer's Finished message was checked and found right.
#[derive(Debug)]
pub struct FinishedMessageVerified(());

impl FinishedMessageVerified {
    /// Declares a Finished message verified.
    pub fn assertion() -> Self {
        Self(())
    }
}

/// Proof that a server's certificate chain was verified.
#[derive(Debug)]
pub struct ServerCertVerified(());

impl ServerCertVerified {
    /// Declares a server certificate verified.
    pub fn assertion() -> Self {
        Self(())
    }
}

/// Proof that a client's certificate chain was verified.
#[derive(Debug)]
pub struct ClientCertVerified(());

impl ClientCertVerified {
    /// Declares a client certificate verified.
    pub fn assertion() -> Self {
        Self(())
    }
}

/// The signature algorithms that certificates of a chain may be signed
/// with, whatever the protocol version.
pub open spec fn supported_sig_algs_spec() -> Seq<SignatureAlg> {
    seq![
        SignatureAlg::EcdsaP256Sha256,
        SignatureAlg::EcdsaP256Sha384,
        SignatureAlg::EcdsaP384Sha256,
        SignatureAlg::EcdsaP384Sha384,
        SignatureAlg::Ed25519,
        SignatureAlg::RsaPssSha256,
        SignatureAlg::RsaPssSha384,
        SignatureAlg::RsaPssSha512,
        SignatureAlg::RsaPkcs1Sha256,
        SignatureAlg::RsaPkcs1Sha384,
        SignatureAlg::RsaPkcs1Sha512,
        SignatureAlg::RsaPkcs1Sha384Min3072,
    ]
}

/// The list that [`supported_sig_algs_spec`] names.
pub fn supported_sig_algs() -> (algs: Vec<SignatureAlg>)
    ensures
        algs@ == supported_sig_algs_spec(),
{
    vec![
        SignatureAlg::EcdsaP256Sha256,
        SignatureAlg::EcdsaP256Sha384,
        SignatureAlg::EcdsaP384Sha256,
        SignatureAlg::EcdsaP384Sha384,
        SignatureAlg::Ed25519,
        SignatureAlg::RsaPssSha256,
        SignatureAlg::RsaPssSha384,
        SignatureAlg::RsaPssSha512,
        SignatureAlg::RsaPkcs1Sha256,
        SignatureAlg::RsaPkcs1Sha384,
        SignatureAlg::RsaPkcs1Sha512,
        SignatureAlg::RsaPkcs1Sha384Min3072,
    ]
}

/// The schemes that the verifiers of this library check signatures under,
/// the most preferred first.
pub open spec fn verification_schemes_spec() -> Seq<SignatureScheme> {
    seq![
        SignatureScheme::ECDSA_NISTP384_SHA384,
        SignatureScheme::ECDSA_NISTP256_SHA256,
        SignatureScheme::ED25519,
        SignatureScheme::RSA_PSS_SHA512,
        SignatureScheme::RSA_PSS_SHA384,
        SignatureScheme::RSA_PSS_SHA256,
        SignatureScheme::RSA_PKCS1_SHA512,
        SignatureScheme::RSA_PKCS1_SHA384,
        SignatureScheme::RSA_PKCS1_SHA256,
    ]
}

/// Something that can verify a server's certificate chain, and the
/// signatures that the server makes with its certificate.
pub trait ServerCertVerifier: Send + Sync {
    /// Verifies that `end_entity` is valid for `dns_name` and chains to a
    /// trust anchor.
    ///
    /// `intermediates` are the certificates that the server sent along, in
    /// the order in which it sent them. `scts` are the Signed Certificate
    /// Timestamps that it sent, in order, and `ocsp_response` its stapled
    /// OCSP response; both may be empty.
    fn verify_server_cert(
        &self,
        end_entity: &Certificate,
        intermediates: &[Certificate],
        dns_name: &DnsName,
        scts: &[&[u8]],
        ocsp_response: &[u8],
        now: SystemTime,
    ) -> (r: Result<ServerCertVerified, TlsError>)
    ;

    /// Verifies a TLS 1.2 signature by the server's certificate, `cert`,
    /// which [`ServerCertVerifier::verify_server_cert`] verified before.
    /// `message` is not hashed yet. In TLS 1.2 a scheme does not bind the
    /// curve that its name holds.
    fn verify_tls12_signature(
        &self,
        message: &[u8],
        cert: &Certificate,
        dss: &DigitallySignedStruct,
    ) -> (r: Result<HandshakeSignatureValid, TlsError>)
        default_ensures
            reports(r, tls12_signature_outcome(message@, cert@, dss.scheme, dss.sig@)),
    {
        verify_signed_struct(message, cert, dss)
    }

    /// Verifies a TLS 1.3 signature by the server's certificate. Here a
    /// scheme binds the curve, and a key on another curve is refused.
    fn verify_tls13_signature(
        &self,
        message: &[u8],
        cert: &Certificate,
        dss: &DigitallySignedStruct,
    ) -> (r: Result<HandshakeSignatureValid, TlsError>)
        default_ensures
            reports(r, tls13_signature_outcome(message@, cert@, dss.scheme, dss.sig@)),
    {
        verify_tls13(message, cert, dss)
    }

    /// The schemes that this verifier checks signatures under, the most
    /// preferred first.
    fn supported_verify_schemes(&self) -> (schemes: Vec<SignatureScheme>)
        default_ensures
            schemes@ == verification_schemes_spec(),
    {
        WebPkiVerifier::verification_schemes()
    }

    /// Whether the server should be asked for SCTs.
    fn request_scts(&self) -> (r: bool)
        default_ensures
            r,
    {
        true
    }
}

/// The server verifier for the Web PKI: chains are verified against a
/// trust store, and SCTs against a list of trusted logs.
pub struct WebPkiVerifier {
    roots: RootCertStore,
    ct_logs: &'static [&'static sct::Log<'static>],
}

impl WebPkiVerifier {
    /// The anchors that server certificates are verified against.
    pub closed spec fn roots(&self) -> Seq<TrustAnchorView> {
        self.roots@
    }

    /// The logs that SCTs are verified against.
    pub closed spec fn ct_logs(&self) -> Seq<LogView> {
        logs_view(self.ct_logs@)
    }

    /// A verifier that trusts `roots` to issue server certificates and
    /// `ct_logs` to sign SCTs.
    pub fn new(roots: RootCertStore, ct_logs: &'static [&'static sct::Log<'static>]) -> (verifier:
        WebPkiVerifier)
        ensures
            verifier.roots() == roots@,
            verifier.ct_logs() == logs_view(ct_logs@),
    {
        WebPkiVerifier { roots, ct_logs }
    }

    /// The schemes that signatures are checked under, the most preferred
    /// first.
    pub fn verification_schemes() -> (schemes: Vec<SignatureScheme>)
        ensures
            schemes@ == verification_schemes_spec(),
    {
        vec![
            SignatureScheme::ECDSA_NISTP384_SHA384,
            SignatureScheme::ECDSA_NISTP256_SHA256,
            SignatureScheme::ED25519,
            SignatureScheme::RSA_PSS_SHA512,
            SignatureScheme::RSA_PSS_SHA384,
            SignatureScheme::RSA_PSS_SHA256,
            SignatureScheme::RSA_PKCS1_SHA512,
            SignatureScheme::RSA_PKCS1_SHA384,
            SignatureScheme::RSA_PKCS1_SHA256,
        ]
    }
}

/// The failure, if any, of the first part of verifying a server's
/// certificate: the end-entity certificate is parsed, the time is read in
/// seconds, and a path to one of `roots` is built.
pub open spec fn server_chain_outcome(
    end_entity: Seq<u8>,
    intermediates: Seq<Seq<u8>>,
    roots: Seq<TrustAnchorView>,
    now: SystemTime,
) -> Option<Failure> {
    match end_entity_parse(end_entity) {
        Err(e) => Some(Failure::WebPki(e, WebPkiOp::ParseEndEntity)),
        Ok(_) => match unix_seconds(now) {
            None => Some(Failure::FailedToGetCurrentTime),
            Some(secs) => match server_chain_verdict(
                end_entity,
                intermediates,
                roots,
                supported_sig_algs_spec(),
                secs,
            ) {
                Err(e) => Some(Failure::WebPki(e, WebPkiOp::ValidateServerCert)),
                Ok(_) => None,
            },
        },
    }
}

/// The failure, if any, of the last part of verifying a server's
/// certificate: the certificate is parsed and matched with `dns_name`.
pub open spec fn server_name_outcome(end_entity: Seq<u8>, dns_name: Seq<u8>) -> Option<Failure> {
    match end_entity_parse(end_entity) {
        Err(e) => Some(Failure::WebPki(e, WebPkiOp::ParseEndEntity)),
        Ok(_) => match dns_name_verdict(end_entity, dns_name) {
            Err(e) => Some(Failure::WebPki(e, WebPkiOp::ValidateForDnsName)),
            Ok(_) => None,
        },
    }
}

/// The failure, if any, of verifying a server's certificate.
///
/// The steps stand in the order in which they are taken, and the first
/// that fails gives the failure: the end-entity certificate is parsed; the
/// time is read in seconds; a path to one of `roots` is built; the SCTs
/// are checked against `logs`; the certificate is matched with `dns_name`.
pub open spec fn server_cert_outcome(
    end_entity: Seq<u8>,
    intermediates: Seq<Seq<u8>>,
    roots: Seq<TrustAnchorView>,
    dns_name: Seq<u8>,
    scts: Seq<Seq<u8>>,
    logs: Seq<LogView>,
    now: SystemTime,
) -> Option<Failure> {
    match end_entity_parse(end_entity) {
        Err(e) => Some(Failure::WebPki(e, WebPkiOp::ParseEndEntity)),
        Ok(_) => match unix_seconds(now) {
            None => Some(Failure::FailedToGetCurrentTime),
            Some(secs) => match server_chain_verdict(
                end_entity,
                intermediates,
                roots,
                supported_sig_algs_spec(),
                secs,
            ) {
                Err(e) => Some(Failure::WebPki(e, WebPkiOp::ValidateServerCert)),
                Ok(_) => match verify_scts_outcome(end_entity, now, scts, logs) {
                    Some(failure) => Some(failure),
                    None => match dns_name_verdict(end_entity, dns_name) {
                        Err(e) => Some(Failure::WebPki(e, WebPkiOp::ValidateForDnsName)),
                        Ok(_) => None,
                    },
                },
            },
        },
    }
}

impl WebPkiVerifier {
    /// The first part of the verification, on its own: verifies that
    /// `end_entity` chains to one of the trusted roots and is valid at
    /// `now`.
    ///
    /// The parts serve a caller that draws the SCTs from a source one by
    /// one and must not draw before the chain is anchored, nor further
    /// than the check needs. Such a caller verifies the chain, asks for
    /// [`WebPkiVerifier::sct_check_time`], hands each verdict of
    /// [`WebPkiVerifier::check_sct`] to [`crate::ct::sct_next`] until that
    /// finishes, and then verifies the name.
    pub fn verify_chain(
        &self,
        end_entity: &Certificate,
        intermediates: &[Certificate],
        now: SystemTime,
    ) -> (r: Result<(), TlsError>)
        ensures
            reports(
                r,
                server_chain_outcome(
                    end_entity@,
                    certificates_view(intermediates@),
                    self.roots(),
                    now,
                ),
            ),
    {
        let (cert, chain, trustroots) = prepare(end_entity, intermediates, &self.roots)?;
        let webpki_now = unix_time_seconds(now)?;
        let algs = webpki_algorithms(supported_sig_algs().as_slice());
        let chain_verdict = check_server_chain(
            cert,
            chain.as_slice(),
            trustroots.as_slice(),
            algs.as_slice(),
            webpki_now,
        );
        webpki_result(chain_verdict, WebPkiOp::ValidateServerCert)
    }

    /// The time that SCTs are checked at, in milliseconds since the
    /// epoch; `None` where no log is trusted, and so no SCT is checked and
    /// the clock is not read.
    pub fn sct_check_time(&self, now: SystemTime) -> (r: Result<Option<u64>, TlsError>)
        ensures
            if self.ct_logs().len() == 0 {
                r == Ok::<Option<u64>, TlsError>(None)
            } else {
                match millis_in_range(unix_millis(now)) {
                    Some(millis) => r == Ok::<Option<u64>, TlsError>(Some(millis)),
                    None => r == Err::<Option<u64>, TlsError>(TlsError::FailedToGetCurrentTime),
                }
            },
    {
        if self.ct_logs.len() == 0 {
            Ok(None)
        } else {
            Ok(Some(unix_time_millis(now)?))
        }
    }

    /// The verdict of the trusted logs on one SCT of `end_entity`, as of
    /// `at_time` milliseconds since the epoch.
    pub fn check_sct(&self, end_entity: &Certificate, sct: &[u8], at_time: u64) -> (verdict: Result<
        usize,
        sct::Error,
    >)
        ensures
            verdict == sct_verdict(end_entity@, sct@, at_time, self.ct_logs()),
    {
        sct::verify_sct(end_entity.as_bytes(), sct, at_time, self.ct_logs)
    }

    /// The last part of the verification, on its own: verifies that
    /// `end_entity` is valid for `dns_name`. The token that it returns
    /// stands for the whole verification, so it is the last part to take.
    pub fn verify_name(&self, end_entity: &Certificate, dns_name: &DnsName) -> (r: Result<
        ServerCertVerified,
        TlsError,
    >)
        ensures
            reports(r, server_name_outcome(end_entity@, dns_name@)),
    {
        webpki_result(parse_end_entity(end_entity.as_bytes()), WebPkiOp::ParseEndEntity)?;
        let name_verdict = match check_dns_name(end_entity.as_bytes(), dns_name.as_bytes()) {
            Some(verdict) => verdict,
            None => unreached(),
        };
        webpki_result(name_verdict, WebPkiOp::ValidateForDnsName)?;
        Ok(ServerCertVerified::assertion())
    }
}

impl ServerCertVerifier for WebPkiVerifier {
    /// Verifies that the certificate chains to one of the trusted roots
    /// and is valid at `now`, that its SCTs, if it has any, convince, and
    /// that it is valid for `dns_name`. The OCSP response is taken and not
    /// looked at.
    fn verify_server_cert(
        &self,
        end_entity: &Certificate,
        intermediates: &[Certificate],
        dns_name: &DnsName,
        scts: &[&[u8]],
        ocsp_response: &[u8],
        now: SystemTime,
    ) -> (r: Result<ServerCertVerified, TlsError>)
        ensures
            reports(
                r,
                server_cert_outcome(
                    end_entity@,
                    certificates_view(intermediates@),
                    self.roots(),
                    dns_name@,
                    blobs_view(scts@),
                    self.ct_logs(),
                    now,
                ),
            ),
    {
        self.verify_chain(end_entity, intermediates, now)?;
        verify_scts(end_entity, now, scts, self.ct_logs)?;
        self.verify_name(end_entity, dns_name)
    }
}

/// Readies a chain for the certificate library: the end-entity
/// certificate, which must parse, the intermediates as slices, and the
/// trust anchors borrowed from the store.
pub fn prepare<'a, 'b>(
    end_entity: &'a Certificate,
    intermediates: &'a [Certificate],
    roots: &'b RootCertStore,
) -> (r: Result<(&'a [u8], Vec<&'a [u8]>, Vec<webpki::TrustAnchor<'b>>), TlsError>)
    ensures
        match end_entity_parse(end_entity@) {
            Err(e) => r matches Err(err) && err == TlsError::WebPkiError(e, WebPkiOp::ParseEndEntity),
            Ok(_) => r matches Ok((cert, chain, trustroots)) && cert@ == end_entity@ && slices_view(
                chain@,
            ) == certificates_view(intermediates@) && trust_anchors_view(trustroots@) == roots@,
        },
{
    // The end-entity certificate comes first.
    webpki_result(parse_end_entity(end_entity.as_bytes()), WebPkiOp::ParseEndEntity)?;
    let cert = end_entity.as_bytes();

    let mut chain: Vec<&'a [u8]> = Vec::new();
    let mut i: usize = 0;
    while i < intermediates.len()
        invariant
            i <= intermediates.len(),
            chain@.len() == i,
            forall|j: int| 0 <= j < i ==> (#[trigger] chain@[j])@ == intermediates@[j]@,
        decreases intermediates.len() - i,
    {
        chain.push(intermediates[i].as_bytes());
        i += 1;
    }
    assert(slices_view(chain@) =~= certificates_view(intermediates@));

    let mut trustroots: Vec<webpki::TrustAnchor<'b>> = Vec::new();
    let mut k: usize = 0;
    while k < roots.roots.len()
        invariant
            k <= roots.roots.len(),
            trustroots@.len() == k,
            forall|j: int|
                0 <= j < k ==> crate::pki::trust_anchor_view(#[trigger] trustroots@[j])
                    == roots.roots@[j]@,
        decreases roots.roots.len() - k,
    {
        trustroots.push(roots.roots[k].to_trust_anchor());
        k += 1;
    }
    assert(trust_anchors_view(trustroots@) =~= roots@);

    Ok((cert, chain, trustroots))
}

/// A server's certificate is accepted where every step accepts it: the
/// certificate parses, the time counts in seconds, a path leads to a
/// trusted root at that time, the SCTs do not refuse it, and it is valid
/// for the name.
pub proof fn lemma_server_cert_accepted(
    end_entity: Seq<u8>,
    intermediates: Seq<Seq<u8>>,
    roots: Seq<TrustAnchorView>,
    dns_name: Seq<u8>,
    scts: Seq<Seq<u8>>,
    logs: Seq<LogView>,
    now: SystemTime,
    secs: u64,
)
    requires
        end_entity_parse(end_entity) is Ok,
        unix_seconds(now) == Some(secs),
        server_chain_verdict(end_entity, intermediates, roots, supported_sig_algs_spec(), secs) is Ok,
        verify_scts_outcome(end_entity, now, scts, logs) is None,
        dns_name_verdict(end_entity, dns_name) is Ok,
    ensures
        server_cert_outcome(end_entity, intermediates, roots, dns_name, scts, logs, now) is None,
{
}

/// A server's certificate without a valid path to a trusted root is
/// refused with the error of the path building, whatever its SCTs and its
/// names say. A certificate that is not valid at the time given is such a
/// certificate, and so is one that no trusted root leads to.
pub proof fn lemma_server_chain_error_refuses(
    end_entity: Seq<u8>,
    intermediates: Seq<Seq<u8>>,
    roots: Seq<TrustAnchorView>,
    dns_name: Seq<u8>,
    scts: Seq<Seq<u8>>,
    logs: Seq<LogView>,
    now: SystemTime,
    secs: u64,
    e: webpki::Error,
)
    requires
        end_entity_parse(end_entity) is Ok,
        unix_seconds(now) == Some(secs),
        server_chain_verdict(end_entity, intermediates, roots, supported_sig_algs_spec(), secs)
            == Err::<(), webpki::Error>(e),
    ensures
        server_cert_outcome(end_entity, intermediates, roots, dns_name, scts, logs, now) == Some(
            Failure::WebPki(e, WebPkiOp::ValidateServerCert),
        ),
{
}

/// A certificate that chains to a trusted root but is not valid for the
/// name expected is refused with the error of the name check, provided
/// that its SCTs did not refuse it before.
pub proof fn lemma_name_mismatch_refuses(
    end_entity: Seq<u8>,
    intermediates: Seq<Seq<u8>>,
    roots: Seq<TrustAnchorView>,
    dns_name: Seq<u8>,
    scts: Seq<Seq<u8>>,
    logs: Seq<LogView>,
    now: SystemTime,
    secs: u64,
    e: webpki::Error,
)
    requires
        end_entity_parse(end_entity) is Ok,
        unix_seconds(now) == Some(secs),
        server_chain_verdict(end_entity, intermediates, roots, supported_sig_algs_spec(), secs) is Ok,
        verify_scts_outcome(end_entity, now, scts, logs) is None,
        dns_name_verdict(end_entity, dns_name) == Err::<(), webpki::Error>(e),
    ensures
        server_cert_outcome(end_entity, intermediates, roots, dns_name, scts, logs, now) == Some(
            Failure::WebPki(e, WebPkiOp::ValidateForDnsName),
        ),
{
}

/// The verification of a server's certificate is its three parts in
/// their order: the chain, then the SCTs, then the name, and the first
/// part that fails gives the failure.
pub proof fn lemma_server_cert_in_parts(
    end_entity: Seq<u8>,
    intermediates: Seq<Seq<u8>>,
    roots: Seq<TrustAnchorView>,
    dns_name: Seq<u8>,
    scts: Seq<Seq<u8>>,
    logs: Seq<LogView>,
    now: SystemTime,
)
    ensures
        server_cert_outcome(end_entity, intermediates, roots, dns_name, scts, logs, now) == match server_chain_outcome(
            end_entity,
            intermediates,
            roots,
            now,
        ) {
            Some(failure) => Some(failure),
            None => match verify_scts_outcome(end_entity, now, scts, logs) {
                Some(failure) => Some(failure),
                None => server_name_outcome(end_entity, dns_name),
            },
        },
{
}

} // verus!
