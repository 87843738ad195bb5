//! What the certificate library decides, and the calls that ask it.
//!
//! Parsing X.509, building a path to a trust anchor, matching a DNS name
//! and checking a signature are `webpki`'s work. Each of those results is a
//! function of the bytes and values handed over, too long to spell out, so
//! each has a name here: a spec function without a body, which the
//! contracts of this crate are stated over. The calls themselves stand in
//! this module and nowhere else.

use crate::enums::SignatureAlg;
use vstd::prelude::*;

verus! {

/// `webpki::TrustAnchor`: a trust anchor as three borrowed byte strings,
/// open to the verifier.
#[verifier::external_type_specification]
pub struct ExTrustAnchor<'a>(webpki::TrustAnchor<'a>);

/// `webpki::TlsServerTrustAnchors`: a borrowed list of trust anchors, open
/// to the verifier.
#[verifier::external_type_specification]
pub struct ExTlsServerTrustAnchors<'a>(webpki::TlsServerTrustAnchors<'a>);

/// `webpki::SignatureAlgorithm`: the descriptor of one algorithm, closed to
/// the verifier.
#[verifier::external_type_specification]
#[verifier::external_body]
pub struct ExSignatureAlgorithm(webpki::SignatureAlgorithm);

/// A trust anchor as plain bytes: the subject name, the public key
/// information, and the name constraints if there are any.
pub struct TrustAnchorView {
    pub subject: Seq<u8>,
    pub spki: Seq<u8>,
    pub name_constraints: Option<Seq<u8>>,
}

/// The bytes of one borrowed trust anchor.
pub open spec fn trust_anchor_view(anchor: webpki::TrustAnchor) -> TrustAnchorView {
    TrustAnchorView {
        subject: anchor.subject@,
        spki: anchor.spki@,
        name_constraints: match anchor.name_constraints {
            Some(constraints) => Some(constraints@),
            None => None,
        },
    }
}

/// The bytes of each borrowed trust anchor of a list, in the list's order.
pub open spec fn trust_anchors_view(anchors: Seq<webpki::TrustAnchor>) -> Seq<TrustAnchorView> {
    anchors.map_values(|anchor: webpki::TrustAnchor| trust_anchor_view(anchor))
}

/// The bytes of each slice of a list, in the list's order.
pub open spec fn slices_view(slices: Seq<&[u8]>) -> Seq<Seq<u8>> {
    slices.map_values(|slice: &[u8]| slice@)
}

/// Whether `der` parses as an end-entity certificate: what
/// `webpki::EndEntityCert::try_from` returns for it, without the parsed
/// certificate.
pub uninterp spec fn end_entity_parse(der: Seq<u8>) -> Result<(), webpki::Error>;

/// The trust anchor that `webpki::TrustAnchor::try_from_cert_der` reads
/// from the certificate `der`, or its error.
pub uninterp spec fn trust_anchor_parse(der: Seq<u8>) -> Result<TrustAnchorView, webpki::Error>;

/// What `webpki::EndEntityCert::verify_is_valid_tls_server_cert` returns
/// for the end-entity certificate `end_entity`: whether a path leads from
/// it, through `intermediates`, to one of `anchors`, signed with `algs`
/// only, valid at `time` (seconds since the epoch) and fit for a TLS
/// server.
pub uninterp spec fn server_chain_verdict(
    end_entity: Seq<u8>,
    intermediates: Seq<Seq<u8>>,
    anchors: Seq<TrustAnchorView>,
    algs: Seq<SignatureAlg>,
    time: u64,
) -> Result<(), webpki::Error>;

/// What `webpki::EndEntityCert::verify_is_valid_tls_client_cert` returns:
/// as [`server_chain_verdict`], for a TLS client.
pub uninterp spec fn client_chain_verdict(
    end_entity: Seq<u8>,
    intermediates: Seq<Seq<u8>>,
    anchors: Seq<TrustAnchorView>,
    algs: Seq<SignatureAlg>,
    time: u64,
) -> Result<(), webpki::Error>;

/// Whether `name` is a DNS name by syntax: whether
/// `webpki::DnsNameRef::try_from_ascii` accepts it.
pub uninterp spec fn is_dns_name(name: Seq<u8>) -> bool;

/// What `webpki::EndEntityCert::verify_is_valid_for_dns_name` returns for
/// the certificate `end_entity` and the DNS name `name`.
pub uninterp spec fn dns_name_verdict(end_entity: Seq<u8>, name: Seq<u8>) -> Result<
    (),
    webpki::Error,
>;

/// What `webpki::EndEntityCert::verify_signature` returns: whether
/// `signature` is a signature of `message` under `alg` by the key of the
/// certificate `end_entity`.
pub uninterp spec fn signature_verdict(
    end_entity: Seq<u8>,
    alg: SignatureAlg,
    message: Seq<u8>,
    signature: Seq<u8>,
) -> Result<(), webpki::Error>;

/// The kind of public key that an algorithm verifies with. A key is of
/// one kind, which its certificate states.
pub enum KeyKind {
    /// An elliptic-curve key on P-256.
    EcdsaP256,
    /// An elliptic-curve key on P-384.
    EcdsaP384,
    /// An `rsaEncryption` key.
    Rsa,
    /// An Ed25519 key.
    Ed25519,
}

/// The kind of key that each algorithm verifies with.
pub open spec fn key_kind(alg: SignatureAlg) -> KeyKind {
    match alg {
        SignatureAlg::EcdsaP256Sha256 => KeyKind::EcdsaP256,
        SignatureAlg::EcdsaP256Sha384 => KeyKind::EcdsaP256,
        SignatureAlg::EcdsaP384Sha256 => KeyKind::EcdsaP384,
        SignatureAlg::EcdsaP384Sha384 => KeyKind::EcdsaP384,
        SignatureAlg::Ed25519 => KeyKind::Ed25519,
        SignatureAlg::RsaPssSha256 => KeyKind::Rsa,
        SignatureAlg::RsaPssSha384 => KeyKind::Rsa,
        SignatureAlg::RsaPssSha512 => KeyKind::Rsa,
        SignatureAlg::RsaPkcs1Sha256 => KeyKind::Rsa,
        SignatureAlg::RsaPkcs1Sha384 => KeyKind::Rsa,
        SignatureAlg::RsaPkcs1Sha512 => KeyKind::Rsa,
        SignatureAlg::RsaPkcs1Sha384Min3072 => KeyKind::Rsa,
    }
}

/// Whether under every algorithm for another kind of key than that of
/// `alg` the verdict is that the algorithm does not fit the key.
pub open spec fn other_kinds_do_not_fit(
    end_entity: Seq<u8>,
    alg: SignatureAlg,
    message: Seq<u8>,
    signature: Seq<u8>,
) -> bool {
    forall|other: SignatureAlg|
        key_kind(other) != key_kind(alg) ==> #[trigger] signature_verdict(
            end_entity,
            other,
            message,
            signature,
        ) == Err::<(), webpki::Error>(webpki::Error::UnsupportedSignatureAlgorithmForPublicKey)
}

/// `webpki::EndEntityCert::try_from`, keeping whether the bytes parse
/// and dropping the parsed certificate.
#[verifier::external_body]
pub(crate) fn parse_end_entity(der: &[u8]) -> (r: Result<(), webpki::Error>)
    ensures
        r == end_entity_parse(der@),
{
    webpki::EndEntityCert::try_from(der).map(|_| ())
}

/// `webpki::TrustAnchor::try_from_cert_der` reads the subject, the public
/// key information and the name constraints out of a certificate, which it
/// does not validate, or reports why the certificate does not parse.
pub assume_specification<'a>[ webpki::TrustAnchor::<'a>::try_from_cert_der ](
    cert_der: &'a [u8],
) -> (r: Result<webpki::TrustAnchor<'a>, webpki::Error>)
    ensures
        match r {
            Ok(anchor) => trust_anchor_parse(cert_der@) == Ok::<TrustAnchorView, webpki::Error>(
                trust_anchor_view(anchor),
            ),
            Err(e) => trust_anchor_parse(cert_der@) == Err::<TrustAnchorView, webpki::Error>(e),
        },
;

/// The algorithm that a descriptor of `webpki` describes.
pub uninterp spec fn described_algorithm(descriptor: webpki::SignatureAlgorithm) -> SignatureAlg;

/// The algorithms that a list of descriptors describes, in the list's
/// order.
pub open spec fn descriptors_view(descriptors: Seq<&webpki::SignatureAlgorithm>) -> Seq<
    SignatureAlg,
> {
    descriptors.map_values(|descriptor: &webpki::SignatureAlgorithm| described_algorithm(*descriptor))
}

/// The descriptor that `webpki` exports for an algorithm: one of its
/// twelve statics, each of which describes the algorithm that its name and
/// its documentation say.
#[verifier::external_body]
pub(crate) fn webpki_algorithm(alg: SignatureAlg) -> (descriptor: &'static webpki::SignatureAlgorithm)
    ensures
        described_algorithm(*descriptor) == alg,
{
    match alg {
        SignatureAlg::EcdsaP256Sha256 => &webpki::ECDSA_P256_SHA256,
        SignatureAlg::EcdsaP256Sha384 => &webpki::ECDSA_P256_SHA384,
        SignatureAlg::EcdsaP384Sha256 => &webpki::ECDSA_P384_SHA256,
        SignatureAlg::EcdsaP384Sha384 => &webpki::ECDSA_P384_SHA384,
        SignatureAlg::Ed25519 => &webpki::ED25519,
        SignatureAlg::RsaPssSha256 => &webpki::RSA_PSS_2048_8192_SHA256_LEGACY_KEY,
        SignatureAlg::RsaPssSha384 => &webpki::RSA_PSS_2048_8192_SHA384_LEGACY_KEY,
        SignatureAlg::RsaPssSha512 => &webpki::RSA_PSS_2048_8192_SHA512_LEGACY_KEY,
        SignatureAlg::RsaPkcs1Sha256 => &webpki::RSA_PKCS1_2048_8192_SHA256,
        SignatureAlg::RsaPkcs1Sha384 => &webpki::RSA_PKCS1_2048_8192_SHA384,
        SignatureAlg::RsaPkcs1Sha512 => &webpki::RSA_PKCS1_2048_8192_SHA512,
        SignatureAlg::RsaPkcs1Sha384Min3072 => &webpki::RSA_PKCS1_3072_8192_SHA384,
    }
}

/// The descriptors of a list of algorithms, in the list's order.
pub fn webpki_algorithms(algs: &[SignatureAlg]) -> (descriptors: Vec<
    &'static webpki::SignatureAlgorithm,
>)
    ensures
        descriptors_view(descriptors@) == algs@,
{
    let mut descriptors: Vec<&'static webpki::SignatureAlgorithm> = Vec::new();
    let mut i: usize = 0;
    while i < algs.len()
        invariant
            i <= algs.len(),
            descriptors@.len() == i,
            forall|j: int| 0 <= j < i ==> described_algorithm(*#[trigger] descriptors@[j]) == algs@[j],
        decreases algs.len() - i,
    {
        descriptors.push(webpki_algorithm(algs[i]));
        i += 1;
    }
    assert(descriptors_view(descriptors@) =~= algs@);
    descriptors
}

/// `webpki::EndEntityCert::verify_is_valid_tls_server_cert` on the
/// certificate that `webpki::EndEntityCert::try_from` parses from
/// `end_entity`, for the time `time` seconds after the epoch.
#[verifier::external_body]
pub(crate) fn check_server_chain(
    end_entity: &[u8],
    intermediates: &[&[u8]],
    anchors: &[webpki::TrustAnchor],
    algs: &[&webpki::SignatureAlgorithm],
    time: u64,
) -> (r: Result<(), webpki::Error>)
    requires
        end_entity_parse(end_entity@) is Ok,
    ensures
        r == server_chain_verdict(
            end_entity@,
            slices_view(intermediates@),
            trust_anchors_view(anchors@),
            descriptors_view(algs@),
            time,
        ),
{
    let time = webpki::Time::from_seconds_since_unix_epoch(time);
    let anchors = webpki::TlsServerTrustAnchors(anchors);
    let cert = webpki::EndEntityCert::try_from(end_entity)?;
    cert.verify_is_valid_tls_server_cert(algs, &anchors, intermediates, time)
}

/// `webpki::EndEntityCert::verify_is_valid_tls_client_cert` on the
/// certificate that `webpki::EndEntityCert::try_from` parses from
/// `end_entity`, for the time `time` seconds after the epoch.
#[verifier::external_body]
pub(crate) fn check_client_chain(
    end_entity: &[u8],
    intermediates: &[&[u8]],
    anchors: &[webpki::TrustAnchor],
    algs: &[&webpki::SignatureAlgorithm],
    time: u64,
) -> (r: Result<(), webpki::Error>)
    requires
        end_entity_parse(end_entity@) is Ok,
    ensures
        r == client_chain_verdict(
            end_entity@,
            slices_view(intermediates@),
            trust_anchors_view(anchors@),
            descriptors_view(algs@),
            time,
        ),
{
    let time = webpki::Time::from_seconds_since_unix_epoch(time);
    let anchors = webpki::TlsClientTrustAnchors(anchors);
    let cert = webpki::EndEntityCert::try_from(end_entity)?;
    cert.verify_is_valid_tls_client_cert(algs, &anchors, intermediates, time)
}

/// `webpki::DnsNameRef::try_from_ascii`, keeping whether the bytes are a
/// DNS name.
#[verifier::external_body]
pub(crate) fn check_dns_name_syntax(name: &[u8]) -> (valid: bool)
    ensures
        valid == is_dns_name(name@),
{
    webpki::DnsNameRef::try_from_ascii(name).is_ok()
}

/// `webpki::EndEntityCert::verify_is_valid_for_dns_name` on the
/// certificate that `webpki::EndEntityCert::try_from` parses from
/// `end_entity` and the name that `webpki::DnsNameRef::try_from_ascii`
/// reads from `name`; `None` where `name` is no DNS name, so that there
/// is nothing to call with.
#[verifier::external_body]
pub(crate) fn check_dns_name(end_entity: &[u8], name: &[u8]) -> (r: Option<
    Result<(), webpki::Error>,
>)
    requires
        end_entity_parse(end_entity@) is Ok,
    ensures
        r == if is_dns_name(name@) {
            Some(dns_name_verdict(end_entity@, name@))
        } else {
            None
        },
{
    let cert = webpki::EndEntityCert::try_from(end_entity).ok()?;
    let name = webpki::DnsNameRef::try_from_ascii(name).ok()?;
    Some(cert.verify_is_valid_for_dns_name(name))
}

/// `webpki::EndEntityCert::verify_signature` on the certificate that
/// `webpki::EndEntityCert::try_from` parses from `end_entity`.
///
/// Before it checks anything, `verify_signature` compares the algorithm
/// identifier of the certificate's key with that of the descriptor, and
/// answers `UnsupportedSignatureAlgorithmForPublicKey` where they differ.
/// The descriptors carry four such identifiers, one for each [`KeyKind`].
/// So a signature that is valid under one algorithm fits no algorithm of
/// another kind of key.
#[verifier::external_body]
pub(crate) fn check_signature(
    end_entity: &[u8],
    alg: &webpki::SignatureAlgorithm,
    message: &[u8],
    signature: &[u8],
) -> (r: Result<(), webpki::Error>)
    requires
        end_entity_parse(end_entity@) is Ok,
    ensures
        r == signature_verdict(end_entity@, described_algorithm(*alg), message@, signature@),
        r is Ok ==> other_kinds_do_not_fit(
            end_entity@,
            described_algorithm(*alg),
            message@,
            signature@,
        ),
{
    let cert = webpki::EndEntityCert::try_from(end_entity)?;
    cert.verify_signature(alg, message, signature)
}

} // verus!
