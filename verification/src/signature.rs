//! Handshake signatures: which algorithms a scheme stands for, and the
//! check of a signature by the key of a certificate.
//!
//! The two protocol versions read a scheme differently. In TLS 1.2 an
//! ECDSA scheme names a digest and leaves the curve open, so it stands for
//! one algorithm per curve and each is tried. In TLS 1.3 a scheme stands
//! for exactly one algorithm, and nothing else is tried.

use crate::enums::DigitallySignedStruct;
use crate::enums::SignatureAlg;
use crate::enums::SignatureScheme;
use crate::error::reports;
use crate::error::Failure;
use crate::error::TlsError;
use crate::error::WebPkiOp;
use crate::key::Certificate;
use crate::pki::check_signature;
use crate::pki::end_entity_parse;
use crate::pki::other_kinds_do_not_fit;
use crate::pki::parse_end_entity;
use crate::pki::signature_verdict;
use crate::pki::webpki_algorithm;
use crate::verify::HandshakeSignatureValid;
use ring::digest::Digest;
use vstd::prelude::*;

verus! {

/// The algorithms that a scheme stands for in TLS 1.2, in the order in
/// which they are tried; `None` for a scheme that no signature may be made
/// under.
pub open spec fn tls12_algorithms(scheme: SignatureScheme) -> Option<Seq<SignatureAlg>> {
    match scheme {
        SignatureScheme::ECDSA_NISTP256_SHA256 => Some(
            seq![SignatureAlg::EcdsaP256Sha256, SignatureAlg::EcdsaP384Sha256],
        ),
        SignatureScheme::ECDSA_NISTP384_SHA384 => Some(
            seq![SignatureAlg::EcdsaP256Sha384, SignatureAlg::EcdsaP384Sha384],
        ),
        SignatureScheme::ED25519 => Some(seq![SignatureAlg::Ed25519]),
        SignatureScheme::RSA_PKCS1_SHA256 => Some(seq![SignatureAlg::RsaPkcs1Sha256]),
        SignatureScheme::RSA_PKCS1_SHA384 => Some(seq![SignatureAlg::RsaPkcs1Sha384]),
        SignatureScheme::RSA_PKCS1_SHA512 => Some(seq![SignatureAlg::RsaPkcs1Sha512]),
        SignatureScheme::RSA_PSS_SHA256 => Some(seq![SignatureAlg::RsaPssSha256]),
        SignatureScheme::RSA_PSS_SHA384 => Some(seq![SignatureAlg::RsaPssSha384]),
        SignatureScheme::RSA_PSS_SHA512 => Some(seq![SignatureAlg::RsaPssSha512]),
        _ => None,
    }
}

/// The one algorithm that a scheme stands for in TLS 1.3; `None` for a
/// scheme that no TLS 1.3 signature may be made under, which the
/// PKCS#1 v1.5 schemes are among.
pub open spec fn tls13_algorithm(scheme: SignatureScheme) -> Option<SignatureAlg> {
    match scheme {
        SignatureScheme::ECDSA_NISTP256_SHA256 => Some(SignatureAlg::EcdsaP256Sha256),
        SignatureScheme::ECDSA_NISTP384_SHA384 => Some(SignatureAlg::EcdsaP384Sha384),
        SignatureScheme::ED25519 => Some(SignatureAlg::Ed25519),
        SignatureScheme::RSA_PSS_SHA256 => Some(SignatureAlg::RsaPssSha256),
        SignatureScheme::RSA_PSS_SHA384 => Some(SignatureAlg::RsaPssSha384),
        SignatureScheme::RSA_PSS_SHA512 => Some(SignatureAlg::RsaPssSha512),
        _ => None,
    }
}

/// The decimal digit `d` as text.
pub open spec fn digit_text(d: nat) -> Seq<char> {
    if d == 0 {
        "0"@
    } else if d == 1 {
        "1"@
    } else if d == 2 {
        "2"@
    } else if d == 3 {
        "3"@
    } else if d == 4 {
        "4"@
    } else if d == 5 {
        "5"@
    } else if d == 6 {
        "6"@
    } else if d == 7 {
        "7"@
    } else if d == 8 {
        "8"@
    } else {
        "9"@
    }
}

/// The number `n` in decimal, without leading zeros.
pub open spec fn decimal_text(n: nat) -> Seq<char>
    decreases n,
{
    if n < 10 {
        digit_text(n)
    } else {
        decimal_text(n / 10) + digit_text(n % 10)
    }
}

/// A scheme as messages show it: its name, and for a scheme that has
/// none its code in decimal.
pub open spec fn scheme_text(scheme: SignatureScheme) -> Seq<char> {
    match scheme {
        SignatureScheme::RSA_PKCS1_SHA1 => "RSA_PKCS1_SHA1"@,
        SignatureScheme::ECDSA_SHA1_Legacy => "ECDSA_SHA1_Legacy"@,
        SignatureScheme::RSA_PKCS1_SHA256 => "RSA_PKCS1_SHA256"@,
        SignatureScheme::ECDSA_NISTP256_SHA256 => "ECDSA_NISTP256_SHA256"@,
        SignatureScheme::RSA_PKCS1_SHA384 => "RSA_PKCS1_SHA384"@,
        SignatureScheme::ECDSA_NISTP384_SHA384 => "ECDSA_NISTP384_SHA384"@,
        SignatureScheme::RSA_PKCS1_SHA512 => "RSA_PKCS1_SHA512"@,
        SignatureScheme::ECDSA_NISTP521_SHA512 => "ECDSA_NISTP521_SHA512"@,
        SignatureScheme::RSA_PSS_SHA256 => "RSA_PSS_SHA256"@,
        SignatureScheme::RSA_PSS_SHA384 => "RSA_PSS_SHA384"@,
        SignatureScheme::RSA_PSS_SHA512 => "RSA_PSS_SHA512"@,
        SignatureScheme::ED25519 => "ED25519"@,
        SignatureScheme::ED448 => "ED448"@,
        SignatureScheme::Unknown(code) => "Unknown("@ + decimal_text(code as nat) + ")"@,
    }
}

/// The complaint about a scheme: what is wrong, a space, and the scheme.
pub open spec fn complaint_text(what: Seq<char>, scheme: SignatureScheme) -> Seq<char> {
    what + " "@ + scheme_text(scheme)
}

/// What is wrong with a scheme that TLS 1.2 has no algorithm for.
pub open spec fn unadvertised_text() -> Seq<char> {
    "received unadvertised sig scheme"@
}

/// What is wrong with a scheme that TLS 1.3 has no algorithm for.
pub open spec fn unsupported_text() -> Seq<char> {
    "received unsupported sig scheme"@
}

/// One decimal digit as text.
fn digit_str(d: u16) -> (text: &'static str)
    requires
        d < 10,
    ensures
        text@ == digit_text(d as nat),
{
    if d == 0 {
        "0"
    } else if d == 1 {
        "1"
    } else if d == 2 {
        "2"
    } else if d == 3 {
        "3"
    } else if d == 4 {
        "4"
    } else if d == 5 {
        "5"
    } else if d == 6 {
        "6"
    } else if d == 7 {
        "7"
    } else if d == 8 {
        "8"
    } else {
        "9"
    }
}

/// Appends `n` in decimal.
fn append_decimal(text: &mut String, n: u16)
    ensures
        final(text)@ == old(text)@ + decimal_text(n as nat),
    decreases n,
{
    if n >= 10 {
        append_decimal(text, n / 10);
    }
    text.append(digit_str(n % 10));
}

/// Appends a scheme as messages show it.
fn append_scheme(text: &mut String, scheme: SignatureScheme)
    ensures
        final(text)@ == old(text)@ + scheme_text(scheme),
{
    match scheme {
        SignatureScheme::RSA_PKCS1_SHA1 => text.append("RSA_PKCS1_SHA1"),
        SignatureScheme::ECDSA_SHA1_Legacy => text.append("ECDSA_SHA1_Legacy"),
        SignatureScheme::RSA_PKCS1_SHA256 => text.append("RSA_PKCS1_SHA256"),
        SignatureScheme::ECDSA_NISTP256_SHA256 => text.append("ECDSA_NISTP256_SHA256"),
        SignatureScheme::RSA_PKCS1_SHA384 => text.append("RSA_PKCS1_SHA384"),
        SignatureScheme::ECDSA_NISTP384_SHA384 => text.append("ECDSA_NISTP384_SHA384"),
        SignatureScheme::RSA_PKCS1_SHA512 => text.append("RSA_PKCS1_SHA512"),
        SignatureScheme::ECDSA_NISTP521_SHA512 => text.append("ECDSA_NISTP521_SHA512"),
        SignatureScheme::RSA_PSS_SHA256 => text.append("RSA_PSS_SHA256"),
        SignatureScheme::RSA_PSS_SHA384 => text.append("RSA_PSS_SHA384"),
        SignatureScheme::RSA_PSS_SHA512 => text.append("RSA_PSS_SHA512"),
        SignatureScheme::ED25519 => text.append("ED25519"),
        SignatureScheme::ED448 => text.append("ED448"),
        SignatureScheme::Unknown(code) => {
            text.append("Unknown(");
            append_decimal(text, code);
            text.append(")");
            assert(text@ =~= old(text)@ + scheme_text(scheme));
        },
    }
}

/// Words a complaint about a scheme: `what`, a space, and the scheme.
pub fn scheme_complaint(what: &str, scheme: SignatureScheme) -> (text: String)
    ensures
        text@ == complaint_text(what@, scheme),
{
    let mut text = String::from_str(what);
    text.append(" ");
    append_scheme(&mut text, scheme);
    assert(text@ =~= complaint_text(what@, scheme));
    text
}

/// Resolves a scheme as TLS 1.2 reads it. A scheme that stands for no
/// algorithm was never offered to the peer, who misbehaved by using it.
pub fn convert_scheme(scheme: SignatureScheme) -> (r: Result<Vec<SignatureAlg>, TlsError>)
    ensures
        match tls12_algorithms(scheme) {
            Some(algs) => r matches Ok(found) && found@ == algs,
            None => r matches Err(TlsError::PeerMisbehavedError(text)) && text@ == complaint_text(
                unadvertised_text(),
                scheme,
            ),
        },
{
    match scheme {
        SignatureScheme::ECDSA_NISTP256_SHA256 => Ok(
            vec![SignatureAlg::EcdsaP256Sha256, SignatureAlg::EcdsaP384Sha256],
        ),
        SignatureScheme::ECDSA_NISTP384_SHA384 => Ok(
            vec![SignatureAlg::EcdsaP256Sha384, SignatureAlg::EcdsaP384Sha384],
        ),
        SignatureScheme::ED25519 => Ok(vec![SignatureAlg::Ed25519]),
        SignatureScheme::RSA_PKCS1_SHA256 => Ok(vec![SignatureAlg::RsaPkcs1Sha256]),
        SignatureScheme::RSA_PKCS1_SHA384 => Ok(vec![SignatureAlg::RsaPkcs1Sha384]),
        SignatureScheme::RSA_PKCS1_SHA512 => Ok(vec![SignatureAlg::RsaPkcs1Sha512]),
        SignatureScheme::RSA_PSS_SHA256 => Ok(vec![SignatureAlg::RsaPssSha256]),
        SignatureScheme::RSA_PSS_SHA384 => Ok(vec![SignatureAlg::RsaPssSha384]),
        SignatureScheme::RSA_PSS_SHA512 => Ok(vec![SignatureAlg::RsaPssSha512]),
        _ => Err(
            TlsError::PeerMisbehavedError(
                scheme_complaint("received unadvertised sig scheme", scheme),
            ),
        ),
    }
}

/// Resolves a scheme as TLS 1.3 reads it: to one algorithm, or to the
/// peer's misbehaviour.
pub fn convert_alg_tls13(scheme: SignatureScheme) -> (r: Result<SignatureAlg, TlsError>)
    ensures
        match tls13_algorithm(scheme) {
            Some(alg) => r matches Ok(found) && found == alg,
            None => r matches Err(TlsError::PeerMisbehavedError(text)) && text@ == complaint_text(
                unsupported_text(),
                scheme,
            ),
        },
{
    match scheme {
        SignatureScheme::ECDSA_NISTP256_SHA256 => Ok(SignatureAlg::EcdsaP256Sha256),
        SignatureScheme::ECDSA_NISTP384_SHA384 => Ok(SignatureAlg::EcdsaP384Sha384),
        SignatureScheme::ED25519 => Ok(SignatureAlg::Ed25519),
        SignatureScheme::RSA_PSS_SHA256 => Ok(SignatureAlg::RsaPssSha256),
        SignatureScheme::RSA_PSS_SHA384 => Ok(SignatureAlg::RsaPssSha384),
        SignatureScheme::RSA_PSS_SHA512 => Ok(SignatureAlg::RsaPssSha512),
        _ => Err(
            TlsError::PeerMisbehavedError(
                scheme_complaint("received unsupported sig scheme", scheme),
            ),
        ),
    }
}

/// Whether a verdict ends the trial of algorithms. Success does, and so
/// does every error but the one that says the algorithm does not fit the
/// key, on which the next algorithm is tried.
pub open spec fn is_final(verdict: Result<(), webpki::Error>) -> bool {
    !(verdict matches Err(webpki::Error::UnsupportedSignatureAlgorithmForPublicKey))
}

/// Whether `algs[i]` is the first algorithm whose verdict is final.
pub open spec fn is_first_final(
    end_entity: Seq<u8>,
    algs: Seq<SignatureAlg>,
    message: Seq<u8>,
    signature: Seq<u8>,
    i: int,
) -> bool {
    &&& 0 <= i < algs.len()
    &&& is_final(signature_verdict(end_entity, algs[i], message, signature))
    &&& forall|j: int|
        0 <= j < i ==> !is_final(signature_verdict(end_entity, #[trigger] algs[j], message, signature))
}

/// The verdict on a signature that may be under any of `algs`: that of
/// the first algorithm whose verdict is final, and where no algorithm
/// fits the key, the error that says so.
pub open spec fn any_alg_verdict(
    end_entity: Seq<u8>,
    algs: Seq<SignatureAlg>,
    message: Seq<u8>,
    signature: Seq<u8>,
) -> Result<(), webpki::Error> {
    if exists|i: int| is_first_final(end_entity, algs, message, signature, i) {
        let first = choose|i: int| is_first_final(end_entity, algs, message, signature, i);
        signature_verdict(end_entity, algs[first], message, signature)
    } else {
        Err(webpki::Error::UnsupportedSignatureAlgorithmForPublicKey)
    }
}

/// The first algorithm with a final verdict is unique.
proof fn lemma_first_final_unique(
    end_entity: Seq<u8>,
    algs: Seq<SignatureAlg>,
    message: Seq<u8>,
    signature: Seq<u8>,
    i: int,
    j: int,
)
    requires
        is_first_final(end_entity, algs, message, signature, i),
        is_first_final(end_entity, algs, message, signature, j),
    ensures
        i == j,
{
    if i < j {
        assert(!is_final(signature_verdict(end_entity, algs[i], message, signature)));
    } else if j < i {
        assert(!is_final(signature_verdict(end_entity, algs[j], message, signature)));
    }
}

/// Reads one verdict in the trial of algorithms: whether it is final.
pub fn ends_trial(verdict: &Result<(), webpki::Error>) -> (r: bool)
    ensures
        r == is_final(*verdict),
{
    match verdict {
        Err(webpki::Error::UnsupportedSignatureAlgorithmForPublicKey) => false,
        _ => true,
    }
}

/// Checks `sig` over `message` by the key of the certificate `cert`,
/// under each of `algs` in turn until one fits the key.
pub fn verify_sig_using_any_alg(
    cert: &Certificate,
    algs: &[SignatureAlg],
    message: &[u8],
    sig: &[u8],
) -> (r: Result<(), webpki::Error>)
    requires
        end_entity_parse(cert@) is Ok,
    ensures
        r == any_alg_verdict(cert@, algs@, message@, sig@),
{
    let mut i: usize = 0;
    while i < algs.len()
        invariant
            i <= algs.len(),
            end_entity_parse(cert@) is Ok,
            forall|j: int|
                0 <= j < i ==> !is_final(signature_verdict(cert@, #[trigger] algs@[j], message@, sig@)),
        decreases algs.len() - i,
    {
        let verdict = check_signature(cert.as_bytes(), webpki_algorithm(algs[i]), message, sig);
        if ends_trial(&verdict) {
            proof {
                assert(is_first_final(cert@, algs@, message@, sig@, i as int));
                let first = choose|k: int| is_first_final(cert@, algs@, message@, sig@, k);
                lemma_first_final_unique(cert@, algs@, message@, sig@, first, i as int);
            }
            return verdict;
        }
        i += 1;
    }
    assert(!exists|k: int| is_first_final(cert@, algs@, message@, sig@, k));
    Err(webpki::Error::UnsupportedSignatureAlgorithmForPublicKey)
}

/// The failure, if any, of a TLS 1.2 signature: of its scheme, of the
/// certificate's encoding, or of the signature itself.
pub open spec fn tls12_signature_outcome(
    message: Seq<u8>,
    cert: Seq<u8>,
    scheme: SignatureScheme,
    sig: Seq<u8>,
) -> Option<Failure> {
    match tls12_algorithms(scheme) {
        None => Some(Failure::PeerMisbehaved(complaint_text(unadvertised_text(), scheme))),
        Some(algs) => match end_entity_parse(cert) {
            Err(e) => Some(Failure::WebPki(e, WebPkiOp::ParseEndEntity)),
            Ok(_) => match any_alg_verdict(cert, algs, message, sig) {
                Err(e) => Some(Failure::WebPki(e, WebPkiOp::VerifySignature)),
                Ok(_) => None,
            },
        },
    }
}

/// The failure, if any, of a TLS 1.3 signature. Only the verdict under
/// the scheme's one algorithm counts.
pub open spec fn tls13_signature_outcome(
    message: Seq<u8>,
    cert: Seq<u8>,
    scheme: SignatureScheme,
    sig: Seq<u8>,
) -> Option<Failure> {
    match tls13_algorithm(scheme) {
        None => Some(Failure::PeerMisbehaved(complaint_text(unsupported_text(), scheme))),
        Some(alg) => match end_entity_parse(cert) {
            Err(e) => Some(Failure::WebPki(e, WebPkiOp::ParseEndEntity)),
            Ok(_) => match signature_verdict(cert, alg, message, sig) {
                Err(e) => Some(Failure::WebPki(e, WebPkiOp::VerifySignature)),
                Ok(_) => None,
            },
        },
    }
}

/// Turns the certificate library's answer at step `op` into this
/// library's: its error is kept, with the step.
pub fn webpki_result(answer: Result<(), webpki::Error>, op: WebPkiOp) -> (r: Result<(), TlsError>)
    ensures
        match answer {
            Ok(_) => r is Ok,
            Err(e) => r == Err::<(), TlsError>(TlsError::WebPkiError(e, op)),
        },
{
    match answer {
        Ok(_) => Ok(()),
        Err(e) => Err(TlsError::WebPkiError(e, op)),
    }
}

/// Checks a TLS 1.2 handshake signature: `dss` over the unhashed
/// `message`, by the key of `cert`.
pub fn verify_signed_struct(
    message: &[u8],
    cert: &Certificate,
    dss: &DigitallySignedStruct,
) -> (r: Result<HandshakeSignatureValid, TlsError>)
    ensures
        reports(r, tls12_signature_outcome(message@, cert@, dss.scheme, dss.sig@)),
{
    let possible_algs = convert_scheme(dss.scheme)?;
    webpki_result(parse_end_entity(cert.as_bytes()), WebPkiOp::ParseEndEntity)?;
    let verdict = verify_sig_using_any_alg(
        cert,
        possible_algs.as_slice(),
        message,
        dss.sig.as_slice(),
    );
    webpki_result(verdict, WebPkiOp::VerifySignature)?;
    Ok(HandshakeSignatureValid::assertion())
}

/// Checks a TLS 1.3 handshake signature: `dss` over the unhashed `msg`,
/// by the key of `cert`, under the one algorithm of the scheme.
///
/// TLS 1.3 is the stricter of the two: whatever it accepts, TLS 1.2
/// accepts as well.
pub fn verify_tls13(
    msg: &[u8],
    cert: &Certificate,
    dss: &DigitallySignedStruct,
) -> (r: Result<HandshakeSignatureValid, TlsError>)
    ensures
        reports(r, tls13_signature_outcome(msg@, cert@, dss.scheme, dss.sig@)),
        r is Ok ==> tls12_signature_outcome(msg@, cert@, dss.scheme, dss.sig@) is None,
{
    let alg = convert_alg_tls13(dss.scheme)?;
    webpki_result(parse_end_entity(cert.as_bytes()), WebPkiOp::ParseEndEntity)?;
    let verdict = check_signature(cert.as_bytes(), webpki_algorithm(alg), msg, dss.sig.as_slice());
    webpki_result(verdict, WebPkiOp::VerifySignature)?;
    proof {
        lemma_tls13_accepted_is_tls12_accepted(msg@, cert@, dss.scheme, dss.sig@);
    }
    Ok(HandshakeSignatureValid::assertion())
}

/// `ring::digest::Digest`: a digest value, closed to the verifier.
#[verifier::external_type_specification]
#[verifier::external_body]
pub struct ExDigest(Digest);

/// The bytes of a digest value.
pub uninterp spec fn digest_bytes(digest: Digest) -> Seq<u8>;

/// `Digest::as_ref`: the digest value as bytes.
#[verifier::external_body]
fn digest_as_bytes(digest: &Digest) -> (bytes: &[u8])
    ensures
        bytes@ == digest_bytes(*digest),
{
    digest.as_ref()
}

/// `"TLS 1.3, client CertificateVerify"` and a zero octet.
pub const CLIENT_VERIFY_CONTEXT: [u8; 34] = [
    0x54, 0x4c, 0x53, 0x20, 0x31, 0x2e, 0x33, 0x2c, 0x20,
    0x63, 0x6c, 0x69, 0x65, 0x6e, 0x74, 0x20,
    0x43, 0x65, 0x72, 0x74, 0x69, 0x66, 0x69, 0x63, 0x61, 0x74, 0x65,
    0x56, 0x65, 0x72, 0x69, 0x66, 0x79, 0x00,
];

/// `"TLS 1.3, server CertificateVerify"` and a zero octet.
pub const SERVER_VERIFY_CONTEXT: [u8; 34] = [
    0x54, 0x4c, 0x53, 0x20, 0x31, 0x2e, 0x33, 0x2c, 0x20,
    0x73, 0x65, 0x72, 0x76, 0x65, 0x72, 0x20,
    0x43, 0x65, 0x72, 0x74, 0x69, 0x66, 0x69, 0x63, 0x61, 0x74, 0x65,
    0x56, 0x65, 0x72, 0x69, 0x66, 0x79, 0x00,
];

/// The content that a TLS 1.3 CertificateVerify signature covers: 64
/// spaces, the context string with its zero octet, and the handshake hash.
pub open spec fn tls13_verify_message(handshake_hash: Seq<u8>, context: Seq<u8>) -> Seq<u8> {
    Seq::new(64, |i: int| 0x20u8) + context + handshake_hash
}

/// Builds the content that a CertificateVerify signature covers, for the
/// given context string.
pub fn construct_tls13_verify_message(
    handshake_hash: &Digest,
    context_string_with_0: &[u8],
) -> (msg: Vec<u8>)
    ensures
        msg@ == tls13_verify_message(digest_bytes(*handshake_hash), context_string_with_0@),
{
    let mut msg: Vec<u8> = Vec::new();
    msg.resize(64, 0x20u8);
    msg.extend_from_slice(context_string_with_0);
    msg.extend_from_slice(digest_as_bytes(handshake_hash));
    assert(msg@ =~= tls13_verify_message(digest_bytes(*handshake_hash), context_string_with_0@));
    msg
}

/// The content that a client's CertificateVerify signature covers.
pub fn construct_tls13_client_verify_message(handshake_hash: &Digest) -> (msg: Vec<u8>)
    ensures
        msg@ == tls13_verify_message(digest_bytes(*handshake_hash), CLIENT_VERIFY_CONTEXT@),
{
    let context = CLIENT_VERIFY_CONTEXT;
    construct_tls13_verify_message(handshake_hash, context.as_slice())
}

/// The content that a server's CertificateVerify signature covers.
pub fn construct_tls13_server_verify_message(handshake_hash: &Digest) -> (msg: Vec<u8>)
    ensures
        msg@ == tls13_verify_message(digest_bytes(*handshake_hash), SERVER_VERIFY_CONTEXT@),
{
    let context = SERVER_VERIFY_CONTEXT;
    construct_tls13_verify_message(handshake_hash, context.as_slice())
}

/// The first algorithm whose verdict is final gives the verdict of the
/// trial.
pub proof fn lemma_first_final_settles(
    end_entity: Seq<u8>,
    algs: Seq<SignatureAlg>,
    message: Seq<u8>,
    signature: Seq<u8>,
    i: int,
)
    requires
        is_first_final(end_entity, algs, message, signature, i),
    ensures
        any_alg_verdict(end_entity, algs, message, signature) == signature_verdict(
            end_entity,
            algs[i],
            message,
            signature,
        ),
{
    let first = choose|k: int| is_first_final(end_entity, algs, message, signature, k);
    lemma_first_final_unique(end_entity, algs, message, signature, first, i);
}

/// In TLS 1.2 an ECDSA scheme leaves the curve open: a signature that is
/// valid under the scheme's digest on P-256 verifies, and so does one that
/// is valid on P-384 where P-256 does not fit the key.
pub proof fn lemma_tls12_ecdsa_either_curve(
    message: Seq<u8>,
    cert: Seq<u8>,
    scheme: SignatureScheme,
    sig: Seq<u8>,
)
    requires
        scheme is ECDSA_NISTP256_SHA256 || scheme is ECDSA_NISTP384_SHA384,
        end_entity_parse(cert) is Ok,
        ({
            let algs = tls12_algorithms(scheme)->0;
            ||| signature_verdict(cert, algs[0], message, sig) is Ok
            ||| (!is_final(signature_verdict(cert, algs[0], message, sig)) && signature_verdict(
                cert,
                algs[1],
                message,
                sig,
            ) is Ok)
        }),
    ensures
        tls12_algorithms(scheme) == Some(
            if scheme is ECDSA_NISTP256_SHA256 {
                seq![SignatureAlg::EcdsaP256Sha256, SignatureAlg::EcdsaP384Sha256]
            } else {
                seq![SignatureAlg::EcdsaP256Sha384, SignatureAlg::EcdsaP384Sha384]
            },
        ),
        tls12_signature_outcome(message, cert, scheme, sig) is None,
{
    let algs = tls12_algorithms(scheme)->0;
    if signature_verdict(cert, algs[0], message, sig) is Ok {
        assert(is_first_final(cert, algs, message, sig, 0));
        lemma_first_final_settles(cert, algs, message, sig, 0);
    } else {
        assert(is_first_final(cert, algs, message, sig, 1));
        lemma_first_final_settles(cert, algs, message, sig, 1);
    }
}

/// A TLS 1.2 signature that is valid under none of the algorithms of its
/// scheme fails as a signature, after all of them were tried or one of
/// them refused it for good.
pub proof fn lemma_tls12_unrelated_algorithm_fails(
    message: Seq<u8>,
    cert: Seq<u8>,
    scheme: SignatureScheme,
    sig: Seq<u8>,
)
    requires
        tls12_algorithms(scheme) is Some,
        end_entity_parse(cert) is Ok,
        forall|i: int|
            0 <= i < tls12_algorithms(scheme)->0.len() ==> signature_verdict(
                cert,
                #[trigger] tls12_algorithms(scheme)->0[i],
                message,
                sig,
            ) is Err,
    ensures
        tls12_signature_outcome(message, cert, scheme, sig) matches Some(
            Failure::WebPki(_, WebPkiOp::VerifySignature),
        ),
        (forall|i: int|
            0 <= i < tls12_algorithms(scheme)->0.len() ==> !is_final(
                signature_verdict(cert, #[trigger] tls12_algorithms(scheme)->0[i], message, sig),
            )) ==> tls12_signature_outcome(message, cert, scheme, sig) == Some(
            Failure::WebPki(
                webpki::Error::UnsupportedSignatureAlgorithmForPublicKey,
                WebPkiOp::VerifySignature,
            ),
        ),
{
    let algs = tls12_algorithms(scheme)->0;
    if exists|k: int| is_first_final(cert, algs, message, sig, k) {
        let first = choose|k: int| is_first_final(cert, algs, message, sig, k);
        assert(signature_verdict(cert, algs[first], message, sig) is Err);
    }
}

/// In TLS 1.3 nothing but the scheme's own algorithm is tried: where the
/// signature fails under it, the verification fails with that error,
/// whatever the verdict under any other algorithm would be.
pub proof fn lemma_tls13_no_fallback(
    message: Seq<u8>,
    cert: Seq<u8>,
    scheme: SignatureScheme,
    sig: Seq<u8>,
    alg: SignatureAlg,
    e: webpki::Error,
)
    requires
        tls13_algorithm(scheme) == Some(alg),
        end_entity_parse(cert) is Ok,
        signature_verdict(cert, alg, message, sig) == Err::<(), webpki::Error>(e),
    ensures
        tls13_signature_outcome(message, cert, scheme, sig) == Some(
            Failure::WebPki(e, WebPkiOp::VerifySignature),
        ),
{
}

/// The two versions differ on a key of the other curve: a signature under
/// an ECDSA scheme by a key that only the other curve fits passes in
/// TLS 1.2 and fails in TLS 1.3.
pub proof fn lemma_curve_mismatch_passes_tls12_only(
    message: Seq<u8>,
    cert: Seq<u8>,
    sig: Seq<u8>,
)
    requires
        end_entity_parse(cert) is Ok,
        signature_verdict(cert, SignatureAlg::EcdsaP256Sha256, message, sig) == Err::<
            (),
            webpki::Error,
        >(webpki::Error::UnsupportedSignatureAlgorithmForPublicKey),
        signature_verdict(cert, SignatureAlg::EcdsaP384Sha256, message, sig) is Ok,
    ensures
        tls12_signature_outcome(message, cert, SignatureScheme::ECDSA_NISTP256_SHA256, sig) is None,
        tls13_signature_outcome(message, cert, SignatureScheme::ECDSA_NISTP256_SHA256, sig) == Some(
            Failure::WebPki(
                webpki::Error::UnsupportedSignatureAlgorithmForPublicKey,
                WebPkiOp::VerifySignature,
            ),
        ),
{
    lemma_tls12_ecdsa_either_curve(message, cert, SignatureScheme::ECDSA_NISTP256_SHA256, sig);
}

/// What TLS 1.3 accepts, TLS 1.2 accepts: a signature that is valid under
/// the scheme's one algorithm, and that fits no algorithm of another kind
/// of key, passes the trial of the scheme's TLS 1.2 algorithms.
pub proof fn lemma_tls13_accepted_is_tls12_accepted(
    message: Seq<u8>,
    cert: Seq<u8>,
    scheme: SignatureScheme,
    sig: Seq<u8>,
)
    requires
        tls13_signature_outcome(message, cert, scheme, sig) is None,
        other_kinds_do_not_fit(cert, tls13_algorithm(scheme)->0, message, sig),
    ensures
        tls12_signature_outcome(message, cert, scheme, sig) is None,
{
    let algs = tls12_algorithms(scheme)->0;
    if scheme is ECDSA_NISTP384_SHA384 {
        assert(!is_final(signature_verdict(cert, algs[0], message, sig)));
        assert(is_first_final(cert, algs, message, sig, 1));
        lemma_first_final_settles(cert, algs, message, sig, 1);
    } else {
        assert(is_first_final(cert, algs, message, sig, 0));
        lemma_first_final_settles(cert, algs, message, sig, 0);
    }
}

} // verus!
