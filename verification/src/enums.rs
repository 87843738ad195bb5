//! Identifiers negotiated in the handshake, and the signature algorithms
//! that they resolve to.

use vstd::prelude::*;

verus! {

/// A signature scheme as the handshake names it.
///
/// A scheme is a name on the wire, not an algorithm: before a signature can
/// be checked it is resolved to one or more [`SignatureAlg`]s, and the
/// two protocol versions resolve it differently.
#[allow(non_camel_case_types)]
#[derive(Clone, Copy, Debug, PartialEq, Eq, Structural)]
pub enum SignatureScheme {
    RSA_PKCS1_SHA1,
    ECDSA_SHA1_Legacy,
    RSA_PKCS1_SHA256,
    ECDSA_NISTP256_SHA256,
    RSA_PKCS1_SHA384,
    ECDSA_NISTP384_SHA384,
    RSA_PKCS1_SHA512,
    ECDSA_NISTP521_SHA512,
    RSA_PSS_SHA256,
    RSA_PSS_SHA384,
    RSA_PSS_SHA512,
    ED25519,
    ED448,
    Unknown(u16),
}

/// A concrete signature algorithm: a public-key algorithm with its curve or
/// key sizes, and a digest.
#[derive(Clone, Copy, Debug, PartialEq, Eq, Structural)]
pub enum SignatureAlg {
    /// ECDSA on P-256 with SHA-256.
    EcdsaP256Sha256,
    /// ECDSA on P-256 with SHA-384.
    EcdsaP256Sha384,
    /// ECDSA on P-384 with SHA-256.
    EcdsaP384Sha256,
    /// ECDSA on P-384 with SHA-384.
    EcdsaP384Sha384,
    /// Ed25519.
    Ed25519,
    /// RSA-PSS with SHA-256, keys of 2048 to 8192 bits, on an `rsaEncryption` key.
    RsaPssSha256,
    /// RSA-PSS with SHA-384, keys of 2048 to 8192 bits, on an `rsaEncryption` key.
    RsaPssSha384,
    /// RSA-PSS with SHA-512, keys of 2048 to 8192 bits, on an `rsaEncryption` key.
    RsaPssSha512,
    /// RSA PKCS#1 v1.5 with SHA-256, keys of 2048 to 8192 bits.
    RsaPkcs1Sha256,
    /// RSA PKCS#1 v1.5 with SHA-384, keys of 2048 to 8192 bits.
    RsaPkcs1Sha384,
    /// RSA PKCS#1 v1.5 with SHA-512, keys of 2048 to 8192 bits.
    RsaPkcs1Sha512,
    /// RSA PKCS#1 v1.5 with SHA-384, keys of 3072 to 8192 bits.
    RsaPkcs1Sha384Min3072,
}

/// A signature with the scheme that the peer says it made it under.
#[derive(Clone, Debug, PartialEq, Eq)]
pub struct DigitallySignedStruct {
    pub scheme: SignatureScheme,
    pub sig: Vec<u8>,
}

impl DigitallySignedStruct {
    /// Pairs a scheme with signature bytes.
    pub fn new(scheme: SignatureScheme, sig: Vec<u8>) -> (dss: DigitallySignedStruct)
        ensures
            dss.scheme == scheme,
            dss.sig@ == sig@,
    {
        DigitallySignedStruct { scheme, sig }
    }
}

} // verus!
