//! The errors of a verification.

use vstd::prelude::*;

verus! {

/// `webpki::Error`, with its variants open to the verifier.
#[verifier::external_type_specification]
pub struct ExWebPkiError(webpki::Error);

/// `sct::Error`, with its variants open to the verifier.
#[verifier::external_type_specification]
pub struct ExSctError(sct::Error);

/// The step of certificate processing at which the certificate library
/// reported an error.
#[derive(Clone, Copy, Debug, PartialEq, Eq, Structural)]
pub enum WebPkiOp {
    ValidateServerCert,
    ValidateClientCert,
    ValidateForDnsName,
    ParseEndEntity,
    VerifySignature,
}

/// Why a verification failed. Each of them ends the handshake.
#[derive(Debug, PartialEq)]
pub enum TlsError {
    /// The certificate library refused a certificate, a name or a
    /// signature, at the given step.
    WebPkiError(webpki::Error, WebPkiOp),
    /// A Signed Certificate Timestamp was refused.
    InvalidSct(sct::Error),
    /// The peer broke the protocol; the text says how.
    PeerMisbehavedError(String),
    /// The time given lies before the Unix epoch, or too far after it to
    /// count in milliseconds.
    FailedToGetCurrentTime,
}

/// A [`TlsError`] as a plain value: the text of a message stands for the
/// string that holds it.
pub enum Failure {
    WebPki(webpki::Error, WebPkiOp),
    InvalidSct(sct::Error),
    PeerMisbehaved(Seq<char>),
    FailedToGetCurrentTime,
}

impl TlsError {
    /// Which failure an error reports.
    pub open spec fn failure(self) -> Failure {
        match self {
            TlsError::WebPkiError(e, op) => Failure::WebPki(e, op),
            TlsError::InvalidSct(e) => Failure::InvalidSct(e),
            TlsError::PeerMisbehavedError(text) => Failure::PeerMisbehaved(text@),
            TlsError::FailedToGetCurrentTime => Failure::FailedToGetCurrentTime,
        }
    }
}

/// How a result relates to the outcome that a contract names: success
/// where the outcome names no failure, else an error that reports the
/// failure named.
pub open spec fn reports<T>(result: Result<T, TlsError>, outcome: Option<Failure>) -> bool {
    match outcome {
        None => result is Ok,
        Some(failure) => result matches Err(e) && e.failure() == failure,
    }
}

} // verus!
