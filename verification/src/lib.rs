//! Certificate-chain, handshake-signature and Certificate Transparency
//! verification for TLS.
//!
//! Every function here is verified; what `webpki`, `sct`, `ring` and the
//! system clock compute is taken on trust through the few items that each
//! module documents as such.

pub mod anchors;
pub mod client;
pub mod ct;
pub mod enums;
pub mod error;
pub mod key;
pub mod name;
pub mod pki;
pub mod signature;
pub mod time;
pub mod verify;
pub mod x509;
