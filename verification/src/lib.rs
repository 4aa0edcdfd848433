//! A public-key-pinned certificate verifier for mutually authenticated TLS.
//!
//! Instead of trusting a certificate-authority hierarchy, the verifier trusts
//! exactly one expected public key and treats the peer's presented
//! certificate as its own trust anchor. For each handshake it answers one
//! question: does the peer hold the private key matching a pre-shared public
//! key, and can it prove that cryptographically (and, for server-direction
//! checks, for the claimed host name)?

pub mod error;
pub mod pki;
pub mod psk;
pub mod verify;

pub use error::HandshakeError;
pub use error::PkiCode;
pub use error::pki_error;
pub use psk::Psk;
pub use verify::ClaimedIdentity;
pub use verify::SigAlg;
pub use verify::Verified;
