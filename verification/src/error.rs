//! The error vocabulary of the verifier, and the mapper from low-level PKI
//! failure codes into that vocabulary.
use vstd::prelude::*;

verus! {

/// A terminal verification failure. Every failed handshake check surfaces
/// exactly one of these; none is retried or downgraded internally.
#[derive(Debug, Clone, PartialEq, Eq)]
pub enum HandshakeError {
    /// Malformed ASN.1/DER input anywhere: descriptor, certificate, or time.
    DecodeError,
    /// The peer certificate parses fine but its public key does not equal the
    /// expected key. Carries both keys (raw SubjectPublicKeyInfo bytes) for
    /// diagnostics.
    KeyMismatch { observed: Vec<u8>, expected: Vec<u8> },
    /// A cryptographic signature check failed.
    SignatureInvalid,
    /// A signature algorithm outside the fixed supported set was encountered.
    UnsupportedSignatureAlgorithm,
    /// The claimed server identity is not a DNS name, or fails DNS syntax.
    UnsupportedNameType,
    /// The supplied current time could not be converted to the PKI
    /// validator's internal time representation.
    ClockError,
    /// Any other chain-validation rejection, carrying the underlying cause.
    OtherPkiFailure(String),
}

/// A low-level PKI failure code, as classified out of the external chain
/// validator's error type. This is the input vocabulary of [`pki_error`].
#[derive(Debug, Clone, PartialEq, Eq)]
pub enum PkiCode {
    BadDer,
    BadDerTime,
    InvalidSignatureForPublicKey,
    UnsupportedSignatureAlgorithm,
    UnsupportedSignatureAlgorithmForPublicKey,
    /// Any other code, carrying its rendered description.
    Other(String),
}

/// What [`pki_error`] returns for each PKI failure code.
pub open spec fn spec_pki_error(code: PkiCode) -> HandshakeError {
    match code {
        PkiCode::BadDer => HandshakeError::DecodeError,
        PkiCode::BadDerTime => HandshakeError::DecodeError,
        PkiCode::InvalidSignatureForPublicKey => HandshakeError::SignatureInvalid,
        PkiCode::UnsupportedSignatureAlgorithm => HandshakeError::UnsupportedSignatureAlgorithm,
        PkiCode::UnsupportedSignatureAlgorithmForPublicKey => HandshakeError::UnsupportedSignatureAlgorithm,
        PkiCode::Other(msg) => HandshakeError::OtherPkiFailure(msg),
    }
}

/// Whether an error is one the PKI mapper can produce: chain validation
/// never reports a key mismatch, a name-form failure or a clock failure;
/// those are decided before (or outside) the chain walk.
pub open spec fn is_pki_mapped(e: HandshakeError) -> bool {
    match e {
        HandshakeError::DecodeError => true,
        HandshakeError::SignatureInvalid => true,
        HandshakeError::UnsupportedSignatureAlgorithm => true,
        HandshakeError::OtherPkiFailure(_) => true,
        HandshakeError::KeyMismatch { .. } => false,
        HandshakeError::UnsupportedNameType => false,
        HandshakeError::ClockError => false,
    }
}

/// Translates an external PKI failure code into the handshake error
/// vocabulary: malformed DER or a bad time encoding is a decode failure, a
/// cryptographically invalid signature is a signature failure, an algorithm
/// outside the supported set (for the key type, or at all) is an unsupported
/// algorithm, and everything else keeps its description as a generic PKI
/// failure.
pub fn pki_error(code: PkiCode) -> (r: HandshakeError)
    ensures
        r == spec_pki_error(code),
        is_pki_mapped(r),
{
    match code {
        PkiCode::BadDer => HandshakeError::DecodeError,
        PkiCode::BadDerTime => HandshakeError::DecodeError,
        PkiCode::InvalidSignatureForPublicKey => HandshakeError::SignatureInvalid,
        PkiCode::UnsupportedSignatureAlgorithm => HandshakeError::UnsupportedSignatureAlgorithm,
        PkiCode::UnsupportedSignatureAlgorithmForPublicKey => HandshakeError::UnsupportedSignatureAlgorithm,
        PkiCode::Other(msg) => HandshakeError::OtherPkiFailure(msg),
    }
}

} // verus!
