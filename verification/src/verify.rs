//! The two verification directions over a pinned key: client-presented and
//! server-presented certificates. Trust is pinned to the expected public
//! key, not to an authority: the peer's leaf certificate is reinterpreted as
//! the sole trust anchor for chain validation, so the key-equality check —
//! made first, independently of the chain walk — is the true source of
//! trust, and the chain walk proves possession of the matching private key.
use vstd::prelude::*;

use crate::error::HandshakeError;
use crate::error::PkiCode;
use crate::error::pki_error;
use crate::pki;
use crate::psk::Psk;
use crate::psk::bytes_eq;
use crate::psk::clone_bytes;

verus! {

/// The assertion that a peer certificate passed every check of one
/// verification direction. Carries no state; a failed verification
/// permanently fails that handshake attempt.
#[derive(Debug, Clone, Copy, PartialEq, Eq, Structural)]
pub struct Verified;

/// A signature algorithm of the fixed supported set.
#[derive(Debug, Clone, Copy, PartialEq, Eq, Structural)]
pub enum SigAlg {
    EcdsaP256Sha256,
    Ed25519,
}

/// The claimed identity of a server, as handed over by the transport layer:
/// either a DNS host name, or some other name form (an IP address, say),
/// which this verifier does not support.
#[derive(Debug, Clone, PartialEq, Eq)]
pub enum ClaimedIdentity {
    DnsName(String),
    Other,
}

/// The process-wide constant set of signature algorithms accepted in
/// certificate signatures; never rebound after process start.
pub open spec fn spec_supported_algorithms() -> Seq<SigAlg> {
    seq![SigAlg::EcdsaP256Sha256, SigAlg::Ed25519]
}

/// The supported-signature-algorithm set handed to every chain validation:
/// ECDSA P-256 with SHA-256, and Ed25519, nothing else.
pub fn supported_algorithms() -> (r: Vec<SigAlg>)
    ensures
        r@ == spec_supported_algorithms(),
{
    let mut v: Vec<SigAlg> = Vec::new();
    v.push(SigAlg::EcdsaP256Sha256);
    v.push(SigAlg::Ed25519);
    proof {
        assert(v@ =~= spec_supported_algorithms());
    }
    v
}

/// The end-entity certificate's public key equals the expected descriptor.
pub open spec fn key_matches(expected: Seq<u8>, end_entity: Seq<u8>) -> bool {
    pki::cert_spki(end_entity) == Some(expected)
}

/// The object identifier of ECDSA with SHA-256 (1.2.840.10045.4.3.2),
/// content bytes.
pub open spec fn spec_ecdsa_p256_sha256_oid() -> Seq<u8> {
    seq![0x2Au8, 0x86, 0x48, 0xCE, 0x3D, 0x04, 0x03, 0x02]
}

/// The object identifier of Ed25519 (1.3.101.112), content bytes.
pub open spec fn spec_ed25519_oid() -> Seq<u8> {
    seq![0x2Bu8, 0x65, 0x70]
}

/// The signature-algorithm identifier is one of the supported set.
pub open spec fn spec_sig_alg_supported(oid: Seq<u8>) -> bool {
    oid == spec_ecdsa_p256_sha256_oid() || oid == spec_ed25519_oid()
}

/// The certificate parses and carries a signature algorithm of the
/// supported set.
pub open spec fn cert_sig_alg_supported(b: Seq<u8>) -> bool {
    match pki::cert_parts(b) {
        Some(p) => spec_sig_alg_supported(p.1),
        None => false,
    }
}

/// Whether a signature-algorithm object identifier belongs to the supported
/// set.
fn sig_alg_supported(oid: &Vec<u8>) -> (r: bool)
    ensures
        r == spec_sig_alg_supported(oid@),
{
    let mut ecdsa: Vec<u8> = Vec::new();
    ecdsa.push(0x2A);
    ecdsa.push(0x86);
    ecdsa.push(0x48);
    ecdsa.push(0xCE);
    ecdsa.push(0x3D);
    ecdsa.push(0x04);
    ecdsa.push(0x03);
    ecdsa.push(0x02);
    let mut ed25519: Vec<u8> = Vec::new();
    ed25519.push(0x2B);
    ed25519.push(0x65);
    ed25519.push(0x70);
    proof {
        assert(ecdsa@ =~= spec_ecdsa_p256_sha256_oid());
        assert(ed25519@ =~= spec_ed25519_oid());
    }
    let is_ecdsa = bytes_eq(oid, &ecdsa);
    let is_ed25519 = bytes_eq(oid, &ed25519);
    is_ecdsa || is_ed25519
}

/// What [`refine_chain_error`] returns: a specific mapped error is kept; an
/// unspecific one is diagnosed over the leaf bytes.
pub open spec fn spec_refine_chain_error(b: Seq<u8>, code: PkiCode) -> HandshakeError {
    match crate::error::spec_pki_error(code) {
        HandshakeError::OtherPkiFailure(msg) => match pki::cert_parts(b) {
            Some(p) => if !spec_sig_alg_supported(p.1) {
                HandshakeError::UnsupportedSignatureAlgorithm
            } else if !pki::self_signature_ok(b) {
                HandshakeError::SignatureInvalid
            } else {
                HandshakeError::OtherPkiFailure(msg)
            },
            None => HandshakeError::OtherPkiFailure(msg),
        },
        e => e,
    }
}

/// Maps a failed chain validation to the handshake vocabulary. The external
/// validator tries the sole self-signed anchor and, when that attempt fails,
/// reports only that no issuer was found — the specific cause is not kept —
/// so an unspecific code is diagnosed here from the leaf itself: a signature
/// algorithm outside the supported set, then a self-signature that does not
/// verify under the leaf's own key; anything else keeps the validator's
/// description. A specific code (bad DER, a bad time encoding, a signature
/// or algorithm failure the validator did attribute) passes straight through
/// the error mapper.
pub fn refine_chain_error(end_entity: &[u8], code: PkiCode) -> (r: HandshakeError)
    ensures
        r == spec_refine_chain_error(end_entity@, code),
        crate::error::is_pki_mapped(r),
{
    let mapped = pki_error(code);
    match mapped {
        HandshakeError::OtherPkiFailure(msg) => {
            match pki::parse_certificate(end_entity) {
                Some((_, sig_alg)) => {
                    if !sig_alg_supported(&sig_alg) {
                        return HandshakeError::UnsupportedSignatureAlgorithm;
                    }
                    if !pki::check_self_signature(end_entity) {
                        return HandshakeError::SignatureInvalid;
                    }
                    HandshakeError::OtherPkiFailure(msg)
                },
                None => HandshakeError::OtherPkiFailure(msg),
            }
        },
        e => e,
    }
}

/// How the key-pinning step decides a verification's outcome: an end-entity
/// certificate that does not parse is a decode failure, and one whose public
/// key differs from the expected descriptor is a key mismatch carrying the
/// observed and the expected key.
pub open spec fn key_check_decides<T>(
    expected: Seq<u8>,
    end_entity: Seq<u8>,
    r: Result<T, HandshakeError>,
) -> bool {
    match pki::cert_spki(end_entity) {
        Option::None => r == Result::<T, HandshakeError>::Err(HandshakeError::DecodeError),
        Option::Some(k) => k == expected || (r matches Err(HandshakeError::KeyMismatch {
            observed,
            expected: exp,
        }) && observed@ == k && exp@ == expected),
    }
}

/// A key-mismatch failure is reported only when the certificate parsed and
/// its key really differed, and it carries exactly the observed and the
/// expected key.
pub open spec fn key_mismatch_exact<T>(
    expected: Seq<u8>,
    end_entity: Seq<u8>,
    r: Result<T, HandshakeError>,
) -> bool {
    r matches Err(HandshakeError::KeyMismatch { observed, expected: exp }) ==> {
        &&& pki::cert_spki(end_entity) == Some(observed@)
        &&& observed@ != expected
        &&& exp@ == expected
    }
}

/// The claimed identity is a DNS name of valid syntax.
pub open spec fn claimed_dns_ok(name: ClaimedIdentity) -> bool {
    match name {
        ClaimedIdentity::DnsName(s) => pki::dns_name_ok(s@),
        ClaimedIdentity::Other => false,
    }
}

/// The claimed identity is a DNS name of valid syntax to which the
/// certificate binds.
pub open spec fn name_accepts(leaf: Seq<u8>, name: ClaimedIdentity) -> bool {
    match name {
        ClaimedIdentity::DnsName(s) => pki::dns_name_ok(s@) && pki::dns_binding_ok(leaf, s@),
        ClaimedIdentity::Other => false,
    }
}

/// What the external chain validator needs: the end-entity certificate
/// handle, the intermediate chain as byte slices, and the one-element
/// trust-anchor list.
pub type CertChainAndRoots<'a> = (
    webpki::EndEntityCert<'a>,
    Vec<&'a [u8]>,
    Vec<webpki::TrustAnchor<'a>>,
);

/// Assembles the inputs for chain validation under the self-signed policy:
/// the leaf parsed as an end-entity certificate, the intermediates as raw
/// byte slices in their given order, and the *same* leaf bytes
/// reinterpreted as the sole trust anchor. Standard PKI validation wants a
/// root distinct from the leaf; here trust is pinned to the leaf's key, so
/// the leaf is promoted to root, and the actual trust decision is the
/// key-equality check made independently of the chain walk. Fails exactly
/// when the validator rejects either reinterpretation of the leaf bytes.
///
/// This builder serves callers that drive the external validator's handles
/// themselves. The verification entry points below let the trusted chain
/// call rebuild the same handles from the bytes — the validator documents
/// the rebuild as cheap and deterministic — so that their contracts can
/// state the outcome as a function of the bytes and the time.
pub fn prepare_for_self_signed<'a>(
    end_entity: &'a [u8],
    intermediates: &'a Vec<Vec<u8>>,
) -> (r: Result<CertChainAndRoots<'a>, HandshakeError>)
    ensures
        r is Ok <==> pki::end_entity_ok(end_entity@) && pki::trust_anchor_ok(end_entity@),
        r matches Ok(t) ==> {
            &&& t.1@.len() == intermediates@.len()
            &&& (forall|j: int| 0 <= j < t.1@.len() ==> t.1@[j]@ == intermediates@[j]@)
            &&& t.2@.len() == 1
        },
        r matches Err(e) ==> crate::error::is_pki_mapped(e),
{
    let cert = match pki::build_end_entity(end_entity) {
        Ok(c) => c,
        Err(e) => {
            return Err(pki_error(pki::classify_pki_error(e)));
        },
    };
    let mut chain: Vec<&'a [u8]> = Vec::new();
    let mut i: usize = 0;
    while i < intermediates.len()
        invariant
            i <= intermediates@.len(),
            chain@.len() == i,
            forall|j: int| 0 <= j < i ==> chain@[j]@ == intermediates@[j]@,
        decreases intermediates@.len() - i,
    {
        chain.push(intermediates[i].as_slice());
        i = i + 1;
    }
    let root = match pki::build_trust_anchor(end_entity) {
        Ok(a) => a,
        Err(e) => {
            return Err(pki_error(pki::classify_pki_error(e)));
        },
    };
    let mut anchors: Vec<webpki::TrustAnchor<'a>> = Vec::new();
    anchors.push(root);
    Ok((cert, chain, anchors))
}

impl Psk {
    /// Client authentication is always offered.
    pub fn offer_client_auth(&self) -> (r: bool)
        ensures
            r == true,
    {
        true
    }

    /// Client authentication is always mandatory, never optional.
    pub fn client_auth_mandatory(&self) -> (r: Option<bool>)
        ensures
            r == Some(true),
    {
        Some(true)
    }

    /// No acceptable subject names are advertised before the certificate is
    /// seen: the constraint is on the key, discoverable only after receipt.
    pub fn client_auth_root_subjects(&self) -> (r: Option<Vec<Vec<u8>>>)
        ensures
            r is None,
    {
        None
    }

    /// Extracts the end-entity certificate's public key and compares it to
    /// the expected descriptor; the common first step of both directions.
    fn check_expected_key(&self, end_entity: &[u8]) -> (r: Result<(), HandshakeError>)
        ensures
            r is Ok <==> key_matches(self@, end_entity@),
            key_check_decides(self@, end_entity@, r),
            key_mismatch_exact(self@, end_entity@, r),
    {
        let observed = match pki::parse_certificate(end_entity) {
            Some((spki, _)) => spki,
            None => {
                return Err(HandshakeError::DecodeError);
            },
        };
        if !bytes_eq(&observed, self.raw_ref()) {
            let expected = clone_bytes(self.raw_ref());
            return Err(HandshakeError::KeyMismatch { observed, expected });
        }
        Ok(())
    }

    /// Runs the chain-validation step of the client direction: full path
    /// and signature validation for the TLS-client usage, the leaf
    /// reinterpreted as the sole self-signed trust anchor, restricted to
    /// the supported algorithm set, at the given time. Assumes nothing of
    /// the key check; callers run it first.
    fn client_chain_step(
        &self,
        end_entity: &[u8],
        intermediates: &Vec<Vec<u8>>,
        now_secs: u64,
    ) -> (r: Result<Verified, HandshakeError>)
        ensures
            r is Ok <==> pki::chain_valid_client(
                end_entity@,
                pki::bytes_views(intermediates@),
                now_secs,
            ),
            r matches Err(e) ==> crate::error::is_pki_mapped(e),
    {
        let algs = supported_algorithms();
        match pki::verify_chain_client(end_entity, &algs, intermediates, now_secs) {
            Ok(_) => Ok(Verified),
            Err(e) => Err(refine_chain_error(end_entity, pki::classify_pki_error(e))),
        }
    }

    /// Runs the chain-validation, name-form and name-binding steps of the
    /// server direction, in that order: chain validation for the TLS-server
    /// usage as in the client direction, then the claimed identity must be
    /// a syntactically valid DNS name, then the certificate must bind to
    /// it. Assumes nothing of the key check; callers run it first.
    fn server_chain_and_name_step(
        &self,
        end_entity: &[u8],
        intermediates: &Vec<Vec<u8>>,
        name: &ClaimedIdentity,
        now_secs: u64,
    ) -> (r: Result<Verified, HandshakeError>)
        ensures
            r is Ok <==> pki::chain_valid_server(
                end_entity@,
                pki::bytes_views(intermediates@),
                now_secs,
            ) && name_accepts(end_entity@, *name),
            r == Err::<Verified, HandshakeError>(HandshakeError::UnsupportedNameType) <==> (
            pki::chain_valid_server(end_entity@, pki::bytes_views(intermediates@), now_secs)
                && !claimed_dns_ok(*name)),
            r matches Err(e) ==> crate::error::is_pki_mapped(e) || e
                == HandshakeError::UnsupportedNameType,
    {
        let algs = supported_algorithms();
        if let Err(e) = pki::verify_chain_server(end_entity, &algs, intermediates, now_secs) {
            return Err(refine_chain_error(end_entity, pki::classify_pki_error(e)));
        }
        let host = match name {
            ClaimedIdentity::DnsName(s) => s,
            ClaimedIdentity::Other => {
                return Err(HandshakeError::UnsupportedNameType);
            },
        };
        if !pki::dns_name_is_valid(host.as_str()) {
            return Err(HandshakeError::UnsupportedNameType);
        }
        match pki::verify_dns_binding(end_entity, host.as_str()) {
            Ok(_) => Ok(Verified),
            Err(e) => Err(pki_error(pki::classify_pki_error(e))),
        }
    }

    /// Validates a client's certificate against a time already converted to
    /// seconds since the UNIX epoch, in order, short-circuiting on the
    /// first failure: parse the end-entity certificate and compare its
    /// public key to the expected descriptor, then delegate chain
    /// validation to the external validator. No name is checked in this
    /// direction. Succeeds exactly when the key matches and the validator
    /// accepts the self-signed chain at that time.
    pub fn verify_client_cert_at(
        &self,
        end_entity: &[u8],
        intermediates: &Vec<Vec<u8>>,
        now_secs: u64,
    ) -> (r: Result<Verified, HandshakeError>)
        ensures
            key_check_decides(self@, end_entity@, r),
            key_mismatch_exact(self@, end_entity@, r),
            r is Ok <==> key_matches(self@, end_entity@) && pki::chain_valid_client(
                end_entity@,
                pki::bytes_views(intermediates@),
                now_secs,
            ),
            r != Err::<Verified, HandshakeError>(HandshakeError::ClockError),
    {
        if let Err(e) = self.check_expected_key(end_entity) {
            return Err(e);
        }
        self.client_chain_step(end_entity, intermediates, now_secs)
    }

    /// Validates a client's certificate during a mutually authenticated
    /// handshake: the expected-key check first, then conversion of the
    /// supplied wall-clock time to seconds since the UNIX epoch — failure
    /// there is a clock error, distinct from any certificate failure —
    /// then the chain validation of [`Psk::verify_client_cert_at`], which
    /// carries the exact contract over the converted time.
    pub fn verify_client_cert(
        &self,
        end_entity: &[u8],
        intermediates: &Vec<Vec<u8>>,
        now: std::time::SystemTime,
    ) -> (r: Result<Verified, HandshakeError>)
        ensures
            key_check_decides(self@, end_entity@, r),
            key_mismatch_exact(self@, end_entity@, r),
            r is Ok ==> key_matches(self@, end_entity@) && (exists|secs: u64|
            pki::chain_valid_client(end_entity@, pki::bytes_views(intermediates@), secs)),
            r == Err::<Verified, HandshakeError>(HandshakeError::ClockError) ==> key_matches(
                self@,
                end_entity@,
            ),
    {
        if let Err(e) = self.check_expected_key(end_entity) {
            return Err(e);
        }
        let secs = match pki::duration_since_epoch(now) {
            Some(d) => pki::duration_as_secs(d),
            None => {
                return Err(HandshakeError::ClockError);
            },
        };
        self.client_chain_step(end_entity, intermediates, secs)
    }

    /// Validates a server's certificate and its host-name binding against a
    /// time already converted to seconds since the UNIX epoch: the
    /// expected-key check, chain validation for the TLS-server usage, the
    /// claimed identity's DNS form and syntax, and the certificate's
    /// binding to that name, in that order. Succeeds exactly when the key
    /// matches, the validator accepts the self-signed chain at that time,
    /// and the claimed identity is a valid DNS name the certificate binds
    /// to; the name-form error arises exactly when everything before the
    /// name checks passed and the identity is not a valid DNS name.
    pub fn verify_server_cert_at(
        &self,
        end_entity: &[u8],
        intermediates: &Vec<Vec<u8>>,
        name: &ClaimedIdentity,
        now_secs: u64,
    ) -> (r: Result<Verified, HandshakeError>)
        ensures
            key_check_decides(self@, end_entity@, r),
            key_mismatch_exact(self@, end_entity@, r),
            r is Ok <==> key_matches(self@, end_entity@) && pki::chain_valid_server(
                end_entity@,
                pki::bytes_views(intermediates@),
                now_secs,
            ) && name_accepts(end_entity@, *name),
            r == Err::<Verified, HandshakeError>(HandshakeError::UnsupportedNameType) <==> (
            key_matches(self@, end_entity@) && pki::chain_valid_server(
                end_entity@,
                pki::bytes_views(intermediates@),
                now_secs,
            ) && !claimed_dns_ok(*name)),
            r != Err::<Verified, HandshakeError>(HandshakeError::ClockError),
    {
        if let Err(e) = self.check_expected_key(end_entity) {
            return Err(e);
        }
        self.server_chain_and_name_step(end_entity, intermediates, name, now_secs)
    }

    /// Validates a server's certificate and its host-name binding: the
    /// expected-key check first, then the wall-clock conversion — failure
    /// there is a clock error — then the chain, name-form and name-binding
    /// steps of [`Psk::verify_server_cert_at`], which carries the exact
    /// contract over the converted time. Signed-certificate timestamps and
    /// the OCSP response are accepted but deliberately not
    /// cryptographically validated — a known trust-model simplification of
    /// this design; their content never decides acceptance, as the exact
    /// contract shows: they appear in no clause.
    pub fn verify_server_cert(
        &self,
        end_entity: &[u8],
        intermediates: &Vec<Vec<u8>>,
        name: &ClaimedIdentity,
        _scts: &Vec<Vec<u8>>,
        _ocsp_response: &Vec<u8>,
        now: std::time::SystemTime,
    ) -> (r: Result<Verified, HandshakeError>)
        ensures
            key_check_decides(self@, end_entity@, r),
            key_mismatch_exact(self@, end_entity@, r),
            r is Ok ==> key_matches(self@, end_entity@) && name_accepts(end_entity@, *name)
                && (exists|secs: u64|
            pki::chain_valid_server(end_entity@, pki::bytes_views(intermediates@), secs)),
            r == Err::<Verified, HandshakeError>(HandshakeError::UnsupportedNameType)
                ==> key_matches(self@, end_entity@) && !claimed_dns_ok(*name),
            r == Err::<Verified, HandshakeError>(HandshakeError::ClockError) ==> key_matches(
                self@,
                end_entity@,
            ),
    {
        if let Err(e) = self.check_expected_key(end_entity) {
            return Err(e);
        }
        let secs = match pki::duration_since_epoch(now) {
            Some(d) => pki::duration_as_secs(d),
            None => {
                return Err(HandshakeError::ClockError);
            },
        };
        self.server_chain_and_name_step(end_entity, intermediates, name, secs)
    }
}

} // verus!
