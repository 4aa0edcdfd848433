//! The narrow, trusted boundary to the external PKI collaborators: the X.509
//! DER parser (`x509_parser`) and the chain validator (`webpki`). Every item
//! here either declares an external type opaquely or wraps one external
//! call (together with the calls that build its arguments from plain bytes);
//! the rest of the crate is verified against these contracts.
use vstd::prelude::*;

use crate::error::PkiCode;
use crate::verify::SigAlg;
use crate::verify::spec_supported_algorithms;
use x509_parser::prelude::FromDer;

verus! {

// ------------------------------------------------------------------
// Names for what the external calls return. Each is a pure function of the
// plain values it takes: the parsers and the validator read nothing else,
// and rebuilding a validator handle from the same bytes is deterministic
// (the validator's own documentation says so and recommends it).
// ------------------------------------------------------------------

/// What `x509_parser`'s `SubjectPublicKeyInfo::from_der` does on these
/// bytes: `Some(n)` when a SubjectPublicKeyInfo structure is parsed from the
/// front of the input, where `n` is the length of the structure's `raw`
/// encoding as the parser reports it (trailing bytes are ignored, and bytes
/// that the outer SEQUENCE declares but the two fields do not cover are not
/// part of `raw`); `None` when the input does not start with such a
/// structure.
pub uninterp spec fn spki_parse_len(b: Seq<u8>) -> Option<int>;

/// What `x509_parser`'s `X509Certificate::from_der` exposes of the parsed
/// certificate: `Some` of the raw DER bytes of its subject-public-key-info
/// field and the content bytes of its signature-algorithm object identifier,
/// when the input parses as an X.509 certificate; `None` otherwise.
pub uninterp spec fn cert_parts(b: Seq<u8>) -> Option<(Seq<u8>, Seq<u8>)>;

/// The parsed certificate's subject-public-key-info field, raw DER bytes.
pub open spec fn cert_spki(b: Seq<u8>) -> Option<Seq<u8>> {
    match cert_parts(b) {
        Some(p) => Some(p.0),
        None => None,
    }
}

/// Whether `x509_parser`'s `X509Certificate::verify_signature`, given the
/// certificate's own public key (the self-signed reading), accepts the
/// certificate's signature.
pub uninterp spec fn self_signature_ok(b: Seq<u8>) -> bool;

/// Whether `webpki::EndEntityCert::try_from` accepts these bytes as a
/// DER-encoded end-entity certificate.
pub uninterp spec fn end_entity_ok(b: Seq<u8>) -> bool;

/// Whether `webpki::TrustAnchor::try_from_cert_der` accepts these bytes as a
/// certificate reinterpretable as a trust anchor.
pub uninterp spec fn trust_anchor_ok(b: Seq<u8>) -> bool;

/// Whether `webpki::DnsNameRef::try_from_ascii_str` accepts this string as a
/// syntactically valid DNS host name.
pub uninterp spec fn dns_name_ok(s: Seq<char>) -> bool;

/// What `webpki`'s chain validation for the TLS-client usage decides, as a
/// function of the leaf bytes, the intermediate chain's bytes and the time
/// in seconds since the UNIX epoch, with the library's supported-algorithm
/// set: true exactly when the leaf builds as an end-entity certificate and
/// as a trust anchor and `verify_is_valid_tls_client_cert` accepts the
/// chain under that sole self-signed anchor at that time.
pub uninterp spec fn chain_valid_client(leaf: Seq<u8>, intermediates: Seq<Seq<u8>>, secs: u64) -> bool;

/// As [`chain_valid_client`], for the TLS-server usage
/// (`verify_is_valid_tls_server_cert`).
pub uninterp spec fn chain_valid_server(leaf: Seq<u8>, intermediates: Seq<Seq<u8>>, secs: u64) -> bool;

/// What `webpki`'s `verify_is_valid_for_dns_name` decides, as a function of
/// the leaf bytes and the claimed name: true exactly when the leaf builds as
/// an end-entity certificate, the name is a syntactically valid DNS name,
/// and the certificate is valid for it.
pub uninterp spec fn dns_binding_ok(leaf: Seq<u8>, name: Seq<char>) -> bool;

/// The byte contents of a sequence of byte vectors.
pub open spec fn bytes_views(s: Seq<Vec<u8>>) -> Seq<Seq<u8>> {
    s.map_values(|v: Vec<u8>| v@)
}

// ------------------------------------------------------------------
// External types, held opaquely.
// ------------------------------------------------------------------

/// `std::time::SystemTime`, carried through from the caller to the epoch
/// conversion; nothing inside it is read by verified code.
#[verifier::external_type_specification]
#[verifier::external_body]
pub struct ExSystemTime(std::time::SystemTime);

/// `webpki::Error`, the validator's error code; classified by
/// [`classify_pki_error`], never inspected elsewhere.
#[verifier::external_type_specification]
#[verifier::external_body]
pub struct ExWebpkiError(webpki::Error);

/// `webpki::EndEntityCert`, the validator's handle to a parsed leaf
/// certificate.
#[verifier::external_type_specification]
#[verifier::external_body]
pub struct ExEndEntityCert<'a>(webpki::EndEntityCert<'a>);

/// `webpki::TrustAnchor`, a root of trust for chain validation.
#[verifier::external_type_specification]
#[verifier::external_body]
pub struct ExTrustAnchor<'a>(webpki::TrustAnchor<'a>);

// ------------------------------------------------------------------
// Wrappers.
// ------------------------------------------------------------------

/// Relies on `x509_parser`'s `SubjectPublicKeyInfo::from_der`: it parses a
/// SubjectPublicKeyInfo structure from the front of the input, ignoring
/// trailing bytes, and the structure's `raw` field is the prefix running
/// from the start of the input to the end of the two parsed fields. The
/// parser is lenient: bytes that the outer SEQUENCE's declared length
/// covers but the two fields do not are skipped and are not part of `raw`,
/// so nothing is claimed here about re-parsing the prefix.
#[verifier::external_body]
pub(crate) fn parse_spki_prefix(b: &[u8]) -> (r: Option<Vec<u8>>)
    ensures
        r is Some <==> spki_parse_len(b@) is Some,
        r matches Some(raw) ==> {
            &&& spki_parse_len(b@) == Some(raw@.len() as int)
            &&& raw@ == b@.take(raw@.len() as int)
        },
{
    match x509_parser::x509::SubjectPublicKeyInfo::from_der(b) {
        Ok((_, spki)) => Some(spki.raw.to_vec()),
        Err(_) => None,
    }
}

/// Relies on `x509_parser`'s `X509Certificate::from_der`, the parsed
/// certificate's `public_key` accessor (whose `raw` field holds the raw DER
/// bytes of the subject-public-key-info field) and its public
/// `signature_algorithm` field (whose object identifier's `as_bytes` yields
/// the identifier's content bytes).
#[verifier::external_body]
pub(crate) fn parse_certificate(der: &[u8]) -> (r: Option<(Vec<u8>, Vec<u8>)>)
    ensures
        r is Some <==> cert_parts(der@) is Some,
        r matches Some(p) ==> cert_parts(der@) == Some((p.0@, p.1@)),
{
    match x509_parser::certificate::X509Certificate::from_der(der) {
        Ok((_, cert)) => Some((
            cert.public_key().raw.to_vec(),
            cert.signature_algorithm.algorithm.as_bytes().to_vec(),
        )),
        Err(_) => None,
    }
}

/// Relies on `x509_parser`'s `X509Certificate::from_der` and
/// `X509Certificate::verify_signature` with no key given, which checks the
/// certificate's signature against the certificate's own public key — the
/// self-signed reading that this verifier's trust model is built on.
#[verifier::external_body]
pub(crate) fn check_self_signature(der: &[u8]) -> (r: bool)
    ensures
        r == self_signature_ok(der@),
{
    match x509_parser::certificate::X509Certificate::from_der(der) {
        Ok((_, cert)) => cert.verify_signature(None).is_ok(),
        Err(_) => false,
    }
}

/// Relies on `webpki::EndEntityCert::try_from`: parses the DER bytes of a
/// leaf certificate into the validator's handle.
#[verifier::external_body]
pub(crate) fn build_end_entity<'a>(der: &'a [u8]) -> (r: Result<
    webpki::EndEntityCert<'a>,
    webpki::Error,
>)
    ensures
        r is Ok <==> end_entity_ok(der@),
{
    webpki::EndEntityCert::try_from(der)
}

/// Relies on `webpki::TrustAnchor::try_from_cert_der`: reinterprets the DER
/// bytes of a certificate as a trust anchor.
#[verifier::external_body]
pub(crate) fn build_trust_anchor<'a>(der: &'a [u8]) -> (r: Result<
    webpki::TrustAnchor<'a>,
    webpki::Error,
>)
    ensures
        r is Ok <==> trust_anchor_ok(der@),
{
    webpki::TrustAnchor::try_from_cert_der(der)
}

/// Relies on std's `SystemTime::duration_since`, measured from
/// `UNIX_EPOCH`; it fails exactly for times before the epoch and cannot
/// panic. The outcome depends on the opaque time value, so nothing
/// conditional is promised of it.
#[verifier::external_body]
pub(crate) fn duration_since_epoch(t: std::time::SystemTime) -> (r: Option<core::time::Duration>) {
    t.duration_since(std::time::UNIX_EPOCH).ok()
}

/// Relies on core's `Duration::as_secs`: the whole seconds of the duration.
/// The duration is opaque here, so nothing is promised of the value.
#[verifier::external_body]
pub(crate) fn duration_as_secs(d: core::time::Duration) -> (r: u64) {
    d.as_secs()
}

/// Relies on `webpki::DnsNameRef::try_from_ascii_str`: accepts exactly the
/// syntactically valid DNS host names.
#[verifier::external_body]
pub(crate) fn dns_name_is_valid(s: &str) -> (r: bool)
    ensures
        r == dns_name_ok(s@),
{
    webpki::DnsNameRef::try_from_ascii_str(s).is_ok()
}

/// Relies on `webpki::Error`'s variants and its `Display` rendering: tells
/// the variants the error mapper distinguishes apart, and keeps every other
/// code's description.
#[verifier::external_body]
pub(crate) fn classify_pki_error(e: webpki::Error) -> (code: PkiCode) {
    match e {
        webpki::Error::BadDer => PkiCode::BadDer,
        webpki::Error::BadDerTime => PkiCode::BadDerTime,
        webpki::Error::InvalidSignatureForPublicKey => PkiCode::InvalidSignatureForPublicKey,
        webpki::Error::UnsupportedSignatureAlgorithm => PkiCode::UnsupportedSignatureAlgorithm,
        webpki::Error::UnsupportedSignatureAlgorithmForPublicKey => {
            PkiCode::UnsupportedSignatureAlgorithmForPublicKey
        },
        other => PkiCode::Other(format!("{}", other)),
    }
}

/// Relies on `webpki::EndEntityCert::verify_is_valid_tls_client_cert`: full
/// path and signature validation for the TLS-client usage, with its inputs
/// built from the given plain values — `EndEntityCert::try_from` on the
/// leaf, `TrustAnchor::try_from_cert_der` on the same leaf as the sole
/// self-signed anchor, and `Time::from_seconds_since_unix_epoch` on the
/// seconds. Building the handles is cheap and deterministic (the
/// validator's documentation recommends rebuilding them), so the outcome is
/// a function of the bytes and the time alone, given the fixed algorithm
/// set the `requires` pins.
#[verifier::external_body]
pub(crate) fn verify_chain_client(
    leaf: &[u8],
    sig_algs: &Vec<SigAlg>,
    intermediates: &Vec<Vec<u8>>,
    secs: u64,
) -> (r: Result<(), webpki::Error>)
    requires
        sig_algs@ == spec_supported_algorithms(),
    ensures
        r is Ok <==> chain_valid_client(leaf@, bytes_views(intermediates@), secs),
{
    let cert = webpki::EndEntityCert::try_from(leaf)?;
    let root = webpki::TrustAnchor::try_from_cert_der(leaf)?;
    let algs: Vec<&webpki::SignatureAlgorithm> = sig_algs.iter().map(|a| match a {
        SigAlg::EcdsaP256Sha256 => &webpki::ECDSA_P256_SHA256,
        SigAlg::Ed25519 => &webpki::ED25519,
    }).collect();
    let chain: Vec<&[u8]> = intermediates.iter().map(|c| c.as_slice()).collect();
    let time = webpki::Time::from_seconds_since_unix_epoch(secs);
    cert.verify_is_valid_tls_client_cert(&algs, &webpki::TlsClientTrustAnchors(&[root]), &chain, time)
}

/// Relies on `webpki::EndEntityCert::verify_is_valid_tls_server_cert`: as
/// the client-usage wrapper, for the TLS-server usage.
#[verifier::external_body]
pub(crate) fn verify_chain_server(
    leaf: &[u8],
    sig_algs: &Vec<SigAlg>,
    intermediates: &Vec<Vec<u8>>,
    secs: u64,
) -> (r: Result<(), webpki::Error>)
    requires
        sig_algs@ == spec_supported_algorithms(),
    ensures
        r is Ok <==> chain_valid_server(leaf@, bytes_views(intermediates@), secs),
{
    let cert = webpki::EndEntityCert::try_from(leaf)?;
    let root = webpki::TrustAnchor::try_from_cert_der(leaf)?;
    let algs: Vec<&webpki::SignatureAlgorithm> = sig_algs.iter().map(|a| match a {
        SigAlg::EcdsaP256Sha256 => &webpki::ECDSA_P256_SHA256,
        SigAlg::Ed25519 => &webpki::ED25519,
    }).collect();
    let chain: Vec<&[u8]> = intermediates.iter().map(|c| c.as_slice()).collect();
    let time = webpki::Time::from_seconds_since_unix_epoch(secs);
    cert.verify_is_valid_tls_server_cert(&algs, &webpki::TlsServerTrustAnchors(&[root]), &chain, time)
}

/// Relies on `webpki::EndEntityCert::verify_is_valid_for_dns_name`, with
/// its inputs built from the given plain values — `EndEntityCert::try_from`
/// on the leaf and `DnsNameRef::try_from_ascii_str` on the name — so the
/// outcome is a function of the bytes and the name alone. A name that fails
/// DNS syntax cannot bind, reported as the validator's name failure.
#[verifier::external_body]
pub(crate) fn verify_dns_binding(leaf: &[u8], name: &str) -> (r: Result<(), webpki::Error>)
    ensures
        r is Ok <==> dns_binding_ok(leaf@, name@),
{
    let cert = webpki::EndEntityCert::try_from(leaf)?;
    let dns = match webpki::DnsNameRef::try_from_ascii_str(name) {
        Ok(d) => d,
        Err(_) => return Err(webpki::Error::CertNotValidForName),
    };
    cert.verify_is_valid_for_dns_name(dns)
}

} // verus!
