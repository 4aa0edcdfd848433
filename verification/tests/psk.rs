use std::time::SystemTime;

use rccheck::ClaimedIdentity;
use rccheck::HandshakeError;
use rccheck::PkiCode;
use rccheck::Psk;
use rccheck::pki_error;

/// A self-signed certificate for the given subject-alt-names, and the DER
/// bytes of its key pair's SubjectPublicKeyInfo.
fn make_cert(alg: &'static rcgen::SignatureAlgorithm, names: &[&str]) -> (Vec<u8>, Vec<u8>) {
    let mut params = rcgen::CertificateParams::new(
        names.iter().map(|s| s.to_string()).collect::<Vec<String>>(),
    );
    params.alg = alg;
    let cert = rcgen::Certificate::from_params(params).expect("certificate generation");
    let der = cert.serialize_der().expect("certificate serialization");
    let spki = cert.get_key_pair().public_key_der();
    (der, spki)
}

fn ed25519_cert(names: &[&str]) -> (Vec<u8>, Vec<u8>) {
    make_cert(&rcgen::PKCS_ED25519, names)
}

#[test]
fn descriptor_roundtrip_exact() {
    let (_, spki) = ed25519_cert(&["node.example"]);
    let psk = Psk::deserialize(&spki).expect("valid SubjectPublicKeyInfo");
    assert_eq!(psk.serialize(), spki);
    let again = Psk::deserialize(&psk.serialize()).expect("roundtrip decode");
    assert!(again == psk);
}

#[test]
fn descriptor_roundtrip_ignores_trailing_bytes() {
    let (_, spki) = ed25519_cert(&["node.example"]);
    let mut padded = spki.clone();
    padded.extend_from_slice(&[0xAB, 0xCD]);
    let psk = Psk::deserialize(&padded).expect("trailing bytes are ignored");
    assert_eq!(psk.serialize(), spki);
}

#[test]
fn descriptor_rejects_malformed_der() {
    let r = Psk::deserialize(b"this is not der at all");
    assert_eq!(r.unwrap_err(), HandshakeError::DecodeError);
    let r = Psk::deserialize(&[]);
    assert_eq!(r.unwrap_err(), HandshakeError::DecodeError);
}

#[test]
fn descriptor_rejects_overdeclared_sequence() {
    let (_, spki) = ed25519_cert(&["node.example"]);
    // Enlarge the outer SEQUENCE's declared length and smuggle one byte
    // inside it after the BIT STRING. The lenient parser skips that byte,
    // and the structure it reports is then not a complete encoding of
    // itself, so it could not round-trip: decoding must reject the input
    // rather than build a descriptor.
    assert!(spki[1] < 0x7F);
    let mut evil = spki.clone();
    evil[1] += 1;
    evil.push(0xFF);
    let r = Psk::deserialize(&evil);
    assert_eq!(r.unwrap_err(), HandshakeError::DecodeError);
}

fn now_secs() -> u64 {
    SystemTime::now()
        .duration_since(std::time::UNIX_EPOCH)
        .unwrap()
        .as_secs()
}

#[test]
fn client_verification_at_fixed_seconds() {
    let (der, spki) = ed25519_cert(&["node.example"]);
    let psk = Psk::deserialize(&spki).unwrap();
    let secs = now_secs();
    let r1 = psk.verify_client_cert_at(&der, &Vec::new(), secs);
    let r2 = psk.verify_client_cert_at(&der, &Vec::new(), secs);
    assert!(r1.is_ok(), "expected success, got {:?}", r1.err());
    assert_eq!(r1, r2);
    // Before the certificate's validity window the chain is rejected with
    // the validator's own description.
    let early = psk.verify_client_cert_at(&der, &Vec::new(), 0);
    assert!(matches!(early.unwrap_err(), HandshakeError::OtherPkiFailure(_)));
}

#[test]
fn server_verification_at_fixed_seconds() {
    let (der, spki) = ed25519_cert(&["example.com"]);
    let psk = Psk::deserialize(&spki).unwrap();
    let good = ClaimedIdentity::DnsName("example.com".to_string());
    let bad = ClaimedIdentity::DnsName("bad name!".to_string());
    let secs = now_secs();
    assert!(psk.verify_server_cert_at(&der, &Vec::new(), &good, secs).is_ok());
    assert_eq!(
        psk.verify_server_cert_at(&der, &Vec::new(), &bad, secs).unwrap_err(),
        HandshakeError::UnsupportedNameType
    );
    assert_eq!(
        psk.verify_server_cert_at(&der, &Vec::new(), &ClaimedIdentity::Other, secs).unwrap_err(),
        HandshakeError::UnsupportedNameType
    );
}

#[test]
fn descriptor_equality_is_structural() {
    let (_, spki_a) = ed25519_cert(&["a.example"]);
    let (_, spki_b) = ed25519_cert(&["b.example"]);
    let a1 = Psk::deserialize(&spki_a).unwrap();
    let a2 = Psk::deserialize(&spki_a).unwrap();
    let b = Psk::deserialize(&spki_b).unwrap();
    assert!(a1 == a2);
    assert!(!(a1 == b));
}

#[test]
fn client_accepts_matching_self_signed_ed25519() {
    let (der, spki) = ed25519_cert(&["node.example"]);
    let psk = Psk::deserialize(&spki).unwrap();
    let r = psk.verify_client_cert(&der, &Vec::new(), SystemTime::now());
    assert!(r.is_ok(), "expected success, got {:?}", r.err());
}

#[test]
fn client_accepts_matching_self_signed_p256() {
    let (der, spki) = make_cert(&rcgen::PKCS_ECDSA_P256_SHA256, &["node.example"]);
    let psk = Psk::deserialize(&spki).unwrap();
    let r = psk.verify_client_cert(&der, &Vec::new(), SystemTime::now());
    assert!(r.is_ok(), "expected success, got {:?}", r.err());
}

#[test]
fn client_rejects_key_mismatch() {
    let (der_a, spki_a) = ed25519_cert(&["a.example"]);
    let (_, spki_b) = ed25519_cert(&["b.example"]);
    let psk = Psk::deserialize(&spki_b).unwrap();
    let r = psk.verify_client_cert(&der_a, &Vec::new(), SystemTime::now());
    match r.unwrap_err() {
        HandshakeError::KeyMismatch { observed, expected } => {
            assert_eq!(observed, spki_a);
            assert_eq!(expected, spki_b);
        },
        other => panic!("expected KeyMismatch, got {:?}", other),
    }
}

#[test]
fn client_rejects_malformed_certificate() {
    let (_, spki) = ed25519_cert(&["node.example"]);
    let psk = Psk::deserialize(&spki).unwrap();
    let r = psk.verify_client_cert(b"junk bytes", &Vec::new(), SystemTime::now());
    assert_eq!(r.unwrap_err(), HandshakeError::DecodeError);
}

#[test]
fn server_accepts_matching_name() {
    let (der, spki) = ed25519_cert(&["example.com"]);
    let psk = Psk::deserialize(&spki).unwrap();
    let name = ClaimedIdentity::DnsName("example.com".to_string());
    let r = psk.verify_server_cert(
        &der,
        &Vec::new(),
        &name,
        &Vec::new(),
        &Vec::new(),
        SystemTime::now(),
    );
    assert!(r.is_ok(), "expected success, got {:?}", r.err());
    // Transparency and revocation inputs are diagnostic only: junk content
    // in them never decides acceptance.
    let scts = vec![vec![0x01, 0x02, 0x03]];
    let ocsp = vec![0xFF, 0x00, 0xFF];
    let r = psk.verify_server_cert(&der, &Vec::new(), &name, &scts, &ocsp, SystemTime::now());
    assert!(r.is_ok(), "expected success, got {:?}", r.err());
}

#[test]
fn server_rejects_wrong_name() {
    let (der, spki) = ed25519_cert(&["example.com"]);
    let psk = Psk::deserialize(&spki).unwrap();
    let name = ClaimedIdentity::DnsName("other.example.com".to_string());
    let r = psk.verify_server_cert(
        &der,
        &Vec::new(),
        &name,
        &Vec::new(),
        &Vec::new(),
        SystemTime::now(),
    );
    assert!(
        matches!(r.clone().unwrap_err(), HandshakeError::OtherPkiFailure(_)),
        "expected a name-binding failure, got {:?}",
        r
    );
}

#[test]
fn server_rejects_non_dns_identity() {
    let (der, spki) = ed25519_cert(&["example.com"]);
    let psk = Psk::deserialize(&spki).unwrap();
    let r = psk.verify_server_cert(
        &der,
        &Vec::new(),
        &ClaimedIdentity::Other,
        &Vec::new(),
        &Vec::new(),
        SystemTime::now(),
    );
    assert_eq!(r.unwrap_err(), HandshakeError::UnsupportedNameType);
}

#[test]
fn server_rejects_ip_address_and_bad_syntax() {
    let (der, spki) = ed25519_cert(&["example.com"]);
    let psk = Psk::deserialize(&spki).unwrap();
    for bad in ["127.0.0.1", "bad name!", ""] {
        let name = ClaimedIdentity::DnsName(bad.to_string());
        let r = psk.verify_server_cert(
            &der,
            &Vec::new(),
            &name,
            &Vec::new(),
            &Vec::new(),
            SystemTime::now(),
        );
        assert_eq!(r.unwrap_err(), HandshakeError::UnsupportedNameType, "for {:?}", bad);
    }
}

#[test]
fn rejects_unsupported_signature_algorithm() {
    let (der, spki) = make_cert(&rcgen::PKCS_ECDSA_P384_SHA384, &["node.example"]);
    let psk = Psk::deserialize(&spki).unwrap();
    let r = psk.verify_client_cert(&der, &Vec::new(), SystemTime::now());
    assert_eq!(r.unwrap_err(), HandshakeError::UnsupportedSignatureAlgorithm);
}

#[test]
fn server_rejects_tampered_signature() {
    let (der, spki) = ed25519_cert(&["svc.internal"]);
    let psk = Psk::deserialize(&spki).unwrap();
    let name = ClaimedIdentity::DnsName("svc.internal".to_string());
    let r = psk.verify_server_cert(
        &der,
        &Vec::new(),
        &name,
        &Vec::new(),
        &Vec::new(),
        SystemTime::now(),
    );
    assert!(r.is_ok(), "expected success, got {:?}", r.err());
    let mut tampered = der.clone();
    let last = tampered.len() - 1;
    tampered[last] ^= 0x01;
    let r = psk.verify_server_cert(
        &tampered,
        &Vec::new(),
        &name,
        &Vec::new(),
        &Vec::new(),
        SystemTime::now(),
    );
    assert_eq!(r.unwrap_err(), HandshakeError::SignatureInvalid);
}

#[test]
fn trust_builder_promotes_leaf_to_root() {
    let (der, _) = ed25519_cert(&["node.example"]);
    let (other_der, _) = ed25519_cert(&["other.example"]);
    let intermediates = vec![other_der];
    let (_cert, chain, anchors) =
        rccheck::verify::prepare_for_self_signed(&der, &intermediates).expect("valid leaf");
    assert_eq!(chain.len(), 1);
    assert_eq!(chain[0], intermediates[0].as_slice());
    assert_eq!(anchors.len(), 1);
    let empty: Vec<Vec<u8>> = Vec::new();
    let r = rccheck::verify::prepare_for_self_signed(b"junk", &empty);
    assert!(r.is_err());
}

#[test]
fn client_accepts_with_unrelated_intermediates() {
    let (der, spki) = ed25519_cert(&["node.example"]);
    let (other_der, _) = ed25519_cert(&["other.example"]);
    let psk = Psk::deserialize(&spki).unwrap();
    let r = psk.verify_client_cert(&der, &vec![other_der], SystemTime::now());
    assert!(r.is_ok(), "expected success, got {:?}", r.err());
}

#[test]
fn client_auth_capabilities() {
    let (_, spki) = ed25519_cert(&["node.example"]);
    let psk = Psk::deserialize(&spki).unwrap();
    assert!(psk.offer_client_auth());
    assert_eq!(psk.client_auth_mandatory(), Some(true));
    assert!(psk.client_auth_root_subjects().is_none());
}

#[test]
fn error_mapper_vocabulary() {
    assert_eq!(pki_error(PkiCode::BadDer), HandshakeError::DecodeError);
    assert_eq!(pki_error(PkiCode::BadDerTime), HandshakeError::DecodeError);
    assert_eq!(
        pki_error(PkiCode::InvalidSignatureForPublicKey),
        HandshakeError::SignatureInvalid
    );
    assert_eq!(
        pki_error(PkiCode::UnsupportedSignatureAlgorithm),
        HandshakeError::UnsupportedSignatureAlgorithm
    );
    assert_eq!(
        pki_error(PkiCode::UnsupportedSignatureAlgorithmForPublicKey),
        HandshakeError::UnsupportedSignatureAlgorithm
    );
    assert_eq!(
        pki_error(PkiCode::Other("unknown issuer".to_string())),
        HandshakeError::OtherPkiFailure("unknown issuer".to_string())
    );
}
