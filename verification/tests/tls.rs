use ed25519_dalek::pkcs8::EncodePublicKey;
use p2p::node::node_id::{PublicKey, SecretKey};
use p2p::tls::{bytes_eq, decode, encode, CertRejection, ClientCertificateVerifier, ServerCertificateVerifier};

fn key(seed: u8) -> PublicKey {
    SecretKey::from_secret_bytes([seed; 32]).public()
}

fn der(k: &PublicKey) -> Vec<u8> {
    ed25519_dalek::VerifyingKey::from_bytes(k.as_bytes()).unwrap().to_public_key_der().unwrap().into_vec()
}

#[test]
fn peer_name_round_trip() {
    let k = key(5);
    let name = encode(k);
    assert!(name.ends_with(".upaomo.invalid"));
    let label = name.split('.').next().unwrap();
    assert_eq!(label, data_encoding::BASE32_DNSSEC.encode(k.as_bytes()));
    assert!(label.chars().all(|c| c.is_ascii_digit() || ('a'..='v').contains(&c)));
    assert_eq!(decode(&name), Some(k));
}

#[test]
fn peer_name_rejected() {
    let k = key(5);
    let label = data_encoding::BASE32_DNSSEC.encode(k.as_bytes());
    assert_eq!(decode(&format!("{label}.upaomo.invalid.x")), None);
    assert_eq!(decode(&format!("{label}.other.invalid")), None);
    assert_eq!(decode(&format!("{label}.upaomo.valid")), None);
    assert_eq!(decode("!!.upaomo.invalid"), None);
    let short = data_encoding::BASE32_DNSSEC.encode(&[1, 2, 3]);
    assert_eq!(decode(&format!("{short}.upaomo.invalid")), None);
    let mut bad = [0u8; 32];
    bad[0] = 2;
    let bad_label = data_encoding::BASE32_DNSSEC.encode(&bad);
    assert_eq!(decode(&format!("{bad_label}.upaomo.invalid")), None);
}

#[test]
fn server_certificate_checks() {
    let v = ServerCertificateVerifier::new();
    let k = key(8);
    let name = encode(k);
    let cert = der(&k);
    assert_eq!(v.verify_server_cert(&cert, 0, Some(&name)), Ok(()));
    assert_eq!(v.verify_server_cert(&cert, 0, None), Err(CertRejection::UnsupportedNameType));
    assert_eq!(v.verify_server_cert(&cert, 0, Some("example.com")), Err(CertRejection::NotValidForName));
    assert_eq!(v.verify_server_cert(&cert, 1, Some(&name)), Err(CertRejection::UnknownIssuer));
    let other = der(&key(9));
    assert_eq!(v.verify_server_cert(&other, 0, Some(&name)), Err(CertRejection::UnknownIssuer));
}

#[test]
fn client_certificate_checks() {
    let v = ClientCertificateVerifier::new();
    assert_eq!(v.verify_client_cert(0), Ok(()));
    assert_eq!(v.verify_client_cert(2), Err(CertRejection::UnknownIssuer));
}

#[test]
fn byte_comparison() {
    assert!(bytes_eq(&[1, 2, 3], &[1, 2, 3]));
    assert!(!bytes_eq(&[1, 2, 3], &[1, 2]));
    assert!(!bytes_eq(&[1, 2, 3], &[1, 2, 4]));
    assert!(bytes_eq(&[], &[]));
}
