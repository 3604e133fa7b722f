use certgen::alt_name::AltName;
use certgen::certificate::{gen_tbs_certificate, sign_certificate, Options, OptionsBuilder};
use certgen::error::GenError;
use certgen::name::Name;
use certgen::scheme::ecdsa::{Curve, Ecdsa, EcdsaKey};
use certgen::scheme::ed25519::{Ed25519, Ed25519Key};
use certgen::scheme::rsa::{RsaDigest, RsaKey};
use certgen::scheme::{PrivateKey, SignatureStrategy};
use certgen::x509::DerEncode;
use elliptic_curve::sec1::ToEncodedPoint;
use pkcs8::EncodePrivateKey;
use rand::SeedableRng;

/// An RSA key of `bits` bits that is the same in every run.
fn seeded_rsa_key(bits: usize, digest: RsaDigest) -> RsaKey {
    let mut rng = rand::rngs::StdRng::seed_from_u64(11);
    let key = rsa::RsaPrivateKey::new(&mut rng, bits).unwrap();
    RsaKey::from_document(digest, key.to_pkcs8_der().unwrap().as_bytes().to_vec()).unwrap()
}

fn flipped(bytes: &[u8], at: usize) -> Vec<u8> {
    let mut bytes = bytes.to_vec();
    bytes[at] ^= 1;
    bytes
}

#[test]
fn an_ecdsa_signature_verifies_over_its_data_and_no_other() {
    for curve in [Curve::P256, Curve::P384, Curve::K256] {
        let key = Ecdsa { curve }.generate_key().unwrap();
        let point = key.to_subject_public_key_info().unwrap().subject_public_key;
        let signature = key.sign(b"what is signed").unwrap();
        assert!(curve.verify(&point, b"what is signed", &signature));
        assert!(!curve.verify(&point, b"what is signed.", &signature));
        assert!(!curve.verify(&point, b"", &signature));
        let last = signature.len() - 1;
        assert!(!curve.verify(&point, b"what is signed", &flipped(&signature, last)));
        assert!(!curve.verify(&point, b"what is signed", &signature[..last]));
        assert!(!curve.verify(&point, b"what is signed", &[]));
        assert!(!curve.verify(&[], b"what is signed", &signature));
        assert!(!curve.verify(&point[..point.len() - 1], b"what is signed", &signature));

        let empty = key.sign(b"").unwrap();
        assert!(curve.verify(&point, b"", &empty));
        assert!(!curve.verify(&point, b"what is signed", &empty));

        let other = Ecdsa { curve }.generate_key().unwrap();
        let other_point = other.to_subject_public_key_info().unwrap().subject_public_key;
        assert!(!curve.verify(&other_point, b"what is signed", &signature));
    }
}

#[test]
fn a_signature_of_one_curve_is_none_of_another() {
    let key = Ecdsa { curve: Curve::P256 }.generate_key().unwrap();
    let point = key.to_subject_public_key_info().unwrap().subject_public_key;
    let signature = key.sign(b"data").unwrap();
    assert!(Curve::P256.verify(&point, b"data", &signature));
    assert!(!Curve::P384.verify(&point, b"data", &signature));
    assert!(!Curve::K256.verify(&point, b"data", &signature));
}

#[test]
fn the_public_point_of_a_document_is_that_of_its_key() {
    let secret = p256::SecretKey::from_slice(&[7; 32]).unwrap();
    let document = secret.to_pkcs8_der().unwrap().as_bytes().to_vec();
    let expected = secret.public_key().to_encoded_point(true).as_bytes().to_vec();
    assert_eq!(expected.len(), 33);
    assert_eq!(Curve::P256.public_key(&document), Some(expected.clone()));
    assert_eq!(Curve::P384.public_key(&document), None);
    assert_eq!(Curve::K256.public_key(&document), None);
    assert_eq!(Curve::P256.public_key(&document[1..]), None);
    assert_eq!(Curve::P256.public_key(&[]), None);

    let key = EcdsaKey::from_document(Curve::P256, document).unwrap();
    assert_eq!(key.to_subject_public_key_info().unwrap().subject_public_key, expected);
    let signature = key.sign(b"data").unwrap();
    assert!(Curve::P256.verify(&expected, b"data", &signature));

    let secret = p384::SecretKey::from_slice(&[7; 48]).unwrap();
    let document = secret.to_pkcs8_der().unwrap().as_bytes().to_vec();
    let expected = secret.public_key().to_encoded_point(true).as_bytes().to_vec();
    assert_eq!(expected.len(), 49);
    assert_eq!(Curve::P384.public_key(&document), Some(expected));
    assert_eq!(Curve::P256.public_key(&document), None);

    let secret = k256::SecretKey::from_slice(&[7; 32]).unwrap();
    let document = secret.to_pkcs8_der().unwrap().as_bytes().to_vec();
    let expected = secret.public_key().to_encoded_point(true).as_bytes().to_vec();
    assert_eq!(Curve::K256.public_key(&document), Some(expected));
    assert_eq!(Curve::P256.public_key(&document), None);
}

#[test]
fn a_generated_key_has_a_public_half() {
    for curve in [Curve::P256, Curve::P384, Curve::K256] {
        let key = Ecdsa { curve }.generate_key().unwrap();
        assert_eq!(key.curve(), curve);
        let info = key.to_subject_public_key_info().unwrap();
        assert_eq!(info.subject_public_key.len(), if curve == Curve::P384 { 49 } else { 33 });
    }
    let key = Ed25519.generate_key().unwrap();
    assert_eq!(key.to_subject_public_key_info().unwrap().subject_public_key.len(), 32);
}

#[test]
fn an_ed25519_signature_has_64_bytes_and_a_key_32() {
    let bytes = ed25519_dalek::pkcs8::KeypairBytes { secret_key: [9; 32], public_key: None };
    let key = Ed25519Key::from_document(bytes.to_pkcs8_der().unwrap().as_bytes().to_vec())
        .unwrap();
    let expected = ed25519_dalek::SigningKey::from_bytes(&[9; 32]);
    let info = key.to_subject_public_key_info().unwrap();
    assert_eq!(info.subject_public_key.len(), 32);
    assert_eq!(info.subject_public_key, expected.verifying_key().to_bytes().to_vec());
    for data in [&b""[..], &b"a"[..], &[0u8; 1000][..]] {
        let signature = key.sign(data).unwrap();
        assert_eq!(signature.len(), 64);
        assert_eq!(key.sign(data).unwrap(), signature);
    }
    assert_ne!(key.sign(b"a").unwrap(), key.sign(b"b").unwrap());
}

#[test]
fn an_rsa_signature_is_as_long_as_the_modulus() {
    let key = seeded_rsa_key(1024, RsaDigest::Sha256);
    assert_eq!(key.bits(), Ok(1024));
    assert_eq!(key.sign(b"data").unwrap().len(), 128);

    for digest in [RsaDigest::Sha256, RsaDigest::Sha384, RsaDigest::Sha512] {
        let key = seeded_rsa_key(1025, digest);
        assert_eq!(key.bits(), Ok(1025));
        let signature = key.sign(b"data").unwrap();
        assert_eq!(signature.len(), 129);
        assert_eq!(key.sign(b"data").unwrap(), signature);
        assert_ne!(key.sign(b"other").unwrap(), signature);
    }
}

#[test]
fn an_rsa_key_too_short_for_the_digest_signs_nothing() {
    let key = seeded_rsa_key(512, RsaDigest::Sha512);
    assert_eq!(key.bits(), Ok(512));
    assert_eq!(key.sign(b"data"), Err(GenError::Crypto));
    assert_eq!(key.sign(b"data"), Err(GenError::Crypto));
    assert_eq!(key.sign(b""), Err(GenError::Crypto));
    assert!(key.to_subject_public_key_info().is_ok());

    let key = seeded_rsa_key(512, RsaDigest::Sha256);
    assert_eq!(key.sign(b"data").unwrap().len(), 64);
}

#[test]
fn a_document_without_an_rsa_key_has_no_size() {
    for document in [vec![0x30, 0x00], vec![0x30, 0x03, 0x02, 0x01, 0x00]] {
        let key = RsaKey::from_document(RsaDigest::Sha256, document).unwrap();
        assert_eq!(key.bits(), Err(GenError::Encoding));
        assert_eq!(key.sign(b"data"), Err(GenError::Crypto));
    }
    let bytes = ed25519_dalek::pkcs8::KeypairBytes { secret_key: [9; 32], public_key: None };
    let document = bytes.to_pkcs8_der().unwrap().as_bytes().to_vec();
    let key = RsaKey::from_document(RsaDigest::Sha256, document).unwrap();
    assert_eq!(key.bits(), Err(GenError::Encoding));
}

#[test]
fn every_bit_of_a_serial_number_is_drawn() {
    let bytes = ed25519_dalek::pkcs8::KeypairBytes { secret_key: [9; 32], public_key: None };
    let key = Ed25519Key::from_document(bytes.to_pkcs8_der().unwrap().as_bytes().to_vec())
        .unwrap();
    let mut seen_set = [0u8; 16];
    let mut seen_clear = [0u8; 16];
    for _ in 0..96 {
        let options = OptionsBuilder::default()
            .issuer(Name::default())
            .subject(Name::default())
            .duration(60)
            .alt_names(vec![])
            .build()
            .unwrap();
        let tbs = gen_tbs_certificate(&key, options).unwrap();
        assert_eq!(tbs.serial_number.len(), 16);
        for (i, byte) in tbs.serial_number.iter().enumerate() {
            seen_set[i] |= byte;
            seen_clear[i] |= !byte;
        }
    }
    assert_eq!(seen_set, [0xff; 16]);
    assert_eq!(seen_clear, [0xff; 16]);
}

#[test]
fn an_ed25519_signature_verifies_over_its_data_and_no_other() {
    let bytes = ed25519_dalek::pkcs8::KeypairBytes { secret_key: [9; 32], public_key: None };
    let key = Ed25519Key::from_document(bytes.to_pkcs8_der().unwrap().as_bytes().to_vec())
        .unwrap();
    let public = key.to_subject_public_key_info().unwrap().subject_public_key;
    let signature = key.sign(b"what is signed").unwrap();
    assert!(Ed25519.verify(&public, b"what is signed", &signature));
    assert!(!Ed25519.verify(&public, b"what is signed.", &signature));
    assert!(!Ed25519.verify(&public, b"", &signature));
    assert!(!Ed25519.verify(&public, b"what is signed", &flipped(&signature, 0)));
    assert!(!Ed25519.verify(&public, b"what is signed", &signature[..63]));
    assert!(!Ed25519.verify(&public, b"what is signed", &[]));
    assert!(!Ed25519.verify(&public[..31], b"what is signed", &signature));
    assert!(!Ed25519.verify(&[], b"what is signed", &signature));

    let other = Ed25519.generate_key().unwrap();
    let other_public = other.to_subject_public_key_info().unwrap().subject_public_key;
    assert!(!Ed25519.verify(&other_public, b"what is signed", &signature));
    let other_signature = other.sign(b"what is signed").unwrap();
    assert!(Ed25519.verify(&other_public, b"what is signed", &other_signature));
}

#[test]
fn an_rsa_signature_verifies_over_its_data_and_its_digest() {
    let digests = [RsaDigest::Sha256, RsaDigest::Sha384, RsaDigest::Sha512];
    for digest in digests {
        let key = seeded_rsa_key(1024, digest);
        let public = key.to_subject_public_key_info().unwrap().subject_public_key;
        let signature = key.sign(b"what is signed").unwrap();
        for other in digests {
            assert_eq!(other.verify(&public, b"what is signed", &signature), other == digest);
        }
        assert!(!digest.verify(&public, b"what is signed.", &signature));
        assert!(!digest.verify(&public, b"", &signature));
        assert!(!digest.verify(&public, b"what is signed", &flipped(&signature, 127)));
        assert!(!digest.verify(&public, b"what is signed", &signature[1..]));
        assert!(!digest.verify(&public, b"what is signed", &[]));
        assert!(!digest.verify(&public[1..], b"what is signed", &signature));
        assert!(!digest.verify(&[], b"what is signed", &signature));
    }
    let key = seeded_rsa_key(1025, RsaDigest::Sha256);
    let public = key.to_subject_public_key_info().unwrap().subject_public_key;
    let signature = seeded_rsa_key(1024, RsaDigest::Sha256).sign(b"what is signed").unwrap();
    assert!(!RsaDigest::Sha256.verify(&public, b"what is signed", &signature));
}

fn options_for_signing() -> Options {
    OptionsBuilder::default()
        .issuer(Name::default())
        .subject(Name::default())
        .duration(3_600)
        .is_ca()
        .alt_names(vec![AltName::DNS("example.com".to_string())])
        .build()
        .unwrap()
}

#[test]
fn the_signature_of_a_certificate_verifies_against_the_key_it_holds() {
    let key = Ed25519.generate_key().unwrap();
    let tbs = gen_tbs_certificate(&key, options_for_signing()).unwrap();
    let certificate = sign_certificate(&key, tbs).unwrap();
    let payload = certificate.tbs_certificate.to_der().unwrap();
    let public = &certificate.tbs_certificate.subject_public_key_info.subject_public_key;
    assert!(Ed25519.verify(public, &payload, &certificate.signature));
    assert!(!Ed25519.verify(public, &payload[1..], &certificate.signature));

    for curve in [Curve::P256, Curve::P384, Curve::K256] {
        let key = Ecdsa { curve }.generate_key().unwrap();
        let tbs = gen_tbs_certificate(&key, options_for_signing()).unwrap();
        let certificate = sign_certificate(&key, tbs).unwrap();
        let payload = certificate.tbs_certificate.to_der().unwrap();
        let public = &certificate.tbs_certificate.subject_public_key_info.subject_public_key;
        assert!(curve.verify(public, &payload, &certificate.signature));
        assert!(!curve.verify(public, &payload[1..], &certificate.signature));
    }

    for digest in [RsaDigest::Sha256, RsaDigest::Sha384, RsaDigest::Sha512] {
        let key = seeded_rsa_key(1024, digest);
        let tbs = gen_tbs_certificate(&key, options_for_signing()).unwrap();
        let certificate = sign_certificate(&key, tbs).unwrap();
        let payload = certificate.tbs_certificate.to_der().unwrap();
        let public = &certificate.tbs_certificate.subject_public_key_info.subject_public_key;
        assert!(digest.verify(public, &payload, &certificate.signature));
        assert!(!digest.verify(public, &payload[1..], &certificate.signature));
    }
}
