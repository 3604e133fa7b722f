use certgen::alt_name::{AltName, IpAddress};
use certgen::certificate::{gen_tbs_certificate, sign_certificate, OptionsBuilder};
use certgen::encoding::LineEnding;
use certgen::name::SubjectFields;
use certgen::scheme::rsa::{RsaDigest, RsaKey};
use certgen::scheme::select::{SchemeKey, SchemeName, SignatureScheme};
use certgen::scheme::{PrivateKey, SignatureStrategy};
use certgen::self_signed::{gen_self_signed, SelfSignedCertOptions};
use der::{DecodePem, Encode};
use pkcs8::{DecodePrivateKey, EncodePrivateKey};
use rand::SeedableRng;
use signature::Verifier;
use spki::EncodePublicKey;
use x509_cert::Certificate;

fn options() -> SelfSignedCertOptions {
    let fields = SubjectFields {
        common_name: "example".to_string(),
        organization: "Example Org".to_string(),
        organizational_unit: String::new(),
        locality: String::new(),
        state: String::new(),
        country: "DE".to_string(),
    };
    SelfSignedCertOptions {
        issuer: fields.to_name(),
        subject: fields.to_name(),
        duration: 86_400,
        san: vec![
            AltName::DNS("example.org".to_string()),
            AltName::IP(IpAddress::V4([10, 0, 0, 1])),
        ],
    }
}

fn generate(name: SchemeName) -> (String, Certificate) {
    let scheme: SignatureScheme = name.into_scheme();
    let (key_pem, certificate_pem) = gen_self_signed(&scheme, options()).unwrap();
    let certificate = Certificate::from_pem(certificate_pem.as_bytes()).unwrap();
    assert_eq!(certificate.tbs_certificate.subject.to_string(), "C=DE,O=Example Org,CN=example");
    assert_eq!(certificate.tbs_certificate.signature, certificate.signature_algorithm);
    let span = certificate.tbs_certificate.validity.not_after.to_unix_duration()
        - certificate.tbs_certificate.validity.not_before.to_unix_duration();
    assert_eq!(span.as_secs(), 86_400);
    (key_pem, certificate)
}

fn check_ecdsa_p256(name: SchemeName) {
    let (key_pem, certificate) = generate(name);
    let key = p256::SecretKey::from_pkcs8_pem(&key_pem).unwrap();
    let public = key.public_key();
    let info = &certificate.tbs_certificate.subject_public_key_info;
    assert_eq!(info.algorithm.oid.to_string(), "1.2.840.10045.2.1");
    assert_eq!(
        p256::PublicKey::from_sec1_bytes(info.subject_public_key.raw_bytes()).unwrap(),
        public
    );
    assert_eq!(certificate.signature_algorithm.oid.to_string(), "1.2.840.10045.4.3.2");
    let signature =
        p256::ecdsa::Signature::from_der(certificate.signature.raw_bytes()).unwrap();
    p256::ecdsa::VerifyingKey::from(public)
        .verify(&certificate.tbs_certificate.to_der().unwrap(), &signature)
        .unwrap();
}

#[test]
fn ecdsa_p256_certificate_matches_its_key() {
    check_ecdsa_p256(SchemeName::EcdsaP256);
}

#[test]
fn ecdsa_p384_certificate_matches_its_key() {
    let (key_pem, certificate) = generate(SchemeName::EcdsaP384);
    let key = p384::SecretKey::from_pkcs8_pem(&key_pem).unwrap();
    let public = key.public_key();
    let info = &certificate.tbs_certificate.subject_public_key_info;
    assert_eq!(
        p384::PublicKey::from_sec1_bytes(info.subject_public_key.raw_bytes()).unwrap(),
        public
    );
    assert_eq!(certificate.signature_algorithm.oid.to_string(), "1.2.840.10045.4.3.3");
    let signature =
        p384::ecdsa::Signature::from_der(certificate.signature.raw_bytes()).unwrap();
    p384::ecdsa::VerifyingKey::from(public)
        .verify(&certificate.tbs_certificate.to_der().unwrap(), &signature)
        .unwrap();
}

#[test]
fn ecdsa_k256_certificate_matches_its_key() {
    let (key_pem, certificate) = generate(SchemeName::EcdsaK256);
    let key = k256::SecretKey::from_pkcs8_pem(&key_pem).unwrap();
    let public = key.public_key();
    let info = &certificate.tbs_certificate.subject_public_key_info;
    assert_eq!(
        k256::PublicKey::from_sec1_bytes(info.subject_public_key.raw_bytes()).unwrap(),
        public
    );
    assert_eq!(certificate.signature_algorithm.oid.to_string(), "1.2.840.10045.4.3.2");
    let signature =
        k256::ecdsa::Signature::from_der(certificate.signature.raw_bytes()).unwrap();
    k256::ecdsa::VerifyingKey::from(public)
        .verify(&certificate.tbs_certificate.to_der().unwrap(), &signature)
        .unwrap();
}

/// An RSA key of 2048 bits that is the same in every run: to make one from
/// the system's random source can take longer than a test may run.
fn fixed_rsa_key(digest: RsaDigest) -> RsaKey {
    let mut rng = rand::rngs::StdRng::seed_from_u64(5);
    let key = rsa::RsaPrivateKey::new(&mut rng, 2048).unwrap();
    RsaKey::from_document(digest, key.to_pkcs8_der().unwrap().as_bytes().to_vec()).unwrap()
}

fn check_rsa<D>(digest: RsaDigest, signature_oid: &str)
where
    D: sha2::Digest + const_oid::AssociatedOid,
{
    let key = fixed_rsa_key(digest);
    let given = options();
    let built = OptionsBuilder::default()
        .issuer(given.issuer)
        .subject(given.subject)
        .duration(given.duration)
        .is_ca()
        .alt_names(given.san)
        .build()
        .unwrap();
    let tbs = gen_tbs_certificate(&key, built).unwrap();
    let signed = sign_certificate(&key, tbs).unwrap();
    let key_pem = key.to_pem(LineEnding::LF).unwrap();
    let certificate = Certificate::from_pem(signed.to_pem(LineEnding::LF).unwrap().as_bytes())
        .unwrap();

    let key = rsa::RsaPrivateKey::from_pkcs8_pem(&key_pem).unwrap();
    let public = key.to_public_key();
    let info = &certificate.tbs_certificate.subject_public_key_info;
    assert_eq!(info.to_der().unwrap(), public.to_public_key_der().unwrap().as_bytes());
    assert_eq!(certificate.signature_algorithm.oid.to_string(), signature_oid);
    assert_eq!(
        certificate.signature_algorithm.parameters.as_ref().unwrap().to_der().unwrap(),
        vec![5u8, 0u8]
    );
    assert_eq!(certificate.tbs_certificate.signature, certificate.signature_algorithm);
    assert_eq!(certificate.signature.raw_bytes().len(), 256);
    let signature =
        rsa::pkcs1v15::Signature::try_from(certificate.signature.raw_bytes()).unwrap();
    rsa::pkcs1v15::VerifyingKey::<D>::new(public)
        .verify(&certificate.tbs_certificate.to_der().unwrap(), &signature)
        .unwrap();
}

#[test]
fn rsa_sha256_certificate_matches_its_key() {
    check_rsa::<sha2::Sha256>(RsaDigest::Sha256, "1.2.840.113549.1.1.11");
}

#[test]
fn rsa_sha384_certificate_matches_its_key() {
    check_rsa::<sha2::Sha384>(RsaDigest::Sha384, "1.2.840.113549.1.1.12");
}

#[test]
fn rsa_sha512_certificate_matches_its_key() {
    check_rsa::<sha2::Sha512>(RsaDigest::Sha512, "1.2.840.113549.1.1.13");
}

#[test]
fn rsa_signature_is_over_the_declared_digest() {
    let key = fixed_rsa_key(RsaDigest::Sha256);
    let signature = key.sign(b"message").unwrap();
    let public = rsa::RsaPrivateKey::from_pkcs8_pem(&key.to_pem(LineEnding::LF).unwrap())
        .unwrap()
        .to_public_key();
    let signature = rsa::pkcs1v15::Signature::try_from(signature.as_slice()).unwrap();
    assert!(rsa::pkcs1v15::VerifyingKey::<sha2::Sha256>::new(public.clone())
        .verify(b"message", &signature)
        .is_ok());
    assert!(rsa::pkcs1v15::VerifyingKey::<sha2::Sha384>::new(public.clone())
        .verify(b"message", &signature)
        .is_err());
    assert!(rsa::pkcs1v15::VerifyingKey::<sha2::Sha256>::new(public)
        .verify(b"another message", &signature)
        .is_err());
}

#[test]
fn a_key_of_any_scheme_has_the_algorithms_of_its_scheme() {
    for name in [SchemeName::Ed25519, SchemeName::EcdsaP256, SchemeName::EcdsaP384, SchemeName::EcdsaK256] {
        let scheme = name.into_scheme();
        let key = scheme.generate_key().unwrap();
        assert_eq!(key.signature_algorithm(), scheme.signature_algorithm_identifier());
        let info = key.to_subject_public_key_info().unwrap();
        assert_eq!(info.algorithm, scheme.algorithm_identifier());
        match (scheme, &key) {
            (SignatureScheme::Ed25519(_), SchemeKey::Ed25519(_)) => {}
            (SignatureScheme::Ecdsa(scheme), SchemeKey::Ecdsa(key)) => {
                assert_eq!(key.curve(), scheme.curve)
            }
            _ => panic!("key of another scheme"),
        }
    }
}

#[test]
fn an_rsa_signature_is_fixed_by_key_digest_and_data() {
    let key = fixed_rsa_key(RsaDigest::Sha256);
    let first = key.sign(b"data").unwrap();
    let again = key.sign(b"data").unwrap();
    assert_eq!(first, again);
    assert_eq!(first.len(), 256);
    assert_ne!(first, key.sign(b"other data").unwrap());
    assert_ne!(first, fixed_rsa_key(RsaDigest::Sha384).sign(b"data").unwrap());
    assert_ne!(first, fixed_rsa_key(RsaDigest::Sha512).sign(b"data").unwrap());

    let private = rsa::RsaPrivateKey::from_pkcs8_pem(&key.to_pem(LineEnding::LF).unwrap()).unwrap();
    let unblinded = signature::Signer::sign(
        &rsa::pkcs1v15::SigningKey::<sha2::Sha256>::new(private),
        b"data",
    );
    assert_eq!(first, signature::SignatureEncoding::to_vec(&unblinded));
}

#[test]
fn a_generated_ed25519_key_comes_with_its_public_half() {
    for _ in 0..8 {
        let key = certgen::scheme::ed25519::Ed25519.generate_key().unwrap();
        let info = key.to_subject_public_key_info().unwrap();
        assert_eq!(info.subject_public_key.len(), 32);
        let pem = key.to_pem(LineEnding::LF).unwrap();
        let dalek = <ed25519_dalek::SigningKey as DecodePrivateKey>::from_pkcs8_pem(&pem).unwrap();
        assert_eq!(info.subject_public_key, dalek.verifying_key().to_bytes().to_vec());
    }
    let first = certgen::scheme::ed25519::Ed25519.generate_key().unwrap();
    let second = certgen::scheme::ed25519::Ed25519.generate_key().unwrap();
    assert_ne!(first.to_pem(LineEnding::LF).unwrap(), second.to_pem(LineEnding::LF).unwrap());
}
