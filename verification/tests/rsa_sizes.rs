use certgen::error::GenError;
use certgen::scheme::rsa::{RsaDigest, RsaKey, MAX_MODULUS_BITS};
use certgen::scheme::PrivateKey;
use pkcs8::EncodePrivateKey;
use signature::{SignatureEncoding, Signer};

/// Two primes of 2048 bits whose product has 4096 bits.
const P_4096: &str = "\
     e6dcac9ab62b0a7911fa7f27f5c1ab7fb37e32f0d88bd0e052c9ffccdfb973146abe67fd84badf78b8af3bea\
     9c6a25597298bfbf45ae2142c4a1ebd8df2b5addb876560e07323aed453ec6238522d38869bf2ae4ecf8cbdf\
     35e8448c2997c577577e59eba3b65b19c0e98fd4315690958b38d8cb82e4d40212c6117d56ab7185f149752d\
     cb35d2ecb4ad76bee64209fe6f629dab542524778604b10cc42f60cf2a60a66dec8d95016dda3220ebfde9ee\
     c014628d5dd0e078fb91edd673bfddce3760b6a3230d3103c8304724a987275fe3530bf2dbcec87919f3a212\
     a7db9a149ea79e6796474fb70491ebe1b5fe42d24beab851c9e93e94582a22c46278f3b1";
const Q_4096: &str = "\
     f48c47999cff3dead8d811aa48535a4a3be4a57ed4e3fe4a3942d15131b85edc8855d15e74d6901201bf80b7\
     c69983b7de2a8bb032265b6e3f407296bfeef78c4b2720a385e69d24385f29589a9fd08282b68cf782093976\
     7e26da65b2b0eee3fcd4388ca916fec07253af62e43a06447ecb2c2cea503bdbfa128d88e0739a51f9620dbf\
     279a7113796e9746ae54c9d8cc4dbb76e3e1095ca13499f7c57ab81b4926575117c339cef41786053e1f2423\
     0f36884872b09f63b47bc10ae9cfe80a3e91c337ab938c3c7120e1916a15cead22dc10f22b33884fa1890131\
     df7b6f92729ae2a6a08db0f50f67663b1e2ff3425499e49f0494fdd3222e5a50f903c24b";

/// Two primes of 2052 bits whose product has 4104 bits.
const P_4104: &str = "\
     f5a349924e8b6b483cd0e6d91abbd878774eb1c3dc1cfed0e66c1dc5dee796faba51362aba0ff634b660dbc0\
     09cfc1c74ab933bd75932c755813b7f4364c920e531541a25baff2c04a169031d57bfba3dac4a83744cfdd01\
     4ccb91d8f173d66a77d0acfb8dd114e35dc6132280106ee3ca9395ebad403155ea2a2416f715cdf1836104d3\
     734c9be880d0f189e9530409c97dc9396f07ee0532397e23a8b1f02ecd314e62153a042361adda961bd4f966\
     4c6bc87cff113b49752bb21dc84dcc059402fbb1c4c186a3b6a64fc4a686fa7b2d2d471764ddf50bfdf7371a\
     5aa7daa73623d24d88b299c5a16e740b37f89c826ecbbc3adc5fffd67a1b0dc8e22080e95";
const Q_4104: &str = "\
     c436cfe607888d24d83148c415ca6b845865523b8a6a9a56fcec36bbb50e7ca36299810312b801cee129b9bf\
     691472cfa6bc68db0b9ccdbaf04678212f9200031a74355bbe7ef680ebc365cac1a2c173e04d253f39f9a6e8\
     8fb7c2cf3620581d5ea90357f5622b89a0f4f089271805e2e21545defdeb4a68c81696087adbf3796d5245a1\
     c91ffc39d1ae6fd0010da9e38ee12917ad046df53ed46d9f40eb92a54e45a38018dc391e627d0d507a7137bf\
     ae3b1a528e360223e227e1d70561cb1f81ae8f56a4b8bbfbed76b11c8e9fff00dd46635604fd4a24ad1f5993\
     52c17f3836768267c43ca430657aaa749fa42ca6ea95c4b14a3a9200d3f41bdf4ef08730f";

fn key_of(p: &str, q: &str) -> rsa::RsaPrivateKey {
    let p = rsa::BigUint::parse_bytes(p.as_bytes(), 16).unwrap();
    let q = rsa::BigUint::parse_bytes(q.as_bytes(), 16).unwrap();
    rsa::RsaPrivateKey::from_p_q(p, q, rsa::BigUint::from(65_537u32)).unwrap()
}

fn document_of(key: &rsa::RsaPrivateKey) -> Vec<u8> {
    key.to_pkcs8_der().unwrap().as_bytes().to_vec()
}

#[test]
fn an_rsa_key_of_4096_bits_signs_and_its_signature_verifies() {
    assert_eq!(MAX_MODULUS_BITS, 4096);
    let document = document_of(&key_of(P_4096, Q_4096));
    for digest in [RsaDigest::Sha256, RsaDigest::Sha512] {
        let key = RsaKey::from_document(digest, document.clone()).unwrap();
        assert_eq!(key.bits(), Ok(4096));
        let public = key.to_subject_public_key_info().unwrap().subject_public_key;
        let signature = key.sign(b"what is signed").unwrap();
        assert_eq!(signature.len(), 512);
        assert!(digest.verify(&public, b"what is signed", &signature));
        assert!(!digest.verify(&public, b"what is not signed", &signature));
    }
}

#[test]
fn an_rsa_key_of_more_than_4096_bits_is_refused() {
    let outside = key_of(P_4104, Q_4104);
    let document = document_of(&outside);
    for digest in [RsaDigest::Sha256, RsaDigest::Sha384, RsaDigest::Sha512] {
        let key = RsaKey::from_document(digest, document.clone()).unwrap();
        assert_eq!(key.bits(), Ok(4104));
        assert!(key.to_subject_public_key_info().is_ok());
        assert_eq!(key.sign(b"what is signed"), Err(GenError::Crypto));
        assert_eq!(key.sign(b""), Err(GenError::Crypto));
    }
}

#[test]
fn no_signature_verifies_under_a_key_of_more_than_4096_bits() {
    let outside = key_of(P_4104, Q_4104);
    let key = RsaKey::from_document(RsaDigest::Sha256, document_of(&outside)).unwrap();
    let public = key.to_subject_public_key_info().unwrap().subject_public_key;
    let signer = rsa::pkcs1v15::SigningKey::<sha2::Sha256>::new(outside);
    let signature = signer.sign(b"what is signed").to_vec();
    assert_eq!(signature.len(), 513);
    assert!(!RsaDigest::Sha256.verify(&public, b"what is signed", &signature));
}
