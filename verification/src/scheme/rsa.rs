//! RSA with PKCS#1 v1.5 signatures.

use vstd::prelude::*;
use pkcs1::{DecodeRsaPublicKey, EncodeRsaPublicKey};
use pkcs8::{DecodePrivateKey, EncodePrivateKey};
use rsa::pkcs1v15::{Signature, SigningKey, VerifyingKey};
use rsa::traits::PublicKeyParts;
use rsa::{RsaPrivateKey, RsaPublicKey};
use sha2::{Sha256, Sha384, Sha512};
use signature::{RandomizedSigner, SignatureEncoding, Verifier};
use crate::encoding::LineEnding;
use crate::error::GenError;
use crate::oid::Oid;
use crate::scheme::secret::{is_document, read_document, secret_bytes, secret_document_bytes};
use crate::scheme::{pkcs8_pem, PrivateKey, SignatureStrategy};
use crate::x509::{AlgorithmIdentifier, AlgorithmParameters, SubjectPublicKeyInfo};

verus! {

/// The public key of the RSA private key in the PKCS#8 document `document`,
/// as a DER `RSAPublicKey`. `None` where the document holds no such key.
pub uninterp spec fn rsa_public_key(document: Seq<u8>) -> Option<Seq<u8>>;

/// The bits of the modulus of the RSA private key in the PKCS#8 document
/// `document`. `None` where the document holds no such key.
pub uninterp spec fn rsa_modulus_bits(document: Seq<u8>) -> Option<usize>;

/// `RsaPrivateKey::from_pkcs8_der` of `rsa`, and `bits` of the key's modulus.
///
/// Trusted: what comes back is what [`rsa_modulus_bits`] names for the
/// document.
#[verifier::external_body]
fn modulus_bits(document: &[u8]) -> (r: Result<usize, pkcs8::Error>)
    ensures
        r matches Ok(bits) ==> rsa_modulus_bits(document@) == Some(bits),
        r is Err ==> rsa_modulus_bits(document@) is None,
{
    Ok(RsaPrivateKey::from_pkcs8_der(document)?.n().bits())
}

/// `RsaPrivateKey::new` of `rsa` on the thread's random generator, and its
/// `to_pkcs8_der`.
///
/// Trusted: the key of a document that comes back has a modulus of
/// `bit_size` bits: the generator draws primes until their product has
/// exactly that many. Only the two sizes on offer are admitted. The call
/// does not return where the system has no random source.
#[verifier::external_body]
fn generate_document(bit_size: usize) -> (r: Result<pkcs8::SecretDocument, rsa::Error>)
    requires
        bit_size == 2048 || bit_size == 4096,
    ensures
        r matches Ok(document) ==> rsa_modulus_bits(secret_document_bytes(document)) == Some(
            bit_size,
        ),
{
    let key = RsaPrivateKey::new(&mut rand::thread_rng(), bit_size)?;
    Ok(key.to_pkcs8_der()?)
}

/// `RsaPrivateKey::from_pkcs8_der` and `RsaPrivateKey::to_public_key` of
/// `rsa`, and `to_pkcs1_der` of `pkcs1` on the public key.
///
/// Trusted: what comes back is what [`rsa_public_key`] names for the document.
#[verifier::external_body]
fn public_key(document: &[u8]) -> (r: Result<Vec<u8>, pkcs8::Error>)
    ensures
        r matches Ok(key) ==> rsa_public_key(document@) == Some(key@),
        r is Err ==> rsa_public_key(document@) is None,
{
    let key = RsaPrivateKey::from_pkcs8_der(document)?.to_public_key();
    Ok(key.to_pkcs1_der().map_err(|_| pkcs8::Error::KeyMalformed)?.as_bytes().to_vec())
}

/// The most bits that the modulus of a public key may have for `rsa` to read
/// the key: its `RsaPublicKey::MAX_SIZE`.
pub const MAX_MODULUS_BITS: usize = 4096;

/// Whether `length` is the length of a signature with the RSA private key in
/// the PKCS#8 document `document`: the bytes that hold the bits of its
/// modulus.
pub open spec fn is_signature_length(document: Seq<u8>, length: nat) -> bool {
    rsa_modulus_bits(document) matches Some(bits) && length == (bits + 7) / 8
}

/// Whether the PKCS#8 document `document` holds an RSA private key whose
/// public half a verifier reads: one with a modulus of no more than
/// [`MAX_MODULUS_BITS`] bits.
pub open spec fn is_verifiable(document: Seq<u8>) -> bool {
    rsa_modulus_bits(document) matches Some(bits) && bits <= MAX_MODULUS_BITS
}

/// Whether the RSA public key `public_key`, a DER `RSAPublicKey`, verifies
/// `signature` as a PKCS#1 v1.5 signature over the SHA-256 digest of `data`.
/// It does not where `public_key` is no such key, or one with a modulus of
/// more than [`MAX_MODULUS_BITS`] bits.
pub uninterp spec fn rsa_sha256_verifies(
    public_key: Seq<u8>,
    data: Seq<u8>,
    signature: Seq<u8>,
) -> bool;

/// `RsaPublicKey::from_pkcs1_der`, `VerifyingKey::<Sha256>::new`,
/// `Signature::try_from` and `VerifyingKey::verify` of `rsa`.
///
/// Trusted: what comes back is what [`rsa_sha256_verifies`] names for these
/// arguments.
#[verifier::external_body]
fn verify_sha256(public_key: &[u8], data: &[u8], signature: &[u8]) -> (valid: bool)
    ensures
        valid == rsa_sha256_verifies(public_key@, data@, signature@),
{
    let Ok(key) = RsaPublicKey::from_pkcs1_der(public_key) else {
        return false;
    };
    let Ok(signature) = Signature::try_from(signature) else {
        return false;
    };
    VerifyingKey::<Sha256>::new(key).verify(data, &signature).is_ok()
}

/// `SigningKey::<Sha256>::new` and `try_sign_with_rng` of `rsa`, on the
/// thread's random generator: a PKCS#1 v1.5 signature over the SHA-256
/// digest of `data`.
///
/// Trusted: the random generator blinds the computation, and for a key
/// whose factors are not prime the outcome can depend on what it gives, so
/// the signature has no name. Of every signature that comes back this much
/// holds: it is as long as the modulus of the key, in whole bytes; and where
/// the modulus has no more than [`MAX_MODULUS_BITS`] bits, the public half of
/// the key, as [`rsa_public_key`] names it, verifies the signature over
/// `data`, because the signer checks its result against the public key
/// before it returns it. The call does not return where the system has no
/// random source.
#[verifier::external_body]
fn sign_sha256(document: &[u8], data: &[u8]) -> (r: Result<Vec<u8>, signature::Error>)
    ensures
        r matches Ok(bytes) ==> {
            &&& is_signature_length(document@, bytes@.len())
            &&& is_verifiable(document@) ==> (rsa_public_key(document@) matches Some(public_key)
                && rsa_sha256_verifies(public_key, data@, bytes@))
        },
{
    let key = RsaPrivateKey::from_pkcs8_der(document).map_err(|_| signature::Error::new())?;
    let key = SigningKey::<Sha256>::new(key);
    Ok(key.try_sign_with_rng(&mut rand::thread_rng(), data)?.to_vec())
}

/// Whether the RSA public key `public_key`, a DER `RSAPublicKey`, verifies
/// `signature` as a PKCS#1 v1.5 signature over the SHA-384 digest of `data`.
/// It does not where `public_key` is no such key, or one with a modulus of
/// more than [`MAX_MODULUS_BITS`] bits.
pub uninterp spec fn rsa_sha384_verifies(
    public_key: Seq<u8>,
    data: Seq<u8>,
    signature: Seq<u8>,
) -> bool;

/// `RsaPublicKey::from_pkcs1_der`, `VerifyingKey::<Sha384>::new`,
/// `Signature::try_from` and `VerifyingKey::verify` of `rsa`.
///
/// Trusted: what comes back is what [`rsa_sha384_verifies`] names for these
/// arguments.
#[verifier::external_body]
fn verify_sha384(public_key: &[u8], data: &[u8], signature: &[u8]) -> (valid: bool)
    ensures
        valid == rsa_sha384_verifies(public_key@, data@, signature@),
{
    let Ok(key) = RsaPublicKey::from_pkcs1_der(public_key) else {
        return false;
    };
    let Ok(signature) = Signature::try_from(signature) else {
        return false;
    };
    VerifyingKey::<Sha384>::new(key).verify(data, &signature).is_ok()
}

/// `SigningKey::<Sha384>::new` and `try_sign_with_rng` of `rsa`, on the
/// thread's random generator: a PKCS#1 v1.5 signature over the SHA-384
/// digest of `data`.
///
/// Trusted: the random generator blinds the computation, and for a key
/// whose factors are not prime the outcome can depend on what it gives, so
/// the signature has no name. Of every signature that comes back this much
/// holds: it is as long as the modulus of the key, in whole bytes; and where
/// the modulus has no more than [`MAX_MODULUS_BITS`] bits, the public half of
/// the key, as [`rsa_public_key`] names it, verifies the signature over
/// `data`, because the signer checks its result against the public key
/// before it returns it. The call does not return where the system has no
/// random source.
#[verifier::external_body]
fn sign_sha384(document: &[u8], data: &[u8]) -> (r: Result<Vec<u8>, signature::Error>)
    ensures
        r matches Ok(bytes) ==> {
            &&& is_signature_length(document@, bytes@.len())
            &&& is_verifiable(document@) ==> (rsa_public_key(document@) matches Some(public_key)
                && rsa_sha384_verifies(public_key, data@, bytes@))
        },
{
    let key = RsaPrivateKey::from_pkcs8_der(document).map_err(|_| signature::Error::new())?;
    let key = SigningKey::<Sha384>::new(key);
    Ok(key.try_sign_with_rng(&mut rand::thread_rng(), data)?.to_vec())
}

/// Whether the RSA public key `public_key`, a DER `RSAPublicKey`, verifies
/// `signature` as a PKCS#1 v1.5 signature over the SHA-512 digest of `data`.
/// It does not where `public_key` is no such key, or one with a modulus of
/// more than [`MAX_MODULUS_BITS`] bits.
pub uninterp spec fn rsa_sha512_verifies(
    public_key: Seq<u8>,
    data: Seq<u8>,
    signature: Seq<u8>,
) -> bool;

/// `RsaPublicKey::from_pkcs1_der`, `VerifyingKey::<Sha512>::new`,
/// `Signature::try_from` and `VerifyingKey::verify` of `rsa`.
///
/// Trusted: what comes back is what [`rsa_sha512_verifies`] names for these
/// arguments.
#[verifier::external_body]
fn verify_sha512(public_key: &[u8], data: &[u8], signature: &[u8]) -> (valid: bool)
    ensures
        valid == rsa_sha512_verifies(public_key@, data@, signature@),
{
    let Ok(key) = RsaPublicKey::from_pkcs1_der(public_key) else {
        return false;
    };
    let Ok(signature) = Signature::try_from(signature) else {
        return false;
    };
    VerifyingKey::<Sha512>::new(key).verify(data, &signature).is_ok()
}

/// `SigningKey::<Sha512>::new` and `try_sign_with_rng` of `rsa`, on the
/// thread's random generator: a PKCS#1 v1.5 signature over the SHA-512
/// digest of `data`.
///
/// Trusted: the random generator blinds the computation, and for a key
/// whose factors are not prime the outcome can depend on what it gives, so
/// the signature has no name. Of every signature that comes back this much
/// holds: it is as long as the modulus of the key, in whole bytes; and where
/// the modulus has no more than [`MAX_MODULUS_BITS`] bits, the public half of
/// the key, as [`rsa_public_key`] names it, verifies the signature over
/// `data`, because the signer checks its result against the public key
/// before it returns it. The call does not return where the system has no
/// random source.
#[verifier::external_body]
fn sign_sha512(document: &[u8], data: &[u8]) -> (r: Result<Vec<u8>, signature::Error>)
    ensures
        r matches Ok(bytes) ==> {
            &&& is_signature_length(document@, bytes@.len())
            &&& is_verifiable(document@) ==> (rsa_public_key(document@) matches Some(public_key)
                && rsa_sha512_verifies(public_key, data@, bytes@))
        },
{
    let key = RsaPrivateKey::from_pkcs8_der(document).map_err(|_| signature::Error::new())?;
    let key = SigningKey::<Sha512>::new(key);
    Ok(key.try_sign_with_rng(&mut rand::thread_rng(), data)?.to_vec())
}

/// The size of an RSA key.
#[derive(Clone, Copy, Debug, PartialEq, Eq, Structural)]
pub enum RsaKeySize {
    /// 2048 bits.
    Bits2048,
    /// 4096 bits.
    Bits4096,
}

impl RsaKeySize {
    /// The size in bits.
    pub open spec fn bits_spec(self) -> usize {
        match self {
            RsaKeySize::Bits2048 => 2048,
            RsaKeySize::Bits4096 => 4096,
        }
    }

    /// The size in bits.
    pub fn bits(self) -> (bits: usize)
        ensures
            bits == self.bits_spec(),
    {
        match self {
            RsaKeySize::Bits2048 => 2048,
            RsaKeySize::Bits4096 => 4096,
        }
    }
}

/// The digest an RSA signature is made over.
#[derive(Clone, Copy, Debug, PartialEq, Eq, Structural)]
pub enum RsaDigest {
    /// SHA-256.
    Sha256,
    /// SHA-384.
    Sha384,
    /// SHA-512.
    Sha512,
}

impl RsaDigest {
    /// Whether the public key `public_key`, a DER `RSAPublicKey`, verifies
    /// `signature` as a PKCS#1 v1.5 signature over this digest of `data`.
    pub open spec fn verifies_spec(
        self,
        public_key: Seq<u8>,
        data: Seq<u8>,
        signature: Seq<u8>,
    ) -> bool {
        match self {
            RsaDigest::Sha256 => rsa_sha256_verifies(public_key, data, signature),
            RsaDigest::Sha384 => rsa_sha384_verifies(public_key, data, signature),
            RsaDigest::Sha512 => rsa_sha512_verifies(public_key, data, signature),
        }
    }

    /// Whether the public key `public_key`, a DER `RSAPublicKey`, verifies
    /// `signature` as a PKCS#1 v1.5 signature over this digest of `data`.
    pub fn verify(self, public_key: &[u8], data: &[u8], signature: &[u8]) -> (valid: bool)
        ensures
            valid == self.verifies_spec(public_key@, data@, signature@),
    {
        match self {
            RsaDigest::Sha256 => verify_sha256(public_key, data, signature),
            RsaDigest::Sha384 => verify_sha384(public_key, data, signature),
            RsaDigest::Sha512 => verify_sha512(public_key, data, signature),
        }
    }

    /// The algorithm of a signature over this digest: the digest
    /// `WithRSAEncryption`, with the parameter `NULL`.
    pub open spec fn signature_algorithm_spec(self) -> AlgorithmIdentifier {
        AlgorithmIdentifier {
            oid: match self {
                RsaDigest::Sha256 => Oid::Sha256WithRsaEncryption,
                RsaDigest::Sha384 => Oid::Sha384WithRsaEncryption,
                RsaDigest::Sha512 => Oid::Sha512WithRsaEncryption,
            },
            parameters: AlgorithmParameters::Null,
        }
    }

    /// The algorithm of a signature over this digest.
    pub fn signature_algorithm(self) -> (algorithm: AlgorithmIdentifier)
        ensures
            algorithm == self.signature_algorithm_spec(),
    {
        let oid = match self {
            RsaDigest::Sha256 => Oid::Sha256WithRsaEncryption,
            RsaDigest::Sha384 => Oid::Sha384WithRsaEncryption,
            RsaDigest::Sha512 => Oid::Sha512WithRsaEncryption,
        };
        AlgorithmIdentifier { oid, parameters: AlgorithmParameters::Null }
    }
}

/// The algorithm of an RSA public key: `rsaEncryption` with the parameter `NULL`.
pub open spec fn rsa_algorithm() -> AlgorithmIdentifier {
    AlgorithmIdentifier { oid: Oid::RsaEncryption, parameters: AlgorithmParameters::Null }
}

/// RSA with keys of one size and signatures over one digest.
#[derive(Clone, Copy, Debug, PartialEq, Eq, Structural)]
pub struct Rsa {
    /// The size of the keys.
    pub size: RsaKeySize,
    /// The digest of the signatures.
    pub digest: RsaDigest,
}

/// An RSA private key, and the digest it signs over. The bytes of the key
/// are erased when it is dropped.
pub struct RsaKey {
    digest: RsaDigest,
    document: pkcs8::SecretDocument,
}

impl SignatureStrategy for Rsa {
    type Key = RsaKey;

    open spec fn algorithm_spec(&self) -> AlgorithmIdentifier {
        rsa_algorithm()
    }

    open spec fn signature_algorithm_spec(&self) -> AlgorithmIdentifier {
        self.digest.signature_algorithm_spec()
    }

    fn algorithm_identifier(&self) -> (algorithm: AlgorithmIdentifier) {
        AlgorithmIdentifier { oid: Oid::RsaEncryption, parameters: AlgorithmParameters::Null }
    }

    fn signature_algorithm_identifier(&self) -> (algorithm: AlgorithmIdentifier) {
        self.digest.signature_algorithm()
    }

    /// Makes a new private key of the scheme's size, to sign over the
    /// scheme's digest. A key is handed out only once its public half has
    /// been derived from it.
    fn generate_key(&self) -> (r: Result<RsaKey, GenError>)
        ensures
            r matches Ok(key) ==> key.digest_spec() == self.digest && key.bits_spec() == Some(
                self.size.bits_spec(),
            ),
    {
        let document = match generate_document(self.size.bits()) {
            Ok(document) => document,
            Err(_) => return Err(GenError::Crypto),
        };
        match public_key(secret_bytes(&document)) {
            Ok(_) => Ok(RsaKey { digest: self.digest, document }),
            Err(_) => Err(GenError::Crypto),
        }
    }
}

impl RsaKey {
    /// The digest the key signs over.
    pub closed spec fn digest_spec(&self) -> RsaDigest {
        self.digest
    }

    /// The digest the key signs over.
    pub fn digest(&self) -> (digest: RsaDigest)
        ensures
            digest == self.digest_spec(),
    {
        self.digest
    }

    /// The bits of the key's modulus. `None` where the key's document holds
    /// no RSA key.
    pub open spec fn bits_spec(&self) -> Option<usize> {
        rsa_modulus_bits(self.document_spec())
    }

    /// The bits of the key's modulus. Fails with [`GenError::Encoding`]
    /// where the key's document holds no RSA key.
    pub fn bits(&self) -> (r: Result<usize, GenError>)
        ensures
            match r {
                Ok(bits) => self.bits_spec() == Some(bits),
                Err(e) => e == GenError::Encoding && self.bits_spec() is None,
            },
    {
        match modulus_bits(secret_bytes(&self.document)) {
            Ok(bits) => Ok(bits),
            Err(_) => Err(GenError::Encoding),
        }
    }

    /// The key that the PKCS#8 document `document` holds, to sign over
    /// `digest`. Fails with [`GenError::Encoding`] where the bytes are no
    /// DER document at all; whether the document holds an RSA key shows
    /// when the key is used.
    pub fn from_document(digest: RsaDigest, document: Vec<u8>) -> (r: Result<RsaKey, GenError>)
        ensures
            match r {
                Ok(key) => {
                    &&& is_document(document@)
                    &&& key.digest_spec() == digest
                    &&& key.document_spec() == document@
                },
                Err(e) => e == GenError::Encoding && !is_document(document@),
            },
    {
        match read_document(document) {
            Ok(document) => Ok(RsaKey { digest, document }),
            Err(_) => Err(GenError::Encoding),
        }
    }
}

impl PrivateKey for RsaKey {
    closed spec fn document_spec(&self) -> Seq<u8> {
        secret_document_bytes(self.document)
    }

    open spec fn algorithm_spec(&self) -> AlgorithmIdentifier {
        rsa_algorithm()
    }

    open spec fn signature_algorithm_spec(&self) -> AlgorithmIdentifier {
        self.digest_spec().signature_algorithm_spec()
    }

    open spec fn public_key_spec(&self) -> Option<Seq<u8>> {
        rsa_public_key(self.document_spec())
    }

    /// What holds of every signature of the key over `data`: the modulus of
    /// the key has no more than [`MAX_MODULUS_BITS`] bits; the signature is
    /// as long as the modulus, in whole bytes; and the public half of the
    /// key verifies it as a PKCS#1 v1.5 signature over the key's digest of
    /// `data`.
    open spec fn signature_spec(&self, data: Seq<u8>, signature: Seq<u8>) -> bool {
        &&& is_verifiable(self.document_spec())
        &&& is_signature_length(self.document_spec(), signature.len())
        &&& self.public_key_spec() matches Some(public_key) && self.digest_spec().verifies_spec(
            public_key,
            data,
            signature,
        )
    }

    /// Nothing is known where signing fails: the signer blinds with a
    /// random factor, and whether it fails can depend on it.
    open spec fn failure_spec(&self, data: Seq<u8>) -> bool {
        true
    }

    open spec fn verifies_spec(
        &self,
        public_key: Seq<u8>,
        data: Seq<u8>,
        signature: Seq<u8>,
    ) -> bool {
        self.digest_spec().verifies_spec(public_key, data, signature)
    }

    fn signature_algorithm(&self) -> (algorithm: AlgorithmIdentifier) {
        self.digest.signature_algorithm()
    }

    fn to_subject_public_key_info(&self) -> (r: Result<SubjectPublicKeyInfo, GenError>) {
        match public_key(secret_bytes(&self.document)) {
            Ok(subject_public_key) => Ok(
                SubjectPublicKeyInfo {
                    algorithm: AlgorithmIdentifier {
                        oid: Oid::RsaEncryption,
                        parameters: AlgorithmParameters::Null,
                    },
                    subject_public_key,
                },
            ),
            Err(_) => Err(GenError::Encoding),
        }
    }

    fn to_pem(&self, line_ending: LineEnding) -> (r: Result<String, GenError>) {
        pkcs8_pem(secret_bytes(&self.document), line_ending)
    }

    /// Signs the key's digest of `data` with PKCS#1 v1.5 padding.
    ///
    /// A key is refused where its document holds no RSA key, or one with a
    /// modulus of more than [`MAX_MODULUS_BITS`] bits: no verifier would
    /// read the public half of such a key.
    fn sign(&self, data: &[u8]) -> (r: Result<Vec<u8>, GenError>)
        ensures
            !is_verifiable(self.document_spec()) ==> r is Err,
    {
        match modulus_bits(secret_bytes(&self.document)) {
            Ok(bits) => {
                if bits > MAX_MODULUS_BITS {
                    return Err(GenError::Crypto);
                }
            },
            Err(_) => {
                return Err(GenError::Crypto);
            },
        }
        let signature = match self.digest {
            RsaDigest::Sha256 => sign_sha256(secret_bytes(&self.document), data),
            RsaDigest::Sha384 => sign_sha384(secret_bytes(&self.document), data),
            RsaDigest::Sha512 => sign_sha512(secret_bytes(&self.document), data),
        };
        match signature {
            Ok(bytes) => Ok(bytes),
            Err(_) => Err(GenError::Crypto),
        }
    }
}

} // verus!
