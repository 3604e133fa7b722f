//! Ed25519: EdDSA over Curve25519 with SHA-512.

use vstd::prelude::*;
use ed25519_dalek::pkcs8::KeypairBytes;
use ed25519_dalek::{Signer, SigningKey, Verifier, VerifyingKey};
use pkcs8::{DecodePrivateKey, EncodePrivateKey};
use crate::encoding::LineEnding;
use crate::error::GenError;
use crate::oid::Oid;
use crate::scheme::secret::{is_document, read_document, secret_bytes, secret_document_bytes};
use crate::scheme::{pkcs8_pem, PrivateKey, SignatureStrategy};
use crate::x509::{AlgorithmIdentifier, AlgorithmParameters, SubjectPublicKeyInfo};

verus! {

/// The public key of the Ed25519 private key in the PKCS#8 document
/// `document`: 32 bytes. `None` where the document holds no such key.
pub uninterp spec fn ed25519_public_key(document: Seq<u8>) -> Option<Seq<u8>>;

/// The Ed25519 signature over `data` with the private key in the PKCS#8
/// document `document`: 64 bytes. `None` where the document holds no such
/// key.
pub uninterp spec fn ed25519_signature(document: Seq<u8>, data: Seq<u8>) -> Option<Seq<u8>>;

/// `SigningKey::generate` of `ed25519-dalek` on the thread's random generator,
/// and `KeypairBytes::to_pkcs8_der` of `ed25519` on the secret, without the
/// public key.
///
/// Trusted: nothing is claimed of the document. The call does not return
/// where the system has no random source.
#[verifier::external_body]
fn generate_document() -> (r: Result<pkcs8::SecretDocument, pkcs8::Error>) {
    let secret_key = SigningKey::generate(&mut rand::thread_rng()).to_bytes();
    KeypairBytes { secret_key, public_key: None }.to_pkcs8_der()
}

/// `SigningKey::from_pkcs8_der` and `SigningKey::verifying_key` of `ed25519-dalek`.
///
/// Trusted: what comes back is what [`ed25519_public_key`] names for the
/// document, and a public key has 32 bytes.
#[verifier::external_body]
fn public_key(document: &[u8]) -> (r: Result<Vec<u8>, pkcs8::Error>)
    ensures
        r matches Ok(key) ==> ed25519_public_key(document@) == Some(key@) && key@.len() == 32,
        r is Err ==> ed25519_public_key(document@) is None,
{
    Ok(SigningKey::from_pkcs8_der(document)?.verifying_key().to_bytes().to_vec())
}

/// Whether the Ed25519 public key `public_key`, 32 bytes, verifies
/// `signature`, 64 bytes, as a signature over `data`. It does not where
/// either is of another length or no key or signature.
pub uninterp spec fn ed25519_verifies(public_key: Seq<u8>, data: Seq<u8>, signature: Seq<u8>) -> bool;

/// `VerifyingKey::try_from`, `Signature::from_slice` and
/// `VerifyingKey::verify` of `ed25519-dalek`.
///
/// Trusted: what comes back is what [`ed25519_verifies`] names for these
/// arguments.
#[verifier::external_body]
fn verification(public_key: &[u8], data: &[u8], signature: &[u8]) -> (valid: bool)
    ensures
        valid == ed25519_verifies(public_key@, data@, signature@),
{
    let Ok(key) = VerifyingKey::try_from(public_key) else {
        return false;
    };
    let Ok(signature) = ed25519_dalek::Signature::from_slice(signature) else {
        return false;
    };
    key.verify(data, &signature).is_ok()
}

/// `SigningKey::from_pkcs8_der` and `SigningKey::try_sign` of `ed25519-dalek`.
///
/// Trusted: the signature depends on the key and the data alone, what
/// comes back is what [`ed25519_signature`] names for them, a signature has
/// 64 bytes, and the public half of the key, as [`ed25519_public_key`] names
/// it, verifies it over `data`.
#[verifier::external_body]
fn signature(document: &[u8], data: &[u8]) -> (r: Result<Vec<u8>, signature::Error>)
    ensures
        r matches Ok(bytes) ==> {
            &&& ed25519_signature(document@, data@) == Some(bytes@)
            &&& bytes@.len() == 64
            &&& ed25519_public_key(document@) matches Some(public_key) && ed25519_verifies(
                public_key,
                data@,
                bytes@,
            )
        },
        r is Err ==> ed25519_signature(document@, data@) is None,
{
    let key = SigningKey::from_pkcs8_der(document).map_err(|_| signature::Error::new())?;
    Ok(key.try_sign(data)?.to_vec())
}

/// The Ed25519 scheme.
#[derive(Clone, Copy, Debug, PartialEq, Eq, Structural)]
pub struct Ed25519;

impl Ed25519 {
    /// Whether the public key `public_key` verifies `signature` as an
    /// Ed25519 signature over `data`.
    pub fn verify(&self, public_key: &[u8], data: &[u8], signature: &[u8]) -> (valid: bool)
        ensures
            valid == ed25519_verifies(public_key@, data@, signature@),
    {
        verification(public_key, data, signature)
    }
}

impl Default for Ed25519 {
    fn default() -> (scheme: Ed25519)
        ensures
            scheme == Ed25519,
    {
        Ed25519
    }
}

/// The algorithm of Ed25519 keys and signatures: `id-Ed25519` without parameters.
pub open spec fn ed25519_algorithm() -> AlgorithmIdentifier {
    AlgorithmIdentifier { oid: Oid::Ed25519, parameters: AlgorithmParameters::Absent }
}

/// An Ed25519 private key. Its bytes are erased when the key is dropped.
pub struct Ed25519Key {
    document: pkcs8::SecretDocument,
}

impl SignatureStrategy for Ed25519 {
    type Key = Ed25519Key;

    open spec fn algorithm_spec(&self) -> AlgorithmIdentifier {
        ed25519_algorithm()
    }

    open spec fn signature_algorithm_spec(&self) -> AlgorithmIdentifier {
        ed25519_algorithm()
    }

    fn algorithm_identifier(&self) -> (algorithm: AlgorithmIdentifier) {
        AlgorithmIdentifier { oid: Oid::Ed25519, parameters: AlgorithmParameters::Absent }
    }

    fn signature_algorithm_identifier(&self) -> (algorithm: AlgorithmIdentifier) {
        AlgorithmIdentifier { oid: Oid::Ed25519, parameters: AlgorithmParameters::Absent }
    }

    /// Makes a new private key. The key that is returned is a pair: its
    /// document holds a private key whose public half, of 32 bytes, was
    /// derived from it before the key was handed out.
    fn generate_key(&self) -> (r: Result<Ed25519Key, GenError>)
        ensures
            r matches Ok(key) ==> key.public_key_spec() matches Some(public) && public.len() == 32,
    {
        let document = match generate_document() {
            Ok(document) => document,
            Err(_) => return Err(GenError::Crypto),
        };
        match public_key(secret_bytes(&document)) {
            Ok(_) => Ok(Ed25519Key { document }),
            Err(_) => Err(GenError::Crypto),
        }
    }
}

impl Ed25519Key {
    /// The key that the PKCS#8 document `document` holds. Fails with
    /// [`GenError::Encoding`] where the bytes are no DER document at all;
    /// whether the document holds a key shows when the key is used.
    pub fn from_document(document: Vec<u8>) -> (r: Result<Ed25519Key, GenError>)
        ensures
            match r {
                Ok(key) => is_document(document@) && key.document_spec() == document@,
                Err(e) => e == GenError::Encoding && !is_document(document@),
            },
    {
        match read_document(document) {
            Ok(document) => Ok(Ed25519Key { document }),
            Err(_) => Err(GenError::Encoding),
        }
    }
}

impl PrivateKey for Ed25519Key {
    closed spec fn document_spec(&self) -> Seq<u8> {
        secret_document_bytes(self.document)
    }

    open spec fn algorithm_spec(&self) -> AlgorithmIdentifier {
        ed25519_algorithm()
    }

    open spec fn signature_algorithm_spec(&self) -> AlgorithmIdentifier {
        ed25519_algorithm()
    }

    open spec fn public_key_spec(&self) -> Option<Seq<u8>> {
        ed25519_public_key(self.document_spec())
    }

    /// The key has one signature for each data, of 64 bytes.
    open spec fn signature_spec(&self, data: Seq<u8>, signature: Seq<u8>) -> bool {
        ed25519_signature(self.document_spec(), data) == Some(signature) && signature.len() == 64
    }

    /// Signing fails only where the key has no signature for `data`.
    open spec fn failure_spec(&self, data: Seq<u8>) -> bool {
        ed25519_signature(self.document_spec(), data) is None
    }

    open spec fn verifies_spec(
        &self,
        public_key: Seq<u8>,
        data: Seq<u8>,
        signature: Seq<u8>,
    ) -> bool {
        ed25519_verifies(public_key, data, signature)
    }

    fn signature_algorithm(&self) -> (algorithm: AlgorithmIdentifier) {
        AlgorithmIdentifier { oid: Oid::Ed25519, parameters: AlgorithmParameters::Absent }
    }

    /// The public half of the key: `id-Ed25519` without parameters, and the
    /// 32 bytes of the public key as they are.
    fn to_subject_public_key_info(&self) -> (r: Result<SubjectPublicKeyInfo, GenError>)
        ensures
            r matches Ok(info) ==> info.subject_public_key@.len() == 32,
    {
        match public_key(secret_bytes(&self.document)) {
            Ok(subject_public_key) => Ok(
                SubjectPublicKeyInfo {
                    algorithm: AlgorithmIdentifier {
                        oid: Oid::Ed25519,
                        parameters: AlgorithmParameters::Absent,
                    },
                    subject_public_key,
                },
            ),
            Err(_) => Err(GenError::Encoding),
        }
    }

    fn to_pem(&self, line_ending: LineEnding) -> (r: Result<String, GenError>) {
        pkcs8_pem(secret_bytes(&self.document), line_ending)
    }

    /// Signs `data`. The signature is the one that [`ed25519_signature`]
    /// names; there is none where the key's document holds no key.
    fn sign(&self, data: &[u8]) -> (r: Result<Vec<u8>, GenError>) {
        match signature(secret_bytes(&self.document), data) {
            Ok(bytes) => Ok(bytes),
            Err(_) => Err(GenError::Crypto),
        }
    }
}

} // verus!
