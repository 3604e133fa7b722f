//! ECDSA over the curves P-256, P-384 and secp256k1.
//!
//! Each curve signs with one digest: P-256 and secp256k1 with SHA-256, P-384
//! with SHA-384.

use vstd::prelude::*;
use elliptic_curve::sec1::ToEncodedPoint;
use pkcs8::{DecodePrivateKey, EncodePrivateKey};
use signature::{RandomizedSigner, Verifier};
use crate::encoding::LineEnding;
use crate::error::GenError;
use crate::oid::Oid;
use crate::scheme::secret::{is_document, read_document, secret_bytes, secret_document_bytes};
use crate::scheme::{pkcs8_pem, PrivateKey, SignatureStrategy};
use crate::x509::{AlgorithmIdentifier, AlgorithmParameters, SubjectPublicKeyInfo};

verus! {

/// The public key of the P-256 private key in the PKCS#8 document
/// `document`, as a SEC1 point, compressed or not. `None` where the document
/// holds no such key.
pub uninterp spec fn p256_public_key(document: Seq<u8>, compress: bool) -> Option<Seq<u8>>;

/// `SecretKey::random` of `elliptic-curve` for P-256, on the thread's random
/// generator, and its `to_pkcs8_der`.
///
/// Trusted: nothing is claimed of the document. The call does not return
/// where the system has no random source.
#[verifier::external_body]
fn p256_generate_document() -> (r: Result<pkcs8::SecretDocument, pkcs8::Error>) {
    p256::SecretKey::random(&mut rand::thread_rng()).to_pkcs8_der()
}

/// `SecretKey::from_pkcs8_der`, `SecretKey::public_key` and
/// `PublicKey::to_encoded_point` of `elliptic-curve` for P-256.
///
/// Trusted: what comes back is what [`p256_public_key`] names for these
/// arguments, and a point has 33 bytes where it is compressed, 65 where
/// it is not.
#[verifier::external_body]
fn p256_public_point(document: &[u8], compress: bool) -> (r: Result<Vec<u8>, pkcs8::Error>)
    ensures
        r matches Ok(point) ==> p256_public_key(document@, compress) == Some(point@)
            && point@.len() == (if compress { 33nat } else { 65nat }),
        r is Err ==> p256_public_key(document@, compress) is None,
{
    let key = p256::SecretKey::from_pkcs8_der(document)?;
    Ok(key.public_key().to_encoded_point(compress).as_bytes().to_vec())
}

/// Whether the P-256 public key `point`, a SEC1 point, verifies `signature`,
/// the bytes of a `der::Signature`, as an ECDSA signature over the SHA-256
/// digest of `data`. It does not where `point` is no point of the curve or
/// `signature` no such signature.
pub uninterp spec fn p256_verifies(point: Seq<u8>, data: Seq<u8>, signature: Seq<u8>) -> bool;

/// `VerifyingKey::from_sec1_bytes`, `der::Signature::from_bytes` and
/// `VerifyingKey::verify` of `ecdsa` for P-256.
///
/// Trusted: what comes back is what [`p256_verifies`] names for these
/// arguments.
#[verifier::external_body]
fn p256_verify(point: &[u8], data: &[u8], signature: &[u8]) -> (valid: bool)
    ensures
        valid == p256_verifies(point@, data@, signature@),
{
    let Ok(key) = p256::ecdsa::VerifyingKey::from_sec1_bytes(point) else {
        return false;
    };
    let Ok(signature) = p256::ecdsa::DerSignature::from_bytes(signature) else {
        return false;
    };
    key.verify(data, &signature).is_ok()
}

/// `SecretKey::from_pkcs8_der` of `elliptic-curve` and
/// `SigningKey::try_sign_with_rng` of `ecdsa` for P-256, on the thread's
/// random generator: the signature over the SHA-256 digest of `data`, as the
/// bytes of a `der::Signature`.
///
/// Trusted: the signature differs from call to call, so it has no name. Of
/// every signature that comes back this much holds: the document was read as
/// a key by the call that [`p256_public_key`] rests on; the signature is one
/// over `data` that the public half of that key verifies, as
/// [`p256_verifies`] names it; and the bytes are a DER `SEQUENCE` that fits
/// the `der::MaxSize` of the curve, 73 bytes. The call does not return
/// where the system has no random source.
#[verifier::external_body]
fn p256_sign(document: &[u8], data: &[u8]) -> (r: Result<Vec<u8>, signature::Error>)
    ensures
        r matches Ok(bytes) ==> {
            &&& p256_public_key(document@, true) matches Some(point) && p256_verifies(
                point,
                data@,
                bytes@,
            )
            &&& 0 < bytes@.len() <= 73
            &&& bytes@[0] == 0x30
        },
{
    let key = p256::SecretKey::from_pkcs8_der(document).map_err(|_| signature::Error::new())?;
    let key = p256::ecdsa::SigningKey::from(key);
    let signature: p256::ecdsa::DerSignature = key.try_sign_with_rng(&mut rand::thread_rng(), data)?;
    Ok(signature.as_bytes().to_vec())
}

/// The public key of the P-384 private key in the PKCS#8 document
/// `document`, as a SEC1 point, compressed or not. `None` where the document
/// holds no such key.
pub uninterp spec fn p384_public_key(document: Seq<u8>, compress: bool) -> Option<Seq<u8>>;

/// `SecretKey::random` of `elliptic-curve` for P-384, on the thread's random
/// generator, and its `to_pkcs8_der`.
///
/// Trusted: nothing is claimed of the document. The call does not return
/// where the system has no random source.
#[verifier::external_body]
fn p384_generate_document() -> (r: Result<pkcs8::SecretDocument, pkcs8::Error>) {
    p384::SecretKey::random(&mut rand::thread_rng()).to_pkcs8_der()
}

/// `SecretKey::from_pkcs8_der`, `SecretKey::public_key` and
/// `PublicKey::to_encoded_point` of `elliptic-curve` for P-384.
///
/// Trusted: what comes back is what [`p384_public_key`] names for these
/// arguments, and a point has 49 bytes where it is compressed, 97 where
/// it is not.
#[verifier::external_body]
fn p384_public_point(document: &[u8], compress: bool) -> (r: Result<Vec<u8>, pkcs8::Error>)
    ensures
        r matches Ok(point) ==> p384_public_key(document@, compress) == Some(point@)
            && point@.len() == (if compress { 49nat } else { 97nat }),
        r is Err ==> p384_public_key(document@, compress) is None,
{
    let key = p384::SecretKey::from_pkcs8_der(document)?;
    Ok(key.public_key().to_encoded_point(compress).as_bytes().to_vec())
}

/// Whether the P-384 public key `point`, a SEC1 point, verifies `signature`,
/// the bytes of a `der::Signature`, as an ECDSA signature over the SHA-384
/// digest of `data`. It does not where `point` is no point of the curve or
/// `signature` no such signature.
pub uninterp spec fn p384_verifies(point: Seq<u8>, data: Seq<u8>, signature: Seq<u8>) -> bool;

/// `VerifyingKey::from_sec1_bytes`, `der::Signature::from_bytes` and
/// `VerifyingKey::verify` of `ecdsa` for P-384.
///
/// Trusted: what comes back is what [`p384_verifies`] names for these
/// arguments.
#[verifier::external_body]
fn p384_verify(point: &[u8], data: &[u8], signature: &[u8]) -> (valid: bool)
    ensures
        valid == p384_verifies(point@, data@, signature@),
{
    let Ok(key) = p384::ecdsa::VerifyingKey::from_sec1_bytes(point) else {
        return false;
    };
    let Ok(signature) = p384::ecdsa::DerSignature::from_bytes(signature) else {
        return false;
    };
    key.verify(data, &signature).is_ok()
}

/// `SecretKey::from_pkcs8_der` of `elliptic-curve` and
/// `SigningKey::try_sign_with_rng` of `ecdsa` for P-384, on the thread's
/// random generator: the signature over the SHA-384 digest of `data`, as the
/// bytes of a `der::Signature`.
///
/// Trusted: the signature differs from call to call, so it has no name. Of
/// every signature that comes back this much holds: the document was read as
/// a key by the call that [`p384_public_key`] rests on; the signature is one
/// over `data` that the public half of that key verifies, as
/// [`p384_verifies`] names it; and the bytes are a DER `SEQUENCE` that fits
/// the `der::MaxSize` of the curve, 105 bytes. The call does not return
/// where the system has no random source.
#[verifier::external_body]
fn p384_sign(document: &[u8], data: &[u8]) -> (r: Result<Vec<u8>, signature::Error>)
    ensures
        r matches Ok(bytes) ==> {
            &&& p384_public_key(document@, true) matches Some(point) && p384_verifies(
                point,
                data@,
                bytes@,
            )
            &&& 0 < bytes@.len() <= 105
            &&& bytes@[0] == 0x30
        },
{
    let key = p384::SecretKey::from_pkcs8_der(document).map_err(|_| signature::Error::new())?;
    let key = p384::ecdsa::SigningKey::from(key);
    let signature: p384::ecdsa::DerSignature = key.try_sign_with_rng(&mut rand::thread_rng(), data)?;
    Ok(signature.as_bytes().to_vec())
}

/// The public key of the secp256k1 private key in the PKCS#8 document
/// `document`, as a SEC1 point, compressed or not. `None` where the document
/// holds no such key.
pub uninterp spec fn k256_public_key(document: Seq<u8>, compress: bool) -> Option<Seq<u8>>;

/// `SecretKey::random` of `elliptic-curve` for secp256k1, on the thread's random
/// generator, and its `to_pkcs8_der`.
///
/// Trusted: nothing is claimed of the document. The call does not return
/// where the system has no random source.
#[verifier::external_body]
fn k256_generate_document() -> (r: Result<pkcs8::SecretDocument, pkcs8::Error>) {
    k256::SecretKey::random(&mut rand::thread_rng()).to_pkcs8_der()
}

/// `SecretKey::from_pkcs8_der`, `SecretKey::public_key` and
/// `PublicKey::to_encoded_point` of `elliptic-curve` for secp256k1.
///
/// Trusted: what comes back is what [`k256_public_key`] names for these
/// arguments, and a point has 33 bytes where it is compressed, 65 where
/// it is not.
#[verifier::external_body]
fn k256_public_point(document: &[u8], compress: bool) -> (r: Result<Vec<u8>, pkcs8::Error>)
    ensures
        r matches Ok(point) ==> k256_public_key(document@, compress) == Some(point@)
            && point@.len() == (if compress { 33nat } else { 65nat }),
        r is Err ==> k256_public_key(document@, compress) is None,
{
    let key = k256::SecretKey::from_pkcs8_der(document)?;
    Ok(key.public_key().to_encoded_point(compress).as_bytes().to_vec())
}

/// Whether the secp256k1 public key `point`, a SEC1 point, verifies `signature`,
/// the bytes of a `der::Signature`, as an ECDSA signature over the SHA-256
/// digest of `data`. It does not where `point` is no point of the curve or
/// `signature` no such signature.
pub uninterp spec fn k256_verifies(point: Seq<u8>, data: Seq<u8>, signature: Seq<u8>) -> bool;

/// `VerifyingKey::from_sec1_bytes`, `der::Signature::from_bytes` and
/// `VerifyingKey::verify` of `ecdsa` for secp256k1.
///
/// Trusted: what comes back is what [`k256_verifies`] names for these
/// arguments.
#[verifier::external_body]
fn k256_verify(point: &[u8], data: &[u8], signature: &[u8]) -> (valid: bool)
    ensures
        valid == k256_verifies(point@, data@, signature@),
{
    let Ok(key) = k256::ecdsa::VerifyingKey::from_sec1_bytes(point) else {
        return false;
    };
    let Ok(signature) = k256::ecdsa::DerSignature::from_bytes(signature) else {
        return false;
    };
    key.verify(data, &signature).is_ok()
}

/// `SecretKey::from_pkcs8_der` of `elliptic-curve` and
/// `SigningKey::try_sign_with_rng` of `ecdsa` for secp256k1, on the thread's
/// random generator: the signature over the SHA-256 digest of `data`, as the
/// bytes of a `der::Signature`.
///
/// Trusted: the signature differs from call to call, so it has no name. Of
/// every signature that comes back this much holds: the document was read as
/// a key by the call that [`k256_public_key`] rests on; the signature is one
/// over `data` that the public half of that key verifies, as
/// [`k256_verifies`] names it; and the bytes are a DER `SEQUENCE` that fits
/// the `der::MaxSize` of the curve, 73 bytes. The call does not return
/// where the system has no random source.
#[verifier::external_body]
fn k256_sign(document: &[u8], data: &[u8]) -> (r: Result<Vec<u8>, signature::Error>)
    ensures
        r matches Ok(bytes) ==> {
            &&& k256_public_key(document@, true) matches Some(point) && k256_verifies(
                point,
                data@,
                bytes@,
            )
            &&& 0 < bytes@.len() <= 73
            &&& bytes@[0] == 0x30
        },
{
    let key = k256::SecretKey::from_pkcs8_der(document).map_err(|_| signature::Error::new())?;
    let key = k256::ecdsa::SigningKey::from(key);
    let signature: k256::ecdsa::DerSignature = key.try_sign_with_rng(&mut rand::thread_rng(), data)?;
    Ok(signature.as_bytes().to_vec())
}

/// A curve that ECDSA is offered on.
#[derive(Clone, Copy, Debug, PartialEq, Eq, Structural)]
pub enum Curve {
    /// NIST P-256, with SHA-256.
    P256,
    /// NIST P-384, with SHA-384.
    P384,
    /// secp256k1, with SHA-256.
    K256,
}

impl Curve {
    /// The identifier of the curve.
    pub open spec fn oid_spec(self) -> Oid {
        match self {
            Curve::P256 => Oid::Secp256r1,
            Curve::P384 => Oid::Secp384r1,
            Curve::K256 => Oid::Secp256k1,
        }
    }

    /// The identifier of the curve.
    pub fn oid(self) -> (oid: Oid)
        ensures
            oid == self.oid_spec(),
    {
        match self {
            Curve::P256 => Oid::Secp256r1,
            Curve::P384 => Oid::Secp384r1,
            Curve::K256 => Oid::Secp256k1,
        }
    }

    /// The algorithm of a public key on the curve: `id-ecPublicKey` with the
    /// curve as its parameter.
    pub open spec fn algorithm_spec(self) -> AlgorithmIdentifier {
        AlgorithmIdentifier {
            oid: Oid::EcPublicKey,
            parameters: AlgorithmParameters::NamedCurve(self.oid_spec()),
        }
    }

    /// The algorithm of a public key on the curve.
    pub fn algorithm(self) -> (algorithm: AlgorithmIdentifier)
        ensures
            algorithm == self.algorithm_spec(),
    {
        AlgorithmIdentifier {
            oid: Oid::EcPublicKey,
            parameters: AlgorithmParameters::NamedCurve(self.oid()),
        }
    }

    /// The algorithm of a signature on the curve: ECDSA with the curve's
    /// digest, without parameters.
    pub open spec fn signature_algorithm_spec(self) -> AlgorithmIdentifier {
        AlgorithmIdentifier {
            oid: match self {
                Curve::P256 => Oid::EcdsaWithSha256,
                Curve::P384 => Oid::EcdsaWithSha384,
                Curve::K256 => Oid::EcdsaWithSha256,
            },
            parameters: AlgorithmParameters::Absent,
        }
    }

    /// The algorithm of a signature on the curve.
    pub fn signature_algorithm(self) -> (algorithm: AlgorithmIdentifier)
        ensures
            algorithm == self.signature_algorithm_spec(),
    {
        let oid = match self {
            Curve::P256 => Oid::EcdsaWithSha256,
            Curve::P384 => Oid::EcdsaWithSha384,
            Curve::K256 => Oid::EcdsaWithSha256,
        };
        AlgorithmIdentifier { oid, parameters: AlgorithmParameters::Absent }
    }

    /// The most bytes that a signature on the curve has: twice the size of
    /// a number of the curve's field, and nine for the DER framing.
    pub open spec fn max_signature_len(self) -> nat {
        match self {
            Curve::P256 => 73,
            Curve::P384 => 105,
            Curve::K256 => 73,
        }
    }

    /// The public key of the private key in the PKCS#8 document `document`,
    /// as a compressed SEC1 point; `None` where the document holds no key on
    /// the curve.
    pub open spec fn public_key_spec(self, document: Seq<u8>) -> Option<Seq<u8>> {
        match self {
            Curve::P256 => p256_public_key(document, true),
            Curve::P384 => p384_public_key(document, true),
            Curve::K256 => k256_public_key(document, true),
        }
    }

    /// The bytes of a compressed point of the curve: one for the sign, and
    /// those of a number of the curve's field.
    pub open spec fn point_len(self) -> nat {
        match self {
            Curve::P256 => 33,
            Curve::P384 => 49,
            Curve::K256 => 33,
        }
    }

    /// The public key of the private key in the PKCS#8 document `document`,
    /// as a compressed SEC1 point.
    pub fn public_key(self, document: &[u8]) -> (point: Option<Vec<u8>>)
        ensures
            match point {
                Some(point) => self.public_key_spec(document@) == Some(point@) && point@.len()
                    == self.point_len(),
                None => self.public_key_spec(document@) is None,
            },
    {
        let point = match self {
            Curve::P256 => p256_public_point(document, true),
            Curve::P384 => p384_public_point(document, true),
            Curve::K256 => k256_public_point(document, true),
        };
        match point {
            Ok(point) => Some(point),
            Err(_) => None,
        }
    }

    /// Whether the public key `point` of the curve, a SEC1 point, verifies
    /// `signature`, in DER, as a signature over the curve's digest of `data`.
    pub open spec fn verifies_spec(self, point: Seq<u8>, data: Seq<u8>, signature: Seq<u8>) -> bool {
        match self {
            Curve::P256 => p256_verifies(point, data, signature),
            Curve::P384 => p384_verifies(point, data, signature),
            Curve::K256 => k256_verifies(point, data, signature),
        }
    }

    /// Whether the public key `point` of the curve, a SEC1 point, verifies
    /// `signature`, in DER, as a signature over the curve's digest of `data`.
    pub fn verify(self, point: &[u8], data: &[u8], signature: &[u8]) -> (valid: bool)
        ensures
            valid == self.verifies_spec(point@, data@, signature@),
    {
        match self {
            Curve::P256 => p256_verify(point, data, signature),
            Curve::P384 => p384_verify(point, data, signature),
            Curve::K256 => k256_verify(point, data, signature),
        }
    }
}

/// ECDSA on one curve.
#[derive(Clone, Copy, Debug, PartialEq, Eq, Structural)]
pub struct Ecdsa {
    /// The curve.
    pub curve: Curve,
}

/// An ECDSA private key. Its bytes are erased when the key is dropped.
pub struct EcdsaKey {
    curve: Curve,
    document: pkcs8::SecretDocument,
}

impl SignatureStrategy for Ecdsa {
    type Key = EcdsaKey;

    open spec fn algorithm_spec(&self) -> AlgorithmIdentifier {
        self.curve.algorithm_spec()
    }

    open spec fn signature_algorithm_spec(&self) -> AlgorithmIdentifier {
        self.curve.signature_algorithm_spec()
    }

    fn algorithm_identifier(&self) -> (algorithm: AlgorithmIdentifier) {
        self.curve.algorithm()
    }

    fn signature_algorithm_identifier(&self) -> (algorithm: AlgorithmIdentifier) {
        self.curve.signature_algorithm()
    }

    /// Makes a new private key on the scheme's curve. A key is handed out
    /// only once its public half on that curve has been derived from it.
    fn generate_key(&self) -> (r: Result<EcdsaKey, GenError>)
        ensures
            r matches Ok(key) ==> key.curve_spec() == self.curve,
    {
        let document = match self.curve {
            Curve::P256 => p256_generate_document(),
            Curve::P384 => p384_generate_document(),
            Curve::K256 => k256_generate_document(),
        };
        let document = match document {
            Ok(document) => document,
            Err(_) => return Err(GenError::Crypto),
        };
        match self.curve.public_key(secret_bytes(&document)) {
            Some(_) => Ok(EcdsaKey { curve: self.curve, document }),
            None => Err(GenError::Crypto),
        }
    }
}

impl EcdsaKey {
    /// The curve of the key.
    pub closed spec fn curve_spec(&self) -> Curve {
        self.curve
    }

    /// The curve of the key.
    pub fn curve(&self) -> (curve: Curve)
        ensures
            curve == self.curve_spec(),
    {
        self.curve
    }

    /// The key on `curve` that the PKCS#8 document `document` holds. Fails
    /// with [`GenError::Encoding`] where the bytes are no DER document at
    /// all; whether the document holds a key on the curve shows when the
    /// key is used.
    pub fn from_document(curve: Curve, document: Vec<u8>) -> (r: Result<EcdsaKey, GenError>)
        ensures
            match r {
                Ok(key) => {
                    &&& is_document(document@)
                    &&& key.curve_spec() == curve
                    &&& key.document_spec() == document@
                },
                Err(e) => e == GenError::Encoding && !is_document(document@),
            },
    {
        match read_document(document) {
            Ok(document) => Ok(EcdsaKey { curve, document }),
            Err(_) => Err(GenError::Encoding),
        }
    }
}

impl PrivateKey for EcdsaKey {
    closed spec fn document_spec(&self) -> Seq<u8> {
        secret_document_bytes(self.document)
    }

    open spec fn algorithm_spec(&self) -> AlgorithmIdentifier {
        self.curve_spec().algorithm_spec()
    }

    open spec fn signature_algorithm_spec(&self) -> AlgorithmIdentifier {
        self.curve_spec().signature_algorithm_spec()
    }

    open spec fn public_key_spec(&self) -> Option<Seq<u8>> {
        self.curve_spec().public_key_spec(self.document_spec())
    }

    /// What holds of every signature of the key over `data`: the key's
    /// document holds a key on its curve, whose public half verifies the
    /// signature over `data`, and the signature is a DER `SEQUENCE` of no
    /// more bytes than the curve allows. Which of these signatures comes
    /// back is for the random source to decide.
    open spec fn signature_spec(&self, data: Seq<u8>, signature: Seq<u8>) -> bool {
        &&& self.public_key_spec() matches Some(point) && self.curve_spec().verifies_spec(
            point,
            data,
            signature,
        )
        &&& 0 < signature.len() <= self.curve_spec().max_signature_len()
        &&& signature[0] == 0x30
    }

    /// Nothing is known where signing fails: each signature is made with
    /// fresh randomness, and whether there is one can depend on it.
    open spec fn failure_spec(&self, data: Seq<u8>) -> bool {
        true
    }

    open spec fn verifies_spec(
        &self,
        public_key: Seq<u8>,
        data: Seq<u8>,
        signature: Seq<u8>,
    ) -> bool {
        self.curve_spec().verifies_spec(public_key, data, signature)
    }

    fn signature_algorithm(&self) -> (algorithm: AlgorithmIdentifier) {
        self.curve.signature_algorithm()
    }

    /// The public half of the key: `id-ecPublicKey` with the curve as its
    /// parameter, and the compressed point.
    fn to_subject_public_key_info(&self) -> (r: Result<SubjectPublicKeyInfo, GenError>)
        ensures
            r matches Ok(info) ==> info.subject_public_key@.len() == self.curve_spec().point_len(),
    {
        match self.curve.public_key(secret_bytes(&self.document)) {
            Some(subject_public_key) => Ok(
                SubjectPublicKeyInfo { algorithm: self.curve.algorithm(), subject_public_key },
            ),
            None => Err(GenError::Encoding),
        }
    }

    fn to_pem(&self, line_ending: LineEnding) -> (r: Result<String, GenError>) {
        pkcs8_pem(secret_bytes(&self.document), line_ending)
    }

    /// Signs the digest of `data` that belongs to the key's curve. The
    /// signature is DER-encoded. Signing fails where the key's document
    /// holds no key on the curve.
    fn sign(&self, data: &[u8]) -> (r: Result<Vec<u8>, GenError>)
        ensures
            self.public_key_spec() is None ==> r == Err::<Vec<u8>, GenError>(GenError::Crypto),
    {
        let signature = match self.curve {
            Curve::P256 => p256_sign(secret_bytes(&self.document), data),
            Curve::P384 => p384_sign(secret_bytes(&self.document), data),
            Curve::K256 => k256_sign(secret_bytes(&self.document), data),
        };
        match signature {
            Ok(bytes) => Ok(bytes),
            Err(_) => Err(GenError::Crypto),
        }
    }
}

} // verus!
