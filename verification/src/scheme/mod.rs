//! Signature schemes: what can make a key pair, and what a private key can do.


pub mod ecdsa;
pub mod ed25519;
pub mod rsa;
pub mod secret;
pub mod select;



use vstd::prelude::*;
use crate::encoding::{encode_pem, pem_text, LineEnding};
use crate::error::GenError;
use crate::x509::{AlgorithmIdentifier, SubjectPublicKeyInfo};

verus! {

/// The label of the PEM document that holds a PKCS#8 private key.
pub const PRIVATE_KEY_LABEL: &'static str = "PRIVATE KEY";

/// The PEM document of the PKCS#8 private key `document`; `None` where it has none.
pub open spec fn private_key_pem(document: Seq<u8>, line_ending: LineEnding) -> Option<Seq<char>> {
    pem_text(PRIVATE_KEY_LABEL@, line_ending, document)
}

/// Writes the PKCS#8 private key `document` as a PEM document.
pub fn pkcs8_pem(document: &[u8], line_ending: LineEnding) -> (r: Result<String, GenError>)
    ensures
        match r {
            Ok(text) => private_key_pem(document@, line_ending) == Some(text@),
            Err(e) => e == GenError::Encoding && private_key_pem(document@, line_ending) is None,
        },
{
    match encode_pem(PRIVATE_KEY_LABEL, line_ending, document) {
        Ok(text) => Ok(text),
        Err(_) => Err(GenError::Encoding),
    }
}

/// A private key of one signature scheme. It is held as a PKCS#8 document,
/// in a value that erases its bytes when it is dropped.
pub trait PrivateKey {
    /// The key, as a PKCS#8 document.
    spec fn document_spec(&self) -> Seq<u8>;

    /// The algorithm of the public key.
    spec fn algorithm_spec(&self) -> AlgorithmIdentifier;

    /// The algorithm of the signatures the key makes.
    spec fn signature_algorithm_spec(&self) -> AlgorithmIdentifier;

    /// The public key, in the encoding of its algorithm; `None` where the
    /// document holds no key of the scheme.
    spec fn public_key_spec(&self) -> Option<Seq<u8>>;

    /// Whether `signature` can be what [`PrivateKey::sign`] returns for
    /// `data`, as far as the scheme fixes it: a scheme that signs with fresh
    /// randomness fixes which signatures its public key verifies over
    /// `data`, not which of them comes back.
    spec fn signature_spec(&self, data: Seq<u8>, signature: Seq<u8>) -> bool;

    /// What is known of `data` where [`PrivateKey::sign`] fails on it. A
    /// scheme whose signatures are fixed by the key and the data says that
    /// the key has no signature for `data`; a scheme that signs with fresh
    /// randomness says nothing.
    spec fn failure_spec(&self, data: Seq<u8>) -> bool;

    /// Whether the public key `public_key`, in the encoding of the key's
    /// algorithm, verifies `signature` as a signature of the key's scheme
    /// over `data`.
    spec fn verifies_spec(&self, public_key: Seq<u8>, data: Seq<u8>, signature: Seq<u8>) -> bool;

    /// The algorithm of the signatures the key makes.
    fn signature_algorithm(&self) -> (algorithm: AlgorithmIdentifier)
        ensures
            algorithm == self.signature_algorithm_spec(),
    ;

    /// The public half of the key, with its algorithm.
    fn to_subject_public_key_info(&self) -> (r: Result<SubjectPublicKeyInfo, GenError>)
        ensures
            match r {
                Ok(info) => info.algorithm == self.algorithm_spec() && self.public_key_spec()
                    == Some(info.subject_public_key@),
                Err(e) => e == GenError::Encoding && self.public_key_spec() is None,
            },
    ;

    /// The key as a PEM document of a PKCS#8 private key.
    fn to_pem(&self, line_ending: LineEnding) -> (r: Result<String, GenError>)
        ensures
            match r {
                Ok(text) => private_key_pem(self.document_spec(), line_ending) == Some(text@),
                Err(e) => e == GenError::Encoding && private_key_pem(
                    self.document_spec(),
                    line_ending,
                ) is None,
            },
    ;

    /// Signs `data`. The public half of the key verifies the signature
    /// over `data`. A failure is reported as [`GenError::Crypto`], and
    /// [`PrivateKey::failure_spec`] says what is known of it.
    fn sign(&self, data: &[u8]) -> (r: Result<Vec<u8>, GenError>)
        ensures
            r matches Ok(signature) ==> self.signature_spec(data@, signature@),
            r matches Ok(signature) ==> self.public_key_spec() matches Some(public_key)
                && self.verifies_spec(public_key, data@, signature@),
            r matches Err(e) ==> e == GenError::Crypto && self.failure_spec(data@),
    ;
}

/// A signature scheme: it names its algorithms and makes key pairs.
pub trait SignatureStrategy {
    /// The private keys of the scheme.
    type Key: PrivateKey;

    /// The algorithm of the scheme's public keys.
    spec fn algorithm_spec(&self) -> AlgorithmIdentifier;

    /// The algorithm of the scheme's signatures.
    spec fn signature_algorithm_spec(&self) -> AlgorithmIdentifier;

    /// The algorithm of the scheme's public keys.
    fn algorithm_identifier(&self) -> (algorithm: AlgorithmIdentifier)
        ensures
            algorithm == self.algorithm_spec(),
    ;

    /// The algorithm of the scheme's signatures.
    fn signature_algorithm_identifier(&self) -> (algorithm: AlgorithmIdentifier)
        ensures
            algorithm == self.signature_algorithm_spec(),
    ;

    /// Makes a new private key from the system's random source. The key has
    /// the algorithms of the scheme, and a public half. A failure is reported
    /// as [`GenError::Crypto`].
    fn generate_key(&self) -> (r: Result<Self::Key, GenError>)
        ensures
            match r {
                Ok(key) => key.algorithm_spec() == self.algorithm_spec()
                    && key.signature_algorithm_spec() == self.signature_algorithm_spec()
                    && key.public_key_spec() is Some,
                Err(e) => e == GenError::Crypto,
            },
    ;
}

} // verus!
