//! The schemes on offer, by name, and one type that holds any of them.

use vstd::prelude::*;
use crate::encoding::LineEnding;
use crate::error::GenError;
use crate::scheme::ecdsa::{Curve, Ecdsa, EcdsaKey};
use crate::scheme::ed25519::{Ed25519, Ed25519Key};
use crate::scheme::rsa::{is_verifiable, Rsa, RsaDigest, RsaKey, RsaKeySize};
use crate::scheme::{PrivateKey, SignatureStrategy};
use crate::x509::{AlgorithmIdentifier, SubjectPublicKeyInfo};

verus! {

/// The name of a scheme on offer.
#[derive(Clone, Copy, Debug, PartialEq, Eq, Structural)]
pub enum SchemeName {
    /// EdDSA using Curve25519 with SHA-512.
    Ed25519,
    /// ECDSA using P-256 with SHA-256.
    EcdsaP256,
    /// ECDSA using P-384 with SHA-384.
    EcdsaP384,
    /// ECDSA using secp256k1 with SHA-256.
    EcdsaK256,
    /// RSA using a 2048 bit key with SHA-256.
    Rsa2048WithSha256,
    /// RSA using a 4096 bit key with SHA-256.
    Rsa4096WithSha256,
    /// RSA using a 2048 bit key with SHA-384.
    Rsa2048WithSha384,
    /// RSA using a 4096 bit key with SHA-384.
    Rsa4096WithSha384,
    /// RSA using a 2048 bit key with SHA-512.
    Rsa2048WithSha512,
    /// RSA using a 4096 bit key with SHA-512.
    Rsa4096WithSha512,
}

/// Any one of the schemes on offer.
#[derive(Clone, Copy, Debug, PartialEq, Eq, Structural)]
pub enum SignatureScheme {
    /// Ed25519.
    Ed25519(Ed25519),
    /// ECDSA on one curve.
    Ecdsa(Ecdsa),
    /// RSA with one key size and one digest.
    Rsa(Rsa),
}

/// A private key of any one of the schemes on offer.
pub enum SchemeKey {
    /// An Ed25519 key.
    Ed25519(Ed25519Key),
    /// An ECDSA key.
    Ecdsa(EcdsaKey),
    /// An RSA key.
    Rsa(RsaKey),
}

impl SchemeName {
    /// The scheme of this name.
    pub open spec fn scheme_spec(self) -> SignatureScheme {
        match self {
            SchemeName::Ed25519 => SignatureScheme::Ed25519(Ed25519),
            SchemeName::EcdsaP256 => SignatureScheme::Ecdsa(Ecdsa { curve: Curve::P256 }),
            SchemeName::EcdsaP384 => SignatureScheme::Ecdsa(Ecdsa { curve: Curve::P384 }),
            SchemeName::EcdsaK256 => SignatureScheme::Ecdsa(Ecdsa { curve: Curve::K256 }),
            SchemeName::Rsa2048WithSha256 => SignatureScheme::Rsa(
                Rsa { size: RsaKeySize::Bits2048, digest: RsaDigest::Sha256 },
            ),
            SchemeName::Rsa4096WithSha256 => SignatureScheme::Rsa(
                Rsa { size: RsaKeySize::Bits4096, digest: RsaDigest::Sha256 },
            ),
            SchemeName::Rsa2048WithSha384 => SignatureScheme::Rsa(
                Rsa { size: RsaKeySize::Bits2048, digest: RsaDigest::Sha384 },
            ),
            SchemeName::Rsa4096WithSha384 => SignatureScheme::Rsa(
                Rsa { size: RsaKeySize::Bits4096, digest: RsaDigest::Sha384 },
            ),
            SchemeName::Rsa2048WithSha512 => SignatureScheme::Rsa(
                Rsa { size: RsaKeySize::Bits2048, digest: RsaDigest::Sha512 },
            ),
            SchemeName::Rsa4096WithSha512 => SignatureScheme::Rsa(
                Rsa { size: RsaKeySize::Bits4096, digest: RsaDigest::Sha512 },
            ),
        }
    }

    /// The scheme of this name.
    pub fn into_scheme(&self) -> (scheme: SignatureScheme)
        ensures
            scheme == self.scheme_spec(),
    {
        new_scheme(*self)
    }

    /// What the name says to a reader.
    pub open spec fn description_spec(self) -> Seq<char> {
        match self {
            SchemeName::Ed25519 => "EdDSA using Curve25519 with SHA-512"@,
            SchemeName::EcdsaP256 => "ECDSA using P-256 with SHA-256"@,
            SchemeName::EcdsaP384 => "ECDSA using P-384 with SHA-384"@,
            SchemeName::EcdsaK256 => "ECDSA using K-256 curve with SHA-256"@,
            SchemeName::Rsa2048WithSha256 => "RSA using 2048 bit key with SHA-256"@,
            SchemeName::Rsa4096WithSha256 => "RSA using 4096 bit key with SHA-256"@,
            SchemeName::Rsa2048WithSha384 => "RSA using 2048 bit key with SHA-384"@,
            SchemeName::Rsa4096WithSha384 => "RSA using 4096 bit key with SHA-384"@,
            SchemeName::Rsa2048WithSha512 => "RSA using 2048 bit key with SHA-512"@,
            SchemeName::Rsa4096WithSha512 => "RSA using 4096 bit key with SHA-512"@,
        }
    }

    /// What the name says to a reader.
    pub fn description(self) -> (text: &'static str)
        ensures
            text@ == self.description_spec(),
    {
        match self {
            SchemeName::Ed25519 => "EdDSA using Curve25519 with SHA-512",
            SchemeName::EcdsaP256 => "ECDSA using P-256 with SHA-256",
            SchemeName::EcdsaP384 => "ECDSA using P-384 with SHA-384",
            SchemeName::EcdsaK256 => "ECDSA using K-256 curve with SHA-256",
            SchemeName::Rsa2048WithSha256 => "RSA using 2048 bit key with SHA-256",
            SchemeName::Rsa4096WithSha256 => "RSA using 4096 bit key with SHA-256",
            SchemeName::Rsa2048WithSha384 => "RSA using 2048 bit key with SHA-384",
            SchemeName::Rsa4096WithSha384 => "RSA using 4096 bit key with SHA-384",
            SchemeName::Rsa2048WithSha512 => "RSA using 2048 bit key with SHA-512",
            SchemeName::Rsa4096WithSha512 => "RSA using 4096 bit key with SHA-512",
        }
    }

    /// All names, in the order in which they are offered.
    pub open spec fn all_spec() -> Seq<SchemeName> {
        seq![
            SchemeName::Ed25519,
            SchemeName::EcdsaP256,
            SchemeName::EcdsaP384,
            SchemeName::EcdsaK256,
            SchemeName::Rsa2048WithSha256,
            SchemeName::Rsa4096WithSha256,
            SchemeName::Rsa2048WithSha384,
            SchemeName::Rsa4096WithSha384,
            SchemeName::Rsa2048WithSha512,
            SchemeName::Rsa4096WithSha512,
        ]
    }

    /// All names, in the order in which they are offered.
    pub fn all() -> (names: Vec<SchemeName>)
        ensures
            names@ == SchemeName::all_spec(),
    {
        vec![
            SchemeName::Ed25519,
            SchemeName::EcdsaP256,
            SchemeName::EcdsaP384,
            SchemeName::EcdsaK256,
            SchemeName::Rsa2048WithSha256,
            SchemeName::Rsa4096WithSha256,
            SchemeName::Rsa2048WithSha384,
            SchemeName::Rsa4096WithSha384,
            SchemeName::Rsa2048WithSha512,
            SchemeName::Rsa4096WithSha512,
        ]
    }
}

/// The scheme of the given name.
pub fn new_scheme(name: SchemeName) -> (scheme: SignatureScheme)
    ensures
        scheme == name.scheme_spec(),
{
    match name {
        SchemeName::Ed25519 => SignatureScheme::Ed25519(Ed25519),
        SchemeName::EcdsaP256 => SignatureScheme::Ecdsa(Ecdsa { curve: Curve::P256 }),
        SchemeName::EcdsaP384 => SignatureScheme::Ecdsa(Ecdsa { curve: Curve::P384 }),
        SchemeName::EcdsaK256 => SignatureScheme::Ecdsa(Ecdsa { curve: Curve::K256 }),
        SchemeName::Rsa2048WithSha256 => SignatureScheme::Rsa(
            Rsa { size: RsaKeySize::Bits2048, digest: RsaDigest::Sha256 },
        ),
        SchemeName::Rsa4096WithSha256 => SignatureScheme::Rsa(
            Rsa { size: RsaKeySize::Bits4096, digest: RsaDigest::Sha256 },
        ),
        SchemeName::Rsa2048WithSha384 => SignatureScheme::Rsa(
            Rsa { size: RsaKeySize::Bits2048, digest: RsaDigest::Sha384 },
        ),
        SchemeName::Rsa4096WithSha384 => SignatureScheme::Rsa(
            Rsa { size: RsaKeySize::Bits4096, digest: RsaDigest::Sha384 },
        ),
        SchemeName::Rsa2048WithSha512 => SignatureScheme::Rsa(
            Rsa { size: RsaKeySize::Bits2048, digest: RsaDigest::Sha512 },
        ),
        SchemeName::Rsa4096WithSha512 => SignatureScheme::Rsa(
            Rsa { size: RsaKeySize::Bits4096, digest: RsaDigest::Sha512 },
        ),
    }
}

impl SignatureStrategy for SignatureScheme {
    type Key = SchemeKey;

    open spec fn algorithm_spec(&self) -> AlgorithmIdentifier {
        match self {
            SignatureScheme::Ed25519(scheme) => scheme.algorithm_spec(),
            SignatureScheme::Ecdsa(scheme) => scheme.algorithm_spec(),
            SignatureScheme::Rsa(scheme) => scheme.algorithm_spec(),
        }
    }

    open spec fn signature_algorithm_spec(&self) -> AlgorithmIdentifier {
        match self {
            SignatureScheme::Ed25519(scheme) => scheme.signature_algorithm_spec(),
            SignatureScheme::Ecdsa(scheme) => scheme.signature_algorithm_spec(),
            SignatureScheme::Rsa(scheme) => scheme.signature_algorithm_spec(),
        }
    }

    fn algorithm_identifier(&self) -> (algorithm: AlgorithmIdentifier) {
        match self {
            SignatureScheme::Ed25519(scheme) => scheme.algorithm_identifier(),
            SignatureScheme::Ecdsa(scheme) => scheme.algorithm_identifier(),
            SignatureScheme::Rsa(scheme) => scheme.algorithm_identifier(),
        }
    }

    fn signature_algorithm_identifier(&self) -> (algorithm: AlgorithmIdentifier) {
        match self {
            SignatureScheme::Ed25519(scheme) => scheme.signature_algorithm_identifier(),
            SignatureScheme::Ecdsa(scheme) => scheme.signature_algorithm_identifier(),
            SignatureScheme::Rsa(scheme) => scheme.signature_algorithm_identifier(),
        }
    }

    /// Makes a new private key of the scheme that `self` holds.
    fn generate_key(&self) -> (r: Result<SchemeKey, GenError>)
        ensures
            r matches Ok(key) ==> match self {
                SignatureScheme::Ed25519(_) => key is Ed25519,
                SignatureScheme::Ecdsa(scheme) => key matches SchemeKey::Ecdsa(k)
                    && k.curve_spec() == scheme.curve,
                SignatureScheme::Rsa(scheme) => key matches SchemeKey::Rsa(k) && k.digest_spec()
                    == scheme.digest && k.bits_spec() == Some(scheme.size.bits_spec()),
            },
    {
        match self {
            SignatureScheme::Ed25519(scheme) => Ok(SchemeKey::Ed25519(scheme.generate_key()?)),
            SignatureScheme::Ecdsa(scheme) => Ok(SchemeKey::Ecdsa(scheme.generate_key()?)),
            SignatureScheme::Rsa(scheme) => Ok(SchemeKey::Rsa(scheme.generate_key()?)),
        }
    }
}

impl PrivateKey for SchemeKey {
    open spec fn document_spec(&self) -> Seq<u8> {
        match self {
            SchemeKey::Ed25519(key) => key.document_spec(),
            SchemeKey::Ecdsa(key) => key.document_spec(),
            SchemeKey::Rsa(key) => key.document_spec(),
        }
    }

    open spec fn algorithm_spec(&self) -> AlgorithmIdentifier {
        match self {
            SchemeKey::Ed25519(key) => key.algorithm_spec(),
            SchemeKey::Ecdsa(key) => key.algorithm_spec(),
            SchemeKey::Rsa(key) => key.algorithm_spec(),
        }
    }

    open spec fn signature_algorithm_spec(&self) -> AlgorithmIdentifier {
        match self {
            SchemeKey::Ed25519(key) => key.signature_algorithm_spec(),
            SchemeKey::Ecdsa(key) => key.signature_algorithm_spec(),
            SchemeKey::Rsa(key) => key.signature_algorithm_spec(),
        }
    }

    open spec fn public_key_spec(&self) -> Option<Seq<u8>> {
        match self {
            SchemeKey::Ed25519(key) => key.public_key_spec(),
            SchemeKey::Ecdsa(key) => key.public_key_spec(),
            SchemeKey::Rsa(key) => key.public_key_spec(),
        }
    }

    open spec fn signature_spec(&self, data: Seq<u8>, signature: Seq<u8>) -> bool {
        match self {
            SchemeKey::Ed25519(key) => key.signature_spec(data, signature),
            SchemeKey::Ecdsa(key) => key.signature_spec(data, signature),
            SchemeKey::Rsa(key) => key.signature_spec(data, signature),
        }
    }

    open spec fn failure_spec(&self, data: Seq<u8>) -> bool {
        match self {
            SchemeKey::Ed25519(key) => key.failure_spec(data),
            SchemeKey::Ecdsa(key) => key.failure_spec(data),
            SchemeKey::Rsa(key) => key.failure_spec(data),
        }
    }

    open spec fn verifies_spec(
        &self,
        public_key: Seq<u8>,
        data: Seq<u8>,
        signature: Seq<u8>,
    ) -> bool {
        match self {
            SchemeKey::Ed25519(key) => key.verifies_spec(public_key, data, signature),
            SchemeKey::Ecdsa(key) => key.verifies_spec(public_key, data, signature),
            SchemeKey::Rsa(key) => key.verifies_spec(public_key, data, signature),
        }
    }

    fn signature_algorithm(&self) -> (algorithm: AlgorithmIdentifier) {
        match self {
            SchemeKey::Ed25519(key) => key.signature_algorithm(),
            SchemeKey::Ecdsa(key) => key.signature_algorithm(),
            SchemeKey::Rsa(key) => key.signature_algorithm(),
        }
    }

    fn to_subject_public_key_info(&self) -> (r: Result<SubjectPublicKeyInfo, GenError>) {
        match self {
            SchemeKey::Ed25519(key) => key.to_subject_public_key_info(),
            SchemeKey::Ecdsa(key) => key.to_subject_public_key_info(),
            SchemeKey::Rsa(key) => key.to_subject_public_key_info(),
        }
    }

    fn to_pem(&self, line_ending: LineEnding) -> (r: Result<String, GenError>) {
        match self {
            SchemeKey::Ed25519(key) => key.to_pem(line_ending),
            SchemeKey::Ecdsa(key) => key.to_pem(line_ending),
            SchemeKey::Rsa(key) => key.to_pem(line_ending),
        }
    }

    /// Signs `data` with the key that `self` holds. An ECDSA key is
    /// refused where its document holds no key on its curve, an RSA key
    /// where its document holds no key that a verifier reads.
    fn sign(&self, data: &[u8]) -> (r: Result<Vec<u8>, GenError>)
        ensures
            match self {
                SchemeKey::Ed25519(_) => true,
                SchemeKey::Ecdsa(key) => key.public_key_spec() is None ==> r is Err,
                SchemeKey::Rsa(key) => !is_verifiable(key.document_spec()) ==> r is Err,
            },
    {
        match self {
            SchemeKey::Ed25519(key) => key.sign(data),
            SchemeKey::Ecdsa(key) => key.sign(data),
            SchemeKey::Rsa(key) => key.sign(data),
        }
    }
}

} // verus!
