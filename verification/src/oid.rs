//! The object identifiers that appear in a generated certificate.

use vstd::prelude::*;

verus! {

/// An object identifier this library writes into a certificate.
#[derive(Clone, Copy, Debug, PartialEq, Eq, Structural)]
pub enum Oid {
    /// `id-Ed25519`, 1.3.101.112: key and signature algorithm of Ed25519.
    Ed25519,
    /// `id-ecPublicKey`, 1.2.840.10045.2.1: an elliptic curve public key.
    EcPublicKey,
    /// `secp256r1`, 1.2.840.10045.3.1.7: the curve NIST P-256.
    Secp256r1,
    /// `secp384r1`, 1.3.132.0.34: the curve NIST P-384.
    Secp384r1,
    /// `secp256k1`, 1.3.132.0.10.
    Secp256k1,
    /// `ecdsa-with-SHA256`, 1.2.840.10045.4.3.2.
    EcdsaWithSha256,
    /// `ecdsa-with-SHA384`, 1.2.840.10045.4.3.3.
    EcdsaWithSha384,
    /// `rsaEncryption`, 1.2.840.113549.1.1.1: an RSA public key.
    RsaEncryption,
    /// `sha256WithRSAEncryption`, 1.2.840.113549.1.1.11.
    Sha256WithRsaEncryption,
    /// `sha384WithRSAEncryption`, 1.2.840.113549.1.1.12.
    Sha384WithRsaEncryption,
    /// `sha512WithRSAEncryption`, 1.2.840.113549.1.1.13.
    Sha512WithRsaEncryption,
    /// `id-ce-keyUsage`, 2.5.29.15.
    KeyUsage,
    /// `id-ce-subjectAltName`, 2.5.29.17.
    SubjectAltName,
    /// `id-ce-basicConstraints`, 2.5.29.19.
    BasicConstraints,
    /// `commonName`, 2.5.4.3.
    CommonName,
    /// `countryName`, 2.5.4.6.
    Country,
    /// `localityName`, 2.5.4.7.
    Locality,
    /// `stateOrProvinceName`, 2.5.4.8.
    StateOrProvince,
    /// `organizationName`, 2.5.4.10.
    Organization,
    /// `organizationalUnitName`, 2.5.4.11.
    OrganizationalUnit,
}

impl Oid {
    /// The arcs of the identifier, first arc first.
    pub open spec fn arcs_spec(self) -> Seq<u32> {
        match self {
            Oid::Ed25519 => seq![1u32, 3, 101, 112],
            Oid::EcPublicKey => seq![1u32, 2, 840, 10045, 2, 1],
            Oid::Secp256r1 => seq![1u32, 2, 840, 10045, 3, 1, 7],
            Oid::Secp384r1 => seq![1u32, 3, 132, 0, 34],
            Oid::Secp256k1 => seq![1u32, 3, 132, 0, 10],
            Oid::EcdsaWithSha256 => seq![1u32, 2, 840, 10045, 4, 3, 2],
            Oid::EcdsaWithSha384 => seq![1u32, 2, 840, 10045, 4, 3, 3],
            Oid::RsaEncryption => seq![1u32, 2, 840, 113549, 1, 1, 1],
            Oid::Sha256WithRsaEncryption => seq![1u32, 2, 840, 113549, 1, 1, 11],
            Oid::Sha384WithRsaEncryption => seq![1u32, 2, 840, 113549, 1, 1, 12],
            Oid::Sha512WithRsaEncryption => seq![1u32, 2, 840, 113549, 1, 1, 13],
            Oid::KeyUsage => seq![2u32, 5, 29, 15],
            Oid::SubjectAltName => seq![2u32, 5, 29, 17],
            Oid::BasicConstraints => seq![2u32, 5, 29, 19],
            Oid::CommonName => seq![2u32, 5, 4, 3],
            Oid::Country => seq![2u32, 5, 4, 6],
            Oid::Locality => seq![2u32, 5, 4, 7],
            Oid::StateOrProvince => seq![2u32, 5, 4, 8],
            Oid::Organization => seq![2u32, 5, 4, 10],
            Oid::OrganizationalUnit => seq![2u32, 5, 4, 11],
        }
    }

    /// The arcs of the identifier, first arc first.
    pub fn arcs(self) -> (arcs: Vec<u32>)
        ensures
            arcs@ == self.arcs_spec(),
    {
        match self {
            Oid::Ed25519 => vec![1u32, 3, 101, 112],
            Oid::EcPublicKey => vec![1u32, 2, 840, 10045, 2, 1],
            Oid::Secp256r1 => vec![1u32, 2, 840, 10045, 3, 1, 7],
            Oid::Secp384r1 => vec![1u32, 3, 132, 0, 34],
            Oid::Secp256k1 => vec![1u32, 3, 132, 0, 10],
            Oid::EcdsaWithSha256 => vec![1u32, 2, 840, 10045, 4, 3, 2],
            Oid::EcdsaWithSha384 => vec![1u32, 2, 840, 10045, 4, 3, 3],
            Oid::RsaEncryption => vec![1u32, 2, 840, 113549, 1, 1, 1],
            Oid::Sha256WithRsaEncryption => vec![1u32, 2, 840, 113549, 1, 1, 11],
            Oid::Sha384WithRsaEncryption => vec![1u32, 2, 840, 113549, 1, 1, 12],
            Oid::Sha512WithRsaEncryption => vec![1u32, 2, 840, 113549, 1, 1, 13],
            Oid::KeyUsage => vec![2u32, 5, 29, 15],
            Oid::SubjectAltName => vec![2u32, 5, 29, 17],
            Oid::BasicConstraints => vec![2u32, 5, 29, 19],
            Oid::CommonName => vec![2u32, 5, 4, 3],
            Oid::Country => vec![2u32, 5, 4, 6],
            Oid::Locality => vec![2u32, 5, 4, 7],
            Oid::StateOrProvince => vec![2u32, 5, 4, 8],
            Oid::Organization => vec![2u32, 5, 4, 10],
            Oid::OrganizationalUnit => vec![2u32, 5, 4, 11],
        }
    }
}

} // verus!
