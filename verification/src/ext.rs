//! The values of the three extensions of a generated certificate.

use vstd::prelude::*;
use crate::alt_name::GeneralName;
use crate::encoding::{
    basic_constraints_der, encode_basic_constraints, encode_key_usage, encode_subject_alt_name,
    key_usage_der, subject_alt_name_der,
};
use crate::error::GenError;
use crate::oid::Oid;
use crate::x509::{all_der_spec, encode_all, encoded, DerEncode, Extension};

verus! {

/// A value that goes into a certificate as an extension.
pub trait ToExtension: DerEncode {
    /// The kind of extension the value is.
    spec fn oid_spec(&self) -> Oid;

    /// The kind of extension the value is.
    fn oid(&self) -> (oid: Oid)
        ensures
            oid == self.oid_spec(),
    ;

    /// The extension that holds the encoded value.
    fn to_extension(&self, critical: bool) -> (r: Result<Extension, GenError>)
        ensures
            match r {
                Ok(extension) => extension.is(self.oid_spec(), critical, self.der_spec()),
                Err(e) => e == GenError::Encoding && self.der_spec() is None,
            },
    {
        let extn_value = self.to_der()?;
        Ok(Extension { extn_id: self.oid(), critical, extn_value })
    }
}

/// Whether the subject is a certificate authority, and how long a chain
/// below it may be.
#[derive(Clone, Copy, Debug, PartialEq, Eq, Structural)]
pub struct BasicConstraints {
    /// Whether the subject is a certificate authority.
    pub ca: bool,
    /// The longest chain of authorities below the subject, where it is limited.
    pub path_len_constraint: Option<u8>,
}

impl DerEncode for BasicConstraints {
    open spec fn der_spec(&self) -> Option<Seq<u8>> {
        basic_constraints_der(self.ca, self.path_len_constraint)
    }

    fn to_der(&self) -> (r: Result<Vec<u8>, GenError>) {
        encoded(encode_basic_constraints(self.ca, self.path_len_constraint))
    }
}

impl ToExtension for BasicConstraints {
    open spec fn oid_spec(&self) -> Oid {
        Oid::BasicConstraints
    }

    fn oid(&self) -> (oid: Oid) {
        Oid::BasicConstraints
    }
}

/// The flag of a key that may make digital signatures.
pub const DIGITAL_SIGNATURE: u16 = 0x001;

/// The flag of a key that may encipher keys.
pub const KEY_ENCIPHERMENT: u16 = 0x004;

/// The flag of a key that may sign certificates.
pub const KEY_CERT_SIGN: u16 = 0x020;

/// The flags that are not key usages: all above the ninth.
pub const KEY_USAGE_LIMIT: u16 = 0x200;

/// What a key may be used for: a set of flags, one bit each.
#[derive(Clone, Copy, Debug, PartialEq, Eq, Structural)]
pub struct KeyUsage {
    /// The flags.
    pub bits: u16,
}

impl KeyUsage {
    /// The usage of the key of a certificate: digital signatures, and signing
    /// certificates for an authority, enciphering keys otherwise.
    pub open spec fn for_certificate_spec(is_ca: bool) -> KeyUsage {
        if is_ca {
            KeyUsage { bits: 0x021 }
        } else {
            KeyUsage { bits: 0x005 }
        }
    }

    /// The usage of the key of a certificate: digital signatures, and signing
    /// certificates for an authority, enciphering keys otherwise.
    pub fn for_certificate(is_ca: bool) -> (usage: KeyUsage)
        ensures
            usage == KeyUsage::for_certificate_spec(is_ca),
            usage.allows(DIGITAL_SIGNATURE),
            is_ca ==> usage.allows(KEY_CERT_SIGN) && !usage.allows(KEY_ENCIPHERMENT),
            !is_ca ==> usage.allows(KEY_ENCIPHERMENT) && !usage.allows(KEY_CERT_SIGN),
    {
        assert(0x001u16 | 0x020u16 == 0x021u16 && 0x001u16 | 0x004u16 == 0x005u16
            && 0x021u16 & 0x001u16 == 0x001u16 && 0x021u16 & 0x020u16 == 0x020u16 && 0x021u16
            & 0x004u16 == 0u16 && 0x005u16 & 0x001u16 == 0x001u16 && 0x005u16 & 0x004u16
            == 0x004u16 && 0x005u16 & 0x020u16 == 0u16) by (bit_vector);
        if is_ca {
            KeyUsage { bits: DIGITAL_SIGNATURE | KEY_CERT_SIGN }
        } else {
            KeyUsage { bits: DIGITAL_SIGNATURE | KEY_ENCIPHERMENT }
        }
    }

    /// Whether all of the flags `flags` are set.
    pub open spec fn allows(&self, flags: u16) -> bool {
        self.bits & flags == flags
    }
}

impl DerEncode for KeyUsage {
    open spec fn der_spec(&self) -> Option<Seq<u8>> {
        if self.bits < KEY_USAGE_LIMIT {
            key_usage_der(self.bits)
        } else {
            None
        }
    }

    fn to_der(&self) -> (r: Result<Vec<u8>, GenError>) {
        if self.bits < KEY_USAGE_LIMIT {
            encoded(encode_key_usage(self.bits))
        } else {
            Err(GenError::Encoding)
        }
    }
}

impl ToExtension for KeyUsage {
    open spec fn oid_spec(&self) -> Oid {
        Oid::KeyUsage
    }

    fn oid(&self) -> (oid: Oid) {
        Oid::KeyUsage
    }
}

/// The alternative names of the subject, in the order in which they are written.
#[derive(Debug, PartialEq, Eq)]
pub struct SubjectAltName {
    /// The names.
    pub names: Vec<GeneralName>,
}

impl DerEncode for SubjectAltName {
    open spec fn der_spec(&self) -> Option<Seq<u8>> {
        match all_der_spec(self.names@) {
            Some(names) => subject_alt_name_der(names),
            None => None,
        }
    }

    fn to_der(&self) -> (r: Result<Vec<u8>, GenError>) {
        let names = encode_all(&self.names)?;
        encoded(encode_subject_alt_name(&names))
    }
}

impl ToExtension for SubjectAltName {
    open spec fn oid_spec(&self) -> Oid {
        Oid::SubjectAltName
    }

    fn oid(&self) -> (oid: Oid) {
        Oid::SubjectAltName
    }
}

} // verus!
