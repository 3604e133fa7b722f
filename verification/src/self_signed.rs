//! Self-signed certificates: a fresh key, and a certificate that it signs
//! for itself.

use vstd::prelude::*;
use crate::alt_name::AltName;
use crate::certificate::{
    all_encodable, alt_names_der, extensions_are_fixed, gen_tbs_certificate, is_built,
    is_generated, is_signed, sign_certificate, validity_spans_duration, Options, OptionsBuilder,
};
use crate::encoding::{
    basic_constraints_der, key_usage_der, subject_alt_name_der, LineEnding, TimeForm,
};
use crate::error::GenError;
use crate::ext::{KeyUsage, DIGITAL_SIGNATURE, KEY_CERT_SIGN};
use crate::name::Name;
use crate::oid::Oid;
use crate::scheme::{private_key_pem, PrivateKey, SignatureStrategy};
use crate::x509::{Certificate, DerEncode};

verus! {

/// What a self-signed certificate is to hold.
#[derive(Debug, PartialEq, Eq)]
pub struct SelfSignedCertOptions {
    /// Who issues the certificate. For a self-signed certificate this is the subject.
    pub issuer: Name,
    /// Whom the certificate is about.
    pub subject: Name,
    /// For how many seconds the certificate is valid.
    pub duration: u64,
    /// The alternative names of the subject.
    pub san: Vec<AltName>,
}

impl SelfSignedCertOptions {
    /// The options of a certificate that `subject` issues to itself: the
    /// issuer is the subject.
    pub fn for_subject(subject: Name, duration: u64, san: Vec<AltName>) -> (options:
        SelfSignedCertOptions)
        ensures
            options.issuer@ == subject@,
            options.subject == subject,
            options.duration == duration,
            options.san == san,
    {
        SelfSignedCertOptions { issuer: subject.clone(), subject, duration, san }
    }

    /// The options of the certificate that is built: those given, for a
    /// certificate authority.
    pub open spec fn options_spec(&self) -> Options {
        Options {
            issuer: self.issuer,
            subject: self.subject,
            duration: self.duration,
            is_ca: true,
            alt_names: self.san,
        }
    }
}

/// Whether `certificate` is a self-signed certificate of `key` for `options`:
/// built for these options as a certificate authority, around the public
/// half of `key`, and signed by `key`.
pub open spec fn is_self_signed<K: PrivateKey>(
    certificate: Certificate,
    key: K,
    options: SelfSignedCertOptions,
) -> bool {
    &&& is_generated(certificate.tbs_certificate, key, options.options_spec())
    &&& is_signed(certificate, key, certificate.tbs_certificate)
}

/// Whether the two PEM documents are a private key of `strategy` and a
/// certificate for `options` that the key signed for itself.
pub open spec fn is_self_signed_pair<S: SignatureStrategy>(
    key_pem: Seq<char>,
    certificate_pem: Seq<char>,
    strategy: S,
    options: SelfSignedCertOptions,
) -> bool {
    exists|key: S::Key, certificate: Certificate|
        {
            &&& key.algorithm_spec() == strategy.algorithm_spec()
            &&& key.signature_algorithm_spec() == strategy.signature_algorithm_spec()
            &&& #[trigger] is_self_signed(certificate, key, options)
            &&& private_key_pem(key.document_spec(), LineEnding::LF) == Some(key_pem)
            &&& certificate.pem_spec(LineEnding::LF) == Some(certificate_pem)
        }
}

/// Makes a key of `strategy` and a certificate for `options` that the key
/// signs for itself, as a certificate authority. Returns the private key as a
/// PEM document of a PKCS#8 key, then the certificate as a PEM document; both
/// with line feeds.
///
/// The key, the present time, the serial number and, for ECDSA, the
/// signature come from outside: whether the call succeeds is theirs to
/// decide. It never succeeds where an alternative name cannot be written into
/// a certificate, and fails with [`GenError::Parse`] only then.
pub fn gen_self_signed<S: SignatureStrategy>(strategy: &S, options: SelfSignedCertOptions) -> (r:
    Result<(String, String), GenError>)
    ensures
        match r {
            Ok((key_pem, certificate_pem)) => is_self_signed_pair(
                key_pem@,
                certificate_pem@,
                *strategy,
                options,
            ),
            Err(e) => e == GenError::Crypto || e == GenError::Encoding || (e == GenError::Parse
                && !all_encodable(options.san@)),
        },
        !all_encodable(options.san@) ==> r is Err,
{
    let key = strategy.generate_key()?;
    let built = OptionsBuilder::default().issuer(options.issuer).subject(options.subject).duration(
        options.duration,
    ).is_ca().alt_names(options.san).build();
    let tbs_certificate = gen_tbs_certificate(&key, built?)?;
    let certificate = sign_certificate(&key, tbs_certificate)?;
    let key_pem = key.to_pem(LineEnding::LF)?;
    let certificate_pem = certificate.to_pem(LineEnding::LF)?;
    proof {
        assert(is_self_signed(certificate, key, options));
    }
    Ok((key_pem, certificate_pem))
}

/// The serial number of a self-signed certificate has 16 bytes: all 128 bits
/// that were drawn for it.
pub proof fn self_signed_serial_has_128_bits<K: PrivateKey>(
    certificate: Certificate,
    key: K,
    options: SelfSignedCertOptions,
)
    requires
        is_self_signed(certificate, key, options),
    ensures
        certificate.tbs_certificate.serial_number@.len() == 16,
{
}

/// The validity of a self-signed certificate lasts exactly the duration that
/// was asked for, in whole seconds, and both of its ends are written as
/// `GeneralizedTime`.
pub proof fn self_signed_validity_spans_duration<K: PrivateKey>(
    certificate: Certificate,
    key: K,
    options: SelfSignedCertOptions,
)
    requires
        is_self_signed(certificate, key, options),
    ensures
        certificate.tbs_certificate.validity.duration_spec() == options.duration,
        certificate.tbs_certificate.validity.not_before.form == TimeForm::Generalized,
        certificate.tbs_certificate.validity.not_after.form == TimeForm::Generalized,
{
    let tbs = certificate.tbs_certificate;
    let (now, serial) = choose|now: i64, serial: Seq<u8>| #[trigger]
        is_built(
            tbs,
            key.signature_algorithm_spec(),
            tbs.subject_public_key_info,
            options.options_spec(),
            now,
            serial,
        );
    validity_spans_duration(
        tbs,
        key.signature_algorithm_spec(),
        tbs.subject_public_key_info,
        options.options_spec(),
        now,
        serial,
    );
}

/// A self-signed certificate has exactly three extensions, all critical and
/// in this order: basic constraints, which say that the subject is a
/// certificate authority; key usage, which allows digital signatures and
/// signing certificates; subject alternative names, as many as were given.
pub proof fn self_signed_extensions_are_fixed<K: PrivateKey>(
    certificate: Certificate,
    key: K,
    options: SelfSignedCertOptions,
)
    requires
        is_self_signed(certificate, key, options),
    ensures
        certificate.tbs_certificate.extensions@.len() == 3,
        certificate.tbs_certificate.extensions@[0].is(
            Oid::BasicConstraints,
            true,
            basic_constraints_der(true, None),
        ),
        certificate.tbs_certificate.extensions@[1].is(Oid::KeyUsage, true, key_usage_der(0x021)),
        (KeyUsage { bits: 0x021 }).allows(KEY_CERT_SIGN),
        (KeyUsage { bits: 0x021 }).allows(DIGITAL_SIGNATURE),
        alt_names_der(options.san@) is Some,
        alt_names_der(options.san@).unwrap().len() == options.san@.len(),
        certificate.tbs_certificate.extensions@[2].is(
            Oid::SubjectAltName,
            true,
            subject_alt_name_der(alt_names_der(options.san@).unwrap()),
        ),
{
    let tbs = certificate.tbs_certificate;
    let (now, serial) = choose|now: i64, serial: Seq<u8>| #[trigger]
        is_built(
            tbs,
            key.signature_algorithm_spec(),
            tbs.subject_public_key_info,
            options.options_spec(),
            now,
            serial,
        );
    extensions_are_fixed(
        tbs,
        key.signature_algorithm_spec(),
        tbs.subject_public_key_info,
        options.options_spec(),
        now,
        serial,
    );
    assert(0x021u16 & 0x020u16 == 0x020u16 && 0x021u16 & 0x001u16 == 0x001u16) by (bit_vector);
}

/// A self-signed certificate holds the public half of the key that signed
/// it, names the algorithm of that key's signatures twice, in what is signed
/// and beside the signature, and its signature is one of that key over the
/// encoding of what is signed.
pub proof fn self_signed_is_of_its_key<K: PrivateKey>(
    certificate: Certificate,
    key: K,
    options: SelfSignedCertOptions,
)
    requires
        is_self_signed(certificate, key, options),
    ensures
        certificate.tbs_certificate.subject_public_key_info.algorithm == key.algorithm_spec(),
        key.public_key_spec() == Some(
            certificate.tbs_certificate.subject_public_key_info.subject_public_key@,
        ),
        certificate.tbs_certificate.signature == key.signature_algorithm_spec(),
        certificate.signature_algorithm == key.signature_algorithm_spec(),
        certificate.tbs_certificate.der_spec() is Some,
        key.signature_spec(certificate.tbs_certificate.der_spec().unwrap(), certificate.signature@),
        certificate.tbs_certificate.issuer == options.issuer,
        certificate.tbs_certificate.subject == options.subject,
{
}

/// The signature of a self-signed certificate verifies against the public
/// key that the certificate itself holds, over the encoding of what is
/// signed, whatever the scheme of the key.
pub proof fn self_signed_signature_verifies<K: PrivateKey>(
    certificate: Certificate,
    key: K,
    options: SelfSignedCertOptions,
)
    requires
        is_self_signed(certificate, key, options),
    ensures
        certificate.tbs_certificate.der_spec() is Some,
        key.verifies_spec(
            certificate.tbs_certificate.subject_public_key_info.subject_public_key@,
            certificate.tbs_certificate.der_spec().unwrap(),
            certificate.signature@,
        ),
{
}

} // verus!
