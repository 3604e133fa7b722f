//! Building the part of a certificate that is signed, and signing it.

use vstd::prelude::*;
use time::OffsetDateTime;
use crate::alt_name::{AltName, GeneralName};
use crate::encoding::{
    basic_constraints_der, dns_name_der, ip_address_der, subject_alt_name_der, TimeForm,
};
use crate::error::GenError;
use crate::ext::{BasicConstraints, KeyUsage, SubjectAltName, ToExtension, KEY_CERT_SIGN};
use crate::name::Name;
use crate::oid::Oid;
use crate::scheme::PrivateKey;
use crate::x509::{
    AlgorithmIdentifier, Certificate, DerEncode, Extension, SubjectPublicKeyInfo, TbsCertificate,
    Validity, Version,
};

verus! {

/// `OffsetDateTime::now_utc` and `OffsetDateTime::unix_timestamp` of `time`:
/// the seconds since the Unix epoch, by the system's clock.
///
/// Trusted: nothing is claimed of the time.
#[verifier::external_body]
fn unix_time_now() -> i64 {
    OffsetDateTime::now_utc().unix_timestamp()
}

/// `random` of `rand`, for an array of 16 bytes: 128 bits of the thread's
/// random generator.
///
/// Trusted: nothing is claimed of the bytes but their number. The call does
/// not return where the system has no random source.
#[verifier::external_body]
fn random_serial() -> (serial: Vec<u8>)
    ensures
        serial@.len() == 16,
{
    rand::random::<[u8; 16]>().to_vec()
}

/// What a certificate is to hold, beside the key.
#[derive(Debug, PartialEq, Eq)]
pub struct Options {
    /// Who issues the certificate.
    pub issuer: Name,
    /// Whom the certificate is about.
    pub subject: Name,
    /// For how many seconds the certificate is valid.
    pub duration: u64,
    /// Whether the subject is a certificate authority.
    pub is_ca: bool,
    /// The alternative names of the subject.
    pub alt_names: Vec<AltName>,
}

/// Collects the parts of [`Options`] one by one. Only `is_ca` may be left
/// out: it is then `false`.
#[derive(Debug)]
pub struct OptionsBuilder {
    /// The issuer, once set.
    pub issuer: Option<Name>,
    /// The subject, once set.
    pub subject: Option<Name>,
    /// The duration in seconds, once set.
    pub duration: Option<u64>,
    /// Whether the subject is an authority, once set.
    pub is_ca: Option<bool>,
    /// The alternative names, once set.
    pub alt_names: Option<Vec<AltName>>,
}

impl Default for OptionsBuilder {
    fn default() -> (builder: OptionsBuilder)
        ensures
            builder.issuer is None,
            builder.subject is None,
            builder.duration is None,
            builder.is_ca is None,
            builder.alt_names is None,
    {
        OptionsBuilder { issuer: None, subject: None, duration: None, is_ca: None, alt_names: None }
    }
}

impl OptionsBuilder {
    /// Sets the issuer.
    pub fn issuer(self, issuer: Name) -> (builder: OptionsBuilder)
        ensures
            builder == (OptionsBuilder { issuer: Some(issuer), ..self }),
    {
        OptionsBuilder { issuer: Some(issuer), ..self }
    }

    /// Sets the subject.
    pub fn subject(self, subject: Name) -> (builder: OptionsBuilder)
        ensures
            builder == (OptionsBuilder { subject: Some(subject), ..self }),
    {
        OptionsBuilder { subject: Some(subject), ..self }
    }

    /// Sets the duration, in seconds.
    pub fn duration(self, duration: u64) -> (builder: OptionsBuilder)
        ensures
            builder == (OptionsBuilder { duration: Some(duration), ..self }),
    {
        OptionsBuilder { duration: Some(duration), ..self }
    }

    /// Makes the subject a certificate authority.
    pub fn is_ca(self) -> (builder: OptionsBuilder)
        ensures
            builder == (OptionsBuilder { is_ca: Some(true), ..self }),
    {
        OptionsBuilder { is_ca: Some(true), ..self }
    }

    /// Sets the alternative names.
    pub fn alt_names(self, alt_names: Vec<AltName>) -> (builder: OptionsBuilder)
        ensures
            builder == (OptionsBuilder { alt_names: Some(alt_names), ..self }),
    {
        OptionsBuilder { alt_names: Some(alt_names), ..self }
    }

    /// Whether issuer, subject, duration and alternative names are all set.
    pub open spec fn complete_spec(&self) -> bool {
        self.issuer is Some && self.subject is Some && self.duration is Some && self.alt_names
            is Some
    }

    /// The options that were collected. Fails with [`GenError::Validation`]
    /// where one of issuer, subject, duration and alternative names was never set.
    pub fn build(self) -> (r: Result<Options, GenError>)
        ensures
            match r {
                Ok(options) => self.complete_spec() && options == (Options {
                    issuer: self.issuer.unwrap(),
                    subject: self.subject.unwrap(),
                    duration: self.duration.unwrap(),
                    is_ca: self.is_ca == Some(true),
                    alt_names: self.alt_names.unwrap(),
                }),
                Err(e) => e == GenError::Validation && !self.complete_spec(),
            },
    {
        let issuer = match self.issuer {
            Some(issuer) => issuer,
            None => return Err(GenError::Validation),
        };
        let subject = match self.subject {
            Some(subject) => subject,
            None => return Err(GenError::Validation),
        };
        let duration = match self.duration {
            Some(duration) => duration,
            None => return Err(GenError::Validation),
        };
        let is_ca = match self.is_ca {
            Some(is_ca) => is_ca,
            None => false,
        };
        let alt_names = match self.alt_names {
            Some(alt_names) => alt_names,
            None => return Err(GenError::Validation),
        };
        Ok(Options { issuer, subject, duration, is_ca, alt_names })
    }
}

/// The encoding of the general name that stands for `name`.
pub open spec fn alt_name_der(name: AltName) -> Option<Seq<u8>> {
    match name {
        AltName::DNS(text) => dns_name_der(text@),
        AltName::IP(address) => ip_address_der(address.octets_spec()),
    }
}

/// Whether each of `names` can be written into a certificate.
pub open spec fn all_encodable(names: Seq<AltName>) -> bool {
    forall|i: int| 0 <= i < names.len() ==> (#[trigger] names[i]).encodable_spec()
}

/// The encoded general names of `names`, one for each and in their order.
/// `None` where one of them has no encoding.
pub open spec fn alt_names_der(names: Seq<AltName>) -> Option<Seq<Seq<u8>>> {
    if forall|i: int| 0 <= i < names.len() ==> alt_name_der(#[trigger] names[i]) is Some {
        Some(Seq::new(names.len(), |i: int| alt_name_der(names[i]).unwrap()))
    } else {
        None
    }
}

/// The value of the subject alternative name extension for `names`.
pub open spec fn subject_alt_name_value(names: Seq<AltName>) -> Option<Seq<u8>> {
    match alt_names_der(names) {
        Some(parts) => subject_alt_name_der(parts),
        None => None,
    }
}

/// The value of the basic constraints extension of a generated certificate:
/// no limit on the chain below an authority.
pub open spec fn basic_constraints_value(is_ca: bool) -> Option<Seq<u8>> {
    basic_constraints_der(is_ca, None)
}

/// The value of the key usage extension of a generated certificate.
pub open spec fn key_usage_value(is_ca: bool) -> Option<Seq<u8>> {
    KeyUsage::for_certificate_spec(is_ca).der_spec()
}

/// Why no certificate can be built from `options` at the time `now`, if so.
/// The first of these that holds decides: the validity does not fit the
/// calendar; basic constraints or key usage cannot be encoded; an alternative
/// name cannot be written; the alternative names cannot be encoded.
pub open spec fn build_failure(options: Options, now: i64) -> Option<GenError> {
    if Validity::starting_at_spec(now, options.duration, TimeForm::Generalized) is None {
        Some(GenError::Encoding)
    } else if basic_constraints_value(options.is_ca) is None {
        Some(GenError::Encoding)
    } else if key_usage_value(options.is_ca) is None {
        Some(GenError::Encoding)
    } else if !all_encodable(options.alt_names@) {
        Some(GenError::Parse)
    } else if subject_alt_name_value(options.alt_names@) is None {
        Some(GenError::Encoding)
    } else {
        None
    }
}

/// Whether `tbs` is the certificate for `options`, the key information
/// `key_info` and the signature algorithm `signature`, made at the time `now`
/// with the serial number `serial`: version 3; the validity starts at `now`
/// and lasts the duration, both ends written as `GeneralizedTime`; three
/// extensions, in this order: basic
/// constraints, critical; key usage, critical for an authority; subject
/// alternative names, critical.
pub open spec fn is_built(
    tbs: TbsCertificate,
    signature: AlgorithmIdentifier,
    key_info: SubjectPublicKeyInfo,
    options: Options,
    now: i64,
    serial: Seq<u8>,
) -> bool {
    &&& tbs.version == Version::V3
    &&& tbs.serial_number@ == serial
    &&& tbs.signature == signature
    &&& tbs.issuer == options.issuer
    &&& tbs.subject == options.subject
    &&& Validity::starting_at_spec(now, options.duration, TimeForm::Generalized) == Some(
        tbs.validity,
    )
    &&& tbs.subject_public_key_info == key_info
    &&& tbs.extensions@.len() == 3
    &&& tbs.extensions@[0].is(Oid::BasicConstraints, true, basic_constraints_value(options.is_ca))
    &&& tbs.extensions@[1].is(Oid::KeyUsage, options.is_ca, key_usage_value(options.is_ca))
    &&& tbs.extensions@[2].is(
        Oid::SubjectAltName,
        true,
        subject_alt_name_value(options.alt_names@),
    )
}

/// The general names of `names`. Fails with [`GenError::Parse`] where one of
/// them cannot be written into a certificate.
pub fn general_names(names: &Vec<AltName>) -> (r: Result<Vec<GeneralName>, GenError>)
    ensures
        match r {
            Ok(general) => {
                &&& all_encodable(names@)
                &&& general@.len() == names@.len()
                &&& forall|i: int|
                    0 <= i < names@.len() ==> (#[trigger] general@[i])@ == GeneralName::of_spec(
                        names@[i],
                    )
            },
            Err(e) => e == GenError::Parse && !all_encodable(names@),
        },
{
    let mut general: Vec<GeneralName> = Vec::new();
    let mut i: usize = 0;
    while i < names.len()
        invariant
            i <= names.len(),
            general@.len() == i,
            forall|j: int| 0 <= j < i ==> (#[trigger] names@[j]).encodable_spec(),
            forall|j: int|
                0 <= j < i ==> (#[trigger] general@[j])@ == GeneralName::of_spec(names@[j]),
        decreases names.len() - i,
    {
        match GeneralName::try_from(names[i].clone()) {
            Ok(name) => general.push(name),
            Err(e) => {
                assert(!names@[i as int].encodable_spec());
                return Err(e);
            },
        }
        i += 1;
    }
    Ok(general)
}

/// Builds the certificate for `options` around the key information
/// `key_info`, to be signed with `signature`, as of the time `now` and with
/// the serial number `serial`. Nothing is built where any part fails.
pub fn build_tbs_certificate(
    signature: AlgorithmIdentifier,
    key_info: SubjectPublicKeyInfo,
    options: Options,
    now: i64,
    serial: Vec<u8>,
) -> (r: Result<TbsCertificate, GenError>)
    ensures
        match r {
            Ok(tbs) => build_failure(options, now) is None && is_built(
                tbs,
                signature,
                key_info,
                options,
                now,
                serial@,
            ),
            Err(e) => build_failure(options, now) == Some(e),
        },
{
    let validity = Validity::starting_at(now, options.duration, TimeForm::Generalized)?;
    let basic_constraints = BasicConstraints {
        ca: options.is_ca,
        path_len_constraint: None,
    }.to_extension(true)?;
    let key_usage = KeyUsage::for_certificate(options.is_ca).to_extension(options.is_ca)?;
    let names = general_names(&options.alt_names)?;
    let alt_names = SubjectAltName { names };
    proof {
        lemma_alt_names_der(options.alt_names@, alt_names.names@);
    }
    let subject_alt_name = alt_names.to_extension(true)?;
    let mut extensions: Vec<Extension> = Vec::new();
    extensions.push(basic_constraints);
    extensions.push(key_usage);
    extensions.push(subject_alt_name);
    Ok(
        TbsCertificate {
            version: Version::V3,
            serial_number: serial,
            signature,
            issuer: options.issuer,
            validity,
            subject: options.subject,
            subject_public_key_info: key_info,
            extensions,
        },
    )
}

/// The general names made of alternative names are encoded as
/// [`alt_names_der`] says.
proof fn lemma_alt_names_der(names: Seq<AltName>, general: Seq<GeneralName>)
    requires
        general.len() == names.len(),
        forall|i: int|
            0 <= i < names.len() ==> (#[trigger] general[i])@ == GeneralName::of_spec(names[i]),
    ensures
        crate::x509::all_der_spec(general) == alt_names_der(names),
{
    assert forall|i: int| 0 <= i < names.len() implies (#[trigger] general[i]).der_spec()
        == alt_name_der(names[i]) by {
        assert(general[i]@ == GeneralName::of_spec(names[i]));
    }
    if forall|i: int| 0 <= i < names.len() ==> alt_name_der(#[trigger] names[i]) is Some {
        assert forall|i: int| 0 <= i < general.len() implies (#[trigger] general[i]).der_spec()
            is Some by {
            assert(alt_name_der(names[i]) is Some);
        }
        assert(Seq::new(general.len(), |i: int| general[i].der_spec().unwrap()) =~= Seq::new(
            names.len(),
            |i: int| alt_name_der(names[i]).unwrap(),
        ));
    } else {
        let i = choose|i: int| 0 <= i < names.len() && !(alt_name_der(#[trigger] names[i]) is Some);
        assert(general[i].der_spec() == alt_name_der(names[i]));
    }
}

/// Whether `tbs` is a certificate that [`gen_tbs_certificate`] can make for
/// `key` and `options`: at some time, with some serial number of 16 bytes,
/// around the public half of `key` and to be signed with its algorithm.
pub open spec fn is_generated<K: PrivateKey>(tbs: TbsCertificate, key: K, options: Options) -> bool {
    exists|now: i64, serial: Seq<u8>|
        {
            &&& serial.len() == 16
            &&& build_failure(options, now) is None
            &&& #[trigger] is_built(
                tbs,
                key.signature_algorithm_spec(),
                tbs.subject_public_key_info,
                options,
                now,
                serial,
            )
            &&& tbs.subject_public_key_info.algorithm == key.algorithm_spec()
            &&& key.public_key_spec() == Some(tbs.subject_public_key_info.subject_public_key@)
        }
}

/// Builds the certificate that is to be signed with `key`, for `options`:
/// valid from the present second of the system's clock, with a random serial
/// number, around the public half of `key`.
///
/// Whether it succeeds is for the clock and the encoders to decide; it fails
/// with [`GenError::Parse`] only where an alternative name cannot be written,
/// and always then unless something else fails first.
pub fn gen_tbs_certificate<K: PrivateKey>(key: &K, options: Options) -> (r: Result<
    TbsCertificate,
    GenError,
>)
    ensures
        match r {
            Ok(tbs) => is_generated(tbs, *key, options),
            Err(e) => e == GenError::Encoding || (e == GenError::Parse && !all_encodable(
                options.alt_names@,
            )),
        },
        !all_encodable(options.alt_names@) ==> r is Err,
{
    let now = unix_time_now();
    let serial = random_serial();
    let key_info = key.to_subject_public_key_info()?;
    let r = build_tbs_certificate(key.signature_algorithm(), key_info, options, now, serial);
    proof {
        if r is Ok {
            assert(is_built(
                r->Ok_0,
                key.signature_algorithm_spec(),
                r->Ok_0.subject_public_key_info,
                options,
                now,
                serial@,
            ));
        }
    }
    r
}

/// Puts a signature under `tbs_certificate`. Fails with
/// [`GenError::Consistency`] where the signature was made with another
/// algorithm than the certificate declares, and only then.
pub fn assemble_certificate(
    tbs_certificate: TbsCertificate,
    signature_algorithm: AlgorithmIdentifier,
    signature: Vec<u8>,
) -> (r: Result<Certificate, GenError>)
    ensures
        match r {
            Ok(certificate) => {
                &&& signature_algorithm == tbs_certificate.signature
                &&& certificate == (Certificate { tbs_certificate, signature_algorithm, signature })
            },
            Err(e) => e == GenError::Consistency && signature_algorithm
                != tbs_certificate.signature,
        },
{
    if signature_algorithm != tbs_certificate.signature {
        return Err(GenError::Consistency);
    }
    Ok(Certificate { tbs_certificate, signature_algorithm, signature })
}

/// Whether `certificate` is `tbs` with a signature of `key` under it: the
/// signature is over the encoding of `tbs` and with the algorithm that both
/// the key and `tbs` name, and the public half of the key verifies it.
pub open spec fn is_signed<K: PrivateKey>(
    certificate: Certificate,
    key: K,
    tbs: TbsCertificate,
) -> bool {
    &&& certificate.tbs_certificate == tbs
    &&& certificate.signature_algorithm == tbs.signature
    &&& key.signature_algorithm_spec() == tbs.signature
    &&& tbs.der_spec() is Some
    &&& key.signature_spec(tbs.der_spec().unwrap(), certificate.signature@)
    &&& key.public_key_spec() matches Some(public_key) && key.verifies_spec(
        public_key,
        tbs.der_spec().unwrap(),
        certificate.signature@,
    )
}

/// Signs `tbs_certificate` with `key`: the encoding of `tbs_certificate` is
/// what is signed.
///
/// Fails with [`GenError::Consistency`] where the key signs with another
/// algorithm than the certificate declares; otherwise with
/// [`GenError::Encoding`] where the certificate has no encoding; otherwise
/// with [`GenError::Crypto`] where the key fails to sign that encoding, of
/// which [`PrivateKey::failure_spec`] then holds.
pub fn sign_certificate<K: PrivateKey>(key: &K, tbs_certificate: TbsCertificate) -> (r: Result<
    Certificate,
    GenError,
>)
    ensures
        match r {
            Ok(certificate) => is_signed(certificate, *key, tbs_certificate),
            Err(e) => if key.signature_algorithm_spec() != tbs_certificate.signature {
                e == GenError::Consistency
            } else if tbs_certificate.der_spec() is None {
                e == GenError::Encoding
            } else {
                e == GenError::Crypto && key.failure_spec(tbs_certificate.der_spec().unwrap())
            },
        },
{
    let signature_algorithm = key.signature_algorithm();
    if signature_algorithm != tbs_certificate.signature {
        return Err(GenError::Consistency);
    }
    let payload = tbs_certificate.to_der()?;
    let signature = key.sign(payload.as_slice())?;
    assemble_certificate(tbs_certificate, signature_algorithm, signature)
}

/// The serial number of a built certificate is the value that was drawn for
/// it, unchanged. So two certificates built with different draws differ in
/// their serial numbers, whatever else they are built from, the same options
/// and the same second included.
pub proof fn serial_is_the_drawn_value(
    first: TbsCertificate,
    second: TbsCertificate,
    signature: AlgorithmIdentifier,
    key_info: SubjectPublicKeyInfo,
    options: Options,
    now: i64,
    first_draw: Seq<u8>,
    second_draw: Seq<u8>,
)
    requires
        is_built(first, signature, key_info, options, now, first_draw),
        is_built(second, signature, key_info, options, now, second_draw),
    ensures
        first.serial_number@ == first_draw,
        second.serial_number@ == second_draw,
        first_draw != second_draw ==> first.serial_number@ != second.serial_number@,
{
}

/// The serial number of a generated certificate has 16 bytes: all 128 bits
/// that were drawn for it.
pub proof fn generated_serial_has_128_bits<K: PrivateKey>(
    tbs: TbsCertificate,
    key: K,
    options: Options,
)
    requires
        is_generated(tbs, key, options),
    ensures
        tbs.serial_number@.len() == 16,
{
}

/// In a certificate built for some options, the validity lasts exactly the
/// duration that the options ask for, in whole seconds, and both of its ends
/// are written as `GeneralizedTime`.
pub proof fn validity_spans_duration(
    tbs: TbsCertificate,
    signature: AlgorithmIdentifier,
    key_info: SubjectPublicKeyInfo,
    options: Options,
    now: i64,
    serial: Seq<u8>,
)
    requires
        is_built(tbs, signature, key_info, options, now, serial),
    ensures
        tbs.validity.duration_spec() == options.duration,
        tbs.validity.not_before.seconds == now,
        tbs.validity.not_before.form == TimeForm::Generalized,
        tbs.validity.not_after.form == TimeForm::Generalized,
{
}

/// A certificate built for some options has exactly three extensions: basic
/// constraints, key usage and subject alternative names, in this order. Basic
/// constraints say whether the subject is an authority; the key usage of an
/// authority includes signing certificates; the subject alternative names are
/// as many as the options hold.
pub proof fn extensions_are_fixed(
    tbs: TbsCertificate,
    signature: AlgorithmIdentifier,
    key_info: SubjectPublicKeyInfo,
    options: Options,
    now: i64,
    serial: Seq<u8>,
)
    requires
        is_built(tbs, signature, key_info, options, now, serial),
    ensures
        tbs.extensions@.len() == 3,
        tbs.extensions@[0].extn_id == Oid::BasicConstraints,
        tbs.extensions@[1].extn_id == Oid::KeyUsage,
        tbs.extensions@[2].extn_id == Oid::SubjectAltName,
        tbs.extensions@[0].critical && tbs.extensions@[2].critical,
        tbs.extensions@[1].critical == options.is_ca,
        basic_constraints_der(options.is_ca, None) == Some(tbs.extensions@[0].extn_value@),
        KeyUsage::for_certificate_spec(options.is_ca).der_spec() == Some(
            tbs.extensions@[1].extn_value@,
        ),
        options.is_ca ==> KeyUsage::for_certificate_spec(options.is_ca).allows(KEY_CERT_SIGN),
        alt_names_der(options.alt_names@) is Some,
        alt_names_der(options.alt_names@).unwrap().len() == options.alt_names@.len(),
        subject_alt_name_der(alt_names_der(options.alt_names@).unwrap()) == Some(
            tbs.extensions@[2].extn_value@,
        ),
{
    assert(0x021u16 & 0x020u16 == 0x020u16) by (bit_vector);
}

} // verus!
