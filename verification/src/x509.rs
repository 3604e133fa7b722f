//! The parts of an X.509 certificate, as plain values, and how each is encoded.

use vstd::prelude::*;
use crate::encoding::{
    algorithm_identifier_curve_der, algorithm_identifier_der, algorithm_identifier_null_der,
    certificate_der, encode_algorithm_identifier, encode_algorithm_identifier_curve,
    encode_algorithm_identifier_null, encode_certificate, encode_extension,
    encode_pem, encode_subject_public_key_info, encode_tbs_certificate, encode_time,
    encode_validity, extension_der, is_encoding, pem_text, subject_public_key_info_der,
    tbs_certificate_der, time_der, validity_der, views, LineEnding, TimeForm,
};
use crate::error::GenError;
use crate::name::Name;
use crate::oid::Oid;

verus! {

/// Whether `result` is the encoding `named`: its bytes where there is one, and
/// [`GenError::Encoding`] where there is none.
pub open spec fn is_encoded(result: Result<Vec<u8>, GenError>, named: Option<Seq<u8>>) -> bool {
    match result {
        Ok(bytes) => named == Some(bytes@),
        Err(e) => e == GenError::Encoding && named is None,
    }
}

/// Turns the error of an encoder into the library's own.
pub(crate) fn encoded(result: Result<Vec<u8>, der::Error>) -> (out: Result<Vec<u8>, GenError>)
    ensures
        forall|named: Option<Seq<u8>>| is_encoding(result, named) ==> is_encoded(out, named),
        result matches Ok(bytes) ==> out == Ok::<Vec<u8>, GenError>(bytes),
        result is Err ==> out == Err::<Vec<u8>, GenError>(GenError::Encoding),
{
    match result {
        Ok(bytes) => Ok(bytes),
        Err(_) => Err(GenError::Encoding),
    }
}

/// A value with a DER encoding.
pub trait DerEncode {
    /// The encoding of the value; `None` where it cannot be encoded.
    spec fn der_spec(&self) -> Option<Seq<u8>>;

    /// Encodes the value.
    fn to_der(&self) -> (r: Result<Vec<u8>, GenError>)
        ensures
            is_encoded(r, self.der_spec()),
    ;
}

/// The encodings of all of `items`, in their order; `None` where one of them
/// cannot be encoded.
pub open spec fn all_der_spec<T: DerEncode>(items: Seq<T>) -> Option<Seq<Seq<u8>>> {
    if forall|i: int| 0 <= i < items.len() ==> (#[trigger] items[i]).der_spec() is Some {
        Some(Seq::new(items.len(), |i: int| items[i].der_spec().unwrap()))
    } else {
        None
    }
}

/// Encodes each of `items`.
pub fn encode_all<T: DerEncode>(items: &Vec<T>) -> (r: Result<Vec<Vec<u8>>, GenError>)
    ensures
        match r {
            Ok(parts) => all_der_spec(items@) == Some(views(parts@)),
            Err(e) => e == GenError::Encoding && all_der_spec(items@) is None,
        },
{
    let mut parts: Vec<Vec<u8>> = Vec::new();
    let mut i: usize = 0;
    while i < items.len()
        invariant
            i <= items.len(),
            parts.len() == i,
            forall|j: int| 0 <= j < i ==> (#[trigger] items[j]).der_spec() == Some(parts[j]@),
        decreases items.len() - i,
    {
        let part = items[i].to_der()?;
        parts.push(part);
        i += 1;
    }
    assert(views(parts@) =~= Seq::new(items@.len(), |i: int| items@[i].der_spec().unwrap()));
    Ok(parts)
}

/// The parameters of an algorithm identifier.
#[derive(Clone, Copy, Debug, PartialEq, Eq, Structural)]
pub enum AlgorithmParameters {
    /// No parameters are written.
    Absent,
    /// The parameters are written as `NULL`.
    Null,
    /// The parameters name an elliptic curve.
    NamedCurve(Oid),
}

/// An algorithm and its parameters.
#[derive(Clone, Copy, Debug, PartialEq, Eq, Structural)]
pub struct AlgorithmIdentifier {
    /// The algorithm.
    pub oid: Oid,
    /// Its parameters.
    pub parameters: AlgorithmParameters,
}

impl DerEncode for AlgorithmIdentifier {
    open spec fn der_spec(&self) -> Option<Seq<u8>> {
        match self.parameters {
            AlgorithmParameters::Absent => algorithm_identifier_der(self.oid.arcs_spec()),
            AlgorithmParameters::Null => algorithm_identifier_null_der(self.oid.arcs_spec()),
            AlgorithmParameters::NamedCurve(curve) => algorithm_identifier_curve_der(
                self.oid.arcs_spec(),
                curve.arcs_spec(),
            ),
        }
    }

    fn to_der(&self) -> (r: Result<Vec<u8>, GenError>) {
        let arcs = self.oid.arcs();
        match self.parameters {
            AlgorithmParameters::Absent => encoded(encode_algorithm_identifier(arcs.as_slice())),
            AlgorithmParameters::Null => encoded(encode_algorithm_identifier_null(arcs.as_slice())),
            AlgorithmParameters::NamedCurve(curve) => {
                let curve_arcs = curve.arcs();
                encoded(encode_algorithm_identifier_curve(arcs.as_slice(), curve_arcs.as_slice()))
            },
        }
    }
}

/// A public key and the algorithm it is for.
#[derive(Debug, PartialEq, Eq)]
pub struct SubjectPublicKeyInfo {
    /// The algorithm of the key.
    pub algorithm: AlgorithmIdentifier,
    /// The key, in the encoding of its algorithm.
    pub subject_public_key: Vec<u8>,
}

impl DerEncode for SubjectPublicKeyInfo {
    open spec fn der_spec(&self) -> Option<Seq<u8>> {
        match self.algorithm.der_spec() {
            Some(algorithm) => subject_public_key_info_der(algorithm, self.subject_public_key@),
            None => None,
        }
    }

    fn to_der(&self) -> (r: Result<Vec<u8>, GenError>) {
        let algorithm = self.algorithm.to_der()?;
        encoded(
            encode_subject_public_key_info(algorithm.as_slice(), self.subject_public_key.as_slice()),
        )
    }
}

/// The latest time a certificate can name: the last second of the year 9999,
/// in seconds since the Unix epoch.
pub const MAX_UNIX_TIME: u64 = 253_402_300_799;

/// The latest time that can be written as a `UTCTime`: the last second of
/// the year 2049, in seconds since the Unix epoch.
pub const MAX_UTC_TIME: u64 = 2_524_607_999;

/// The latest time that can be written in the form `form`, in seconds since
/// the Unix epoch.
pub open spec fn latest_spec(form: TimeForm) -> u64 {
    match form {
        TimeForm::Utc => MAX_UTC_TIME,
        TimeForm::Generalized => MAX_UNIX_TIME,
    }
}

/// The latest time that can be written in the form `form`, in seconds since
/// the Unix epoch.
pub fn latest(form: TimeForm) -> (seconds: u64)
    ensures
        seconds == latest_spec(form),
{
    match form {
        TimeForm::Utc => MAX_UTC_TIME,
        TimeForm::Generalized => MAX_UNIX_TIME,
    }
}

/// A second of time, and the form in which a certificate writes it.
#[derive(Clone, Copy, Debug, PartialEq, Eq, Structural)]
pub struct Time {
    /// The whole seconds since the Unix epoch.
    pub seconds: u64,
    /// The form in which the time is written.
    pub form: TimeForm,
}

impl DerEncode for Time {
    open spec fn der_spec(&self) -> Option<Seq<u8>> {
        time_der(self.seconds, self.form)
    }

    fn to_der(&self) -> (r: Result<Vec<u8>, GenError>) {
        encoded(encode_time(self.seconds, self.form))
    }
}

/// The time span in which a certificate is valid.
#[derive(Clone, Copy, Debug, PartialEq, Eq, Structural)]
pub struct Validity {
    /// The first second of the span.
    pub not_before: Time,
    /// The last second of the span.
    pub not_after: Time,
}

impl Validity {
    /// The length of the span in seconds.
    pub open spec fn duration_spec(&self) -> int {
        self.not_after.seconds - self.not_before.seconds
    }

    /// The span that starts at `now` and lasts `duration` seconds, with both
    /// ends written in the form `form`. There is none where `now` lies
    /// before the epoch or the span ends after the latest time of the form.
    pub open spec fn starting_at_spec(now: i64, duration: u64, form: TimeForm) -> Option<Validity> {
        if 0 <= now && now + duration <= latest_spec(form) {
            Some(
                Validity {
                    not_before: Time { seconds: now as u64, form },
                    not_after: Time { seconds: (now + duration) as u64, form },
                },
            )
        } else {
            None
        }
    }

    /// The span that starts at `now` and lasts `duration` seconds, with both
    /// ends written in the form `form`.
    pub fn starting_at(now: i64, duration: u64, form: TimeForm) -> (r: Result<Validity, GenError>)
        ensures
            match r {
                Ok(validity) => Validity::starting_at_spec(now, duration, form) == Some(validity),
                Err(e) => e == GenError::Encoding && Validity::starting_at_spec(
                    now,
                    duration,
                    form,
                ) is None,
            },
    {
        let latest = latest(form);
        if now < 0 || now as u64 > latest || duration > latest - now as u64 {
            return Err(GenError::Encoding);
        }
        let seconds = now as u64;
        Ok(
            Validity {
                not_before: Time { seconds, form },
                not_after: Time { seconds: seconds + duration, form },
            },
        )
    }
}

impl DerEncode for Validity {
    open spec fn der_spec(&self) -> Option<Seq<u8>> {
        match (self.not_before.der_spec(), self.not_after.der_spec()) {
            (Some(not_before), Some(not_after)) => validity_der(not_before, not_after),
            _ => None,
        }
    }

    fn to_der(&self) -> (r: Result<Vec<u8>, GenError>) {
        let not_before = self.not_before.to_der()?;
        let not_after = self.not_after.to_der()?;
        encoded(encode_validity(not_before.as_slice(), not_after.as_slice()))
    }
}

/// A certificate extension: what it is, whether a reader must understand it,
/// and its encoded value.
#[derive(Debug, PartialEq, Eq)]
pub struct Extension {
    /// The kind of the extension.
    pub extn_id: Oid,
    /// Whether the extension is critical.
    pub critical: bool,
    /// The encoded value.
    pub extn_value: Vec<u8>,
}

impl Extension {
    /// Whether the extension has the given kind, criticality and value.
    pub open spec fn is(&self, extn_id: Oid, critical: bool, value: Option<Seq<u8>>) -> bool {
        &&& self.extn_id == extn_id
        &&& self.critical == critical
        &&& value == Some(self.extn_value@)
    }
}

impl DerEncode for Extension {
    open spec fn der_spec(&self) -> Option<Seq<u8>> {
        extension_der(self.extn_id.arcs_spec(), self.critical, self.extn_value@)
    }

    fn to_der(&self) -> (r: Result<Vec<u8>, GenError>) {
        let arcs = self.extn_id.arcs();
        encoded(encode_extension(arcs.as_slice(), self.critical, self.extn_value.as_slice()))
    }
}

/// The version of the certificate format.
#[derive(Clone, Copy, Debug, PartialEq, Eq, Structural)]
pub enum Version {
    /// Version 1.
    V1,
    /// Version 2.
    V2,
    /// Version 3, the only one with extensions.
    V3,
}

impl Version {
    /// The number that stands for the version in a certificate.
    pub open spec fn number_spec(self) -> u8 {
        match self {
            Version::V1 => 0,
            Version::V2 => 1,
            Version::V3 => 2,
        }
    }

    /// The number that stands for the version in a certificate.
    pub fn number(self) -> (n: u8)
        ensures
            n == self.number_spec(),
    {
        match self {
            Version::V1 => 0,
            Version::V2 => 1,
            Version::V3 => 2,
        }
    }
}

/// The part of a certificate that is signed.
#[derive(Debug, PartialEq, Eq)]
pub struct TbsCertificate {
    /// The format version.
    pub version: Version,
    /// The serial number, as the bytes of an unsigned integer, first byte first.
    pub serial_number: Vec<u8>,
    /// The algorithm the certificate is to be signed with.
    pub signature: AlgorithmIdentifier,
    /// Who issued the certificate.
    pub issuer: Name,
    /// When the certificate is valid.
    pub validity: Validity,
    /// Whom the certificate is about.
    pub subject: Name,
    /// The subject's public key.
    pub subject_public_key_info: SubjectPublicKeyInfo,
    /// The extensions, in the order in which they are written.
    pub extensions: Vec<Extension>,
}

impl DerEncode for TbsCertificate {
    open spec fn der_spec(&self) -> Option<Seq<u8>> {
        match (
            self.signature.der_spec(),
            self.issuer.der_spec(),
            self.validity.der_spec(),
            self.subject.der_spec(),
            self.subject_public_key_info.der_spec(),
            all_der_spec(self.extensions@),
        ) {
            (
                Some(signature),
                Some(issuer),
                Some(validity),
                Some(subject),
                Some(key_info),
                Some(extensions),
            ) => tbs_certificate_der(
                self.version.number_spec(),
                self.serial_number@,
                signature,
                issuer,
                validity,
                subject,
                key_info,
                extensions,
            ),
            _ => None,
        }
    }

    fn to_der(&self) -> (r: Result<Vec<u8>, GenError>) {
        let signature = self.signature.to_der()?;
        let issuer = self.issuer.to_der()?;
        let validity = self.validity.to_der()?;
        let subject = self.subject.to_der()?;
        let key_info = self.subject_public_key_info.to_der()?;
        let extensions = encode_all(&self.extensions)?;
        encoded(
            encode_tbs_certificate(
                self.version.number(),
                self.serial_number.as_slice(),
                signature.as_slice(),
                issuer.as_slice(),
                validity.as_slice(),
                subject.as_slice(),
                key_info.as_slice(),
                &extensions,
            ),
        )
    }
}

/// A signed certificate.
#[derive(Debug, PartialEq, Eq)]
pub struct Certificate {
    /// What was signed.
    pub tbs_certificate: TbsCertificate,
    /// The algorithm of the signature.
    pub signature_algorithm: AlgorithmIdentifier,
    /// The signature over the encoding of `tbs_certificate`.
    pub signature: Vec<u8>,
}

/// The label of the PEM document that holds a certificate.
pub const CERTIFICATE_LABEL: &'static str = "CERTIFICATE";

impl Certificate {
    /// The certificate as a PEM document; `None` where it has no encoding.
    pub open spec fn pem_spec(&self, line_ending: LineEnding) -> Option<Seq<char>> {
        match self.der_spec() {
            Some(der) => pem_text(CERTIFICATE_LABEL@, line_ending, der),
            None => None,
        }
    }

    /// The certificate as a PEM document with the label `CERTIFICATE`.
    pub fn to_pem(&self, line_ending: LineEnding) -> (r: Result<String, GenError>)
        ensures
            match r {
                Ok(text) => self.pem_spec(line_ending) == Some(text@),
                Err(e) => e == GenError::Encoding && self.pem_spec(line_ending) is None,
            },
    {
        let der = self.to_der()?;
        match encode_pem(CERTIFICATE_LABEL, line_ending, der.as_slice()) {
            Ok(text) => Ok(text),
            Err(_) => Err(GenError::Encoding),
        }
    }
}

impl DerEncode for Certificate {
    open spec fn der_spec(&self) -> Option<Seq<u8>> {
        match (self.tbs_certificate.der_spec(), self.signature_algorithm.der_spec()) {
            (Some(tbs), Some(algorithm)) => certificate_der(tbs, algorithm, self.signature@),
            _ => None,
        }
    }

    fn to_der(&self) -> (r: Result<Vec<u8>, GenError>) {
        let tbs = self.tbs_certificate.to_der()?;
        let algorithm = self.signature_algorithm.to_der()?;
        encoded(encode_certificate(tbs.as_slice(), algorithm.as_slice(), self.signature.as_slice()))
    }
}

} // verus!
