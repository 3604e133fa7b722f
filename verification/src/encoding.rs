//! DER and PEM encodings, as the `der`, `spki` and `x509-cert` crates compute them.
//!
//! Every function here is trusted: Verus does not look into the crates that
//! do the encoding. An encoding depends on the encoded values alone, so each
//! one has a name: a function of the values whose result is `None` where the
//! crate refuses them. The contracts say that a call returns what its name
//! gives, and nothing else. Parts of a larger value are handed over in their
//! own encoding and read back by the crate before it writes the whole.

use vstd::prelude::*;
use vstd::string::StringSliceAdditionalSpecFns;
use core::time::Duration;
use der::asn1::{Any, BitString, GeneralizedTime, Ia5String, ObjectIdentifier, OctetString};
use der::asn1::{PrintableStringRef, SetOfVec, UtcTime, Utf8StringRef};
use der::flagset::FlagSet;
use der::{Decode, Encode};
use spki::{AlgorithmIdentifierOwned, SubjectPublicKeyInfoOwned};
use x509_cert::attr::AttributeTypeAndValue;
use x509_cert::ext::pkix::name::GeneralName;
use x509_cert::ext::pkix::{BasicConstraints, KeyUsage, SubjectAltName};
use x509_cert::ext::Extension;
use x509_cert::name::{Name, RdnSequence, RelativeDistinguishedName};
use x509_cert::serial_number::SerialNumber;
use x509_cert::time::{Time, Validity};
use x509_cert::{Certificate, TbsCertificate, Version};

verus! {

/// How the lines of a PEM document end.
#[derive(Clone, Copy, Debug, PartialEq, Eq, Structural)]
pub enum LineEnding {
    /// A line feed.
    LF,
    /// A carriage return and a line feed.
    CRLF,
}

/// The form in which a time is written into a certificate.
#[derive(Clone, Copy, Debug, PartialEq, Eq, Structural)]
pub enum TimeForm {
    /// `UTCTime`: a year of two digits, up to the year 2049.
    Utc,
    /// `GeneralizedTime`: a year of four digits.
    Generalized,
}

/// The longest value, in bytes, that the `der` crate encodes.
pub const MAX_DER_LENGTH: usize = 0x0fff_ffff;

/// The characters of an ASN.1 `IA5String`: the first 128 of Unicode.
pub open spec fn is_ia5(text: Seq<char>) -> bool {
    forall|i: int| 0 <= i < text.len() ==> (#[trigger] text[i]) as u32 <= 0x7f
}

/// The characters of an ASN.1 `PrintableString`.
pub open spec fn is_printable_char(c: char) -> bool {
    ||| 'A' <= c <= 'Z'
    ||| 'a' <= c <= 'z'
    ||| '0' <= c <= '9'
    ||| c == ' '
    ||| c == '\''
    ||| c == '('
    ||| c == ')'
    ||| c == '+'
    ||| c == ','
    ||| c == '-'
    ||| c == '.'
    ||| c == '/'
    ||| c == ':'
    ||| c == '='
    ||| c == '?'
}

/// Whether every character of `text` may stand in a `PrintableString`.
pub open spec fn is_printable(text: Seq<char>) -> bool {
    forall|i: int| 0 <= i < text.len() ==> is_printable_char(#[trigger] text[i])
}

/// `Ia5String::new` of `der`: whether `text` can be an `IA5String`.
///
/// Trusted: it can when it has only IA5 characters and is no longer than the
/// crate encodes, and only then.
#[verifier::external_body]
pub(crate) fn ia5_string_accepts(text: &str) -> (accepted: bool)
    ensures
        accepted == (is_ia5(text@) && text@.len() <= MAX_DER_LENGTH),
{
    Ia5String::new(text).is_ok()
}

/// `PrintableStringRef::new` of `der`: whether `text` can be a
/// `PrintableString`.
///
/// Trusted: it can when it has only characters of that set and is no longer
/// than the crate encodes, and only then.
#[verifier::external_body]
pub(crate) fn printable_string_accepts(text: &str) -> (accepted: bool)
    ensures
        accepted == (is_printable(text@) && text@.len() <= MAX_DER_LENGTH),
{
    PrintableStringRef::new(text).is_ok()
}

/// `Utf8StringRef::new` of `der`: whether `text` can be a `UTF8String`.
///
/// Trusted: it can when its UTF-8 form is no longer than the crate encodes,
/// and only then.
#[verifier::external_body]
pub(crate) fn utf8_string_accepts(text: &str) -> (accepted: bool)
    ensures
        accepted == (text.spec_bytes().len() <= MAX_DER_LENGTH),
{
    Utf8StringRef::new(text).is_ok()
}

/// The encoding of an `AlgorithmIdentifier` with the identifier `arcs` and no
/// parameters.
pub uninterp spec fn algorithm_identifier_der(arcs: Seq<u32>) -> Option<Seq<u8>>;

/// The encoding of an `AlgorithmIdentifier` with the identifier `arcs` and
/// the parameter `NULL`.
pub uninterp spec fn algorithm_identifier_null_der(arcs: Seq<u32>) -> Option<Seq<u8>>;

/// The encoding of an `AlgorithmIdentifier` with the identifier `arcs` and
/// the identifier `curve` as its parameter.
pub uninterp spec fn algorithm_identifier_curve_der(arcs: Seq<u32>, curve: Seq<u32>) -> Option<
    Seq<u8>,
>;

/// The encoding of a `SubjectPublicKeyInfo` from its encoded algorithm and the
/// bytes of the key.
pub uninterp spec fn subject_public_key_info_der(algorithm: Seq<u8>, key: Seq<u8>) -> Option<
    Seq<u8>,
>;

/// The encoding of a `RelativeDistinguishedName` with one attribute, of type
/// `arcs`, whose value is the `UTF8String` `value`.
pub uninterp spec fn utf8_attribute_der(arcs: Seq<u32>, value: Seq<char>) -> Option<Seq<u8>>;

/// The encoding of a `RelativeDistinguishedName` with one attribute, of type
/// `arcs`, whose value is the `PrintableString` `value`.
pub uninterp spec fn printable_attribute_der(arcs: Seq<u32>, value: Seq<char>) -> Option<Seq<u8>>;

/// The encoding of a `Name` from its encoded relative distinguished names.
pub uninterp spec fn name_der(names: Seq<Seq<u8>>) -> Option<Seq<u8>>;

/// The encoding of a `Time`, `seconds` after the Unix epoch, written in the
/// form `form`.
pub uninterp spec fn time_der(seconds: u64, form: TimeForm) -> Option<Seq<u8>>;

/// The encoding of a `Validity` between two encoded times.
pub uninterp spec fn validity_der(not_before: Seq<u8>, not_after: Seq<u8>) -> Option<Seq<u8>>;

/// The encoding of a `BasicConstraints` value.
pub uninterp spec fn basic_constraints_der(ca: bool, path_len: Option<u8>) -> Option<Seq<u8>>;

/// The encoding of a `KeyUsage` value with the flags `bits`.
pub uninterp spec fn key_usage_der(bits: u16) -> Option<Seq<u8>>;

/// The encoding of the `GeneralName` for the DNS name `name`.
pub uninterp spec fn dns_name_der(name: Seq<char>) -> Option<Seq<u8>>;

/// The encoding of the `GeneralName` for the IP address with the bytes `octets`.
pub uninterp spec fn ip_address_der(octets: Seq<u8>) -> Option<Seq<u8>>;

/// The encoding of a `SubjectAltName` from its encoded general names.
pub uninterp spec fn subject_alt_name_der(names: Seq<Seq<u8>>) -> Option<Seq<u8>>;

/// The encoding of an `Extension` with the identifier `arcs`.
pub uninterp spec fn extension_der(arcs: Seq<u32>, critical: bool, value: Seq<u8>) -> Option<
    Seq<u8>,
>;

/// The encoding of a `TBSCertificate` from its version number, the bytes of its
/// serial number, and the encodings of its other parts.
pub uninterp spec fn tbs_certificate_der(
    version: u8,
    serial: Seq<u8>,
    signature: Seq<u8>,
    issuer: Seq<u8>,
    validity: Seq<u8>,
    subject: Seq<u8>,
    key_info: Seq<u8>,
    extensions: Seq<Seq<u8>>,
) -> Option<Seq<u8>>;

/// The encoding of a `Certificate` from its encoded `TBSCertificate`, its encoded
/// signature algorithm and the bytes of the signature.
pub uninterp spec fn certificate_der(tbs: Seq<u8>, algorithm: Seq<u8>, signature: Seq<u8>) -> Option<
    Seq<u8>,
>;

/// The PEM document with the given label, line ending and content.
pub uninterp spec fn pem_text(label: Seq<char>, line_ending: LineEnding, data: Seq<u8>) -> Option<
    Seq<char>,
>;

/// The byte strings that `items` hold, in their order.
pub open spec fn views(items: Seq<Vec<u8>>) -> Seq<Seq<u8>> {
    items.map_values(|item: Vec<u8>| item@)
}

/// Whether `result` is what the encoding named `named` gives.
pub open spec fn is_encoding<E>(result: Result<Vec<u8>, E>, named: Option<Seq<u8>>) -> bool {
    match result {
        Ok(bytes) => named == Some(bytes@),
        Err(_) => named is None,
    }
}

/// `AlgorithmIdentifierOwned::to_der` of `spki`, on an identifier without parameters.
///
/// Trusted: what comes back is what [`algorithm_identifier_der`] names for these
/// arguments.
#[verifier::external_body]
pub(crate) fn encode_algorithm_identifier(arcs: &[u32]) -> (r: Result<Vec<u8>, der::Error>)
    ensures
        is_encoding(r, algorithm_identifier_der(arcs@)),
{
    let oid = ObjectIdentifier::from_arcs(arcs.iter().copied())?;
    AlgorithmIdentifierOwned { oid, parameters: None }.to_der()
}

/// `AlgorithmIdentifierOwned::to_der` of `spki`, on an identifier whose parameter is `NULL`.
///
/// Trusted: what comes back is what [`algorithm_identifier_null_der`] names for these
/// arguments.
#[verifier::external_body]
pub(crate) fn encode_algorithm_identifier_null(arcs: &[u32]) -> (r: Result<Vec<u8>, der::Error>)
    ensures
        is_encoding(r, algorithm_identifier_null_der(arcs@)),
{
    let oid = ObjectIdentifier::from_arcs(arcs.iter().copied())?;
    AlgorithmIdentifierOwned { oid, parameters: Some(Any::from(der::asn1::Null)) }.to_der()
}

/// `AlgorithmIdentifierOwned::to_der` of `spki`, on an identifier whose parameter
/// is the identifier of a curve.
///
/// Trusted: what comes back is what [`algorithm_identifier_curve_der`] names for these
/// arguments.
#[verifier::external_body]
pub(crate) fn encode_algorithm_identifier_curve(arcs: &[u32], curve: &[u32]) -> (r: Result<
    Vec<u8>,
    der::Error,
>)
    ensures
        is_encoding(r, algorithm_identifier_curve_der(arcs@, curve@)),
{
    let oid = ObjectIdentifier::from_arcs(arcs.iter().copied())?;
    let curve = ObjectIdentifier::from_arcs(curve.iter().copied())?;
    AlgorithmIdentifierOwned { oid, parameters: Some(Any::from(&curve)) }.to_der()
}

/// `SubjectPublicKeyInfoOwned::to_der` of `spki`. The key becomes a bit string
/// without unused bits.
///
/// Trusted: what comes back is what [`subject_public_key_info_der`] names for these
/// arguments.
#[verifier::external_body]
pub(crate) fn encode_subject_public_key_info(algorithm: &[u8], key: &[u8]) -> (r: Result<
    Vec<u8>,
    der::Error,
>)
    ensures
        is_encoding(r, subject_public_key_info_der(algorithm@, key@)),
{
    SubjectPublicKeyInfoOwned {
        algorithm: AlgorithmIdentifierOwned::from_der(algorithm)?,
        subject_public_key: BitString::from_bytes(key)?,
    }.to_der()
}

/// `RelativeDistinguishedName::to_der` of `x509-cert`, on one attribute with a
/// `UTF8String` value.
///
/// Trusted: what comes back is what [`utf8_attribute_der`] names for these
/// arguments.
#[verifier::external_body]
pub(crate) fn encode_utf8_attribute(arcs: &[u32], value: &str) -> (r: Result<Vec<u8>, der::Error>)
    ensures
        is_encoding(r, utf8_attribute_der(arcs@, value@)),
{
    let oid = ObjectIdentifier::from_arcs(arcs.iter().copied())?;
    let value = Any::from(Utf8StringRef::new(value)?);
    RelativeDistinguishedName(SetOfVec::try_from([AttributeTypeAndValue { oid, value }])?).to_der()
}

/// `RelativeDistinguishedName::to_der` of `x509-cert`, on one attribute with a
/// `PrintableString` value.
///
/// Trusted: what comes back is what [`printable_attribute_der`] names for these
/// arguments.
#[verifier::external_body]
pub(crate) fn encode_printable_attribute(arcs: &[u32], value: &str) -> (r: Result<
    Vec<u8>,
    der::Error,
>)
    ensures
        is_encoding(r, printable_attribute_der(arcs@, value@)),
{
    let oid = ObjectIdentifier::from_arcs(arcs.iter().copied())?;
    let value = Any::from(PrintableStringRef::new(value)?);
    RelativeDistinguishedName(SetOfVec::try_from([AttributeTypeAndValue { oid, value }])?).to_der()
}

/// `RdnSequence::to_der` of `x509-cert`, on the names that `names` encode, in
/// their order.
///
/// Trusted: what comes back is what [`name_der`] names for these
/// arguments.
#[verifier::external_body]
pub(crate) fn encode_name(names: &Vec<Vec<u8>>) -> (r: Result<Vec<u8>, der::Error>)
    ensures
        is_encoding(r, name_der(views(names@))),
{
    let names: Result<Vec<_>, _> = names.iter().map(
        |n| RelativeDistinguishedName::from_der(n),
    ).collect();
    RdnSequence(names?).to_der()
}

/// `Time::to_der` of `x509-cert`, on a time made by `from_unix_duration` of
/// `der`: that of `UtcTime` or that of `GeneralizedTime`, as `form` says.
///
/// Trusted: what comes back is what [`time_der`] names for these arguments.
#[verifier::external_body]
pub(crate) fn encode_time(seconds: u64, form: TimeForm) -> (r: Result<Vec<u8>, der::Error>)
    ensures
        is_encoding(r, time_der(seconds, form)),
{
    let time = Duration::from_secs(seconds);
    match form {
        TimeForm::Utc => Time::UtcTime(UtcTime::from_unix_duration(time)?).to_der(),
        TimeForm::Generalized => Time::GeneralTime(
            GeneralizedTime::from_unix_duration(time)?,
        ).to_der(),
    }
}

/// `Validity::to_der` of `x509-cert`, on two times that `Time::from_der`
/// reads.
///
/// Trusted: what comes back is what [`validity_der`] names for these
/// arguments.
#[verifier::external_body]
pub(crate) fn encode_validity(not_before: &[u8], not_after: &[u8]) -> (r: Result<
    Vec<u8>,
    der::Error,
>)
    ensures
        is_encoding(r, validity_der(not_before@, not_after@)),
{
    Validity {
        not_before: Time::from_der(not_before)?,
        not_after: Time::from_der(not_after)?,
    }.to_der()
}

/// `BasicConstraints::to_der` of `x509-cert`.
///
/// Trusted: what comes back is what [`basic_constraints_der`] names for these
/// arguments.
#[verifier::external_body]
pub(crate) fn encode_basic_constraints(ca: bool, path_len: Option<u8>) -> (r: Result<
    Vec<u8>,
    der::Error,
>)
    ensures
        is_encoding(r, basic_constraints_der(ca, path_len)),
{
    BasicConstraints { ca, path_len_constraint: path_len }.to_der()
}

/// `KeyUsage::to_der` of `x509-cert`, on the flags that `FlagSet::new_truncated`
/// makes of `bits`. Only the nine lowest bits are flags: others are not admitted.
///
/// Trusted: what comes back is what [`key_usage_der`] names for these
/// arguments.
#[verifier::external_body]
pub(crate) fn encode_key_usage(bits: u16) -> (r: Result<Vec<u8>, der::Error>)
    requires
        bits < 0x200,
    ensures
        is_encoding(r, key_usage_der(bits)),
{
    KeyUsage(FlagSet::new_truncated(bits)).to_der()
}

/// `GeneralName::to_der` of `x509-cert`, on a DNS name.
///
/// Trusted: what comes back is what [`dns_name_der`] names for these
/// arguments.
#[verifier::external_body]
pub(crate) fn encode_dns_name(name: &str) -> (r: Result<Vec<u8>, der::Error>)
    ensures
        is_encoding(r, dns_name_der(name@)),
{
    GeneralName::DnsName(Ia5String::new(name)?).to_der()
}

/// `GeneralName::to_der` of `x509-cert`, on an IP address.
///
/// Trusted: what comes back is what [`ip_address_der`] names for these
/// arguments.
#[verifier::external_body]
pub(crate) fn encode_ip_address(octets: &[u8]) -> (r: Result<Vec<u8>, der::Error>)
    ensures
        is_encoding(r, ip_address_der(octets@)),
{
    GeneralName::IpAddress(OctetString::new(octets)?).to_der()
}

/// `SubjectAltName::to_der` of `x509-cert`, on the general names that `names`
/// encode, in their order.
///
/// Trusted: what comes back is what [`subject_alt_name_der`] names for these
/// arguments.
#[verifier::external_body]
pub(crate) fn encode_subject_alt_name(names: &Vec<Vec<u8>>) -> (r: Result<Vec<u8>, der::Error>)
    ensures
        is_encoding(r, subject_alt_name_der(views(names@))),
{
    let names: Result<Vec<_>, _> = names.iter().map(|n| GeneralName::from_der(n)).collect();
    SubjectAltName(names?).to_der()
}

/// `Extension::to_der` of `x509-cert`. The value becomes an octet string.
///
/// Trusted: what comes back is what [`extension_der`] names for these
/// arguments.
#[verifier::external_body]
pub(crate) fn encode_extension(arcs: &[u32], critical: bool, value: &[u8]) -> (r: Result<
    Vec<u8>,
    der::Error,
>)
    ensures
        is_encoding(r, extension_der(arcs@, critical, value@)),
{
    let extn_id = ObjectIdentifier::from_arcs(arcs.iter().copied())?;
    Extension { extn_id, critical, extn_value: OctetString::new(value)? }.to_der()
}

/// `TbsCertificate::to_der` of `x509-cert`, on a certificate without unique
/// identifiers. The serial number is made by `SerialNumber::new`.
///
/// Trusted: what comes back is what [`tbs_certificate_der`] names for these
/// arguments.
#[verifier::external_body]
pub(crate) fn encode_tbs_certificate(
    version: u8,
    serial: &[u8],
    signature: &[u8],
    issuer: &[u8],
    validity: &[u8],
    subject: &[u8],
    key_info: &[u8],
    extensions: &Vec<Vec<u8>>,
) -> (r: Result<Vec<u8>, der::Error>)
    ensures
        is_encoding(
            r,
            tbs_certificate_der(
                version,
                serial@,
                signature@,
                issuer@,
                validity@,
                subject@,
                key_info@,
                views(extensions@),
            ),
        ),
{
    let extensions: Result<Vec<_>, _> = extensions.iter().map(|e| Extension::from_der(e)).collect();
    TbsCertificate {
        version: Version::try_from(version)?,
        serial_number: SerialNumber::new(serial)?,
        signature: AlgorithmIdentifierOwned::from_der(signature)?,
        issuer: Name::from_der(issuer)?,
        validity: Validity::from_der(validity)?,
        subject: Name::from_der(subject)?,
        subject_public_key_info: SubjectPublicKeyInfoOwned::from_der(key_info)?,
        issuer_unique_id: None,
        subject_unique_id: None,
        extensions: Some(extensions?),
    }.to_der()
}

/// `Certificate::to_der` of `x509-cert`. The signature becomes a bit string
/// without unused bits.
///
/// Trusted: what comes back is what [`certificate_der`] names for these
/// arguments.
#[verifier::external_body]
pub(crate) fn encode_certificate(tbs: &[u8], algorithm: &[u8], signature: &[u8]) -> (r: Result<
    Vec<u8>,
    der::Error,
>)
    ensures
        is_encoding(r, certificate_der(tbs@, algorithm@, signature@)),
{
    Certificate {
        tbs_certificate: TbsCertificate::from_der(tbs)?,
        signature_algorithm: AlgorithmIdentifierOwned::from_der(algorithm)?,
        signature: BitString::from_bytes(signature)?,
    }.to_der()
}

/// `pem::encode_string` of `der`: the PEM document of `data` under `label`.
///
/// Trusted: what comes back is what [`pem_text`] names for these
/// arguments.
#[verifier::external_body]
pub(crate) fn encode_pem(label: &str, line_ending: LineEnding, data: &[u8]) -> (r: Result<
    String,
    der::Error,
>)
    ensures
        r matches Ok(text) ==> pem_text(label@, line_ending, data@) == Some(text@),
        r is Err ==> pem_text(label@, line_ending, data@) is None,
{
    let ending = match line_ending {
        LineEnding::LF => der::pem::LineEnding::LF,
        LineEnding::CRLF => der::pem::LineEnding::CRLF,
    };
    Ok(der::pem::encode_string(label, ending, data)?)
}

} // verus!
