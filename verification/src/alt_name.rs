//! Subject alternative names: the DNS names and IP addresses a certificate is for.

use vstd::prelude::*;
use vstd::slice::slice_to_vec;
use vstd::string::StringSliceAdditionalSpecFns;
use crate::encoding::{
    dns_name_der, encode_dns_name, encode_ip_address, ia5_string_accepts, ip_address_der, is_ia5,
    MAX_DER_LENGTH,
};
use crate::error::GenError;
use crate::ip::{ip_spec, ipv4_spec, parse_ipv4, parse_ipv6};
use crate::ip_text::{format_ipv4, format_ipv6, ipv4_text, ipv6_text};
use crate::x509::{encoded, DerEncode};

verus! {

/// The kinds of alternative name.
#[derive(Clone, Copy, Debug, PartialEq, Eq, Structural)]
pub enum AltNameType {
    /// A DNS name.
    DNS,
    /// An IP address.
    IP,
}

impl AltNameType {
    /// The number that stands for the kind: 0 for a DNS name, 1 for an IP address.
    pub open spec fn number_spec(self) -> u8 {
        match self {
            AltNameType::DNS => 0,
            AltNameType::IP => 1,
        }
    }

    /// The number that stands for the kind.
    pub fn into_primitive(self) -> (number: u8)
        ensures
            number == self.number_spec(),
    {
        match self {
            AltNameType::DNS => 0,
            AltNameType::IP => 1,
        }
    }

    /// The kind that `number` stands for. A number that stands for none is
    /// taken for a DNS name.
    pub fn from_primitive(number: u8) -> (kind: AltNameType)
        ensures
            kind == (if number == 1 {
                AltNameType::IP
            } else {
                AltNameType::DNS
            }),
            kind.number_spec() == number || (number > 1 && kind == AltNameType::DNS),
    {
        if number == 1 {
            AltNameType::IP
        } else {
            AltNameType::DNS
        }
    }

    /// What the kind is called: `DNS` or `IP`.
    pub fn label(self) -> (text: &'static str)
        ensures
            text@ == (match self {
                AltNameType::DNS => "DNS"@,
                AltNameType::IP => "IP"@,
            }),
    {
        match self {
            AltNameType::DNS => "DNS",
            AltNameType::IP => "IP",
        }
    }

    /// Both kinds, in the order in which they are offered.
    pub fn all() -> (kinds: Vec<AltNameType>)
        ensures
            kinds@ == seq![AltNameType::DNS, AltNameType::IP],
    {
        vec![AltNameType::DNS, AltNameType::IP]
    }
}

impl Default for AltNameType {
    fn default() -> (kind: AltNameType)
        ensures
            kind == AltNameType::DNS,
    {
        AltNameType::DNS
    }
}

/// An IP address, as its bytes in network order.
#[derive(Clone, Copy, Debug, PartialEq, Eq)]
pub enum IpAddress {
    /// An IPv4 address.
    V4([u8; 4]),
    /// An IPv6 address.
    V6([u8; 16]),
}

impl IpAddress {
    /// The address as text: see [`ipv4_text`] and [`ipv6_text`].
    pub open spec fn text_spec(&self) -> Seq<char> {
        match self {
            IpAddress::V4(octets) => ipv4_text(octets@),
            IpAddress::V6(octets) => ipv6_text(octets@),
        }
    }

    /// The address as text.
    pub fn text(&self) -> (text: String)
        ensures
            text@ == self.text_spec(),
    {
        match self {
            IpAddress::V4(octets) => format_ipv4(octets),
            IpAddress::V6(octets) => format_ipv6(octets),
        }
    }

    /// The bytes of the address: 4 for IPv4, 16 for IPv6.
    pub open spec fn octets_spec(&self) -> Seq<u8> {
        match self {
            IpAddress::V4(octets) => octets@,
            IpAddress::V6(octets) => octets@,
        }
    }

    /// The address that `text` writes, as [`ip_spec`] reads it: an IPv4 address
    /// where the text is one, or else an IPv6 address. Fails with
    /// [`GenError::Parse`] where the text is neither.
    pub fn parse(text: &str) -> (r: Result<IpAddress, GenError>)
        ensures
            match r {
                Ok(address) => ip_spec(text.spec_bytes()) == Some(address.octets_spec())
                    && (address is V4 <==> ipv4_spec(text.spec_bytes()) is Some),
                Err(e) => e == GenError::Parse && ip_spec(text.spec_bytes()) is None,
            },
    {
        let bytes = text.as_bytes();
        if let Some(octets) = parse_ipv4(bytes) {
            return Ok(IpAddress::V4(octets));
        }
        match parse_ipv6(bytes) {
            Some(octets) => Ok(IpAddress::V6(octets)),
            None => Err(GenError::Parse),
        }
    }

    /// The bytes of the address: 4 for IPv4, 16 for IPv6.
    pub fn octets(&self) -> (octets: Vec<u8>)
        ensures
            octets@ == self.octets_spec(),
            self is V4 ==> octets@.len() == 4,
            self is V6 ==> octets@.len() == 16,
    {
        match self {
            IpAddress::V4(octets) => slice_to_vec(octets.as_slice()),
            IpAddress::V6(octets) => slice_to_vec(octets.as_slice()),
        }
    }
}

/// An alternative name of the subject.
#[derive(Debug, PartialEq, Eq)]
pub enum AltName {
    /// A DNS name, as it was given.
    DNS(String),
    /// An IP address.
    IP(IpAddress),
}

impl Clone for AltName {
    fn clone(&self) -> (copy: AltName)
        ensures
            copy == *self,
    {
        match self {
            AltName::DNS(name) => AltName::DNS(name.clone()),
            AltName::IP(address) => AltName::IP(*address),
        }
    }
}

impl AltName {
    /// The name of kind `typ` that `val` writes. A DNS name is taken as it
    /// is; an IP address is read as [`IpAddress::parse`] reads it, and the
    /// call fails with [`GenError::Parse`] where `val` writes none.
    pub fn parse(typ: AltNameType, val: &str) -> (r: Result<AltName, GenError>)
        ensures
            match typ {
                AltNameType::DNS => r matches Ok(AltName::DNS(name)) && name@ == val@,
                AltNameType::IP => match r {
                    Ok(name) => name matches AltName::IP(address) && ip_spec(val.spec_bytes())
                        == Some(address.octets_spec()),
                    Err(e) => e == GenError::Parse && ip_spec(val.spec_bytes()) is None,
                },
            },
    {
        match typ {
            AltNameType::DNS => Ok(AltName::DNS(val.to_owned())),
            AltNameType::IP => Ok(AltName::IP(IpAddress::parse(val)?)),
        }
    }

    /// The kind of the name.
    pub open spec fn kind_spec(&self) -> AltNameType {
        match self {
            AltName::DNS(_) => AltNameType::DNS,
            AltName::IP(_) => AltNameType::IP,
        }
    }

    /// The kind of the name.
    pub fn kind(&self) -> (kind: AltNameType)
        ensures
            kind == self.kind_spec(),
    {
        match self {
            AltName::DNS(_) => AltNameType::DNS,
            AltName::IP(_) => AltNameType::IP,
        }
    }

    /// The kind of the name as text: `DNS` or `IP`.
    pub fn type_label(&self) -> (text: &'static str)
        ensures
            text@ == (match self {
                AltName::DNS(_) => "DNS"@,
                AltName::IP(_) => "IP"@,
            }),
    {
        match self {
            AltName::DNS(_) => "DNS",
            AltName::IP(_) => "IP",
        }
    }

    /// The name as text: a DNS name as it is, an IP address as
    /// [`IpAddress::text`] writes it.
    pub fn text(&self) -> (text: String)
        ensures
            text@ == (match self {
                AltName::DNS(name) => name@,
                AltName::IP(address) => address.text_spec(),
            }),
    {
        match self {
            AltName::DNS(name) => name.clone(),
            AltName::IP(address) => address.text(),
        }
    }

    /// Whether the name can be written into a certificate: a DNS name must
    /// have IA5 characters only and a length that can be encoded.
    pub open spec fn encodable_spec(&self) -> bool {
        match self {
            AltName::DNS(name) => is_ia5(name@) && name@.len() <= MAX_DER_LENGTH,
            AltName::IP(_) => true,
        }
    }
}

/// What a [`GeneralName`] holds.
pub enum GeneralNameView {
    /// A DNS name.
    DnsName(Seq<char>),
    /// The bytes of an IP address.
    IpAddress(Seq<u8>),
}

/// A name as a certificate holds it.
#[derive(Debug, PartialEq, Eq)]
pub enum GeneralName {
    /// A DNS name, an `IA5String`.
    DnsName(String),
    /// An IP address: 4 or 16 bytes.
    IpAddress(Vec<u8>),
}

impl View for GeneralName {
    type V = GeneralNameView;

    open spec fn view(&self) -> GeneralNameView {
        match self {
            GeneralName::DnsName(name) => GeneralNameView::DnsName(name@),
            GeneralName::IpAddress(octets) => GeneralNameView::IpAddress(octets@),
        }
    }
}

impl GeneralName {
    /// The general name that stands for `value`.
    pub open spec fn of_spec(value: AltName) -> GeneralNameView {
        match value {
            AltName::DNS(name) => GeneralNameView::DnsName(name@),
            AltName::IP(address) => GeneralNameView::IpAddress(address.octets_spec()),
        }
    }

    /// The general name for `value`: a DNS name as it is, an IP address as its
    /// 4 or 16 bytes. Fails with [`GenError::Parse`] on a DNS name that is no
    /// `IA5String`.
    pub fn try_from(value: AltName) -> (r: Result<GeneralName, GenError>)
        ensures
            match r {
                Ok(name) => value.encodable_spec() && name@ == GeneralName::of_spec(value),
                Err(e) => e == GenError::Parse && !value.encodable_spec(),
            },
    {
        match value {
            AltName::DNS(name) => {
                if ia5_string_accepts(name.as_str()) {
                    Ok(GeneralName::DnsName(name))
                } else {
                    Err(GenError::Parse)
                }
            },
            AltName::IP(address) => Ok(GeneralName::IpAddress(address.octets())),
        }
    }
}

impl DerEncode for GeneralName {
    open spec fn der_spec(&self) -> Option<Seq<u8>> {
        match self {
            GeneralName::DnsName(name) => dns_name_der(name@),
            GeneralName::IpAddress(octets) => ip_address_der(octets@),
        }
    }

    fn to_der(&self) -> (r: Result<Vec<u8>, GenError>) {
        match self {
            GeneralName::DnsName(name) => encoded(encode_dns_name(name.as_str())),
            GeneralName::IpAddress(octets) => encoded(encode_ip_address(octets.as_slice())),
        }
    }
}

} // verus!
