//! Distinguished names: who issued a certificate, and whom it is about.

use vstd::prelude::*;
use vstd::utf8::encode_utf8;
use vstd::string::StringSliceAdditionalSpecFns;
use crate::encoding::{
    encode_name, encode_printable_attribute, encode_utf8_attribute, is_printable, name_der,
    printable_attribute_der, printable_string_accepts, utf8_attribute_der, utf8_string_accepts,
    MAX_DER_LENGTH,
};
use crate::error::GenError;
use crate::oid::Oid;
use crate::x509::{all_der_spec, encode_all, encoded, DerEncode};

verus! {

/// The ASN.1 string type in which the value of an attribute is written.
#[derive(Clone, Copy, Debug, PartialEq, Eq, Structural)]
pub enum StringType {
    /// `UTF8String`: any text.
    Utf8,
    /// `PrintableString`: letters, digits, space and `'()+,-./:=?`.
    Printable,
}

/// What an [`AttributeTypeAndValue`] holds.
pub struct AttributeView {
    /// The kind of the attribute.
    pub oid: Oid,
    /// The string type of the value.
    pub string_type: StringType,
    /// The value.
    pub value: Seq<char>,
}

/// One attribute of a distinguished name, such as the common name.
#[derive(Debug, PartialEq, Eq)]
pub struct AttributeTypeAndValue {
    /// The kind of the attribute.
    pub oid: Oid,
    /// The string type of the value.
    pub string_type: StringType,
    /// The value.
    pub value: String,
}

impl View for AttributeTypeAndValue {
    type V = AttributeView;

    open spec fn view(&self) -> AttributeView {
        AttributeView { oid: self.oid, string_type: self.string_type, value: self.value@ }
    }
}

impl Clone for AttributeTypeAndValue {
    fn clone(&self) -> (copy: AttributeTypeAndValue)
        ensures
            copy@ == self@,
    {
        AttributeTypeAndValue {
            oid: self.oid,
            string_type: self.string_type,
            value: self.value.clone(),
        }
    }
}

impl StringType {
    /// Whether `value` can be written in this string type.
    pub open spec fn accepts_spec(self, value: Seq<char>) -> bool {
        match self {
            StringType::Utf8 => encode_utf8(value).len() <= MAX_DER_LENGTH,
            StringType::Printable => is_printable(value) && value.len() <= MAX_DER_LENGTH,
        }
    }

    /// Whether `value` can be written in this string type.
    pub fn accepts(self, value: &str) -> (accepted: bool)
        ensures
            accepted == self.accepts_spec(value@),
    {
        match self {
            StringType::Utf8 => utf8_string_accepts(value),
            StringType::Printable => printable_string_accepts(value),
        }
    }

    /// The attribute of kind `oid` with the value `value` in this string type.
    /// Fails with [`GenError::Encoding`] where the string type cannot hold the value.
    pub fn into_attr(self, oid: Oid, value: &str) -> (r: Result<AttributeTypeAndValue, GenError>)
        ensures
            match r {
                Ok(attr) => self.accepts_spec(value@) && attr@ == (AttributeView {
                    oid,
                    string_type: self,
                    value: value@,
                }),
                Err(e) => e == GenError::Encoding && !self.accepts_spec(value@),
            },
    {
        if self.accepts(value) {
            Ok(AttributeTypeAndValue { oid, string_type: self, value: value.to_owned() })
        } else {
            Err(GenError::Encoding)
        }
    }
}

impl DerEncode for AttributeTypeAndValue {
    /// The encoding of the relative distinguished name that holds this attribute alone.
    open spec fn der_spec(&self) -> Option<Seq<u8>> {
        match self.string_type {
            StringType::Utf8 => utf8_attribute_der(self.oid.arcs_spec(), self.value@),
            StringType::Printable => printable_attribute_der(self.oid.arcs_spec(), self.value@),
        }
    }

    fn to_der(&self) -> (r: Result<Vec<u8>, GenError>) {
        let arcs = self.oid.arcs();
        match self.string_type {
            StringType::Utf8 => encoded(encode_utf8_attribute(arcs.as_slice(), self.value.as_str())),
            StringType::Printable => encoded(
                encode_printable_attribute(arcs.as_slice(), self.value.as_str()),
            ),
        }
    }
}

/// What each of `parts` holds, in their order.
pub open spec fn attribute_views(parts: Seq<AttributeTypeAndValue>) -> Seq<AttributeView> {
    parts.map_values(|part: AttributeTypeAndValue| part@)
}

/// What [`push_if_not_empty`] makes of `parts`: with a `value` that is not
/// empty and that `string_type` accepts, the attribute is added at the end;
/// otherwise nothing changes.
pub open spec fn pushed_if_not_empty(
    parts: Seq<AttributeView>,
    string_type: StringType,
    oid: Oid,
    value: Seq<char>,
) -> Seq<AttributeView> {
    if value.len() > 0 && string_type.accepts_spec(value) {
        parts.push(AttributeView { oid, string_type, value })
    } else {
        parts
    }
}

/// Adds the attribute of kind `oid` with the value `value` to `parts`, unless
/// the value is empty or `string_type` cannot hold it.
pub fn push_if_not_empty(
    parts: &mut Vec<AttributeTypeAndValue>,
    string_type: StringType,
    oid: Oid,
    value: &str,
)
    ensures
        attribute_views(final(parts)@) == pushed_if_not_empty(
            attribute_views(old(parts)@),
            string_type,
            oid,
            value@,
        ),
{
    if value.is_empty() {
        return ;
    }
    if let Ok(attr) = string_type.into_attr(oid, value) {
        parts.push(attr);
        assert(attribute_views(parts@) =~= attribute_views(old(parts)@).push(attr@));
    }
}

/// A distinguished name: attributes in the order in which they are written,
/// each in a relative distinguished name of its own.
#[derive(Debug, PartialEq, Eq)]
pub struct Name {
    /// The attributes.
    pub rdns: Vec<AttributeTypeAndValue>,
}

impl Clone for Name {
    fn clone(&self) -> (copy: Name)
        ensures
            copy@ == self@,
    {
        let mut rdns: Vec<AttributeTypeAndValue> = Vec::new();
        let mut i: usize = 0;
        while i < self.rdns.len()
            invariant
                i <= self.rdns@.len(),
                rdns@.len() == i,
                forall|j: int| 0 <= j < i ==> (#[trigger] rdns@[j])@ == self.rdns@[j]@,
            decreases self.rdns@.len() - i,
        {
            rdns.push(self.rdns[i].clone());
            i += 1;
        }
        let copy = Name { rdns };
        assert(copy@ =~= self@);
        copy
    }
}

impl Default for Name {
    /// The name without attributes.
    fn default() -> (name: Name)
        ensures
            name@ == Seq::<AttributeView>::empty(),
    {
        let name = Name { rdns: Vec::new() };
        assert(name@ =~= Seq::<AttributeView>::empty());
        name
    }
}

impl View for Name {
    type V = Seq<AttributeView>;

    open spec fn view(&self) -> Seq<AttributeView> {
        attribute_views(self.rdns@)
    }
}

/// The six texts a distinguished name is made of. An empty text stands for
/// an attribute that is left out.
#[derive(Debug, Default, PartialEq, Eq)]
pub struct SubjectFields {
    /// The common name, CN.
    pub common_name: String,
    /// The organization, O.
    pub organization: String,
    /// The organizational unit, OU.
    pub organizational_unit: String,
    /// The locality, L.
    pub locality: String,
    /// The state or province, ST.
    pub state: String,
    /// The country, C.
    pub country: String,
}

impl SubjectFields {
    /// The name these texts make: common name, organization, organizational
    /// unit, locality and state as `UTF8String`, then the country as
    /// `PrintableString`, each only where [`pushed_if_not_empty`] adds it.
    pub open spec fn name_spec(&self) -> Seq<AttributeView> {
        let cn = pushed_if_not_empty(
            Seq::empty(),
            StringType::Utf8,
            Oid::CommonName,
            self.common_name@,
        );
        let o = pushed_if_not_empty(cn, StringType::Utf8, Oid::Organization, self.organization@);
        let ou = pushed_if_not_empty(
            o,
            StringType::Utf8,
            Oid::OrganizationalUnit,
            self.organizational_unit@,
        );
        let l = pushed_if_not_empty(ou, StringType::Utf8, Oid::Locality, self.locality@);
        let st = pushed_if_not_empty(l, StringType::Utf8, Oid::StateOrProvince, self.state@);
        pushed_if_not_empty(st, StringType::Printable, Oid::Country, self.country@)
    }

    /// The distinguished name these texts make.
    pub fn to_name(&self) -> (name: Name)
        ensures
            name@ == self.name_spec(),
    {
        let mut parts: Vec<AttributeTypeAndValue> = Vec::new();
        assert(attribute_views(parts@) =~= Seq::empty());
        push_if_not_empty(&mut parts, StringType::Utf8, Oid::CommonName, self.common_name.as_str());
        push_if_not_empty(
            &mut parts,
            StringType::Utf8,
            Oid::Organization,
            self.organization.as_str(),
        );
        push_if_not_empty(
            &mut parts,
            StringType::Utf8,
            Oid::OrganizationalUnit,
            self.organizational_unit.as_str(),
        );
        push_if_not_empty(&mut parts, StringType::Utf8, Oid::Locality, self.locality.as_str());
        push_if_not_empty(&mut parts, StringType::Utf8, Oid::StateOrProvince, self.state.as_str());
        push_if_not_empty(&mut parts, StringType::Printable, Oid::Country, self.country.as_str());
        Name { rdns: parts }
    }
}

impl DerEncode for Name {
    open spec fn der_spec(&self) -> Option<Seq<u8>> {
        match all_der_spec(self.rdns@) {
            Some(parts) => name_der(parts),
            None => None,
        }
    }

    fn to_der(&self) -> (r: Result<Vec<u8>, GenError>) {
        let parts = encode_all(&self.rdns)?;
        encoded(encode_name(&parts))
    }
}

} // verus!
