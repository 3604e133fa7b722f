use certgen::error::GenError;
use certgen::name::{push_if_not_empty, AttributeTypeAndValue, Name, StringType, SubjectFields};
use certgen::oid::Oid;
use certgen::x509::DerEncode;
use der::{Decode, Tagged};

fn fields(values: [&str; 6]) -> SubjectFields {
    SubjectFields {
        common_name: values[0].to_string(),
        organization: values[1].to_string(),
        organizational_unit: values[2].to_string(),
        locality: values[3].to_string(),
        state: values[4].to_string(),
        country: values[5].to_string(),
    }
}

fn parsed(name: &Name) -> x509_cert::name::Name {
    x509_cert::name::Name::from_der(&name.to_der().unwrap()).unwrap()
}

#[test]
fn all_six_attributes_in_their_order() {
    let name = fields(["host", "Org", "Unit", "Town", "State", "DE"]).to_name();
    let kinds: Vec<Oid> = name.rdns.iter().map(|attr| attr.oid).collect();
    assert_eq!(
        kinds,
        vec![
            Oid::CommonName,
            Oid::Organization,
            Oid::OrganizationalUnit,
            Oid::Locality,
            Oid::StateOrProvince,
            Oid::Country
        ]
    );
    let values: Vec<&str> = name.rdns.iter().map(|attr| attr.value.as_str()).collect();
    assert_eq!(values, vec!["host", "Org", "Unit", "Town", "State", "DE"]);
    let parsed = parsed(&name);
    assert_eq!(parsed.0.len(), 6);
    assert_eq!(parsed.to_string(), "C=DE,ST=State,L=Town,OU=Unit,O=Org,CN=host");
}

#[test]
fn the_country_is_printable_and_the_others_are_utf8() {
    let name = fields(["host", "Org", "Unit", "Town", "State", "DE"]).to_name();
    for attr in &name.rdns {
        if attr.oid == Oid::Country {
            assert_eq!(attr.string_type, StringType::Printable);
        } else {
            assert_eq!(attr.string_type, StringType::Utf8);
        }
    }
    let parsed = parsed(&name);
    for rdn in &parsed.0 {
        for attr in rdn.0.iter() {
            if attr.oid.to_string() == "2.5.4.6" {
                assert_eq!(attr.value.tag(), der::Tag::PrintableString);
            } else {
                assert_eq!(attr.value.tag(), der::Tag::Utf8String);
            }
        }
    }
}

#[test]
fn empty_attributes_are_left_out() {
    let name = fields(["", "", "", "", "", ""]).to_name();
    assert!(name.rdns.is_empty());
    assert_eq!(name.to_der().unwrap(), vec![0x30, 0x00]);

    let name = fields(["test", "", "", "", "", ""]).to_name();
    assert_eq!(name.rdns.len(), 1);
    assert_eq!(parsed(&name).to_string(), "CN=test");

    let name = fields(["", "Org", "", "", "", "FR"]).to_name();
    assert_eq!(name.rdns.len(), 2);
    assert_eq!(parsed(&name).to_string(), "C=FR,O=Org");
}

#[test]
fn a_country_that_is_not_printable_is_left_out() {
    let name = fields(["test", "", "", "", "", "D\u{c9}"]).to_name();
    assert_eq!(name.rdns.len(), 1);
    let name = fields(["test", "", "", "", "", "D_"]).to_name();
    assert_eq!(name.rdns.len(), 1);
    let name = fields(["test", "", "", "", "", "a-Z 0'()+,-./:=?"]).to_name();
    assert_eq!(name.rdns.len(), 2);
    assert_eq!(name.rdns[1].value, "a-Z 0'()+,-./:=?");
}

#[test]
fn any_text_is_utf8() {
    let name = fields(["b\u{fc}cher \u{1f4da}", "", "", "", "", ""]).to_name();
    assert_eq!(name.rdns.len(), 1);
    let parsed = parsed(&name);
    let attr = parsed.0[0].0.iter().next().unwrap();
    assert_eq!(attr.value.value(), "b\u{fc}cher \u{1f4da}".as_bytes());
}

#[test]
fn into_attr_keeps_kind_type_and_value() {
    let attr = StringType::Utf8.into_attr(Oid::Locality, "K\u{f6}ln").unwrap();
    assert_eq!(attr.oid, Oid::Locality);
    assert_eq!(attr.string_type, StringType::Utf8);
    assert_eq!(attr.value, "K\u{f6}ln");
    let attr = StringType::Printable.into_attr(Oid::Country, "DE").unwrap();
    assert_eq!(attr.oid, Oid::Country);
    assert_eq!(attr.string_type, StringType::Printable);
    assert_eq!(attr.value, "DE");
    assert!(matches!(
        StringType::Printable.into_attr(Oid::Country, "D*"),
        Err(GenError::Encoding)
    ));
    assert!(StringType::Printable.into_attr(Oid::Country, "").is_ok());
    assert!(StringType::Printable.accepts("Abc 123"));
    assert!(!StringType::Printable.accepts("a@b"));
    assert!(!StringType::Printable.accepts("a&b"));
    assert!(!StringType::Printable.accepts("a\u{e9}"));
    assert!(StringType::Utf8.accepts("a@b\u{e9}"));
}

#[test]
fn push_if_not_empty_adds_at_the_end_or_not_at_all() {
    let mut parts: Vec<AttributeTypeAndValue> = Vec::new();
    push_if_not_empty(&mut parts, StringType::Utf8, Oid::CommonName, "");
    assert!(parts.is_empty());
    push_if_not_empty(&mut parts, StringType::Utf8, Oid::CommonName, "first");
    push_if_not_empty(&mut parts, StringType::Printable, Oid::Country, "n\u{f6}");
    push_if_not_empty(&mut parts, StringType::Printable, Oid::Country, "");
    push_if_not_empty(&mut parts, StringType::Printable, Oid::Country, "NO");
    assert_eq!(parts.len(), 2);
    assert_eq!(parts[0].value, "first");
    assert_eq!(parts[0].oid, Oid::CommonName);
    assert_eq!(parts[1].value, "NO");
    assert_eq!(parts[1].oid, Oid::Country);
    assert_eq!(parts[1].string_type, StringType::Printable);
}

#[test]
fn one_attribute_is_encoded_as_a_set_of_one() {
    let attr = StringType::Utf8.into_attr(Oid::CommonName, "test").unwrap();
    let der = attr.to_der().unwrap();
    assert_eq!(
        der,
        vec![0x31, 0x0d, 0x30, 0x0b, 0x06, 0x03, 0x55, 0x04, 0x03, 0x0c, 0x04, b't', b'e', b's', b't']
    );
    let attr = StringType::Printable.into_attr(Oid::Country, "DE").unwrap();
    let der = attr.to_der().unwrap();
    assert_eq!(
        der,
        vec![0x31, 0x0b, 0x30, 0x09, 0x06, 0x03, 0x55, 0x04, 0x06, 0x13, 0x02, b'D', b'E']
    );
}

#[test]
fn a_value_that_its_string_type_refuses_is_not_encoded() {
    let attr = AttributeTypeAndValue {
        oid: Oid::Country,
        string_type: StringType::Printable,
        value: "D*".to_string(),
    };
    assert_eq!(attr.to_der(), Err(GenError::Encoding));
    let name = Name { rdns: vec![attr] };
    assert_eq!(name.to_der(), Err(GenError::Encoding));
}
