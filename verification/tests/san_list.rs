use certgen::alt_name::{AltName, AltNameType, IpAddress};
use certgen::san_list::{SANList, SANListMessage};

#[test]
fn a_list_starts_with_what_it_is_given() {
    let state = SANList::create(vec![]);
    assert!(state.list.is_empty());
    assert_eq!(state.to_add_type, AltNameType::DNS);
    assert_eq!(state.to_add_value, "");
    let state = SANList::create(vec![AltName::DNS("a".to_string())]);
    assert_eq!(state.list, vec![AltName::DNS("a".to_string())]);
}

#[test]
fn kind_and_text_change_without_touching_the_list() {
    let mut state = SANList::create(vec![AltName::DNS("a".to_string())]);
    assert!(!state.update(SANListMessage::UpdateToAddType(AltNameType::IP)));
    assert_eq!(state.to_add_type, AltNameType::IP);
    assert_eq!(state.to_add_value, "");
    assert!(!state.update(SANListMessage::UpdateToAddValue("10.0.0.1".to_string())));
    assert_eq!(state.to_add_type, AltNameType::IP);
    assert_eq!(state.to_add_value, "10.0.0.1");
    assert_eq!(state.list, vec![AltName::DNS("a".to_string())]);
}

#[test]
fn names_are_added_at_the_end() {
    let mut state = SANList::create(vec![]);
    state.update(SANListMessage::UpdateToAddValue("example.com".to_string()));
    assert!(state.update(SANListMessage::Add));
    state.update(SANListMessage::UpdateToAddType(AltNameType::IP));
    state.update(SANListMessage::UpdateToAddValue("::1".to_string()));
    assert!(state.update(SANListMessage::Add));
    state.update(SANListMessage::UpdateToAddValue("10.0.0.1".to_string()));
    assert!(state.update(SANListMessage::Add));
    let mut loopback = [0u8; 16];
    loopback[15] = 1;
    assert_eq!(
        state.list,
        vec![
            AltName::DNS("example.com".to_string()),
            AltName::IP(IpAddress::V6(loopback)),
            AltName::IP(IpAddress::V4([10, 0, 0, 1])),
        ]
    );
    assert_eq!(state.to_add_type, AltNameType::IP);
    assert_eq!(state.to_add_value, "10.0.0.1");
}

#[test]
fn text_that_is_no_address_adds_nothing() {
    let mut state = SANList::create(vec![AltName::DNS("a".to_string())]);
    state.update(SANListMessage::UpdateToAddType(AltNameType::IP));
    state.update(SANListMessage::UpdateToAddValue("example.com".to_string()));
    assert!(!state.update(SANListMessage::Add));
    assert_eq!(state.list, vec![AltName::DNS("a".to_string())]);
    assert_eq!(state.to_add_value, "example.com");
}

#[test]
fn a_name_is_removed_at_its_index() {
    let names = vec![
        AltName::DNS("a".to_string()),
        AltName::DNS("b".to_string()),
        AltName::DNS("c".to_string()),
    ];
    let mut state = SANList::create(names);
    assert!(state.update(SANListMessage::Remove(1)));
    assert_eq!(state.list, vec![AltName::DNS("a".to_string()), AltName::DNS("c".to_string())]);
    assert!(state.update(SANListMessage::Remove(1)));
    assert!(state.update(SANListMessage::Remove(0)));
    assert!(state.list.is_empty());
}

#[test]
fn kinds_and_their_numbers() {
    assert_eq!(AltNameType::DNS.into_primitive(), 0);
    assert_eq!(AltNameType::IP.into_primitive(), 1);
    assert_eq!(AltNameType::from_primitive(0), AltNameType::DNS);
    assert_eq!(AltNameType::from_primitive(1), AltNameType::IP);
    assert_eq!(AltNameType::from_primitive(2), AltNameType::DNS);
    assert_eq!(AltNameType::from_primitive(255), AltNameType::DNS);
    assert_eq!(AltNameType::all(), vec![AltNameType::DNS, AltNameType::IP]);
    assert_eq!(AltNameType::DNS.label(), "DNS");
    assert_eq!(AltNameType::IP.label(), "IP");
}
