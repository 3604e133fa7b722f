use certgen::alt_name::{AltName, AltNameType, GeneralName, IpAddress};
use certgen::error::GenError;
use certgen::x509::DerEncode;
use der::Decode;

fn v6(groups: [u16; 8]) -> Result<IpAddress, GenError> {
    let mut octets = [0u8; 16];
    for (i, group) in groups.iter().enumerate() {
        octets[2 * i] = (group >> 8) as u8;
        octets[2 * i + 1] = (group & 0xff) as u8;
    }
    Ok(IpAddress::V6(octets))
}

#[test]
fn a_dns_name_is_taken_as_it_is() {
    match AltName::parse(AltNameType::DNS, "example.com").unwrap() {
        AltName::DNS(name) => assert_eq!(name, "example.com"),
        other => panic!("unexpected {:?}", other),
    }
    match AltName::parse(AltNameType::DNS, " *.Example.COM. ").unwrap() {
        AltName::DNS(name) => assert_eq!(name, " *.Example.COM. "),
        other => panic!("unexpected {:?}", other),
    }
    match AltName::parse(AltNameType::DNS, "127.0.0.1").unwrap() {
        AltName::DNS(name) => assert_eq!(name, "127.0.0.1"),
        other => panic!("unexpected {:?}", other),
    }
}

#[test]
fn a_dns_name_becomes_a_dns_general_name() {
    let name = AltName::parse(AltNameType::DNS, "example.com").unwrap();
    let general = GeneralName::try_from(name).unwrap();
    match &general {
        GeneralName::DnsName(text) => assert_eq!(text, "example.com"),
        other => panic!("unexpected {:?}", other),
    }
    let der = general.to_der().unwrap();
    let mut expected = vec![0x82, 11];
    expected.extend_from_slice(b"example.com");
    assert_eq!(der, expected);
    match x509_cert::ext::pkix::name::GeneralName::from_der(&der).unwrap() {
        x509_cert::ext::pkix::name::GeneralName::DnsName(text) => {
            assert_eq!(text.as_str(), "example.com")
        }
        other => panic!("unexpected {:?}", other),
    }
}

#[test]
fn an_ipv4_address_becomes_four_bytes() {
    let name = AltName::parse(AltNameType::IP, "127.0.0.1").unwrap();
    match &name {
        AltName::IP(address) => assert_eq!(*address, IpAddress::V4([127, 0, 0, 1])),
        other => panic!("unexpected {:?}", other),
    }
    let general = GeneralName::try_from(name).unwrap();
    match &general {
        GeneralName::IpAddress(octets) => assert_eq!(octets, &vec![127, 0, 0, 1]),
        other => panic!("unexpected {:?}", other),
    }
    assert_eq!(general.to_der().unwrap(), vec![0x87, 4, 127, 0, 0, 1]);
}

#[test]
fn an_ipv6_address_becomes_sixteen_bytes() {
    let name = AltName::parse(AltNameType::IP, "2001:db8::ff00:42:8329").unwrap();
    let general = GeneralName::try_from(name).unwrap();
    let octets = vec![0x20, 0x01, 0x0d, 0xb8, 0, 0, 0, 0, 0, 0, 0xff, 0, 0, 0x42, 0x83, 0x29];
    match &general {
        GeneralName::IpAddress(found) => assert_eq!(found, &octets),
        other => panic!("unexpected {:?}", other),
    }
    let mut expected = vec![0x87, 16];
    expected.extend_from_slice(&octets);
    assert_eq!(general.to_der().unwrap(), expected);
}

#[test]
fn text_that_is_no_address_is_refused() {
    assert!(matches!(AltName::parse(AltNameType::IP, "not-an-ip"), Err(GenError::Parse)));
    assert!(matches!(AltName::parse(AltNameType::IP, ""), Err(GenError::Parse)));
    assert!(matches!(AltName::parse(AltNameType::IP, "example.com"), Err(GenError::Parse)));
    assert_eq!(IpAddress::parse("not-an-ip"), Err(GenError::Parse));
}

#[test]
fn a_dns_name_outside_ia5_is_refused() {
    let name = AltName::parse(AltNameType::DNS, "b\u{fc}cher.example").unwrap();
    assert!(matches!(GeneralName::try_from(name), Err(GenError::Parse)));
    let name = AltName::DNS("\u{80}".to_string());
    assert!(matches!(GeneralName::try_from(name), Err(GenError::Parse)));
    let name = AltName::DNS("\u{7f}".to_string());
    assert!(GeneralName::try_from(name).is_ok());
    let name = AltName::DNS(String::new());
    assert!(GeneralName::try_from(name).is_ok());
}

#[test]
fn kinds_and_their_labels() {
    assert_eq!(AltNameType::default(), AltNameType::DNS);
    let dns = AltName::DNS("a".to_string());
    let ip = AltName::IP(IpAddress::V4([1, 2, 3, 4]));
    assert_eq!(dns.kind(), AltNameType::DNS);
    assert_eq!(ip.kind(), AltNameType::IP);
    assert_eq!(dns.type_label(), "DNS");
    assert_eq!(ip.type_label(), "IP");
}

#[test]
fn ipv4_addresses() {
    assert_eq!(IpAddress::parse("0.0.0.0"), Ok(IpAddress::V4([0, 0, 0, 0])));
    assert_eq!(IpAddress::parse("255.255.255.255"), Ok(IpAddress::V4([255, 255, 255, 255])));
    assert_eq!(IpAddress::parse("192.168.1.10"), Ok(IpAddress::V4([192, 168, 1, 10])));
    for text in [
        "256.0.0.1", "1.2.3", "1.2.3.4.5", "1.2.3.4.", ".1.2.3.4", "1..2.3", "01.2.3.4", "1.2.3.04",
        "1.2.3.4 ", " 1.2.3.4", "1.2.3.-4", "1.2.3.+4", "1.2.3.0x4", "1,2,3,4", "1.2.3.4/24",
        "0000.0.0.0", "1.2.3.1000", "999.1.1.1", "1.2.3.4\n", "a.b.c.d", "1.2.3.\u{663}",
    ] {
        assert_eq!(IpAddress::parse(text), Err(GenError::Parse), "{:?}", text);
    }
    assert_eq!(IpAddress::parse("00.0.0.0"), Err(GenError::Parse));
    assert_eq!(IpAddress::parse("0.0.0.00"), Err(GenError::Parse));
}

#[test]
fn ipv6_addresses() {
    assert_eq!(IpAddress::parse("::"), Ok(IpAddress::V6([0; 16])));
    let mut loopback = [0u8; 16];
    loopback[15] = 1;
    assert_eq!(IpAddress::parse("::1"), Ok(IpAddress::V6(loopback)));
    assert_eq!(
        IpAddress::parse("1:2:3:4:5:6:7:8"),
        Ok(IpAddress::V6([0, 1, 0, 2, 0, 3, 0, 4, 0, 5, 0, 6, 0, 7, 0, 8]))
    );
    assert_eq!(
        IpAddress::parse("FFFF:ffff:0abc:ABCD:0:00:000:0000"),
        Ok(IpAddress::V6([0xff, 0xff, 0xff, 0xff, 0x0a, 0xbc, 0xab, 0xcd, 0, 0, 0, 0, 0, 0, 0, 0]))
    );
    assert_eq!(
        IpAddress::parse("::ffff:192.0.2.128"),
        Ok(IpAddress::V6([0, 0, 0, 0, 0, 0, 0, 0, 0, 0, 0xff, 0xff, 192, 0, 2, 128]))
    );
    assert_eq!(
        IpAddress::parse("1:2:3:4:5:6:7::"),
        Ok(IpAddress::V6([0, 1, 0, 2, 0, 3, 0, 4, 0, 5, 0, 6, 0, 7, 0, 0]))
    );
    assert_eq!(
        IpAddress::parse("::2:3:4:5:6:7:8"),
        Ok(IpAddress::V6([0, 0, 0, 2, 0, 3, 0, 4, 0, 5, 0, 6, 0, 7, 0, 8]))
    );
}

#[test]
fn ipv6_addresses_with_an_elision() {
    assert_eq!(IpAddress::parse("1::"), v6([1, 0, 0, 0, 0, 0, 0, 0]));
    assert_eq!(IpAddress::parse("1::1"), v6([1, 0, 0, 0, 0, 0, 0, 1]));
    assert_eq!(IpAddress::parse("1::2:3:4:5:6:7"), v6([1, 0, 2, 3, 4, 5, 6, 7]));
    assert_eq!(IpAddress::parse("1:2:3::4:5:6"), v6([1, 2, 3, 0, 0, 4, 5, 6]));
    assert_eq!(IpAddress::parse("1:2:3:4::5:6:7"), v6([1, 2, 3, 4, 0, 5, 6, 7]));
    assert_eq!(IpAddress::parse("1234::"), v6([0x1234, 0, 0, 0, 0, 0, 0, 0]));
    assert_eq!(IpAddress::parse("0001::"), v6([1, 0, 0, 0, 0, 0, 0, 0]));
    assert_eq!(IpAddress::parse("ABCD:EF01::"), v6([0xabcd, 0xef01, 0, 0, 0, 0, 0, 0]));
    assert_eq!(IpAddress::parse("::ffff"), v6([0, 0, 0, 0, 0, 0, 0, 0xffff]));
    assert_eq!(IpAddress::parse("ffff::"), v6([0xffff, 0, 0, 0, 0, 0, 0, 0]));
    assert_eq!(IpAddress::parse("::a:b:c:d:e:f"), v6([0, 0, 0xa, 0xb, 0xc, 0xd, 0xe, 0xf]));
    assert_eq!(IpAddress::parse("a:b:c:d:e:f::"), v6([0xa, 0xb, 0xc, 0xd, 0xe, 0xf, 0, 0]));
    assert_eq!(
        IpAddress::parse("2001:db8::ff00:42:8329"),
        v6([0x2001, 0xdb8, 0, 0, 0, 0xff00, 0x42, 0x8329])
    );
}

#[test]
fn ipv6_addresses_written_in_full() {
    assert_eq!(IpAddress::parse("a:b:c:d:e:f:0:1"), v6([0xa, 0xb, 0xc, 0xd, 0xe, 0xf, 0, 1]));
    assert_eq!(
        IpAddress::parse("2001:db8:85a3:8d3:1319:8a2e:370:7348"),
        v6([0x2001, 0xdb8, 0x85a3, 0x8d3, 0x1319, 0x8a2e, 0x370, 0x7348])
    );
    assert_eq!(
        IpAddress::parse("2001:0db8:0000:0000:0000:ff00:0042:8329"),
        v6([0x2001, 0xdb8, 0, 0, 0, 0xff00, 0x42, 0x8329])
    );
    assert_eq!(
        IpAddress::parse("abcd:ef01:2345:6789:abcd:ef01:2345:6789"),
        v6([0xabcd, 0xef01, 0x2345, 0x6789, 0xabcd, 0xef01, 0x2345, 0x6789])
    );
}

#[test]
fn ipv6_addresses_that_end_in_an_ipv4_address() {
    assert_eq!(IpAddress::parse("::1.2.3.4"), v6([0, 0, 0, 0, 0, 0, 0x0102, 0x0304]));
    assert_eq!(IpAddress::parse("::ffff:1.2.3.4"), v6([0, 0, 0, 0, 0, 0xffff, 0x0102, 0x0304]));
    assert_eq!(
        IpAddress::parse("1:2:3:4:5:6:1.2.3.4"),
        v6([1, 2, 3, 4, 5, 6, 0x0102, 0x0304])
    );
    assert_eq!(
        IpAddress::parse("1:2:3:4:5:6:7.8.9.10"),
        v6([1, 2, 3, 4, 5, 6, 0x0708, 0x090a])
    );
    assert_eq!(
        IpAddress::parse("1:2:3:4:5::1.2.3.4"),
        v6([1, 2, 3, 4, 5, 0, 0x0102, 0x0304])
    );
    assert_eq!(
        IpAddress::parse("64:ff9b::192.0.2.33"),
        v6([0x64, 0xff9b, 0, 0, 0, 0, 0xc000, 0x0221])
    );
    for text in [
        "1.2.3.4::", "1.2.3.4::1", "1:1.2.3.4", "::1.2.3.4:1", "1:2:3:4:5:6:7:1.2.3.4",
        "1:2:3:4:5:1.2.3.4", "1:2:3:4:5:6::1.2.3.4", "::1.2.3", "::1.2.3.4.5", "::256.1.1.1",
        "::01.1.1.1", "::1.2.3.4 ", "::1.2.3.4::", "1.2.3.4:5:6:7:8:9:10",
    ] {
        assert_eq!(IpAddress::parse(text), Err(GenError::Parse), "{:?}", text);
    }
}

#[test]
fn text_that_is_no_ipv6_address() {
    for text in [
        "", ":::", "::::", ":", "1", "1:", ":1", "1:2", "1:2:3:4:5:6:7", "1:2:3:4:5:6:7:8:9",
        "1:2:3:4:5:6:7:8::", "::1:2:3:4:5:6:7:8", "1::2:3:4:5:6:7:8", "1::2::3", "1:::2",
        "12345::", "00001::", "g::", "G::1", "::g", "fe80::1%eth0", "[::1]", "::1 ", " ::1",
        "::1\n", "1:2:3:4:5:6:7:", ":1:2:3:4:5:6:7:8", "1::\u{ff11}", "::-1", "::+1", "::0x1",
        "1;2;3;4;5;6;7;8", "::1/128",
    ] {
        assert_eq!(IpAddress::parse(text), Err(GenError::Parse), "{:?}", text);
    }
}

#[test]
fn text_that_is_no_ipv4_address() {
    for text in [
        "192.168.001.1", "1.1.1.1.", "1.1.1", "1e1.1.1.1", "0x1.1.1.1", "127.1", "2130706433",
        "localhost", "\u{ff11}.1.1.1", "1.1.1.1111", "1111.1.1.1",
    ] {
        assert_eq!(IpAddress::parse(text), Err(GenError::Parse), "{:?}", text);
    }
}

fn v6_text(groups: [u16; 8]) -> String {
    v6(groups).unwrap().text()
}

#[test]
fn ipv4_addresses_as_text() {
    assert_eq!(IpAddress::V4([127, 0, 0, 1]).text(), "127.0.0.1");
    assert_eq!(IpAddress::V4([0, 0, 0, 0]).text(), "0.0.0.0");
    assert_eq!(IpAddress::V4([255, 255, 255, 255]).text(), "255.255.255.255");
    assert_eq!(IpAddress::V4([100, 9, 99, 109]).text(), "100.9.99.109");
    assert_eq!(IpAddress::V4([10, 200, 1, 20]).text(), "10.200.1.20");
    assert_eq!(AltName::IP(IpAddress::V4([1, 2, 3, 4])).text(), "1.2.3.4");
    assert_eq!(AltName::DNS("Example.COM".to_string()).text(), "Example.COM");
}

#[test]
fn ipv6_addresses_as_text() {
    assert_eq!(v6_text([0, 0, 0, 0, 0, 0, 0, 0]), "::");
    assert_eq!(v6_text([0, 0, 0, 0, 0, 0, 0, 1]), "::1");
    assert_eq!(v6_text([1, 0, 0, 0, 0, 0, 0, 0]), "1::");
    assert_eq!(v6_text([0x2001, 0xdb8, 0, 0, 0, 0xff00, 0x42, 0x8329]), "2001:db8::ff00:42:8329");
    assert_eq!(v6_text([0xa, 0xb, 0xc, 0xd, 0xe, 0xf, 0x10, 0x100]), "a:b:c:d:e:f:10:100");
    assert_eq!(
        v6_text([0xabcd, 0xef01, 0x2345, 0x6789, 0xffff, 0x1000, 0x0fff, 0x00ff]),
        "abcd:ef01:2345:6789:ffff:1000:fff:ff"
    );
}

#[test]
fn the_first_of_the_longest_runs_of_zero_is_elided() {
    assert_eq!(v6_text([1, 0, 0, 2, 0, 0, 0, 3]), "1:0:0:2::3");
    assert_eq!(v6_text([1, 0, 0, 0, 2, 0, 0, 3]), "1::2:0:0:3");
    assert_eq!(v6_text([1, 0, 0, 2, 0, 0, 3, 4]), "1::2:0:0:3:4");
    assert_eq!(v6_text([0, 0, 1, 0, 0, 0, 2, 0]), "0:0:1::2:0");
    assert_eq!(v6_text([0, 1, 0, 0, 0, 0, 0, 0]), "0:1::");
    assert_eq!(v6_text([0, 0, 0, 0, 0, 0, 1, 0]), "::1:0");
    assert_eq!(v6_text([1, 2, 3, 4, 5, 6, 0, 0]), "1:2:3:4:5:6::");
    assert_eq!(v6_text([0, 0, 3, 4, 5, 6, 7, 8]), "::3:4:5:6:7:8");
}

#[test]
fn a_single_group_of_zero_is_written_out() {
    assert_eq!(v6_text([1, 0, 2, 3, 4, 5, 6, 7]), "1:0:2:3:4:5:6:7");
    assert_eq!(v6_text([0, 1, 2, 3, 4, 5, 6, 7]), "0:1:2:3:4:5:6:7");
    assert_eq!(v6_text([1, 2, 3, 4, 5, 6, 7, 0]), "1:2:3:4:5:6:7:0");
    assert_eq!(v6_text([0, 1, 0, 1, 0, 1, 0, 1]), "0:1:0:1:0:1:0:1");
    assert_eq!(v6_text([1, 2, 3, 4, 5, 6, 7, 8]), "1:2:3:4:5:6:7:8");
}

#[test]
fn an_ipv4_address_inside_an_ipv6_address() {
    assert_eq!(v6_text([0, 0, 0, 0, 0, 0xffff, 0xc000, 0x0280]), "::ffff:192.0.2.128");
    assert_eq!(v6_text([0, 0, 0, 0, 0, 0xffff, 0, 0]), "::ffff:0.0.0.0");
    assert_eq!(v6_text([0, 0, 0, 0, 0, 0, 0x0102, 0x0304]), "::102:304");
    assert_eq!(v6_text([0, 0, 0, 0, 1, 0xffff, 0x0102, 0x0304]), "::1:ffff:102:304");
    assert_eq!(v6_text([0x64, 0xff9b, 0, 0, 0, 0, 0xc000, 0x0221]), "64:ff9b::c000:221");
}

#[test]
fn an_address_is_read_back_from_its_text() {
    let addresses = [
        v6([0, 0, 0, 0, 0, 0, 0, 0]),
        v6([0, 0, 0, 0, 0, 0, 0, 1]),
        v6([1, 0, 0, 2, 0, 0, 0, 3]),
        v6([1, 0, 2, 3, 4, 5, 6, 7]),
        v6([0, 0, 0, 0, 0, 0xffff, 0xc000, 0x0280]),
        v6([0xffff; 8]),
        v6([0, 1, 0, 0, 0, 0, 0, 0]),
        v6([1, 2, 3, 4, 5, 6, 0, 0]),
        Ok(IpAddress::V4([0, 0, 0, 0])),
        Ok(IpAddress::V4([192, 168, 100, 1])),
        Ok(IpAddress::V4([255, 255, 255, 255])),
    ];
    for address in addresses {
        let address = address.unwrap();
        assert_eq!(IpAddress::parse(&address.text()), Ok(address), "{}", address.text());
    }
    for a in 0..=255u8 {
        let address = IpAddress::V4([a, 255 - a, a / 2, a.wrapping_mul(7)]);
        assert_eq!(IpAddress::parse(&address.text()), Ok(address));
        let group = (a as u16) * 257;
        let address = v6([group, 0, a as u16, 0, 0, group >> 4, 0, a as u16 >> 7]).unwrap();
        assert_eq!(IpAddress::parse(&address.text()), Ok(address), "{}", address.text());
    }
}
