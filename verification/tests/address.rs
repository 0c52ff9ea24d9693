use uppies::address::{parse_address, Address};

fn v4(a: u8, b: u8, c: u8, d: u8) -> Option<Address> {
    Some(Address::V4(u32::from_be_bytes([a, b, c, d])))
}

fn v6(groups: [u16; 8]) -> Option<Address> {
    let mut value: u128 = 0;
    for group in groups {
        value = (value << 16) | group as u128;
    }
    Some(Address::V6(value))
}

#[test]
fn ipv4_literals() {
    assert_eq!(parse_address("127.0.0.1"), Some(Address::V4(0x7f00_0001)));
    assert_eq!(parse_address("10.0.0.200"), v4(10, 0, 0, 200));
    assert_eq!(parse_address("0.0.0.0"), Some(Address::V4(0)));
    assert_eq!(parse_address("255.255.255.255"), Some(Address::V4(u32::MAX)));
    assert_eq!(parse_address("1.2.3.4"), Some(Address::V4(0x0102_0304)));
    assert_eq!(parse_address("192.168.100.9"), v4(192, 168, 100, 9));
}

#[test]
fn ipv4_numbers_stay_in_range() {
    assert_eq!(parse_address("256.0.0.1"), None);
    assert_eq!(parse_address("1.2.3.256"), None);
    assert_eq!(parse_address("1.2.3.999"), None);
    assert_eq!(parse_address("1.2.3.1000"), None);
    assert_eq!(parse_address("1.2.3.255"), v4(1, 2, 3, 255));
    assert_eq!(parse_address("1.2.3.249"), v4(1, 2, 3, 249));
}

#[test]
fn ipv4_has_no_leading_zeros() {
    assert_eq!(parse_address("01.2.3.4"), None);
    assert_eq!(parse_address("1.2.3.04"), None);
    assert_eq!(parse_address("1.2.3.00"), None);
    assert_eq!(parse_address("127.000.000.001"), None);
    assert_eq!(parse_address("1.0.0.0"), v4(1, 0, 0, 0));
}

#[test]
fn ipv4_has_four_numbers() {
    assert_eq!(parse_address(""), None);
    assert_eq!(parse_address("1"), None);
    assert_eq!(parse_address("1.2.3"), None);
    assert_eq!(parse_address("1.2.3.4.5"), None);
    assert_eq!(parse_address("1.2.3."), None);
    assert_eq!(parse_address(".1.2.3"), None);
    assert_eq!(parse_address("1..2.3"), None);
    assert_eq!(parse_address("..."), None);
}

#[test]
fn ipv4_has_digits_only() {
    assert_eq!(parse_address("1.2.3.a"), None);
    assert_eq!(parse_address("1.2.3.4 "), None);
    assert_eq!(parse_address(" 1.2.3.4"), None);
    assert_eq!(parse_address("1.2.3.-4"), None);
    assert_eq!(parse_address("1.2.3.+4"), None);
    assert_eq!(parse_address("0x7f.0.0.1"), None);
    assert_eq!(parse_address("1.2.3.4/24"), None);
    assert_eq!(parse_address("1.2.3.4:80"), None);
    assert_eq!(parse_address("１.2.3.4"), None);
}

#[test]
fn ipv6_full_literals() {
    assert_eq!(parse_address("1:2:3:4:5:6:7:8"), v6([1, 2, 3, 4, 5, 6, 7, 8]));
    assert_eq!(
        parse_address("2001:0db8:85a3:0000:0000:8a2e:0370:7334"),
        v6([0x2001, 0x0db8, 0x85a3, 0, 0, 0x8a2e, 0x0370, 0x7334])
    );
    assert_eq!(
        parse_address("FFFF:ffff:FfFf:ffff:ffff:ffff:ffff:ffff"),
        Some(Address::V6(u128::MAX))
    );
    assert_eq!(parse_address("0:0:0:0:0:0:0:0"), Some(Address::V6(0)));
    assert_eq!(parse_address("abcd:ef01:2345:6789:ABCD:EF01:2345:6789"),
        v6([0xabcd, 0xef01, 0x2345, 0x6789, 0xabcd, 0xef01, 0x2345, 0x6789]));
}

#[test]
fn ipv6_with_a_gap() {
    assert_eq!(parse_address("::"), Some(Address::V6(0)));
    assert_eq!(parse_address("::1"), Some(Address::V6(1)));
    assert_eq!(parse_address("1::"), v6([1, 0, 0, 0, 0, 0, 0, 0]));
    assert_eq!(parse_address("1::8"), v6([1, 0, 0, 0, 0, 0, 0, 8]));
    assert_eq!(parse_address("fe80::1:2"), v6([0xfe80, 0, 0, 0, 0, 0, 1, 2]));
    assert_eq!(parse_address("2001:db8::8a2e:370:7334"), v6([0x2001, 0xdb8, 0, 0, 0, 0x8a2e, 0x370, 0x7334]));
    assert_eq!(parse_address("1:2:3:4:5:6:7::"), v6([1, 2, 3, 4, 5, 6, 7, 0]));
    assert_eq!(parse_address("::2:3:4:5:6:7:8"), v6([0, 2, 3, 4, 5, 6, 7, 8]));
    assert_eq!(parse_address("1:2:3::5:6:7:8"), v6([1, 2, 3, 0, 5, 6, 7, 8]));
}

#[test]
fn ipv6_gap_stands_for_a_group_at_least() {
    assert_eq!(parse_address("1:2:3:4::5:6:7:8"), None);
    assert_eq!(parse_address("::1:2:3:4:5:6:7:8"), None);
    assert_eq!(parse_address("1:2:3:4:5:6:7:8::"), None);
    assert_eq!(parse_address("1:2:3:4:5:6::7.8.9.10"), None);
}

#[test]
fn ipv6_has_one_gap_at_most() {
    assert_eq!(parse_address("1::2::3"), None);
    assert_eq!(parse_address(":::"), None);
    assert_eq!(parse_address("::::"), None);
    assert_eq!(parse_address("1:::2"), None);
    assert_eq!(parse_address("::1::"), None);
}

#[test]
fn ipv6_has_eight_groups() {
    assert_eq!(parse_address("1:2:3:4:5:6:7"), None);
    assert_eq!(parse_address("1:2:3:4:5:6:7:8:9"), None);
    assert_eq!(parse_address(":"), None);
    assert_eq!(parse_address(":1"), None);
    assert_eq!(parse_address("1:"), None);
    assert_eq!(parse_address(":1:2:3:4:5:6:7"), None);
    assert_eq!(parse_address("1:2:3:4:5:6:7:"), None);
    assert_eq!(parse_address("1:2:3:4:5:6:7:8:"), None);
    assert_eq!(parse_address(":1:2:3:4:5:6:7:8"), None);
    assert_eq!(parse_address("1::2:"), None);
    assert_eq!(parse_address(":1::2"), None);
}

#[test]
fn ipv6_groups_have_four_hex_digits_at_most() {
    assert_eq!(parse_address("::00001"), None);
    assert_eq!(parse_address("12345::"), None);
    assert_eq!(parse_address("::g"), None);
    assert_eq!(parse_address("::-1"), None);
    assert_eq!(parse_address("1:2:3:4:5:6:7:FFFFF"), None);
    assert_eq!(parse_address("::0001"), Some(Address::V6(1)));
    assert_eq!(parse_address("::0"), Some(Address::V6(0)));
    assert_eq!(parse_address("::ffff"), Some(Address::V6(0xffff)));
}

#[test]
fn ipv6_may_end_in_ipv4() {
    assert_eq!(parse_address("::1.2.3.4"), v6([0, 0, 0, 0, 0, 0, 0x0102, 0x0304]));
    assert_eq!(parse_address("::ffff:192.168.1.10"), v6([0, 0, 0, 0, 0, 0xffff, 0xc0a8, 0x010a]));
    assert_eq!(
        parse_address("1:2:3:4:5:6:255.255.255.255"),
        v6([1, 2, 3, 4, 5, 6, 0xffff, 0xffff])
    );
    assert_eq!(parse_address("64:ff9b::10.0.0.1"), v6([0x64, 0xff9b, 0, 0, 0, 0, 0x0a00, 1]));
    assert_eq!(parse_address("1:2:3:4:5::1.2.3.4"), v6([1, 2, 3, 4, 5, 0, 0x0102, 0x0304]));
}

#[test]
fn ipv6_takes_ipv4_only_at_the_end() {
    assert_eq!(parse_address("1.2.3.4::"), None);
    assert_eq!(parse_address("1.2.3.4::1"), None);
    assert_eq!(parse_address("::1.2.3.4:5"), None);
    assert_eq!(parse_address("1:2:3:4:5:6:7:1.2.3.4"), None);
    assert_eq!(parse_address("1:2:3:4:5:1.2.3.4"), None);
    assert_eq!(parse_address("::1.2.3"), None);
    assert_eq!(parse_address("::1.2.3.256"), None);
    assert_eq!(parse_address("::01.2.3.4"), None);
    assert_eq!(parse_address("::1.2.3.4.5"), None);
}

#[test]
fn names_and_decorations_are_no_literals() {
    assert_eq!(parse_address("localhost"), None);
    assert_eq!(parse_address("example.com"), None);
    assert_eq!(parse_address("not-an-address"), None);
    assert_eq!(parse_address("[::1]"), None);
    assert_eq!(parse_address("fe80::1%eth0"), None);
    assert_eq!(parse_address("::1/128"), None);
    assert_eq!(parse_address("::1 "), None);
    assert_eq!(parse_address("é::1"), None);
}
