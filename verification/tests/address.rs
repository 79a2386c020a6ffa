use mkrpki::address::{
    parse_dec_octet, parse_hex_group, parse_ip_address, parse_ipv4, parse_ipv6, IpAddress,
};
use mkrpki::text::{
    chars_of, copy_range, digit_of, find_from, parse_u8, read_number, split,
};

fn chars(s: &str) -> Vec<char> {
    s.chars().collect()
}

fn strings(parts: Vec<Vec<char>>) -> Vec<String> {
    parts.into_iter().map(|part| part.into_iter().collect()).collect()
}

#[test]
fn text_helpers() {
    assert_eq!(chars_of("a/b"), vec!['a', '/', 'b']);
    assert_eq!(chars_of(""), Vec::<char>::new());
    assert_eq!(find_from(&chars("a-b-c"), '-', 0), 1);
    assert_eq!(find_from(&chars("a-b-c"), '-', 2), 3);
    assert_eq!(find_from(&chars("abc"), '-', 0), 3);
    assert_eq!(strings(split(&chars("1.2..3"), '.')), vec!["1", "2", "", "3"]);
    assert_eq!(strings(split(&chars(""), '.')), vec![""]);
    assert_eq!(strings(split(&chars("."), '.')), vec!["", ""]);
    assert_eq!(copy_range(&chars("abcdef"), 2, 4), vec!['c', 'd']);
    assert_eq!(copy_range(&chars("abcdef"), 3, 3), Vec::<char>::new());
    assert_eq!(chars_of("a\u{e4}\u{1f600}b").len(), 4);
}

#[test]
fn digits() {
    assert_eq!(digit_of('0', 10), Some(0));
    assert_eq!(digit_of('9', 10), Some(9));
    assert_eq!(digit_of('a', 10), None);
    assert_eq!(digit_of('a', 16), Some(10));
    assert_eq!(digit_of('F', 16), Some(15));
    assert_eq!(digit_of('g', 16), None);
    assert_eq!(digit_of('/', 16), None);
    assert_eq!(digit_of(':', 16), None);
    assert_eq!(digit_of('\u{663}', 10), None);
}

#[test]
fn numbers() {
    assert_eq!(read_number(&chars("255"), 10, 255), Some(255));
    assert_eq!(read_number(&chars("256"), 10, 255), None);
    assert_eq!(read_number(&chars("ffff"), 16, 0xffff), Some(0xffff));
    assert_eq!(read_number(&chars("FfFf"), 16, 0xffff), Some(0xffff));
    assert_eq!(read_number(&chars("10000"), 16, 0xffff), None);
    assert_eq!(read_number(&chars("a"), 10, 255), None);
    assert_eq!(read_number(&chars(""), 10, 255), None);
    assert_eq!(read_number(&chars("000000000000000000000000012"), 10, 255), Some(12));
    assert_eq!(read_number(&chars("99999999999999999999999999"), 10, 255), None);
}

#[test]
fn lengths_are_read_as_u8() {
    for text in ["0", "8", "32", "128", "255", "+8", "008", "0000000000255", "+0"] {
        assert_eq!(parse_u8(&chars(text)), text.parse::<u8>().ok(), "{}", text);
        assert!(parse_u8(&chars(text)).is_some(), "{}", text);
    }
    for text in ["", "+", "-1", "256", "1000", "8 ", " 8", "0x8", "8a", "++8", "-0", "٣"] {
        assert_eq!(parse_u8(&chars(text)), None, "{}", text);
        assert!(text.parse::<u8>().is_err(), "{}", text);
    }
}

#[test]
fn octets_and_groups() {
    assert_eq!(parse_dec_octet(&chars("0")), Some(0));
    assert_eq!(parse_dec_octet(&chars("255")), Some(255));
    assert_eq!(parse_dec_octet(&chars("256")), None);
    assert_eq!(parse_dec_octet(&chars("01")), None);
    assert_eq!(parse_dec_octet(&chars("00")), None);
    assert_eq!(parse_dec_octet(&chars("")), None);
    assert_eq!(parse_dec_octet(&chars("+1")), None);
    assert_eq!(parse_dec_octet(&chars("1000")), None);
    assert_eq!(parse_hex_group(&chars("0")), Some(0));
    assert_eq!(parse_hex_group(&chars("0db8")), Some(0x0db8));
    assert_eq!(parse_hex_group(&chars("DB8")), Some(0x0db8));
    assert_eq!(parse_hex_group(&chars("00000")), None);
    assert_eq!(parse_hex_group(&chars("")), None);
    assert_eq!(parse_hex_group(&chars("g")), None);
}

#[test]
fn ipv4_addresses() {
    assert_eq!(parse_ipv4(&chars("10.0.0.0")), Some(0x0a00_0000));
    assert_eq!(parse_ipv4(&chars("192.168.1.254")), Some(0xc0a8_01fe));
    assert_eq!(parse_ipv4(&chars("255.255.255.255")), Some(0xffff_ffff));
    assert_eq!(parse_ipv4(&chars("0.0.0.0")), Some(0));
    for text in ["", "10", "10.0.0", "10.0.0.0.0", "10.0.0.256", "10.0.0.01", "10..0.0",
        "10.0.0.0.", ".10.0.0.0", "10.0.0.0 ", "a.b.c.d", "1.2.3.-4", "0x10.0.0.0", "::"]
    {
        assert_eq!(parse_ipv4(&chars(text)), None, "{}", text);
    }
}

#[test]
fn ipv6_addresses() {
    assert_eq!(parse_ipv6(&chars("::")), Some(0));
    assert_eq!(parse_ipv6(&chars("::1")), Some(1));
    assert_eq!(parse_ipv6(&chars("1::")), Some(1 << 112));
    assert_eq!(parse_ipv6(&chars("2001:db8::")), Some(0x2001_0db8 << 96));
    assert_eq!(
        parse_ipv6(&chars("1:2:3:4:5:6:7:8")),
        Some(0x0001_0002_0003_0004_0005_0006_0007_0008)
    );
    assert_eq!(
        parse_ipv6(&chars("FFFF:ffff:ffff:ffff:ffff:ffff:ffff:ffff")),
        Some(u128::MAX)
    );
    assert_eq!(
        parse_ipv6(&chars("1:2:3:4:5:6:7::")),
        Some(0x0001_0002_0003_0004_0005_0006_0007_0000)
    );
    assert_eq!(
        parse_ipv6(&chars("::2:3:4:5:6:7:8")),
        Some(0x0000_0002_0003_0004_0005_0006_0007_0008)
    );
    assert_eq!(parse_ipv6(&chars("::ffff:10.0.0.1")), Some(0xffff_0a00_0001));
    assert_eq!(parse_ipv6(&chars("::10.0.0.1")), Some(0x0a00_0001));
    assert_eq!(
        parse_ipv6(&chars("1:2:3:4:5:6:10.0.0.1")),
        Some(0x0001_0002_0003_0004_0005_0006_0a00_0001)
    );
    assert_eq!(parse_ipv6(&chars("64:ff9b::192.0.2.33")), Some((0x0064_ff9b << 96) | 0xc000_0221));
}

#[test]
fn texts_that_are_no_ipv6_address() {
    for text in ["", ":", ":::", "1", "1:2:3:4:5:6:7", "1:2:3:4:5:6:7:8:9", "1:2:3:4:5:6:7:8::",
        "::1:2:3:4:5:6:7:8", "1::2::3", "12345::", "::g", "1:2:3:4:5:6:7:10.0.0.1",
        "10.0.0.1::", "1:10.0.0.1::", "::10.0.0.1:1", "::1:2:3:4:5:6:10.0.0.1", "1:::2",
        ":1::2", "1::2:", "::1%eth0", "[::1]", " ::1", "::1 ", "1:2:3:4:5:6:7:", ":1:2:3:4:5:6:7",
        "::10.0.0.256", "::10.0.0", "::01.2.3.4"]
    {
        assert_eq!(parse_ipv6(&chars(text)), None, "{}", text);
    }
}

#[test]
fn either_family() {
    assert_eq!(parse_ip_address(&chars("10.0.0.0")), Some(IpAddress::V4(0x0a00_0000)));
    assert_eq!(parse_ip_address(&chars("2001:db8::")), Some(IpAddress::V6(0x2001_0db8 << 96)));
    assert_eq!(parse_ip_address(&chars("example.net")), None);
    assert!(IpAddress::V4(1).is_ipv4());
    assert!(!IpAddress::V4(1).is_ipv6());
    assert!(IpAddress::V6(1).is_ipv6());
    assert!(!IpAddress::V6(1).is_ipv4());
}
