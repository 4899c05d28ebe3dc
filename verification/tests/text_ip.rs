use simulateur::config::dry_run_override;
use simulateur::ip::{parse_ip_str, IpAddress};
use simulateur::text::{str_eq_ignore_ascii_case, trim_str, u64_to_decimal};

#[test]
fn ipv4_addresses() {
    assert_eq!(parse_ip_str("0.0.0.0"), Some(IpAddress::V4(0)));
    assert_eq!(parse_ip_str("255.255.255.255"), Some(IpAddress::V4(u32::MAX)));
    assert_eq!(parse_ip_str("10.1.2.3"), Some(IpAddress::V4(0x0A01_0203)));
    assert_eq!(parse_ip_str("256.0.0.1"), None);
    assert_eq!(parse_ip_str("01.2.3.4"), None);
    assert_eq!(parse_ip_str("1.2.3"), None);
    assert_eq!(parse_ip_str("1.2.3.4.5"), None);
    assert_eq!(parse_ip_str("1.2.3.4 "), None);
    assert_eq!(parse_ip_str(""), None);
}

#[test]
fn ipv6_addresses() {
    for s in ["::", "::1", "2001:db8::1", "fe80::1:2:3:4", "1:2:3:4:5:6:7:8", "::ffff:10.0.0.1", "1::"] {
        assert_eq!(parse_ip_str(s), Some(IpAddress::V6), "{s}");
    }
    for s in [":::", "1:2:3:4:5:6:7:8:9", "1::2::3", "12345::", "g::1", "1:2:3:4:5:6:7", ":1::"] {
        assert_eq!(parse_ip_str(s), None, "{s}");
    }
}

#[test]
fn trimming_and_case() {
    assert_eq!(trim_str("  a b \t\n"), "a b");
    assert_eq!(trim_str("\u{3000}x\u{a0}"), "x");
    assert_eq!(trim_str("   "), "");
    assert!(str_eq_ignore_ascii_case("TRUE", "true"));
    assert!(!str_eq_ignore_ascii_case("truee", "true"));
    assert_eq!(u64_to_decimal(0), "0");
    assert_eq!(u64_to_decimal(18446744073709551615), "18446744073709551615");
}

#[test]
fn dry_run_switch() {
    assert!(dry_run_override("1"));
    assert!(dry_run_override("true"));
    assert!(dry_run_override("TrUe"));
    assert!(!dry_run_override("0"));
    assert!(!dry_run_override("yes"));
    assert!(!dry_run_override(" true"));
}
