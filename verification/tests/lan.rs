use micyou_app::lan::{get_lan_ips, lan_ips_of, select_lan_ips, InterfaceAddress};
use micyou_app::listing::sorted_distinct;
use micyou_app::text::{
    contains, from_chars, joined, same_text, starts_with, to_ascii_lower, to_chars, to_decimal,
    to_hex,
};
use rustls::pki_types::IpAddr;

fn address(ipv4: bool, loopback: bool, address: &str) -> InterfaceAddress {
    InterfaceAddress { ipv4, loopback, address: address.to_string() }
}

fn strings(list: &[&str]) -> Vec<String> {
    list.iter().map(|s| s.to_string()).collect()
}

#[test]
fn test_get_lan_ips_are_valid() {
    for ip in get_lan_ips() {
        assert!(IpAddr::try_from(ip.as_str()).is_ok());
    }
}

#[test]
fn lan_ips_are_sorted_and_usable() {
    let ips = get_lan_ips();
    let mut sorted = ips.clone();
    sorted.sort();
    sorted.dedup();
    assert_eq!(ips, sorted);
    for ip in ips {
        assert!(!ip.starts_with("127."));
        assert!(!ip.starts_with("198.18."));
        assert!(!ip.starts_with("169.254."));
    }
}

#[test]
fn usable_addresses_are_selected() {
    let found = vec![
        address(true, false, "192.168.1.20"),
        address(true, true, "127.0.0.1"),
        address(false, false, "fe80::1"),
        address(true, false, "10.0.0.5"),
        address(true, false, "198.18.0.1"),
        address(true, false, "198.19.0.1"),
        address(true, false, "169.254.7.7"),
        address(true, false, "192.168.1.20"),
        address(true, false, "9.9.9.9"),
    ];
    assert_eq!(
        select_lan_ips(&found),
        strings(&["10.0.0.5", "192.168.1.20", "198.19.0.1", "9.9.9.9"])
    );
    assert!(select_lan_ips(&Vec::new()).is_empty());
}

#[test]
fn lists_are_sorted_without_repetition() {
    assert_eq!(
        sorted_distinct(strings(&["b", "", "a", "ab", "b", "B", "é", "a"])),
        strings(&["", "B", "a", "ab", "b", "é"])
    );
    let mut list = strings(&["Speaker", "CABLE Input", "Speaker", "speaker", "\u{10000}", "\u{ffff}"]);
    let ours = sorted_distinct(list.clone());
    list.sort();
    list.dedup();
    assert_eq!(ours, list);
}

#[test]
fn texts_are_searched_and_rewritten() {
    assert!(contains("https://localhost:1", "localhost"));
    assert!(contains("aab", "ab"));
    assert!(contains("abc", ""));
    assert!(contains("", ""));
    assert!(!contains("ab", "abc"));
    assert!(!contains("abd", "abc"));
    assert!(starts_with("localhost:1", "localhost:"));
    assert!(!starts_with("local", "localhost"));
    assert!(same_text("é", "é"));
    assert!(!same_text("a", "ab"));
    assert_eq!(to_ascii_lower("ABC[é]Z@`{"), "abc[é]z@`{");
    assert_eq!(to_decimal(0), "0");
    assert_eq!(to_decimal(8443), "8443");
    assert_eq!(to_decimal(u64::MAX), "18446744073709551615");
    assert_eq!(to_hex(&[0, 0x1f, 0xab]), "001fab");
    assert_eq!(joined("a", "b"), "ab");
    assert_eq!(from_chars(&to_chars("grün"), 1, 4), "rün");
}

#[test]
fn addresses_come_from_the_listing() {
    assert!(lan_ips_of(None).is_empty());
    let found = vec![address(true, false, "192.168.1.20"), address(true, false, "10.0.0.5")];
    assert_eq!(lan_ips_of(Some(found)), strings(&["10.0.0.5", "192.168.1.20"]));
}
