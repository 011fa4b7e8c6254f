use macutil::interfaces::{get_info, inter_exists, InterfaceRecord};
use macutil::mac::MacAddr;

fn link(name: &str, bytes: [u8; 6]) -> InterfaceRecord {
    InterfaceRecord { name: name.to_string(), link: Some(MacAddr::new(bytes)) }
}

fn other(name: &str) -> InterfaceRecord {
    InterfaceRecord { name: name.to_string(), link: None }
}

const ETH: [u8; 6] = [0x52, 0x54, 0x00, 0x12, 0x34, 0x56];
const WLAN: [u8; 6] = [0x02, 0xaa, 0xbb, 0xcc, 0xdd, 0xee];

#[test]
fn lookup_without_name_skips_all_zero_entries() {
    let table = vec![link("lo", [0; 6]), link("eth0", ETH)];
    assert_eq!(
        get_info(&table, None),
        Some(("eth0".to_string(), MacAddr::new(ETH)))
    );
}

#[test]
fn lookup_without_name_takes_the_first_non_zero_entry() {
    let table = vec![
        other("lo"),
        link("lo", [0; 6]),
        other("eth0"),
        link("wlan0", WLAN),
        link("eth0", ETH),
    ];
    assert_eq!(
        get_info(&table, None),
        Some(("wlan0".to_string(), MacAddr::new(WLAN)))
    );
}

#[test]
fn lookup_without_name_counts_any_non_zero_octet() {
    let table = vec![link("lo", [0; 6]), link("tap0", [0, 0, 0, 0, 0, 1])];
    assert_eq!(
        get_info(&table, None),
        Some(("tap0".to_string(), MacAddr::new([0, 0, 0, 0, 0, 1])))
    );
}

#[test]
fn lookup_by_name_returns_an_all_zero_address() {
    let table = vec![link("eth0", [0; 6]), link("wlan0", WLAN)];
    assert_eq!(
        get_info(&table, Some("eth0")),
        Some(("eth0".to_string(), MacAddr::new([0; 6])))
    );
}

#[test]
fn lookup_by_name_needs_a_link_layer_entry() {
    let table = vec![other("eth0"), link("wlan0", WLAN), other("eth0")];
    assert_eq!(get_info(&table, Some("eth0")), None);
    let table = vec![other("eth0"), link("wlan0", WLAN), link("eth0", ETH)];
    assert_eq!(
        get_info(&table, Some("eth0")),
        Some(("eth0".to_string(), MacAddr::new(ETH)))
    );
}

#[test]
fn lookup_by_name_takes_the_first_entry_of_that_name() {
    let table = vec![link("eth0", ETH), link("eth0", WLAN)];
    assert_eq!(
        get_info(&table, Some("eth0")),
        Some(("eth0".to_string(), MacAddr::new(ETH)))
    );
}

#[test]
fn lookup_finds_nothing() {
    assert_eq!(get_info(&[], None), None);
    assert_eq!(get_info(&[], Some("eth0")), None);
    let table = vec![link("lo", [0; 6]), other("eth0")];
    assert_eq!(get_info(&table, None), None);
    assert_eq!(get_info(&table, Some("wlan0")), None);
    assert_eq!(get_info(&table, Some("ETH0")), None);
}

#[test]
fn exists_matches_the_exact_name() {
    let table = vec![link("lo", [0; 6]), link("eth0", ETH)];
    assert!(inter_exists(&table, "eth0"));
    assert!(inter_exists(&table, "lo"));
    assert!(!inter_exists(&table, "eth"));
    assert!(!inter_exists(&table, "eth00"));
    assert!(!inter_exists(&table, "th0"));
    assert!(!inter_exists(&table, "ETH0"));
    assert!(!inter_exists(&table, "Eth0"));
    assert!(!inter_exists(&table, ""));
    assert!(!inter_exists(&table, "eth0 "));
}

#[test]
fn exists_counts_every_address_family() {
    let table = vec![other("tun0"), link("eth0", [0; 6])];
    assert!(inter_exists(&table, "tun0"));
    assert!(inter_exists(&table, "eth0"));
    assert!(!inter_exists(&table, "wlan0"));
    assert!(!inter_exists(&[], "eth0"));
}
