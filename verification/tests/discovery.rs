use wan_ddns::discovery::{
    get_possible_indexes, get_possible_ips, get_wan_ip, is_member, resolve_wan, Candidate,
    ADDRESS_PREFIX, DESCRIPTION_PREFIX, INTEGER_TAG, INTERNAL_GATEWAY, LOOPBACK, WAN_INTERFACE,
};
use wan_ddns::walk::Row;

fn row(identifier: &str, value: &str) -> Row {
    Row { identifier: identifier.to_string(), value: value.to_string() }
}

fn candidate(index: &str, address: &str) -> Candidate {
    Candidate { index: index.to_string(), address: address.to_string() }
}

fn strings(items: &[&str]) -> Vec<String> {
    items.iter().map(|s| s.to_string()).collect()
}

#[test]
fn the_constants_are_the_documented_ones() {
    assert_eq!(LOOPBACK, "127.0.0.1");
    assert_eq!(INTERNAL_GATEWAY, "192.168.1.1");
    assert_eq!(ADDRESS_PREFIX, "1.3.6.1.2.1.4.20.1.2.");
    assert_eq!(DESCRIPTION_PREFIX, "1.3.6.1.2.1.2.2.1.2.");
    assert_eq!(INTEGER_TAG, "INTEGER: ");
    assert_eq!(WAN_INTERFACE, "pppoe-wan1_poe");
}

#[test]
fn candidates_take_key_from_identifier_and_address_from_value() {
    let rows = vec![row("1.3.6.1.2.1.4.20.1.2.5", "INTEGER: 10.0.0.7")];
    assert_eq!(get_possible_ips(&rows), Some(vec![candidate("5", "10.0.0.7")]));
}

#[test]
fn candidates_keep_the_order_of_the_walk() {
    let rows = vec![
        row("1.3.6.1.2.1.4.20.1.2.9", "INTEGER: 3"),
        row("1.3.6.1.2.1.4.20.1.2.5", "INTEGER: 1"),
        row("1.3.6.1.2.1.4.20.1.2.7", "OCTET STRING: x"),
    ];
    assert_eq!(
        get_possible_ips(&rows),
        Some(vec![candidate("9", "3"), candidate("5", "1"), candidate("7", "OCTET STRING: x")])
    );
}

#[test]
fn candidates_never_come_from_loopback_or_inner_gateway_rows() {
    let rows = vec![
        row("1.3.6.1.2.1.4.20.1.2.127.0.0.1", "INTEGER: 1"),
        row("1.3.6.1.2.1.4.20.1.2.10.0.0.7", "INTEGER: 5"),
        row("1.3.6.1.2.1.4.20.1.2.192.168.1.1", "INTEGER: 9"),
        row("1.3.6.1.2.1.4.20.1.2.192.168.1.10", "INTEGER: 11"),
    ];
    assert_eq!(get_possible_ips(&rows), Some(vec![candidate("10.0.0.7", "5")]));
}

#[test]
fn no_candidates_is_none() {
    assert_eq!(get_possible_ips(&vec![]), None);
    let rows = vec![
        row("1.3.6.1.2.1.4.20.1.2.127.0.0.1", "INTEGER: 1"),
        row("1.3.6.1.2.1.4.20.1.2.192.168.1.1", "INTEGER: 9"),
    ];
    assert_eq!(get_possible_ips(&rows), None);
}

#[test]
fn a_row_outside_the_table_keeps_its_whole_identifier() {
    let rows = vec![row("1.3.6.1.2.1.4.20.1.3.10.0.0.7", "IP ADDRESS: 255.255.255.0")];
    assert_eq!(
        get_possible_ips(&rows),
        Some(vec![candidate("1.3.6.1.2.1.4.20.1.3.10.0.0.7", "IP ADDRESS: 255.255.255.0")])
    );
}

#[test]
fn wan_indexes_are_the_rows_that_describe_the_wan_interface() {
    let rows = vec![
        row("1.3.6.1.2.1.2.2.1.2.1", "OCTET STRING: lo"),
        row("1.3.6.1.2.1.2.2.1.2.5", "OCTET STRING: pppoe-wan1_poe"),
        row("1.3.6.1.2.1.2.2.1.2.6", "OCTET STRING: eth0"),
        row("1.3.6.1.2.1.2.2.1.2.8", "OCTET STRING: pppoe-wan1_poe.2"),
    ];
    assert_eq!(get_possible_indexes(&rows), Some(strings(&["5", "8"])));
}

#[test]
fn no_wan_index_is_none() {
    assert_eq!(get_possible_indexes(&vec![]), None);
    let rows = vec![row("1.3.6.1.2.1.2.2.1.2.1", "OCTET STRING: lo")];
    assert_eq!(get_possible_indexes(&rows), None);
}

#[test]
fn is_member_compares_whole_strings() {
    let keys = strings(&["5", "12"]);
    assert!(is_member(&keys, &"5".to_string()));
    assert!(is_member(&keys, &"12".to_string()));
    assert!(!is_member(&keys, &"1".to_string()));
    assert!(!is_member(&vec![], &"5".to_string()));
}

#[test]
fn candidates_and_one_wan_index_resolve() {
    let candidates = vec![candidate("5", "10.0.0.7"), candidate("9", "192.168.1.1")];
    let wan = strings(&["5"]);
    assert_eq!(resolve_wan(&candidates, &wan), Some("10.0.0.7".to_string()));
    assert_eq!(get_wan_ip(Some(candidates), Some(wan)), Some("10.0.0.7".to_string()));
}

#[test]
fn no_description_matched_fails_discovery() {
    let candidates = vec![candidate("5", "10.0.0.7")];
    assert_eq!(resolve_wan(&candidates, &vec![]), None);
    assert_eq!(get_wan_ip(Some(candidates.clone()), None), None);
    assert_eq!(get_wan_ip(Some(candidates), get_possible_indexes(&vec![])), None);
}

#[test]
fn resolve_is_none_exactly_when_nothing_is_in_common() {
    let candidates = vec![candidate("5", "10.0.0.7"), candidate("6", "10.0.0.8")];
    assert_eq!(resolve_wan(&candidates, &strings(&["7", "8"])), None);
    assert_eq!(resolve_wan(&vec![], &strings(&["5"])), None);
    assert!(resolve_wan(&candidates, &strings(&["7", "6"])).is_some());
    assert!(resolve_wan(&candidates, &strings(&["5"])).is_some());
}

#[test]
fn resolve_takes_the_last_match() {
    let candidates = vec![
        candidate("5", "10.0.0.7"),
        candidate("6", "10.0.0.8"),
        candidate("5", "10.0.0.9"),
        candidate("7", "10.0.0.10"),
    ];
    assert_eq!(resolve_wan(&candidates, &strings(&["5"])), Some("10.0.0.9".to_string()));
    assert_eq!(resolve_wan(&candidates, &strings(&["6", "5"])), Some("10.0.0.9".to_string()));
    assert_eq!(resolve_wan(&candidates, &strings(&["6"])), Some("10.0.0.8".to_string()));
}

#[test]
fn get_wan_ip_needs_both_walks() {
    let candidates = vec![candidate("5", "10.0.0.7")];
    assert_eq!(get_wan_ip(None, Some(strings(&["5"]))), None);
    assert_eq!(get_wan_ip(Some(candidates), None), None);
    assert_eq!(get_wan_ip(None, None), None);
}

#[test]
fn discovery_from_rows_to_address() {
    let addresses = vec![
        row("1.3.6.1.2.1.4.20.1.2.5", "INTEGER: 10.0.0.7"),
        row("1.3.6.1.2.1.4.20.1.2.9", "INTEGER: 10.0.0.9"),
    ];
    let descriptions = vec![
        row("1.3.6.1.2.1.2.2.1.2.5", "OCTET STRING: pppoe-wan1_poe"),
        row("1.3.6.1.2.1.2.2.1.2.9", "OCTET STRING: eth0"),
    ];
    assert_eq!(
        get_wan_ip(get_possible_ips(&addresses), get_possible_indexes(&descriptions)),
        Some("10.0.0.7".to_string())
    );
}
