use snmp::SnmpPdu;
use wan_ddns::walk::{address_walk, collect_rows, description_walk, Row, COMMUNITY};

fn tlv(tag: u8, body: &[u8]) -> Vec<u8> {
    assert!(body.len() < 128);
    let mut out = vec![tag, body.len() as u8];
    out.extend_from_slice(body);
    out
}

fn binding(name: &[u8], value: &[u8]) -> Vec<u8> {
    let mut body = tlv(0x06, name);
    body.extend_from_slice(value);
    tlv(0x30, &body)
}

fn response(bindings: &[Vec<u8>]) -> Vec<u8> {
    let mut list = Vec::new();
    for b in bindings {
        list.extend_from_slice(b);
    }
    let mut pdu = tlv(0x02, &[0]);
    pdu.extend_from_slice(&tlv(0x02, &[0]));
    pdu.extend_from_slice(&tlv(0x02, &[0]));
    pdu.extend_from_slice(&tlv(0x30, &list));
    let mut message = tlv(0x02, &[1]);
    message.extend_from_slice(&tlv(0x04, b"private"));
    message.extend_from_slice(&tlv(0xa2, &pdu));
    tlv(0x30, &message)
}

fn row(identifier: &str, value: &str) -> Row {
    Row { identifier: identifier.to_string(), value: value.to_string() }
}

#[test]
fn collect_rows_renders_each_binding_in_order() {
    let bytes = response(&[
        binding(&[0x2b, 6, 1, 2, 1, 4, 20, 1, 2, 10, 0, 0, 7], &tlv(0x02, &[5])),
        binding(&[0x2b, 6, 1, 2, 1, 4, 20, 1, 2, 0x81, 0x40, 0x81, 0x28, 1, 1], &tlv(0x02, &[9])),
        binding(&[0x2b, 6, 1, 2, 1, 2, 2, 1, 2, 5], &tlv(0x04, b"pppoe-wan1_poe")),
    ]);
    let pdu = SnmpPdu::from_bytes(&bytes).unwrap();
    let rows = collect_rows(pdu.varbinds);
    assert_eq!(
        rows,
        vec![
            row("1.3.6.1.2.1.4.20.1.2.10.0.0.7", "INTEGER: 5"),
            row("1.3.6.1.2.1.4.20.1.2.192.168.1.1", "INTEGER: 9"),
            row("1.3.6.1.2.1.2.2.1.2.5", "OCTET STRING: pppoe-wan1_poe"),
        ]
    );
}

#[test]
fn collect_rows_of_an_empty_response_is_empty() {
    let bytes = response(&[]);
    let pdu = SnmpPdu::from_bytes(&bytes).unwrap();
    assert_eq!(collect_rows(pdu.varbinds), Vec::<Row>::new());
}

#[test]
fn collect_rows_renders_other_value_types() {
    let bytes = response(&[
        binding(&[0x2b, 6, 1, 2, 1, 4, 20, 1, 3, 10, 0, 0, 7], &tlv(0x40, &[255, 255, 255, 0])),
        binding(&[0x2b, 6, 1, 2, 1, 2, 2, 1, 5, 1], &tlv(0x42, &[100])),
    ]);
    let pdu = SnmpPdu::from_bytes(&bytes).unwrap();
    assert_eq!(
        collect_rows(pdu.varbinds),
        vec![
            row("1.3.6.1.2.1.4.20.1.3.10.0.0.7", "IP ADDRESS: 255.255.255.0"),
            row("1.3.6.1.2.1.2.2.1.5.1", "UNSIGNED32: 100"),
        ]
    );
}

#[test]
fn collect_rows_stops_at_a_binding_it_cannot_read() {
    let mut broken = binding(&[0x2b, 6, 1, 2, 1, 4, 20, 1, 2, 10, 0, 0, 8], &tlv(0x02, &[6]));
    broken[0] = 0x31;
    let bytes = response(&[
        binding(&[0x2b, 6, 1, 2, 1, 4, 20, 1, 2, 10, 0, 0, 7], &tlv(0x02, &[5])),
        broken,
    ]);
    let pdu = SnmpPdu::from_bytes(&bytes).unwrap();
    assert_eq!(collect_rows(pdu.varbinds), vec![row("1.3.6.1.2.1.4.20.1.2.10.0.0.7", "INTEGER: 5")]);
}

#[test]
fn address_walk_asks_for_the_address_table() {
    let request = address_walk(&"192.168.0.1:161".to_string());
    assert_eq!(request.destination, "192.168.0.1:161");
    assert_eq!(request.community, COMMUNITY);
    assert_eq!(request.community, "private");
    assert_eq!(request.base, vec![1, 3, 6, 1, 2, 1, 4, 20, 1, 2]);
    assert_eq!(request.timeout_secs, 5);
    assert_eq!(request.non_repeaters, 0);
    assert_eq!(request.max_repetitions, 4);
}

#[test]
fn description_walk_asks_for_the_description_table() {
    let request = description_walk(&"192.168.0.1:161".to_string());
    assert_eq!(request.destination, "192.168.0.1:161");
    assert_eq!(request.community, "private");
    assert_eq!(request.base, vec![1, 3, 6, 1, 2, 1, 2, 2, 1, 2]);
    assert_eq!(request.timeout_secs, 2);
    assert_eq!(request.non_repeaters, 0);
    assert_eq!(request.max_repetitions, 25);
}
