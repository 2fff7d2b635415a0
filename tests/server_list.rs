use bystep_launcher::server_list::{
    create_servers_dat, encode_entry, read_server_list, server_list_address, split_server_address,
};

#[test]
fn server_list_round_trip() {
    let bytes = create_servers_dat("host:25566").unwrap();
    let entry = read_server_list(&bytes).unwrap();
    assert_eq!(entry.ip, "host:25566");
    assert_eq!(entry.name, "ByStep Server");
    assert_eq!(entry.hidden, 0);
}

#[test]
fn server_list_exact_bytes() {
    let bytes = create_servers_dat("a:1").unwrap();
    let mut expected: Vec<u8> = vec![0x0A, 0x00, 0x00, 0x09, 0x00, 0x07];
    expected.extend_from_slice(b"servers");
    expected.extend_from_slice(&[0x0A, 0, 0, 0, 1, 0x08, 0x00, 0x04]);
    expected.extend_from_slice(b"name");
    expected.extend_from_slice(&[0x00, 13]);
    expected.extend_from_slice(b"ByStep Server");
    expected.extend_from_slice(&[0x08, 0x00, 0x02]);
    expected.extend_from_slice(b"ip");
    expected.extend_from_slice(&[0x00, 3]);
    expected.extend_from_slice(b"a:1");
    expected.extend_from_slice(&[0x01, 0x00, 0x06]);
    expected.extend_from_slice(b"hidden");
    expected.extend_from_slice(&[0x00, 0x00, 0x00]);
    assert_eq!(bytes, expected);
}

#[test]
fn server_list_default_port() {
    let bytes = create_servers_dat("example.org").unwrap();
    assert_eq!(read_server_list(&bytes).unwrap().ip, "example.org:25565");
    assert_eq!(server_list_address("h:1:2"), "h:1");
    assert_eq!(server_list_address(":"), ":");
    assert_eq!(server_list_address(""), ":25565");
}

#[test]
fn server_list_too_long_address() {
    let long = "x".repeat(70000);
    assert!(create_servers_dat(&long).is_none());
}

#[test]
fn server_list_reader_rejects_other_bytes() {
    assert!(read_server_list(&[]).is_none());
    let mut bytes = create_servers_dat("h:1").unwrap();
    bytes.push(0);
    assert!(read_server_list(&bytes).is_none());
    let mut bytes = create_servers_dat("h:1").unwrap();
    bytes[4] = 0x08;
    assert!(read_server_list(&bytes).is_none());
    let bad = encode_entry("n", "h:1", 1);
    let mut broken = bad.clone();
    let pos = broken.iter().position(|b| *b == b'h').unwrap();
    broken[pos] = 0xFF;
    assert!(read_server_list(&broken).is_none());
    let e = read_server_list(&bad).unwrap();
    assert_eq!((e.name.as_str(), e.ip.as_str(), e.hidden), ("n", "h:1", 1));
}

#[test]
fn address_split() {
    assert_eq!(split_server_address("144.31.169.7:25565"), ("144.31.169.7".to_string(), Some("25565".to_string())));
    assert_eq!(split_server_address("host"), ("host".to_string(), None));
    assert_eq!(split_server_address("a:b:c"), ("a".to_string(), Some("b".to_string())));
}
