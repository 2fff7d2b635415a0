use bystep_launcher::protocol::{
    handshake_packet, is_last_varint_byte, packet_length, read_varint, status_json_slice,
    status_request_packet, write_string, write_varint, STATUS_PROTOCOL_VERSION,
};
use bystep_launcher::status::{parse_status_response, ServerStatus};

#[test]
fn varint_round_trip_with_byte_counts() {
    let cases: [(i32, usize); 5] = [(0, 1), (127, 1), (128, 2), (300, 2), (2097151, 3)];
    for (value, len) in cases {
        let mut buf = Vec::new();
        write_varint(&mut buf, value);
        assert_eq!(buf.len(), len);
        assert_eq!(read_varint(&buf), (value, len));
    }
}

#[test]
fn varint_known_encodings() {
    let mut buf = Vec::new();
    write_varint(&mut buf, 300);
    assert_eq!(buf, vec![0xAC, 0x02]);
    let mut buf = Vec::new();
    write_varint(&mut buf, 767);
    assert_eq!(buf, vec![0xFF, 0x05]);
    let mut buf = Vec::new();
    write_varint(&mut buf, i32::MAX);
    assert_eq!(buf, vec![0xFF, 0xFF, 0xFF, 0xFF, 0x07]);
    assert_eq!(read_varint(&buf), (i32::MAX, 5));
}

#[test]
fn negative_varints_use_five_bytes() {
    let mut buf = Vec::new();
    write_varint(&mut buf, -1);
    assert_eq!(buf, vec![0xFF, 0xFF, 0xFF, 0xFF, 0x0F]);
    assert_eq!(read_varint(&buf), (-1, 5));
    let mut buf = Vec::new();
    write_varint(&mut buf, i32::MIN);
    assert_eq!(buf, vec![0x80, 0x80, 0x80, 0x80, 0x08]);
    assert_eq!(read_varint(&buf), (i32::MIN, 5));
}

#[test]
fn varint_reader_reads_at_most_five_bytes() {
    assert_eq!(read_varint(&[0xFF, 0xFF, 0xFF, 0xFF, 0xFF, 0xFF, 0x01]), (-1, 5));
    assert_eq!(read_varint(&[0x81, 0x80, 0x80, 0x80, 0x80, 0x80]), (1, 5));
}

#[test]
fn varint_reader_stops_at_first_final_byte() {
    assert_eq!(read_varint(&[0x05, 0xFF, 0xFF]), (5, 1));
    assert_eq!(read_varint(&[]), (0, 0));
    assert_eq!(read_varint(&[0x80, 0x80]), (0, 2));
    assert_eq!(read_varint(&[0xFF, 0xFF, 0xFF, 0xFF, 0x0F]), (-1, 5));
}

#[test]
fn string_is_length_prefixed() {
    let mut buf = vec![9u8];
    write_string(&mut buf, "héllo");
    assert_eq!(buf, vec![9, 6, b'h', 0xC3, 0xA9, b'l', b'l', b'o']);
}

#[test]
fn handshake_layout() {
    let p = handshake_packet("ab", 25565, STATUS_PROTOCOL_VERSION);
    let body = vec![0x00, 0xFF, 0x05, 0x02, b'a', b'b', 0x63, 0xDD, 0x01];
    let mut expected = vec![body.len() as u8];
    expected.extend_from_slice(&body);
    assert_eq!(p, expected);
    assert_eq!(status_request_packet(), vec![0x01, 0x00]);
}

#[test]
fn packet_length_bounds() {
    assert_eq!(packet_length(&[0x00]), None);
    assert_eq!(packet_length(&[0x05]), Some(5));
    assert_eq!(packet_length(&[0xFF, 0xFF, 0x03]), Some(65535));
    assert_eq!(packet_length(&[0x80, 0x80, 0x04]), None);
    assert_eq!(packet_length(&[0xFF, 0xFF, 0xFF, 0xFF, 0x0F]), None);
    assert!(is_last_varint_byte(0x7F));
    assert!(!is_last_varint_byte(0x80));
}

fn status_body(json: &str) -> Vec<u8> {
    let mut body = Vec::new();
    write_varint(&mut body, 0);
    write_string(&mut body, json);
    body
}

#[test]
fn status_json_is_extracted() {
    let body = status_body("{}");
    assert_eq!(status_json_slice(&body), Some(b"{}".to_vec()));
    assert_eq!(status_json_slice(&[0x00, 0x05, b'{']), None);
    assert_eq!(status_json_slice(&[0x80, 0x80, 0x80, 0x80, 0x80, 0x80]), Some(vec![]));
    let mut long_id = vec![0x80, 0x80, 0x80, 0x80, 0x00, 0x02];
    long_id.extend_from_slice(b"{}");
    assert_eq!(status_json_slice(&long_id), Some(b"{}".to_vec()));
}

#[test]
fn status_probe_reads_players() {
    let json = r#"{"version":{"name":"1.21.1","protocol":767},"players":{"max":20,"online":5,"sample":[{"name":"Alice","id":"00000000-0000-0000-0000-000000000000"}]},"description":"hi"}"#;
    let body = status_body(json);
    let mut packet = Vec::new();
    write_varint(&mut packet, body.len() as i32);
    packet.extend_from_slice(&body);
    let mut prefix_len = 0;
    while !is_last_varint_byte(packet[prefix_len]) {
        prefix_len += 1;
    }
    prefix_len += 1;
    let len = packet_length(&packet[..prefix_len]).unwrap();
    let status = parse_status_response(&packet[prefix_len..prefix_len + len]);
    assert!(status.online);
    assert_eq!(status.players_online, 5);
    assert_eq!(status.players_max, 20);
    assert_eq!(status.player_names, vec!["Alice".to_string()]);
}

#[test]
fn status_probe_failure_is_offline_default() {
    let d = ServerStatus::default();
    assert!(!d.online);
    assert_eq!((d.players_online, d.players_max), (0, 0));
    assert!(d.player_names.is_empty());
    let s = parse_status_response(&[]);
    assert!(!s.online && s.players_online == 0 && s.players_max == 0 && s.player_names.is_empty());
    let s = parse_status_response(&status_body("not json"));
    assert!(!s.online);
    let s = parse_status_response(&[0x00, 0x02, 0xFF, 0xFE]);
    assert!(!s.online);
}

#[test]
fn status_probe_exact_reply() {
    let json = r#"{"players":{"online":5,"max":20,"sample":[{"name":"Alice"}]}}"#;
    let mut reply = vec![0x00, json.len() as u8];
    reply.extend_from_slice(json.as_bytes());
    let s = parse_status_response(&reply);
    assert!(s.online);
    assert_eq!((s.players_online, s.players_max), (5, 20));
    assert_eq!(s.player_names, vec!["Alice".to_string()]);
}

#[test]
fn status_sample_skips_entries_without_names() {
    let json = r#"{"players":{"online":"x","max":4294967297,"sample":[{"id":"1"},{"name":"Bob"},{"name":7},{"name":"Eve"}]}}"#;
    let s = parse_status_response(&status_body(json));
    assert!(s.online);
    assert_eq!(s.players_online, 0);
    assert_eq!(s.players_max, 1);
    assert_eq!(s.player_names, vec!["Bob".to_string(), "Eve".to_string()]);
}

#[test]
fn status_without_players_is_online_and_empty() {
    let s = parse_status_response(&status_body(r#"{"description":"x"}"#));
    assert!(s.online);
    assert_eq!((s.players_online, s.players_max), (0, 0));
    assert!(s.player_names.is_empty());
}
