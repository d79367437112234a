use rcon_client::codec::{
    decode_tcp_packet, decode_udp_response, encode_challenge_probe, encode_empty_probe,
    encode_tcp_packet, encode_udp_command,
};
use rcon_client::{PacketType, ParsedResponse, RCONError};

fn marker() -> Vec<u8> {
    vec![0xff, 0xff, 0xff, 0xff]
}

fn datagram(body: &[u8]) -> Vec<u8> {
    let mut d = marker();
    d.extend_from_slice(body);
    d
}

#[test]
fn encode_udp_without_token_exact_bytes() {
    let enc = encode_udp_command("test", None, "status");
    let expected = datagram(b"rcon test status\n");
    assert_eq!(enc, expected);
}

#[test]
fn encode_udp_with_token_exact_bytes() {
    let token = String::from("TOK");
    let enc = encode_udp_command("pw", Some(&token), "say hi");
    let expected = datagram(b"rcon TOK\npw say hi\n");
    assert_eq!(enc, expected);
}

#[test]
fn encode_udp_starts_with_marker_and_ends_with_newline() {
    let enc = encode_udp_command("secret", None, "map mp_carentan");
    assert!(enc.len() > 4);
    assert_eq!(&enc[0..4], &[0xff, 0xff, 0xff, 0xff]);
    assert_eq!(*enc.last().unwrap(), b'\n');
}

#[test]
fn encode_challenge_probe_exact_bytes() {
    let probe = encode_challenge_probe();
    assert_eq!(probe, datagram(b"challenge rcon\n"));
}

#[test]
fn decode_udp_challenge_grant() {
    let d = datagram(b"challenge rcon AB12");
    match decode_udp_response(&d) {
        Ok(ParsedResponse::ChallengeGrant(t)) => assert_eq!(t, "AB12"),
        other => panic!("expected a challenge grant, got {:?}", other),
    }
}

#[test]
fn decode_udp_challenge_grant_trims_token() {
    let d = datagram(b"challenge rcon \tXYZ\n");
    match decode_udp_response(&d) {
        Ok(ParsedResponse::ChallengeGrant(t)) => assert_eq!(t, "XYZ"),
        other => panic!("expected a challenge grant, got {:?}", other),
    }
}

#[test]
fn decode_udp_response_strips_terminator() {
    let d = datagram(b"Response text\n\x00");
    match decode_udp_response(&d) {
        Ok(ParsedResponse::Text(t)) => assert_eq!(t, "Response text"),
        other => panic!("expected response text, got {:?}", other),
    }
}

#[test]
fn decode_udp_four_tokens_is_not_a_grant() {
    let d = datagram(b"challenge rcon AB12 extra\n\x00");
    match decode_udp_response(&d) {
        Ok(ParsedResponse::Text(t)) => assert_eq!(t, "challenge rcon AB12 extra"),
        other => panic!("expected response text, got {:?}", other),
    }
}

#[test]
fn decode_udp_empty_input_is_malformed() {
    let d: Vec<u8> = Vec::new();
    assert_eq!(decode_udp_response(&d).unwrap_err(), RCONError::MalforedRead);
}

#[test]
fn decode_udp_missing_marker_is_malformed() {
    let d: Vec<u8> = b"challenge rcon AB12".to_vec();
    assert_eq!(decode_udp_response(&d).unwrap_err(), RCONError::MalforedRead);
}

#[test]
fn decode_udp_partial_marker_is_malformed() {
    let d: Vec<u8> = vec![0xff, 0xff, 0xff];
    assert_eq!(decode_udp_response(&d).unwrap_err(), RCONError::MalforedRead);
}

#[test]
fn decode_udp_wrong_marker_byte_is_malformed() {
    let d: Vec<u8> = vec![0xff, 0xfe, 0xff, 0xff, b'o', b'k', b'\n', 0x00];
    assert_eq!(decode_udp_response(&d).unwrap_err(), RCONError::MalforedRead);
}

#[test]
fn decode_udp_short_body_is_malformed() {
    let d = datagram(b"x");
    assert_eq!(decode_udp_response(&d).unwrap_err(), RCONError::MalforedRead);
}

#[test]
fn decode_udp_invalid_utf8_body_is_malformed() {
    let d = datagram(&[b'A', 0xff, 0xfe, b'\n', 0x00]);
    assert_eq!(decode_udp_response(&d).unwrap_err(), RCONError::MalforedRead);
}

#[test]
fn decode_udp_invalid_utf8_token_is_malformed() {
    let mut body = b"challenge rcon ".to_vec();
    body.push(0xfe);
    let d = datagram(&body);
    assert_eq!(decode_udp_response(&d).unwrap_err(), RCONError::MalforedRead);
}

#[test]
fn decode_udp_strips_two_characters_not_bytes() {
    // The body "a\u{e9}" is three bytes but two characters; stripping the
    // final two characters leaves the empty text.
    let d = datagram(&[0x61, 0xc3, 0xa9]);
    match decode_udp_response(&d) {
        Ok(ParsedResponse::Text(t)) => assert_eq!(t, ""),
        other => panic!("expected empty response text, got {:?}", other),
    }
}

#[test]
fn decode_udp_multibyte_text_round_trip() {
    let d = datagram("h\u{e9}llo\n\x00".as_bytes());
    match decode_udp_response(&d) {
        Ok(ParsedResponse::Text(t)) => assert_eq!(t, "h\u{e9}llo"),
        other => panic!("expected response text, got {:?}", other),
    }
}

#[test]
fn decode_udp_invalid_terminator_bytes_are_malformed() {
    // The whole body is decoded before the terminator is stripped, so a
    // terminator that breaks UTF-8 poisons the datagram.
    let d = datagram(&[0x6f, 0x6b, 0xff, 0xfe]);
    assert_eq!(decode_udp_response(&d).unwrap_err(), RCONError::MalforedRead);
}

#[test]
fn encode_empty_probe_exact_bytes() {
    assert_eq!(encode_empty_probe(), vec![0xff, 0xff, 0xff, 0xff, 0x00]);
}

#[test]
fn encode_tcp_exact_bytes() {
    let enc = encode_tcp_packet(0x0012D4A6, PacketType::Auth, "pass");
    let mut expected: Vec<u8> = Vec::new();
    expected.extend_from_slice(&[14, 0, 0, 0]);
    expected.extend_from_slice(&[0xa6, 0xd4, 0x12, 0x00]);
    expected.extend_from_slice(&[3, 0, 0, 0]);
    expected.extend_from_slice(b"pass");
    expected.extend_from_slice(&[0, 0]);
    assert_eq!(enc, expected);
}

#[test]
fn tcp_packet_round_trip() {
    let enc = encode_tcp_packet(7, PacketType::CommandR, "status");
    let p = decode_tcp_packet(&enc).unwrap();
    assert_eq!(p.id, 7);
    assert_eq!(p.packet_type, PacketType::CommandR);
    assert_eq!(p.body, "status");
}

#[test]
fn tcp_empty_body_round_trip() {
    let enc = encode_tcp_packet(0xffffffff, PacketType::ResponseValue, "");
    let p = decode_tcp_packet(&enc).unwrap();
    assert_eq!(p.id, 0xffffffff);
    assert_eq!(p.packet_type, PacketType::ResponseValue);
    assert_eq!(p.body, "");
}

#[test]
fn decode_tcp_short_buffer_is_malformed() {
    let d: Vec<u8> = vec![1, 0, 0, 0, 5];
    assert_eq!(decode_tcp_packet(&d).unwrap_err(), RCONError::MalforedRead);
}

#[test]
fn decode_tcp_wrong_size_field_is_malformed() {
    let mut enc = encode_tcp_packet(1, PacketType::CommandR, "hi");
    enc[0] = enc[0] + 1;
    assert_eq!(decode_tcp_packet(&enc).unwrap_err(), RCONError::MalforedRead);
}

#[test]
fn decode_tcp_unknown_type_is_malformed() {
    let mut enc = encode_tcp_packet(1, PacketType::CommandR, "hi");
    enc[8] = 5;
    assert_eq!(decode_tcp_packet(&enc).unwrap_err(), RCONError::MalforedRead);
}

#[test]
fn decode_tcp_missing_terminator_is_malformed() {
    let mut enc = encode_tcp_packet(1, PacketType::CommandR, "hi");
    let last = enc.len() - 1;
    enc[last] = 1;
    assert_eq!(decode_tcp_packet(&enc).unwrap_err(), RCONError::MalforedRead);
}

#[test]
fn decode_tcp_invalid_utf8_body_is_malformed() {
    let mut enc = encode_tcp_packet(1, PacketType::CommandR, "hi");
    enc[12] = 0xff;
    assert_eq!(decode_tcp_packet(&enc).unwrap_err(), RCONError::MalforedRead);
}

#[test]
fn packet_type_codes() {
    assert_eq!(PacketType::ResponseValue.code(), 0);
    assert_eq!(PacketType::CommandR.code(), 2);
    assert_eq!(PacketType::Auth.code(), 3);
    assert_eq!(PacketType::from_code(2), Some(PacketType::CommandR));
    assert_eq!(PacketType::from_code(3), Some(PacketType::Auth));
    assert_eq!(PacketType::from_code(0), Some(PacketType::ResponseValue));
    assert_eq!(PacketType::from_code(9), None);
}
