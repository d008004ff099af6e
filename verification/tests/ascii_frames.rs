//! ASCII frames in a stream.

use oms_modbus::ascii::{hex_decode_byte, try_parse_ascii};

/// Helper: build a CRLF-terminated ASCII Modbus frame from raw bytes.
/// Computes LRC = wrapping_neg(sum of bytes) and hex-encodes everything.
fn make_ascii_frame(bytes: &[u8]) -> Vec<u8> {
    const HEX: &[u8; 16] = b"0123456789ABCDEF";
    let lrc = bytes
        .iter()
        .fold(0u8, |acc, &b| acc.wrapping_add(b))
        .wrapping_neg();
    let mut frame = vec![b':'];
    for &b in bytes.iter().chain(std::iter::once(&lrc)) {
        frame.push(HEX[(b >> 4) as usize]);
        frame.push(HEX[(b & 0x0F) as usize]);
    }
    frame.extend_from_slice(b"\r\n");
    frame
}

// ── try_parse_ascii ─────────────────────────────────────────────────

#[test]
fn empty_buffer() {
    assert!(try_parse_ascii(&[]).is_none());
}

#[test]
fn no_crlf_terminator() {
    let data = b":010300000001FB\r";
    assert!(try_parse_ascii(data).is_none());
}

#[test]
fn cr_without_lf() {
    let data = b":010300000001FB\rX";
    assert!(try_parse_ascii(data).is_none());
}

#[test]
fn valid_read_holding_request() {
    let frame = make_ascii_frame(&[0x01, 0x03, 0x00, 0x00, 0x00, 0x01]);
    let (slave, pdu, consumed) = try_parse_ascii(&frame).unwrap();
    assert_eq!(slave, 1);
    assert_eq!(pdu[0], 3);
    assert_eq!(pdu.len(), 5);
    assert_eq!(consumed, frame.len());
}

#[test]
fn no_colon_prefix_invalid() {
    let data = b"010300000001FB\r\n";
    assert!(try_parse_ascii(data).is_none());
}

#[test]
fn bad_hex_characters() {
    let data = b":01G300000001XX\r\n";
    assert!(try_parse_ascii(data).is_none());
}

#[test]
fn odd_hex_length() {
    let valid = make_ascii_frame(&[0x01, 0x03, 0x00, 0x00, 0x00, 0x01]);
    let mut data = b":01030\r\n".to_vec();
    data.extend_from_slice(&valid);
    let (slave, pdu, _) = try_parse_ascii(&data).unwrap();
    assert_eq!(slave, 1);
    assert_eq!(pdu[0], 3);
}

#[test]
fn bad_lrc_recovery() {
    let mut bad = make_ascii_frame(&[0x01, 0x03, 0x00, 0x00, 0x00, 0x01]);
    let crlf_pos = bad.windows(2).position(|w| w == b"\r\n").unwrap();
    bad[crlf_pos - 2] = b'F';
    bad[crlf_pos - 1] = b'F';
    let good = make_ascii_frame(&[0x01, 0x03, 0x00, 0x00, 0x00, 0x01]);
    let mut data = bad;
    data.extend_from_slice(&good);
    let (slave, pdu, consumed) = try_parse_ascii(&data).unwrap();
    assert_eq!(slave, 1);
    assert_eq!(pdu[0], 3);
    assert!(consumed > 20);
}

#[test]
fn too_short_after_hex_decode() {
    let valid = make_ascii_frame(&[0x01, 0x03, 0x00, 0x00, 0x00, 0x01]);
    let mut data = b":01\r\n".to_vec();
    data.extend_from_slice(&valid);
    let (slave, pdu, _) = try_parse_ascii(&data).unwrap();
    assert_eq!(slave, 1);
    assert_eq!(pdu[0], 3);
}

#[test]
fn lrc_validates_correctly() {
    let frame = make_ascii_frame(&[0x01, 0x03, 0x00, 0x00, 0x00, 0x01]);
    let (slave, pdu, _) = try_parse_ascii(&frame).unwrap();
    assert_eq!(slave, 1);
    assert_eq!(pdu[0], 3);
}

#[test]
fn lowercase_hex_accepted() {
    let frame = make_ascii_frame(&[0x01, 0x03, 0x00, 0x00, 0x00, 0x01]);
    let lower: Vec<u8> = frame
        .iter()
        .map(|&b| if b.is_ascii_uppercase() { b + 32 } else { b })
        .collect();
    let (slave, pdu, _) = try_parse_ascii(&lower).unwrap();
    assert_eq!(slave, 1);
    assert_eq!(pdu[0], 3);
}

#[test]
fn multiple_valid_frames_parses_first_only() {
    let first = make_ascii_frame(&[0x01, 0x03, 0x00, 0x00, 0x00, 0x01]);
    let second = make_ascii_frame(&[0x01, 0x03, 0x00, 0x01, 0x00, 0x01]);
    let mut data = first.clone();
    data.extend_from_slice(&second);
    let (slave, pdu, consumed) = try_parse_ascii(&data).unwrap();
    assert_eq!(slave, 1);
    assert_eq!(pdu[3], 0);
    assert_eq!(consumed, first.len());
}

// ── hex_decode_byte ─────────────────────────────────────────────────

#[test]
fn hex_decode_all_nibbles() {
    assert_eq!(hex_decode_byte(b'0', b'0').unwrap(), 0x00);
    assert_eq!(hex_decode_byte(b'0', b'1').unwrap(), 0x01);
    assert_eq!(hex_decode_byte(b'1', b'0').unwrap(), 0x10);
    assert_eq!(hex_decode_byte(b'F', b'F').unwrap(), 0xFF);
    assert_eq!(hex_decode_byte(b'f', b'f').unwrap(), 0xFF);
    assert_eq!(hex_decode_byte(b'A', b'a').unwrap(), 0xAA);
}

#[test]
fn hex_decode_invalid_high_nibble() {
    assert!(hex_decode_byte(b'G', b'0').is_err());
}

#[test]
fn hex_decode_invalid_low_nibble() {
    assert!(hex_decode_byte(b'0', b'G').is_err());
}
