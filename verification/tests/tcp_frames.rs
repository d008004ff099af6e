//! TCP frames in a stream.

use oms_modbus::tcp::try_parse_tcp_frame;
use oms_modbus::transport::MBAP_HEADER_SIZE;

#[test]
fn try_parse_tcp_frame_empty_buffer() {
    assert!(try_parse_tcp_frame(&[]).is_none());
}

#[test]
fn try_parse_tcp_frame_incomplete_header() {
    // Less than 7 bytes (MBAP_HEADER_SIZE)
    assert!(try_parse_tcp_frame(&[0x00, 0x01, 0x00]).is_none());
    assert!(try_parse_tcp_frame(&[0x00, 0x01, 0x00, 0x00, 0x00, 0x01]).is_none());
}

#[test]
fn try_parse_tcp_frame_nonzero_protocol_id() {
    // Proto ID = 0x0001 (must be 0)
    let buf = [0x00, 0x01, 0x00, 0x01, 0x00, 0x02, 0x01, 0x03, 0x00];
    assert!(try_parse_tcp_frame(&buf).is_none());
}

#[test]
fn try_parse_tcp_frame_payload_too_large() {
    // payload_len > MAX_TCP_ADU_SIZE (260)
    let mut buf = [0u8; MBAP_HEADER_SIZE + 1];
    buf[0] = 0x00;
    buf[1] = 0x01; // TID
    buf[2] = 0x00;
    buf[3] = 0x00; // Proto = 0
    buf[4] = 0x01;
    buf[5] = 0x05; // Length = 261 (> 260)
    buf[6] = 0x01; // UID
    buf[7] = 0x03; // FC (body)
    assert!(try_parse_tcp_frame(&buf).is_none());
}

#[test]
fn try_parse_tcp_frame_payload_len_zero() {
    // payload_len = 0: fl values are 7 and 6, both ≤ MBAP_HEADER_SIZE.
    // Guard prevents panic, returns None (invalid MBAP frame).
    let buf = [0x00, 0x01, 0x00, 0x00, 0x00, 0x00, 0x01];
    assert!(try_parse_tcp_frame(&buf).is_none());
}

#[test]
fn try_parse_tcp_frame_payload_len_one_no_pdu() {
    // payload_len = 1 → body is just [UID], not a valid FC.
    // UID=0x46 is NOT a known function code → try_extract_tcp_pdu returns None.
    let buf = [0x00, 0x01, 0x00, 0x00, 0x00, 0x01, 0x46, 0x46];
    assert!(try_parse_tcp_frame(&buf).is_none());
}

#[test]
fn try_parse_tcp_frame_unknown_function_code() {
    // MBAP header complete, body exists, but byte 0 is NOT a known FC (0x46)
    let buf = [
        0x00, 0x01, // TID
        0x00, 0x00, // Proto = 0
        0x00, 0x02, // Length = 2
        0x01, // UID
        0x46, 0x00, // Unknown FC 0x46
    ];
    assert!(try_parse_tcp_frame(&buf).is_none());
}

#[test]
fn try_parse_tcp_frame_valid_minimal() {
    // Minimal valid frame: ReadCoils request
    let buf = [
        0x00, 0x01, // TID
        0x00, 0x00, // Proto = 0
        0x00, 0x05, // Length = 5
        0x01, // UID
        0x01, 0x00, 0x00, 0x00, 0x01, // FC=1, addr=0, count=1
    ];
    let (tid, slave, pdu, consumed) = try_parse_tcp_frame(&buf).unwrap();
    assert_eq!(tid, 1);
    assert_eq!(slave, 1);
    assert_eq!(pdu.len(), 5);
    assert_eq!(consumed, 12);
}

#[test]
fn try_parse_tcp_frame_with_unit_id_in_body() {
    // Gateway-style: UID in body byte 0 matches MBAP UID
    // Body: [UID=1, FC=3, addr_hi, addr_lo, count_hi, count_lo]
    let buf = [
        0x00, 0x01, // TID
        0x00, 0x00, // Proto = 0
        0x00, 0x06, // Length = 6
        0x01, // UID in MBAP
        0x01, 0x03, 0x00, 0x00, 0x00, 0x01, // body: UID=1, FC=3, addr=0, count=1
    ];
    let (tid, slave, pdu, _) = try_parse_tcp_frame(&buf).unwrap();
    assert_eq!(tid, 1);
    // Slave should come from body[0], PDU should skip the duplicate UID
    assert_eq!(slave, 1);
    // PDU is body[1..] = [FC, addr, count]
    assert_eq!(pdu[0], 0x03);
    assert_eq!(pdu.len(), 5);
}

#[test]
fn try_parse_tcp_frame_pdu_only_length() {
    // PduOnly: Length = 5 (PDU only, no +1 for UID)
    // min_total = MBAP_PREFIX_SIZE + 5 = 11, max_total = MBAP_HEADER_SIZE + 5 = 12
    // So second iteration of the `for` loop finds the match.
    let buf = [
        0x00, 0x01, // TID
        0x00, 0x00, // Proto = 0
        0x00, 0x05, // Length = 5 (PduOnly)
        0x01, // UID
        0x03, 0x00, 0x00, 0x00, 0x01, // PDU: FC=3, addr=0, count=1
    ];
    let (tid, slave, pdu, consumed) = try_parse_tcp_frame(&buf).unwrap();
    assert_eq!(tid, 1);
    assert_eq!(slave, 1);
    assert_eq!(pdu.len(), 5);
    // consumed = MBAP_HEADER_SIZE + payload_len = 12 (full frame)
    assert_eq!(consumed, 12);
}

#[test]
fn try_parse_tcp_frame_not_enough_data() {
    // Correct MBAP header with payload_len=5, but buffer only has 10 bytes
    // (MBAP_HEADER_SIZE + 3 < MBAP_HEADER_SIZE + 5)
    let buf = [
        0x00, 0x01, 0x00, 0x00, 0x00, 0x05, 0x01, // MBAP (7 bytes)
        0x03, 0x00, 0x00, // Only 3 PDU bytes (need 5)
    ];
    assert!(try_parse_tcp_frame(&buf).is_none());
}

#[test]
fn try_parse_tcp_frame_max_valid_length() {
    // payload_len = MAX_TCP_ADU_SIZE (260) → valid size
    let mut buf = vec![0u8; MBAP_HEADER_SIZE + 260];
    buf[0] = 0x00;
    buf[1] = 0x01; // TID
    buf[2] = 0x00;
    buf[3] = 0x00; // Proto = 0
    buf[4] = 0x01;
    buf[5] = 0x04; // Length = 260
    buf[6] = 0x01; // UID
    buf[7] = 0x03; // FC=3 (first byte of body, ensures known FC)
    assert!(try_parse_tcp_frame(&buf).is_some());
}
