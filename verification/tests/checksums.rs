//! Checksums and the frames of serial lines.

use bytes::BytesMut;
use oms_modbus::codec::{encode_ascii_frame, encode_ascii_frame_into, encode_rtu_frame};
use oms_modbus::{calculate_crc, calculate_lrc};

#[test]
fn crc_of_known_data() {
    assert_eq!(calculate_crc(b"123456789"), 0x4B37);
    assert_eq!(calculate_crc(&[]), 0xFFFF);
    assert_eq!(calculate_crc(&[1, 3, 0, 0, 0, 1]), 0x0A84);
}

#[test]
fn crc_agrees_with_bitwise_computation() {
    let mut data = Vec::new();
    for b in 0..=255u8 {
        data.push(b);
        let mut crc = 0xFFFFu16;
        for &x in &data {
            crc ^= x as u16;
            for _ in 0..8 {
                crc = if crc & 1 == 1 {
                    (crc >> 1) ^ 0xA001
                } else {
                    crc >> 1
                };
            }
        }
        assert_eq!(calculate_crc(&data), crc);
    }
}

#[test]
fn crc_detects_every_changed_byte() {
    let data = [1u8, 3, 2, 4, 0xD2];
    for k in 0..data.len() {
        for b in 0..=255u8 {
            if b != data[k] {
                let mut other = data;
                other[k] = b;
                assert_ne!(calculate_crc(&other), calculate_crc(&data));
                assert_ne!(calculate_lrc(&other), calculate_lrc(&data));
            }
        }
    }
}

#[test]
fn lrc_of_known_data() {
    assert_eq!(calculate_lrc(&[1, 3, 0, 0, 0, 1]), 0xFB);
    assert_eq!(calculate_lrc(&[]), 0);
    assert_eq!(calculate_lrc(&[0xFF, 0x01]), 0);
    let data = [17u8, 3, 0, 0x6B, 0, 3];
    let sum = data.iter().fold(0u8, |a, &b| a.wrapping_add(b));
    assert_eq!(sum.wrapping_add(calculate_lrc(&data)), 0);
}

#[test]
fn rtu_frames_end_with_the_low_crc_byte_first() {
    let mut buf = BytesMut::new();
    encode_rtu_frame(&[1, 3, 0, 0, 0, 1], &mut buf);
    assert_eq!(&buf[..], &[1, 3, 0, 0, 0, 1, 0x84, 0x0A]);
    encode_rtu_frame(&[], &mut buf);
    assert_eq!(&buf[8..], &[0xFF, 0xFF]);
}

#[test]
fn ascii_frames_are_upper_case_hex() {
    assert_eq!(
        encode_ascii_frame(&[0x11, 0x03, 0x00, 0x6B, 0x00, 0x03]),
        b":1103006B00037E\r\n"
    );
    assert_eq!(encode_ascii_frame(&[]), b":00\r\n");
    let mut buf = BytesMut::new();
    encode_ascii_frame_into(&[0xAF, 0x50], &mut buf);
    assert_eq!(&buf[..], b":AF5001\r\n");
}
