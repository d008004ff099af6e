//! RTU frames, and how long a response is.

use oms_modbus::calculate_crc;
use oms_modbus::rtu::{expected_rtu_pdu_len, try_parse_server_rtu};
use oms_modbus::Request;

// ── expected_rtu_pdu_len ────────────────────────────────────────────

#[test]
fn read_coils_pdu_len() {
    assert_eq!(expected_rtu_pdu_len(&Request::ReadCoils(1, 1)), Some(3));
    assert_eq!(expected_rtu_pdu_len(&Request::ReadCoils(1, 8)), Some(3));
    assert_eq!(expected_rtu_pdu_len(&Request::ReadCoils(1, 9)), Some(4));
}

#[test]
fn read_discrete_inputs_pdu_len() {
    assert_eq!(
        expected_rtu_pdu_len(&Request::ReadDiscreteInputs(1, 2000)),
        Some(2 + 250)
    );
}

#[test]
fn read_holding_registers_pdu_len() {
    assert_eq!(
        expected_rtu_pdu_len(&Request::ReadHoldingRegisters(1, 1)),
        Some(4)
    );
    assert_eq!(
        expected_rtu_pdu_len(&Request::ReadHoldingRegisters(1, 125)),
        Some(252)
    );
}

#[test]
fn read_input_registers_pdu_len() {
    assert_eq!(
        expected_rtu_pdu_len(&Request::ReadInputRegisters(1, 125)),
        Some(252)
    );
}

#[test]
fn write_single_coil_pdu_len() {
    assert_eq!(
        expected_rtu_pdu_len(&Request::WriteSingleCoil(1, true)),
        Some(5)
    );
}

#[test]
fn write_single_register_pdu_len() {
    assert_eq!(
        expected_rtu_pdu_len(&Request::WriteSingleRegister(1, 0x1234)),
        Some(5)
    );
}

#[test]
fn write_multiple_coils_pdu_len() {
    let coils: std::borrow::Cow<'_, [bool]> = std::borrow::Cow::Owned(vec![true; 10]);
    assert_eq!(
        expected_rtu_pdu_len(&Request::WriteMultipleCoils(1, coils)),
        Some(5)
    );
}

#[test]
fn write_multiple_registers_pdu_len() {
    let regs: std::borrow::Cow<'_, [u16]> = std::borrow::Cow::Owned(vec![0; 10]);
    assert_eq!(
        expected_rtu_pdu_len(&Request::WriteMultipleRegisters(1, regs)),
        Some(5)
    );
}

#[test]
fn read_write_multiple_registers_pdu_len() {
    let regs: std::borrow::Cow<'_, [u16]> = std::borrow::Cow::Owned(vec![0; 3]);
    assert_eq!(
        expected_rtu_pdu_len(&Request::ReadWriteMultipleRegisters(1, 3, 1, regs)),
        Some(8)
    );
}

#[test]
fn mask_write_register_pdu_len() {
    assert_eq!(
        expected_rtu_pdu_len(&Request::MaskWriteRegister(1, 0x0000, 0xFFFF)),
        Some(7)
    );
}

#[test]
fn diagnostic_pdu_len() {
    // Diagnostic(sub_function, data) — both u16
    assert_eq!(
        expected_rtu_pdu_len(&Request::Diagnostic(0x0000, 0x0000)),
        Some(5)
    );
}

#[test]
fn disconnect_pdu_len_is_none() {
    assert_eq!(expected_rtu_pdu_len(&Request::Disconnect), None);
}

// ── try_parse_server_rtu ────────────────────────────────────────────

#[test]
fn server_parse_empty_buffer() {
    assert!(try_parse_server_rtu(&[]).is_none());
}

#[test]
fn server_parse_too_short() {
    assert!(try_parse_server_rtu(&[0x01, 0x03, 0x00, 0x00]).is_none());
}

#[test]
fn server_parse_valid_read_holding_response() {
    // slave=1, FC=3, byte_count=2, data=[0, 0]
    let mut frame = vec![0x01, 0x03, 0x02, 0x00, 0x00];
    let crc = calculate_crc(&frame);
    frame.extend_from_slice(&crc.to_le_bytes());
    let (slave, pdu, consumed) = try_parse_server_rtu(&frame).unwrap();
    assert_eq!(slave, 1);
    assert_eq!(pdu[0], 0x03);
    assert_eq!(consumed, frame.len());
}

#[test]
fn server_parse_crc_mismatch() {
    let frame = [0x01, 0x03, 0x00, 0x00, 0x00, 0x01, 0xFF, 0xFF];
    assert!(try_parse_server_rtu(&frame).is_none());
}

#[test]
fn server_parse_unknown_function_code_rejected() {
    // Valid CRC but FC=0x46 (unknown) → silently discarded
    let mut frame = vec![0x01, 0x46, 0x00, 0x00, 0x01];
    let crc = calculate_crc(&frame);
    frame.extend_from_slice(&crc.to_le_bytes());
    assert!(try_parse_server_rtu(&frame).is_none());
}

#[test]
fn server_parse_zero_length_frame_after_crc_removal() {
    // Frame with only slave_id + CRC → after CRC strip, < 2 bytes
    let frame = [0x01, 0x00, 0x00];
    assert!(try_parse_server_rtu(&frame).is_none());
}
