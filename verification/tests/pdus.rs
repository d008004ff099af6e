//! Requests and responses, and their wire form.

use bytes::{Bytes, BytesMut};
use oms_modbus::frame::{
    encode_request_into, encode_response_into, ByteCountField, PduError, PduErrorKind, Span,
};
use oms_modbus::{Exception, ExceptionResponse, FunctionCode, Request, Response};

fn request_bytes(req: Request<'_>) -> Vec<u8> {
    Bytes::try_from(req).unwrap().to_vec()
}

fn response_bytes(rsp: Response) -> Vec<u8> {
    Bytes::from(rsp).to_vec()
}

fn decode_request(pdu: &[u8]) -> Result<Request<'static>, PduError> {
    Request::try_from(Bytes::copy_from_slice(pdu))
}

fn decode_response(pdu: &[u8]) -> Result<Response, PduError> {
    Response::try_from(Bytes::copy_from_slice(pdu))
}

/// Every request with its wire form.
fn requests() -> Vec<(Request<'static>, Vec<u8>)> {
    vec![
        (
            Request::ReadCoils(0x0102, 0x0304),
            vec![1, 0x01, 0x02, 0x03, 0x04],
        ),
        (
            Request::ReadDiscreteInputs(0xFFFF, 1),
            vec![2, 0xFF, 0xFF, 0, 1],
        ),
        (Request::ReadHoldingRegisters(0, 125), vec![3, 0, 0, 0, 125]),
        (Request::ReadInputRegisters(7, 2), vec![4, 0, 7, 0, 2]),
        (
            Request::WriteSingleCoil(0x1234, true),
            vec![5, 0x12, 0x34, 0xFF, 0x00],
        ),
        (
            Request::WriteSingleCoil(0x1234, false),
            vec![5, 0x12, 0x34, 0x00, 0x00],
        ),
        (
            Request::WriteSingleRegister(0x1234, 0xABCD),
            vec![6, 0x12, 0x34, 0xAB, 0xCD],
        ),
        (Request::Diagnostic(0, 0xA5A5), vec![8, 0, 0, 0xA5, 0xA5]),
        (
            Request::WriteMultipleCoils(
                19,
                vec![
                    true, false, true, true, false, false, true, true, true, false,
                ]
                .into(),
            ),
            vec![15, 0, 19, 0, 10, 2, 0xCD, 0x01],
        ),
        (
            Request::WriteMultipleRegisters(1, vec![10, 0x0102].into()),
            vec![16, 0, 1, 0, 2, 4, 0, 10, 1, 2],
        ),
        (
            Request::MaskWriteRegister(4, 0x00F2, 0x0025),
            vec![22, 0, 4, 0x00, 0xF2, 0x00, 0x25],
        ),
        (
            Request::ReadWriteMultipleRegisters(3, 6, 14, vec![255, 255, 255].into()),
            vec![
                23, 0, 3, 0, 6, 0, 14, 0, 3, 6, 0, 255, 0, 255, 0, 255,
            ],
        ),
    ]
}

/// Every response with its wire form.
fn responses() -> Vec<(Response, Vec<u8>)> {
    vec![
        (
            Response::ReadCoils(vec![
                true, false, true, true, false, false, true, true,
            ]),
            vec![1, 1, 0xCD],
        ),
        (
            Response::ReadDiscreteInputs(vec![
                false, false, false, false, false, false, false, true,
            ]),
            vec![2, 1, 0x80],
        ),
        (
            Response::ReadHoldingRegisters(vec![0x022B, 0, 100]),
            vec![3, 6, 0x02, 0x2B, 0, 0, 0, 100],
        ),
        (Response::ReadInputRegisters(vec![10]), vec![4, 2, 0, 10]),
        (
            Response::WriteSingleCoil(172, true),
            vec![5, 0, 172, 0xFF, 0],
        ),
        (Response::WriteSingleRegister(1, 3), vec![6, 0, 1, 0, 3]),
        (Response::Diagnostic(10, 0), vec![8, 0, 10, 0, 0]),
        (Response::WriteMultipleCoils(19, 10), vec![15, 0, 19, 0, 10]),
        (
            Response::WriteMultipleRegisters(1, 2),
            vec![16, 0, 1, 0, 2],
        ),
        (
            Response::MaskWriteRegister(4, 0xF2, 0x25),
            vec![22, 0, 4, 0, 0xF2, 0, 0x25],
        ),
        (
            Response::ReadWriteMultipleRegisters(vec![0x00FE, 0x0ACD]),
            vec![23, 4, 0, 0xFE, 0x0A, 0xCD],
        ),
        (
            Response::Exception(3, Exception::IllegalDataAddress),
            vec![0x83, 2],
        ),
        (
            Response::Exception(0x2B, Exception::Custom(0x40)),
            vec![0xAB, 0x40],
        ),
    ]
}

#[test]
fn requests_come_back_from_the_wire() {
    for (req, wire) in requests() {
        assert_eq!(request_bytes(req.clone()), wire);
        assert_eq!(req.function_code().value(), wire[0]);
        assert_eq!(decode_request(&wire).unwrap(), req);
        let mut longer = wire.clone();
        longer.push(0x55);
        assert_eq!(decode_request(&longer).unwrap(), req);
    }
}

#[test]
fn responses_come_back_from_the_wire() {
    for (rsp, wire) in responses() {
        assert_eq!(response_bytes(rsp.clone()), wire);
        assert_eq!(rsp.function_code().value(), wire[0]);
        assert_eq!(decode_response(&wire).unwrap(), rsp);
    }
}

#[test]
fn coils_come_back_filled_up_to_whole_bytes() {
    let wire = response_bytes(Response::ReadCoils(vec![true, false, true]));
    assert_eq!(wire, vec![1, 1, 0x05]);
    assert_eq!(
        decode_response(&wire).unwrap(),
        Response::ReadCoils(vec![true, false, true, false, false, false, false, false])
    );
}

#[test]
fn a_coil_reply_reads_as_off_unless_it_says_on() {
    assert_eq!(
        decode_response(&[5, 0, 1, 0x12, 0x34]).unwrap(),
        Response::WriteSingleCoil(1, false)
    );
}

#[test]
fn a_disconnect_has_no_wire_form() {
    assert!(request_bytes(Request::Disconnect).is_empty());
    assert_eq!(Request::Disconnect.function_code().value(), 0);
}

#[test]
fn truncated_requests_are_refused() {
    assert_eq!(decode_request(&[]).unwrap_err(), PduError::Empty);
    for (_, wire) in requests() {
        for n in 1..wire.len() {
            let e = decode_request(&wire[..n]).unwrap_err();
            assert_eq!(e.kind(), PduErrorKind::UnexpectedEof, "{wire:?} to {n}");
        }
    }
    assert_eq!(
        decode_request(&[15, 0, 0, 0, 9, 2, 0xFF]).unwrap_err(),
        PduError::TruncatedCoilData
    );
    assert_eq!(
        decode_request(&[16, 0, 0, 0, 1, 2, 0xFF]).unwrap_err(),
        PduError::TruncatedRegisterData
    );
    assert_eq!(
        decode_request(&[23, 0, 0, 0, 1, 0, 0, 0, 1, 2, 0xFF]).unwrap_err(),
        PduError::TruncatedReadWriteData
    );
    assert_eq!(decode_request(&[3, 0]).unwrap_err(), PduError::Truncated);
}

#[test]
fn truncated_responses_are_refused() {
    assert_eq!(decode_response(&[]).unwrap_err(), PduError::Empty);
    for (_, wire) in responses() {
        for n in 1..wire.len() {
            assert!(decode_response(&wire[..n]).is_err(), "{wire:?} to {n}");
        }
    }
    assert_eq!(
        decode_response(&[0x83]).unwrap_err(),
        PduError::TruncatedException
    );
    assert_eq!(
        decode_response(&[3]).unwrap_err(),
        PduError::TruncatedResponse
    );
    assert_eq!(
        decode_response(&[1, 2, 0]).unwrap_err(),
        PduError::TruncatedCoilResponse
    );
    assert_eq!(
        decode_response(&[3, 2, 0]).unwrap_err(),
        PduError::TruncatedRegisterResponse
    );
    assert_eq!(
        decode_response(&[23, 2, 0]).unwrap_err(),
        PduError::TruncatedReadWriteResponse
    );
}

#[test]
fn broken_responses_are_refused() {
    let e = decode_response(&[3, 3, 0, 0, 0]).unwrap_err();
    assert_eq!(e, PduError::OddRegisterByteCount(3));
    assert_eq!(
        e.to_string(),
        "register response: byte_count 3 is not even"
    );
    let e = decode_response(&[23, 1, 0]).unwrap_err();
    assert_eq!(e, PduError::OddReadWriteByteCount(1));
    assert_eq!(
        e.to_string(),
        "ReadWriteMultipleRegisters response: byte_count 1 is not even"
    );
    let e = decode_response(&[7, 0, 0]).unwrap_err();
    assert_eq!(e, PduError::UnknownResponseFunctionCode(7));
    assert_eq!(e.to_string(), "unknown response function code: 7");
    assert_eq!(e.kind(), PduErrorKind::InvalidData);
}

#[test]
fn broken_requests_are_refused() {
    let e = decode_request(&[3, 0, 0, 0, 126]).unwrap_err();
    assert_eq!(
        e,
        PduError::QuantityOutOfRange(Span::ReadHoldingRegisters, 126, 125)
    );
    assert_eq!(e.to_string(), "ReadHoldingRegisters: qty 126 not in 1..=125");
    let e = decode_request(&[1, 0, 0, 0, 0]).unwrap_err();
    assert_eq!(e.to_string(), "ReadCoils: qty 0 not in 1..=2000");
    assert!(decode_request(&[1, 0, 0, 0x07, 0xD0]).is_ok());
    assert!(decode_request(&[1, 0, 0, 0x07, 0xD1]).is_err());
    let e = decode_request(&[4, 0xFF, 0xFF, 0, 2]).unwrap_err();
    assert_eq!(
        e,
        PduError::AddressOverflow(Span::ReadInputRegisters, 0xFFFF, 2)
    );
    assert_eq!(
        e.to_string(),
        "ReadInputRegisters: addr 65535 + qty 2 exceeds 0xFFFF"
    );
    assert!(decode_request(&[4, 0xFF, 0xFF, 0, 1]).is_ok());
    let e = decode_request(&[5, 0, 0, 0x12, 0x34]).unwrap_err();
    assert_eq!(e, PduError::InvalidCoilValue(0x1234));
    assert_eq!(
        e.to_string(),
        "WriteSingleCoil: invalid coil value 0x1234, expected 0xFF00 or 0x0000"
    );
    let e = decode_request(&[15, 0, 0, 0, 9, 1, 0xFF, 0xFF]).unwrap_err();
    assert_eq!(
        e,
        PduError::ByteCountMismatch(Span::WriteMultipleCoils, 1, 2)
    );
    assert_eq!(
        e.to_string(),
        "WriteMultipleCoils: byte_count 1 != ceil(qty/8) (2)"
    );
    let e = decode_request(&[16, 0, 0, 0, 2, 3, 0, 0, 0, 0]).unwrap_err();
    assert_eq!(
        e.to_string(),
        "WriteMultipleRegisters: byte_count 3 != qty*2 (4)"
    );
    let e = decode_request(&[23, 0, 0, 0, 1, 0, 0, 0, 1, 4, 0, 0]).unwrap_err();
    assert_eq!(
        e.to_string(),
        "ReadWriteMultipleRegisters: byte_count 4 != write_qty*2 (2)"
    );
    let e = decode_request(&[23, 0, 0, 0, 0, 0, 0, 0, 1, 2, 0, 0]).unwrap_err();
    assert_eq!(
        e.to_string(),
        "ReadWriteMultipleRegisters: read_qty 0 not in 1..=125"
    );
    let e = decode_request(&[23, 0, 0, 0, 1, 0xFF, 0xFF, 0, 2, 4, 0, 0]).unwrap_err();
    assert_eq!(
        e.to_string(),
        "ReadWriteMultipleRegisters: write_addr 65535 + write_qty 2 exceeds 0xFFFF"
    );
    let e = decode_request(&[0x2B, 0, 0]).unwrap_err();
    assert_eq!(e, PduError::UnknownFunctionCode(0x2B));
    assert_eq!(e.to_string(), "unknown function code: 0x2B");
}

#[test]
fn oversized_requests_are_not_encoded() {
    let mut buf = BytesMut::new();
    let e = encode_request_into(
        &Request::WriteMultipleRegisters(0, vec![0u16; 128].into()),
        &mut buf,
    )
    .unwrap_err();
    assert_eq!(
        e,
        PduError::ByteCountOverflow(ByteCountField::Registers, 256)
    );
    assert_eq!(
        e.to_string(),
        "write multiple reg byte count: value 256 exceeds u8 range"
    );
    let mut buf = BytesMut::new();
    buf.extend_from_slice(&[9]);
    let e = encode_request_into(
        &Request::WriteMultipleRegisters(0, vec![0u16; 124].into()),
        &mut buf,
    )
    .unwrap_err();
    assert_eq!(e, PduError::PduTooLarge(254));
    assert_eq!(
        e.to_string(),
        "PDU size 254 exceeds Modbus limit of 253"
    );
    assert_eq!(&buf[..], &[9]);
    let mut buf = BytesMut::new();
    let e = encode_request_into(
        &Request::WriteMultipleCoils(0, vec![true; 2041].into()),
        &mut buf,
    )
    .unwrap_err();
    assert_eq!(e.to_string(), "coil byte count: value 256 exceeds u8 range");
    let mut buf = BytesMut::new();
    let e = encode_request_into(
        &Request::ReadWriteMultipleRegisters(0, 1, 0, vec![0u16; 200].into()),
        &mut buf,
    )
    .unwrap_err();
    assert_eq!(
        e.to_string(),
        "read-write reg byte count: value 400 exceeds u8 range"
    );
}

#[test]
fn oversized_responses_are_not_encoded() {
    let mut buf = BytesMut::new();
    buf.extend_from_slice(&[7]);
    let e =
        encode_response_into(&Response::ReadHoldingRegisters(vec![0; 126]), &mut buf).unwrap_err();
    assert_eq!(e, PduError::PduTooLarge(254));
    assert_eq!(&buf[..], &[7]);
    let e =
        encode_response_into(&Response::ReadHoldingRegisters(vec![0; 128]), &mut buf).unwrap_err();
    assert_eq!(
        e.to_string(),
        "response byte count: value 256 exceeds u8 range"
    );
    assert_eq!(&buf[..], &[7]);
    assert!(encode_response_into(&Response::ReadInputRegisters(vec![1; 125]), &mut buf).is_ok());
    assert_eq!(buf.len(), 1 + 252);
    assert!(response_bytes(Response::ReadHoldingRegisters(vec![0; 126])).is_empty());
    assert!(response_bytes(Response::ReadCoils(vec![true; 2001])).is_empty());
    assert_eq!(response_bytes(Response::ReadCoils(vec![true; 2000])).len(), 252);
}

#[test]
fn owned_requests_are_the_same_requests() {
    let coils = [true, false];
    let regs = [1u16, 2];
    let req = Request::WriteMultipleCoils(3, coils[..].into());
    assert_eq!(req.clone().into_owned(), req);
    let req = Request::WriteMultipleRegisters(3, regs[..].into());
    assert_eq!(req.clone().into_owned(), req);
    let req = Request::ReadWriteMultipleRegisters(1, 2, 3, regs[..].into());
    assert_eq!(req.clone().into_owned(), req);
    for (req, _) in requests() {
        assert_eq!(req.clone().into_owned(), req);
    }
}

#[test]
fn exception_codes_come_back() {
    for code in 0..=255u8 {
        assert_eq!(u8::from(Exception::from(code)), code);
    }
    assert_eq!(Exception::from(11), Exception::GatewayTargetDeviceFailedToRespond);
    assert_eq!(Exception::from(9), Exception::Custom(9));
    assert_eq!(Exception::IllegalDataValue.to_string(), "Illegal data value");
    assert_eq!(Exception::Custom(42).to_string(), "Custom(42)");
}

#[test]
fn exception_replies_are_described() {
    let reply = ExceptionResponse {
        function: FunctionCode::new(3),
        exception: Exception::ServerDeviceBusy,
    };
    assert_eq!(
        reply.to_string(),
        "Modbus exception ServerDeviceBusy for function FunctionCode(3)"
    );
    assert_eq!(
        format!(
            "Modbus exception {:?} for function {:?}",
            reply.exception, reply.function
        ),
        reply.to_string()
    );
}

#[test]
fn diagnostics_print_as_debug_does() {
    for (rsp, _) in responses() {
        assert_eq!(rsp.to_debug_string(), format!("{rsp:?}"));
    }
    for rsp in [
        Response::ReadCoils(vec![]),
        Response::ReadInputRegisters(vec![65535]),
        Response::WriteSingleCoil(0, false),
    ] {
        assert_eq!(rsp.to_debug_string(), format!("{rsp:?}"));
    }
    for code in 0..=12u8 {
        let e = Exception::from(code);
        assert_eq!(e.to_debug_string(), format!("{e:?}"));
    }
}

#[test]
fn invalid_requests_are_refused_on_decoding() {
    for req in [
        Request::ReadCoils(0, 0),
        Request::ReadDiscreteInputs(0, 2001),
        Request::ReadHoldingRegisters(65535, 2),
        Request::ReadInputRegisters(0, 126),
        Request::WriteMultipleCoils(0, vec![].into()),
        Request::WriteMultipleRegisters(65535, vec![1, 2].into()),
        Request::ReadWriteMultipleRegisters(0, 126, 0, vec![1].into()),
        Request::ReadWriteMultipleRegisters(0, 1, 0, vec![].into()),
        Request::Disconnect,
    ] {
        let wire = request_bytes(req);
        assert!(decode_request(&wire).is_err(), "{wire:?}");
    }
}
