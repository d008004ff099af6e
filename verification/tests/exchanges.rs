//! Transactions of a client against a server, step by step.

use bytes::Bytes;
use oms_modbus::tcp::{next_tid, LengthMode, TcpConfig, TidMode};
use oms_modbus::transport::exchange::{Action, Exchange, Protocol, SendEvent};
use oms_modbus::transport::send_recv::{process_server_request, ReadEvent};
use oms_modbus::transport::session::Session;
use oms_modbus::{Exception, Micros, ModbusError, Request, Response, SlaveStore};

fn config(unit_id_in_body: bool, length_mode: LengthMode) -> TcpConfig {
    TcpConfig {
        tid: TidMode::Auto,
        unit_id_in_body,
        length_mode,
    }
}

fn protocols() -> Vec<Protocol> {
    vec![
        Protocol::Rtu,
        Protocol::Ascii,
        Protocol::Tcp(config(false, LengthMode::Standard)),
        Protocol::Tcp(config(true, LengthMode::Standard)),
        Protocol::Tcp(config(false, LengthMode::PduOnly)),
        Protocol::Tcp(config(true, LengthMode::PduOnly)),
    ]
}

/// The server's answer to a frame, if it sends one.
fn serve(session: &mut Session, store: &mut SlaveStore, frame: &[u8]) -> Option<Bytes> {
    session.on_data(frame);
    let incoming = session.next_request()?;
    let mut buf = bytes::BytesMut::new();
    let answer = process_server_request(&incoming.pdu, incoming.slave_id, store, &mut buf)?;
    Some(session.reply_frame(&answer, incoming.tid))
}

/// Run a transaction over a quiet bus. The answer arrives in pieces.
fn transact(
    protocol: Protocol,
    slave: u8,
    request: Request<'_>,
    store: &mut SlaveStore,
    piece: usize,
) -> Result<Response, ModbusError> {
    let mut session = Session::new(protocol);
    let mut answer = Bytes::new();
    let mut now_us = 1_000u64;
    let (mut exchange, mut action) = Exchange::start(protocol, slave, request, Micros(500_000));
    loop {
        action = match action {
            Action::Read { wait_us } => {
                if answer.is_empty() {
                    now_us += wait_us;
                    exchange.on_read(ReadEvent::Elapsed, &[], now_us)
                } else {
                    let chunk = answer.split_to(piece.min(answer.len()));
                    now_us += 10;
                    exchange.on_read(ReadEvent::Data, &chunk, now_us)
                }
            }
            Action::Prepare { spaced } => {
                assert_eq!(spaced, !matches!(protocol, Protocol::Tcp(_)));
                exchange.on_prepared(0x1234)
            }
            Action::Send { frame, wait_us } => {
                assert_eq!(wait_us, 500_000);
                if let Some(reply) = serve(&mut session, store, &frame) {
                    answer = reply;
                }
                exchange.on_sent(SendEvent::Sent, now_us)
            }
            Action::Done(result) => return result,
        };
    }
}

#[test]
fn a_store_is_reached_over_every_protocol() {
    for protocol in protocols() {
        for piece in [1, 3, 1000] {
            let mut store = SlaveStore::with_holding_registers(&[(0, 1234), (1, 5678)]);
            assert_eq!(
                transact(protocol, 17, Request::ReadHoldingRegisters(0, 2), &mut store, piece),
                Ok(Response::ReadHoldingRegisters(vec![1234, 5678])),
                "{protocol:?} in pieces of {piece}"
            );
            assert_eq!(
                transact(
                    protocol,
                    17,
                    Request::WriteMultipleRegisters(1, vec![9, 10].into()),
                    &mut store,
                    piece
                ),
                Ok(Response::WriteMultipleRegisters(1, 2))
            );
            assert_eq!(store.read_holding_range(0, 3), vec![1234, 9, 10]);
            assert_eq!(
                transact(protocol, 17, Request::Diagnostic(0x77, 0), &mut store, piece),
                Ok(Response::Exception(8, Exception::IllegalDataValue))
            );
            assert_eq!(
                transact(
                    protocol,
                    17,
                    Request::WriteMultipleCoils(0, vec![true; 9].into()),
                    &mut store,
                    piece
                ),
                Ok(Response::WriteMultipleCoils(0, 9))
            );
            assert_eq!(
                transact(protocol, 17, Request::ReadCoils(0, 8), &mut store, piece),
                Ok(Response::ReadCoils(vec![true; 8]))
            );
            assert_eq!(
                transact(
                    protocol,
                    17,
                    Request::ReadHoldingRegisters(0, 125),
                    &mut store,
                    piece
                )
                .map(|_| ()),
                Ok(())
            );
        }
    }
}

#[test]
fn a_broadcast_times_out() {
    for protocol in protocols() {
        let mut store = SlaveStore::new();
        let result = transact(
            protocol,
            0,
            Request::WriteSingleRegister(0, 1),
            &mut store,
            1000,
        );
        assert!(matches!(result, Err(ModbusError::Timeout(_))));
        assert_eq!(store.read_holding_register(0), 0);
    }
}

#[test]
fn a_disconnect_is_refused_over_ascii() {
    let (_, action) = Exchange::start(Protocol::Ascii, 1, Request::Disconnect, Micros(1));
    match action {
        Action::Done(r) => assert_eq!(r, Err(ModbusError::other("Disconnected"))),
        _ => panic!("nothing is sent"),
    }
}

#[test]
fn stale_bytes_are_dropped_before_sending() {
    let (mut exchange, action) = Exchange::start(
        Protocol::Rtu,
        1,
        Request::ReadHoldingRegisters(0, 1),
        Micros(1000),
    );
    assert!(matches!(action, Action::Read { wait_us: 1_000 }));
    let action = exchange.on_read(ReadEvent::Data, &[1, 3, 2, 0, 0], 10);
    assert!(matches!(action, Action::Read { wait_us: 10_000 }));
    let action = exchange.on_read(ReadEvent::Elapsed, &[], 20);
    assert!(matches!(action, Action::Prepare { spaced: true }));
    match exchange.on_prepared(0) {
        Action::Send { frame, .. } => {
            assert_eq!(&frame[..], &[1, 3, 0, 0, 0, 1, 0x84, 0x0A]);
        }
        _ => panic!("the request is sent"),
    }
    let action = exchange.on_sent(SendEvent::Sent, 30);
    assert!(matches!(action, Action::Read { wait_us: 1000 }));
    match exchange.on_read(ReadEvent::Elapsed, &[], 1030) {
        Action::Done(r) => assert_eq!(r, Err(ModbusError::timeout("recv timed out"))),
        _ => panic!("the transaction is over"),
    }
}

#[test]
fn requests_without_wire_form_are_not_sent() {
    let (mut exchange, _) = Exchange::start(
        Protocol::Rtu,
        1,
        Request::WriteMultipleRegisters(0, vec![0; 124].into()),
        Micros(1000),
    );
    exchange.on_read(ReadEvent::Elapsed, &[], 10);
    match exchange.on_prepared(0) {
        Action::Done(r) => assert_eq!(
            r,
            Err(ModbusError::protocol(
                "PDU encode: PDU size 254 exceeds Modbus limit of 253"
            ))
        ),
        _ => panic!("nothing is sent"),
    }
}

#[test]
fn sending_can_fail() {
    for (event, error) in [
        (SendEvent::Elapsed, ModbusError::timeout("send timed out")),
        (
            SendEvent::Failed(ModbusError::connection("reset")),
            ModbusError::connection("reset"),
        ),
    ] {
        let (mut exchange, _) =
            Exchange::start(Protocol::Rtu, 1, Request::ReadCoils(0, 1), Micros(1000));
        exchange.on_read(ReadEvent::Elapsed, &[], 10);
        exchange.on_prepared(0);
        match exchange.on_sent(event, 20) {
            Action::Done(r) => assert_eq!(r, Err(error)),
            _ => panic!("the transaction is over"),
        }
    }
}

/// What a client over a protocol makes of the given bytes.
fn receive(protocol: Protocol, slave: u8, bytes: &[u8]) -> Result<Response, ModbusError> {
    let (mut exchange, _) = Exchange::start(
        protocol,
        slave,
        Request::ReadHoldingRegisters(0, 1),
        Micros(1000),
    );
    exchange.on_read(ReadEvent::Elapsed, &[], 10);
    exchange.on_prepared(0);
    exchange.on_sent(SendEvent::Sent, 20);
    let mut action = exchange.on_read(ReadEvent::Data, bytes, 30);
    loop {
        action = match action {
            Action::Read { .. } => exchange.on_read(ReadEvent::Elapsed, &[], 40),
            Action::Done(r) => return r,
            _ => panic!("the response is waited for"),
        };
    }
}

#[test]
fn broken_rtu_responses() {
    assert_eq!(
        receive(Protocol::Rtu, 1, &[1, 3, 2, 0, 7, 0, 0]),
        Err(ModbusError::protocol("RTU CRC mismatch"))
    );
    assert_eq!(
        receive(Protocol::Rtu, 1, &[1, 3]),
        Err(ModbusError::timeout("RTU short frame (2 bytes, need at least 5)"))
    );
    let crc = oms_modbus::calculate_crc(&[2, 3, 2, 0, 7]).to_le_bytes();
    assert_eq!(
        receive(Protocol::Rtu, 1, &[2, 3, 2, 0, 7, crc[0], crc[1]]),
        Err(ModbusError::protocol("slave ID mismatch: expected 1, got 2"))
    );
    let crc = oms_modbus::calculate_crc(&[1, 3, 3, 0, 7]).to_le_bytes();
    assert_eq!(
        receive(Protocol::Rtu, 1, &[1, 3, 3, 0, 7, crc[0], crc[1]]),
        Err(ModbusError::protocol(
            "PDU decode: register response: byte_count 3 is not even"
        ))
    );
}

#[test]
fn broken_tcp_responses() {
    let tcp = Protocol::Tcp(TcpConfig::default());
    assert_eq!(
        receive(tcp, 1, &[0, 0, 0, 1, 0, 5, 1, 3, 2, 0, 7]),
        Err(ModbusError::protocol("TCP: invalid Protocol ID"))
    );
    assert_eq!(
        receive(tcp, 1, &[0, 0, 0, 0, 1, 5, 1]),
        Err(ModbusError::protocol("TCP: MBAP Length exceeds max ADU"))
    );
    assert_eq!(
        receive(tcp, 1, &[0, 0, 0, 0, 0, 5, 1, 3]),
        Err(ModbusError::timeout("TCP recv timed out"))
    );
    assert_eq!(
        receive(tcp, 1, &[0, 0, 0]),
        Err(ModbusError::timeout("TCP recv timed out"))
    );
    assert_eq!(
        receive(tcp, 1, &[0, 0, 0, 0, 0, 1, 1]),
        Err(ModbusError::protocol("empty TCP response PDU"))
    );
    // The unit identifier of the header is not looked at.
    assert_eq!(
        receive(tcp, 1, &[0, 0, 0, 0, 0, 5, 99, 3, 2, 0, 7]),
        Ok(Response::ReadHoldingRegisters(vec![7]))
    );
    assert_eq!(
        receive(
            Protocol::Tcp(TcpConfig::gateway()),
            1,
            &[0, 0, 0, 0, 0, 6, 1, 1, 3, 2, 0, 7]
        ),
        Ok(Response::ReadHoldingRegisters(vec![7]))
    );
}

#[test]
fn broken_ascii_responses() {
    assert_eq!(
        receive(Protocol::Ascii, 1, b":01030200"),
        Err(ModbusError::timeout("ASCII_RECV_TIMEOUT"))
    );
    assert_eq!(
        receive(Protocol::Ascii, 1, b"noise\r\n:0103020007F3\r\n"),
        Ok(Response::ReadHoldingRegisters(vec![7]))
    );
    assert_eq!(
        receive(Protocol::Ascii, 2, b":0103020007F3\r\n"),
        Err(ModbusError::protocol("slave ID mismatch: expected 2, got 1"))
    );
}

#[test]
fn connections_can_close_while_receiving() {
    for protocol in protocols() {
        let (mut exchange, _) = Exchange::start(
            protocol,
            1,
            Request::ReadHoldingRegisters(0, 1),
            Micros(1000),
        );
        exchange.on_read(ReadEvent::Elapsed, &[], 10);
        exchange.on_prepared(0);
        exchange.on_sent(SendEvent::Sent, 20);
        match exchange.on_read(ReadEvent::Closed, &[], 30) {
            Action::Done(r) => assert_eq!(r, Err(ModbusError::connection("connection closed"))),
            _ => panic!("the transaction is over"),
        }
    }
}

#[test]
fn transaction_identifiers() {
    let mut counter = 65535;
    assert_eq!(next_tid(&TidMode::Fixed(9), &mut counter), 9);
    assert_eq!(counter, 65535);
    assert_eq!(next_tid(&TidMode::Auto, &mut counter), 65535);
    assert_eq!(next_tid(&TidMode::Auto, &mut counter), 0);
    assert_eq!(next_tid(&TidMode::Auto, &mut counter), 1);
}

#[test]
fn tcp_configurations() {
    assert_eq!(TcpConfig::default(), TcpConfig::standard());
    assert_eq!(TcpConfig::standard().tid, TidMode::Fixed(0));
    assert!(!TcpConfig::standard().unit_id_in_body);
    assert_eq!(TcpConfig::standard().length_mode, LengthMode::Standard);
    assert_eq!(
        TcpConfig::gateway(),
        config(true, LengthMode::Standard)
    );
}
