//! The course of a server, step by step.

use bytes::BytesMut;
use oms_modbus::codec::{encode_ascii_frame, encode_rtu_frame};
use oms_modbus::tcp::{encode_tcp_frame, TcpConfig};
use oms_modbus::transport::exchange::Protocol;
use oms_modbus::transport::send_recv::ReadEvent;
use oms_modbus::transport::serving::{ServeAction, Serving};
use oms_modbus::{Exception, Micros, ModbusError, Request, Response, Service, SlaveStore};

const TIMEOUT: Micros = Micros(5_000);

fn rtu(data: &[u8]) -> Vec<u8> {
    let mut buf = BytesMut::new();
    encode_rtu_frame(data, &mut buf);
    buf.to_vec()
}

fn tcp(data: &[u8], tid: u16) -> Vec<u8> {
    let mut buf = BytesMut::new();
    encode_tcp_frame(data, &mut buf, &TcpConfig::gateway(), tid);
    buf.to_vec()
}

/// Hand bytes to a server, and collect the frames that it writes.
fn feed(serving: &mut Serving, store: &mut SlaveStore, data: &[u8]) -> Vec<Vec<u8>> {
    let mut written = Vec::new();
    let mut action = serving.on_read(ReadEvent::Data, data);
    loop {
        action = match action {
            ServeAction::Pass { .. } => serving.on_passed(),
            ServeAction::Call { slave_id, request } => {
                let result = store.call(slave_id, request);
                serving.on_answer(result)
            }
            ServeAction::Write { frame, .. } => {
                written.push(frame.to_vec());
                serving.on_written(true)
            }
            ServeAction::Read { .. } => return written,
            ServeAction::Stop => panic!("nothing went wrong"),
        };
    }
}

#[test]
fn a_request_is_called_answered_and_written() {
    let (mut serving, action) = Serving::start(Protocol::Rtu, TIMEOUT);
    assert!(matches!(action, ServeAction::Read { wait: None }));
    match serving.on_read(ReadEvent::Data, &rtu(&[1, 3, 0, 0, 0, 1])) {
        ServeAction::Call { slave_id, request } => {
            assert_eq!(slave_id, 1);
            assert_eq!(request, Request::ReadHoldingRegisters(0, 1));
        }
        _ => panic!("the service is called"),
    }
    match serving.on_answer(Ok(Response::ReadHoldingRegisters(vec![7]))) {
        ServeAction::Write { frame, spaced } => {
            assert_eq!(&frame[..], &rtu(&[1, 3, 2, 0, 7])[..]);
            assert!(spaced);
        }
        _ => panic!("the answer is written"),
    }
    assert!(matches!(
        serving.on_written(true),
        ServeAction::Read { wait: None }
    ));
}

#[test]
fn requests_in_one_read_are_answered_in_order() {
    let mut store = SlaveStore::with_holding_registers(&[(0, 5)]);
    let (mut serving, _) = Serving::start(Protocol::Ascii, TIMEOUT);
    let mut stream = encode_ascii_frame(&[1, 3, 0, 0, 0, 1]);
    // A broadcast and a request that does not decode get no answer.
    stream.extend_from_slice(&encode_ascii_frame(&[0, 6, 0, 0, 0, 9]));
    stream.extend_from_slice(&encode_ascii_frame(&[1, 3, 0, 0, 0, 0]));
    stream.extend_from_slice(&encode_ascii_frame(&[2, 8, 0, 0x77, 0, 0]));
    assert_eq!(
        feed(&mut serving, &mut store, &stream),
        vec![
            encode_ascii_frame(&[1, 3, 2, 0, 5]),
            encode_ascii_frame(&[2, 0x88, 3]),
        ]
    );
    assert_eq!(store.read_holding_register(0), 5);
}

#[test]
fn tcp_answers_carry_the_identifier_of_the_request() {
    let mut store = SlaveStore::new();
    let (mut serving, _) = Serving::start(Protocol::Tcp(TcpConfig::gateway()), TIMEOUT);
    let frame = tcp(&[17, 6, 0, 1, 0, 2], 0x0102);
    assert!(feed(&mut serving, &mut store, &frame[..5]).is_empty());
    assert_eq!(
        feed(&mut serving, &mut store, &frame[5..]),
        vec![tcp(&[17, 6, 0, 1, 0, 2], 0x0102)]
    );
    assert_eq!(store.read_holding_register(1), 2);
}

#[test]
fn no_spacing_is_kept_over_tcp() {
    let (mut serving, _) = Serving::start(Protocol::Tcp(TcpConfig::standard()), TIMEOUT);
    serving.on_read(ReadEvent::Data, &tcp(&[17, 6, 0, 1, 0, 2], 1));
    assert!(matches!(
        serving.on_answer(Ok(Response::WriteSingleRegister(1, 2))),
        ServeAction::Write { spaced: false, .. }
    ));
}

#[test]
fn silence_ends_a_frame_on_a_serial_line() {
    let mut store = SlaveStore::new();
    let (mut serving, _) = Serving::start(Protocol::Rtu, TIMEOUT);
    assert!(matches!(
        serving.on_read(ReadEvent::Data, &[1, 3, 0]),
        ServeAction::Read {
            wait: Some(TIMEOUT)
        }
    ));
    assert!(matches!(
        serving.on_read(ReadEvent::Elapsed, &[]),
        ServeAction::Read { wait: None }
    ));
    assert_eq!(
        feed(&mut serving, &mut store, &rtu(&[1, 3, 0, 0, 0, 1])),
        vec![rtu(&[1, 3, 2, 0, 0])]
    );
}

#[test]
fn an_answer_without_wire_form_is_not_written() {
    let (mut serving, _) = Serving::start(Protocol::Rtu, TIMEOUT);
    serving.on_read(ReadEvent::Data, &rtu(&[1, 3, 0, 0, 0, 1]));
    assert!(matches!(
        serving.on_answer(Ok(Response::ReadHoldingRegisters(vec![0; 126]))),
        ServeAction::Read { wait: None }
    ));
}

#[test]
fn a_closed_or_broken_transport_ends_it() {
    for event in [
        ReadEvent::Closed,
        ReadEvent::Failed(ModbusError::connection("reset")),
    ] {
        let (mut serving, _) = Serving::start(Protocol::Rtu, TIMEOUT);
        assert!(matches!(serving.on_read(event, &[]), ServeAction::Stop));
    }
    let (mut serving, _) = Serving::start(Protocol::Rtu, TIMEOUT);
    serving.on_read(ReadEvent::Data, &rtu(&[1, 3, 0, 0, 0, 1]));
    serving.on_answer(Err(Exception::ServerDeviceBusy));
    assert!(matches!(serving.on_written(false), ServeAction::Stop));
    assert!(serving.has_room(1));
}

#[test]
fn frames_without_an_answer_are_named() {
    let (mut serving, _) = Serving::start(Protocol::Ascii, TIMEOUT);
    let mut stream = encode_ascii_frame(&[0, 6, 0, 0, 0, 9]);
    stream.extend_from_slice(&encode_ascii_frame(&[7, 3, 0, 0, 0, 0]));
    match serving.on_read(ReadEvent::Data, &stream) {
        ServeAction::Pass { slave_id, error } => {
            assert_eq!(slave_id, 0);
            assert_eq!(error, None);
        }
        _ => panic!("a broadcast gets no answer"),
    }
    match serving.on_passed() {
        ServeAction::Pass { slave_id, error } => {
            assert_eq!(slave_id, 7);
            assert_eq!(
                error.unwrap().to_string(),
                "ReadHoldingRegisters: qty 0 not in 1..=125"
            );
        }
        _ => panic!("a request that does not decode gets no answer"),
    }
    assert!(matches!(
        serving.on_passed(),
        ServeAction::Read { wait: None }
    ));
}
