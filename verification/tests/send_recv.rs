//! Draining, trying again, building frames, answering requests.

use bytes::{Bytes, BytesMut};
use oms_modbus::error::ModbusError;
use oms_modbus::frame::{Exception, Request, Response};
use oms_modbus::server::Service;
use oms_modbus::transport::send_recv::{
    decode_server_request, drain_stale_data, drain_start, encode_server_response,
    process_server_request, read_at_least, read_start, send_frame, Drain, DrainStep, Framing,
    LinkKind, ReadEvent, ReadStep, Retry, RetryStep,
};
use oms_modbus::tcp::{LengthMode, TcpConfig, TidMode};
use oms_modbus::{Micros, ReconnectConfig, SlaveStore};

/// Drive a call to its end: `outcomes` says how each attempt ends, `rebuilds`
/// whether each rebuild works.
fn drive(
    config: Option<ReconnectConfig>,
    link: LinkKind,
    outcome: &mut dyn FnMut() -> Result<Response, ModbusError>,
    rebuild: &mut dyn FnMut() -> bool,
) -> (Result<Response, ModbusError>, u32) {
    let mut retry = Retry::new(config, link);
    let mut sends = 0;
    let mut step = RetryStep::Send;
    loop {
        step = match step {
            RetryStep::Send => {
                sends += 1;
                retry.on_sent(outcome())
            }
            RetryStep::Rebuild { interval } => {
                assert_eq!(interval, Micros::from_millis(1));
                retry.on_rebuilt(rebuild())
            }
            RetryStep::Finish(r) => return (r, sends),
        };
    }
}

#[test]
fn drain_stale_data_clean_bus_returns_ok() {
    let (state, wait_us) = match drain_start() {
        DrainStep::Read { state, wait_us } => (state, wait_us),
        _ => panic!("draining starts with a read"),
    };
    assert_eq!(wait_us, 1_000);
    let result = drain_stale_data(state, ReadEvent::Elapsed, 1_000);
    assert!(
        matches!(result, DrainStep::Quiet),
        "clean bus should return Ok immediately"
    );
}

#[test]
fn drain_stale_data_bus_busy_returns_error() {
    // The bus is never quiet: every read returns data, 10 ms after the last.
    let mut now_us = 0;
    let mut state = Drain::Probing;
    let mut reads = 0;
    let err = loop {
        match drain_stale_data(state, ReadEvent::Data, now_us) {
            DrainStep::Read {
                state: next,
                wait_us,
            } => {
                assert!(wait_us <= 10_000);
                state = next;
                now_us += wait_us;
                reads += 1;
            }
            DrainStep::Quiet => panic!("the bus is not quiet"),
            DrainStep::Failed(e) => break e,
        }
    };
    assert_eq!(reads, 20);
    assert_eq!(now_us, 200_000);
    let detail = err.detail();
    assert!(
        detail.contains("bus busy"),
        "expected 'bus busy', got: {detail}"
    );
    assert!(
        matches!(err, ModbusError::Connection(_)),
        "bus-busy should be a Connection error (retryable), got: {err:?}"
    );
}

#[test]
fn drain_stale_data_connection_closed() {
    match drain_stale_data(Drain::Probing, ReadEvent::Closed, 5) {
        DrainStep::Failed(err) => assert!(
            matches!(err, ModbusError::Connection(_)),
            "expected Connection error, got: {err:?}"
        ),
        _ => panic!("a closed connection fails"),
    }
}

#[test]
fn drain_waits_no_longer_than_the_deadline() {
    let state = Drain::Draining {
        deadline_us: 200_000,
    };
    match drain_stale_data(state, ReadEvent::Data, 197_000) {
        DrainStep::Read { wait_us, .. } => assert_eq!(wait_us, 3_000),
        _ => panic!("there is time left"),
    }
    let failure = ModbusError::timeout("read");
    match drain_stale_data(state, ReadEvent::Failed(failure.clone()), 0) {
        DrainStep::Failed(e) => assert_eq!(e, failure),
        _ => panic!("a failed read fails"),
    }
}

#[test]
fn rebuild_fails_three_consecutive_times() {
    let cfg = ReconnectConfig::new(5, Micros::from_millis(1));
    let (result, sends) = drive(
        Some(cfg),
        LinkKind::Connection,
        &mut || Err(ModbusError::connection("test")),
        &mut || false,
    );
    let err = result.unwrap_err();
    assert!(
        err.detail().contains("3 consecutive times"),
        "expected rebuild failure, got: {}",
        err.detail()
    );
    assert_eq!(sends, 3);
}

#[test]
fn rebuild_counter_resets_on_success() {
    let cfg = ReconnectConfig::new(5, Micros::from_millis(1));
    let mut n = 0;
    let (result, sends) = drive(
        Some(cfg),
        LinkKind::Connection,
        &mut || Err(ModbusError::connection("test")),
        &mut || {
            n += 1;
            n % 2 == 1
        },
    );
    let err = result.unwrap_err();
    assert!(
        err.detail().contains("max_retries"),
        "expected max_retries error (rebuild counter reset), got: {}",
        err.detail()
    );
    assert_eq!(
        err.detail(),
        "CONNECTION ERROR: reconnect max_retries(5) exceeded: CONNECTION ERROR: test"
    );
    assert_eq!(sends, 6);
}

#[test]
fn send_succeeds_after_rebuild() {
    let cfg = ReconnectConfig::new(3, Micros::from_millis(1));
    let mut first = true;
    let (result, sends) = drive(
        Some(cfg),
        LinkKind::Connection,
        &mut || {
            if first {
                first = false;
                Err(ModbusError::connection("test"))
            } else {
                Ok(Response::ReadHoldingRegisters(vec![42]))
            }
        },
        &mut || true,
    );
    assert_eq!(result.unwrap(), Response::ReadHoldingRegisters(vec![42]));
    assert_eq!(sends, 2);
}

#[test]
fn max_retries_zero_rebuild_fails_three_times() {
    let cfg = ReconnectConfig::new(0, Micros::from_millis(1));
    let (result, _) = drive(
        Some(cfg),
        LinkKind::Connection,
        &mut || Err(ModbusError::connection("test")),
        &mut || false,
    );
    let err = result.unwrap_err();
    assert!(
        err.detail().contains("3 consecutive times"),
        "expected rebuild failure guard, got: {}",
        err.detail()
    );
}

#[test]
fn non_retryable_error_returned_immediately() {
    let cfg = ReconnectConfig::new(10, Micros::from_millis(1));
    let (result, sends) = drive(
        Some(cfg),
        LinkKind::Connection,
        &mut || Err(ModbusError::protocol("bad CRC")),
        &mut || true,
    );
    let err = result.unwrap_err();
    assert!(
        matches!(err, ModbusError::Protocol(_)),
        "expected Protocol error, got: {err:?}"
    );
    assert_eq!(sends, 1);
}

#[test]
fn no_reconnect_passthrough() {
    let (result, sends) = drive(
        None,
        LinkKind::Connection,
        &mut || Ok(Response::ReadHoldingRegisters(vec![99])),
        &mut || true,
    );
    assert_eq!(result.unwrap(), Response::ReadHoldingRegisters(vec![99]));
    assert_eq!(sends, 1);
    let (result, sends) = drive(
        None,
        LinkKind::Connection,
        &mut || Err(ModbusError::connection("gone")),
        &mut || true,
    );
    assert_eq!(result.unwrap_err(), ModbusError::connection("gone"));
    assert_eq!(sends, 1);
}

#[test]
fn reading_goes_on_until_enough_is_there() {
    assert!(matches!(
        read_start(0, 8, 100, 1_100),
        ReadStep::Read { wait_us: 1_000 }
    ));
    assert!(matches!(
        read_at_least(ReadEvent::Data, 5, 8, 600, 1_100),
        ReadStep::Read { wait_us: 500 }
    ));
    assert!(matches!(
        read_at_least(ReadEvent::Data, 8, 8, 600, 1_100),
        ReadStep::Ready
    ));
    assert!(matches!(
        read_at_least(ReadEvent::Data, 5, 8, 1_100, 1_100),
        ReadStep::Ready
    ));
}

#[test]
fn bytes_before_silence_are_used() {
    assert!(matches!(
        read_at_least(ReadEvent::Elapsed, 5, 8, 1_100, 1_100),
        ReadStep::Ready
    ));
    assert!(matches!(
        read_at_least(ReadEvent::Closed, 5, 8, 0, 1_100),
        ReadStep::Ready
    ));
    match read_at_least(ReadEvent::Elapsed, 0, 8, 1_100, 1_100) {
        ReadStep::Failed(e) => assert_eq!(e, ModbusError::timeout("recv timed out")),
        _ => panic!("nothing came"),
    }
    match read_at_least(ReadEvent::Closed, 0, 8, 0, 1_100) {
        ReadStep::Failed(e) => assert_eq!(e, ModbusError::connection("connection closed")),
        _ => panic!("nothing came"),
    }
}

#[test]
fn frames_of_every_protocol() {
    let mut buf = BytesMut::new();
    let req = Request::ReadHoldingRegisters(0, 1);
    let rtu = send_frame(&mut buf, 1, &req, &Framing::Rtu).unwrap();
    assert_eq!(&rtu[..], &[0x01, 0x03, 0x00, 0x00, 0x00, 0x01, 0x84, 0x0A]);
    let ascii = send_frame(&mut buf, 1, &req, &Framing::Ascii).unwrap();
    assert_eq!(&ascii[..], b":010300000001FB\r\n");
    let config = TcpConfig {
        tid: TidMode::Auto,
        unit_id_in_body: false,
        length_mode: LengthMode::Standard,
    };
    let tcp = send_frame(&mut buf, 1, &req, &Framing::Tcp(config, 7)).unwrap();
    assert_eq!(&tcp[..], &[0, 7, 0, 0, 0, 6, 1, 3, 0, 0, 0, 1]);
    assert!(buf.is_empty());
}

#[test]
fn a_request_without_wire_form_is_not_framed() {
    let mut buf = BytesMut::new();
    let req = Request::WriteMultipleRegisters(0, vec![0u16; 200].into());
    let err = send_frame(&mut buf, 1, &req, &Framing::Rtu).unwrap_err();
    assert_eq!(
        err,
        ModbusError::protocol(
            "PDU encode: write multiple reg byte count: value 400 exceeds u8 range"
        )
    );
    // The fields before the byte count stay behind.
    assert_eq!(&buf[..], &[1, 16, 0, 0, 0, 200]);
    let req = Request::WriteMultipleRegisters(0, vec![0u16; 124].into());
    let err = send_frame(&mut buf, 1, &req, &Framing::Rtu).unwrap_err();
    assert_eq!(
        err.detail(),
        "PROTOCOL ERROR: PDU encode: PDU size 254 exceeds Modbus limit of 253"
    );
}

#[test]
fn requests_are_answered() {
    let mut store = SlaveStore::with_holding_registers(&[(0, 1234)]);
    let mut buf = BytesMut::new();
    let raw = Bytes::copy_from_slice(&[3, 0, 0, 0, 1]);
    let rsp = process_server_request(&raw, 17, &mut store, &mut buf).unwrap();
    assert_eq!(&rsp[..], &[17, 3, 2, 0x04, 0xD2]);
}

#[test]
fn broadcasts_and_broken_requests_are_not_answered() {
    let mut store = SlaveStore::new();
    let mut buf = BytesMut::new();
    let write = Bytes::copy_from_slice(&[6, 0, 0, 0, 7]);
    assert!(process_server_request(&write, 0, &mut store, &mut buf).is_none());
    assert_eq!(store.read_holding_register(0), 0);
    let empty = Bytes::new();
    assert!(process_server_request(&empty, 1, &mut store, &mut buf).is_none());
    let truncated = Bytes::copy_from_slice(&[6, 0, 0, 0]);
    assert!(process_server_request(&truncated, 1, &mut store, &mut buf).is_none());
    assert!(decode_server_request(&write, 1).is_some());
    assert!(process_server_request(&write, 1, &mut store, &mut buf).is_some());
    assert_eq!(store.read_holding_register(0), 7);
}

#[test]
fn exceptions_are_answered_with_the_flag() {
    let mut store = SlaveStore::new();
    let mut buf = BytesMut::new();
    let raw = Bytes::copy_from_slice(&[8, 0, 1, 0, 0]);
    let rsp = process_server_request(&raw, 5, &mut store, &mut buf).unwrap();
    assert_eq!(&rsp[..], &[5, 0x88, 3]);
    let rsp = encode_server_response(5, 3, Err(Exception::IllegalDataAddress), &mut buf);
    assert_eq!(&rsp.unwrap()[..], &[5, 0x83, 2]);
    let too_long = Ok(Response::ReadHoldingRegisters(vec![0; 126]));
    assert!(encode_server_response(5, 3, too_long, &mut buf).is_none());
    assert_eq!(&buf[..], &[5]);
    assert_eq!(
        store.call(5, Request::Disconnect),
        Err(Exception::IllegalFunction)
    );
}

#[test]
fn without_a_limit_retries_go_on() {
    let cfg = ReconnectConfig::new(0, Micros::from_millis(1));
    let mut left = 1000;
    let (result, sends) = drive(
        Some(cfg),
        LinkKind::Serial,
        &mut || {
            if left == 0 {
                Ok(Response::Diagnostic(0, 1))
            } else {
                left -= 1;
                Err(ModbusError::serial("unplugged"))
            }
        },
        &mut || true,
    );
    assert_eq!(result.unwrap(), Response::Diagnostic(0, 1));
    assert_eq!(sends, 1001);
}

#[test]
fn a_serial_line_gives_up_with_a_serial_error() {
    let cfg = ReconnectConfig::new(0, Micros::from_millis(1));
    let (result, _) = drive(
        Some(cfg),
        LinkKind::Serial,
        &mut || Err(ModbusError::serial("unplugged")),
        &mut || false,
    );
    assert_eq!(
        result.unwrap_err(),
        ModbusError::serial("reconnect: transport rebuild failed 3 consecutive times")
    );
}
