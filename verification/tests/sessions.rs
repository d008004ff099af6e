//! The receiving side of a server.

use bytes::{Bytes, BytesMut};
use oms_modbus::codec::{encode_ascii_frame, encode_rtu_frame};
use oms_modbus::tcp::{encode_tcp_frame, is_tcp_header_corrupt, LengthMode, TcpConfig, TidMode};
use oms_modbus::transport::exchange::Protocol;
use oms_modbus::transport::session::Session;
use oms_modbus::Micros;

const TIMEOUT: Micros = Micros(5_000);

fn rtu(data: &[u8]) -> Vec<u8> {
    let mut buf = BytesMut::new();
    encode_rtu_frame(data, &mut buf);
    buf.to_vec()
}

fn tcp(data: &[u8], config: &TcpConfig, tid: u16) -> Vec<u8> {
    let mut buf = BytesMut::new();
    encode_tcp_frame(data, &mut buf, config, tid);
    buf.to_vec()
}

#[test]
fn rtu_frames_may_arrive_in_pieces() {
    let mut session = Session::new(Protocol::Rtu);
    assert_eq!(session.read_wait(TIMEOUT), None);
    let frame = rtu(&[1, 3, 0, 0, 0, 1]);
    session.on_data(&frame[..4]);
    assert!(session.next_request().is_none());
    assert_eq!(session.read_wait(TIMEOUT), Some(TIMEOUT));
    session.on_data(&frame[4..]);
    let incoming = session.next_request().unwrap();
    assert_eq!(incoming.slave_id, 1);
    assert_eq!(incoming.tid, 0);
    assert_eq!(&incoming.pdu[..], &[3, 0, 0, 0, 1]);
    assert!(session.next_request().is_none());
    assert_eq!(session.read_wait(TIMEOUT), None);
}

#[test]
fn silence_drops_what_is_no_frame() {
    let mut session = Session::new(Protocol::Rtu);
    session.on_data(&[1, 3, 0]);
    session.on_silence();
    assert_eq!(session.read_wait(TIMEOUT), None);
    session.on_data(&rtu(&[1, 3, 0, 0, 0, 1]));
    session.on_silence();
    assert!(session.next_request().is_some());

    let mut session = Session::new(Protocol::Ascii);
    session.on_data(b":0103");
    assert_eq!(session.read_wait(TIMEOUT), Some(TIMEOUT));
    session.on_silence();
    assert_eq!(session.read_wait(TIMEOUT), None);
}

#[test]
fn ascii_frames_follow_each_other() {
    let mut session = Session::new(Protocol::Ascii);
    let mut stream = b"garbage\r\n".to_vec();
    stream.extend_from_slice(&encode_ascii_frame(&[1, 3, 0, 0, 0, 1]));
    stream.extend_from_slice(&encode_ascii_frame(&[2, 6, 0, 0, 0, 1]));
    session.on_data(&stream);
    assert_eq!(session.next_request().unwrap().slave_id, 1);
    assert_eq!(session.next_request().unwrap().slave_id, 2);
    assert!(session.next_request().is_none());
}

#[test]
fn tcp_frames_follow_each_other() {
    let config = TcpConfig::standard();
    let mut session = Session::new(Protocol::Tcp(config));
    let mut stream = tcp(&[1, 3, 0, 0, 0, 1], &TcpConfig::gateway(), 7);
    stream.push(0);
    session.on_data(&stream);
    let incoming = session.next_request().unwrap();
    assert_eq!((incoming.tid, incoming.slave_id), (7, 1));
    assert_eq!(&incoming.pdu[..], &[3, 0, 0, 0, 1, 0]);
    let frame = tcp(&[17, 3, 0, 0, 0, 1], &config, 8);
    session.on_data(&frame);
    let incoming = session.next_request().unwrap();
    assert_eq!((incoming.tid, incoming.slave_id), (8, 17));
    assert_eq!(&incoming.pdu[..], &[3, 0, 0, 0, 1]);
    assert_eq!(session.read_wait(TIMEOUT), None);
}

#[test]
fn a_corrupt_tcp_stream_is_dropped() {
    let config = TcpConfig::standard();
    let mut session = Session::new(Protocol::Tcp(config));
    session.on_data(&[0, 1, 0xBE, 0xEF, 0, 6, 1, 3]);
    assert!(session.next_request().is_none());
    session.on_data(&tcp(&[17, 3, 0, 0, 0, 1], &config, 8));
    assert_eq!(session.next_request().unwrap().tid, 8);
}

#[test]
fn corrupt_headers() {
    assert!(!is_tcp_header_corrupt(&[0, 0, 1, 0, 0, 6]));
    assert!(is_tcp_header_corrupt(&[0, 0, 1, 0, 0, 6, 1]));
    assert!(!is_tcp_header_corrupt(&[0, 0, 0, 0, 0, 6, 1]));
    assert!(is_tcp_header_corrupt(&[0, 0, 0, 0, 0, 0, 1]));
    assert!(!is_tcp_header_corrupt(&[0, 0, 0, 0, 1, 4, 1]));
    assert!(is_tcp_header_corrupt(&[0, 0, 0, 0, 1, 5, 1]));
}

#[test]
fn tcp_frames_with_every_length_field() {
    let standard = TcpConfig {
        tid: TidMode::Fixed(0),
        unit_id_in_body: false,
        length_mode: LengthMode::Standard,
    };
    let data = [5u8, 6, 0, 1, 0, 2];
    assert_eq!(
        tcp(&data, &standard, 0x0102),
        vec![1, 2, 0, 0, 0, 6, 5, 6, 0, 1, 0, 2]
    );
    let pdu_only = TcpConfig {
        length_mode: LengthMode::PduOnly,
        ..standard
    };
    assert_eq!(
        tcp(&data, &pdu_only, 0),
        vec![0, 0, 0, 0, 0, 5, 5, 6, 0, 1, 0, 2]
    );
    let in_body = TcpConfig {
        unit_id_in_body: true,
        ..standard
    };
    assert_eq!(
        tcp(&data, &in_body, 0),
        vec![0, 0, 0, 0, 0, 7, 5, 5, 6, 0, 1, 0, 2]
    );
    // Without data the unit identifier is 1.
    assert_eq!(tcp(&[], &standard, 0), vec![0, 0, 0, 0, 0, 1, 1]);
}

#[test]
fn replies_are_framed() {
    let answer = Bytes::copy_from_slice(&[1, 3, 2, 0, 7]);
    let frame = Session::new(Protocol::Rtu).reply_frame(&answer, 9);
    assert_eq!(&frame[..], &rtu(&[1, 3, 2, 0, 7])[..]);
    let frame = Session::new(Protocol::Ascii).reply_frame(&answer, 9);
    assert_eq!(&frame[..], b":0103020007F3\r\n");
    let frame = Session::new(Protocol::Tcp(TcpConfig::standard())).reply_frame(&answer, 9);
    assert_eq!(&frame[..], &[0, 9, 0, 0, 0, 5, 1, 3, 2, 0, 7]);
}

#[test]
fn a_session_keeps_as_much_as_memory_holds() {
    let mut session = Session::new(Protocol::Rtu);
    assert!(session.has_room(isize::MAX as usize));
    session.on_data(&[1]);
    assert!(!session.has_room(isize::MAX as usize));
    assert!(session.has_room(isize::MAX as usize - 1));
    assert!(!session.has_room(usize::MAX));
}
