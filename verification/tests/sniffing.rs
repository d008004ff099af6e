//! The queues between a transport that is listened to and its readers.

use bytes::Bytes;
use oms_modbus::transport::sniff_io::{
    cut, fan_out, is_bus_activity, poll_read, Received, SniffChannel, SniffRead, DEFAULT_BUF_SIZE,
    DEFAULT_DATA_CHANNEL_CAPACITY, DEFAULT_TAP_CHANNEL_CAPACITY,
};

type Channel = SniffChannel<&'static str, u8>;

fn bytes(data: &[u8]) -> Bytes {
    Bytes::copy_from_slice(data)
}

fn recv(channel: &mut Channel) -> Option<Vec<u8>> {
    match channel.poll_recv(0) {
        Received::Chunk(b) => Some(b.to_vec()),
        _ => None,
    }
}

#[test]
fn chunks_come_out_in_order() {
    let mut channel = Channel::new(10);
    assert_eq!(channel.send(bytes(&[1])), None);
    channel.send(bytes(&[2, 3]));
    assert_eq!(recv(&mut channel), Some(vec![1]));
    assert_eq!(recv(&mut channel), Some(vec![2, 3]));
    assert_eq!(recv(&mut channel), None);
}

#[test]
fn the_oldest_chunks_make_room() {
    let mut channel = Channel::new(4);
    channel.send(bytes(&[1, 1]));
    channel.send(bytes(&[2]));
    channel.send(bytes(&[3, 3, 3]));
    assert_eq!(channel.dropped_chunks(), 1);
    assert_eq!(channel.dropped_bytes(), 2);
    assert_eq!(recv(&mut channel), Some(vec![2]));
    assert_eq!(recv(&mut channel), Some(vec![3, 3, 3]));
}

#[test]
fn a_chunk_larger_than_the_channel_is_dropped() {
    let mut channel = Channel::new(2);
    channel.send(bytes(&[1]));
    assert!(matches!(channel.poll_recv(9), Received::Chunk(_)));
    assert!(matches!(channel.poll_recv(9), Received::Pending));
    assert_eq!(channel.send(bytes(&[2, 2, 2])), None);
    assert_eq!(channel.dropped_chunks(), 1);
    assert_eq!(channel.dropped_bytes(), 3);
    // Whoever waits is still there to be woken.
    assert_eq!(channel.send(bytes(&[3])), Some(9));
}

#[test]
fn a_smaller_capacity_drops_the_oldest() {
    let mut channel = Channel::new(10);
    for i in 1..=4 {
        channel.send(bytes(&[i, i]));
    }
    channel.set_capacity(5);
    assert_eq!(channel.capacity(), 5);
    assert_eq!(channel.dropped_chunks(), 2);
    assert_eq!(recv(&mut channel), Some(vec![3, 3]));
}

#[test]
fn data_comes_before_errors_and_the_end() {
    let mut channel = Channel::new(10);
    channel.send(bytes(&[1]));
    assert_eq!(channel.send_error("broken"), None);
    assert_eq!(channel.close(), None);
    assert!(channel.is_closed());
    assert!(matches!(channel.poll_recv(0), Received::Chunk(_)));
    assert!(matches!(channel.poll_recv(0), Received::Failed("broken")));
    assert!(matches!(channel.poll_recv(0), Received::Closed));
}

#[test]
fn whoever_waits_is_woken_once() {
    let mut channel = Channel::new(10);
    assert!(matches!(channel.poll_recv(1), Received::Pending));
    assert!(matches!(channel.poll_recv(2), Received::Pending));
    assert_eq!(channel.send(bytes(&[1])), Some(2));
    assert_eq!(channel.send(bytes(&[1])), None);
    let mut channel = Channel::new(10);
    channel.poll_recv(3);
    assert_eq!(channel.send_error("e"), Some(3));
    let mut channel = Channel::new(10);
    channel.poll_recv(4);
    assert_eq!(channel.close(), Some(4));
}

#[test]
fn a_chunk_goes_both_ways() {
    let mut data = Channel::new(10);
    let mut tap = Channel::new(10);
    data.poll_recv(1);
    tap.poll_recv(2);
    let out = fan_out(&mut data, &mut tap, bytes(&[5]));
    assert_eq!((out.wake_data, out.wake_tap, out.stop), (Some(1), Some(2), false));
    assert_eq!(recv(&mut data), Some(vec![5]));
    assert_eq!(recv(&mut tap), Some(vec![5]));
    data.close();
    assert!(fan_out(&mut data, &mut tap, bytes(&[6])).stop);
}

#[test]
fn chunks_are_cut_to_size() {
    let (front, rest) = cut(bytes(&[1, 2, 3]), 2);
    assert_eq!(&front[..], &[1, 2]);
    assert_eq!(&rest.unwrap()[..], &[3]);
    let (front, rest) = cut(bytes(&[1, 2, 3]), 3);
    assert_eq!(&front[..], &[1, 2, 3]);
    assert!(rest.is_none());
}

#[test]
fn reads_take_what_was_left_over_first() {
    let mut channel = Channel::new(100);
    let mut pending = None;
    channel.send(bytes(&[1, 2, 3, 4, 5]));
    channel.send(bytes(&[6]));
    let mut seen = Vec::new();
    for _ in 0..4 {
        match poll_read(&mut channel, &mut pending, 0, false, 2) {
            SniffRead::Data(b) => seen.push(b.to_vec()),
            _ => panic!("there is data"),
        }
    }
    assert_eq!(seen, vec![vec![1, 2], vec![3, 4], vec![5], vec![6]]);
    assert!(matches!(
        poll_read(&mut channel, &mut pending, 0, false, 2),
        SniffRead::Pending
    ));
    assert!(matches!(
        poll_read(&mut channel, &mut pending, 0, true, 2),
        SniffRead::ReaderGone
    ));
    channel.send_error("broken");
    assert!(matches!(
        poll_read(&mut channel, &mut pending, 0, true, 2),
        SniffRead::Failed("broken")
    ));
    channel.close();
    assert!(matches!(
        poll_read(&mut channel, &mut pending, 0, true, 2),
        SniffRead::Closed
    ));
}

#[test]
fn default_sizes() {
    assert_eq!(DEFAULT_DATA_CHANNEL_CAPACITY, 1024 * 1024);
    assert_eq!(DEFAULT_TAP_CHANNEL_CAPACITY, 256 * 1024);
    assert_eq!(DEFAULT_BUF_SIZE, 4096);
}

#[test]
fn a_chunk_that_just_fits_leaves_nothing_over() {
    let mut channel = Channel::new(100);
    let mut pending = None;
    channel.send(bytes(&[1, 2]));
    assert!(matches!(
        poll_read(&mut channel, &mut pending, 0, false, 2),
        SniffRead::Data(b) if b[..] == [1, 2]
    ));
    assert!(pending.is_none());
}

#[test]
fn bytes_that_move_are_bus_activity() {
    assert!(!is_bus_activity(0));
    assert!(is_bus_activity(1));
    assert!(is_bus_activity(usize::MAX));
}
