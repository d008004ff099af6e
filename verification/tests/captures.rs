//! Counting, recording and printing of traffic.

use std::sync::{Arc, Mutex};

use oms_modbus::intercept::days_to_ymd;
use oms_modbus::monitor::file_recorder::{format_detail, format_record};
use oms_modbus::monitor::ring_buffer::RingBufferCapture;
use oms_modbus::{
    format_timestamp, BusCapture, PacketCapture, PacketData, PacketRecord, TrafficStats, WireTap,
};

fn times(records: &[PacketRecord]) -> Vec<u64> {
    records.iter().map(|r| r.timestamp_us).collect()
}

#[test]
fn stats_count_and_keep_nothing() {
    let mut cap = BusCapture::stats_only();
    cap.on_write(&[1], 1);
    cap.on_write(&[2], 2);
    cap.on_read(&[3], 3);
    cap.on_error(&[], "x", 4);
    assert_eq!(cap.count_requests(), 2);
    assert_eq!(cap.count_responses(), 1);
    assert_eq!(cap.count_errors(), 1);
    assert_eq!(cap.dropped(), 0);
    assert!(cap.is_empty());
    assert!(cap.drain().is_empty());
    cap.reset_stats();
    assert_eq!(cap.count_requests() + cap.count_responses() + cap.count_errors(), 0);
}

#[test]
fn an_unbounded_capture_keeps_everything() {
    let mut cap = BusCapture::unbounded();
    for i in 0..2000 {
        cap.on_read(&[i as u8], i);
    }
    assert_eq!(cap.len(), 2000);
    assert_eq!(times(&cap.snapshot()), (0..2000).collect::<Vec<u64>>());
    assert_eq!(cap.len(), 2000);
    assert_eq!(cap.drain().len(), 2000);
    assert!(cap.is_empty());
    assert_eq!(cap.count_responses(), 2000);
    assert_eq!(cap.dropped(), 0);
}

#[test]
fn a_bounded_capture_keeps_the_newest() {
    let mut cap = BusCapture::bounded(3);
    for i in 1..=5 {
        cap.on_write(&[i as u8], i);
    }
    assert_eq!(cap.len(), 3);
    assert_eq!(cap.dropped(), 2);
    assert_eq!(times(&cap.snapshot()), vec![3, 4, 5]);
    assert_eq!(times(&cap.drain()), vec![3, 4, 5]);
    assert!(cap.is_empty());
    let mut cap = BusCapture::bounded(0);
    cap.on_write(&[], 1);
    cap.on_write(&[], 2);
    assert_eq!(times(&cap.drain()), vec![2]);
}

#[test]
fn records_hold_what_was_seen() {
    let mut cap = BusCapture::unbounded();
    cap.on_write(&[1, 2], 10);
    cap.on_read(&[3], 20);
    cap.on_error(&[4], "broken", 30);
    let records = cap.drain();
    assert!(matches!(&records[0].data, PacketData::RawTx(b) if b == &[1, 2]));
    assert!(matches!(&records[1].data, PacketData::RawRx(b) if b == &[3]));
    assert!(matches!(&records[2].data, PacketData::RawError(b, e) if b == &[4] && e == "broken"));
}

#[test]
fn a_ring_changes_between_modes() {
    let mut ring = RingBufferCapture::new(2);
    for i in 1..=3 {
        ring.on_read(&[], i);
    }
    assert_eq!(times(&ring.snapshot()), vec![2, 3]);
    assert_eq!(ring.dropped(), 1);
    ring.set_unbounded();
    ring.on_write(&[], 4);
    ring.on_error(&[], "", 5);
    assert_eq!(ring.len(), 4);
    ring.set_bounded();
    ring.on_write(&[], 6);
    assert_eq!(times(&ring.drain()), vec![3, 4, 5, 6]);
    assert!(ring.is_empty());
    assert_eq!(ring.dropped(), 2);
}

#[test]
fn rings_without_a_limit() {
    let mut ring = RingBufferCapture::unbounded();
    for i in 0..20_000 {
        ring.on_read(&[], i);
    }
    assert_eq!(ring.len(), 20_000);
    let mut ring = RingBufferCapture::default();
    for i in 0..10_001 {
        ring.on_read(&[], i);
    }
    assert_eq!(ring.len(), 10_000);
    let mut ring = RingBufferCapture::new(0);
    ring.on_read(&[], 1);
    ring.on_read(&[], 2);
    assert_eq!(times(&ring.drain()), vec![2]);
}

#[test]
fn packet_capture_and_stats() {
    let mut cap = PacketCapture::new();
    assert!(cap.is_empty());
    cap.on_write(&[1], 1);
    cap.on_read(&[2], 2);
    cap.on_error(&[3], "e", 3);
    assert_eq!(cap.len(), 3);
    assert_eq!(times(&cap.drain()), vec![1, 2, 3]);
    assert!(cap.is_empty());
    let mut stats = TrafficStats::new();
    stats.on_write(&[1], 1);
    stats.on_read(&[2], 2);
    stats.on_read(&[2], 2);
    stats.on_error(&[3], "e", 3);
    assert_eq!(stats.count_requests(), 1);
    assert_eq!(stats.count_responses(), 2);
    assert_eq!(stats.count_errors(), 1);
    stats.reset();
    assert_eq!(stats.count_responses(), 0);
}

/// A tap that implements nothing.
struct Deaf;

impl WireTap for Deaf {}

#[test]
fn a_tap_need_not_listen() {
    let mut tap = Deaf;
    tap.on_write(&[1], 1);
    tap.on_read(&[1], 1);
    tap.on_error(&[1], "x", 1);
}

#[test]
fn timestamps_are_dates() {
    assert_eq!(format_timestamp(0), "1970-01-01T00:00:00.000000");
    assert_eq!(
        format_timestamp(951_782_400_000_001),
        "2000-02-29T00:00:00.000001"
    );
    assert_eq!(
        format_timestamp(1_785_940_335_123_456),
        "2026-08-05T14:32:15.123456"
    );
    assert_eq!(
        format_timestamp(253_402_300_799_999_999),
        "9999-12-31T23:59:59.999999"
    );
    // Later times are printed as the end of the year 9999.
    for t in [253_402_300_800_000_000, 2_000_000_000_000_000_000, u64::MAX] {
        assert_eq!(format_timestamp(t), "9999-12-31T23:59:59.999999");
        assert_eq!(format_timestamp(t).len(), 26);
    }
}

#[test]
fn timestamps_sort_as_times_do() {
    let times = [
        0,
        1,
        999_999,
        1_000_000,
        59_999_999,
        60_000_000,
        3_599_999_999,
        3_600_000_000,
        86_399_999_999,
        86_400_000_000,
        951_782_399_999_999,
        951_782_400_000_000,
        951_868_800_000_000,
        1_785_940_335_123_456,
        253_402_300_799_999_999,
    ];
    for pair in times.windows(2) {
        assert!(format_timestamp(pair[0]) < format_timestamp(pair[1]));
    }
}

#[test]
fn shared_counters_count_for_all() {
    let stats = Arc::new(Mutex::new(TrafficStats::new()));
    let other = stats.clone();
    other.lock().unwrap().on_write(&[1], 1);
    stats.lock().unwrap().on_write(&[2], 2);
    stats.lock().unwrap().on_read(&[3], 3);
    assert_eq!(stats.lock().unwrap().count_requests(), 2);
    assert_eq!(other.lock().unwrap().count_requests(), 2);
    assert_eq!(other.lock().unwrap().count_responses(), 1);
    stats.lock().unwrap().reset();
    assert_eq!(other.lock().unwrap().count_requests(), 0);
    other.lock().unwrap().on_error(&[], "e", 4);
    assert_eq!(stats.lock().unwrap().count_errors(), 1);
}

#[test]
fn consecutive_days_are_consecutive_dates() {
    let mut last = days_to_ymd(-800_000);
    for day in -799_999..800_000 {
        let date = days_to_ymd(day);
        let (y, m, d) = last;
        assert!(
            date == (y, m, d + 1) || date == (y, m + 1, 1) || date == (y + 1, 1, 1),
            "{last:?} is followed by {date:?}"
        );
        last = date;
    }
}

#[test]
fn records_are_printed() {
    let tx = PacketRecord {
        timestamp_us: 1_785_940_335_123_456,
        data: PacketData::RawTx(vec![1, 3, 0, 0, 0, 1, 0x84, 0x0A]),
    };
    assert_eq!(
        tx.to_string(),
        "[TX] 2026-08-05T14:32:15.123456    8B  [01 03 00 00 00 01 84 0A]"
    );
    assert_eq!(
        format_record(&tx),
        "2026-08-05T14:32:15.123456  TX    8B  [01 03 00 00 00 01 84 0A]"
    );
    let rx = PacketRecord {
        timestamp_us: 0,
        data: PacketData::RawRx(vec![0xFF; 120]),
    };
    assert!(rx
        .to_string()
        .starts_with("[RX] 1970-01-01T00:00:00.000000  120B  [FF FF"));
    assert_eq!(format_detail(&rx).0, "RX");
    let err = PacketRecord {
        timestamp_us: 0,
        data: PacketData::RawError(vec![], String::from("gone")),
    };
    assert_eq!(
        err.to_string(),
        "[ERR] 1970-01-01T00:00:00.000000    0B  []  — gone"
    );
    assert_eq!(
        format_record(&err),
        "1970-01-01T00:00:00.000000  ERR    0B  []  — gone"
    );
    assert_eq!(err.clone().to_string(), err.to_string());
}
