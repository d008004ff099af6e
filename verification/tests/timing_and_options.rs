//! Bus timing, spans of time, and the options of clients and servers.

use std::sync::Arc;

use oms_modbus::ascii::AsciiServer;
use oms_modbus::rtu::RtuServer;
use oms_modbus::{now_micros, BusTiming, ClientOptions, Micros, ReconnectConfig, Timebase};

#[test]
fn spacing_at_baud_rates() {
    for (baud, us) in [
        (9600, 4010),
        (19200, 2005),
        (19201, 1750),
        (38400, 1750),
        (115200, 1750),
        (921600, 1750),
        (1, 38_500_000),
        (0, 38_500_000),
    ] {
        assert_eq!(BusTiming::rtu_35t(baud).min_spacing().as_micros(), us);
        assert_eq!(BusTiming::ascii_35t(baud).min_spacing().as_micros(), us);
    }
    assert_eq!(BusTiming::rtu_35t_raw(115200).min_spacing().as_micros(), 334);
    assert_eq!(
        BusTiming::rtu_35t_raw(0).min_spacing(),
        Micros::from_micros(38_500_000)
    );
    assert_eq!(
        BusTiming::custom(Micros::from_millis(50)).min_spacing(),
        Micros::from_micros(50_000)
    );
}

#[test]
fn a_bus_that_was_never_active_needs_no_wait() {
    let timing = BusTiming::custom(Micros::from_millis(100));
    assert_eq!(timing.wait_if_needed(0), None);
    assert_eq!(timing.wait_if_needed(5), None);
}

#[test]
fn what_is_left_of_the_spacing_is_waited_for() {
    let mut timing = BusTiming::custom(Micros::from_micros(1000));
    timing.touch(5_000);
    assert_eq!(timing.wait_if_needed(5_000), Some(Micros(1000)));
    assert_eq!(timing.wait_if_needed(5_400), Some(Micros(600)));
    assert_eq!(timing.wait_if_needed(6_000), None);
    assert_eq!(timing.wait_if_needed(9_000), None);
    // A clock that lags behind counts as no time at all.
    assert_eq!(timing.wait_if_needed(4_000), Some(Micros(1000)));
    timing.touch(0);
    assert_eq!(timing.wait_if_needed(1), Some(Micros(1000)));
}

#[test]
fn default_options() {
    let opts: ClientOptions<u8> = ClientOptions::new();
    assert_eq!(opts.timeout(), Micros::from_secs(1));
    assert!(opts.tap().is_none());
    assert!(opts.reconnect().is_none());
    assert_eq!(
        opts.bus_timing().unwrap().min_spacing(),
        Micros::from_micros(4010)
    );
    assert_eq!(opts.data_channel_capacity(), None);
    assert_eq!(opts.tap_channel_capacity(), None);
}

#[test]
fn options_are_set_one_by_one() {
    let opts = ClientOptions::default()
        .with_timeout(Micros::from_millis(20))
        .with_tap(7u8)
        .with_reconnect(3, Micros::from_millis(100))
        .with_bus_timing(BusTiming::custom(Micros(9)))
        .with_data_channel_capacity(11)
        .with_tap_channel_capacity(12);
    for opts in [opts.clone(), opts] {
        assert_eq!(opts.timeout(), Micros(20_000));
        assert_eq!(opts.tap(), Some(&7));
        let reconnect = opts.reconnect().unwrap();
        assert_eq!(reconnect.max_retries(), 3);
        assert_eq!(reconnect.interval(), Micros(100_000));
        assert_eq!(opts.bus_timing().unwrap().min_spacing(), Micros(9));
        assert_eq!(opts.data_channel_capacity(), Some(11));
        assert_eq!(opts.tap_channel_capacity(), Some(12));
    }
}

#[test]
fn reconnect_config_keeps_what_it_is_given() {
    let config = ReconnectConfig::new(0, Micros(1));
    assert_eq!(config.max_retries(), 0);
    assert_eq!(config.interval(), Micros(1));
}

#[test]
fn server_read_timeouts() {
    let timing = Arc::new(BusTiming::rtu_35t(19200));
    assert_eq!(RtuServer::new(()).read_timeout(), Micros(5_000));
    assert_eq!(AsciiServer::new(()).read_timeout(), Micros(100_000));
    assert_eq!(
        RtuServer::new(()).with_bus_timing(timing.clone()).read_timeout(),
        Micros(2005)
    );
    assert_eq!(
        AsciiServer::new(()).with_bus_timing(timing.clone()).read_timeout(),
        Micros(2005)
    );
    let server = RtuServer::new("line")
        .with_read_timeout(Micros(3))
        .with_bus_timing(timing);
    assert_eq!(server.read_timeout(), Micros(3));
    let (line, timing) = server.into_parts();
    assert_eq!(line, "line");
    assert!(timing.is_some());
    let (line, timing) = AsciiServer::new(1).with_read_timeout(Micros(4)).into_parts();
    assert_eq!(line, 1);
    assert!(timing.is_none());
}

#[test]
fn the_system_clock_is_read_once() {
    let mut timebase = None;
    assert_eq!(now_micros(&mut timebase, 50, 1_000), 1_000);
    assert_eq!(
        timebase,
        Some(Timebase {
            base_us: 50,
            offset_us: 1_000
        })
    );
    // The system clock is set back, and then forward.
    assert_eq!(now_micros(&mut timebase, 284, 3), 1_234);
    assert_eq!(now_micros(&mut timebase, 285, 9_999_999), 1_235);
    // A clock that lags behind counts as no time at all.
    assert_eq!(now_micros(&mut timebase, 49, 0), 1_000);
}

#[test]
fn the_last_activity_is_known() {
    let mut timing = BusTiming::custom(Micros(9));
    assert_eq!(timing.last_activity(), None);
    timing.touch(0);
    assert_eq!(timing.last_activity(), Some(1));
    timing.touch(70);
    assert_eq!(timing.last_activity(), Some(70));
}
