//! Options that all clients share.

use std::sync::Arc;

use vstd::prelude::*;

use crate::bus_timing;
use crate::bus_timing::BusTiming;
use crate::reconnect::ReconnectConfig;
use crate::time::Micros;

verus! {

/// Options of a client, with a tap of type `T`.
pub struct ClientOptions<T> {
    timeout: Micros,
    tap: Option<T>,
    reconnect: Option<ReconnectConfig>,
    bus_timing: Option<Arc<BusTiming>>,
    data_channel_capacity: Option<usize>,
    tap_channel_capacity: Option<usize>,
}

/// The data of [`ClientOptions`].
pub struct OptionsView<T> {
    pub timeout: Micros,
    pub tap: Option<T>,
    pub reconnect: Option<ReconnectConfig>,
    pub bus_timing: Option<Arc<BusTiming>>,
    pub data_channel_capacity: Option<usize>,
    pub tap_channel_capacity: Option<usize>,
}

impl<T> View for ClientOptions<T> {
    type V = OptionsView<T>;

    closed spec fn view(&self) -> OptionsView<T> {
        OptionsView {
            timeout: self.timeout,
            tap: self.tap,
            reconnect: self.reconnect,
            bus_timing: self.bus_timing,
            data_channel_capacity: self.data_channel_capacity,
            tap_channel_capacity: self.tap_channel_capacity,
        }
    }
}

impl<T> OptionsView<T> {
    /// A timeout of one second, the spacing for 9600 baud, and nothing else.
    pub open spec fn is_default(self) -> bool {
        &&& self.timeout == Micros(1_000_000)
        &&& self.tap is None
        &&& self.reconnect is None
        &&& self.bus_timing is Some
        &&& self.bus_timing->0.spacing_us() == bus_timing::standard_35t_us(9600)
        &&& self.bus_timing->0.last_event() is None
        &&& self.data_channel_capacity is None
        &&& self.tap_channel_capacity is None
    }
}

impl<T> Default for ClientOptions<T> {
    fn default() -> (r: Self)
        ensures
            r@.is_default(),
    {
        ClientOptions {
            timeout: Micros::from_secs(1),
            tap: None,
            reconnect: None,
            bus_timing: Some(Arc::new(BusTiming::rtu_35t(9600))),
            data_channel_capacity: None,
            tap_channel_capacity: None,
        }
    }
}

impl<T: Clone> Clone for ClientOptions<T> {
    /// The same options, with the same spacing and a clone of the tap.
    fn clone(&self) -> (r: Self)
        ensures
            r@.timeout == self@.timeout,
            match (self@.tap, r@.tap) {
                (Some(a), Some(b)) => cloned(a, b),
                (None, None) => true,
                _ => false,
            },
            r@.reconnect == self@.reconnect,
            r@.bus_timing == self@.bus_timing,
            r@.data_channel_capacity == self@.data_channel_capacity,
            r@.tap_channel_capacity == self@.tap_channel_capacity,
    {
        ClientOptions {
            timeout: self.timeout,
            tap: match &self.tap {
                Some(tap) => Some(tap.clone()),
                None => None,
            },
            reconnect: self.reconnect,
            bus_timing: match &self.bus_timing {
                Some(timing) => Some(timing.clone()),
                None => None,
            },
            data_channel_capacity: self.data_channel_capacity,
            tap_channel_capacity: self.tap_channel_capacity,
        }
    }
}

impl<T> ClientOptions<T> {
    /// A timeout of one second, and the spacing for 9600 baud.
    pub fn new() -> (r: Self)
        ensures
            r@.is_default(),
    {
        ClientOptions::default()
    }

    /// How long sending a request, and waiting for its response, may take.
    pub fn timeout(&self) -> (r: Micros)
        ensures
            r == self@.timeout,
    {
        self.timeout
    }

    /// How a lost transport is rebuilt, if it is.
    pub fn reconnect(&self) -> (r: Option<&ReconnectConfig>)
        ensures
            r == match self@.reconnect {
                Some(c) => Some(&c),
                None => None,
            },
    {
        match &self.reconnect {
            Some(c) => Some(c),
            None => None,
        }
    }

    /// The bus timing, if there is one.
    pub fn bus_timing(&self) -> (r: Option<&Arc<BusTiming>>)
        ensures
            r == match self@.bus_timing {
                Some(t) => Some(&t),
                None => None,
            },
    {
        match &self.bus_timing {
            Some(t) => Some(t),
            None => None,
        }
    }

    /// The tap, if there is one.
    pub fn tap(&self) -> (r: Option<&T>)
        ensures
            r == match self@.tap {
                Some(t) => Some(&t),
                None => None,
            },
    {
        match &self.tap {
            Some(t) => Some(t),
            None => None,
        }
    }

    /// How many bytes wait at most between transport and client, if that was
    /// set.
    pub fn data_channel_capacity(&self) -> (r: Option<usize>)
        ensures
            r == self@.data_channel_capacity,
    {
        self.data_channel_capacity
    }

    /// How many bytes wait at most between transport and tap, if that was set.
    pub fn tap_channel_capacity(&self) -> (r: Option<usize>)
        ensures
            r == self@.tap_channel_capacity,
    {
        self.tap_channel_capacity
    }

    /// Set how long sending a request, and waiting for its response, may take.
    pub fn with_timeout(self, timeout: Micros) -> (r: Self)
        ensures
            r@ == (OptionsView { timeout, ..self@ }),
    {
        let mut r = self;
        r.timeout = timeout;
        r
    }

    /// Attach a tap.
    pub fn with_tap(self, tap: T) -> (r: Self)
        ensures
            r@ == (OptionsView { tap: Some(tap), ..self@ }),
    {
        let mut r = self;
        r.tap = Some(tap);
        r
    }

    /// Rebuild a lost transport, at most `max_retries` times for one call; 0
    /// for no limit.
    pub fn with_reconnect(self, max_retries: u32, interval: Micros) -> (r: Self)
        ensures
            r@.reconnect is Some,
            r@.reconnect->0.retries() == max_retries,
            r@.reconnect->0.delay() == interval,
            r@ == (OptionsView { reconnect: r@.reconnect, ..self@ }),
    {
        let mut r = self;
        r.reconnect = Some(ReconnectConfig::new(max_retries, interval));
        r
    }

    /// Keep the given spacing between frames.
    pub fn with_bus_timing(self, timing: BusTiming) -> (r: Self)
        ensures
            r@ == (OptionsView { bus_timing: Some(Arc::new(timing)), ..self@ }),
    {
        let mut r = self;
        r.bus_timing = Some(Arc::new(timing));
        r
    }

    /// Set how many bytes wait at most between transport and client.
    pub fn with_data_channel_capacity(self, bytes: usize) -> (r: Self)
        ensures
            r@ == (OptionsView { data_channel_capacity: Some(bytes), ..self@ }),
    {
        let mut r = self;
        r.data_channel_capacity = Some(bytes);
        r
    }

    /// Set how many bytes wait at most between transport and tap.
    pub fn with_tap_channel_capacity(self, bytes: usize) -> (r: Self)
        ensures
            r@ == (OptionsView { tap_channel_capacity: Some(bytes), ..self@ }),
    {
        let mut r = self;
        r.tap_channel_capacity = Some(bytes);
        r
    }
}

} // verus!
