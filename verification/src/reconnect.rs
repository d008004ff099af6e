//! When a client that lost its transport tries again.

use vstd::prelude::*;

use crate::error::{ErrorView, ModbusError};
use crate::time::Micros;

verus! {

/// How often, and how far apart, a lost transport is rebuilt.
#[derive(Debug, Clone, Copy)]
pub struct ReconnectConfig {
    max_retries: u32,
    interval: Micros,
}

impl ReconnectConfig {
    /// The most retries, 0 for no limit.
    pub closed spec fn retries(self) -> u32 {
        self.max_retries
    }

    /// The delay before each retry.
    pub closed spec fn delay(self) -> Micros {
        self.interval
    }

    /// At most `max_retries` retries, `interval` apart; 0 for no limit.
    pub fn new(max_retries: u32, interval: Micros) -> (r: Self)
        ensures
            r.retries() == max_retries,
            r.delay() == interval,
    {
        ReconnectConfig { max_retries, interval }
    }

    /// The most retries, 0 for no limit.
    pub fn max_retries(&self) -> (r: u32)
        ensures
            r == self.retries(),
    {
        self.max_retries
    }

    /// The delay before each retry. It does not grow: industrial systems want
    /// predictable timing.
    pub fn interval(&self) -> (r: Micros)
        ensures
            r == self.delay(),
    {
        self.interval
    }
}

impl ErrorView {
    /// A failure of the transport, which a new connection may cure. Timeouts,
    /// broken frames and exceptions are not: trying again would not help.
    pub open spec fn is_retryable(self) -> bool {
        self is Connection || self is Serial
    }
}

/// Whether an error is a failure of the transport, which a new connection may
/// cure.
#[inline]
pub fn is_retryable(e: &ModbusError) -> (r: bool)
    ensures
        r == e@.is_retryable(),
{
    matches!(e, ModbusError::Connection(_) | ModbusError::Serial(_))
}

} // verus!
