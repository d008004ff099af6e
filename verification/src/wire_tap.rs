//! Passive observation of a transport.
//!
//! A tap sees the bytes that move across the wire and when they moved, like a
//! logic analyser clipped onto the bus. It knows nothing of frames or slaves.

use vstd::prelude::*;

verus! {

/// An observer of a transport. A method that is not implemented does nothing.
///
/// Times are in microseconds since the start of 1970.
pub trait WireTap: Sized {
    /// Bytes were written to the transport.
    fn on_write(&mut self, bytes: &[u8], timestamp_us: u64)
        default_ensures
            *final(self) == *old(self),
    {
    }

    /// Bytes were read from the transport.
    fn on_read(&mut self, bytes: &[u8], timestamp_us: u64)
        default_ensures
            *final(self) == *old(self),
    {
    }

    /// Reading failed, after the given bytes had arrived.
    fn on_error(&mut self, bytes: &[u8], error: &str, timestamp_us: u64)
        default_ensures
            *final(self) == *old(self),
    {
    }
}

/// When the clock was set: a reading of a clock that nobody sets, and the time in
/// microseconds since the start of 1970 at that moment.
#[derive(Debug, Clone, Copy, PartialEq, Eq, Structural)]
pub struct Timebase {
    pub base_us: u64,
    pub offset_us: u64,
}

/// The time base that a reading goes by: the one there is, or else the two clocks
/// as they stand.
pub open spec fn timebase_at(
    timebase: Option<Timebase>,
    instant_us: u64,
    system_us: u64,
) -> Timebase {
    match timebase {
        Some(t) => t,
        None => Timebase { base_us: instant_us, offset_us: system_us },
    }
}

/// The time in microseconds since the start of 1970 at a reading of the clock
/// that nobody sets.
pub open spec fn time_at(timebase: Timebase, instant_us: u64) -> int {
    timebase.offset_us + (if instant_us >= timebase.base_us {
        instant_us - timebase.base_us
    } else {
        0
    })
}

/// The time in microseconds since the start of 1970. `instant_us` is read from a
/// clock that nobody sets, `system_us` is the system time. The first call sets the
/// time base; from then on the system time is not looked at.
#[inline]
pub fn now_micros(timebase: &mut Option<Timebase>, instant_us: u64, system_us: u64) -> (r: u64)
    requires
        time_at(timebase_at(*old(timebase), instant_us, system_us), instant_us) <= u64::MAX,
    ensures
        *final(timebase) == Some(timebase_at(*old(timebase), instant_us, system_us)),
        r == time_at(timebase_at(*old(timebase), instant_us, system_us), instant_us),
{
    let t: Timebase = match *timebase {
        Some(t) => t,
        None => Timebase { base_us: instant_us, offset_us: system_us },
    };
    *timebase = Some(t);
    t.offset_us + instant_us.saturating_sub(t.base_us)
}

/// Of two times, the one that is asked for later is no earlier, and they lie apart
/// what elapsed on the clock that nobody sets, whatever the system time was set to
/// in between.
pub proof fn law_time_never_runs_backwards(
    timebase: Option<Timebase>,
    instant1_us: u64,
    system1_us: u64,
    instant2_us: u64,
    system2_us: u64,
)
    requires
        instant1_us <= instant2_us,
        timebase matches Some(t) ==> t.base_us <= instant1_us,
    ensures
        ({
            let first = timebase_at(timebase, instant1_us, system1_us);
            let second = timebase_at(Some(first), instant2_us, system2_us);
            let t1 = time_at(first, instant1_us);
            let t2 = time_at(second, instant2_us);
            t1 <= t2 && t2 - t1 == instant2_us - instant1_us
        }),
{
}

} // verus!
