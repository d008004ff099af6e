//! Bus frame spacing: the silence that must separate two frames.
//!
//! On an RS-485 bus, a frame that follows too fast on another can overrun a
//! slow slave. Serial lines ask for at least 3.5 character times of silence.

use vstd::prelude::*;

use crate::time::Micros;

pub mod laws;

verus! {

/// The silence of 3.5 characters of 11 bits each, in microseconds, rounded
/// down. A baud rate of 0 counts as 1.
pub open spec fn char_35t_us(baud_rate: u32) -> int {
    38_500_000int / (if baud_rate == 0 {
        1int
    } else {
        baud_rate as int
    })
}

/// The silence that serial lines ask for: 3.5 characters up to 19200 baud, and a
/// fixed 1750 microseconds above.
pub open spec fn standard_35t_us(baud_rate: u32) -> int {
    if baud_rate > 19200 {
        1750
    } else {
        char_35t_us(baud_rate)
    }
}

/// Keeps the time of the last bus activity, and how much silence must follow
/// it.
///
/// Times are in microseconds of one clock that never runs backwards.
#[derive(Debug)]
pub struct BusTiming {
    last_event_us: u64,
    min_spacing_us: u64,
}

/// The wait that a timing asks for at the time `now_us`, 0 for none.
pub open spec fn wait_us(timing: BusTiming, now_us: u64) -> int {
    match timing.last_event() {
        None => 0,
        Some(last) => {
            let elapsed = if now_us >= last {
                now_us - last
            } else {
                0
            };
            if elapsed < timing.spacing_us() {
                timing.spacing_us() - elapsed
            } else {
                0
            }
        },
    }
}

impl BusTiming {
    /// When the bus was last active, if it ever was.
    pub closed spec fn last_event(self) -> Option<u64> {
        if self.last_event_us == 0 {
            None
        } else {
            Some(self.last_event_us)
        }
    }

    /// How much silence must follow bus activity.
    pub closed spec fn spacing_us(self) -> u64 {
        self.min_spacing_us
    }

    /// A timing with the given spacing.
    pub fn custom(min_spacing: Micros) -> (r: Self)
        ensures
            r.spacing_us() == min_spacing.0,
            r.last_event() is None,
    {
        BusTiming { last_event_us: 0, min_spacing_us: min_spacing.as_micros() }
    }

    fn char_35t(baud_rate: u32) -> (r: u64)
        ensures
            r == char_35t_us(baud_rate),
    {
        let baud: u64 = if baud_rate == 0 {
            1
        } else {
            baud_rate as u64
        };
        (3_500_000u64 * 11) / baud
    }

    /// The spacing that serial lines ask for at a baud rate.
    ///
    /// Above 19200 baud 3.5 characters are too short for real transceivers, and
    /// the spacing is fixed at 1.75 ms. See
    /// [`rtu_35t_raw`](BusTiming::rtu_35t_raw) for the bare formula.
    pub fn rtu_35t(baud_rate: u32) -> (r: Self)
        ensures
            r.spacing_us() == standard_35t_us(baud_rate),
            r.last_event() is None,
    {
        let min_spacing_us: u64 = if baud_rate > 19200 {
            1750
        } else {
            BusTiming::char_35t(baud_rate)
        };
        BusTiming { last_event_us: 0, min_spacing_us }
    }

    /// 3.5 character times at any baud rate.
    pub fn rtu_35t_raw(baud_rate: u32) -> (r: Self)
        ensures
            r.spacing_us() == char_35t_us(baud_rate),
            r.last_event() is None,
    {
        BusTiming { last_event_us: 0, min_spacing_us: BusTiming::char_35t(baud_rate) }
    }

    /// The spacing for ASCII frames, which is that for RTU frames.
    pub fn ascii_35t(baud_rate: u32) -> (r: Self)
        ensures
            r.spacing_us() == standard_35t_us(baud_rate),
            r.last_event() is None,
    {
        BusTiming::rtu_35t(baud_rate)
    }

    /// Record bus activity at the time `now_us`. Time 0 counts as 1: a timing
    /// that was touched is never mistaken for one that was not.
    #[inline]
    pub fn touch(&mut self, now_us: u64)
        ensures
            final(self).spacing_us() == old(self).spacing_us(),
            final(self).last_event() == Some(
                if now_us == 0 {
                    1
                } else {
                    now_us
                },
            ),
    {
        self.last_event_us = if now_us == 0 {
            1
        } else {
            now_us
        };
    }

    /// How long to wait at the time `now_us` before sending: what is left of
    /// the spacing since the last activity. `None` where nothing is left, or
    /// the bus was never active.
    pub fn wait_if_needed(&self, now_us: u64) -> (r: Option<Micros>)
        ensures
            r == if wait_us(*self, now_us) == 0 {
                None::<Micros>
            } else {
                Some(Micros(wait_us(*self, now_us) as u64))
            },
    {
        let last: u64 = self.last_event_us;
        if last == 0 {
            return None;
        }
        let elapsed: u64 = now_us.saturating_sub(last);
        if elapsed < self.min_spacing_us {
            Some(Micros(self.min_spacing_us - elapsed))
        } else {
            None
        }
    }

    /// When the bus was last active, if it ever was.
    pub fn last_activity(&self) -> (r: Option<u64>)
        ensures
            r == self.last_event(),
    {
        if self.last_event_us == 0 {
            None
        } else {
            Some(self.last_event_us)
        }
    }

    /// How much silence must follow bus activity.
    pub fn min_spacing(&self) -> (r: Micros)
        ensures
            r.0 == self.spacing_us(),
    {
        Micros::from_micros(self.min_spacing_us)
    }
}

/// Whoever waits as long as a timing asks for sends no earlier than the spacing
/// after the last activity, and never waits longer than the spacing.
pub proof fn law_spacing_is_kept(timing: BusTiming, now_us: u64)
    ensures
        0 <= wait_us(timing, now_us) <= timing.spacing_us(),
        match timing.last_event() {
            Some(last) => last <= now_us ==> now_us + wait_us(timing, now_us) >= last
                + timing.spacing_us(),
            None => true,
        },
{
}

/// At every baud rate the standard spacing is at least 1.75 ms.
pub proof fn law_standard_spacing_is_sufficient(baud_rate: u32)
    ensures
        standard_35t_us(baud_rate) >= 1750,
{
    if baud_rate <= 19200 {
        let b = if baud_rate == 0 {
            1int
        } else {
            baud_rate as int
        };
        assert(38_500_000int / b >= 2005) by (nonlinear_arith)
            requires
                1 <= b <= 19200,
        ;
    }
}

} // verus!
