//! How long the pause between frames is.

use vstd::prelude::*;

use super::BusTiming;
use crate::options::OptionsView;
use crate::wire_tap;
use crate::wire_tap::Timebase;

verus! {

/// The pause of three and a half characters of eleven bits, in whole microseconds
/// rounded down. A rate of zero counts as one.
pub proof fn law_pause_at_a_rate(baud_rate: u32)
    ensures
        ({
            let rate = if baud_rate == 0 {
                1int
            } else {
                baud_rate as int
            };
            let pause = super::char_35t_us(baud_rate);
            &&& pause >= 0
            &&& 2 * pause * rate <= 7 * 11 * 1_000_000 < 2 * (pause + 1) * rate
        }),
{
    let rate = if baud_rate == 0 {
        1int
    } else {
        baud_rate as int
    };
    let pause = super::char_35t_us(baud_rate);
    assert(0 <= pause && pause * rate <= 38_500_000 && 38_500_000 < (pause + 1) * rate)
        by (nonlinear_arith)
        requires
            rate >= 1,
            pause == 38_500_000int / rate,
    ;
    assert(2 * pause * rate == 2 * (pause * rate)) by (nonlinear_arith);
    assert(2 * (pause + 1) * rate == 2 * ((pause + 1) * rate)) by (nonlinear_arith);
}

/// Above 19200 baud the pause is fixed.
pub proof fn law_pause_of_the_standard(baud_rate: u32)
    ensures
        baud_rate > 19200 ==> super::standard_35t_us(baud_rate) == 1750,
        baud_rate <= 19200 ==> super::standard_35t_us(baud_rate) == super::char_35t_us(baud_rate),
{
}

/// A sender waits exactly until the spacing has passed since the last event, and not
/// at all when it has, or when there was no event.
pub proof fn law_wait_is_exact(timing: BusTiming, now_us: u64, last: u64)
    ensures
        timing.last_event() is None ==> super::wait_us(timing, now_us) == 0,
        timing.last_event() == Some(last) && last <= now_us < last + timing.spacing_us()
            ==> now_us + super::wait_us(timing, now_us) == last + timing.spacing_us(),
        timing.last_event() == Some(last) && now_us >= last + timing.spacing_us()
            ==> super::wait_us(timing, now_us) == 0,
        timing.last_event() == Some(last) && now_us < last ==> super::wait_us(timing, now_us)
            == timing.spacing_us(),
{
}

/// Options that nobody changed: a second to answer, no tap, no retries, the spacing of
/// a line at 9600 baud with no event yet, and channels of the usual size.
pub proof fn law_default_options<T>(o: OptionsView<T>)
    requires
        o.is_default(),
    ensures
        o.timeout.0 == 1_000_000,
        o.tap is None,
        o.reconnect is None,
        o.bus_timing is Some,
        o.bus_timing->0.spacing_us() == 4010,
        o.bus_timing->0.last_event() is None,
        o.data_channel_capacity is None,
        o.tap_channel_capacity is None,
{
}

/// Time is counted from the first look at the two clocks: it starts at the system's
/// time and goes on with the steady clock, never behind its start.
pub proof fn law_time_base(
    timebase: Timebase,
    instant_us: u64,
    system_us: u64,
)
    ensures
        wire_tap::timebase_at(Some(timebase), instant_us, system_us) == timebase,
        wire_tap::timebase_at(None, instant_us, system_us).base_us == instant_us,
        wire_tap::timebase_at(None, instant_us, system_us).offset_us == system_us,
        instant_us >= timebase.base_us ==> wire_tap::time_at(timebase, instant_us)
            - timebase.offset_us == instant_us - timebase.base_us,
        instant_us < timebase.base_us ==> wire_tap::time_at(timebase, instant_us)
            == timebase.offset_us,
{
}

} // verus!
