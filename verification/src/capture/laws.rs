//! What a capture counts and keeps.

use vstd::prelude::*;

use super::{CaptureView, Mode};
use crate::intercept::{PacketView, RecordView};
use crate::monitor::ring_buffer::{RingBufferCapture, RingView, DEFAULT_RING_CAPACITY};

verus! {

/// A capture starts with nothing counted and nothing kept.
pub proof fn law_empty_capture(mode: Mode)
    ensures
        ({
            let c = super::empty_capture(mode);
            &&& c.requests == 0
            &&& c.responses == 0
            &&& c.errors == 0
            &&& c.dropped == 0
            &&& c.mode == mode
            &&& c.records.len() == 0
        }),
{
}

/// A record is kept at the new end. In a full bounded capture the oldest makes room for
/// it and is counted as dropped. A capture of counts alone keeps none.
pub proof fn law_record_is_kept(c: CaptureView, record: RecordView)
    ensures
        ({
            let d = c.with_record(record);
            &&& d.requests == c.requests
            &&& d.responses == c.responses
            &&& d.errors == c.errors
            &&& d.mode == c.mode
            &&& match c.mode {
                Mode::StatsOnly => d.records == c.records && d.dropped == c.dropped,
                Mode::Unbounded => d.records == c.records.push(record) && d.dropped == c.dropped,
                Mode::Bounded(cap) => if c.records.len() < cap {
                    d.records == c.records.push(record) && d.dropped == c.dropped
                } else if c.records.len() > 0 {
                    &&& d.records == c.records.skip(1).push(record)
                    &&& d.dropped == (if c.dropped < u64::MAX {
                        c.dropped + 1
                    } else {
                        0
                    })
                } else {
                    &&& d.records == seq![record]
                    &&& d.dropped == (if c.dropped < u64::MAX {
                        c.dropped + 1
                    } else {
                        0
                    })
                },
            }
        }),
{
    if c.records.len() == 0 {
        assert(c.records.push(record) =~= seq![record]);
    }
}

/// A write is counted as a request, a read as a response, an error as an error, each as
/// one, and each is kept with its bytes and its time.
pub proof fn law_traffic_is_counted(
    c: CaptureView,
    bytes: Seq<u8>,
    error: Seq<char>,
    timestamp_us: u64,
)
    ensures
        ({
            let d = c.after_write(bytes, timestamp_us);
            let kept = c.with_record(RecordView { timestamp_us, data: PacketView::RawTx(bytes) });
            &&& d.requests == (if c.requests < u64::MAX {
                c.requests + 1
            } else {
                0
            })
            &&& d.responses == c.responses
            &&& d.errors == c.errors
            &&& d.mode == c.mode
            &&& d.records == kept.records
            &&& d.dropped == kept.dropped
        }),
        ({
            let d = c.after_read(bytes, timestamp_us);
            let kept = c.with_record(RecordView { timestamp_us, data: PacketView::RawRx(bytes) });
            &&& d.responses == (if c.responses < u64::MAX {
                c.responses + 1
            } else {
                0
            })
            &&& d.requests == c.requests
            &&& d.errors == c.errors
            &&& d.mode == c.mode
            &&& d.records == kept.records
            &&& d.dropped == kept.dropped
        }),
        ({
            let d = c.after_error(bytes, error, timestamp_us);
            let kept = c.with_record(
                RecordView { timestamp_us, data: PacketView::RawError(bytes, error) },
            );
            &&& d.errors == (if c.errors < u64::MAX {
                c.errors + 1
            } else {
                0
            })
            &&& d.requests == c.requests
            &&& d.responses == c.responses
            &&& d.mode == c.mode
            &&& d.records == kept.records
            &&& d.dropped == kept.dropped
        }),
{
}

/// What a capture may hold: nothing, anything, or at most its capacity.
pub proof fn law_what_a_mode_allows(c: CaptureView)
    ensures
        c.is_within_mode() == match c.mode {
            Mode::StatsOnly => c.records.len() == 0,
            Mode::Unbounded => true,
            Mode::Bounded(cap) => cap >= 1 && c.records.len() <= cap,
        },
{
}

/// A ring keeps a record at the new end. In a full ring with a bound the oldest makes
/// room for it and is counted as dropped.
pub proof fn law_ring_record(ring: RingBufferCapture, r: RingView, record: RecordView)
    ensures
        DEFAULT_RING_CAPACITY == 10_000,
        ring.wf() == (ring@.capacity >= 1),
        ({
            let s = r.with_record(record);
            &&& s.capacity == r.capacity
            &&& s.unbounded == r.unbounded
            &&& r.unbounded || r.records.len() < r.capacity ==> s.records == r.records.push(record)
                && s.dropped == r.dropped
            &&& !r.unbounded && r.records.len() >= r.capacity ==> {
                &&& r.records.len() > 0 ==> s.records == r.records.skip(1).push(record)
                &&& r.records.len() == 0 ==> s.records == seq![record]
                &&& s.dropped == (if r.dropped < u64::MAX {
                    r.dropped + 1
                } else {
                    0
                })
            }
        }),
{
    if r.records.len() == 0 {
        assert(r.records.push(record) =~= seq![record]);
    }
}

} // verus!
