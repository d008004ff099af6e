//! A ring buffer of records.

use std::collections::VecDeque;

use vstd::prelude::*;

use crate::capture::drain_queue;
use crate::intercept;
use crate::intercept::{error_record, rx_record, tx_record};
use crate::intercept::{PacketRecord, PacketView, RecordView};
use crate::wire_tap::WireTap;

verus! {

/// How many records a ring buffer holds, unless it is set otherwise.
pub const DEFAULT_RING_CAPACITY: usize = 10_000;

/// The data of a [`RingBufferCapture`].
#[verifier::ext_equal]
pub struct RingView {
    /// The records, the oldest first.
    pub records: Seq<RecordView>,
    pub capacity: usize,
    pub unbounded: bool,
    /// How many records had to make room for newer ones.
    pub dropped: u64,
}

impl RingView {
    /// The ring buffer with one more record. Where it is bounded and full, the
    /// oldest makes room.
    pub open spec fn with_record(self, record: RecordView) -> RingView {
        if self.unbounded || self.records.len() < self.capacity {
            RingView { records: self.records.push(record), ..self }
        } else {
            RingView {
                records: intercept::without_oldest(self.records).push(record),
                dropped: intercept::bumped(self.dropped),
                ..self
            }
        }
    }
}

/// Keeps the newest records, or all of them. For counters beside the records
/// see [`BusCapture`](crate::capture::BusCapture).
pub struct RingBufferCapture {
    records: VecDeque<PacketRecord>,
    capacity: usize,
    unbounded: bool,
    dropped: u64,
}

impl View for RingBufferCapture {
    type V = RingView;

    closed spec fn view(&self) -> RingView {
        RingView {
            records: intercept::record_views(self.records@),
            capacity: self.capacity,
            unbounded: self.unbounded,
            dropped: self.dropped,
        }
    }
}

impl RingBufferCapture {
    /// There is room for at least one record.
    pub open spec fn wf(self) -> bool {
        self@.capacity >= 1
    }

    /// A ring buffer for so many records, at least for one.
    pub fn new(capacity: usize) -> (r: Self)
        ensures
            r@ == (RingView {
                records: Seq::empty(),
                capacity: if capacity == 0 {
                    1
                } else {
                    capacity
                },
                unbounded: false,
                dropped: 0,
            }),
            r.wf(),
    {
        let cap: usize = if capacity == 0 {
            1
        } else {
            capacity
        };
        let r = RingBufferCapture {
            records: VecDeque::new(),
            capacity: cap,
            unbounded: false,
            dropped: 0,
        };
        assert(r@.records =~= Seq::empty());
        r
    }

    /// A ring buffer that drops nothing.
    pub fn unbounded() -> (r: Self)
        ensures
            r@ == (RingView {
                records: Seq::empty(),
                capacity: usize::MAX,
                unbounded: true,
                dropped: 0,
            }),
            r.wf(),
    {
        let r = RingBufferCapture {
            records: VecDeque::new(),
            capacity: usize::MAX,
            unbounded: true,
            dropped: 0,
        };
        assert(r@.records =~= Seq::empty());
        r
    }

    /// How many records there are.
    pub fn len(&self) -> (r: usize)
        ensures
            r == self@.records.len(),
    {
        self.records.len()
    }

    /// Whether there are no records.
    pub fn is_empty(&self) -> (r: bool)
        ensures
            r == (self@.records.len() == 0),
    {
        self.records.len() == 0
    }

    /// How many records had to make room for newer ones.
    pub fn dropped(&self) -> (r: u64)
        ensures
            r == self@.dropped,
    {
        self.dropped
    }

    /// Take all records, the oldest first.
    pub fn drain(&mut self) -> (r: Vec<PacketRecord>)
        ensures
            intercept::record_views(r@) == old(self)@.records,
            final(self)@ == (RingView { records: Seq::empty(), ..old(self)@ }),
    {
        let mut queue: VecDeque<PacketRecord> = VecDeque::new();
        std::mem::swap(&mut queue, &mut self.records);
        assert(self@.records =~= Seq::empty());
        drain_queue(queue)
    }

    /// A copy of all records, the oldest first.
    pub fn snapshot(&self) -> (r: Vec<PacketRecord>)
        ensures
            intercept::record_views(r@) == self@.records,
    {
        let mut out: Vec<PacketRecord> = Vec::new();
        let mut i: usize = 0;
        while i < self.records.len()
            invariant
                i <= self@.records.len(),
                intercept::record_views(out@) == self@.records.take(i as int),
            decreases self@.records.len() - i,
        {
            let item = &self.records[i];
            assert(item@ == self@.records[i as int]);
            let ghost before = out@;
            out.push(item.clone());
            assert(intercept::record_views(out@) =~= intercept::record_views(before).push(
                self@.records[i as int],
            ));
            i = i + 1;
            assert(intercept::record_views(out@) =~= self@.records.take(i as int));
        }
        assert(self@.records.take(i as int) =~= self@.records);
        out
    }

    /// Drop nothing from now on.
    pub fn set_unbounded(&mut self)
        ensures
            final(self)@ == (RingView { unbounded: true, ..old(self)@ }),
    {
        self.unbounded = true;
    }

    /// Stop growing. The capacity is the one that the ring buffer was made
    /// with; records beyond it stay.
    pub fn set_bounded(&mut self)
        ensures
            final(self)@ == (RingView { unbounded: false, ..old(self)@ }),
    {
        self.unbounded = false;
    }

    fn record(&mut self, record: PacketRecord)
        ensures
            final(self)@ == old(self)@.with_record(record@),
    {
        if self.unbounded || self.records.len() < self.capacity {
            self.records.push_back(record);
        } else {
            let _ = self.records.pop_front();
            self.records.push_back(record);
            self.dropped = self.dropped.wrapping_add(1);
        }
        assert(self@.records =~= old(self)@.with_record(record@).records);
    }
}

impl Default for RingBufferCapture {
    fn default() -> (r: Self)
        ensures
            r@ == (RingView {
                records: Seq::empty(),
                capacity: DEFAULT_RING_CAPACITY,
                unbounded: false,
                dropped: 0,
            }),
            r.wf(),
    {
        RingBufferCapture::new(DEFAULT_RING_CAPACITY)
    }
}

impl WireTap for RingBufferCapture {
    fn on_write(&mut self, bytes: &[u8], timestamp_us: u64)
        ensures
            final(self)@ == old(self)@.with_record(
                RecordView { timestamp_us, data: PacketView::RawTx(bytes@) },
            ),
    {
        self.record(tx_record(bytes, timestamp_us));
    }

    fn on_read(&mut self, bytes: &[u8], timestamp_us: u64)
        ensures
            final(self)@ == old(self)@.with_record(
                RecordView { timestamp_us, data: PacketView::RawRx(bytes@) },
            ),
    {
        self.record(rx_record(bytes, timestamp_us));
    }

    fn on_error(&mut self, bytes: &[u8], error: &str, timestamp_us: u64)
        ensures
            final(self)@ == old(self)@.with_record(
                RecordView { timestamp_us, data: PacketView::RawError(bytes@, error@) },
            ),
    {
        self.record(error_record(bytes, error, timestamp_us));
    }
}

/// A bounded ring buffer that is within its capacity stays within it, holds the
/// newest record last, and drops the oldest at most.
pub proof fn law_ring_stays_within_capacity(ring: RingView, record: RecordView)
    requires
        !ring.unbounded,
        1 <= ring.capacity,
        ring.records.len() <= ring.capacity,
    ensures
        ({
            let after = ring.with_record(record);
            let all = ring.records.push(record);
            &&& after.records.len() <= ring.capacity
            &&& after.records == if all.len() <= ring.capacity {
                all
            } else {
                all.skip(1)
            }
        }),
{
    let all = ring.records.push(record);
    if all.len() > ring.capacity {
        assert(ring.records.skip(1).push(record) =~= all.skip(1));
    }
}

/// The ring buffer after a number of records, one after the other.
pub open spec fn after_records(ring: RingView, records: Seq<RecordView>) -> RingView
    decreases records.len(),
{
    if records.len() == 0 {
        ring
    } else {
        after_records(ring, records.drop_last()).with_record(records.last())
    }
}

/// A bounded ring buffer that starts empty holds the newest records, in the order
/// in which they came: all of them as long as there is room, and as many as there
/// is room for afterwards. It counts the others as dropped.
pub proof fn law_ring_keeps_the_newest(ring: RingView, records: Seq<RecordView>)
    requires
        ring.records == Seq::<RecordView>::empty(),
        !ring.unbounded,
        1 <= ring.capacity,
        ring.dropped == 0,
    ensures
        after_records(ring, records) == (RingView {
            records: if records.len() <= ring.capacity {
                records
            } else {
                records.skip(records.len() - ring.capacity)
            },
            dropped: if records.len() <= ring.capacity {
                0
            } else {
                ((records.len() - ring.capacity) % 0x1_0000_0000_0000_0000) as u64
            },
            ..ring
        }),
    decreases records.len(),
{
    let after = after_records(ring, records);
    if records.len() > 0 {
        law_ring_keeps_the_newest(ring, records.drop_last());
        if records.len() <= ring.capacity {
            assert(after.records =~= records);
        } else {
            assert(after.records =~= records.skip(records.len() - ring.capacity));
        }
    } else {
        assert(records =~= Seq::empty());
    }
}

/// An unbounded ring buffer that starts empty holds every record, in the order in
/// which they came.
pub proof fn law_unbounded_ring_keeps_everything(ring: RingView, records: Seq<RecordView>)
    requires
        ring.records == Seq::<RecordView>::empty(),
        ring.unbounded,
    ensures
        after_records(ring, records) == (RingView { records, ..ring }),
    decreases records.len(),
{
    if records.len() > 0 {
        law_unbounded_ring_keeps_everything(ring, records.drop_last());
        assert(records.drop_last().push(records.last()) =~= records);
    } else {
        assert(records =~= Seq::empty());
    }
}

} // verus!
