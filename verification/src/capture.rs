//! Recording and counting of traffic.
//!
//! A [`BusCapture`] counts what a tap sees, and keeps no record of it, or every
//! record, or the newest ones.

use std::collections::VecDeque;

use vstd::prelude::*;

use crate::intercept;
use crate::intercept::{error_record, rx_record, tx_record};
use crate::intercept::{PacketRecord, PacketView, RecordView};
use crate::wire_tap::WireTap;

pub mod laws;

verus! {

/// Which records are kept.
pub enum Mode {
    /// None.
    StatsOnly,
    /// All.
    Unbounded,
    /// The newest ones, at most as many.
    Bounded(usize),
}

/// The data of a [`BusCapture`].
#[verifier::ext_equal]
pub struct CaptureView {
    pub requests: u64,
    pub responses: u64,
    pub errors: u64,
    /// How many records had to make room for newer ones.
    pub dropped: u64,
    pub mode: Mode,
    /// The records that are kept, the oldest first.
    pub records: Seq<RecordView>,
}

impl CaptureView {
    /// The capture with one more record.
    pub open spec fn with_record(self, record: RecordView) -> CaptureView {
        match self.mode {
            Mode::StatsOnly => self,
            Mode::Unbounded => CaptureView { records: self.records.push(record), ..self },
            Mode::Bounded(cap) => if self.records.len() < cap {
                CaptureView { records: self.records.push(record), ..self }
            } else {
                CaptureView {
                    records: intercept::without_oldest(self.records).push(record),
                    dropped: intercept::bumped(self.dropped),
                    ..self
                }
            },
        }
    }

    /// The capture after a write.
    pub open spec fn after_write(self, bytes: Seq<u8>, timestamp_us: u64) -> CaptureView {
        (CaptureView { requests: intercept::bumped(self.requests), ..self }).with_record(
            RecordView { timestamp_us, data: PacketView::RawTx(bytes) },
        )
    }

    /// The capture after a read.
    pub open spec fn after_read(self, bytes: Seq<u8>, timestamp_us: u64) -> CaptureView {
        (CaptureView { responses: intercept::bumped(self.responses), ..self }).with_record(
            RecordView { timestamp_us, data: PacketView::RawRx(bytes) },
        )
    }

    /// The capture after a failed read.
    pub open spec fn after_error(
        self,
        bytes: Seq<u8>,
        error: Seq<char>,
        timestamp_us: u64,
    ) -> CaptureView {
        (CaptureView { errors: intercept::bumped(self.errors), ..self }).with_record(
            RecordView { timestamp_us, data: PacketView::RawError(bytes, error) },
        )
    }

    /// No more records are kept than the mode says, and room is for at least
    /// one.
    pub open spec fn is_within_mode(self) -> bool {
        match self.mode {
            Mode::StatsOnly => self.records.len() == 0,
            Mode::Unbounded => true,
            Mode::Bounded(cap) => 1 <= cap && self.records.len() <= cap,
        }
    }
}

enum Store {
    StatsOnly,
    Unbounded(Vec<PacketRecord>),
    Bounded { buf: VecDeque<PacketRecord>, cap: usize },
}

/// Counts and records what a tap sees.
pub struct BusCapture {
    requests: u64,
    responses: u64,
    errors: u64,
    dropped: u64,
    store: Store,
}

impl View for BusCapture {
    type V = CaptureView;

    closed spec fn view(&self) -> CaptureView {
        CaptureView {
            requests: self.requests,
            responses: self.responses,
            errors: self.errors,
            dropped: self.dropped,
            mode: match self.store {
                Store::StatsOnly => Mode::StatsOnly,
                Store::Unbounded(_) => Mode::Unbounded,
                Store::Bounded { cap, .. } => Mode::Bounded(cap),
            },
            records: match self.store {
                Store::StatsOnly => Seq::empty(),
                Store::Unbounded(v) => intercept::record_views(v@),
                Store::Bounded { buf, .. } => intercept::record_views(buf@),
            },
        }
    }
}

/// An empty capture of the given mode.
pub open spec fn empty_capture(mode: Mode) -> CaptureView {
    CaptureView {
        requests: 0,
        responses: 0,
        errors: 0,
        dropped: 0,
        mode,
        records: Seq::empty(),
    }
}

impl BusCapture {
    /// Whether the capture keeps to its mode.
    pub open spec fn wf(self) -> bool {
        self@.is_within_mode()
    }

    fn with_store(store: Store) -> (r: Self)
        ensures
            r.store == store,
            r.requests == 0,
            r.responses == 0,
            r.errors == 0,
            r.dropped == 0,
    {
        BusCapture { requests: 0, responses: 0, errors: 0, dropped: 0, store }
    }

    /// Count, and keep no records.
    pub fn stats_only() -> (r: Self)
        ensures
            r@ == empty_capture(Mode::StatsOnly),
            r.wf(),
    {
        BusCapture::with_store(Store::StatsOnly)
    }

    /// Count, and keep every record.
    pub fn unbounded() -> (r: Self)
        ensures
            r@ == empty_capture(Mode::Unbounded),
            r.wf(),
    {
        let r = BusCapture::with_store(Store::Unbounded(Vec::new()));
        assert(r@.records =~= Seq::empty());
        r
    }

    /// Count, and keep the newest records. There is always room for one.
    pub fn bounded(capacity: usize) -> (r: Self)
        ensures
            r@ == empty_capture(
                Mode::Bounded(
                    if capacity == 0 {
                        1
                    } else {
                        capacity
                    },
                ),
            ),
            r.wf(),
    {
        let cap: usize = if capacity == 0 {
            1
        } else {
            capacity
        };
        let r = BusCapture::with_store(Store::Bounded { buf: VecDeque::new(), cap });
        assert(r@.records =~= Seq::empty());
        r
    }

    /// How many writes were seen.
    pub fn count_requests(&self) -> (r: u64)
        ensures
            r == self@.requests,
    {
        self.requests
    }

    /// How many reads were seen.
    pub fn count_responses(&self) -> (r: u64)
        ensures
            r == self@.responses,
    {
        self.responses
    }

    /// How many failed reads were seen.
    pub fn count_errors(&self) -> (r: u64)
        ensures
            r == self@.errors,
    {
        self.errors
    }

    /// How many records had to make room for newer ones.
    pub fn dropped(&self) -> (r: u64)
        ensures
            r == self@.dropped,
    {
        self.dropped
    }

    /// Set all counters to zero. The records stay.
    pub fn reset_stats(&mut self)
        ensures
            final(self)@ == (CaptureView {
                requests: 0,
                responses: 0,
                errors: 0,
                dropped: 0,
                ..old(self)@
            }),
            old(self).wf() ==> final(self).wf(),
    {
        self.requests = 0;
        self.responses = 0;
        self.errors = 0;
        self.dropped = 0;
    }

    /// How many records are kept.
    pub fn len(&self) -> (r: usize)
        ensures
            r == self@.records.len(),
    {
        match &self.store {
            Store::StatsOnly => 0,
            Store::Unbounded(v) => v.len(),
            Store::Bounded { buf, .. } => buf.len(),
        }
    }

    /// Whether no records are kept.
    pub fn is_empty(&self) -> (r: bool)
        ensures
            r == (self@.records.len() == 0),
    {
        self.len() == 0
    }

    /// Take all records, the oldest first. The counters stay.
    pub fn drain(&mut self) -> (r: Vec<PacketRecord>)
        ensures
            intercept::record_views(r@) == old(self)@.records,
            final(self)@ == (CaptureView { records: Seq::empty(), ..old(self)@ }),
            old(self).wf() ==> final(self).wf(),
    {
        let mut out: Vec<PacketRecord> = Vec::new();
        match &mut self.store {
            Store::StatsOnly => {},
            Store::Unbounded(v) => {
                std::mem::swap(&mut out, v);
            },
            Store::Bounded { buf, .. } => {
                let mut old_buf: VecDeque<PacketRecord> = VecDeque::new();
                std::mem::swap(&mut old_buf, buf);
                out = drain_queue(old_buf);
            },
        }
        assert(self@.records =~= Seq::empty());
        assert(intercept::record_views(out@) =~= old(self)@.records);
        out
    }

    /// A copy of all records, the oldest first.
    pub fn snapshot(&self) -> (r: Vec<PacketRecord>)
        ensures
            intercept::record_views(r@) == self@.records,
    {
        let mut out: Vec<PacketRecord> = Vec::new();
        let n: usize = self.len();
        let mut i: usize = 0;
        while i < n
            invariant
                i <= n,
                n == self@.records.len(),
                intercept::record_views(out@) == self@.records.take(i as int),
            decreases n - i,
        {
            let item = match &self.store {
                Store::StatsOnly => return out,
                Store::Unbounded(v) => &v[i],
                Store::Bounded { buf, .. } => &buf[i],
            };
            assert(item@ == self@.records[i as int]);
            let ghost before = out@;
            out.push(item.clone());
            assert(intercept::record_views(out@) =~= intercept::record_views(before).push(
                self@.records[i as int],
            ));
            i = i + 1;
            assert(intercept::record_views(out@) =~= self@.records.take(i as int));
        }
        assert(self@.records.take(i as int) =~= self@.records);
        out
    }

    fn record(&mut self, record: PacketRecord)
        ensures
            final(self)@ == old(self)@.with_record(record@),
            old(self).wf() ==> final(self).wf(),
    {
        match &mut self.store {
            Store::StatsOnly => {},
            Store::Unbounded(v) => v.push(record),
            Store::Bounded { buf, cap } => {
                if buf.len() < *cap {
                    buf.push_back(record);
                } else {
                    let _ = buf.pop_front();
                    buf.push_back(record);
                    self.dropped = self.dropped.wrapping_add(1);
                }
            },
        }
        assert(self@.records =~= old(self)@.with_record(record@).records);
    }
}

/// The items of a queue, the oldest first.
pub(crate) fn drain_queue(queue: VecDeque<PacketRecord>) -> (r: Vec<PacketRecord>)
    ensures
        r@ == queue@,
{
    let ghost all = queue@;
    let mut queue = queue;
    let mut out: Vec<PacketRecord> = Vec::new();
    while queue.len() > 0
        invariant
            out@ + queue@ == all,
        decreases queue@.len(),
    {
        let ghost before = out@ + queue@;
        if let Some(record) = queue.pop_front() {
            out.push(record);
            assert(out@ + queue@ =~= before);
        }
    }
    assert(out@ =~= all);
    out
}

impl WireTap for BusCapture {
    fn on_write(&mut self, bytes: &[u8], timestamp_us: u64)
        ensures
            final(self)@ == old(self)@.after_write(bytes@, timestamp_us),
            old(self).wf() ==> final(self).wf(),
    {
        self.requests = self.requests.wrapping_add(1);
        self.record(tx_record(bytes, timestamp_us));
    }

    fn on_read(&mut self, bytes: &[u8], timestamp_us: u64)
        ensures
            final(self)@ == old(self)@.after_read(bytes@, timestamp_us),
            old(self).wf() ==> final(self).wf(),
    {
        self.responses = self.responses.wrapping_add(1);
        self.record(rx_record(bytes, timestamp_us));
    }

    fn on_error(&mut self, bytes: &[u8], error: &str, timestamp_us: u64)
        ensures
            final(self)@ == old(self)@.after_error(bytes@, error@, timestamp_us),
            old(self).wf() ==> final(self).wf(),
    {
        self.errors = self.errors.wrapping_add(1);
        self.record(error_record(bytes, error, timestamp_us));
    }
}

/// The capture after a number of records, one after the other.
pub open spec fn after_records(capture: CaptureView, records: Seq<RecordView>) -> CaptureView
    decreases records.len(),
{
    if records.len() == 0 {
        capture
    } else {
        after_records(capture, records.drop_last()).with_record(records.last())
    }
}

/// A bounded capture holds the newest records, in the order in which they came:
/// all of them as long as there is room, and as many as there is room for
/// afterwards.
pub proof fn law_newest_records_are_kept(cap: usize, records: Seq<RecordView>)
    requires
        cap >= 1,
    ensures
        ({
            let after = after_records(empty_capture(Mode::Bounded(cap)), records);
            &&& after.is_within_mode()
            &&& after.records == if records.len() <= cap {
                records
            } else {
                records.skip(records.len() - cap)
            }
            &&& after.dropped == if records.len() <= cap {
                0
            } else {
                (records.len() - cap) % 0x1_0000_0000_0000_0000
            }
        }),
    decreases records.len(),
{
    let start = empty_capture(Mode::Bounded(cap));
    lemma_mode_stays(start, records);
    if records.len() > 0 {
        let rest = records.drop_last();
        law_newest_records_are_kept(cap, rest);
        lemma_mode_stays(start, rest);
        let before = after_records(start, rest);
        let after = after_records(start, records);
        if records.len() <= cap {
            assert(after.records =~= records);
        } else {
            assert(after.records =~= records.skip(records.len() - cap));
        }
    } else {
        assert(records =~= Seq::empty());
    }
}

proof fn lemma_mode_stays(capture: CaptureView, records: Seq<RecordView>)
    ensures
        after_records(capture, records).mode == capture.mode,
    decreases records.len(),
{
    if records.len() > 0 {
        lemma_mode_stays(capture, records.drop_last());
    }
}

/// An unbounded capture holds every record, in the order in which they came.
pub proof fn law_every_record_is_kept(records: Seq<RecordView>)
    ensures
        after_records(empty_capture(Mode::Unbounded), records).records == records,
        after_records(empty_capture(Mode::Unbounded), records).dropped == 0,
    decreases records.len(),
{
    let start = empty_capture(Mode::Unbounded);
    if records.len() > 0 {
        law_every_record_is_kept(records.drop_last());
        lemma_mode_stays(start, records.drop_last());
        assert(records.drop_last().push(records.last()) =~= records);
    } else {
        assert(records =~= Seq::empty());
    }
}

} // verus!
