//! Captured traffic: raw bytes with timestamps, and how they are printed.

use vstd::prelude::*;

use crate::text;
use crate::wire_tap::WireTap;

pub mod calendar;
pub mod laws;

pub use calendar::days_to_ymd;

verus! {

// ── Counters ────────────────────────────────────────────────────────────

/// A 64-bit event counter, counted up by one.
pub open spec fn bumped(counter: u64) -> u64 {
    ((counter + 1) % 0x1_0000_0000_0000_0000) as u64
}

/// Counts what a tap sees: writes as requests, reads as responses, and failed
/// reads as errors.
///
/// A value counts for itself and cannot be copied. Where several parties count
/// together, or one counts and another reads, they share one value behind an
/// `Arc<Mutex<..>>`: each event is then seen by all of them, and a reset too.
#[derive(Debug)]
pub struct TrafficStats {
    requests: u64,
    responses: u64,
    errors: u64,
}

/// The data of a [`TrafficStats`].
pub struct StatsView {
    pub requests: u64,
    pub responses: u64,
    pub errors: u64,
}

impl View for TrafficStats {
    type V = StatsView;

    closed spec fn view(&self) -> StatsView {
        StatsView { requests: self.requests, responses: self.responses, errors: self.errors }
    }
}

impl Default for TrafficStats {
    fn default() -> (r: Self)
        ensures
            r@ == StatsView::zero(),
    {
        TrafficStats { requests: 0, responses: 0, errors: 0 }
    }
}

impl TrafficStats {
    /// Counters at zero.
    pub fn new() -> (r: Self)
        ensures
            r@ == StatsView::zero(),
    {
        TrafficStats::default()
    }

    /// How many writes were seen.
    pub fn count_requests(&self) -> (r: u64)
        ensures
            r == self@.requests,
    {
        self.requests
    }

    /// How many reads were seen.
    pub fn count_responses(&self) -> (r: u64)
        ensures
            r == self@.responses,
    {
        self.responses
    }

    /// How many failed reads were seen.
    pub fn count_errors(&self) -> (r: u64)
        ensures
            r == self@.errors,
    {
        self.errors
    }

    /// Set the counters to zero.
    pub fn reset(&mut self)
        ensures
            final(self)@ == StatsView::zero(),
    {
        self.requests = 0;
        self.responses = 0;
        self.errors = 0;
    }
}

impl WireTap for TrafficStats {
    fn on_write(&mut self, bytes: &[u8], timestamp_us: u64)
        ensures
            final(self)@ == old(self)@.after(TapEvent::Write),
    {
        self.requests = self.requests.wrapping_add(1);
    }

    fn on_read(&mut self, bytes: &[u8], timestamp_us: u64)
        ensures
            final(self)@ == old(self)@.after(TapEvent::Read),
    {
        self.responses = self.responses.wrapping_add(1);
    }

    fn on_error(&mut self, bytes: &[u8], error: &str, timestamp_us: u64)
        ensures
            final(self)@ == old(self)@.after(TapEvent::Error),
    {
        self.errors = self.errors.wrapping_add(1);
    }
}

/// Something that a tap sees.
pub enum TapEvent {
    Write,
    Read,
    Error,
}

impl StatsView {
    /// The counters after an event.
    pub open spec fn after(self, event: TapEvent) -> StatsView {
        match event {
            TapEvent::Write => StatsView { requests: bumped(self.requests), ..self },
            TapEvent::Read => StatsView { responses: bumped(self.responses), ..self },
            TapEvent::Error => StatsView { errors: bumped(self.errors), ..self },
        }
    }

    /// The counters after a number of events, one after the other.
    pub open spec fn after_all(self, events: Seq<TapEvent>) -> StatsView
        decreases events.len(),
    {
        if events.len() == 0 {
            self
        } else {
            self.after_all(events.drop_last()).after(events.last())
        }
    }
}

/// How many of some events are of a sort.
pub open spec fn count_of(events: Seq<TapEvent>, sort: TapEvent) -> nat
    decreases events.len(),
{
    if events.len() == 0 {
        0
    } else {
        count_of(events.drop_last(), sort) + (if events.last() == sort {
            1nat
        } else {
            0
        })
    }
}

/// From zero on, each counter holds the number of its own events, modulo 2^64, and
/// is changed by no others.
pub proof fn law_events_are_counted(events: Seq<TapEvent>)
    ensures
        ({
            let after = StatsView::zero().after_all(events);
            &&& after.requests == count_of(events, TapEvent::Write) % 0x1_0000_0000_0000_0000
            &&& after.responses == count_of(events, TapEvent::Read) % 0x1_0000_0000_0000_0000
            &&& after.errors == count_of(events, TapEvent::Error) % 0x1_0000_0000_0000_0000
        }),
    decreases events.len(),
{
    if events.len() > 0 {
        law_events_are_counted(events.drop_last());
    }
}

/// Something that is done with counters.
pub enum StatsOp {
    /// A tap sees something.
    See(TapEvent),
    /// The counters are set to zero.
    Reset,
}

impl StatsView {
    /// Counters at zero.
    pub open spec fn zero() -> StatsView {
        StatsView { requests: 0, responses: 0, errors: 0 }
    }

    /// The counters after a number of operations, one after the other.
    pub open spec fn after_ops(self, ops: Seq<StatsOp>) -> StatsView
        decreases ops.len(),
    {
        if ops.len() == 0 {
            self
        } else {
            match ops.last() {
                StatsOp::See(event) => self.after_ops(ops.drop_last()).after(event),
                StatsOp::Reset => StatsView::zero(),
            }
        }
    }
}

/// What was seen since the last reset.
pub open spec fn since_reset(ops: Seq<StatsOp>) -> Seq<TapEvent>
    decreases ops.len(),
{
    if ops.len() == 0 {
        Seq::empty()
    } else {
        match ops.last() {
            StatsOp::See(event) => since_reset(ops.drop_last()).push(event),
            StatsOp::Reset => Seq::empty(),
        }
    }
}

/// Counters count what was seen since they were made or last reset, whoever of those
/// that share them saw it or reset them.
pub proof fn law_counting_starts_again_at_a_reset(ops: Seq<StatsOp>)
    ensures
        ({
            let after = StatsView::zero().after_ops(ops);
            let seen = since_reset(ops);
            &&& after.requests == count_of(seen, TapEvent::Write) % 0x1_0000_0000_0000_0000
            &&& after.responses == count_of(seen, TapEvent::Read) % 0x1_0000_0000_0000_0000
            &&& after.errors == count_of(seen, TapEvent::Error) % 0x1_0000_0000_0000_0000
        }),
{
    lemma_ops_since_reset(ops);
    law_events_are_counted(since_reset(ops));
}

proof fn lemma_ops_since_reset(ops: Seq<StatsOp>)
    ensures
        StatsView::zero().after_ops(ops) == StatsView::zero().after_all(since_reset(ops)),
    decreases ops.len(),
{
    if ops.len() > 0 {
        lemma_ops_since_reset(ops.drop_last());
        if let StatsOp::See(event) = ops.last() {
            let seen = since_reset(ops.drop_last());
            assert(seen.push(event).drop_last() =~= seen);
        }
    }
}

// ── Records ─────────────────────────────────────────────────────────────

/// Bytes that moved across the wire.
#[derive(Debug)]
#[non_exhaustive]
pub enum PacketData {
    /// Bytes that were written.
    RawTx(Vec<u8>),
    /// Bytes that were read.
    RawRx(Vec<u8>),
    /// Bytes that arrived before reading failed, and how it failed.
    RawError(Vec<u8>, String),
}

/// One event on the wire and when it happened.
#[derive(Debug)]
pub struct PacketRecord {
    pub timestamp_us: u64,
    pub data: PacketData,
}

/// The data of a [`PacketData`].
#[verifier::ext_equal]
pub enum PacketView {
    RawTx(Seq<u8>),
    RawRx(Seq<u8>),
    RawError(Seq<u8>, Seq<char>),
}

/// The data of a [`PacketRecord`].
#[verifier::ext_equal]
pub struct RecordView {
    pub timestamp_us: u64,
    pub data: PacketView,
}

impl View for PacketData {
    type V = PacketView;

    open spec fn view(&self) -> PacketView {
        match *self {
            PacketData::RawTx(b) => PacketView::RawTx(b@),
            PacketData::RawRx(b) => PacketView::RawRx(b@),
            PacketData::RawError(b, e) => PacketView::RawError(b@, e@),
        }
    }
}

impl View for PacketRecord {
    type V = RecordView;

    open spec fn view(&self) -> RecordView {
        RecordView { timestamp_us: self.timestamp_us, data: self.data@ }
    }
}

/// The data of some records.
pub open spec fn record_views(records: Seq<PacketRecord>) -> Seq<RecordView> {
    Seq::new(records.len(), |i: int| records[i]@)
}

/// Records with the oldest one dropped.
pub open spec fn without_oldest(records: Seq<RecordView>) -> Seq<RecordView> {
    if records.len() == 0 {
        records
    } else {
        records.skip(1)
    }
}

impl Clone for PacketData {
    fn clone(&self) -> (r: Self)
        ensures
            r@ == self@,
    {
        match self {
            PacketData::RawTx(b) => PacketData::RawTx(b.clone()),
            PacketData::RawRx(b) => PacketData::RawRx(b.clone()),
            PacketData::RawError(b, e) => PacketData::RawError(b.clone(), e.clone()),
        }
    }
}

impl Clone for PacketRecord {
    fn clone(&self) -> (r: Self)
        ensures
            r@ == self@,
    {
        PacketRecord { timestamp_us: self.timestamp_us, data: self.data.clone() }
    }
}

/// The record of bytes that were written.
pub fn tx_record(bytes: &[u8], timestamp_us: u64) -> (r: PacketRecord)
    ensures
        r@ == (RecordView { timestamp_us, data: PacketView::RawTx(bytes@) }),
{
    PacketRecord { timestamp_us, data: PacketData::RawTx(vstd::slice::slice_to_vec(bytes)) }
}

/// The record of bytes that were read.
pub fn rx_record(bytes: &[u8], timestamp_us: u64) -> (r: PacketRecord)
    ensures
        r@ == (RecordView { timestamp_us, data: PacketView::RawRx(bytes@) }),
{
    PacketRecord { timestamp_us, data: PacketData::RawRx(vstd::slice::slice_to_vec(bytes)) }
}

/// The record of a failed read.
pub fn error_record(bytes: &[u8], error: &str, timestamp_us: u64) -> (r: PacketRecord)
    ensures
        r@ == (RecordView { timestamp_us, data: PacketView::RawError(bytes@, error@) }),
{
    PacketRecord {
        timestamp_us,
        data: PacketData::RawError(vstd::slice::slice_to_vec(bytes), error.to_owned()),
    }
}

// ── Text ────────────────────────────────────────────────────────────────

/// The last time that has a year of four digits: the end of the year 9999.
pub const LAST_TIMESTAMP_US: u64 = 253_402_300_799_999_999;

/// Date and time of day, as `YYYY-MM-DDTHH:MM:SS.uuuuuu`.
pub open spec fn stamp(
    year: nat,
    month: nat,
    day: nat,
    hour: nat,
    min: nat,
    sec: nat,
    us: nat,
) -> Seq<char> {
    text::padded('0', year, 4) + "-"@ + text::padded('0', month, 2) + "-"@ + text::padded(
        '0',
        day,
        2,
    ) + "T"@ + text::padded('0', hour, 2) + ":"@ + text::padded('0', min, 2) + ":"@ + text::padded(
        '0',
        sec,
        2,
    ) + "."@ + text::padded('0', us, 6)
}

/// A time in microseconds since the start of 1970, as date and time of day.
pub open spec fn date_time_text(timestamp_us: u64) -> Seq<char> {
    let secs = timestamp_us as int / 1_000_000;
    let (y, m, d) = calendar::date_of(secs / 86_400);
    stamp(
        y as nat,
        m as nat,
        d as nat,
        (secs % 86_400 / 3600) as nat,
        (secs % 86_400 % 3600 / 60) as nat,
        (secs % 60) as nat,
        (timestamp_us % 1_000_000) as nat,
    )
}

/// How a time is printed: as date and time of day, and a time after the year 9999
/// as the last moment of that year.
pub open spec fn timestamp_text(timestamp_us: u64) -> Seq<char> {
    date_time_text(
        if timestamp_us <= LAST_TIMESTAMP_US {
            timestamp_us
        } else {
            LAST_TIMESTAMP_US
        },
    )
}

fn push_zero_padded(out: &mut String, n: u128, width: u128)
    ensures
        final(out)@ == old(out)@ + text::padded('0', n as nat, width as nat),
{
    proof {
        reveal_strlit("0");
    }
    text::push_padded(out, "0", n, width);
}

/// A time in microseconds since the start of 1970, as date and time of day:
/// `YYYY-MM-DDTHH:MM:SS.uuuuuu`, which is 26 characters. A time after the year 9999
/// is printed as the last moment of that year.
pub fn format_timestamp(timestamp_us: u64) -> (s: String)
    ensures
        s@ == timestamp_text(timestamp_us),
        s@.len() == 26,
{
    let ts: u64 = if timestamp_us <= LAST_TIMESTAMP_US {
        timestamp_us
    } else {
        LAST_TIMESTAMP_US
    };
    let secs: u64 = ts / 1_000_000;
    let us: u64 = ts % 1_000_000;
    let days: i64 = (secs / 86_400) as i64;
    let time_of_day: u64 = secs % 86_400;
    let hour: u64 = time_of_day / 3600;
    let min: u64 = (time_of_day % 3600) / 60;
    let sec: u64 = time_of_day % 60;
    let (y, m, d) = days_to_ymd(days);
    proof {
        calendar::law_date_round_trip(y as int, m as int, d as int);
        calendar::lemma_year_is_positive(y as int, m as int, d as int);
        assert(time_of_day % 60 == secs % 60);
        law_timestamp_length(timestamp_us);
    }
    let mut s = String::new();
    push_zero_padded(&mut s, y as u128, 4);
    s.append("-");
    push_zero_padded(&mut s, m as u128, 2);
    s.append("-");
    push_zero_padded(&mut s, d as u128, 2);
    s.append("T");
    push_zero_padded(&mut s, hour as u128, 2);
    s.append(":");
    push_zero_padded(&mut s, min as u128, 2);
    s.append(":");
    push_zero_padded(&mut s, sec as u128, 2);
    s.append(".");
    push_zero_padded(&mut s, us as u128, 6);
    assert(s@ =~= timestamp_text(timestamp_us));
    s
}

/// The date of a time up to the year 9999.
proof fn lemma_date_of_time(timestamp_us: u64)
    requires
        timestamp_us <= LAST_TIMESTAMP_US,
    ensures
        ({
            let z = timestamp_us as int / 1_000_000 / 86_400;
            let (y, m, d) = calendar::date_of(z);
            &&& calendar::is_date(y, m, d)
            &&& calendar::day_number(y, m, d) == z
            &&& 1970 <= y <= 9999
        }),
{
    let z = timestamp_us as int / 1_000_000 / 86_400;
    let (y, m, d) = calendar::date_of(z);
    calendar::lemma_date_exists(z);
    calendar::lemma_year_is_positive(y, m, d);
    calendar::lemma_year_is_at_most(y, m, d, 9999);
}

/// Every timestamp is printed as 26 characters.
pub proof fn law_timestamp_length(timestamp_us: u64)
    ensures
        timestamp_text(timestamp_us).len() == 26,
{
    let ts = if timestamp_us <= LAST_TIMESTAMP_US {
        timestamp_us
    } else {
        LAST_TIMESTAMP_US
    };
    let secs = ts as int / 1_000_000;
    let (y, m, d) = calendar::date_of(secs / 86_400);
    lemma_date_of_time(ts);
    text::lemma_powers_of_ten();
    text::lemma_padded_width(y as nat, 4);
    text::lemma_padded_width(m as nat, 2);
    text::lemma_padded_width(d as nat, 2);
    text::lemma_padded_width((secs % 86_400 / 3600) as nat, 2);
    text::lemma_padded_width((secs % 86_400 % 3600 / 60) as nat, 2);
    text::lemma_padded_width((secs % 60) as nat, 2);
    text::lemma_padded_width((ts % 1_000_000) as nat, 6);
    reveal_strlit("-");
    reveal_strlit("T");
    reveal_strlit(":");
    reveal_strlit(".");
}

/// One more field of a timestamp: what is sorted stays sorted, and what is equal
/// so far is sorted by the field.
proof fn lemma_field_sorts(
    a: Seq<char>,
    b: Seq<char>,
    separator: Seq<char>,
    x: nat,
    y: nat,
    width: nat,
)
    requires
        text::sorts_before(a, b) || (a == b && x <= y),
        width >= 1,
        x < text::power_of_ten(width),
        y < text::power_of_ten(width),
    ensures
        ({
            let c = a + separator + text::padded('0', x, width);
            let d = b + separator + text::padded('0', y, width);
            text::sorts_before(c, d) || (c == d && a == b && x == y)
        }),
{
    let px = text::padded('0', x, width);
    let py = text::padded('0', y, width);
    text::lemma_padded_width(x, width);
    text::lemma_padded_width(y, width);
    if text::sorts_before(a, b) {
        text::lemma_append_sorts(a, b, separator, separator);
        text::lemma_append_sorts(a + separator, b + separator, px, py);
    } else if x < y {
        text::lemma_padded_sorts(x, y, width);
        text::lemma_prefix_sorts(a + separator, px, py);
    }
}

/// Stamps sort by their fields, the first field first.
proof fn lemma_stamps_sort(
    y1: nat,
    m1: nat,
    d1: nat,
    h1: nat,
    n1: nat,
    c1: nat,
    u1: nat,
    y2: nat,
    m2: nat,
    d2: nat,
    h2: nat,
    n2: nat,
    c2: nat,
    u2: nat,
)
    requires
        y1 < 10_000 && y2 < 10_000,
        m1 < 100 && m2 < 100,
        d1 < 100 && d2 < 100,
        h1 < 100 && h2 < 100,
        n1 < 100 && n2 < 100,
        c1 < 100 && c2 < 100,
        u1 < 1_000_000 && u2 < 1_000_000,
        y1 <= y2,
        y1 == y2 ==> m1 <= m2,
        y1 == y2 && m1 == m2 ==> d1 <= d2,
        y1 == y2 && m1 == m2 && d1 == d2 ==> h1 <= h2,
        y1 == y2 && m1 == m2 && d1 == d2 && h1 == h2 ==> n1 <= n2,
        y1 == y2 && m1 == m2 && d1 == d2 && h1 == h2 && n1 == n2 ==> c1 <= c2,
        y1 == y2 && m1 == m2 && d1 == d2 && h1 == h2 && n1 == n2 && c1 == c2 ==> u1 < u2,
    ensures
        text::sorts_before(stamp(y1, m1, d1, h1, n1, c1, u1), stamp(y2, m2, d2, h2, n2, c2, u2)),
{
    text::lemma_powers_of_ten();
    let empty = Seq::<char>::empty();
    let a1 = text::padded('0', y1, 4);
    let a2 = text::padded('0', y2, 4);
    lemma_field_sorts(empty, empty, empty, y1, y2, 4);
    assert(empty + empty + a1 =~= a1);
    assert(empty + empty + a2 =~= a2);
    let b1 = a1 + "-"@ + text::padded('0', m1, 2);
    let b2 = a2 + "-"@ + text::padded('0', m2, 2);
    lemma_field_sorts(a1, a2, "-"@, m1, m2, 2);
    let e1 = b1 + "-"@ + text::padded('0', d1, 2);
    let e2 = b2 + "-"@ + text::padded('0', d2, 2);
    lemma_field_sorts(b1, b2, "-"@, d1, d2, 2);
    let f1 = e1 + "T"@ + text::padded('0', h1, 2);
    let f2 = e2 + "T"@ + text::padded('0', h2, 2);
    lemma_field_sorts(e1, e2, "T"@, h1, h2, 2);
    let g1 = f1 + ":"@ + text::padded('0', n1, 2);
    let g2 = f2 + ":"@ + text::padded('0', n2, 2);
    lemma_field_sorts(f1, f2, ":"@, n1, n2, 2);
    let i1 = g1 + ":"@ + text::padded('0', c1, 2);
    let i2 = g2 + ":"@ + text::padded('0', c2, 2);
    lemma_field_sorts(g1, g2, ":"@, c1, c2, 2);
    lemma_field_sorts(i1, i2, "."@, u1, u2, 6);
}

/// Seconds come in the order of days, hours, minutes and seconds of the minute.
proof fn lemma_seconds_split(s1: int, s2: int)
    requires
        0 <= s1 <= s2,
    ensures
        s1 / 86_400 <= s2 / 86_400,
        s1 / 86_400 == s2 / 86_400 ==> s1 % 86_400 / 3600 <= s2 % 86_400 / 3600,
        s1 / 86_400 == s2 / 86_400 && s1 % 86_400 / 3600 == s2 % 86_400 / 3600 ==> s1 % 86_400
            % 3600 / 60 <= s2 % 86_400 % 3600 / 60,
        s1 / 86_400 == s2 / 86_400 && s1 % 86_400 / 3600 == s2 % 86_400 / 3600 && s1 % 86_400 % 3600
            / 60 == s2 % 86_400 % 3600 / 60 ==> s2 % 60 - s1 % 60 == s2 - s1,
{
}

/// Up to the year 9999, timestamps sort as the times do that they stand for.
pub proof fn law_timestamps_sort(t1: u64, t2: u64)
    requires
        t1 < t2 <= LAST_TIMESTAMP_US,
    ensures
        text::sorts_before(timestamp_text(t1), timestamp_text(t2)),
{
    let s1 = t1 as int / 1_000_000;
    let s2 = t2 as int / 1_000_000;
    let (y1, m1, d1) = calendar::date_of(s1 / 86_400);
    let (y2, m2, d2) = calendar::date_of(s2 / 86_400);
    lemma_date_of_time(t1);
    lemma_date_of_time(t2);
    lemma_seconds_split(s1, s2);
    calendar::law_dates_ascend(y1, m1, d1, y2, m2, d2);
    lemma_stamps_sort(
        y1 as nat,
        m1 as nat,
        d1 as nat,
        (s1 % 86_400 / 3600) as nat,
        (s1 % 86_400 % 3600 / 60) as nat,
        (s1 % 60) as nat,
        (t1 % 1_000_000) as nat,
        y2 as nat,
        m2 as nat,
        d2 as nat,
        (s2 % 86_400 / 3600) as nat,
        (s2 % 86_400 % 3600 / 60) as nat,
        (s2 % 60) as nat,
        (t2 % 1_000_000) as nat,
    );
}

/// The length of a packet and its bytes.
pub open spec fn dump_text(bytes: Seq<u8>) -> Seq<char> {
    text::padded(' ', bytes.len(), 3) + "B  ["@ + text::spaced_hex(bytes) + "]"@
}

/// Append the length of a packet and its bytes.
pub(crate) fn push_dump(out: &mut String, bytes: &[u8])
    ensures
        final(out)@ == old(out)@ + dump_text(bytes@),
{
    proof {
        reveal_strlit(" ");
    }
    text::push_padded(out, " ", bytes.len() as u128, 3);
    out.append("B  [");
    text::push_spaced_hex(out, bytes);
    out.append("]");
    assert(out@ =~= old(out)@ + dump_text(bytes@));
}

impl RecordView {
    /// The record on one line.
    pub open spec fn line(self) -> Seq<char> {
        let ts = timestamp_text(self.timestamp_us);
        match self.data {
            PacketView::RawTx(b) => "[TX] "@ + ts + "  "@ + dump_text(b),
            PacketView::RawRx(b) => "[RX] "@ + ts + "  "@ + dump_text(b),
            PacketView::RawError(b, e) => "[ERR] "@ + ts + "  "@ + dump_text(b) + "  — "@ + e,
        }
    }
}

impl PacketRecord {
    /// The record on one line: direction, time, length and bytes.
    pub fn to_string(&self) -> (s: String)
        ensures
            s@ == self@.line(),
    {
        let ts = format_timestamp(self.timestamp_us);
        let mut s = String::new();
        match &self.data {
            PacketData::RawTx(bytes) => {
                s.append("[TX] ");
                s.append(ts.as_str());
                s.append("  ");
                push_dump(&mut s, bytes.as_slice());
            },
            PacketData::RawRx(bytes) => {
                s.append("[RX] ");
                s.append(ts.as_str());
                s.append("  ");
                push_dump(&mut s, bytes.as_slice());
            },
            PacketData::RawError(bytes, err) => {
                s.append("[ERR] ");
                s.append(ts.as_str());
                s.append("  ");
                push_dump(&mut s, bytes.as_slice());
                s.append("  — ");
                s.append(err.as_str());
            },
        }
        assert(s@ =~= self@.line());
        s
    }
}

// ── Capture ─────────────────────────────────────────────────────────────

/// Keeps a record of everything that a tap sees.
pub struct PacketCapture {
    records: Vec<PacketRecord>,
}

impl View for PacketCapture {
    type V = Seq<RecordView>;

    /// The records, the oldest first.
    closed spec fn view(&self) -> Seq<RecordView> {
        record_views(self.records@)
    }
}

impl Default for PacketCapture {
    fn default() -> (r: Self)
        ensures
            r@ == Seq::<RecordView>::empty(),
    {
        let r = PacketCapture { records: Vec::new() };
        assert(r@ =~= Seq::<RecordView>::empty());
        r
    }
}

impl PacketCapture {
    /// A capture without records.
    pub fn new() -> (r: Self)
        ensures
            r@ == Seq::<RecordView>::empty(),
    {
        PacketCapture::default()
    }

    /// Take all records, the oldest first.
    pub fn drain(&mut self) -> (r: Vec<PacketRecord>)
        ensures
            record_views(r@) == old(self)@,
            final(self)@ == Seq::<RecordView>::empty(),
    {
        let mut out: Vec<PacketRecord> = Vec::new();
        std::mem::swap(&mut out, &mut self.records);
        assert(self@ =~= Seq::<RecordView>::empty());
        out
    }

    /// How many records there are.
    pub fn len(&self) -> (r: usize)
        ensures
            r == self@.len(),
    {
        self.records.len()
    }

    /// Whether there are no records.
    pub fn is_empty(&self) -> (r: bool)
        ensures
            r == (self@.len() == 0),
    {
        self.records.len() == 0
    }

    fn record(&mut self, record: PacketRecord)
        ensures
            final(self)@ == old(self)@.push(record@),
    {
        self.records.push(record);
        assert(self@ =~= old(self)@.push(record@));
    }
}

impl WireTap for PacketCapture {
    fn on_write(&mut self, bytes: &[u8], timestamp_us: u64)
        ensures
            final(self)@ == old(self)@.push(
                RecordView { timestamp_us, data: PacketView::RawTx(bytes@) },
            ),
    {
        self.record(tx_record(bytes, timestamp_us));
    }

    fn on_read(&mut self, bytes: &[u8], timestamp_us: u64)
        ensures
            final(self)@ == old(self)@.push(
                RecordView { timestamp_us, data: PacketView::RawRx(bytes@) },
            ),
    {
        self.record(rx_record(bytes, timestamp_us));
    }

    fn on_error(&mut self, bytes: &[u8], error: &str, timestamp_us: u64)
        ensures
            final(self)@ == old(self)@.push(
                RecordView { timestamp_us, data: PacketView::RawError(bytes@, error@) },
            ),
    {
        self.record(error_record(bytes, error, timestamp_us));
    }
}

} // verus!
