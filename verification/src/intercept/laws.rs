//! What records hold and how they are printed.

use vstd::prelude::*;

use super::calendar;
use super::{PacketData, PacketRecord, PacketView, RecordView, StatsView, TapEvent};
use super::LAST_TIMESTAMP_US;
use crate::text;

verus! {

// ── Counting ────────────────────────────────────────────────────────────

/// Each event counts one more in its own counter, which starts again at zero behind
/// its largest value, and leaves the other two.
pub proof fn law_one_event(s: StatsView)
    ensures
        StatsView::zero().requests == 0,
        StatsView::zero().responses == 0,
        StatsView::zero().errors == 0,
        s.after(TapEvent::Write).requests == (if s.requests < u64::MAX {
            s.requests + 1
        } else {
            0
        }),
        s.after(TapEvent::Write).responses == s.responses,
        s.after(TapEvent::Write).errors == s.errors,
        s.after(TapEvent::Read).requests == s.requests,
        s.after(TapEvent::Read).responses == (if s.responses < u64::MAX {
            s.responses + 1
        } else {
            0
        }),
        s.after(TapEvent::Read).errors == s.errors,
        s.after(TapEvent::Error).requests == s.requests,
        s.after(TapEvent::Error).responses == s.responses,
        s.after(TapEvent::Error).errors == (if s.errors < u64::MAX {
            s.errors + 1
        } else {
            0
        }),
{
}

/// A counter grows by one, and starts again at zero behind its largest value.
pub proof fn law_counter(counter: u64)
    ensures
        counter < u64::MAX ==> super::bumped(counter) == counter + 1,
        super::bumped(u64::MAX) == 0,
{
}

// ── Records ─────────────────────────────────────────────────────────────

/// The view of a record holds its time, its sort, its bytes and its error.
pub proof fn law_record_view(r: PacketRecord)
    ensures
        r@.timestamp_us == r.timestamp_us,
        match r.data {
            PacketData::RawTx(b) => r@.data == PacketView::RawTx(b@),
            PacketData::RawRx(b) => r@.data == PacketView::RawRx(b@),
            PacketData::RawError(b, e) => r@.data == PacketView::RawError(b@, e@),
        },
        r.data@ == r@.data,
{
}

/// The views of records stand in their order. Without the oldest, the others stay.
pub proof fn law_record_order(records: Seq<PacketRecord>, views: Seq<RecordView>, i: int)
    ensures
        super::record_views(records).len() == records.len(),
        0 <= i < records.len() ==> super::record_views(records)[i] == records[i]@,
        views.len() > 0 ==> super::without_oldest(views).len() == views.len() - 1,
        0 <= i < views.len() - 1 ==> super::without_oldest(views)[i] == views[i + 1],
        views.len() == 0 ==> super::without_oldest(views).len() == 0,
{
}

// ── Dates ───────────────────────────────────────────────────────────────

/// A year is a leap year when four divides it, except full centuries that four hundred
/// does not divide. The months have their usual lengths.
pub proof fn law_month_lengths(y: int, m: int, d: int)
    ensures
        y % 400 == 0 ==> calendar::is_leap(y),
        y % 100 == 0 && y % 400 != 0 ==> !calendar::is_leap(y),
        y % 100 != 0 ==> calendar::is_leap(y) == (y % 4 == 0),
        m == 1 || m == 3 || m == 5 || m == 7 || m == 8 || m == 10 || m == 12
            ==> calendar::days_in_month(y, m) == 31,
        m == 4 || m == 6 || m == 9 || m == 11 ==> calendar::days_in_month(y, m) == 30,
        calendar::days_in_month(y, 2) == (if calendar::is_leap(y) {
            29int
        } else {
            28
        }),
        calendar::is_date(y, m, d) == (1 <= m <= 12 && 1 <= d <= calendar::days_in_month(y, m)),
{
}

/// Days are counted from the first of January 1970, and each day is one more than the
/// day before it, across the ends of months and years.
pub proof fn law_next_day(y: int, m: int, d: int)
    requires
        calendar::is_date(y, m, d),
    ensures
        calendar::day_number(1970, 1, 1) == 0,
        ({
            let n = calendar::day_number(y, m, d);
            if d < calendar::days_in_month(y, m) {
                calendar::day_number(y, m, d + 1) == n + 1
            } else if m < 12 {
                calendar::day_number(y, m + 1, 1) == n + 1
            } else {
                calendar::day_number(y + 1, 1, 1) == n + 1
            }
        }),
{
    reveal_with_fuel(calendar::days_before_month, 13);
    calendar::law_year_length(y);
}

/// A day's date is the one date with its number.
pub proof fn law_date_of_a_day(z: int, y: int, m: int, d: int)
    ensures
        calendar::date_of(z) == (y, m, d) <==> calendar::is_date(y, m, d) && calendar::day_number(
            y,
            m,
            d,
        ) == z,
{
    calendar::lemma_date_exists(z);
    if calendar::is_date(y, m, d) && calendar::day_number(y, m, d) == z {
        calendar::law_date_round_trip(y, m, d);
    }
}

// ── Timestamps ──────────────────────────────────────────────────────────

/// A moment of the calendar is printed with its year in four digits, month, day, hour,
/// minute and second in two, and the microseconds in six. Later moments than the
/// calendar of four-digit years has are printed as its last.
pub proof fn law_timestamp_text(
    t: u64,
    y: int,
    m: int,
    d: int,
    hour: int,
    min: int,
    sec: int,
    us: int,
)
    requires
        calendar::is_date(y, m, d),
        0 <= hour < 24,
        0 <= min < 60,
        0 <= sec < 60,
        0 <= us < 1_000_000,
    ensures
        LAST_TIMESTAMP_US == 253_402_300_799_999_999,
        t <= 253_402_300_799_999_999 && t == calendar::day_number(y, m, d) * 86_400_000_000 + hour
            * 3_600_000_000 + min * 60_000_000 + sec * 1_000_000 + us ==> super::timestamp_text(t)
            == text::padded('0', y as nat, 4) + "-"@ + text::padded('0', m as nat, 2) + "-"@
            + text::padded('0', d as nat, 2) + "T"@ + text::padded('0', hour as nat, 2) + ":"@
            + text::padded('0', min as nat, 2) + ":"@ + text::padded('0', sec as nat, 2) + "."@
            + text::padded('0', us as nat, 6),
        t > 253_402_300_799_999_999 ==> super::timestamp_text(t) == super::timestamp_text(
            253_402_300_799_999_999,
        ),
{
    let n = calendar::day_number(y, m, d);
    if t <= 253_402_300_799_999_999 && t == n * 86_400_000_000 + hour * 3_600_000_000 + min
        * 60_000_000 + sec * 1_000_000 + us {
        let of_day: int = hour * 3600 + min * 60 + sec;
        let secs: int = t as int / 1_000_000;
        assert(secs == n * 86_400 + of_day);
        assert(t as int % 1_000_000 == us);
        assert(0 <= of_day < 86_400);
        assert(secs / 86_400 == n);
        assert(secs % 86_400 == of_day);
        assert(secs % 60 == sec);
        calendar::law_date_round_trip(y, m, d);
    }
}

// ── Lines ───────────────────────────────────────────────────────────────

/// Bytes are printed behind their number, which takes at least three places.
pub proof fn law_dump(bytes: Seq<u8>)
    ensures
        super::dump_text(bytes) == text::padded(' ', bytes.len(), 3) + "B  ["@ + text::spaced_hex(
            bytes,
        ) + "]"@,
{
}

/// A record is printed by its direction, its time, its bytes and its error.
pub proof fn law_record_lines(t: u64, b: Seq<u8>, e: Seq<char>)
    ensures
        (RecordView { timestamp_us: t, data: PacketView::RawTx(b) }).line() == "[TX] "@
            + super::timestamp_text(t) + "  "@ + super::dump_text(b),
        (RecordView { timestamp_us: t, data: PacketView::RawRx(b) }).line() == "[RX] "@
            + super::timestamp_text(t) + "  "@ + super::dump_text(b),
        (RecordView { timestamp_us: t, data: PacketView::RawError(b, e) }).line() == "[ERR] "@
            + super::timestamp_text(t) + "  "@ + super::dump_text(b) + "  — "@ + e,
{
}

/// In a log a record is a line with its time first, then its direction, its bytes and
/// its error.
pub proof fn law_log_lines(t: u64, b: Seq<u8>, e: Seq<char>)
    ensures
        PacketView::RawTx(b).direction() == "TX"@,
        PacketView::RawRx(b).direction() == "RX"@,
        PacketView::RawError(b, e).direction() == "ERR"@,
        PacketView::RawTx(b).detail() == super::dump_text(b),
        PacketView::RawRx(b).detail() == super::dump_text(b),
        PacketView::RawError(b, e).detail() == super::dump_text(b) + "  — "@ + e,
        (RecordView { timestamp_us: t, data: PacketView::RawTx(b) }).log_line()
            == super::timestamp_text(t) + "  "@ + "TX"@ + "  "@ + super::dump_text(b),
        (RecordView { timestamp_us: t, data: PacketView::RawRx(b) }).log_line()
            == super::timestamp_text(t) + "  "@ + "RX"@ + "  "@ + super::dump_text(b),
        (RecordView { timestamp_us: t, data: PacketView::RawError(b, e) }).log_line()
            == super::timestamp_text(t) + "  "@ + "ERR"@ + "  "@ + (super::dump_text(b) + "  — "@
            + e),
{
}

} // verus!
