//! Lines of a traffic log.
//!
//! ```text
//! 2026-08-05T14:32:15.123456  TX    8B  [01 03 00 00 00 01 84 0A]
//! ```

use vstd::prelude::*;

use crate::intercept;
use crate::intercept::{format_timestamp, push_dump};
use crate::intercept::{PacketData, PacketRecord, PacketView, RecordView};

verus! {

impl PacketView {
    /// What the direction of a packet is called.
    pub open spec fn direction(self) -> Seq<char> {
        match self {
            PacketView::RawTx(_) => "TX"@,
            PacketView::RawRx(_) => "RX"@,
            PacketView::RawError(_, _) => "ERR"@,
        }
    }

    /// Length and bytes of a packet, and the error if there was one.
    pub open spec fn detail(self) -> Seq<char> {
        match self {
            PacketView::RawTx(b) => intercept::dump_text(b),
            PacketView::RawRx(b) => intercept::dump_text(b),
            PacketView::RawError(b, e) => intercept::dump_text(b) + "  — "@ + e,
        }
    }
}

impl RecordView {
    /// The line of a log for the record.
    pub open spec fn log_line(self) -> Seq<char> {
        intercept::timestamp_text(self.timestamp_us) + "  "@ + self.data.direction() + "  "@
            + self.data.detail()
    }
}

/// Direction and detail of a record.
pub fn format_detail(record: &PacketRecord) -> (r: (&'static str, String))
    ensures
        r.0@ == record@.data.direction(),
        r.1@ == record@.data.detail(),
{
    let mut s = String::new();
    match &record.data {
        PacketData::RawTx(b) => {
            push_dump(&mut s, b.as_slice());
            assert(s@ =~= record@.data.detail());
            ("TX", s)
        },
        PacketData::RawRx(b) => {
            push_dump(&mut s, b.as_slice());
            assert(s@ =~= record@.data.detail());
            ("RX", s)
        },
        PacketData::RawError(b, e) => {
            push_dump(&mut s, b.as_slice());
            s.append("  — ");
            s.append(e.as_str());
            assert(s@ =~= record@.data.detail());
            ("ERR", s)
        },
    }
}

/// The line of a log for a record.
pub fn format_record(record: &PacketRecord) -> (s: String)
    ensures
        s@ == record@.log_line(),
{
    let mut s = format_timestamp(record.timestamp_us);
    let (dir, detail) = format_detail(record);
    s.append("  ");
    s.append(dir);
    s.append("  ");
    s.append(detail.as_str());
    s
}

} // verus!
