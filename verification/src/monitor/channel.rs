//! Where records go that are handed on.

use vstd::prelude::*;

use crate::intercept::PacketRecord;

verus! {

/// A backend for records: a file, a network peer, a database, a display. Its
/// method is called for one record after the other.
pub trait RecordSink {
    /// Take a record. This must not block.
    fn on_packet(&mut self, record: PacketRecord);
}

} // verus!
