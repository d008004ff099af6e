//! Framing and transactions over TCP, RTU and ASCII.

use vstd::prelude::*;

pub mod ascii;
pub mod call_laws;
pub mod exchange;
pub mod frame_laws;
pub mod laws;
pub mod rtu;
pub mod send_recv;
pub mod serving;
pub mod session;
pub mod sniff_io;
pub mod sniff_laws;
pub mod step_laws;
pub mod tcp;

verus! {

/// The largest RTU frame: slave address, PDU of at most 253 bytes, CRC.
pub const MAX_ADU_SIZE: usize = 256;

/// The largest PDU.
pub const MAX_PDU_SIZE: usize = 253;

/// The size of the CRC of an RTU frame.
pub const CRC_SIZE: usize = 2;

/// The smallest RTU frame: slave address, flagged function code, exception
/// code, CRC.
pub const MIN_RTU_FRAME: usize = 5;

/// The size of the header of a TCP frame.
pub const MBAP_HEADER_SIZE: usize = 7;

/// The part of the header of a TCP frame up to its length field.
pub const MBAP_PREFIX_SIZE: usize = 6;

/// The largest TCP frame: header and PDU.
pub const MAX_TCP_ADU_SIZE: usize = 260;

} // verus!
