//! Modbus over TCP, RTU and ASCII: the parts of a client and a server that
//! decide.
//!
//! - [`frame`]: requests, responses and exceptions, and their wire format.
//! - [`codec`]: CRC, LRC, and the frames of serial lines.
//! - [`transport`]: frames of each protocol, and the course of a transaction
//!   at the client and at the server.
//! - [`client`], [`server`], [`slave_store`]: the calls of a master, services
//!   that answer them, and a store of coils and registers.
//! - [`capture`], [`monitor`], [`intercept`], [`wire_tap`]: what moves across
//!   the wire, counted, recorded and printed.
//! - [`bus_timing`], [`reconnect`], [`options`]: when to send, when to try again,
//!   and how a client is set up.
//!
//! The modules named `laws` or `.._laws` hold what is proved of all this: what
//! stands on the wire, what is read from it, and how calls relate.
//!
//! Nothing here reads, writes or waits. What is to be done next is decided
//! from what has happened, so that any runtime can drive it.

pub mod buffer;
pub mod bus_timing;
pub mod capture;
pub mod client;
pub mod codec;
pub mod error;
pub mod frame;
pub mod intercept;
pub mod monitor;
pub mod options;
pub mod reconnect;
pub mod server;
pub mod slave_store;
pub mod text;
pub mod time;
pub mod transport;
pub mod wire_tap;

pub use bus_timing::BusTiming;
pub use capture::BusCapture;
pub use client::ModbusClient;
pub use codec::calculate_crc;
pub use codec::calculate_lrc;
pub use error::ModbusError;
pub use frame::{Exception, ExceptionResponse, FunctionCode, Request, Response};
pub use intercept::{format_timestamp, PacketCapture, PacketData, PacketRecord, TrafficStats};
pub use options::ClientOptions;
pub use reconnect::ReconnectConfig;
pub use server::{HookedService, ServerHook, Service};
pub use slave_store::SlaveStore;
pub use time::Micros;
pub use transport::{ascii, rtu, tcp};
pub use wire_tap::{now_micros, Timebase, WireTap};
