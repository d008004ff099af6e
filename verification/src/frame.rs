//! Modbus protocol data units: requests, responses, exceptions and function
//! codes, and their wire format.
//!
//! A PDU is a function code followed by data. [`Request`] and [`Response`] hold
//! a PDU in decoded form; [`encode_request_into`] and [`encode_response_into`]
//! write the wire form, the `TryFrom<Bytes>` impls read it. What is written and
//! what is read is stated over [`RequestView`] and [`ResponseView`], which hold
//! the same data as mathematical values.

use std::borrow::Cow;

use vstd::prelude::*;

use crate::text;

pub mod decode;
pub mod encode;
pub mod laws;
pub mod parse_laws;
pub mod pdu_error;
pub mod text_laws;
pub mod wire_laws;

pub use encode::{encode_request_into, encode_response_into};
pub use pdu_error::{ByteCountField, PduError, PduErrorKind, Span};

verus! {

/// The largest PDU: a function code and 252 bytes of data.
pub const MAX_PDU_SIZE: usize = 253;

/// The most coils that one request may name.
pub const MAX_COILS: u16 = 2000;

/// The most registers that one request may name.
pub const MAX_REGISTERS: u16 = 125;

/// Modbus register or coil address, counted from 0.
pub type Address = u16;

/// Number of registers or coils to read or write.
pub type Quantity = u16;

// ── Function codes ──────────────────────────────────────────────────────

/// A function code: 1 to 127 in requests and replies, with bit 7 set in an
/// exception reply.
#[derive(Debug, Clone, Copy, PartialEq, Eq, Structural)]
pub struct FunctionCode(u8);

impl FunctionCode {
    /// The code as it stands on the wire.
    pub closed spec fn code(self) -> u8 {
        self.0
    }

    #[inline]
    pub fn new(value: u8) -> (r: Self)
        ensures
            r.code() == value,
    {
        FunctionCode(value)
    }

    #[inline]
    pub fn value(self) -> (r: u8)
        ensures
            r == self.code(),
    {
        self.0
    }

    /// Two function codes are equal when they stand for the same byte.
    pub proof fn law_code_is_identity(a: Self, b: Self)
        ensures
            a.code() == b.code() <==> a == b,
    {
    }
}

/// The function code without the exception flag.
pub open spec fn base_code(b: u8) -> u8 {
    (b % 128) as u8
}

/// The function code with the exception flag set.
pub open spec fn flagged_code(b: u8) -> u8 {
    (b % 128 + 128) as u8
}

/// The function codes that have a request variant.
pub open spec fn is_standard_code(b: u8) -> bool {
    1 <= b <= 6 || b == 8 || b == 15 || b == 16 || b == 22 || b == 23
}

/// What the exception flag does to a byte, in terms of arithmetic.
pub proof fn lemma_exception_flag(b: u8)
    ensures
        b & 0x7F == base_code(b),
        b | 0x80 == flagged_code(b),
        (b & 0x80 != 0) == (b >= 128),
{
    assert(b & 0x7F == b % 128) by (bit_vector);
    assert(b | 0x80 == b % 128 + 128) by (bit_vector);
    assert((b & 0x80 != 0) == (b >= 128)) by (bit_vector);
}

/// Whether `b` is a function code this library knows, or the exception variant
/// of one. Frame parsers use it to tell frames from noise.
#[inline]
pub fn is_known_function_code(b: u8) -> (r: bool)
    ensures
        r == is_standard_code(base_code(b)),
{
    proof {
        lemma_exception_flag(b);
    }
    let base: u8 = b & 0x7F;
    (1 <= base && base <= 6) || base == 8 || base == 15 || base == 16 || base == 22 || base == 23
}

// ── Exceptions ──────────────────────────────────────────────────────────

/// Exception codes of the protocol, and [`Exception::Custom`] for every other
/// byte.
#[derive(Debug, Clone, Copy, PartialEq, Eq, Structural)]
#[non_exhaustive]
pub enum Exception {
    IllegalFunction,
    IllegalDataAddress,
    IllegalDataValue,
    ServerDeviceFailure,
    Acknowledge,
    ServerDeviceBusy,
    NegativeAcknowledge,
    MemoryParityError,
    GatewayPathUnavailable,
    GatewayTargetDeviceFailedToRespond,
    Custom(u8),
}

impl Exception {
    /// The byte that stands for the exception on the wire.
    pub open spec fn code(self) -> u8 {
        match self {
            Exception::IllegalFunction => 1,
            Exception::IllegalDataAddress => 2,
            Exception::IllegalDataValue => 3,
            Exception::ServerDeviceFailure => 4,
            Exception::Acknowledge => 5,
            Exception::ServerDeviceBusy => 6,
            Exception::NegativeAcknowledge => 7,
            Exception::MemoryParityError => 8,
            Exception::GatewayPathUnavailable => 10,
            Exception::GatewayTargetDeviceFailedToRespond => 11,
            Exception::Custom(n) => n,
        }
    }

    /// The exception that a byte on the wire stands for.
    pub open spec fn of_code(code: u8) -> Exception {
        if code == 1 {
            Exception::IllegalFunction
        } else if code == 2 {
            Exception::IllegalDataAddress
        } else if code == 3 {
            Exception::IllegalDataValue
        } else if code == 4 {
            Exception::ServerDeviceFailure
        } else if code == 5 {
            Exception::Acknowledge
        } else if code == 6 {
            Exception::ServerDeviceBusy
        } else if code == 7 {
            Exception::NegativeAcknowledge
        } else if code == 8 {
            Exception::MemoryParityError
        } else if code == 10 {
            Exception::GatewayPathUnavailable
        } else if code == 11 {
            Exception::GatewayTargetDeviceFailedToRespond
        } else {
            Exception::Custom(code)
        }
    }

    /// A byte comes back from the exception that it stands for.
    pub proof fn law_code_round_trip(code: u8)
        ensures
            Exception::of_code(code).code() == code,
    {
    }

    /// What the exception means, in words.
    pub open spec fn description(self) -> Seq<char> {
        match self {
            Exception::IllegalFunction => "Illegal function"@,
            Exception::IllegalDataAddress => "Illegal data address"@,
            Exception::IllegalDataValue => "Illegal data value"@,
            Exception::ServerDeviceFailure => "Server device failure"@,
            Exception::Acknowledge => "Acknowledge"@,
            Exception::ServerDeviceBusy => "Server device busy"@,
            Exception::NegativeAcknowledge => "Negative acknowledge"@,
            Exception::MemoryParityError => "Memory parity error"@,
            Exception::GatewayPathUnavailable => "Gateway path unavailable"@,
            Exception::GatewayTargetDeviceFailedToRespond => "Gateway target device failed to respond"@,
            Exception::Custom(n) => "Custom("@ + text::decimal(n as nat) + ")"@,
        }
    }

    /// What the exception means, in words.
    pub fn to_string(&self) -> (s: String)
        ensures
            s@ == self.description(),
    {
        match self {
            Exception::IllegalFunction => "Illegal function".to_owned(),
            Exception::IllegalDataAddress => "Illegal data address".to_owned(),
            Exception::IllegalDataValue => "Illegal data value".to_owned(),
            Exception::ServerDeviceFailure => "Server device failure".to_owned(),
            Exception::Acknowledge => "Acknowledge".to_owned(),
            Exception::ServerDeviceBusy => "Server device busy".to_owned(),
            Exception::NegativeAcknowledge => "Negative acknowledge".to_owned(),
            Exception::MemoryParityError => "Memory parity error".to_owned(),
            Exception::GatewayPathUnavailable => "Gateway path unavailable".to_owned(),
            Exception::GatewayTargetDeviceFailedToRespond => {
                "Gateway target device failed to respond".to_owned()
            },
            Exception::Custom(n) => self.custom_text(*n),
        }
    }

    fn custom_text(&self, n: u8) -> (s: String)
        ensures
            s@ == "Custom("@ + text::decimal(n as nat) + ")"@,
    {
        let mut s = "Custom(".to_owned();
        text::push_decimal(&mut s, n as u128);
        s.append(")");
        s
    }

    /// The name of the variant, as diagnostics print it.
    pub open spec fn debug_text(self) -> Seq<char> {
        match self {
            Exception::IllegalFunction => "IllegalFunction"@,
            Exception::IllegalDataAddress => "IllegalDataAddress"@,
            Exception::IllegalDataValue => "IllegalDataValue"@,
            Exception::ServerDeviceFailure => "ServerDeviceFailure"@,
            Exception::Acknowledge => "Acknowledge"@,
            Exception::ServerDeviceBusy => "ServerDeviceBusy"@,
            Exception::NegativeAcknowledge => "NegativeAcknowledge"@,
            Exception::MemoryParityError => "MemoryParityError"@,
            Exception::GatewayPathUnavailable => "GatewayPathUnavailable"@,
            Exception::GatewayTargetDeviceFailedToRespond => "GatewayTargetDeviceFailedToRespond"@,
            Exception::Custom(n) => "Custom("@ + text::decimal(n as nat) + ")"@,
        }
    }

    /// The name of the variant, as diagnostics print it.
    pub fn to_debug_string(&self) -> (s: String)
        ensures
            s@ == self.debug_text(),
    {
        match self {
            Exception::IllegalFunction => "IllegalFunction".to_owned(),
            Exception::IllegalDataAddress => "IllegalDataAddress".to_owned(),
            Exception::IllegalDataValue => "IllegalDataValue".to_owned(),
            Exception::ServerDeviceFailure => "ServerDeviceFailure".to_owned(),
            Exception::Acknowledge => "Acknowledge".to_owned(),
            Exception::ServerDeviceBusy => "ServerDeviceBusy".to_owned(),
            Exception::NegativeAcknowledge => "NegativeAcknowledge".to_owned(),
            Exception::MemoryParityError => "MemoryParityError".to_owned(),
            Exception::GatewayPathUnavailable => "GatewayPathUnavailable".to_owned(),
            Exception::GatewayTargetDeviceFailedToRespond => {
                "GatewayTargetDeviceFailedToRespond".to_owned()
            },
            Exception::Custom(n) => self.custom_text(*n),
        }
    }
}

impl From<u8> for Exception {
    fn from(code: u8) -> Self {
        match code {
            1 => Exception::IllegalFunction,
            2 => Exception::IllegalDataAddress,
            3 => Exception::IllegalDataValue,
            4 => Exception::ServerDeviceFailure,
            5 => Exception::Acknowledge,
            6 => Exception::ServerDeviceBusy,
            7 => Exception::NegativeAcknowledge,
            8 => Exception::MemoryParityError,
            10 => Exception::GatewayPathUnavailable,
            11 => Exception::GatewayTargetDeviceFailedToRespond,
            n => Exception::Custom(n),
        }
    }
}

impl vstd::std_specs::convert::FromSpecImpl<u8> for Exception {
    open spec fn obeys_from_spec() -> bool {
        true
    }

    open spec fn from_spec(code: u8) -> Exception {
        Exception::of_code(code)
    }
}

impl From<Exception> for u8 {
    fn from(e: Exception) -> u8 {
        match e {
            Exception::IllegalFunction => 1,
            Exception::IllegalDataAddress => 2,
            Exception::IllegalDataValue => 3,
            Exception::ServerDeviceFailure => 4,
            Exception::Acknowledge => 5,
            Exception::ServerDeviceBusy => 6,
            Exception::NegativeAcknowledge => 7,
            Exception::MemoryParityError => 8,
            Exception::GatewayPathUnavailable => 10,
            Exception::GatewayTargetDeviceFailedToRespond => 11,
            Exception::Custom(n) => n,
        }
    }
}

impl vstd::std_specs::convert::FromSpecImpl<Exception> for u8 {
    open spec fn obeys_from_spec() -> bool {
        true
    }

    open spec fn from_spec(e: Exception) -> u8 {
        e.code()
    }
}

/// A decoded exception reply: which function failed, and why.
#[derive(Debug, Clone, Copy)]
pub struct ExceptionResponse {
    pub function: FunctionCode,
    pub exception: Exception,
}

impl ExceptionResponse {
    /// The message for an exception reply.
    pub open spec fn message(self) -> Seq<char> {
        "Modbus exception "@ + self.exception.debug_text() + " for function FunctionCode("@
            + text::decimal(self.function.code() as nat) + ")"@
    }

    /// The message for an exception reply.
    pub fn to_string(&self) -> (s: String)
        ensures
            s@ == self.message(),
    {
        let mut s = "Modbus exception ".to_owned();
        s.append(self.exception.to_debug_string().as_str());
        s.append(" for function FunctionCode(");
        text::push_decimal(&mut s, self.function.value() as u128);
        s.append(")");
        s
    }
}

// ── Requests ────────────────────────────────────────────────────────────

/// A request PDU, one variant per function code.
#[derive(Debug, PartialEq, Eq)]
#[non_exhaustive]
pub enum Request<'a> {
    ReadCoils(Address, Quantity),
    ReadDiscreteInputs(Address, Quantity),
    ReadHoldingRegisters(Address, Quantity),
    ReadInputRegisters(Address, Quantity),
    WriteSingleCoil(Address, bool),
    WriteSingleRegister(Address, u16),
    WriteMultipleCoils(Address, Cow<'a, [bool]>),
    WriteMultipleRegisters(Address, Cow<'a, [u16]>),
    /// Read address, read quantity, write address, values to write.
    ReadWriteMultipleRegisters(Address, Quantity, Address, Cow<'a, [u16]>),
    /// Address, AND mask, OR mask.
    MaskWriteRegister(Address, u16, u16),
    /// Sub-function code and data field.
    Diagnostic(u16, u16),
    /// A request to close the connection. It has no wire form.
    Disconnect,
}

/// The data of a [`Request`], with the written values as sequences.
#[verifier::ext_equal]
pub enum RequestView {
    ReadCoils(u16, u16),
    ReadDiscreteInputs(u16, u16),
    ReadHoldingRegisters(u16, u16),
    ReadInputRegisters(u16, u16),
    WriteSingleCoil(u16, bool),
    WriteSingleRegister(u16, u16),
    WriteMultipleCoils(u16, Seq<bool>),
    WriteMultipleRegisters(u16, Seq<u16>),
    ReadWriteMultipleRegisters(u16, u16, u16, Seq<u16>),
    MaskWriteRegister(u16, u16, u16),
    Diagnostic(u16, u16),
    Disconnect,
}

impl<'a> View for Request<'a> {
    type V = RequestView;

    open spec fn view(&self) -> RequestView {
        match *self {
            Request::ReadCoils(a, q) => RequestView::ReadCoils(a, q),
            Request::ReadDiscreteInputs(a, q) => RequestView::ReadDiscreteInputs(a, q),
            Request::ReadHoldingRegisters(a, q) => RequestView::ReadHoldingRegisters(a, q),
            Request::ReadInputRegisters(a, q) => RequestView::ReadInputRegisters(a, q),
            Request::WriteSingleCoil(a, v) => RequestView::WriteSingleCoil(a, v),
            Request::WriteSingleRegister(a, v) => RequestView::WriteSingleRegister(a, v),
            Request::WriteMultipleCoils(a, v) => RequestView::WriteMultipleCoils(a, v@),
            Request::WriteMultipleRegisters(a, v) => RequestView::WriteMultipleRegisters(a, v@),
            Request::ReadWriteMultipleRegisters(a, q, w, v) => {
                RequestView::ReadWriteMultipleRegisters(a, q, w, v@)
            },
            Request::MaskWriteRegister(a, m, o) => RequestView::MaskWriteRegister(a, m, o),
            Request::Diagnostic(sf, d) => RequestView::Diagnostic(sf, d),
            Request::Disconnect => RequestView::Disconnect,
        }
    }
}

impl RequestView {
    /// The function code of the request, 0 for a disconnect.
    pub open spec fn function_code(self) -> u8 {
        match self {
            RequestView::ReadCoils(..) => 1,
            RequestView::ReadDiscreteInputs(..) => 2,
            RequestView::ReadHoldingRegisters(..) => 3,
            RequestView::ReadInputRegisters(..) => 4,
            RequestView::WriteSingleCoil(..) => 5,
            RequestView::WriteSingleRegister(..) => 6,
            RequestView::Diagnostic(..) => 8,
            RequestView::WriteMultipleCoils(..) => 15,
            RequestView::WriteMultipleRegisters(..) => 16,
            RequestView::MaskWriteRegister(..) => 22,
            RequestView::ReadWriteMultipleRegisters(..) => 23,
            RequestView::Disconnect => 0,
        }
    }
}

/// The coils of a borrowed or owned list, as a slice.
pub fn coil_slice<'b>(values: &'b Cow<'_, [bool]>) -> (r: &'b [bool])
    ensures
        r@ == values@,
{
    match values {
        Cow::Borrowed(b) => b,
        Cow::Owned(v) => v.as_slice(),
    }
}

/// The registers of a borrowed or owned list, as a slice.
pub fn register_slice<'b>(values: &'b Cow<'_, [u16]>) -> (r: &'b [u16])
    ensures
        r@ == values@,
{
    match values {
        Cow::Borrowed(b) => b,
        Cow::Owned(v) => v.as_slice(),
    }
}

fn owned_coils(values: Cow<'_, [bool]>) -> (r: Vec<bool>)
    ensures
        r@ == values@,
{
    match values {
        Cow::Borrowed(b) => vstd::slice::slice_to_vec(b),
        Cow::Owned(v) => v,
    }
}

fn owned_registers(values: Cow<'_, [u16]>) -> (r: Vec<u16>)
    ensures
        r@ == values@,
{
    match values {
        Cow::Borrowed(b) => vstd::slice::slice_to_vec(b),
        Cow::Owned(v) => v,
    }
}

fn clone_coils<'a>(values: &Cow<'a, [bool]>) -> (r: Cow<'a, [bool]>)
    ensures
        r@ == values@,
{
    match values {
        Cow::Borrowed(b) => Cow::Borrowed(*b),
        Cow::Owned(v) => Cow::Owned(v.clone()),
    }
}

fn clone_registers<'a>(values: &Cow<'a, [u16]>) -> (r: Cow<'a, [u16]>)
    ensures
        r@ == values@,
{
    match values {
        Cow::Borrowed(b) => Cow::Borrowed(*b),
        Cow::Owned(v) => Cow::Owned(v.clone()),
    }
}

impl<'a> Clone for Request<'a> {
    fn clone(&self) -> (r: Self)
        ensures
            r@ == self@,
    {
        match self {
            Request::ReadCoils(a, q) => Request::ReadCoils(*a, *q),
            Request::ReadDiscreteInputs(a, q) => Request::ReadDiscreteInputs(*a, *q),
            Request::ReadHoldingRegisters(a, q) => Request::ReadHoldingRegisters(*a, *q),
            Request::ReadInputRegisters(a, q) => Request::ReadInputRegisters(*a, *q),
            Request::WriteSingleCoil(a, v) => Request::WriteSingleCoil(*a, *v),
            Request::WriteSingleRegister(a, v) => Request::WriteSingleRegister(*a, *v),
            Request::WriteMultipleCoils(a, v) => Request::WriteMultipleCoils(*a, clone_coils(v)),
            Request::WriteMultipleRegisters(a, v) => {
                Request::WriteMultipleRegisters(*a, clone_registers(v))
            },
            Request::ReadWriteMultipleRegisters(a, q, w, v) => {
                Request::ReadWriteMultipleRegisters(*a, *q, *w, clone_registers(v))
            },
            Request::MaskWriteRegister(a, m, o) => Request::MaskWriteRegister(*a, *m, *o),
            Request::Diagnostic(sf, d) => Request::Diagnostic(*sf, *d),
            Request::Disconnect => Request::Disconnect,
        }
    }
}

impl<'a> Request<'a> {
    /// The function code of this request.
    pub fn function_code(&self) -> (r: FunctionCode)
        ensures
            r.code() == self@.function_code(),
    {
        match self {
            Request::ReadCoils(..) => FunctionCode::new(1),
            Request::ReadDiscreteInputs(..) => FunctionCode::new(2),
            Request::ReadHoldingRegisters(..) => FunctionCode::new(3),
            Request::ReadInputRegisters(..) => FunctionCode::new(4),
            Request::WriteSingleCoil(..) => FunctionCode::new(5),
            Request::WriteSingleRegister(..) => FunctionCode::new(6),
            Request::ReadWriteMultipleRegisters(..) => FunctionCode::new(23),
            Request::WriteMultipleCoils(..) => FunctionCode::new(15),
            Request::WriteMultipleRegisters(..) => FunctionCode::new(16),
            Request::MaskWriteRegister(..) => FunctionCode::new(22),
            Request::Diagnostic(..) => FunctionCode::new(8),
            Request::Disconnect => FunctionCode::new(0),
        }
    }

    /// The same request, holding its own copy of the written values.
    pub fn into_owned(self) -> (r: Request<'static>)
        ensures
            r@ == self@,
            match r {
                Request::WriteMultipleCoils(_, v) => v is Owned,
                Request::WriteMultipleRegisters(_, v) => v is Owned,
                Request::ReadWriteMultipleRegisters(_, _, _, v) => v is Owned,
                _ => true,
            },
    {
        match self {
            Request::ReadCoils(a, q) => Request::ReadCoils(a, q),
            Request::ReadDiscreteInputs(a, q) => Request::ReadDiscreteInputs(a, q),
            Request::ReadHoldingRegisters(a, q) => Request::ReadHoldingRegisters(a, q),
            Request::ReadInputRegisters(a, q) => Request::ReadInputRegisters(a, q),
            Request::WriteSingleCoil(a, v) => Request::WriteSingleCoil(a, v),
            Request::WriteSingleRegister(a, v) => Request::WriteSingleRegister(a, v),
            Request::WriteMultipleCoils(a, v) => {
                Request::WriteMultipleCoils(a, Cow::Owned(owned_coils(v)))
            },
            Request::WriteMultipleRegisters(a, v) => {
                Request::WriteMultipleRegisters(a, Cow::Owned(owned_registers(v)))
            },
            Request::ReadWriteMultipleRegisters(a, q, w, v) => {
                Request::ReadWriteMultipleRegisters(a, q, w, Cow::Owned(owned_registers(v)))
            },
            Request::MaskWriteRegister(a, m, o) => Request::MaskWriteRegister(a, m, o),
            Request::Diagnostic(sf, d) => Request::Diagnostic(sf, d),
            Request::Disconnect => Request::Disconnect,
        }
    }
}

// ── Responses ───────────────────────────────────────────────────────────

/// A response PDU, one variant per function code, and one for exceptions.
#[derive(Debug, PartialEq)]
#[non_exhaustive]
pub enum Response {
    ReadCoils(Vec<bool>),
    ReadDiscreteInputs(Vec<bool>),
    ReadHoldingRegisters(Vec<u16>),
    ReadInputRegisters(Vec<u16>),
    WriteSingleCoil(Address, bool),
    WriteSingleRegister(Address, u16),
    WriteMultipleCoils(Address, u16),
    WriteMultipleRegisters(Address, u16),
    ReadWriteMultipleRegisters(Vec<u16>),
    MaskWriteRegister(Address, u16, u16),
    Diagnostic(u16, u16),
    /// The function that failed, without the exception flag, and the reason.
    Exception(u8, Exception),
}

/// The data of a [`Response`], with the values read as sequences.
#[verifier::ext_equal]
pub enum ResponseView {
    ReadCoils(Seq<bool>),
    ReadDiscreteInputs(Seq<bool>),
    ReadHoldingRegisters(Seq<u16>),
    ReadInputRegisters(Seq<u16>),
    WriteSingleCoil(u16, bool),
    WriteSingleRegister(u16, u16),
    WriteMultipleCoils(u16, u16),
    WriteMultipleRegisters(u16, u16),
    ReadWriteMultipleRegisters(Seq<u16>),
    MaskWriteRegister(u16, u16, u16),
    Diagnostic(u16, u16),
    Exception(u8, Exception),
}

impl View for Response {
    type V = ResponseView;

    open spec fn view(&self) -> ResponseView {
        match *self {
            Response::ReadCoils(v) => ResponseView::ReadCoils(v@),
            Response::ReadDiscreteInputs(v) => ResponseView::ReadDiscreteInputs(v@),
            Response::ReadHoldingRegisters(v) => ResponseView::ReadHoldingRegisters(v@),
            Response::ReadInputRegisters(v) => ResponseView::ReadInputRegisters(v@),
            Response::WriteSingleCoil(a, v) => ResponseView::WriteSingleCoil(a, v),
            Response::WriteSingleRegister(a, v) => ResponseView::WriteSingleRegister(a, v),
            Response::WriteMultipleCoils(a, q) => ResponseView::WriteMultipleCoils(a, q),
            Response::WriteMultipleRegisters(a, q) => ResponseView::WriteMultipleRegisters(a, q),
            Response::ReadWriteMultipleRegisters(v) => ResponseView::ReadWriteMultipleRegisters(v@),
            Response::MaskWriteRegister(a, m, o) => ResponseView::MaskWriteRegister(a, m, o),
            Response::Diagnostic(sf, d) => ResponseView::Diagnostic(sf, d),
            Response::Exception(fc, e) => ResponseView::Exception(fc, e),
        }
    }
}

impl ResponseView {
    /// The function code that the response carries on the wire.
    pub open spec fn function_code(self) -> u8 {
        match self {
            ResponseView::ReadCoils(..) => 1,
            ResponseView::ReadDiscreteInputs(..) => 2,
            ResponseView::ReadHoldingRegisters(..) => 3,
            ResponseView::ReadInputRegisters(..) => 4,
            ResponseView::WriteSingleCoil(..) => 5,
            ResponseView::WriteSingleRegister(..) => 6,
            ResponseView::Diagnostic(..) => 8,
            ResponseView::WriteMultipleCoils(..) => 15,
            ResponseView::WriteMultipleRegisters(..) => 16,
            ResponseView::MaskWriteRegister(..) => 22,
            ResponseView::ReadWriteMultipleRegisters(..) => 23,
            ResponseView::Exception(fc, _) => flagged_code(fc),
        }
    }

    /// The response as diagnostics print it.
    pub open spec fn debug_text(self) -> Seq<char> {
        match self {
            ResponseView::ReadCoils(v) => "ReadCoils("@ + bool_list(v) + ")"@,
            ResponseView::ReadDiscreteInputs(v) => "ReadDiscreteInputs("@ + bool_list(v) + ")"@,
            ResponseView::ReadHoldingRegisters(v) => "ReadHoldingRegisters("@ + word_list(v) + ")"@,
            ResponseView::ReadInputRegisters(v) => "ReadInputRegisters("@ + word_list(v) + ")"@,
            ResponseView::WriteSingleCoil(a, v) => "WriteSingleCoil("@ + text::decimal(a as nat)
                + ", "@ + text::boolean(v) + ")"@,
            ResponseView::WriteSingleRegister(a, v) => "WriteSingleRegister("@ + word_pair(a, v)
                + ")"@,
            ResponseView::WriteMultipleCoils(a, q) => "WriteMultipleCoils("@ + word_pair(a, q)
                + ")"@,
            ResponseView::WriteMultipleRegisters(a, q) => "WriteMultipleRegisters("@ + word_pair(
                a,
                q,
            ) + ")"@,
            ResponseView::ReadWriteMultipleRegisters(v) => "ReadWriteMultipleRegisters("@
                + word_list(v) + ")"@,
            ResponseView::MaskWriteRegister(a, m, o) => "MaskWriteRegister("@ + word_pair(a, m)
                + ", "@ + text::decimal(o as nat) + ")"@,
            ResponseView::Diagnostic(sf, d) => "Diagnostic("@ + word_pair(sf, d) + ")"@,
            ResponseView::Exception(fc, e) => "Exception("@ + text::decimal(fc as nat) + ", "@
                + e.debug_text() + ")"@,
        }
    }
}

/// Two numbers, separated as diagnostics print them.
pub open spec fn word_pair(a: u16, b: u16) -> Seq<char> {
    text::decimal(a as nat) + ", "@ + text::decimal(b as nat)
}

/// The items of a list, separated by commas.
pub open spec fn word_items(v: Seq<u16>) -> Seq<char>
    decreases v.len(),
{
    if v.len() == 0 {
        Seq::empty()
    } else if v.len() == 1 {
        text::decimal(v[0] as nat)
    } else {
        word_items(v.drop_last()) + ", "@ + text::decimal(v.last() as nat)
    }
}

/// The items of a list, separated by commas.
pub open spec fn bool_items(v: Seq<bool>) -> Seq<char>
    decreases v.len(),
{
    if v.len() == 0 {
        Seq::empty()
    } else if v.len() == 1 {
        text::boolean(v[0])
    } else {
        bool_items(v.drop_last()) + ", "@ + text::boolean(v.last())
    }
}

/// A list of numbers in brackets.
pub open spec fn word_list(v: Seq<u16>) -> Seq<char> {
    "["@ + word_items(v) + "]"@
}

/// A list of truth values in brackets.
pub open spec fn bool_list(v: Seq<bool>) -> Seq<char> {
    "["@ + bool_items(v) + "]"@
}

fn push_word_pair(out: &mut String, a: u16, b: u16)
    ensures
        final(out)@ == old(out)@ + word_pair(a, b),
{
    text::push_decimal(out, a as u128);
    out.append(", ");
    text::push_decimal(out, b as u128);
    assert(out@ =~= old(out)@ + word_pair(a, b));
}

fn push_word_list(out: &mut String, v: &Vec<u16>)
    ensures
        final(out)@ == old(out)@ + word_list(v@),
{
    out.append("[");
    let ghost start = out@;
    let mut i: usize = 0;
    while i < v.len()
        invariant
            i <= v.len(),
            out@ == start + word_items(v@.take(i as int)),
        decreases v.len() - i,
    {
        if i > 0 {
            out.append(", ");
        }
        text::push_decimal(out, v[i] as u128);
        assert(v@.take(i + 1).drop_last() =~= v@.take(i as int));
        assert(out@ =~= start + word_items(v@.take(i + 1)));
        i = i + 1;
    }
    out.append("]");
    assert(v@.take(i as int) =~= v@);
    assert(out@ =~= old(out)@ + word_list(v@));
}

fn push_bool_list(out: &mut String, v: &Vec<bool>)
    ensures
        final(out)@ == old(out)@ + bool_list(v@),
{
    out.append("[");
    let ghost start = out@;
    let mut i: usize = 0;
    while i < v.len()
        invariant
            i <= v.len(),
            out@ == start + bool_items(v@.take(i as int)),
        decreases v.len() - i,
    {
        if i > 0 {
            out.append(", ");
        }
        text::push_boolean(out, v[i]);
        assert(v@.take(i + 1).drop_last() =~= v@.take(i as int));
        assert(out@ =~= start + bool_items(v@.take(i + 1)));
        i = i + 1;
    }
    out.append("]");
    assert(v@.take(i as int) =~= v@);
    assert(out@ =~= old(out)@ + bool_list(v@));
}

impl Clone for Response {
    fn clone(&self) -> (r: Self)
        ensures
            r@ == self@,
    {
        match self {
            Response::ReadCoils(v) => Response::ReadCoils(v.clone()),
            Response::ReadDiscreteInputs(v) => Response::ReadDiscreteInputs(v.clone()),
            Response::ReadHoldingRegisters(v) => Response::ReadHoldingRegisters(v.clone()),
            Response::ReadInputRegisters(v) => Response::ReadInputRegisters(v.clone()),
            Response::WriteSingleCoil(a, v) => Response::WriteSingleCoil(*a, *v),
            Response::WriteSingleRegister(a, v) => Response::WriteSingleRegister(*a, *v),
            Response::WriteMultipleCoils(a, q) => Response::WriteMultipleCoils(*a, *q),
            Response::WriteMultipleRegisters(a, q) => Response::WriteMultipleRegisters(*a, *q),
            Response::ReadWriteMultipleRegisters(v) => {
                Response::ReadWriteMultipleRegisters(v.clone())
            },
            Response::MaskWriteRegister(a, m, o) => Response::MaskWriteRegister(*a, *m, *o),
            Response::Diagnostic(sf, d) => Response::Diagnostic(*sf, *d),
            Response::Exception(fc, e) => Response::Exception(*fc, *e),
        }
    }
}

impl Response {
    /// The function code of this response, with bit 7 set for an exception.
    pub fn function_code(&self) -> (r: FunctionCode)
        ensures
            r.code() == self@.function_code(),
    {
        match self {
            Response::ReadCoils(..) => FunctionCode::new(1),
            Response::ReadDiscreteInputs(..) => FunctionCode::new(2),
            Response::ReadHoldingRegisters(..) => FunctionCode::new(3),
            Response::ReadInputRegisters(..) => FunctionCode::new(4),
            Response::WriteSingleCoil(..) => FunctionCode::new(5),
            Response::WriteSingleRegister(..) => FunctionCode::new(6),
            Response::WriteMultipleCoils(..) => FunctionCode::new(15),
            Response::WriteMultipleRegisters(..) => FunctionCode::new(16),
            Response::ReadWriteMultipleRegisters(..) => FunctionCode::new(23),
            Response::MaskWriteRegister(..) => FunctionCode::new(22),
            Response::Diagnostic(..) => FunctionCode::new(8),
            Response::Exception(fc, _) => {
                proof {
                    lemma_exception_flag(*fc);
                }
                FunctionCode::new(*fc | 0x80)
            },
        }
    }

    /// The response as diagnostics print it.
    pub fn to_debug_string(&self) -> (s: String)
        ensures
            s@ == self@.debug_text(),
    {
        let mut s = String::new();
        match self {
            Response::ReadCoils(v) => {
                s.append("ReadCoils(");
                push_bool_list(&mut s, v);
            },
            Response::ReadDiscreteInputs(v) => {
                s.append("ReadDiscreteInputs(");
                push_bool_list(&mut s, v);
            },
            Response::ReadHoldingRegisters(v) => {
                s.append("ReadHoldingRegisters(");
                push_word_list(&mut s, v);
            },
            Response::ReadInputRegisters(v) => {
                s.append("ReadInputRegisters(");
                push_word_list(&mut s, v);
            },
            Response::WriteSingleCoil(a, v) => {
                s.append("WriteSingleCoil(");
                text::push_decimal(&mut s, *a as u128);
                s.append(", ");
                text::push_boolean(&mut s, *v);
            },
            Response::WriteSingleRegister(a, v) => {
                s.append("WriteSingleRegister(");
                push_word_pair(&mut s, *a, *v);
            },
            Response::WriteMultipleCoils(a, q) => {
                s.append("WriteMultipleCoils(");
                push_word_pair(&mut s, *a, *q);
            },
            Response::WriteMultipleRegisters(a, q) => {
                s.append("WriteMultipleRegisters(");
                push_word_pair(&mut s, *a, *q);
            },
            Response::ReadWriteMultipleRegisters(v) => {
                s.append("ReadWriteMultipleRegisters(");
                push_word_list(&mut s, v);
            },
            Response::MaskWriteRegister(a, m, o) => {
                s.append("MaskWriteRegister(");
                push_word_pair(&mut s, *a, *m);
                s.append(", ");
                text::push_decimal(&mut s, *o as u128);
            },
            Response::Diagnostic(sf, d) => {
                s.append("Diagnostic(");
                push_word_pair(&mut s, *sf, *d);
            },
            Response::Exception(fc, e) => {
                s.append("Exception(");
                text::push_decimal(&mut s, *fc as u128);
                s.append(", ");
                s.append(e.to_debug_string().as_str());
            },
        }
        s.append(")");
        assert(s@ =~= self@.debug_text());
        s
    }
}

} // verus!
