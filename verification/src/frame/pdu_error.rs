//! What can be wrong with a PDU.

use vstd::prelude::*;

use crate::text;

verus! {

/// The two sorts of PDU error: data that breaks a rule, and data that ends too
/// early.
#[derive(Debug, Clone, Copy, PartialEq, Eq, Structural)]
pub enum PduErrorKind {
    InvalidData,
    UnexpectedEof,
}

/// An address and quantity pair of a request.
#[derive(Debug, Clone, Copy, PartialEq, Eq, Structural)]
pub enum Span {
    ReadCoils,
    ReadDiscreteInputs,
    ReadHoldingRegisters,
    ReadInputRegisters,
    WriteMultipleCoils,
    WriteMultipleRegisters,
    /// The registers that a read-write request reads.
    ReadWriteRead,
    /// The registers that a read-write request writes.
    ReadWriteWrite,
}

/// A byte-count field of a PDU.
#[derive(Debug, Clone, Copy, PartialEq, Eq, Structural)]
pub enum ByteCountField {
    Response,
    Coils,
    Registers,
    ReadWriteRegisters,
}

/// What can be wrong with a PDU, when it is decoded or encoded.
#[derive(Debug, Clone, Copy, PartialEq, Eq, Structural)]
#[non_exhaustive]
pub enum PduError {
    /// There is not even a function code.
    Empty,
    /// An exception reply without an exception code.
    TruncatedException,
    /// A request that ends inside a fixed field.
    Truncated,
    /// A request that ends inside the coils to write.
    TruncatedCoilData,
    /// A request that ends inside the registers to write.
    TruncatedRegisterData,
    /// A read-write request that ends inside the registers to write.
    TruncatedReadWriteData,
    /// A response that ends inside a fixed field.
    TruncatedResponse,
    /// A response that ends inside the coils read.
    TruncatedCoilResponse,
    /// A response that ends inside the registers read.
    TruncatedRegisterResponse,
    /// A read-write response that ends inside the registers read.
    TruncatedReadWriteResponse,
    /// The quantity, and the most that the request may name.
    QuantityOutOfRange(Span, u16, u16),
    /// An address and quantity that reach past the last address.
    AddressOverflow(Span, u16, u16),
    /// A coil value that is neither on nor off.
    InvalidCoilValue(u16),
    /// The byte count found, and the one that the quantity asks for.
    ByteCountMismatch(Span, u8, u16),
    /// A request with a function code that the library does not know.
    UnknownFunctionCode(u8),
    /// A response with a function code that the library does not know.
    UnknownResponseFunctionCode(u8),
    /// Half a register in a response.
    OddRegisterByteCount(u8),
    /// Half a register in a read-write response.
    OddReadWriteByteCount(u8),
    /// A byte count that does not fit in one byte.
    ByteCountOverflow(ByteCountField, u128),
    /// A byte count that does not fit in a machine word.
    ResponseTooLarge,
    /// A PDU longer than [`MAX_PDU_SIZE`](super::MAX_PDU_SIZE).
    PduTooLarge(usize),
}

impl Span {
    /// The request that the pair belongs to.
    pub open spec fn request_name(self) -> Seq<char> {
        match self {
            Span::ReadCoils => "ReadCoils"@,
            Span::ReadDiscreteInputs => "ReadDiscreteInputs"@,
            Span::ReadHoldingRegisters => "ReadHoldingRegisters"@,
            Span::ReadInputRegisters => "ReadInputRegisters"@,
            Span::WriteMultipleCoils => "WriteMultipleCoils"@,
            Span::WriteMultipleRegisters => "WriteMultipleRegisters"@,
            Span::ReadWriteRead => "ReadWriteMultipleRegisters"@,
            Span::ReadWriteWrite => "ReadWriteMultipleRegisters"@,
        }
    }

    /// What the field names of the pair start with.
    pub open spec fn field_prefix(self) -> Seq<char> {
        match self {
            Span::ReadWriteRead => "read_"@,
            Span::ReadWriteWrite => "write_"@,
            _ => ""@,
        }
    }

    /// How the byte count follows from the quantity.
    pub open spec fn byte_count_rule(self) -> Seq<char> {
        match self {
            Span::WriteMultipleCoils => "ceil(qty/8)"@,
            Span::ReadWriteWrite => "write_qty*2"@,
            _ => "qty*2"@,
        }
    }

    fn request_name_text(self) -> (s: &'static str)
        ensures
            s@ == self.request_name(),
    {
        match self {
            Span::ReadCoils => "ReadCoils",
            Span::ReadDiscreteInputs => "ReadDiscreteInputs",
            Span::ReadHoldingRegisters => "ReadHoldingRegisters",
            Span::ReadInputRegisters => "ReadInputRegisters",
            Span::WriteMultipleCoils => "WriteMultipleCoils",
            Span::WriteMultipleRegisters => "WriteMultipleRegisters",
            Span::ReadWriteRead => "ReadWriteMultipleRegisters",
            Span::ReadWriteWrite => "ReadWriteMultipleRegisters",
        }
    }

    fn field_prefix_text(self) -> (s: &'static str)
        ensures
            s@ == self.field_prefix(),
    {
        match self {
            Span::ReadWriteRead => "read_",
            Span::ReadWriteWrite => "write_",
            _ => "",
        }
    }

    fn byte_count_rule_text(self) -> (s: &'static str)
        ensures
            s@ == self.byte_count_rule(),
    {
        match self {
            Span::WriteMultipleCoils => "ceil(qty/8)",
            Span::ReadWriteWrite => "write_qty*2",
            _ => "qty*2",
        }
    }
}

impl ByteCountField {
    /// What messages call the field.
    pub open spec fn name(self) -> Seq<char> {
        match self {
            ByteCountField::Response => "response byte count"@,
            ByteCountField::Coils => "coil byte count"@,
            ByteCountField::Registers => "write multiple reg byte count"@,
            ByteCountField::ReadWriteRegisters => "read-write reg byte count"@,
        }
    }

    fn name_text(self) -> (s: &'static str)
        ensures
            s@ == self.name(),
    {
        match self {
            ByteCountField::Response => "response byte count",
            ByteCountField::Coils => "coil byte count",
            ByteCountField::Registers => "write multiple reg byte count",
            ByteCountField::ReadWriteRegisters => "read-write reg byte count",
        }
    }
}

impl PduError {
    /// Whether the data ended too early, rather than breaking a rule.
    pub open spec fn is_eof(self) -> bool {
        match self {
            PduError::Truncated => true,
            PduError::TruncatedCoilData => true,
            PduError::TruncatedRegisterData => true,
            PduError::TruncatedReadWriteData => true,
            PduError::TruncatedResponse => true,
            PduError::TruncatedCoilResponse => true,
            PduError::TruncatedRegisterResponse => true,
            PduError::TruncatedReadWriteResponse => true,
            _ => false,
        }
    }

    /// The sort of error.
    pub fn kind(&self) -> (r: PduErrorKind)
        ensures
            r == if self.is_eof() {
                PduErrorKind::UnexpectedEof
            } else {
                PduErrorKind::InvalidData
            },
    {
        match self {
            PduError::Truncated => PduErrorKind::UnexpectedEof,
            PduError::TruncatedCoilData => PduErrorKind::UnexpectedEof,
            PduError::TruncatedRegisterData => PduErrorKind::UnexpectedEof,
            PduError::TruncatedReadWriteData => PduErrorKind::UnexpectedEof,
            PduError::TruncatedResponse => PduErrorKind::UnexpectedEof,
            PduError::TruncatedCoilResponse => PduErrorKind::UnexpectedEof,
            PduError::TruncatedRegisterResponse => PduErrorKind::UnexpectedEof,
            PduError::TruncatedReadWriteResponse => PduErrorKind::UnexpectedEof,
            _ => PduErrorKind::InvalidData,
        }
    }

    /// The message for the error.
    pub open spec fn message(self) -> Seq<char> {
        match self {
            PduError::Empty => "empty PDU"@,
            PduError::TruncatedException => "truncated exception PDU"@,
            PduError::Truncated => "truncated PDU"@,
            PduError::TruncatedCoilData => "truncated coil data"@,
            PduError::TruncatedRegisterData => "truncated register data"@,
            PduError::TruncatedReadWriteData => "truncated R/W register data"@,
            PduError::TruncatedResponse => "truncated response PDU"@,
            PduError::TruncatedCoilResponse => "truncated coil response"@,
            PduError::TruncatedRegisterResponse => "truncated register response"@,
            PduError::TruncatedReadWriteResponse => "truncated R/W response"@,
            PduError::QuantityOutOfRange(span, qty, max) => span.request_name() + ": "@
                + span.field_prefix() + "qty "@ + text::decimal(qty as nat) + " not in 1..="@
                + text::decimal(max as nat),
            PduError::AddressOverflow(span, addr, qty) => span.request_name() + ": "@
                + span.field_prefix() + "addr "@ + text::decimal(addr as nat) + " + "@
                + span.field_prefix() + "qty "@ + text::decimal(qty as nat) + " exceeds 0xFFFF"@,
            PduError::InvalidCoilValue(raw) => "WriteSingleCoil: invalid coil value 0x"@
                + text::hex16(raw) + ", expected 0xFF00 or 0x0000"@,
            PduError::ByteCountMismatch(span, found, expected) => span.request_name()
                + ": byte_count "@ + text::decimal(found as nat) + " != "@ + span.byte_count_rule()
                + " ("@ + text::decimal(expected as nat) + ")"@,
            PduError::UnknownFunctionCode(fc) => "unknown function code: 0x"@ + text::hex8(fc),
            PduError::UnknownResponseFunctionCode(fc) => "unknown response function code: "@
                + text::decimal(fc as nat),
            PduError::OddRegisterByteCount(n) => "register response: byte_count "@ + text::decimal(
                n as nat,
            ) + " is not even"@,
            PduError::OddReadWriteByteCount(
                n,
            ) => "ReadWriteMultipleRegisters response: byte_count "@ + text::decimal(n as nat)
                + " is not even"@,
            PduError::ByteCountOverflow(field, n) => field.name() + ": value "@ + text::decimal(
                n as nat,
            ) + " exceeds u8 range"@,
            PduError::ResponseTooLarge => "response too large"@,
            PduError::PduTooLarge(n) => "PDU size "@ + text::decimal(n as nat)
                + " exceeds Modbus limit of "@ + text::decimal(super::MAX_PDU_SIZE as nat),
        }
    }

    /// The message for the error.
    pub fn to_string(&self) -> (s: String)
        ensures
            s@ == self.message(),
    {
        let mut s = String::new();
        match *self {
            PduError::Empty => s.append("empty PDU"),
            PduError::TruncatedException => s.append("truncated exception PDU"),
            PduError::Truncated => s.append("truncated PDU"),
            PduError::TruncatedCoilData => s.append("truncated coil data"),
            PduError::TruncatedRegisterData => s.append("truncated register data"),
            PduError::TruncatedReadWriteData => s.append("truncated R/W register data"),
            PduError::TruncatedResponse => s.append("truncated response PDU"),
            PduError::TruncatedCoilResponse => s.append("truncated coil response"),
            PduError::TruncatedRegisterResponse => s.append("truncated register response"),
            PduError::TruncatedReadWriteResponse => s.append("truncated R/W response"),
            PduError::QuantityOutOfRange(span, qty, max) => {
                s.append(span.request_name_text());
                s.append(": ");
                s.append(span.field_prefix_text());
                s.append("qty ");
                text::push_decimal(&mut s, qty as u128);
                s.append(" not in 1..=");
                text::push_decimal(&mut s, max as u128);
            },
            PduError::AddressOverflow(span, addr, qty) => {
                s.append(span.request_name_text());
                s.append(": ");
                s.append(span.field_prefix_text());
                s.append("addr ");
                text::push_decimal(&mut s, addr as u128);
                s.append(" + ");
                s.append(span.field_prefix_text());
                s.append("qty ");
                text::push_decimal(&mut s, qty as u128);
                s.append(" exceeds 0xFFFF");
            },
            PduError::InvalidCoilValue(raw) => {
                s.append("WriteSingleCoil: invalid coil value 0x");
                text::push_hex16(&mut s, raw);
                s.append(", expected 0xFF00 or 0x0000");
            },
            PduError::ByteCountMismatch(span, found, expected) => {
                s.append(span.request_name_text());
                s.append(": byte_count ");
                text::push_decimal(&mut s, found as u128);
                s.append(" != ");
                s.append(span.byte_count_rule_text());
                s.append(" (");
                text::push_decimal(&mut s, expected as u128);
                s.append(")");
            },
            PduError::UnknownFunctionCode(fc) => {
                s.append("unknown function code: 0x");
                text::push_hex8(&mut s, fc);
            },
            PduError::UnknownResponseFunctionCode(fc) => {
                s.append("unknown response function code: ");
                text::push_decimal(&mut s, fc as u128);
            },
            PduError::OddRegisterByteCount(n) => {
                s.append("register response: byte_count ");
                text::push_decimal(&mut s, n as u128);
                s.append(" is not even");
            },
            PduError::OddReadWriteByteCount(n) => {
                s.append("ReadWriteMultipleRegisters response: byte_count ");
                text::push_decimal(&mut s, n as u128);
                s.append(" is not even");
            },
            PduError::ByteCountOverflow(field, n) => {
                s.append(field.name_text());
                s.append(": value ");
                text::push_decimal(&mut s, n);
                s.append(" exceeds u8 range");
            },
            PduError::ResponseTooLarge => s.append("response too large"),
            PduError::PduTooLarge(n) => {
                s.append("PDU size ");
                text::push_decimal(&mut s, n as u128);
                s.append(" exceeds Modbus limit of ");
                text::push_decimal(&mut s, super::MAX_PDU_SIZE as u128);
            },
        }
        assert(s@ =~= self.message());
        s
    }
}

} // verus!
