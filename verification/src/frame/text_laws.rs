//! What exceptions, responses and errors are called.

use vstd::prelude::*;

use super::{ByteCountField, Exception, ExceptionResponse, PduError, ResponseView, Span};
use crate::text;

verus! {

/// Each exception is told by the words of the protocol, by number where it has none.
pub proof fn law_exception_texts(n: u8)
    ensures
        Exception::of_code(1).description() == "Illegal function"@,
        Exception::of_code(2).description() == "Illegal data address"@,
        Exception::of_code(3).description() == "Illegal data value"@,
        Exception::of_code(4).description() == "Server device failure"@,
        Exception::of_code(5).description() == "Acknowledge"@,
        Exception::of_code(6).description() == "Server device busy"@,
        Exception::of_code(7).description() == "Negative acknowledge"@,
        Exception::of_code(8).description() == "Memory parity error"@,
        Exception::of_code(10).description() == "Gateway path unavailable"@,
        Exception::of_code(11).description() == "Gateway target device failed to respond"@,
        Exception::Custom(n).description() == "Custom("@ + text::decimal(n as nat) + ")"@,
        Exception::of_code(1).debug_text() == "IllegalFunction"@,
        Exception::of_code(2).debug_text() == "IllegalDataAddress"@,
        Exception::of_code(3).debug_text() == "IllegalDataValue"@,
        Exception::of_code(4).debug_text() == "ServerDeviceFailure"@,
        Exception::of_code(5).debug_text() == "Acknowledge"@,
        Exception::of_code(6).debug_text() == "ServerDeviceBusy"@,
        Exception::of_code(7).debug_text() == "NegativeAcknowledge"@,
        Exception::of_code(8).debug_text() == "MemoryParityError"@,
        Exception::of_code(10).debug_text() == "GatewayPathUnavailable"@,
        Exception::of_code(11).debug_text() == "GatewayTargetDeviceFailedToRespond"@,
        Exception::Custom(n).debug_text() == "Custom("@ + text::decimal(n as nat) + ")"@,
{
}

/// An exception reply is told by its exception and the function it answers.
pub proof fn law_exception_response_text(e: ExceptionResponse)
    ensures
        e.message() == "Modbus exception "@ + e.exception.debug_text()
            + " for function FunctionCode("@ + text::decimal(e.function.code() as nat) + ")"@,
{
}

/// A list of words stands between brackets, and each further word behind a comma.
pub proof fn law_word_list_text(v: Seq<u16>, x: u16)
    ensures
        super::word_list(Seq::empty()) == "["@ + Seq::<char>::empty() + "]"@,
        super::word_list(v) == "["@ + super::word_items(v) + "]"@,
        v.len() == 0 ==> super::word_items(v.push(x)) == text::decimal(x as nat),
        v.len() > 0 ==> super::word_items(v.push(x)) == super::word_items(v) + ", "@
            + text::decimal(x as nat),
{
    assert(v.push(x).drop_last() =~= v);
}

/// A list of switches stands between brackets, and each further one behind a comma.
pub proof fn law_bool_list_text(v: Seq<bool>, x: bool)
    ensures
        super::bool_list(Seq::empty()) == "["@ + Seq::<char>::empty() + "]"@,
        super::bool_list(v) == "["@ + super::bool_items(v) + "]"@,
        v.len() == 0 ==> super::bool_items(v.push(x)) == (if x {
            "true"@
        } else {
            "false"@
        }),
        v.len() > 0 ==> super::bool_items(v.push(x)) == super::bool_items(v) + ", "@ + (if x {
            "true"@
        } else {
            "false"@
        }),
{
    assert(v.push(x).drop_last() =~= v);
}

/// A response is told by its name and its fields in order.
pub proof fn law_response_text(rsp: ResponseView)
    ensures
        rsp.debug_text() == match rsp {
            ResponseView::ReadCoils(v) => "ReadCoils("@ + super::bool_list(v) + ")"@,
            ResponseView::ReadDiscreteInputs(v) => "ReadDiscreteInputs("@ + super::bool_list(v)
                + ")"@,
            ResponseView::ReadHoldingRegisters(v) => "ReadHoldingRegisters("@ + super::word_list(v)
                + ")"@,
            ResponseView::ReadInputRegisters(v) => "ReadInputRegisters("@ + super::word_list(v)
                + ")"@,
            ResponseView::ReadWriteMultipleRegisters(v) => "ReadWriteMultipleRegisters("@
                + super::word_list(v) + ")"@,
            ResponseView::WriteSingleCoil(a, on) => "WriteSingleCoil("@ + text::decimal(a as nat)
                + ", "@ + (if on {
                "true"@
            } else {
                "false"@
            }) + ")"@,
            ResponseView::WriteSingleRegister(a, v) => "WriteSingleRegister("@ + text::decimal(
                a as nat,
            ) + ", "@ + text::decimal(v as nat) + ")"@,
            ResponseView::WriteMultipleCoils(a, q) => "WriteMultipleCoils("@ + text::decimal(
                a as nat,
            ) + ", "@ + text::decimal(q as nat) + ")"@,
            ResponseView::WriteMultipleRegisters(a, q) => "WriteMultipleRegisters("@
                + text::decimal(a as nat) + ", "@ + text::decimal(q as nat) + ")"@,
            ResponseView::MaskWriteRegister(a, m, o) => "MaskWriteRegister("@ + text::decimal(
                a as nat,
            ) + ", "@ + text::decimal(m as nat) + ", "@ + text::decimal(o as nat) + ")"@,
            ResponseView::Diagnostic(sf, d) => "Diagnostic("@ + text::decimal(sf as nat) + ", "@
                + text::decimal(d as nat) + ")"@,
            ResponseView::Exception(fc, e) => "Exception("@ + text::decimal(fc as nat) + ", "@
                + e.debug_text() + ")"@,
        },
{
    match rsp {
        ResponseView::WriteSingleRegister(a, v) => {
            lemma_pair("WriteSingleRegister("@, a, v, ")"@);
        },
        ResponseView::WriteMultipleCoils(a, v) => {
            lemma_pair("WriteMultipleCoils("@, a, v, ")"@);
        },
        ResponseView::WriteMultipleRegisters(a, v) => {
            lemma_pair("WriteMultipleRegisters("@, a, v, ")"@);
        },
        ResponseView::MaskWriteRegister(a, m, o) => {
            lemma_pair("MaskWriteRegister("@, a, m, ", "@);
        },
        ResponseView::Diagnostic(sf, d) => {
            lemma_pair("Diagnostic("@, sf, d, ")"@);
        },
        _ => {},
    }
}

/// A pair between two texts.
proof fn lemma_pair(open: Seq<char>, a: u16, b: u16, close: Seq<char>)
    ensures
        open + super::word_pair(a, b) + close == open + text::decimal(a as nat) + ", "@
            + text::decimal(b as nat) + close,
{
    assert(open + super::word_pair(a, b) =~= open + text::decimal(a as nat) + ", "@
        + text::decimal(b as nat));
}

/// Which errors are for bytes that are missing.
pub proof fn law_missing_bytes(e: PduError)
    ensures
        e.is_eof() == (e == PduError::Truncated || e == PduError::TruncatedCoilData || e
            == PduError::TruncatedRegisterData || e == PduError::TruncatedReadWriteData || e
            == PduError::TruncatedResponse || e == PduError::TruncatedCoilResponse || e
            == PduError::TruncatedRegisterResponse || e == PduError::TruncatedReadWriteResponse),
{
}

/// The request that a field belongs to.
pub proof fn law_field_names(span: Span, field: ByteCountField)
    ensures
        span.request_name() == match span {
            Span::ReadCoils => "ReadCoils"@,
            Span::ReadDiscreteInputs => "ReadDiscreteInputs"@,
            Span::ReadHoldingRegisters => "ReadHoldingRegisters"@,
            Span::ReadInputRegisters => "ReadInputRegisters"@,
            Span::WriteMultipleCoils => "WriteMultipleCoils"@,
            Span::WriteMultipleRegisters => "WriteMultipleRegisters"@,
            Span::ReadWriteRead => "ReadWriteMultipleRegisters"@,
            Span::ReadWriteWrite => "ReadWriteMultipleRegisters"@,
        },
        span.field_prefix() == (if span is ReadWriteRead {
            "read_"@
        } else if span is ReadWriteWrite {
            "write_"@
        } else {
            ""@
        }),
        span.byte_count_rule() == (if span is WriteMultipleCoils {
            "ceil(qty/8)"@
        } else if span is ReadWriteWrite {
            "write_qty*2"@
        } else {
            "qty*2"@
        }),
        field.name() == match field {
            ByteCountField::Response => "response byte count"@,
            ByteCountField::Coils => "coil byte count"@,
            ByteCountField::Registers => "write multiple reg byte count"@,
            ByteCountField::ReadWriteRegisters => "read-write reg byte count"@,
        },
{
}

/// Errors without a value are told by fixed words.
pub proof fn law_plain_error_texts()
    ensures
        PduError::Empty.message() == "empty PDU"@,
        PduError::TruncatedException.message() == "truncated exception PDU"@,
        PduError::Truncated.message() == "truncated PDU"@,
        PduError::TruncatedCoilData.message() == "truncated coil data"@,
        PduError::TruncatedRegisterData.message() == "truncated register data"@,
        PduError::TruncatedReadWriteData.message() == "truncated R/W register data"@,
        PduError::TruncatedResponse.message() == "truncated response PDU"@,
        PduError::TruncatedCoilResponse.message() == "truncated coil response"@,
        PduError::TruncatedRegisterResponse.message() == "truncated register response"@,
        PduError::TruncatedReadWriteResponse.message() == "truncated R/W response"@,
        PduError::ResponseTooLarge.message() == "response too large"@,
{
}

/// Errors about a field name the request, the field, its value and the rule.
pub proof fn law_field_error_texts(span: Span, x: u16, y: u16, b: u8)
    ensures
        PduError::QuantityOutOfRange(span, x, y).message() == span.request_name() + ": "@
            + span.field_prefix() + "qty "@ + text::decimal(x as nat) + " not in 1..="@
            + text::decimal(y as nat),
        PduError::AddressOverflow(span, x, y).message() == span.request_name() + ": "@
            + span.field_prefix() + "addr "@ + text::decimal(x as nat) + " + "@
            + span.field_prefix() + "qty "@ + text::decimal(y as nat) + " exceeds 0xFFFF"@,
        PduError::ByteCountMismatch(span, b, y).message() == span.request_name() + ": byte_count "@
            + text::decimal(b as nat) + " != "@ + span.byte_count_rule() + " ("@ + text::decimal(
            y as nat,
        ) + ")"@,
        PduError::InvalidCoilValue(x).message() == "WriteSingleCoil: invalid coil value 0x"@
            + text::hex16(x) + ", expected 0xFF00 or 0x0000"@,
{
}

/// Errors about a number tell the number.
pub proof fn law_number_error_texts(b: u8, field: ByteCountField, big: u128, n: usize)
    ensures
        PduError::UnknownFunctionCode(b).message() == "unknown function code: 0x"@ + text::hex8(b),
        PduError::UnknownResponseFunctionCode(b).message() == "unknown response function code: "@
            + text::decimal(b as nat),
        PduError::OddRegisterByteCount(b).message() == "register response: byte_count "@
            + text::decimal(b as nat) + " is not even"@,
        PduError::OddReadWriteByteCount(b).message()
            == "ReadWriteMultipleRegisters response: byte_count "@ + text::decimal(b as nat)
            + " is not even"@,
        PduError::ByteCountOverflow(field, big).message() == field.name() + ": value "@
            + text::decimal(big as nat) + " exceeds u8 range"@,
        PduError::PduTooLarge(n).message() == "PDU size "@ + text::decimal(n as nat)
            + " exceeds Modbus limit of "@ + text::decimal(253),
{
}

} // verus!
