//! What errors are called and which failures they stand for.

use vstd::prelude::*;

use super::{ErrorView, IoFailure, ModbusError};
use crate::frame::ExceptionResponse;
use crate::text;

verus! {

/// The view of an error is of its sort and holds its message.
pub proof fn law_error_view(e: ModbusError)
    ensures
        match e {
            ModbusError::NoError => e@ == ErrorView::NoError,
            ModbusError::Timeout(m) => e@ == ErrorView::Timeout(m@),
            ModbusError::Connection(m) => e@ == ErrorView::Connection(m@),
            ModbusError::Protocol(m) => e@ == ErrorView::Protocol(m@),
            ModbusError::Exception { function: f, code: c } => e@ matches ErrorView::Exception {
                function,
                code,
            } && function == f && code == c,
            ModbusError::Serial(m) => e@ == ErrorView::Serial(m@),
            ModbusError::Other(m) => e@ == ErrorView::Other(m@),
        },
{
}

/// Each sort of error has its label, and tells it as its summary except where there is
/// something more particular to tell.
pub proof fn law_labels(m: Seq<char>, f: u8, c: u8)
    ensures
        ErrorView::NoError.label() == "OK"@,
        ErrorView::Timeout(m).label() == "TIMEOUT"@,
        ErrorView::Connection(m).label() == "CONNECTION ERROR"@,
        ErrorView::Protocol(m).label() == "PROTOCOL ERROR"@,
        (ErrorView::Exception { function: f, code: c }).label() == "MODBUS EXCEPTION"@,
        ErrorView::Serial(m).label() == "PORT ERROR"@,
        ErrorView::Other(m).label() == "ERROR"@,
        ErrorView::NoError.summary() == "OK"@,
        ErrorView::Timeout(m).summary() == "TIMEOUT"@,
        ErrorView::Connection(m).summary() == "CONNECTION ERROR"@,
        ErrorView::Protocol(m).summary() == "PROTOCOL ERROR"@,
        ErrorView::Serial(m).summary() == "PORT ERROR"@,
        ErrorView::Other(m).summary() == m,
        (ErrorView::Exception { function: f, code: c }).summary() == super::exception_title(c)
            + " (code="@ + text::decimal(c as nat) + ")"@,
{
}

/// The detailed text holds the whole message behind the label of the sort, and both
/// numbers of an exception.
pub proof fn law_details(m: Seq<char>, f: u8, c: u8)
    ensures
        ErrorView::NoError.detail() == "OK"@,
        ErrorView::Timeout(m).detail() == "TIMEOUT:"@ + " "@ + m,
        ErrorView::Connection(m).detail() == "CONNECTION ERROR:"@ + " "@ + m,
        ErrorView::Protocol(m).detail() == "PROTOCOL ERROR:"@ + " "@ + m,
        ErrorView::Serial(m).detail() == "PORT ERROR:"@ + " "@ + m,
        ErrorView::Other(m).detail() == m,
        (ErrorView::Exception { function: f, code: c }).detail() == super::exception_title(c)
            + " (FC="@ + text::decimal(f as nat) + ", code="@ + text::decimal(c as nat) + ")"@,
{
}

/// Each exception number of the protocol has its title.
pub proof fn law_exception_titles(code: u8)
    ensures
        super::exception_title(1) == "Illegal Function"@,
        super::exception_title(2) == "Illegal Data Address"@,
        super::exception_title(3) == "Illegal Data Value"@,
        super::exception_title(4) == "Server Device Failure"@,
        super::exception_title(5) == "Acknowledge"@,
        super::exception_title(6) == "Server Device Busy"@,
        super::exception_title(7) == "Negative Acknowledge"@,
        super::exception_title(8) == "Memory Parity Error"@,
        super::exception_title(10) == "Gateway Path Unavailable"@,
        super::exception_title(11) == "Gateway Target Device Failed to Respond"@,
        code == 0 || code == 9 || code > 11 ==> super::exception_title(code)
            == "Unknown Exception"@,
{
}

/// A failed read or write is a timeout when it took too long, a lost connection when
/// the other side is gone, and otherwise told as it is.
pub proof fn law_io_failures(kind: IoFailure, m: Seq<char>)
    ensures
        ErrorView::of_io(kind, m) == match kind {
            IoFailure::TimedOut | IoFailure::WouldBlock => ErrorView::Timeout(m),
            IoFailure::ConnectionRefused | IoFailure::ConnectionReset
            | IoFailure::ConnectionAborted | IoFailure::BrokenPipe | IoFailure::NotConnected =>
                ErrorView::Connection(m),
            IoFailure::Other => ErrorView::Other(m),
        },
{
}

/// The conversions: a text is an error of no particular sort, and an exception reply
/// is an exception with its two numbers.
pub proof fn law_conversions(s: String, er: ExceptionResponse)
    ensures
        <ModbusError as vstd::std_specs::convert::FromSpec<String>>::obeys_from_spec(),
        <ModbusError as vstd::std_specs::convert::FromSpec<String>>::from_spec(s)
            == ModbusError::Other(s),
        <ModbusError as vstd::std_specs::convert::FromSpec<ExceptionResponse>>::obeys_from_spec(),
        <ModbusError as vstd::std_specs::convert::FromSpec<ExceptionResponse>>::from_spec(er)
            matches ModbusError::Exception { function, code } && function == er.function.code()
            && code == er.exception.code(),
{
}

/// The fixed words that errors are told with.
pub proof fn law_fixed_words()
    ensures
        super::ERR_OK@ == "OK"@,
        super::ERR_TIMEOUT@ == "TIMEOUT"@,
        super::ERR_CONNECTION@ == "CONNECTION ERROR"@,
        super::ERR_PROTOCOL@ == "PROTOCOL ERROR"@,
        super::ERR_EXCEPTION@ == "MODBUS EXCEPTION"@,
        super::ERR_SERIAL@ == "PORT ERROR"@,
        super::ERR_OTHER@ == "ERROR"@,
        super::TIMEOUT_PREFIX@ == "TIMEOUT:"@,
        super::CONNECTION_PREFIX@ == "CONNECTION ERROR:"@,
        super::PROTOCOL_PREFIX@ == "PROTOCOL ERROR:"@,
        super::PORT_PREFIX@ == "PORT ERROR:"@,
        super::SEND_TIMEOUT@ == "send timed out"@,
        super::RECV_TIMEOUT@ == "recv timed out"@,
        super::TCP_SEND_TIMEOUT@ == "TCP send timed out"@,
        super::TCP_RECV_TIMEOUT@ == "TCP recv timed out"@,
        super::TCP_SEND_ERROR@ == "TCP send:"@,
        super::TCP_RECV_ERROR@ == "TCP recv:"@,
        super::CONN_CLOSED@ == "connection closed"@,
        super::TCP_EMPTY_RESP@ == "empty TCP response PDU"@,
        super::RTU_SEND_TIMEOUT@ == "RTU send timed out"@,
        super::RTU_RECV_TIMEOUT@ == "RTU recv timed out"@,
        super::RTU_SEND_ERROR@ == "RTU send:"@,
        super::RTU_RECV_ERROR@ == "RTU recv:"@,
        super::RTU_EMPTY_RESP@ == "empty RTU response"@,
        super::ASCII_SEND_TIMEOUT@ == "ASCII send timed out"@,
        super::ASCII_RECV_TIMEOUT@ == "ASCII recv timed out"@,
        super::ASCII_SEND_ERROR@ == "ASCII send:"@,
        super::ASCII_RECV_ERROR@ == "ASCII recv:"@,
        super::ASCII_EMPTY_RESP@ == "empty ASCII response"@,
        super::PDU_ENCODE_ERROR@ == "PDU encode:"@,
        super::PDU_DECODE_ERROR@ == "PDU decode:"@,
        super::SLAVE_ID_MISMATCH@ == "slave ID mismatch: expected"@,
{
}

} // verus!
