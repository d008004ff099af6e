//! Errors of clients and transports, and the texts that describe them.

use vstd::prelude::*;

use crate::frame::{ExceptionResponse, Response};
use crate::text;

pub mod laws;

verus! {

// ── Labels ──────────────────────────────────────────────────────────────

pub const ERR_OK: &'static str = "OK";
pub const ERR_TIMEOUT: &'static str = "TIMEOUT";
pub const ERR_CONNECTION: &'static str = "CONNECTION ERROR";
pub const ERR_PROTOCOL: &'static str = "PROTOCOL ERROR";
pub const ERR_EXCEPTION: &'static str = "MODBUS EXCEPTION";
pub const ERR_SERIAL: &'static str = "PORT ERROR";
pub const ERR_OTHER: &'static str = "ERROR";

// ── Prefixes of detailed messages ───────────────────────────────────────

pub const TIMEOUT_PREFIX: &'static str = "TIMEOUT:";
pub const CONNECTION_PREFIX: &'static str = "CONNECTION ERROR:";
pub const PROTOCOL_PREFIX: &'static str = "PROTOCOL ERROR:";
pub const PORT_PREFIX: &'static str = "PORT ERROR:";

// ── Exception names ─────────────────────────────────────────────────────

pub const EXN_ILLEGAL_FUNCTION: &'static str = "Illegal Function";
pub const EXN_ILLEGAL_DATA_ADDRESS: &'static str = "Illegal Data Address";
pub const EXN_ILLEGAL_DATA_VALUE: &'static str = "Illegal Data Value";
pub const EXN_SERVER_DEVICE_FAILURE: &'static str = "Server Device Failure";
pub const EXN_ACKNOWLEDGE: &'static str = "Acknowledge";
pub const EXN_SERVER_DEVICE_BUSY: &'static str = "Server Device Busy";
pub const EXN_NEGATIVE_ACKNOWLEDGE: &'static str = "Negative Acknowledge";
pub const EXN_MEMORY_PARITY_ERROR: &'static str = "Memory Parity Error";
pub const EXN_GATEWAY_PATH_UNAVAILABLE: &'static str = "Gateway Path Unavailable";
pub const EXN_GATEWAY_TARGET_FAILED: &'static str = "Gateway Target Device Failed to Respond";
pub const EXN_UNKNOWN: &'static str = "Unknown Exception";

// ── Transport messages ──────────────────────────────────────────────────

/// A frame was not sent in time, over any transport.
pub const SEND_TIMEOUT: &'static str = "send timed out";
/// A frame did not arrive in time, over any transport.
pub const RECV_TIMEOUT: &'static str = "recv timed out";

pub const TCP_SEND_TIMEOUT: &'static str = "TCP send timed out";
pub const TCP_RECV_TIMEOUT: &'static str = "TCP recv timed out";
pub const TCP_SEND_ERROR: &'static str = "TCP send:";
pub const TCP_RECV_ERROR: &'static str = "TCP recv:";
pub const CONN_CLOSED: &'static str = "connection closed";
pub const TCP_EMPTY_RESP: &'static str = "empty TCP response PDU";

pub const RTU_SEND_TIMEOUT: &'static str = "RTU send timed out";
pub const RTU_RECV_TIMEOUT: &'static str = "RTU recv timed out";
pub const RTU_SEND_ERROR: &'static str = "RTU send:";
pub const RTU_RECV_ERROR: &'static str = "RTU recv:";
pub const RTU_EMPTY_RESP: &'static str = "empty RTU response";

pub const ASCII_SEND_TIMEOUT: &'static str = "ASCII send timed out";
pub const ASCII_RECV_TIMEOUT: &'static str = "ASCII recv timed out";
pub const ASCII_SEND_ERROR: &'static str = "ASCII send:";
pub const ASCII_RECV_ERROR: &'static str = "ASCII recv:";
pub const ASCII_EMPTY_RESP: &'static str = "empty ASCII response";

pub const PDU_ENCODE_ERROR: &'static str = "PDU encode:";
pub const PDU_DECODE_ERROR: &'static str = "PDU decode:";
pub const SLAVE_ID_MISMATCH: &'static str = "slave ID mismatch: expected";

/// What went wrong with a Modbus transaction.
///
/// [`label`](ModbusError::label) gives a short tag for a status bar,
/// [`detail`](ModbusError::detail) the full message for a log.
#[derive(Debug, PartialEq)]
#[non_exhaustive]
pub enum ModbusError {
    /// No error: the normal, expected response.
    NoError,
    Timeout(String),
    Connection(String),
    Protocol(String),
    /// The server answered with an exception.
    Exception { function: u8, code: u8 },
    Serial(String),
    Other(String),
}

/// The data of a [`ModbusError`], with the messages as character sequences.
#[verifier::ext_equal]
pub enum ErrorView {
    NoError,
    Timeout(Seq<char>),
    Connection(Seq<char>),
    Protocol(Seq<char>),
    Exception { function: u8, code: u8 },
    Serial(Seq<char>),
    Other(Seq<char>),
}

impl View for ModbusError {
    type V = ErrorView;

    open spec fn view(&self) -> ErrorView {
        match *self {
            ModbusError::NoError => ErrorView::NoError,
            ModbusError::Timeout(m) => ErrorView::Timeout(m@),
            ModbusError::Connection(m) => ErrorView::Connection(m@),
            ModbusError::Protocol(m) => ErrorView::Protocol(m@),
            ModbusError::Exception { function, code } => ErrorView::Exception { function, code },
            ModbusError::Serial(m) => ErrorView::Serial(m@),
            ModbusError::Other(m) => ErrorView::Other(m@),
        }
    }
}

/// The sorts of input and output failure that are told apart.
#[derive(Debug, Clone, Copy, PartialEq, Eq, Structural)]
pub enum IoFailure {
    TimedOut,
    WouldBlock,
    ConnectionRefused,
    ConnectionReset,
    ConnectionAborted,
    BrokenPipe,
    NotConnected,
    Other,
}

/// `String::from` copies a string slice.
pub assume_specification<'a>[ <String as From<&'a str>>::from ](s: &str) -> (r: String)
    ensures
        r@ == s@,
;

/// The name of an exception code.
pub open spec fn exception_title(code: u8) -> Seq<char> {
    if code == 1 {
        EXN_ILLEGAL_FUNCTION@
    } else if code == 2 {
        EXN_ILLEGAL_DATA_ADDRESS@
    } else if code == 3 {
        EXN_ILLEGAL_DATA_VALUE@
    } else if code == 4 {
        EXN_SERVER_DEVICE_FAILURE@
    } else if code == 5 {
        EXN_ACKNOWLEDGE@
    } else if code == 6 {
        EXN_SERVER_DEVICE_BUSY@
    } else if code == 7 {
        EXN_NEGATIVE_ACKNOWLEDGE@
    } else if code == 8 {
        EXN_MEMORY_PARITY_ERROR@
    } else if code == 10 {
        EXN_GATEWAY_PATH_UNAVAILABLE@
    } else if code == 11 {
        EXN_GATEWAY_TARGET_FAILED@
    } else {
        EXN_UNKNOWN@
    }
}

/// The name of an exception code.
fn exception_name(code: u8) -> (s: &'static str)
    ensures
        s@ == exception_title(code),
{
    match code {
        1 => EXN_ILLEGAL_FUNCTION,
        2 => EXN_ILLEGAL_DATA_ADDRESS,
        3 => EXN_ILLEGAL_DATA_VALUE,
        4 => EXN_SERVER_DEVICE_FAILURE,
        5 => EXN_ACKNOWLEDGE,
        6 => EXN_SERVER_DEVICE_BUSY,
        7 => EXN_NEGATIVE_ACKNOWLEDGE,
        8 => EXN_MEMORY_PARITY_ERROR,
        10 => EXN_GATEWAY_PATH_UNAVAILABLE,
        11 => EXN_GATEWAY_TARGET_FAILED,
        _ => EXN_UNKNOWN,
    }
}

/// A prefix, a space and a message.
fn prefixed(prefix: &str, message: &str) -> (s: String)
    ensures
        s@ == prefix@ + " "@ + message@,
{
    let mut s = prefix.to_owned();
    s.append(" ");
    s.append(message);
    s
}

impl ErrorView {
    /// The short tag for the error.
    pub open spec fn label(self) -> Seq<char> {
        match self {
            ErrorView::NoError => ERR_OK@,
            ErrorView::Timeout(_) => ERR_TIMEOUT@,
            ErrorView::Connection(_) => ERR_CONNECTION@,
            ErrorView::Protocol(_) => ERR_PROTOCOL@,
            ErrorView::Exception { .. } => ERR_EXCEPTION@,
            ErrorView::Serial(_) => ERR_SERIAL@,
            ErrorView::Other(_) => ERR_OTHER@,
        }
    }

    /// The short summary of the error.
    pub open spec fn summary(self) -> Seq<char> {
        match self {
            ErrorView::Exception { function: _, code } => exception_title(code) + " (code="@
                + text::decimal(code as nat) + ")"@,
            ErrorView::Other(m) => m,
            _ => self.label(),
        }
    }

    /// The full message for the error.
    pub open spec fn detail(self) -> Seq<char> {
        match self {
            ErrorView::NoError => "OK"@,
            ErrorView::Timeout(m) => TIMEOUT_PREFIX@ + " "@ + m,
            ErrorView::Connection(m) => CONNECTION_PREFIX@ + " "@ + m,
            ErrorView::Protocol(m) => PROTOCOL_PREFIX@ + " "@ + m,
            ErrorView::Exception { function, code } => exception_title(code) + " (FC="@
                + text::decimal(function as nat) + ", code="@ + text::decimal(code as nat) + ")"@,
            ErrorView::Serial(m) => PORT_PREFIX@ + " "@ + m,
            ErrorView::Other(m) => m,
        }
    }

    /// The error that an input or output failure is reported as.
    pub open spec fn of_io(kind: IoFailure, message: Seq<char>) -> ErrorView {
        match kind {
            IoFailure::TimedOut => ErrorView::Timeout(message),
            IoFailure::WouldBlock => ErrorView::Timeout(message),
            IoFailure::Other => ErrorView::Other(message),
            _ => ErrorView::Connection(message),
        }
    }
}

impl Clone for ModbusError {
    fn clone(&self) -> (r: Self)
        ensures
            r@ == self@,
    {
        match self {
            ModbusError::NoError => ModbusError::NoError,
            ModbusError::Timeout(m) => ModbusError::Timeout(m.clone()),
            ModbusError::Connection(m) => ModbusError::Connection(m.clone()),
            ModbusError::Protocol(m) => ModbusError::Protocol(m.clone()),
            ModbusError::Exception { function, code } => {
                ModbusError::Exception { function: *function, code: *code }
            },
            ModbusError::Serial(m) => ModbusError::Serial(m.clone()),
            ModbusError::Other(m) => ModbusError::Other(m.clone()),
        }
    }
}

impl ModbusError {
    /// A short summary: the label, or the exception, or the message of an
    /// uncategorised error.
    pub fn to_string(&self) -> (s: String)
        ensures
            s@ == self@.summary(),
    {
        match self {
            ModbusError::Exception { function: _, code } => {
                let mut s = exception_name(*code).to_owned();
                s.append(" (code=");
                text::push_decimal(&mut s, *code as u128);
                s.append(")");
                s
            },
            ModbusError::Other(m) => m.clone(),
            _ => self.label().to_owned(),
        }
    }

    /// The full message, for logs.
    pub fn detail(&self) -> (s: String)
        ensures
            s@ == self@.detail(),
    {
        match self {
            ModbusError::NoError => "OK".to_owned(),
            ModbusError::Timeout(m) => prefixed(TIMEOUT_PREFIX, m.as_str()),
            ModbusError::Connection(m) => prefixed(CONNECTION_PREFIX, m.as_str()),
            ModbusError::Protocol(m) => prefixed(PROTOCOL_PREFIX, m.as_str()),
            ModbusError::Exception { function, code } => {
                let mut s = exception_name(*code).to_owned();
                s.append(" (FC=");
                text::push_decimal(&mut s, *function as u128);
                s.append(", code=");
                text::push_decimal(&mut s, *code as u128);
                s.append(")");
                s
            },
            ModbusError::Serial(m) => prefixed(PORT_PREFIX, m.as_str()),
            ModbusError::Other(m) => m.clone(),
        }
    }

    /// A short tag, for a status bar or an error column.
    pub fn label(&self) -> (s: &'static str)
        ensures
            s@ == self@.label(),
    {
        match self {
            ModbusError::NoError => ERR_OK,
            ModbusError::Timeout(_) => ERR_TIMEOUT,
            ModbusError::Connection(_) => ERR_CONNECTION,
            ModbusError::Protocol(_) => ERR_PROTOCOL,
            ModbusError::Exception { .. } => ERR_EXCEPTION,
            ModbusError::Serial(_) => ERR_SERIAL,
            ModbusError::Other(_) => ERR_OTHER,
        }
    }

    /// The absence of an error.
    pub fn no_error() -> (r: Self)
        ensures
            r@ == ErrorView::NoError,
    {
        ModbusError::NoError
    }

    /// A frame was not sent or received in time.
    pub fn timeout<T: Into<String>>(msg: T) -> (r: Self)
        ensures
            exists|m: String|
                r == ModbusError::Timeout(m) && #[trigger] call_ensures(T::into, (msg,), m),
    {
        ModbusError::Timeout(msg.into())
    }

    /// A connection could not be made, or failed.
    pub fn connection<T: Into<String>>(msg: T) -> (r: Self)
        ensures
            exists|m: String|
                r == ModbusError::Connection(m) && #[trigger] call_ensures(T::into, (msg,), m),
    {
        ModbusError::Connection(msg.into())
    }

    /// A frame broke the rules of the protocol.
    pub fn protocol<T: Into<String>>(msg: T) -> (r: Self)
        ensures
            exists|m: String|
                r == ModbusError::Protocol(m) && #[trigger] call_ensures(T::into, (msg,), m),
    {
        ModbusError::Protocol(msg.into())
    }

    /// The server answered with an exception.
    pub fn exception(function: u8, code: u8) -> (r: Self)
        ensures
            r@ == (ErrorView::Exception { function, code }),
    {
        ModbusError::Exception { function, code }
    }

    /// A serial port could not be opened, or failed.
    pub fn serial<T: Into<String>>(msg: T) -> (r: Self)
        ensures
            exists|m: String|
                r == ModbusError::Serial(m) && #[trigger] call_ensures(T::into, (msg,), m),
    {
        ModbusError::Serial(msg.into())
    }

    /// Any other failure.
    pub fn other<T: Into<String>>(msg: T) -> (r: Self)
        ensures
            exists|m: String|
                r == ModbusError::Other(m) && #[trigger] call_ensures(T::into, (msg,), m),
    {
        ModbusError::Other(msg.into())
    }

    /// The error for an input or output failure with the given message.
    pub fn from_io(kind: IoFailure, message: String) -> (r: Self)
        ensures
            r@ == ErrorView::of_io(kind, message@),
    {
        match kind {
            IoFailure::TimedOut | IoFailure::WouldBlock => ModbusError::Timeout(message),
            IoFailure::ConnectionRefused | IoFailure::ConnectionReset
            | IoFailure::ConnectionAborted | IoFailure::BrokenPipe | IoFailure::NotConnected => {
                ModbusError::Connection(message)
            },
            IoFailure::Other => ModbusError::Other(message),
        }
    }
}

impl From<String> for ModbusError {
    fn from(s: String) -> Self {
        ModbusError::Other(s)
    }
}

impl vstd::std_specs::convert::FromSpecImpl<String> for ModbusError {
    open spec fn obeys_from_spec() -> bool {
        true
    }

    open spec fn from_spec(s: String) -> ModbusError {
        ModbusError::Other(s)
    }
}

impl From<ExceptionResponse> for ModbusError {
    fn from(er: ExceptionResponse) -> Self {
        ModbusError::exception(er.function.value(), u8::from(er.exception))
    }
}

impl vstd::std_specs::convert::FromSpecImpl<ExceptionResponse> for ModbusError {
    open spec fn obeys_from_spec() -> bool {
        true
    }

    open spec fn from_spec(er: ExceptionResponse) -> ModbusError {
        ModbusError::Exception { function: er.function.code(), code: er.exception.code() }
    }
}

impl From<Response> for ModbusError {
    /// The error for a response that arrived where an error was expected: the
    /// exception that it carries, or a protocol error that shows it.
    fn from(rsp: Response) -> (r: Self)
        ensures
            r@ == match rsp@ {
                crate::frame::ResponseView::Exception(fc, ex) => ErrorView::Exception {
                    function: fc,
                    code: ex.code(),
                },
                other => ErrorView::Protocol(
                    "unexpected success response in error context: "@ + other.debug_text(),
                ),
            },
    {
        match rsp {
            Response::Exception(fc, ex) => ModbusError::exception(fc, u8::from(ex)),
            other => {
                let mut s = "unexpected success response in error context: ".to_owned();
                s.append(other.to_debug_string().as_str());
                ModbusError::Protocol(s)
            },
        }
    }
}

impl vstd::std_specs::convert::FromSpecImpl<Response> for ModbusError {
    open spec fn obeys_from_spec() -> bool {
        false
    }

    open spec fn from_spec(rsp: Response) -> ModbusError {
        arbitrary()
    }
}

} // verus!
