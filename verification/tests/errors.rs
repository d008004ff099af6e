//! Errors and their texts.

use oms_modbus::error::IoFailure;
use oms_modbus::reconnect::is_retryable;
use oms_modbus::{Exception, ExceptionResponse, FunctionCode, ModbusError, Response};

#[test]
fn labels_summaries_and_details() {
    let cases = vec![
        (ModbusError::no_error(), "OK", "OK", "OK"),
        (ModbusError::timeout("slow"), "TIMEOUT", "TIMEOUT", "TIMEOUT: slow"),
        (
            ModbusError::connection("gone"),
            "CONNECTION ERROR",
            "CONNECTION ERROR",
            "CONNECTION ERROR: gone",
        ),
        (
            ModbusError::protocol("bad"),
            "PROTOCOL ERROR",
            "PROTOCOL ERROR",
            "PROTOCOL ERROR: bad",
        ),
        (
            ModbusError::exception(3, 2),
            "MODBUS EXCEPTION",
            "Illegal Data Address (code=2)",
            "Illegal Data Address (FC=3, code=2)",
        ),
        (
            ModbusError::serial(String::from("unplugged")),
            "PORT ERROR",
            "PORT ERROR",
            "PORT ERROR: unplugged",
        ),
        (ModbusError::other("huh"), "ERROR", "huh", "huh"),
    ];
    for (e, label, summary, detail) in cases {
        assert_eq!(e.label(), label);
        assert_eq!(e.to_string(), summary);
        assert_eq!(e.detail(), detail);
        assert_eq!(e.clone(), e);
    }
}

#[test]
fn every_exception_has_a_title() {
    let titles = [
        (1, "Illegal Function"),
        (2, "Illegal Data Address"),
        (3, "Illegal Data Value"),
        (4, "Server Device Failure"),
        (5, "Acknowledge"),
        (6, "Server Device Busy"),
        (7, "Negative Acknowledge"),
        (8, "Memory Parity Error"),
        (9, "Unknown Exception"),
        (10, "Gateway Path Unavailable"),
        (11, "Gateway Target Device Failed to Respond"),
        (255, "Unknown Exception"),
    ];
    for (code, title) in titles {
        assert_eq!(
            ModbusError::exception(1, code).to_string(),
            format!("{title} (code={code})")
        );
    }
}

#[test]
fn io_failures_are_sorted() {
    let m = || String::from("io");
    for kind in [IoFailure::TimedOut, IoFailure::WouldBlock] {
        assert_eq!(ModbusError::from_io(kind, m()), ModbusError::timeout("io"));
    }
    for kind in [
        IoFailure::ConnectionRefused,
        IoFailure::ConnectionReset,
        IoFailure::ConnectionAborted,
        IoFailure::BrokenPipe,
        IoFailure::NotConnected,
    ] {
        assert_eq!(
            ModbusError::from_io(kind, m()),
            ModbusError::connection("io")
        );
    }
    assert_eq!(
        ModbusError::from_io(IoFailure::Other, m()),
        ModbusError::other("io")
    );
}

#[test]
fn only_transport_failures_are_worth_a_retry() {
    assert!(is_retryable(&ModbusError::connection("x")));
    assert!(is_retryable(&ModbusError::serial("x")));
    assert!(!is_retryable(&ModbusError::timeout("x")));
    assert!(!is_retryable(&ModbusError::protocol("x")));
    assert!(!is_retryable(&ModbusError::exception(1, 1)));
    assert!(!is_retryable(&ModbusError::other("x")));
    assert!(!is_retryable(&ModbusError::no_error()));
}

#[test]
fn errors_are_made_of_other_things() {
    assert_eq!(
        ModbusError::from(String::from("text")),
        ModbusError::other("text")
    );
    let reply = ExceptionResponse {
        function: FunctionCode::new(6),
        exception: Exception::Custom(0x77),
    };
    assert_eq!(
        ModbusError::from(reply),
        ModbusError::exception(6, 0x77)
    );
    assert_eq!(
        ModbusError::from(Response::Exception(4, Exception::Acknowledge)),
        ModbusError::exception(4, 5)
    );
    assert_eq!(
        ModbusError::from(Response::ReadHoldingRegisters(vec![1, 2])),
        ModbusError::protocol(
            "unexpected success response in error context: ReadHoldingRegisters([1, 2])"
        )
    );
}
