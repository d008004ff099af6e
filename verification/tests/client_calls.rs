//! The calls of a client.

use std::cell::RefCell;

use oms_modbus::client::unexpected_response;
use oms_modbus::{
    Exception, ModbusClient, ModbusError, Request, Response, Service, SlaveStore,
};

/// A client next to a store.
struct Direct(RefCell<SlaveStore>);

impl ModbusClient for Direct {
    fn call(&self, slave: u8, request: Request<'_>) -> Result<Response, ModbusError> {
        let fc = request.function_code().value();
        self.0
            .borrow_mut()
            .call(slave, request)
            .or_else(|e| Ok(Response::Exception(fc, e)))
    }
}

/// A client that always gets the same reply.
struct Canned(Result<Response, ModbusError>);

impl ModbusClient for Canned {
    fn call(&self, _slave: u8, _request: Request<'_>) -> Result<Response, ModbusError> {
        self.0.clone()
    }
}

#[test]
fn every_call_reaches_the_store() {
    let client = Direct(RefCell::new(SlaveStore::new()));
    client.write_single_coil(1, 5, true).unwrap();
    client.write_multiple_coils(1, 6, &[true, false]).unwrap();
    assert_eq!(
        client.read_coils(1, 4, 5).unwrap(),
        vec![false, true, true, false, false]
    );
    assert_eq!(client.read_discrete_inputs(1, 0, 1).unwrap(), vec![false]);
    client.write_single_register(1, 0, 42).unwrap();
    client.write_multiple_registers(1, 1, &[43, 44]).unwrap();
    assert_eq!(
        client.read_holding_registers(1, 0, 3).unwrap(),
        vec![42, 43, 44]
    );
    assert_eq!(client.read_input_registers(1, 0, 2).unwrap(), vec![0, 0]);
    client.mask_write_register(1, 0, 0xFF0F, 0x0050).unwrap();
    assert_eq!(client.read_holding_registers(1, 0, 1).unwrap(), vec![0x005A]);
    assert_eq!(
        client
            .read_write_multiple_registers(1, 1, 2, 1, &[7])
            .unwrap(),
        vec![43, 44]
    );
    assert_eq!(client.read_holding_registers(1, 1, 1).unwrap(), vec![7]);
    assert_eq!(client.diagnostic(1, 0, 99).unwrap(), (0, 99));
}

#[test]
fn exceptions_become_errors() {
    let client = Direct(RefCell::new(SlaveStore::new()));
    assert_eq!(
        client.diagnostic(1, 0x99, 0).unwrap_err(),
        ModbusError::exception(8, 3)
    );
}

#[test]
fn replies_of_the_wrong_sort_are_refused() {
    let wrong = || Canned(Ok(Response::Diagnostic(1, 2)));
    let e = ModbusError::protocol("unexpected response: Diagnostic(1, 2)");
    assert_eq!(wrong().read_coils(1, 0, 1).unwrap_err(), e);
    assert_eq!(wrong().read_discrete_inputs(1, 0, 1).unwrap_err(), e);
    assert_eq!(wrong().read_holding_registers(1, 0, 1).unwrap_err(), e);
    assert_eq!(wrong().read_input_registers(1, 0, 1).unwrap_err(), e);
    assert_eq!(wrong().write_single_coil(1, 0, true).unwrap_err(), e);
    assert_eq!(wrong().write_single_register(1, 0, 1).unwrap_err(), e);
    assert_eq!(wrong().write_multiple_coils(1, 0, &[true]).unwrap_err(), e);
    assert_eq!(wrong().write_multiple_registers(1, 0, &[1]).unwrap_err(), e);
    assert_eq!(wrong().mask_write_register(1, 0, 0, 0).unwrap_err(), e);
    assert_eq!(
        wrong()
            .read_write_multiple_registers(1, 0, 1, 0, &[1])
            .unwrap_err(),
        e
    );
    assert_eq!(
        Canned(Ok(Response::ReadCoils(vec![true])))
            .diagnostic(1, 0, 0)
            .unwrap_err(),
        ModbusError::protocol("unexpected response: ReadCoils([true])")
    );
}

#[test]
fn a_write_is_confirmed_only_by_its_echo() {
    let client = Canned(Ok(Response::WriteSingleRegister(1, 2)));
    assert!(client.write_single_register(1, 1, 2).is_ok());
    assert_eq!(
        client.write_single_register(1, 1, 3).unwrap_err(),
        ModbusError::protocol("unexpected response: WriteSingleRegister(1, 2)")
    );
    let client = Canned(Ok(Response::WriteMultipleCoils(4, 2)));
    assert!(client.write_multiple_coils(1, 4, &[true, true]).is_ok());
    assert!(client.write_multiple_coils(1, 4, &[true]).is_err());
    assert!(client.write_multiple_coils(1, 5, &[true, true]).is_err());
}

#[test]
fn errors_pass_through() {
    let client = Canned(Err(ModbusError::timeout("t")));
    assert_eq!(
        client.read_coils(1, 0, 1).unwrap_err(),
        ModbusError::timeout("t")
    );
    assert_eq!(
        client.write_single_coil(1, 0, true).unwrap_err(),
        ModbusError::timeout("t")
    );
}

#[test]
fn an_unexpected_exception_is_the_error() {
    assert_eq!(
        unexpected_response(Response::Exception(2, Exception::GatewayPathUnavailable)),
        ModbusError::exception(2, 10)
    );
}
