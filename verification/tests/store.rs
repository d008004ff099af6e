//! The store of coils and registers, and services with hooks.

use oms_modbus::server::NO_SLAVE;
use oms_modbus::{
    Exception, HookedService, Request, Response, ServerHook, Service, SlaveStore,
};

#[test]
fn everything_is_off_or_zero_at_first() {
    let store = SlaveStore::new();
    assert!(!store.read_coil(0));
    assert!(!store.read_discrete_input(65535));
    assert_eq!(store.read_holding_register(1023), 0);
    assert_eq!(store.read_input_register(40000), 0);
    assert_eq!(store.read_holding_range(65535, 3), vec![0, 0, 0]);
    assert_eq!(store.read_coils_range(0, 0), Vec::<bool>::new());
}

#[test]
fn what_is_written_is_read() {
    let mut store = SlaveStore::default();
    store.write_coil(9, true);
    store.write_coil(10, true);
    store.write_coil(10, false);
    store.write_discrete_input(65535, true);
    store.write_holding_register(5000, 7);
    store.write_input_register(2, 9);
    assert_eq!(store.read_coils_range(8, 4), vec![false, true, false, false]);
    assert_eq!(store.read_discrete_inputs_range(65534, 2), vec![false, true]);
    assert_eq!(store.read_holding_range(4999, 3), vec![0, 7, 0]);
    assert_eq!(store.read_input_range(1, 3), vec![0, 9, 0]);
    assert!(!store.read_discrete_input(9));
    assert_eq!(store.read_input_register(5000), 0);
}

#[test]
fn later_pairs_win() {
    let store = SlaveStore::with_holding_registers(&[(3, 1), (2000, 5), (3, 2)]);
    assert_eq!(store.read_holding_register(3), 2);
    assert_eq!(store.read_holding_register(2000), 5);
}

#[test]
fn the_store_answers_every_function() {
    let mut store = SlaveStore::new();
    let mut call = |req: Request<'static>| store.call(1, req);
    assert_eq!(
        call(Request::WriteSingleCoil(3, true)),
        Ok(Response::WriteSingleCoil(3, true))
    );
    assert_eq!(
        call(Request::WriteMultipleCoils(4, vec![true, false, true].into())),
        Ok(Response::WriteMultipleCoils(4, 3))
    );
    assert_eq!(
        call(Request::ReadCoils(2, 6)),
        Ok(Response::ReadCoils(vec![false, true, true, false, true, false]))
    );
    assert_eq!(
        call(Request::ReadDiscreteInputs(0, 2)),
        Ok(Response::ReadDiscreteInputs(vec![false, false]))
    );
    assert_eq!(
        call(Request::WriteSingleRegister(10, 77)),
        Ok(Response::WriteSingleRegister(10, 77))
    );
    assert_eq!(
        call(Request::WriteMultipleRegisters(11, vec![1, 2].into())),
        Ok(Response::WriteMultipleRegisters(11, 2))
    );
    assert_eq!(
        call(Request::ReadHoldingRegisters(9, 5)),
        Ok(Response::ReadHoldingRegisters(vec![0, 77, 1, 2, 0]))
    );
    assert_eq!(
        call(Request::ReadInputRegisters(9, 1)),
        Ok(Response::ReadInputRegisters(vec![0]))
    );
    // The registers are read before they are written.
    assert_eq!(
        call(Request::ReadWriteMultipleRegisters(
            10,
            2,
            11,
            vec![500].into()
        )),
        Ok(Response::ReadWriteMultipleRegisters(vec![77, 1]))
    );
    assert_eq!(
        call(Request::ReadHoldingRegisters(11, 1)),
        Ok(Response::ReadHoldingRegisters(vec![500]))
    );
    assert_eq!(
        call(Request::Diagnostic(0, 0x1234)),
        Ok(Response::Diagnostic(0, 0x1234))
    );
    assert_eq!(
        call(Request::Diagnostic(0x0A, 5)),
        Ok(Response::Diagnostic(0x0A, 0))
    );
    assert_eq!(
        call(Request::Diagnostic(0x0E, 5)),
        Ok(Response::Diagnostic(0x0E, 0))
    );
    assert_eq!(
        call(Request::Diagnostic(0x0F, 5)),
        Err(Exception::IllegalDataValue)
    );
    assert_eq!(call(Request::Disconnect), Err(Exception::IllegalFunction));
}

#[test]
fn mask_writes_select_bits() {
    let mut store = SlaveStore::with_holding_registers(&[(4, 0x0012)]);
    assert_eq!(
        store.call(1, Request::MaskWriteRegister(4, 0x00F2, 0x0025)),
        Ok(Response::MaskWriteRegister(4, 0x00F2, 0x0025))
    );
    assert_eq!(store.read_holding_register(4), 0x0017);
}

#[test]
fn reads_change_nothing_and_writes_what_they_name() {
    let mut store = SlaveStore::with_holding_registers(&[(0, 1), (1, 2), (2, 3)]);
    store.call(1, Request::ReadHoldingRegisters(0, 3)).unwrap();
    assert_eq!(store.read_holding_range(0, 3), vec![1, 2, 3]);
    store.call(1, Request::WriteSingleRegister(1, 9)).unwrap();
    assert_eq!(store.read_holding_range(0, 3), vec![1, 9, 3]);
}

#[derive(Clone)]
struct Gate;

impl ServerHook for Gate {
    fn before_call(&self, slave: u8, request: &Request<'_>) -> Option<Response> {
        match request {
            Request::ReadHoldingRegisters(666, _) => {
                Some(Response::ReadHoldingRegisters(vec![slave as u16]))
            }
            _ => None,
        }
    }

    fn after_call(
        &self,
        _slave: u8,
        result: Result<Response, Exception>,
    ) -> Result<Response, Exception> {
        match result {
            Ok(Response::WriteSingleRegister(..)) => Err(Exception::ServerDeviceBusy),
            other => other,
        }
    }
}

#[derive(Clone)]
struct Silent;

impl ServerHook for Silent {}

#[test]
fn hooks_answer_before_and_change_after() {
    let mut hooked = HookedService::new(SlaveStore::new(), Gate);
    assert_eq!(
        hooked.call(NO_SLAVE, Request::ReadHoldingRegisters(666, 1)),
        Ok(Response::ReadHoldingRegisters(vec![255]))
    );
    assert_eq!(
        hooked.call(1, Request::WriteSingleRegister(666, 1)),
        Err(Exception::ServerDeviceBusy)
    );
    // The service was called all the same.
    assert_eq!(hooked.inner.read_holding_register(666), 1);
    assert_eq!(
        hooked.call(1, Request::ReadHoldingRegisters(0, 1)),
        Ok(Response::ReadHoldingRegisters(vec![0]))
    );
}

#[test]
fn a_hook_that_does_nothing_changes_nothing() {
    let mut hooked = HookedService::new(SlaveStore::new(), Silent);
    assert_eq!(
        hooked.call(1, Request::WriteSingleRegister(1, 4)),
        Ok(Response::WriteSingleRegister(1, 4))
    );
    assert_eq!(
        hooked.call(1, Request::Disconnect),
        Err(Exception::IllegalFunction)
    );
}
