//! Client side: the calls of a Modbus master.

use std::borrow::Cow;

use vstd::prelude::*;

pub use crate::error::ModbusError;
use crate::error::ErrorView;
use crate::frame::{Request, Response, ResponseView};

pub mod laws;

verus! {

/// The error for a response of the wrong sort: the exception that it carries,
/// or a protocol error that shows it.
pub open spec fn unexpected(rsp: ResponseView) -> ErrorView {
    match rsp {
        ResponseView::Exception(fc, ex) => ErrorView::Exception { function: fc, code: ex.code() },
        other => ErrorView::Protocol("unexpected response: "@ + other.debug_text()),
    }
}

/// The outcome of a call, with response and error as their views.
pub open spec fn reply_view(r: Result<Response, ModbusError>) -> Result<ResponseView, ErrorView> {
    match r {
        Ok(rsp) => Ok(rsp@),
        Err(e) => Err(e@),
    }
}

/// A list or an error, as their views.
pub open spec fn list_view<T>(r: Result<Vec<T>, ModbusError>) -> Result<Seq<T>, ErrorView> {
    match r {
        Ok(v) => Ok(v@),
        Err(e) => Err(e@),
    }
}

/// A plain value or an error as its view.
pub open spec fn plain_view<T>(r: Result<T, ModbusError>) -> Result<T, ErrorView> {
    match r {
        Ok(v) => Ok(v),
        Err(e) => Err(e@),
    }
}

/// What a call that asked for coils returns for each reply.
pub open spec fn coils_in(reply: Result<ResponseView, ErrorView>) -> Result<Seq<bool>, ErrorView> {
    match reply {
        Ok(ResponseView::ReadCoils(bits)) => Ok(bits),
        Ok(other) => Err(unexpected(other)),
        Err(e) => Err(e),
    }
}

/// What a call that asked for discrete inputs returns for each reply.
pub open spec fn discrete_inputs_in(reply: Result<ResponseView, ErrorView>) -> Result<
    Seq<bool>,
    ErrorView,
> {
    match reply {
        Ok(ResponseView::ReadDiscreteInputs(bits)) => Ok(bits),
        Ok(other) => Err(unexpected(other)),
        Err(e) => Err(e),
    }
}

/// What a call that asked for holding registers returns for each reply.
pub open spec fn holding_registers_in(reply: Result<ResponseView, ErrorView>) -> Result<
    Seq<u16>,
    ErrorView,
> {
    match reply {
        Ok(ResponseView::ReadHoldingRegisters(regs)) => Ok(regs),
        Ok(other) => Err(unexpected(other)),
        Err(e) => Err(e),
    }
}

/// What a call that asked for input registers returns for each reply.
pub open spec fn input_registers_in(reply: Result<ResponseView, ErrorView>) -> Result<
    Seq<u16>,
    ErrorView,
> {
    match reply {
        Ok(ResponseView::ReadInputRegisters(regs)) => Ok(regs),
        Ok(other) => Err(unexpected(other)),
        Err(e) => Err(e),
    }
}

/// What a read-write call returns for each reply.
pub open spec fn read_write_registers_in(reply: Result<ResponseView, ErrorView>) -> Result<
    Seq<u16>,
    ErrorView,
> {
    match reply {
        Ok(ResponseView::ReadWriteMultipleRegisters(regs)) => Ok(regs),
        Ok(other) => Err(unexpected(other)),
        Err(e) => Err(e),
    }
}

/// What a diagnostic call returns for each reply.
pub open spec fn diagnostic_in(reply: Result<ResponseView, ErrorView>) -> Result<
    (u16, u16),
    ErrorView,
> {
    match reply {
        Ok(ResponseView::Diagnostic(sf, d)) => Ok((sf, d)),
        Ok(other) => Err(unexpected(other)),
        Err(e) => Err(e),
    }
}

/// What a call that writes returns for each reply: success only where the
/// server confirmed exactly what was asked.
pub open spec fn confirmed(
    reply: Result<ResponseView, ErrorView>,
    wanted: ResponseView,
) -> Result<(), ErrorView> {
    match reply {
        Ok(rsp) => if rsp == wanted {
            Ok(())
        } else {
            Err(unexpected(rsp))
        },
        Err(e) => Err(e),
    }
}

/// The confirmation of a list write, which names the length of the list. No
/// response confirms a list longer than 65535.
pub open spec fn list_confirmed(
    reply: Result<ResponseView, ErrorView>,
    coils: bool,
    addr: u16,
    len: nat,
) -> Result<(), ErrorView> {
    match reply {
        Ok(ResponseView::WriteMultipleCoils(a, n)) if coils && a == addr && n == len => Ok(()),
        Ok(ResponseView::WriteMultipleRegisters(a, n)) if !coils && a == addr && n == len => Ok(()),
        Ok(other) => Err(unexpected(other)),
        Err(e) => Err(e),
    }
}

/// The error for a response of the wrong sort.
#[inline]
pub fn unexpected_response(rsp: Response) -> (e: ModbusError)
    ensures
        e@ == unexpected(rsp@),
{
    match rsp {
        Response::Exception(fc, ex) => ModbusError::exception(fc, u8::from(ex)),
        other => {
            let mut s = "unexpected response: ".to_owned();
            s.append(other.to_debug_string().as_str());
            ModbusError::Protocol(s)
        },
    }
}

/// Coils out of a reply.
pub fn coils_of_reply(reply: Result<Response, ModbusError>) -> (r: Result<Vec<bool>, ModbusError>)
    ensures
        list_view(r) == coils_in(reply_view(reply)),
{
    match reply {
        Ok(Response::ReadCoils(bits)) => Ok(bits),
        Ok(other) => Err(unexpected_response(other)),
        Err(e) => Err(e),
    }
}

/// Discrete inputs out of a reply.
pub fn discrete_inputs_of_reply(reply: Result<Response, ModbusError>) -> (r: Result<
    Vec<bool>,
    ModbusError,
>)
    ensures
        list_view(r) == discrete_inputs_in(reply_view(reply)),
{
    match reply {
        Ok(Response::ReadDiscreteInputs(bits)) => Ok(bits),
        Ok(other) => Err(unexpected_response(other)),
        Err(e) => Err(e),
    }
}

/// Holding registers out of a reply.
pub fn holding_registers_of_reply(reply: Result<Response, ModbusError>) -> (r: Result<
    Vec<u16>,
    ModbusError,
>)
    ensures
        list_view(r) == holding_registers_in(reply_view(reply)),
{
    match reply {
        Ok(Response::ReadHoldingRegisters(regs)) => Ok(regs),
        Ok(other) => Err(unexpected_response(other)),
        Err(e) => Err(e),
    }
}

/// Input registers out of a reply.
pub fn input_registers_of_reply(reply: Result<Response, ModbusError>) -> (r: Result<
    Vec<u16>,
    ModbusError,
>)
    ensures
        list_view(r) == input_registers_in(reply_view(reply)),
{
    match reply {
        Ok(Response::ReadInputRegisters(regs)) => Ok(regs),
        Ok(other) => Err(unexpected_response(other)),
        Err(e) => Err(e),
    }
}

/// The registers that a read-write call read, out of a reply.
pub fn read_write_registers_of_reply(reply: Result<Response, ModbusError>) -> (r: Result<
    Vec<u16>,
    ModbusError,
>)
    ensures
        list_view(r) == read_write_registers_in(reply_view(reply)),
{
    match reply {
        Ok(Response::ReadWriteMultipleRegisters(regs)) => Ok(regs),
        Ok(other) => Err(unexpected_response(other)),
        Err(e) => Err(e),
    }
}

/// Sub-function and data out of a reply.
pub fn diagnostic_of_reply(reply: Result<Response, ModbusError>) -> (r: Result<
    (u16, u16),
    ModbusError,
>)
    ensures
        plain_view(r) == diagnostic_in(reply_view(reply)),
{
    match reply {
        Ok(Response::Diagnostic(sf, d)) => Ok((sf, d)),
        Ok(other) => Err(unexpected_response(other)),
        Err(e) => Err(e),
    }
}

/// Whether a reply confirms that a coil was written.
pub fn coil_confirmed_by_reply(
    reply: Result<Response, ModbusError>,
    addr: u16,
    value: bool,
) -> (r: Result<(), ModbusError>)
    ensures
        plain_view(r) == confirmed(reply_view(reply), ResponseView::WriteSingleCoil(addr, value)),
{
    match reply {
        Ok(Response::WriteSingleCoil(a, v)) if a == addr && v == value => Ok(()),
        Ok(other) => Err(unexpected_response(other)),
        Err(e) => Err(e),
    }
}

/// Whether a reply confirms that a register was written.
pub fn register_confirmed_by_reply(
    reply: Result<Response, ModbusError>,
    addr: u16,
    value: u16,
) -> (r: Result<(), ModbusError>)
    ensures
        plain_view(r) == confirmed(
            reply_view(reply),
            ResponseView::WriteSingleRegister(addr, value),
        ),
{
    match reply {
        Ok(Response::WriteSingleRegister(a, v)) if a == addr && v == value => Ok(()),
        Ok(other) => Err(unexpected_response(other)),
        Err(e) => Err(e),
    }
}

/// Whether a reply confirms that a list of coils was written.
pub fn coils_confirmed_by_reply(
    reply: Result<Response, ModbusError>,
    addr: u16,
    len: usize,
) -> (r: Result<(), ModbusError>)
    ensures
        plain_view(r) == list_confirmed(reply_view(reply), true, addr, len as nat),
{
    match reply {
        Ok(Response::WriteMultipleCoils(a, n)) if a == addr && n as usize == len => Ok(()),
        Ok(other) => Err(unexpected_response(other)),
        Err(e) => Err(e),
    }
}

/// Whether a reply confirms that a list of registers was written.
pub fn registers_confirmed_by_reply(
    reply: Result<Response, ModbusError>,
    addr: u16,
    len: usize,
) -> (r: Result<(), ModbusError>)
    ensures
        plain_view(r) == list_confirmed(reply_view(reply), false, addr, len as nat),
{
    match reply {
        Ok(Response::WriteMultipleRegisters(a, n)) if a == addr && n as usize == len => Ok(()),
        Ok(other) => Err(unexpected_response(other)),
        Err(e) => Err(e),
    }
}

/// Whether a reply confirms a mask write.
pub fn mask_confirmed_by_reply(
    reply: Result<Response, ModbusError>,
    addr: u16,
    and_mask: u16,
    or_mask: u16,
) -> (r: Result<(), ModbusError>)
    ensures
        plain_view(r) == confirmed(
            reply_view(reply),
            ResponseView::MaskWriteRegister(addr, and_mask, or_mask),
        ),
{
    match reply {
        Ok(
            Response::MaskWriteRegister(a, m, o),
        ) if a == addr && m == and_mask && o == or_mask => Ok(()),
        Ok(other) => Err(unexpected_response(other)),
        Err(e) => Err(e),
    }
}

/// A Modbus master, whatever the transport.
///
/// A transport implements [`call`](ModbusClient::call); every other method
/// builds a request, hands it to `call` and picks the answer apart. The slave
/// address goes with each call, so that one client serves a whole bus.
pub trait ModbusClient {
    /// Send a request to a slave, and return its response.
    fn call(&self, slave: u8, request: Request<'_>) -> Result<Response, ModbusError>;

    /// Read coils (function code 1).
    fn read_coils(&self, slave: u8, addr: u16, quantity: u16) -> (r: Result<Vec<bool>, ModbusError>)
        ensures
            exists|reply: Result<Response, ModbusError>|
                {
                    &&& #[trigger] call_ensures(
                        Self::call,
                        (self, slave, Request::ReadCoils(addr, quantity)),
                        reply,
                    )
                    &&& list_view(r) == coils_in(reply_view(reply))
                },
    {
        coils_of_reply(self.call(slave, Request::ReadCoils(addr, quantity)))
    }

    /// Read discrete inputs (function code 2).
    fn read_discrete_inputs(&self, slave: u8, addr: u16, quantity: u16) -> (r: Result<
        Vec<bool>,
        ModbusError,
    >)
        ensures
            exists|reply: Result<Response, ModbusError>|
                {
                    &&& #[trigger] call_ensures(
                        Self::call,
                        (self, slave, Request::ReadDiscreteInputs(addr, quantity)),
                        reply,
                    )
                    &&& list_view(r) == discrete_inputs_in(reply_view(reply))
                },
    {
        discrete_inputs_of_reply(self.call(slave, Request::ReadDiscreteInputs(addr, quantity)))
    }

    /// Read holding registers (function code 3).
    fn read_holding_registers(&self, slave: u8, addr: u16, quantity: u16) -> (r: Result<
        Vec<u16>,
        ModbusError,
    >)
        ensures
            exists|reply: Result<Response, ModbusError>|
                {
                    &&& #[trigger] call_ensures(
                        Self::call,
                        (self, slave, Request::ReadHoldingRegisters(addr, quantity)),
                        reply,
                    )
                    &&& list_view(r) == holding_registers_in(reply_view(reply))
                },
    {
        holding_registers_of_reply(self.call(slave, Request::ReadHoldingRegisters(addr, quantity)))
    }

    /// Read input registers (function code 4).
    fn read_input_registers(&self, slave: u8, addr: u16, quantity: u16) -> (r: Result<
        Vec<u16>,
        ModbusError,
    >)
        ensures
            exists|reply: Result<Response, ModbusError>|
                {
                    &&& #[trigger] call_ensures(
                        Self::call,
                        (self, slave, Request::ReadInputRegisters(addr, quantity)),
                        reply,
                    )
                    &&& list_view(r) == input_registers_in(reply_view(reply))
                },
    {
        input_registers_of_reply(self.call(slave, Request::ReadInputRegisters(addr, quantity)))
    }

    /// Write a coil (function code 5).
    fn write_single_coil(&self, slave: u8, addr: u16, value: bool) -> (r: Result<(), ModbusError>)
        ensures
            exists|reply: Result<Response, ModbusError>|
                {
                    &&& #[trigger] call_ensures(
                        Self::call,
                        (self, slave, Request::WriteSingleCoil(addr, value)),
                        reply,
                    )
                    &&& plain_view(r) == confirmed(
                        reply_view(reply),
                        ResponseView::WriteSingleCoil(addr, value),
                    )
                },
    {
        coil_confirmed_by_reply(
            self.call(slave, Request::WriteSingleCoil(addr, value)),
            addr,
            value,
        )
    }

    /// Write a holding register (function code 6).
    fn write_single_register(&self, slave: u8, addr: u16, value: u16) -> (r: Result<
        (),
        ModbusError,
    >)
        ensures
            exists|reply: Result<Response, ModbusError>|
                {
                    &&& #[trigger] call_ensures(
                        Self::call,
                        (self, slave, Request::WriteSingleRegister(addr, value)),
                        reply,
                    )
                    &&& plain_view(r) == confirmed(
                        reply_view(reply),
                        ResponseView::WriteSingleRegister(addr, value),
                    )
                },
    {
        register_confirmed_by_reply(
            self.call(slave, Request::WriteSingleRegister(addr, value)),
            addr,
            value,
        )
    }

    /// Write coils (function code 15).
    fn write_multiple_coils(&self, slave: u8, addr: u16, values: &[bool]) -> (r: Result<
        (),
        ModbusError,
    >)
        ensures
            exists|reply: Result<Response, ModbusError>|
                {
                    &&& #[trigger] call_ensures(
                        Self::call,
                        (self, slave, Request::WriteMultipleCoils(addr, Cow::Borrowed(values))),
                        reply,
                    )
                    &&& plain_view(r) == list_confirmed(
                        reply_view(reply),
                        true,
                        addr,
                        values@.len(),
                    )
                },
    {
        coils_confirmed_by_reply(
            self.call(slave, Request::WriteMultipleCoils(addr, Cow::Borrowed(values))),
            addr,
            values.len(),
        )
    }

    /// Write holding registers (function code 16).
    fn write_multiple_registers(&self, slave: u8, addr: u16, values: &[u16]) -> (r: Result<
        (),
        ModbusError,
    >)
        ensures
            exists|reply: Result<Response, ModbusError>|
                {
                    &&& #[trigger] call_ensures(
                        Self::call,
                        (self, slave, Request::WriteMultipleRegisters(addr, Cow::Borrowed(values))),
                        reply,
                    )
                    &&& plain_view(r) == list_confirmed(
                        reply_view(reply),
                        false,
                        addr,
                        values@.len(),
                    )
                },
    {
        registers_confirmed_by_reply(
            self.call(slave, Request::WriteMultipleRegisters(addr, Cow::Borrowed(values))),
            addr,
            values.len(),
        )
    }

    /// Change selected bits of a holding register (function code 22).
    fn mask_write_register(&self, slave: u8, addr: u16, and_mask: u16, or_mask: u16) -> (r: Result<
        (),
        ModbusError,
    >)
        ensures
            exists|reply: Result<Response, ModbusError>|
                {
                    &&& #[trigger] call_ensures(
                        Self::call,
                        (self, slave, Request::MaskWriteRegister(addr, and_mask, or_mask)),
                        reply,
                    )
                    &&& plain_view(r) == confirmed(
                        reply_view(reply),
                        ResponseView::MaskWriteRegister(addr, and_mask, or_mask),
                    )
                },
    {
        mask_confirmed_by_reply(
            self.call(slave, Request::MaskWriteRegister(addr, and_mask, or_mask)),
            addr,
            and_mask,
            or_mask,
        )
    }

    /// Send a diagnostic request (function code 8).
    fn diagnostic(&self, slave: u8, sub_function: u16, data: u16) -> (r: Result<
        (u16, u16),
        ModbusError,
    >)
        ensures
            exists|reply: Result<Response, ModbusError>|
                {
                    &&& #[trigger] call_ensures(
                        Self::call,
                        (self, slave, Request::Diagnostic(sub_function, data)),
                        reply,
                    )
                    &&& plain_view(r) == diagnostic_in(reply_view(reply))
                },
    {
        diagnostic_of_reply(self.call(slave, Request::Diagnostic(sub_function, data)))
    }

    /// Read and write holding registers in one transaction (function code 23).
    fn read_write_multiple_registers(
        &self,
        slave: u8,
        read_addr: u16,
        read_qty: u16,
        write_addr: u16,
        values: &[u16],
    ) -> (r: Result<Vec<u16>, ModbusError>)
        ensures
            exists|reply: Result<Response, ModbusError>|
                {
                    &&& #[trigger] call_ensures(
                        Self::call,
                        (
                            self,
                            slave,
                            Request::ReadWriteMultipleRegisters(
                                read_addr,
                                read_qty,
                                write_addr,
                                Cow::Borrowed(values),
                            ),
                        ),
                        reply,
                    )
                    &&& list_view(r) == read_write_registers_in(reply_view(reply))
                },
    {
        read_write_registers_of_reply(
            self.call(
                slave,
                Request::ReadWriteMultipleRegisters(
                    read_addr,
                    read_qty,
                    write_addr,
                    Cow::Borrowed(values),
                ),
            ),
        )
    }
}

} // verus!
