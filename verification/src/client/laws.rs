//! What a client's calls make of a reply.

use vstd::prelude::*;

use super::ModbusError;
use crate::error::ErrorView;
use crate::frame::{Response, ResponseView};

verus! {

/// An unexpected response is an exception where the device sent one, with both of its
/// numbers, and otherwise a protocol error that tells the response.
pub proof fn law_unexpected_response(rsp: Response)
    ensures
        match rsp {
            Response::Exception(fc, ex) => super::unexpected(rsp@) matches ErrorView::Exception {
                function,
                code,
            } && function == fc && code == ex.code(),
            _ => super::unexpected(rsp@) == ErrorView::Protocol(
                "unexpected response: "@ + rsp@.debug_text(),
            ),
        },
{
}

/// A call that reads returns the values of the response of its own sort, all of them
/// and in order. A response of another sort is unexpected.
pub proof fn law_reads_return_what_was_read(rsp: Response)
    ensures
        ({
            let reply = super::reply_view(Ok(rsp));
            let refused = Err::<Seq<bool>, ErrorView>(super::unexpected(rsp@));
            let denied = Err::<Seq<u16>, ErrorView>(super::unexpected(rsp@));
            &&& super::coils_in(reply) == match rsp {
                Response::ReadCoils(v) => Ok(v@),
                _ => refused,
            }
            &&& super::discrete_inputs_in(reply) == match rsp {
                Response::ReadDiscreteInputs(v) => Ok(v@),
                _ => refused,
            }
            &&& super::holding_registers_in(reply) == match rsp {
                Response::ReadHoldingRegisters(v) => Ok(v@),
                _ => denied,
            }
            &&& super::input_registers_in(reply) == match rsp {
                Response::ReadInputRegisters(v) => Ok(v@),
                _ => denied,
            }
            &&& super::read_write_registers_in(reply) == match rsp {
                Response::ReadWriteMultipleRegisters(v) => Ok(v@),
                _ => denied,
            }
            &&& super::diagnostic_in(reply) == match rsp {
                Response::Diagnostic(sf, d) => Ok((sf, d)),
                _ => Err::<(u16, u16), ErrorView>(super::unexpected(rsp@)),
            }
        }),
{
}

/// A call that writes succeeds exactly when the response repeats what was written.
pub proof fn law_writes_are_confirmed(
    rsp: Response,
    addr: u16,
    on: bool,
    x: u16,
    y: u16,
    len: usize,
)
    ensures
        ({
            let reply = super::reply_view(Ok(rsp));
            let refused = Err::<(), ErrorView>(super::unexpected(rsp@));
            &&& super::confirmed(reply, ResponseView::WriteSingleCoil(addr, on)) == match rsp {
                Response::WriteSingleCoil(a, v) if a == addr && v == on => Ok(()),
                _ => refused,
            }
            &&& super::confirmed(reply, ResponseView::WriteSingleRegister(addr, x)) == match rsp {
                Response::WriteSingleRegister(a, v) if a == addr && v == x => Ok(()),
                _ => refused,
            }
            &&& super::confirmed(reply, ResponseView::MaskWriteRegister(addr, x, y)) == match rsp {
                Response::MaskWriteRegister(a, m, o) if a == addr && m == x && o == y => Ok(()),
                _ => refused,
            }
            &&& super::list_confirmed(reply, true, addr, len as nat) == match rsp {
                Response::WriteMultipleCoils(a, n) if a == addr && n == len => Ok(()),
                _ => refused,
            }
            &&& super::list_confirmed(reply, false, addr, len as nat) == match rsp {
                Response::WriteMultipleRegisters(a, n) if a == addr && n == len => Ok(()),
                _ => refused,
            }
        }),
{
}

/// Where there was no response, every call returns the error as it came.
pub proof fn law_errors_pass(e: ModbusError, wanted: ResponseView, coils: bool, addr: u16, len: nat)
    ensures
        ({
            let reply = super::reply_view(Err(e));
            &&& super::coils_in(reply) == Err::<Seq<bool>, ErrorView>(e@)
            &&& super::discrete_inputs_in(reply) == Err::<Seq<bool>, ErrorView>(e@)
            &&& super::holding_registers_in(reply) == Err::<Seq<u16>, ErrorView>(e@)
            &&& super::input_registers_in(reply) == Err::<Seq<u16>, ErrorView>(e@)
            &&& super::read_write_registers_in(reply) == Err::<Seq<u16>, ErrorView>(e@)
            &&& super::diagnostic_in(reply) == Err::<(u16, u16), ErrorView>(e@)
            &&& super::confirmed(reply, wanted) == Err::<(), ErrorView>(e@)
            &&& super::list_confirmed(reply, coils, addr, len) == Err::<(), ErrorView>(e@)
        }),
{
}

/// The view of what a call returns holds the value itself.
pub proof fn law_result_views<T>(r: Result<Vec<T>, ModbusError>, p: Result<T, ModbusError>)
    ensures
        match r {
            Ok(v) => super::list_view(r) == Ok::<Seq<T>, ErrorView>(v@),
            Err(e) => super::list_view(r) == Err::<Seq<T>, ErrorView>(e@),
        },
        match p {
            Ok(v) => super::plain_view(p) == Ok::<T, ErrorView>(v),
            Err(e) => super::plain_view(p) == Err::<T, ErrorView>(e@),
        },
{
}

} // verus!
