//! What holds of a store over several requests.

use vstd::prelude::*;

use super::{get_all, masked, StoreState};
use crate::frame::{Exception, RequestView, ResponseView};

verus! {

/// A request that changes nothing in a store.
pub open spec fn is_read(request: RequestView) -> bool {
    request is ReadCoils || request is ReadDiscreteInputs || request is ReadHoldingRegisters
        || request is ReadInputRegisters || request is Diagnostic || request is Disconnect
}

/// The coil addresses that a request writes.
pub open spec fn writes_coil(request: RequestView, a: int) -> bool {
    match request {
        RequestView::WriteSingleCoil(addr, _) => a == addr,
        RequestView::WriteMultipleCoils(addr, v) => addr <= a < addr + v.len(),
        _ => false,
    }
}

/// The holding register addresses that a request writes.
pub open spec fn writes_register(request: RequestView, a: int) -> bool {
    match request {
        RequestView::WriteSingleRegister(addr, _) => a == addr,
        RequestView::MaskWriteRegister(addr, _, _) => a == addr,
        RequestView::WriteMultipleRegisters(addr, v) => addr <= a < addr + v.len(),
        RequestView::ReadWriteMultipleRegisters(_, _, addr, v) => addr <= a < addr + v.len(),
        _ => false,
    }
}

/// Reading changes nothing.
pub proof fn law_reads_change_nothing(s: StoreState, request: RequestView)
    requires
        is_read(request),
    ensures
        s.apply(request) == s,
{
}

/// A request changes the addresses that it names and no others. No request
/// changes a discrete input or an input register.
pub proof fn law_writes_change_what_they_name(s: StoreState, request: RequestView)
    ensures
        s.apply(request).discrete_inputs == s.discrete_inputs,
        s.apply(request).input_registers == s.input_registers,
        forall|a: int|
            !writes_coil(request, a) ==> #[trigger] (s.apply(request).coils)(a) == (s.coils)(a),
        forall|a: int|
            !writes_register(request, a) ==> #[trigger] (s.apply(request).holding_registers)(a)
                == (s.holding_registers)(a),
{
}

/// A coil reads as it was written.
pub proof fn law_coil_reads_as_written(s: StoreState, addr: u16, value: bool)
    ensures
        s.apply(RequestView::WriteSingleCoil(addr, value)).reply(RequestView::ReadCoils(addr, 1))
            == Ok::<ResponseView, Exception>(ResponseView::ReadCoils(seq![value])),
{
    let after = s.apply(RequestView::WriteSingleCoil(addr, value));
    assert(get_all(after.coils, addr as int, 1) =~= seq![value]);
}

/// A list of coils reads as it was written.
pub proof fn law_coils_read_as_written(s: StoreState, addr: u16, values: Seq<bool>)
    requires
        values.len() <= u16::MAX,
    ensures
        s.apply(RequestView::WriteMultipleCoils(addr, values)).reply(
            RequestView::ReadCoils(addr, values.len() as u16),
        ) == Ok::<ResponseView, Exception>(ResponseView::ReadCoils(values)),
{
    let after = s.apply(RequestView::WriteMultipleCoils(addr, values));
    assert(get_all(after.coils, addr as int, values.len()) =~= values);
}

/// A holding register reads as it was written.
pub proof fn law_register_reads_as_written(s: StoreState, addr: u16, value: u16)
    ensures
        s.apply(RequestView::WriteSingleRegister(addr, value)).reply(
            RequestView::ReadHoldingRegisters(addr, 1),
        ) == Ok::<ResponseView, Exception>(ResponseView::ReadHoldingRegisters(seq![value])),
{
    let after = s.apply(RequestView::WriteSingleRegister(addr, value));
    assert(get_all(after.holding_registers, addr as int, 1) =~= seq![value]);
}

/// A list of holding registers reads as it was written.
pub proof fn law_registers_read_as_written(s: StoreState, addr: u16, values: Seq<u16>)
    requires
        values.len() <= u16::MAX,
    ensures
        s.apply(RequestView::WriteMultipleRegisters(addr, values)).reply(
            RequestView::ReadHoldingRegisters(addr, values.len() as u16),
        ) == Ok::<ResponseView, Exception>(ResponseView::ReadHoldingRegisters(values)),
{
    let after = s.apply(RequestView::WriteMultipleRegisters(addr, values));
    assert(get_all(after.holding_registers, addr as int, values.len()) =~= values);
}

/// A read-write request answers with the registers as they were before it
/// wrote, and the registers that it wrote read as written afterwards.
pub proof fn law_read_write_reads_first(
    s: StoreState,
    read_addr: u16,
    read_qty: u16,
    write_addr: u16,
    values: Seq<u16>,
)
    requires
        values.len() <= u16::MAX,
    ensures
        ({
            let request = RequestView::ReadWriteMultipleRegisters(
                read_addr,
                read_qty,
                write_addr,
                values,
            );
            &&& s.reply(request) == Ok::<ResponseView, Exception>(
                ResponseView::ReadWriteMultipleRegisters(
                    get_all(s.holding_registers, read_addr as int, read_qty as nat),
                ),
            )
            &&& s.apply(request).reply(
                RequestView::ReadHoldingRegisters(write_addr, values.len() as u16),
            ) == Ok::<ResponseView, Exception>(ResponseView::ReadHoldingRegisters(values))
        }),
{
    let request = RequestView::ReadWriteMultipleRegisters(read_addr, read_qty, write_addr, values);
    let after = s.apply(request);
    assert(get_all(after.holding_registers, write_addr as int, values.len()) =~= values);
}

/// A mask write keeps the bits that the AND mask selects, and takes the others
/// from the OR mask.
pub proof fn law_mask_write_selects_bits(
    s: StoreState,
    addr: u16,
    and_mask: u16,
    or_mask: u16,
    k: u16,
)
    requires
        k < 16,
    ensures
        ({
            let before = (s.holding_registers)(addr as int);
            let after = (s.apply(
                RequestView::MaskWriteRegister(addr, and_mask, or_mask),
            ).holding_registers)(addr as int);
            ((after >> k) & 1) == (if (and_mask >> k) & 1 == 1 {
                (before >> k) & 1
            } else {
                (or_mask >> k) & 1
            })
        }),
{
    let before = (s.holding_registers)(addr as int);
    let after = masked(before, and_mask, or_mask);
    assert(((after >> k) & 1) == (if (and_mask >> k) & 1 == 1 {
        (before >> k) & 1
    } else {
        (or_mask >> k) & 1
    })) by (bit_vector)
        requires
            k < 16,
            after == (before & and_mask) | (or_mask & !and_mask),
    ;
}

/// In an empty store every coil is off and every register holds 0.
pub proof fn law_empty_store_reads_zero(addr: u16, count: u16)
    ensures
        StoreState::empty().reply(RequestView::ReadCoils(addr, count)) == Ok::<
            ResponseView,
            Exception,
        >(ResponseView::ReadCoils(Seq::new(count as nat, |i: int| false))),
        StoreState::empty().reply(RequestView::ReadHoldingRegisters(addr, count)) == Ok::<
            ResponseView,
            Exception,
        >(ResponseView::ReadHoldingRegisters(Seq::new(count as nat, |i: int| 0u16))),
{
    assert(get_all(StoreState::empty().coils, addr as int, count as nat) =~= Seq::new(
        count as nat,
        |i: int| false,
    ));
    assert(get_all(StoreState::empty().holding_registers, addr as int, count as nat) =~= Seq::new(
        count as nat,
        |i: int| 0u16,
    ));
}

/// A store answers every valid request with a response that has a wire form,
/// except diagnostics with a sub-function that it does not know.
pub proof fn law_valid_request_is_answered(s: StoreState, request: RequestView)
    requires
        request.is_valid(),
    ensures
        match s.reply(request) {
            Ok(rsp) => rsp.within_limits() && rsp.function_code() == request.function_code(),
            Err(e) => request is Diagnostic && e == Exception::IllegalDataValue,
        },
{
}

} // verus!
