//! What a store answers and keeps, address by address.

use vstd::prelude::*;

use super::{SlaveStore, StoreState};
use crate::client;
use crate::frame::{Exception, RequestView, Response, ResponseView};
use crate::server::Service;

verus! {

// ── Tables ──────────────────────────────────────────────────────────────

/// Writing one value changes its address and no other.
pub proof fn law_one_value_is_set<T>(table: spec_fn(int) -> T, addr: int, value: T, a: int)
    ensures
        super::set_one(table, addr, value)(addr) == value,
        a != addr ==> super::set_one(table, addr, value)(a) == table(a),
{
}

/// Writing a list puts its values at the addresses from the first on, in order, and
/// changes no other.
pub proof fn law_list_is_set<T>(table: spec_fn(int) -> T, addr: int, values: Seq<T>, i: int)
    ensures
        0 <= i < values.len() ==> super::set_all(table, addr, values)(addr + i) == values[i],
        i < 0 || i >= values.len() ==> super::set_all(table, addr, values)(addr + i) == table(
            addr + i,
        ),
{
}

/// Reading a list gives the values at the addresses from the first on, in order.
pub proof fn law_list_is_read<T>(table: spec_fn(int) -> T, addr: int, count: nat, i: int)
    ensures
        super::get_all(table, addr, count).len() == count,
        0 <= i < count ==> super::get_all(table, addr, count)[i] == table(addr + i),
{
}

/// Of several pairs for one address the last one counts, and an address without a
/// pair keeps its value.
pub proof fn law_last_pair_counts(
    table: spec_fn(int) -> u16,
    pairs: Seq<(u16, u16)>,
    a: int,
    last: int,
)
    ensures
        (forall|j: int| 0 <= j < pairs.len() ==> (#[trigger] pairs[j]).0 != a)
            ==> super::set_pairs(table, pairs)(a) == table(a),
        0 <= last < pairs.len() && pairs[last].0 == a && (forall|j: int|
            last < j < pairs.len() ==> (#[trigger] pairs[j]).0 != a) ==> super::set_pairs(
            table,
            pairs,
        )(a) == pairs[last].1,
    decreases pairs.len(),
{
    if pairs.len() > 0 {
        let head = pairs.drop_last();
        law_last_pair_counts(table, head, a, last);
        assert(forall|j: int| 0 <= j < head.len() ==> head[j] == #[trigger] pairs[j]);
        assert(pairs.last() == pairs[pairs.len() - 1]);
    }
}

/// A new store holds nothing but zeroes.
pub proof fn law_empty_tables(a: int)
    ensures
        !(StoreState::empty().coils)(a),
        !(StoreState::empty().discrete_inputs)(a),
        (StoreState::empty().holding_registers)(a) == 0,
        (StoreState::empty().input_registers)(a) == 0,
        super::DEFAULT_REG_COUNT == 1024,
{
}

// ── Answers ─────────────────────────────────────────────────────────────

/// A request that reads is answered with as many values as it asks for, taken from
/// the table of its own sort at the addresses from the first on, and changes nothing.
pub proof fn law_reads_answer_from_their_table(
    before: SlaveStore,
    slave: u8,
    request: RequestView,
    after: SlaveStore,
    result: Result<ResponseView, Exception>,
    i: int,
)
    requires
        SlaveStore::serves(before, slave, request, after, result),
    ensures
        match request {
            RequestView::ReadCoils(addr, n) => {
                &&& after@ == before@
                &&& result matches Ok(ResponseView::ReadCoils(v))
                &&& v.len() == n
                &&& 0 <= i < n ==> v[i] == (before@.coils)(addr + i)
            },
            RequestView::ReadDiscreteInputs(addr, n) => {
                &&& after@ == before@
                &&& result matches Ok(ResponseView::ReadDiscreteInputs(v))
                &&& v.len() == n
                &&& 0 <= i < n ==> v[i] == (before@.discrete_inputs)(addr + i)
            },
            RequestView::ReadHoldingRegisters(addr, n) => {
                &&& after@ == before@
                &&& result matches Ok(ResponseView::ReadHoldingRegisters(v))
                &&& v.len() == n
                &&& 0 <= i < n ==> v[i] == (before@.holding_registers)(addr + i)
            },
            RequestView::ReadInputRegisters(addr, n) => {
                &&& after@ == before@
                &&& result matches Ok(ResponseView::ReadInputRegisters(v))
                &&& v.len() == n
                &&& 0 <= i < n ==> v[i] == (before@.input_registers)(addr + i)
            },
            RequestView::ReadWriteMultipleRegisters(addr, n, _, _) => {
                &&& result matches Ok(ResponseView::ReadWriteMultipleRegisters(v))
                &&& v.len() == n
                &&& 0 <= i < n ==> v[i] == (before@.holding_registers)(addr + i)
            },
            _ => true,
        },
{
}

/// The answer to a request that reads one table does not depend on the other three.
pub proof fn law_answers_depend_on_one_table(s: StoreState, t: StoreState, addr: u16, n: u16)
    ensures
        s.coils == t.coils ==> s.reply(RequestView::ReadCoils(addr, n)) == t.reply(
            RequestView::ReadCoils(addr, n),
        ),
        s.discrete_inputs == t.discrete_inputs ==> s.reply(RequestView::ReadDiscreteInputs(addr, n))
            == t.reply(RequestView::ReadDiscreteInputs(addr, n)),
        s.holding_registers == t.holding_registers ==> s.reply(
            RequestView::ReadHoldingRegisters(addr, n),
        ) == t.reply(RequestView::ReadHoldingRegisters(addr, n)),
        s.input_registers == t.input_registers ==> s.reply(RequestView::ReadInputRegisters(addr, n))
            == t.reply(RequestView::ReadInputRegisters(addr, n)),
{
}

/// A request that writes coils is answered with what it wrote. It puts its values at
/// its addresses and changes nothing else.
pub proof fn law_coil_writes(
    before: SlaveStore,
    slave: u8,
    request: RequestView,
    after: SlaveStore,
    result: Result<ResponseView, Exception>,
    a: int,
)
    requires
        SlaveStore::serves(before, slave, request, after, result),
    ensures
        match request {
            RequestView::WriteSingleCoil(addr, on) => {
                &&& result == Ok::<_, Exception>(ResponseView::WriteSingleCoil(addr, on))
                &&& (after@.coils)(a) == (if a == addr {
                    on
                } else {
                    (before@.coils)(a)
                })
                &&& after@.discrete_inputs == before@.discrete_inputs
                &&& after@.holding_registers == before@.holding_registers
                &&& after@.input_registers == before@.input_registers
            },
            RequestView::WriteMultipleCoils(addr, v) => {
                &&& result matches Ok(ResponseView::WriteMultipleCoils(at, n))
                &&& at == addr && n == v.len() % 65536
                &&& (after@.coils)(a) == (if 0 <= a - addr < v.len() {
                    v[a - addr]
                } else {
                    (before@.coils)(a)
                })
                &&& after@.discrete_inputs == before@.discrete_inputs
                &&& after@.holding_registers == before@.holding_registers
                &&& after@.input_registers == before@.input_registers
            },
            _ => true,
        },
{
}

/// A request that writes holding registers is answered with what it wrote. It puts its
/// values at its addresses and changes nothing else.
pub proof fn law_register_writes(
    before: SlaveStore,
    slave: u8,
    request: RequestView,
    after: SlaveStore,
    result: Result<ResponseView, Exception>,
    a: int,
)
    requires
        SlaveStore::serves(before, slave, request, after, result),
    ensures
        match request {
            RequestView::WriteSingleRegister(addr, v) => {
                &&& result == Ok::<_, Exception>(ResponseView::WriteSingleRegister(addr, v))
                &&& (after@.holding_registers)(a) == (if a == addr {
                    v
                } else {
                    (before@.holding_registers)(a)
                })
            },
            RequestView::WriteMultipleRegisters(addr, v) => {
                &&& result matches Ok(ResponseView::WriteMultipleRegisters(at, n))
                &&& at == addr && n == v.len() % 65536
                &&& (after@.holding_registers)(a) == (if 0 <= a - addr < v.len() {
                    v[a - addr]
                } else {
                    (before@.holding_registers)(a)
                })
            },
            RequestView::ReadWriteMultipleRegisters(_, _, addr, v) => (after@.holding_registers)(a)
                == (if 0 <= a - addr < v.len() {
                v[a - addr]
            } else {
                (before@.holding_registers)(a)
            }),
            RequestView::MaskWriteRegister(addr, m, o) => {
                let old_value = (before@.holding_registers)(addr as int);
                &&& result == Ok::<_, Exception>(ResponseView::MaskWriteRegister(addr, m, o))
                &&& (after@.holding_registers)(a) == (if a == addr {
                    (old_value & m) | (o & !m)
                } else {
                    (before@.holding_registers)(a)
                })
            },
            _ => true,
        },
        request is WriteSingleRegister || request is WriteMultipleRegisters
            || request is ReadWriteMultipleRegisters || request is MaskWriteRegister ==> {
            &&& after@.coils == before@.coils
            &&& after@.discrete_inputs == before@.discrete_inputs
            &&& after@.input_registers == before@.input_registers
        },
{
}

/// A diagnostic request gets its data back for sub-function 0 and a zero for the
/// counters, and is refused for every other sub-function. A disconnect is refused.
/// Neither changes anything.
pub proof fn law_diagnostics(
    before: SlaveStore,
    slave: u8,
    sf: u16,
    data: u16,
    after: SlaveStore,
    result: Result<ResponseView, Exception>,
)
    ensures
        SlaveStore::serves(before, slave, RequestView::Diagnostic(sf, data), after, result) ==> {
            &&& after@ == before@
            &&& sf == 0 ==> result == Ok::<_, Exception>(ResponseView::Diagnostic(0, data))
            &&& 10 <= sf <= 14 ==> result == Ok::<_, Exception>(ResponseView::Diagnostic(sf, 0))
            &&& 0 < sf < 10 || sf > 14 ==> result == Err::<ResponseView, _>(
                Exception::IllegalDataValue,
            )
        },
        SlaveStore::serves(before, slave, RequestView::Disconnect, after, result) ==> {
            &&& after@ == before@
            &&& result == Err::<ResponseView, _>(Exception::IllegalFunction)
        },
{
}

/// A client that reads from a store gets as many values as it asked for, and each is
/// the one that the store holds at its address in the table of that sort.
pub proof fn law_store_is_read_through_a_client(
    before: SlaveStore,
    slave: u8,
    addr: u16,
    n: u16,
    after: SlaveStore,
    rsp: Response,
    i: int,
)
    requires
        0 <= i < n,
    ensures
        SlaveStore::serves(before, slave, RequestView::ReadCoils(addr, n), after, Ok(rsp@)) ==> {
            &&& client::coils_in(client::reply_view(Ok(rsp))) matches Ok(v)
            &&& v.len() == n
            &&& v[i] == (before@.coils)(addr + i)
        },
        SlaveStore::serves(before, slave, RequestView::ReadDiscreteInputs(addr, n), after, Ok(rsp@))
            ==> {
            &&& client::discrete_inputs_in(client::reply_view(Ok(rsp))) matches Ok(v)
            &&& v.len() == n
            &&& v[i] == (before@.discrete_inputs)(addr + i)
        },
        SlaveStore::serves(
            before,
            slave,
            RequestView::ReadHoldingRegisters(addr, n),
            after,
            Ok(rsp@),
        ) ==> {
            &&& client::holding_registers_in(client::reply_view(Ok(rsp))) matches Ok(v)
            &&& v.len() == n
            &&& v[i] == (before@.holding_registers)(addr + i)
        },
        SlaveStore::serves(before, slave, RequestView::ReadInputRegisters(addr, n), after, Ok(rsp@))
            ==> {
            &&& client::input_registers_in(client::reply_view(Ok(rsp))) matches Ok(v)
            &&& v.len() == n
            &&& v[i] == (before@.input_registers)(addr + i)
        },
{
}

// ── Over time ───────────────────────────────────────────────────────────

/// Whatever requests a store serves, its discrete inputs and input registers stay as
/// they were written, and are read so.
pub proof fn law_inputs_outlast_requests(
    s: StoreState,
    requests: Seq<RequestView>,
    addr: u16,
    n: u16,
)
    ensures
        ({
            let t = requests.fold_left(s, |t: StoreState, r: RequestView| t.apply(r));
            &&& t.discrete_inputs == s.discrete_inputs
            &&& t.input_registers == s.input_registers
            &&& t.reply(RequestView::ReadDiscreteInputs(addr, n)) == Ok::<_, Exception>(
                ResponseView::ReadDiscreteInputs(
                    Seq::new(n as nat, |i: int| (s.discrete_inputs)(addr + i)),
                ),
            )
            &&& t.reply(RequestView::ReadInputRegisters(addr, n)) == Ok::<_, Exception>(
                ResponseView::ReadInputRegisters(
                    Seq::new(n as nat, |i: int| (s.input_registers)(addr + i)),
                ),
            )
        }),
    decreases requests.len(),
{
    let f = |t: StoreState, r: RequestView| t.apply(r);
    let t = requests.fold_left(s, f);
    reveal_with_fuel(Seq::fold_left, 2);
    if requests.len() > 0 {
        law_inputs_outlast_requests(s, requests.drop_last(), addr, n);
        let u = requests.drop_last().fold_left(s, f);
        assert(t == u.apply(requests.last()));
        super::laws::law_writes_change_what_they_name(u, requests.last());
    }
    assert(super::get_all(t.discrete_inputs, addr as int, n as nat) =~= Seq::new(
        n as nat,
        |i: int| (s.discrete_inputs)(addr + i),
    ));
    assert(super::get_all(t.input_registers, addr as int, n as nat) =~= Seq::new(
        n as nat,
        |i: int| (s.input_registers)(addr + i),
    ));
}

} // verus!
