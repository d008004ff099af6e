//! In-memory store of coils and registers.
//!
//! A store behaves as four unbounded tables, in which everything that was never
//! written is off or zero. Registers are kept in a list that grows on demand,
//! coils and discrete inputs in lists of bytes, eight to a byte.

use vstd::prelude::*;

use crate::frame::decode;
use crate::frame::encode;
use crate::frame::{coil_slice, register_slice};
use crate::frame::{Exception, Request, RequestView, Response, ResponseView};
use crate::server::Service;

pub mod laws;
pub mod table_laws;

verus! {

/// How many registers and coils a new store has room for.
pub const DEFAULT_REG_COUNT: usize = 1024;

/// What a store holds: a value for every address.
#[verifier::ext_equal]
pub struct StoreState {
    pub coils: spec_fn(int) -> bool,
    pub discrete_inputs: spec_fn(int) -> bool,
    pub holding_registers: spec_fn(int) -> u16,
    pub input_registers: spec_fn(int) -> u16,
}

/// The table with one entry replaced.
pub open spec fn set_one<T>(table: spec_fn(int) -> T, addr: int, value: T) -> spec_fn(int) -> T {
    |a: int|
        if a == addr {
            value
        } else {
            table(a)
        }
}

/// The table with consecutive entries replaced.
pub open spec fn set_all<T>(table: spec_fn(int) -> T, addr: int, values: Seq<T>) -> spec_fn(
    int,
) -> T {
    |a: int|
        if addr <= a < addr + values.len() {
            values[a - addr]
        } else {
            table(a)
        }
}

/// Consecutive entries of a table.
pub open spec fn get_all<T>(table: spec_fn(int) -> T, addr: int, count: nat) -> Seq<T> {
    Seq::new(count, |i: int| table(addr + i))
}

/// The table with each pair of address and value entered, the last pair last.
pub open spec fn set_pairs(table: spec_fn(int) -> u16, pairs: Seq<(u16, u16)>) -> spec_fn(
    int,
) -> u16
    decreases pairs.len(),
{
    if pairs.len() == 0 {
        table
    } else {
        set_one(set_pairs(table, pairs.drop_last()), pairs.last().0 as int, pairs.last().1)
    }
}

/// What a mask write makes of a register.
pub open spec fn masked(current: u16, and_mask: u16, or_mask: u16) -> u16 {
    (current & and_mask) | (or_mask & !and_mask)
}

impl StoreState {
    /// The store in which nothing was written.
    pub open spec fn empty() -> StoreState {
        StoreState {
            coils: |a: int| false,
            discrete_inputs: |a: int| false,
            holding_registers: |a: int| 0u16,
            input_registers: |a: int| 0u16,
        }
    }

    /// What a request makes of the store.
    pub open spec fn apply(self, request: RequestView) -> StoreState {
        match request {
            RequestView::WriteSingleCoil(addr, v) => StoreState {
                coils: set_one(self.coils, addr as int, v),
                ..self
            },
            RequestView::WriteSingleRegister(addr, v) => StoreState {
                holding_registers: set_one(self.holding_registers, addr as int, v),
                ..self
            },
            RequestView::WriteMultipleCoils(addr, v) => StoreState {
                coils: set_all(self.coils, addr as int, v),
                ..self
            },
            RequestView::WriteMultipleRegisters(addr, v) => StoreState {
                holding_registers: set_all(self.holding_registers, addr as int, v),
                ..self
            },
            RequestView::ReadWriteMultipleRegisters(_, _, addr, v) => StoreState {
                holding_registers: set_all(self.holding_registers, addr as int, v),
                ..self
            },
            RequestView::MaskWriteRegister(addr, m, o) => StoreState {
                holding_registers: set_one(
                    self.holding_registers,
                    addr as int,
                    masked((self.holding_registers)(addr as int), m, o),
                ),
                ..self
            },
            _ => self,
        }
    }

    /// How the store answers a request. A read-write request reads before it
    /// writes.
    pub open spec fn reply(self, request: RequestView) -> Result<ResponseView, Exception> {
        match request {
            RequestView::ReadCoils(addr, n) => Ok(
                ResponseView::ReadCoils(get_all(self.coils, addr as int, n as nat)),
            ),
            RequestView::ReadDiscreteInputs(addr, n) => Ok(
                ResponseView::ReadDiscreteInputs(
                    get_all(self.discrete_inputs, addr as int, n as nat),
                ),
            ),
            RequestView::ReadHoldingRegisters(addr, n) => Ok(
                ResponseView::ReadHoldingRegisters(
                    get_all(self.holding_registers, addr as int, n as nat),
                ),
            ),
            RequestView::ReadInputRegisters(addr, n) => Ok(
                ResponseView::ReadInputRegisters(
                    get_all(self.input_registers, addr as int, n as nat),
                ),
            ),
            RequestView::WriteSingleCoil(addr, v) => Ok(ResponseView::WriteSingleCoil(addr, v)),
            RequestView::WriteSingleRegister(addr, v) => Ok(
                ResponseView::WriteSingleRegister(addr, v),
            ),
            RequestView::WriteMultipleCoils(addr, v) => Ok(
                ResponseView::WriteMultipleCoils(addr, encode::count16(v.len())),
            ),
            RequestView::WriteMultipleRegisters(addr, v) => Ok(
                ResponseView::WriteMultipleRegisters(addr, encode::count16(v.len())),
            ),
            RequestView::ReadWriteMultipleRegisters(addr, n, _, _) => Ok(
                ResponseView::ReadWriteMultipleRegisters(
                    get_all(self.holding_registers, addr as int, n as nat),
                ),
            ),
            RequestView::MaskWriteRegister(addr, m, o) => Ok(
                ResponseView::MaskWriteRegister(addr, m, o),
            ),
            RequestView::Diagnostic(sf, data) => if sf == 0 {
                Ok(ResponseView::Diagnostic(sf, data))
            } else if 0x0A <= sf <= 0x0E {
                Ok(ResponseView::Diagnostic(sf, 0))
            } else {
                Err(Exception::IllegalDataValue)
            },
            RequestView::Disconnect => Err(Exception::IllegalFunction),
        }
    }
}

/// The coil at an address of packed bytes, off beyond the end.
pub closed spec fn bit_at(bytes: Seq<u8>, a: int) -> bool {
    0 <= a && a / 8 < bytes.len() && decode::bit(bytes[a / 8], a % 8)
}

/// The register at an address of a list, zero beyond the end.
pub closed spec fn register_at(regs: Seq<u16>, a: int) -> u16 {
    if 0 <= a < regs.len() {
        regs[a]
    } else {
        0
    }
}

/// In-memory store of coils, discrete inputs, holding and input registers.
pub struct SlaveStore {
    coils: Vec<u8>,
    discrete_inputs: Vec<u8>,
    holding_registers: Vec<u16>,
    input_registers: Vec<u16>,
}

impl View for SlaveStore {
    type V = StoreState;

    closed spec fn view(&self) -> StoreState {
        StoreState {
            coils: |a: int| bit_at(self.coils@, a),
            discrete_inputs: |a: int| bit_at(self.discrete_inputs@, a),
            holding_registers: |a: int| register_at(self.holding_registers@, a),
            input_registers: |a: int| register_at(self.input_registers@, a),
        }
    }
}

// ── Bits and registers ──────────────────────────────────────────────────

/// No bit of a zero byte is set.
proof fn lemma_zero_bit(k: int)
    requires
        0 <= k < 8,
    ensures
        !decode::bit(0, k),
{
    let j = k as u8;
    assert((0u8 >> j) & 1 == 0) by (bit_vector);
}

/// Setting or clearing bit `k` changes that bit alone.
proof fn lemma_write_bit(b: u8, k: u8, j: u8)
    requires
        k < 8,
        j < 8,
    ensures
        decode::bit(b | (1u8 << k), j as int) == (j == k || decode::bit(b, j as int)),
        decode::bit(b & !(1u8 << k), j as int) == (j != k && decode::bit(b, j as int)),
{
    assert((((b | (1u8 << k)) >> j) & 1 == 1) == (j == k || (b >> j) & 1 == 1)) by (bit_vector)
        requires
            k < 8,
            j < 8,
    ;
    assert((((b & !(1u8 << k)) >> j) & 1 == 1) == (j != k && (b >> j) & 1 == 1)) by (bit_vector)
        requires
            k < 8,
            j < 8,
    ;
}

fn read_bit(bytes: &Vec<u8>, a: usize) -> (r: bool)
    ensures
        r == bit_at(bytes@, a as int),
{
    let byte_idx: usize = a / 8;
    let bit_idx: u8 = (a % 8) as u8;
    if byte_idx < bytes.len() {
        (bytes[byte_idx] >> bit_idx) & 1 == 1
    } else {
        false
    }
}

/// Write a bit, growing the list if needed.
fn write_bit(bytes: &mut Vec<u8>, a: usize, value: bool)
    ensures
        forall|k: int| #[trigger]
            bit_at(final(bytes)@, k) == if k == a {
                value
            } else {
                bit_at(old(bytes)@, k)
            },
{
    let byte_idx: usize = a / 8;
    let bit_idx: u8 = (a % 8) as u8;
    if byte_idx >= bytes.len() {
        bytes.resize(byte_idx + 1, 0);
    }
    let ghost grown = bytes@;
    assert forall|k: int| bit_at(grown, k) == bit_at(old(bytes)@, k) by {
        if 0 <= k {
            lemma_zero_bit(k % 8);
        }
    }
    let b: u8 = bytes[byte_idx];
    if value {
        bytes[byte_idx] = b | (1u8 << bit_idx);
    } else {
        bytes[byte_idx] = b & !(1u8 << bit_idx);
    }
    assert forall|k: int| #[trigger]
        bit_at(bytes@, k) == if k == a {
            value
        } else {
            bit_at(old(bytes)@, k)
        } by {
        assert(bit_at(grown, k) == bit_at(old(bytes)@, k));
        if 0 <= k && k / 8 == byte_idx {
            lemma_write_bit(b, bit_idx, (k % 8) as u8);
        }
    }
}

fn read_bits(bytes: &Vec<u8>, addr: u16, count: u16) -> (r: Vec<bool>)
    ensures
        r@ == Seq::new(count as nat, |i: int| bit_at(bytes@, addr + i)),
{
    let mut result: Vec<bool> = Vec::new();
    let mut i: u16 = 0;
    while i < count
        invariant
            i <= count,
            result@ == Seq::new(i as nat, |k: int| bit_at(bytes@, addr + k)),
        decreases count - i,
    {
        result.push(read_bit(bytes, addr as usize + i as usize));
        i = i + 1;
        assert(result@ =~= Seq::new(i as nat, |k: int| bit_at(bytes@, addr + k)));
    }
    result
}

fn read_register(regs: &Vec<u16>, a: usize) -> (r: u16)
    ensures
        r == register_at(regs@, a as int),
{
    if a < regs.len() {
        regs[a]
    } else {
        0
    }
}

fn read_registers(regs: &Vec<u16>, addr: u16, count: u16) -> (r: Vec<u16>)
    ensures
        r@ == Seq::new(count as nat, |i: int| register_at(regs@, addr + i)),
{
    let mut result: Vec<u16> = Vec::new();
    let mut i: u16 = 0;
    while i < count
        invariant
            i <= count,
            result@ == Seq::new(i as nat, |k: int| register_at(regs@, addr + k)),
        decreases count - i,
    {
        result.push(read_register(regs, addr as usize + i as usize));
        i = i + 1;
        assert(result@ =~= Seq::new(i as nat, |k: int| register_at(regs@, addr + k)));
    }
    result
}

/// Write a register, growing the list if needed.
fn write_register(regs: &mut Vec<u16>, a: usize, value: u16)
    requires
        a < usize::MAX,
    ensures
        forall|k: int| #[trigger]
            register_at(final(regs)@, k) == if k == a {
                value
            } else {
                register_at(old(regs)@, k)
            },
{
    if a >= regs.len() {
        regs.resize(a + 1, 0);
    }
    regs[a] = value;
}

/// Write consecutive bits.
fn write_bits(bytes: &mut Vec<u8>, addr: u16, values: &[bool])
    requires
        values@.len() <= isize::MAX,
    ensures
        forall|k: int| #[trigger]
            bit_at(final(bytes)@, k) == if addr <= k < addr + values@.len() {
                values@[k - addr]
            } else {
                bit_at(old(bytes)@, k)
            },
{
    let ghost start = bytes@;
    let mut i: usize = 0;
    while i < values.len()
        invariant
            i <= values@.len() <= isize::MAX,
            forall|k: int| #[trigger]
                bit_at(bytes@, k) == if addr <= k < addr + i {
                    values@[k - addr]
                } else {
                    bit_at(start, k)
                },
        decreases values@.len() - i,
    {
        write_bit(bytes, addr as usize + i, values[i]);
        i = i + 1;
    }
}

/// Write consecutive registers.
fn write_registers(regs: &mut Vec<u16>, addr: u16, values: &[u16])
    requires
        values@.len() <= isize::MAX,
    ensures
        forall|k: int| #[trigger]
            register_at(final(regs)@, k) == if addr <= k < addr + values@.len() {
                values@[k - addr]
            } else {
                register_at(old(regs)@, k)
            },
{
    let ghost start = regs@;
    let mut i: usize = 0;
    while i < values.len()
        invariant
            i <= values@.len() <= isize::MAX,
            forall|k: int| #[trigger]
                register_at(regs@, k) == if addr <= k < addr + i {
                    values@[k - addr]
                } else {
                    register_at(start, k)
                },
        decreases values@.len() - i,
    {
        write_register(regs, addr as usize + i, values[i]);
        i = i + 1;
    }
}

// ── The store ───────────────────────────────────────────────────────────

impl Default for SlaveStore {
    /// An empty store.
    fn default() -> (r: Self)
        ensures
            r@ == StoreState::empty(),
    {
        let r = SlaveStore {
            coils: vec![0u8; DEFAULT_REG_COUNT / 8],
            discrete_inputs: vec![0u8; DEFAULT_REG_COUNT / 8],
            holding_registers: vec![0u16; DEFAULT_REG_COUNT],
            input_registers: vec![0u16; DEFAULT_REG_COUNT],
        };
        assert forall|a: int| !bit_at(r.coils@, a) && !bit_at(r.discrete_inputs@, a) by {
            if 0 <= a {
                lemma_zero_bit(a % 8);
            }
        }
        assert(r@ =~= StoreState::empty());
        r
    }
}

impl SlaveStore {
    /// An empty store, with room for 1024 registers and coils.
    pub fn new() -> (r: Self)
        ensures
            r@ == StoreState::empty(),
    {
        SlaveStore::default()
    }

    /// A store with the given holding registers, as pairs of address and value.
    pub fn with_holding_registers(regs: &[(u16, u16)]) -> (r: Self)
        ensures
            r@ == (StoreState {
                holding_registers: set_pairs(StoreState::empty().holding_registers, regs@),
                ..StoreState::empty()
            }),
    {
        let mut store = SlaveStore::new();
        let mut i: usize = 0;
        while i < regs.len()
            invariant
                i <= regs@.len(),
                store@ == (StoreState {
                    holding_registers: set_pairs(
                        StoreState::empty().holding_registers,
                        regs@.take(i as int),
                    ),
                    ..StoreState::empty()
                }),
            decreases regs@.len() - i,
        {
            let (addr, val) = regs[i];
            store.write_holding_register(addr, val);
            assert(regs@.take(i + 1).drop_last() =~= regs@.take(i as int));
            i = i + 1;
        }
        assert(regs@.take(i as int) =~= regs@);
        store
    }

    /// Read a coil. An address that was never written is off.
    pub fn read_coil(&self, addr: u16) -> (r: bool)
        ensures
            r == (self@.coils)(addr as int),
    {
        read_bit(&self.coils, addr as usize)
    }

    /// Write a coil.
    pub fn write_coil(&mut self, addr: u16, value: bool)
        ensures
            final(self)@ == (StoreState {
                coils: set_one(old(self)@.coils, addr as int, value),
                ..old(self)@
            }),
    {
        write_bit(&mut self.coils, addr as usize, value);
        assert(self@ =~= (StoreState {
            coils: set_one(old(self)@.coils, addr as int, value),
            ..old(self)@
        }));
    }

    /// Read consecutive coils.
    pub fn read_coils_range(&self, addr: u16, count: u16) -> (r: Vec<bool>)
        ensures
            r@ == get_all(self@.coils, addr as int, count as nat),
    {
        let r = read_bits(&self.coils, addr, count);
        assert(r@ =~= get_all(self@.coils, addr as int, count as nat));
        r
    }

    /// Read a discrete input. An address that was never written is off.
    pub fn read_discrete_input(&self, addr: u16) -> (r: bool)
        ensures
            r == (self@.discrete_inputs)(addr as int),
    {
        read_bit(&self.discrete_inputs, addr as usize)
    }

    /// Write a discrete input. No request does this: it is for simulation and
    /// tests.
    pub fn write_discrete_input(&mut self, addr: u16, value: bool)
        ensures
            final(self)@ == (StoreState {
                discrete_inputs: set_one(old(self)@.discrete_inputs, addr as int, value),
                ..old(self)@
            }),
    {
        write_bit(&mut self.discrete_inputs, addr as usize, value);
        assert(self@ =~= (StoreState {
            discrete_inputs: set_one(old(self)@.discrete_inputs, addr as int, value),
            ..old(self)@
        }));
    }

    /// Read consecutive discrete inputs.
    pub fn read_discrete_inputs_range(&self, addr: u16, count: u16) -> (r: Vec<bool>)
        ensures
            r@ == get_all(self@.discrete_inputs, addr as int, count as nat),
    {
        let r = read_bits(&self.discrete_inputs, addr, count);
        assert(r@ =~= get_all(self@.discrete_inputs, addr as int, count as nat));
        r
    }

    /// Read a holding register. An address that was never written holds 0.
    pub fn read_holding_register(&self, addr: u16) -> (r: u16)
        ensures
            r == (self@.holding_registers)(addr as int),
    {
        read_register(&self.holding_registers, addr as usize)
    }

    /// Read consecutive holding registers.
    pub fn read_holding_range(&self, addr: u16, count: u16) -> (r: Vec<u16>)
        ensures
            r@ == get_all(self@.holding_registers, addr as int, count as nat),
    {
        let r = read_registers(&self.holding_registers, addr, count);
        assert(r@ =~= get_all(self@.holding_registers, addr as int, count as nat));
        r
    }

    /// Write a holding register.
    pub fn write_holding_register(&mut self, addr: u16, value: u16)
        ensures
            final(self)@ == (StoreState {
                holding_registers: set_one(old(self)@.holding_registers, addr as int, value),
                ..old(self)@
            }),
    {
        write_register(&mut self.holding_registers, addr as usize, value);
        assert(self@ =~= (StoreState {
            holding_registers: set_one(old(self)@.holding_registers, addr as int, value),
            ..old(self)@
        }));
    }

    /// Read an input register. An address that was never written holds 0.
    pub fn read_input_register(&self, addr: u16) -> (r: u16)
        ensures
            r == (self@.input_registers)(addr as int),
    {
        read_register(&self.input_registers, addr as usize)
    }

    /// Read consecutive input registers.
    pub fn read_input_range(&self, addr: u16, count: u16) -> (r: Vec<u16>)
        ensures
            r@ == get_all(self@.input_registers, addr as int, count as nat),
    {
        let r = read_registers(&self.input_registers, addr, count);
        assert(r@ =~= get_all(self@.input_registers, addr as int, count as nat));
        r
    }

    /// Write an input register. No request does this: it is for simulation and
    /// tests.
    pub fn write_input_register(&mut self, addr: u16, value: u16)
        ensures
            final(self)@ == (StoreState {
                input_registers: set_one(old(self)@.input_registers, addr as int, value),
                ..old(self)@
            }),
    {
        write_register(&mut self.input_registers, addr as usize, value);
        assert(self@ =~= (StoreState {
            input_registers: set_one(old(self)@.input_registers, addr as int, value),
            ..old(self)@
        }));
    }

    fn write_coils(&mut self, addr: u16, values: &[bool])
        requires
            values@.len() <= isize::MAX,
        ensures
            final(self)@ == (StoreState {
                coils: set_all(old(self)@.coils, addr as int, values@),
                ..old(self)@
            }),
    {
        write_bits(&mut self.coils, addr, values);
        assert(self@ =~= (StoreState {
            coils: set_all(old(self)@.coils, addr as int, values@),
            ..old(self)@
        }));
    }

    fn write_holding_registers(&mut self, addr: u16, values: &[u16])
        requires
            values@.len() <= isize::MAX,
        ensures
            final(self)@ == (StoreState {
                holding_registers: set_all(old(self)@.holding_registers, addr as int, values@),
                ..old(self)@
            }),
    {
        write_registers(&mut self.holding_registers, addr, values);
        assert(self@ =~= (StoreState {
            holding_registers: set_all(old(self)@.holding_registers, addr as int, values@),
            ..old(self)@
        }));
    }
}

impl Service for SlaveStore {
    open spec fn serves(
        before: Self,
        slave: u8,
        request: RequestView,
        after: Self,
        result: Result<ResponseView, Exception>,
    ) -> bool {
        &&& after@ == before@.apply(request)
        &&& result == before@.reply(request)
    }

    /// Answer a request from the store, whatever the slave address.
    fn call(&mut self, slave: u8, request: Request<'_>) -> (r: Result<Response, Exception>) {
        Ok(
            match request {
                Request::ReadCoils(addr, cnt) => Response::ReadCoils(
                    self.read_coils_range(addr, cnt),
                ),
                Request::ReadDiscreteInputs(addr, cnt) => Response::ReadDiscreteInputs(
                    self.read_discrete_inputs_range(addr, cnt),
                ),
                Request::ReadHoldingRegisters(addr, cnt) => Response::ReadHoldingRegisters(
                    self.read_holding_range(addr, cnt),
                ),
                Request::ReadInputRegisters(addr, cnt) => Response::ReadInputRegisters(
                    self.read_input_range(addr, cnt),
                ),
                Request::WriteSingleCoil(addr, value) => {
                    self.write_coil(addr, value);
                    Response::WriteSingleCoil(addr, value)
                },
                Request::WriteSingleRegister(addr, value) => {
                    self.write_holding_register(addr, value);
                    Response::WriteSingleRegister(addr, value)
                },
                Request::WriteMultipleCoils(addr, values) => {
                    let values = coil_slice(&values);
                    self.write_coils(addr, values);
                    Response::WriteMultipleCoils(addr, (values.len() % 65536) as u16)
                },
                Request::WriteMultipleRegisters(addr, values) => {
                    let values = register_slice(&values);
                    self.write_holding_registers(addr, values);
                    Response::WriteMultipleRegisters(addr, (values.len() % 65536) as u16)
                },
                Request::MaskWriteRegister(addr, and_mask, or_mask) => {
                    let current: u16 = self.read_holding_register(addr);
                    self.write_holding_register(
                        addr,
                        (current & and_mask) | (or_mask & !and_mask),
                    );
                    Response::MaskWriteRegister(addr, and_mask, or_mask)
                },
                Request::ReadWriteMultipleRegisters(read_addr, read_qty, write_addr, values) => {
                    let regs = self.read_holding_range(read_addr, read_qty);
                    self.write_holding_registers(write_addr, register_slice(&values));
                    Response::ReadWriteMultipleRegisters(regs)
                },
                Request::Diagnostic(sf, data) => match sf {
                    // Return query data.
                    0x0000 => Response::Diagnostic(sf, data),
                    // Clear counters, and read counters. None is kept.
                    0x000A | 0x000B | 0x000C | 0x000D | 0x000E => Response::Diagnostic(sf, 0x0000),
                    _ => return Err(Exception::IllegalDataValue),
                },
                Request::Disconnect => return Err(Exception::IllegalFunction),
            },
        )
    }
}

} // verus!
