//! The four-bit register and the arithmetic-logic unit.
//!
//! The unit holds two operand registers and a result register. Its
//! combinational function is recomputed on every call of `execute`, but what
//! it computes becomes visible only when the result register latches it on a
//! rising clock edge.

use vstd::prelude::*;
use crate::components::adders::{four_bit_adder, sum_with_carry};
use crate::components::gates::{
    and_gate, bool_array_to_u8, lemma_bits_of_value, nibble_bits, nibble_value, or_gate,
    u8_to_bool_array, xor_gate,
};
use crate::components::memory::{read_at, rising_edge, write_at, DFlipFlop, Memory};

verus! {

/// Bitwise AND of the operands.
pub const OP_AND: u8 = 0;

/// Bitwise OR of the operands.
pub const OP_OR: u8 = 1;

/// Bitwise XOR of the operands.
pub const OP_XOR: u8 = 2;

/// Sum of the operands, truncated to four bits.
pub const OP_ADD: u8 = 3;

/// Load operand A from memory at the address held in operand B.
pub const OP_LOAD: u8 = 4;

/// Store operand A to memory at the address held in operand B.
pub const OP_STORE: u8 = 5;

/// What a four-bit register remembers: its four bits, least significant
/// first, and the clock sample that it saw last.
pub struct RegisterState {
    pub bits: Seq<bool>,
    pub prev_clock: bool,
}

impl RegisterState {
    /// A register of four `false` bits that has seen a low clock.
    pub open spec fn zeroed() -> RegisterState {
        RegisterState { bits: seq![false, false, false, false], prev_clock: false }
    }

    /// The register after one sample: all four bits are taken together on a
    /// rising edge and none otherwise; the clock sample is always recorded.
    pub open spec fn load(self, data: Seq<bool>, clock: bool) -> RegisterState {
        RegisterState {
            bits: if rising_edge(self.prev_clock, clock) { data } else { self.bits },
            prev_clock: clock,
        }
    }
}

/// Presents `data[i]` and the same clock sample to each cell `i`.
fn clock_cells(cells: &mut [DFlipFlop; 4], data: [bool; 4], clock: bool)
    ensures
        forall|j: int|
            0 <= j < 4 ==> (#[trigger] final(cells)@[j])@ == old(cells)@[j]@.step(data@[j], clock),
    no_unwind
{
    let mut i: usize = 0;
    while i < 4
        invariant
            i <= 4,
            forall|j: int|
                0 <= j < i ==> (#[trigger] cells@[j])@ == old(cells)@[j]@.step(data@[j], clock),
            forall|j: int| i <= j < 4 ==> (#[trigger] cells@[j]) == old(cells)@[j],
        decreases 4 - i,
    {
        cells[i].update(data[i], clock);
        i += 1;
    }
}

/// Four bit cells that are loaded and read in parallel.
pub struct Register4Bit {
    flip_flops: [DFlipFlop; 4],
}

impl View for Register4Bit {
    type V = RegisterState;

    closed spec fn view(&self) -> RegisterState {
        RegisterState {
            bits: Seq::new(4, |i: int| self.flip_flops@[i]@.state),
            prev_clock: self.flip_flops@[0]@.prev_clock,
        }
    }
}

impl Register4Bit {
    /// Every cell has seen the same clock, since the cells are only ever
    /// clocked together.
    #[verifier::type_invariant]
    spec fn cells_share_clock(self) -> bool {
        forall|i: int| 0 <= i < 4 ==> (#[trigger] self.flip_flops@[i])@.prev_clock
            == self.flip_flops@[0]@.prev_clock
    }

    /// A register of four `false` bits that has seen a low clock.
    pub fn new() -> (register: Self)
        ensures
            register@ == RegisterState::zeroed(),
    {
        let register = Register4Bit {
            flip_flops: [DFlipFlop::new(), DFlipFlop::new(), DFlipFlop::new(), DFlipFlop::new()],
        };
        assert(register@.bits =~= seq![false, false, false, false]);
        register
    }

    /// Presents `data` and one clock sample to all four cells at once.
    pub fn load(&mut self, data: [bool; 4], clock: bool)
        ensures
            final(self)@ == old(self)@.load(data@, clock),
    {
        proof {
            use_type_invariant(&*self);
        }
        clock_cells(&mut self.flip_flops, data, clock);
        assert(self@.bits =~= old(self)@.load(data@, clock).bits);
    }

    /// The four stored bits. Reading does not change the register.
    pub fn output(&self) -> (bits: [bool; 4])
        ensures
            bits@ == self@.bits,
    {
        let mut result = [false; 4];
        for i in 0..4usize
            invariant
                forall|j: int| 0 <= j < i ==> result@[j] == self.flip_flops@[j]@.state,
        {
            result[i] = self.flip_flops[i].output();
        }
        assert(result@ =~= self@.bits);
        result
    }

    /// The clock sample that the register saw last.
    pub(crate) fn prev_clock(&self) -> (clock: bool)
        ensures
            clock == self@.prev_clock,
    {
        self.flip_flops[0].prev_clock()
    }
}

/// Every register is four bits wide.
pub proof fn lemma_register_width(register: &Register4Bit)
    ensures
        register@.bits.len() == 4,
{
}

/// A register changes its bits only at a rising edge, and then takes all
/// four data bits at once.
pub proof fn lemma_register_changes_only_on_rising_edge(
    register: RegisterState,
    data: Seq<bool>,
    clock: bool,
)
    ensures
        !rising_edge(register.prev_clock, clock) ==> register.load(data, clock).bits
            == register.bits,
        rising_edge(register.prev_clock, clock) ==> register.load(data, clock).bits == data,
{
}

/// While the clock stays high a register does not take new data.
pub proof fn lemma_register_holds_while_clock_high(
    register: RegisterState,
    first: Seq<bool>,
    second: Seq<bool>,
)
    ensures
        register.load(first, true).load(second, true) == register.load(first, true),
{
}

/// The four-bit word whose bit `i` is `a[i] && b[i]`.
pub open spec fn bitwise_and(a: Seq<bool>, b: Seq<bool>) -> Seq<bool> {
    Seq::new(4, |i: int| a[i] && b[i])
}

/// The four-bit word whose bit `i` is `a[i] || b[i]`.
pub open spec fn bitwise_or(a: Seq<bool>, b: Seq<bool>) -> Seq<bool> {
    Seq::new(4, |i: int| a[i] || b[i])
}

/// The four-bit word whose bit `i` is `a[i] != b[i]`.
pub open spec fn bitwise_xor(a: Seq<bool>, b: Seq<bool>) -> Seq<bool> {
    Seq::new(4, |i: int| a[i] != b[i])
}

/// The word that the unit presents to its result register for `op_code`
/// with operands `a` and `b`. The four computing operations present what
/// they compute, the sum without its carry. Every other code, the two
/// memory operations included, computes nothing and presents the word
/// `current` that the result register already holds, so that the result is
/// left as it is.
pub open spec fn alu_output(op_code: u8, a: Seq<bool>, b: Seq<bool>, current: Seq<bool>) -> Seq<
    bool,
> {
    if op_code == OP_AND {
        bitwise_and(a, b)
    } else if op_code == OP_OR {
        bitwise_or(a, b)
    } else if op_code == OP_XOR {
        bitwise_xor(a, b)
    } else if op_code == OP_ADD {
        sum_with_carry(a, b).0
    } else {
        current
    }
}

/// What the unit remembers: its two operand registers and its result
/// register.
pub struct AluState {
    pub reg_a: RegisterState,
    pub reg_b: RegisterState,
    pub result: RegisterState,
}

impl AluState {
    /// The memory address that operand B holds.
    pub open spec fn address(self) -> u16 {
        nibble_value(self.reg_b.bits) as u16
    }

    /// The unit after one call of `execute`, given the bytes of the memory
    /// before the call.
    ///
    /// Operand A changes only under `OP_LOAD`, where it is presented with
    /// the four low bits of the byte at the address in operand B. Operand B
    /// never changes. The result register is presented with `alu_output`
    /// of the operands as they were before the call.
    pub open spec fn execute(self, op_code: u8, clock: bool, memory: Seq<u8>) -> AluState {
        AluState {
            reg_a: if op_code == OP_LOAD {
                self.reg_a.load(nibble_bits(read_at(memory, self.address()) as nat), clock)
            } else {
                self.reg_a
            },
            reg_b: self.reg_b,
            result: self.result.load(
                alu_output(op_code, self.reg_a.bits, self.reg_b.bits, self.result.bits),
                clock,
            ),
        }
    }

    /// The bytes of the memory after one call of `execute`. They change
    /// only under `OP_STORE` at a rising edge, as the result register sees
    /// it: operand A, as it was before the call, is written as a byte at
    /// the address in operand B.
    pub open spec fn memory_after(self, op_code: u8, clock: bool, memory: Seq<u8>) -> Seq<u8> {
        if op_code == OP_STORE && rising_edge(self.result.prev_clock, clock) {
            write_at(memory, self.address(), nibble_value(self.reg_a.bits) as u8)
        } else {
            memory
        }
    }
}

/// A four-bit arithmetic-logic unit with two operand registers and a result
/// register.
pub struct ALU4Bit {
    reg_a: Register4Bit,
    reg_b: Register4Bit,
    result_reg: Register4Bit,
}

impl View for ALU4Bit {
    type V = AluState;

    closed spec fn view(&self) -> AluState {
        AluState { reg_a: self.reg_a@, reg_b: self.reg_b@, result: self.result_reg@ }
    }
}

impl ALU4Bit {
    /// A unit whose three registers hold zero and have seen a low clock.
    pub fn new() -> (alu: Self)
        ensures
            alu@ == (AluState {
                reg_a: RegisterState::zeroed(),
                reg_b: RegisterState::zeroed(),
                result: RegisterState::zeroed(),
            }),
    {
        ALU4Bit {
            reg_a: Register4Bit::new(),
            reg_b: Register4Bit::new(),
            result_reg: Register4Bit::new(),
        }
    }

    /// Presents `data` and one clock sample to operand A.
    pub fn load_a(&mut self, data: [bool; 4], clock: bool)
        ensures
            final(self)@ == (AluState { reg_a: old(self)@.reg_a.load(data@, clock), ..old(self)@ }),
    {
        self.reg_a.load(data, clock);
    }

    /// Presents `data` and one clock sample to operand B.
    pub fn load_b(&mut self, data: [bool; 4], clock: bool)
        ensures
            final(self)@ == (AluState { reg_b: old(self)@.reg_b.load(data@, clock), ..old(self)@ }),
    {
        self.reg_b.load(data, clock);
    }

    /// Performs the operation `op_code` for one clock sample.
    ///
    /// The operands are read first, so everything is computed from the
    /// registers as they were before the call. The result register is
    /// clocked on every call, whatever the code.
    pub fn execute(&mut self, op_code: u8, clock: bool, memory: &mut Memory)
        ensures
            final(self)@ == old(self)@.execute(op_code, clock, old(memory)@),
            final(memory)@ == old(self)@.memory_after(op_code, clock, old(memory)@),
    {
        let a = self.reg_a.output();
        let b = self.reg_b.output();
        let mut result = self.result_reg.output();

        match op_code {
            OP_AND => {
                for i in 0..4usize
                    invariant
                        forall|j: int| 0 <= j < i ==> result@[j] == (a@[j] && b@[j]),
                {
                    result[i] = and_gate(a[i], b[i]);
                }
                assert(result@ =~= bitwise_and(a@, b@));
            },
            OP_OR => {
                for i in 0..4usize
                    invariant
                        forall|j: int| 0 <= j < i ==> result@[j] == (a@[j] || b@[j]),
                {
                    result[i] = or_gate(a[i], b[i]);
                }
                assert(result@ =~= bitwise_or(a@, b@));
            },
            OP_XOR => {
                for i in 0..4usize
                    invariant
                        forall|j: int| 0 <= j < i ==> result@[j] == (a@[j] != b@[j]),
                {
                    result[i] = xor_gate(a[i], b[i]);
                }
                assert(result@ =~= bitwise_xor(a@, b@));
            },
            OP_ADD => {
                let (sum, _) = four_bit_adder(a, b);
                result = sum;
            },
            OP_LOAD => {
                let address = bool_array_to_u8(b) as u16;
                let value = memory.read(address);
                self.reg_a.load(u8_to_bool_array(value), clock);
            },
            OP_STORE => {
                if clock && !self.result_reg.prev_clock() {
                    let address = bool_array_to_u8(b) as u16;
                    memory.write(address, bool_array_to_u8(a));
                }
            },
            _ => {},
        }

        self.result_reg.load(result, clock);
    }

    /// The result register's bits. Reading does not change the unit.
    pub fn get_result(&self) -> (bits: [bool; 4])
        ensures
            bits@ == self@.result.bits,
    {
        self.result_reg.output()
    }

    /// Operand A's bits. Reading does not change the unit.
    pub fn get_reg_a(&self) -> (bits: [bool; 4])
        ensures
            bits@ == self@.reg_a.bits,
    {
        self.reg_a.output()
    }

    /// Operand B's bits. Reading does not change the unit.
    pub fn get_reg_b(&self) -> (bits: [bool; 4])
        ensures
            bits@ == self@.reg_b.bits,
    {
        self.reg_b.output()
    }
}

/// The result register changes its bits only at a rising edge, whatever
/// the operation: without one, `execute` leaves the result as it is.
pub proof fn lemma_result_changes_only_on_rising_edge(
    alu: AluState,
    op_code: u8,
    clock: bool,
    memory: Seq<u8>,
)
    ensures
        !rising_edge(alu.result.prev_clock, clock) ==> alu.execute(op_code, clock, memory).result.bits
            == alu.result.bits,
        rising_edge(alu.result.prev_clock, clock) ==> alu.execute(op_code, clock, memory).result.bits
            == alu_output(op_code, alu.reg_a.bits, alu.reg_b.bits, alu.result.bits),
        alu.execute(op_code, clock, memory).result.prev_clock == clock,
{
}

/// One full clock cycle makes an operation visible: after any call with a
/// low clock, a call with a high clock latches what `op_code` computes from
/// the operands, which the low call has not touched.
pub proof fn lemma_result_visible_after_clock_cycle(
    alu: AluState,
    low_op: u8,
    op_code: u8,
    memory: Seq<u8>,
)
    ensures
        alu.execute(low_op, false, memory).reg_a.bits == alu.reg_a.bits,
        alu.execute(low_op, false, memory).reg_b.bits == alu.reg_b.bits,
        alu.memory_after(low_op, false, memory) == memory,
        alu.execute(low_op, false, memory).execute(op_code, true, memory).result.bits
            == alu_output(op_code, alu.reg_a.bits, alu.reg_b.bits, alu.result.bits),
{
}

/// While the clock stays high, further calls of `execute` change neither
/// the result nor the memory, whatever the operation.
pub proof fn lemma_result_holds_while_clock_high(
    alu: AluState,
    first: u8,
    second: u8,
    memory: Seq<u8>,
)
    ensures
        ({
            let after = alu.execute(first, true, memory);
            let memory_then = alu.memory_after(first, true, memory);
            &&& after.execute(second, true, memory_then).result == after.result
            &&& after.memory_after(second, true, memory_then) == memory_then
        }),
{
}

/// Only a store at a rising edge touches the memory, and it touches at
/// most the one byte at the address in operand B. The length of the memory
/// never changes.
pub proof fn lemma_memory_changes_only_by_store(
    alu: AluState,
    op_code: u8,
    clock: bool,
    memory: Seq<u8>,
    other: u16,
)
    ensures
        op_code != OP_STORE || !rising_edge(alu.result.prev_clock, clock) ==> alu.memory_after(
            op_code,
            clock,
            memory,
        ) == memory,
        alu.memory_after(op_code, clock, memory).len() == memory.len(),
        other != alu.address() ==> read_at(alu.memory_after(op_code, clock, memory), other)
            == read_at(memory, other),
{
}

/// A store followed by a load brings operand A back: once operand A has
/// been stored at an address inside the memory, a load from that address
/// at a later rising edge of operand A's clock gives operand A the bits
/// that were stored.
pub proof fn lemma_load_after_store(alu: AluState, memory: Seq<u8>)
    requires
        alu.reg_a.bits.len() == 4,
        alu.address() < memory.len(),
        !alu.result.prev_clock,
    ensures
        ({
            let stored = alu.memory_after(OP_STORE, true, memory);
            let after = alu.execute(OP_STORE, true, memory);
            &&& read_at(stored, alu.address()) == nibble_value(alu.reg_a.bits)
            &&& after.reg_a == alu.reg_a
            &&& !after.reg_a.prev_clock ==> after.execute(OP_LOAD, true, stored).reg_a.bits
                == alu.reg_a.bits
        }),
{
    lemma_bits_of_value(alu.reg_a.bits);
}

/// Each bit of a four-bit word, read off the word's value.
proof fn lemma_bits_by_value(bits: Seq<bool>)
    requires
        bits.len() == 4,
    ensures
        nibble_value(bits) < 16,
        bits[0] == (nibble_value(bits) as u8 % 2 == 1),
        bits[1] == (nibble_value(bits) as u8 / 2 % 2 == 1),
        bits[2] == (nibble_value(bits) as u8 / 4 % 2 == 1),
        bits[3] == (nibble_value(bits) as u8 / 8 % 2 == 1),
{
}

/// A four-bit word whose bits are those of `value` has that value.
proof fn lemma_value_from_bits(value: u8, bits: Seq<bool>)
    requires
        value < 16,
        bits.len() == 4,
        bits[0] == (value % 2 == 1),
        bits[1] == (value / 2 % 2 == 1),
        bits[2] == (value / 4 % 2 == 1),
        bits[3] == (value / 8 % 2 == 1),
    ensures
        nibble_value(bits) == value,
{
}

/// Bitwise AND of two words is the machine AND of their values.
pub proof fn lemma_bitwise_and_value(a: Seq<bool>, b: Seq<bool>)
    requires
        a.len() == 4,
        b.len() == 4,
    ensures
        nibble_value(bitwise_and(a, b)) == (nibble_value(a) as u8) & (nibble_value(b) as u8),
{
    let x = nibble_value(a) as u8;
    let y = nibble_value(b) as u8;
    let z = x & y;
    assert(z < 16
            && (z % 2 == 1) == ((x % 2 == 1) && (y % 2 == 1))
            && (z / 2 % 2 == 1) == ((x / 2 % 2 == 1) && (y / 2 % 2 == 1))
            && (z / 4 % 2 == 1) == ((x / 4 % 2 == 1) && (y / 4 % 2 == 1))
            && (z / 8 % 2 == 1) == ((x / 8 % 2 == 1) && (y / 8 % 2 == 1))) by (bit_vector)
        requires
            x < 16,
            y < 16,
            z == x & y,
    ;
    lemma_bits_by_value(a);
    lemma_bits_by_value(b);
    lemma_value_from_bits(z, bitwise_and(a, b));
}

/// Bitwise OR of two words is the machine OR of their values.
pub proof fn lemma_bitwise_or_value(a: Seq<bool>, b: Seq<bool>)
    requires
        a.len() == 4,
        b.len() == 4,
    ensures
        nibble_value(bitwise_or(a, b)) == (nibble_value(a) as u8) | (nibble_value(b) as u8),
{
    let x = nibble_value(a) as u8;
    let y = nibble_value(b) as u8;
    let z = x | y;
    assert(z < 16
            && (z % 2 == 1) == ((x % 2 == 1) || (y % 2 == 1))
            && (z / 2 % 2 == 1) == ((x / 2 % 2 == 1) || (y / 2 % 2 == 1))
            && (z / 4 % 2 == 1) == ((x / 4 % 2 == 1) || (y / 4 % 2 == 1))
            && (z / 8 % 2 == 1) == ((x / 8 % 2 == 1) || (y / 8 % 2 == 1))) by (bit_vector)
        requires
            x < 16,
            y < 16,
            z == x | y,
    ;
    lemma_bits_by_value(a);
    lemma_bits_by_value(b);
    lemma_value_from_bits(z, bitwise_or(a, b));
}

/// Bitwise XOR of two words is the machine XOR of their values.
pub proof fn lemma_bitwise_xor_value(a: Seq<bool>, b: Seq<bool>)
    requires
        a.len() == 4,
        b.len() == 4,
    ensures
        nibble_value(bitwise_xor(a, b)) == (nibble_value(a) as u8) ^ (nibble_value(b) as u8),
{
    let x = nibble_value(a) as u8;
    let y = nibble_value(b) as u8;
    let z = x ^ y;
    assert(z < 16
            && (z % 2 == 1) == ((x % 2 == 1) != (y % 2 == 1))
            && (z / 2 % 2 == 1) == ((x / 2 % 2 == 1) != (y / 2 % 2 == 1))
            && (z / 4 % 2 == 1) == ((x / 4 % 2 == 1) != (y / 4 % 2 == 1))
            && (z / 8 % 2 == 1) == ((x / 8 % 2 == 1) != (y / 8 % 2 == 1))) by (bit_vector)
        requires
            x < 16,
            y < 16,
            z == x ^ y,
    ;
    lemma_bits_by_value(a);
    lemma_bits_by_value(b);
    lemma_value_from_bits(z, bitwise_xor(a, b));
}

} // verus!
