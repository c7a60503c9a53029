use hello_rust::components::adders::{four_bit_adder, full_adder, half_adder};
use hello_rust::components::alu::{ALU4Bit, OP_ADD, OP_AND, OP_LOAD, OP_OR, OP_STORE, OP_XOR};
use hello_rust::components::gates::{bool_array_to_u8, u8_to_bool_array};
use hello_rust::components::memory::{DFlipFlop, Memory};
use hello_rust::components::program_counter::ProgramCounter;

#[test]
fn test_program_counter() {
    let mut pc = ProgramCounter::new();

    assert_eq!(pc.get(), 0);

    pc.update(false);
    assert_eq!(pc.get(), 0);

    pc.update(true);
    assert_eq!(pc.get(), 1);

    pc.update(false);
    assert_eq!(pc.get(), 1);

    pc.update(true);
    assert_eq!(pc.get(), 2);

    pc.set(u16::MAX);
    pc.update(false);
    pc.update(true);
    assert_eq!(pc.get(), 0);
}

#[test]
fn test_half_adder() {
    let inputs = [(false, false), (false, true), (true, false), (true, true)];
    for (a, b) in inputs.iter() {
        let (sum, carry) = half_adder(*a, *b);
        assert_eq!(sum, a ^ b);
        assert_eq!(carry, *a && *b);
    }
}

#[test]
fn test_full_adder() {
    let inputs = [(false, false), (false, true), (true, false), (true, true)];
    for (a, b) in inputs.iter() {
        for carry_in in [false, true].iter() {
            let (sum, carry_out) = full_adder(*a, *b, *carry_in);
            assert_eq!(sum, (*a ^ *b) ^ *carry_in);
            assert_eq!(carry_out, (*a && *b) || ((*a ^ *b) && *carry_in));
        }
    }
}

#[test]
fn test_four_bit_adder() {
    let test_cases = [
        (0b0101, 0b0011, 0b1000, false),
        (0b1010, 0b0101, 0b1111, false),
        (0b1111, 0b0001, 0b0000, true),
    ];

    for (a_val, b_val, expected_sum, expected_carry) in test_cases.iter() {
        let a = u8_to_bool_array(*a_val);
        let b = u8_to_bool_array(*b_val);
        let (sum, carry) = four_bit_adder(a, b);
        assert_eq!(bool_array_to_u8(sum), *expected_sum);
        assert_eq!(carry, *expected_carry);
    }
}

#[test]
fn test_d_flip_flop() {
    let mut dff = DFlipFlop::new();
    let test_cases = [
        (false, true, false),
        (true, true, true),
        (false, false, true),
        (true, false, false),
        (false, true, false),
        (true, true, true),
    ];

    for &(clock, data, expected_output) in &test_cases {
        dff.update(data, clock);
        assert_eq!(dff.output(), expected_output);
    }
}

#[test]
fn test_alu() {
    let mut memory = Memory::new(0);
    let mut alu = ALU4Bit::new();

    let a_val = 0b1010;
    let b_val = 0b0011;
    let a = u8_to_bool_array(a_val);
    let b = u8_to_bool_array(b_val);

    alu.load_a(a, true);
    alu.load_b(b, true);

    alu.execute(0, false, &mut memory);
    alu.execute(0, true, &mut memory);
    assert_eq!(bool_array_to_u8(alu.get_result()), 0b0010);

    alu.execute(0, false, &mut memory);
    alu.execute(1, true, &mut memory);
    assert_eq!(bool_array_to_u8(alu.get_result()), 0b1011);

    alu.execute(0, false, &mut memory);
    alu.execute(2, true, &mut memory);
    assert_eq!(bool_array_to_u8(alu.get_result()), 0b1001);

    alu.execute(0, false, &mut memory);
    alu.execute(3, true, &mut memory);
    assert_eq!(bool_array_to_u8(alu.get_result()), 0b1101);
}

// The opcode under the counter is fetched first; the clock sample then goes
// to the counter and to the unit alike, so that each rising edge latches the
// fetched operation and moves on to the next address.
#[test]
fn test_program_counter_with_alu() {
    let mut memory = Memory::new(256);
    let mut pc = ProgramCounter::new();
    let mut alu = ALU4Bit::new();

    memory.write(0, OP_AND);
    memory.write(1, OP_OR);
    memory.write(2, OP_XOR);
    memory.write(3, OP_ADD);

    let a_val = 0b1010;
    let b_val = 0b0011;
    let a = u8_to_bool_array(a_val);
    let b = u8_to_bool_array(b_val);

    alu.load_a(a, true);
    alu.load_b(b, true);

    let clock_signals = [false, true, false, true, false, true, false, true];
    let expected_results = [0b0010, 0b1011, 0b1001, 0b1101];

    for (i, &clock) in clock_signals.iter().enumerate() {
        let op = pc.read(&memory);
        pc.update(clock);
        alu.execute(op, clock, &mut memory);

        if clock {
            assert_eq!(bool_array_to_u8(alu.get_result()), expected_results[i / 2]);
        }
    }
}

// Operand A and the result register have both seen a high clock once the
// load is done, so the clock goes low before the next value is latched and
// before the store.
#[test]
fn test_alu_load_store_with_memory() {
    let mut memory = Memory::new(256);
    let mut alu = ALU4Bit::new();

    memory.write(10, 0b1100);

    let address = u8_to_bool_array(10);
    alu.load_b(address, true);

    alu.execute(OP_LOAD, true, &mut memory);
    assert_eq!(bool_array_to_u8(alu.get_reg_a()), 0b1100);

    let new_data = u8_to_bool_array(0b1010);
    alu.load_a(new_data, false);
    alu.load_a(new_data, true);

    alu.execute(OP_STORE, false, &mut memory);
    alu.execute(OP_STORE, true, &mut memory);
    assert_eq!(memory.read(10), 0b1010);
}
