//! Adders composed from gates: a half adder, a full adder, and a four-bit
//! ripple-carry adder that chains four full adders from the least
//! significant bit upwards.

use vstd::prelude::*;
use crate::components::gates::{
    and_gate, bit, lemma_bits_of_value, lemma_value_of_bits, low_value, nibble_bits,
    nibble_value, or_gate, weight, xor_gate,
};

verus! {

/// What a four-bit addition yields: the four low bits of the arithmetic sum
/// of the two words, and whether the sum did not fit in four bits.
pub open spec fn sum_with_carry(a: Seq<bool>, b: Seq<bool>) -> (Seq<bool>, bool) {
    let total = nibble_value(a) + nibble_value(b);
    (nibble_bits(total % 16), total >= 16)
}

/// Adds two bits. Returns the sum bit and the carry.
pub fn half_adder(a: bool, b: bool) -> (out: (bool, bool))
    ensures
        out.0 == (a ^ b),
        out.1 == (a && b),
{
    let sum = xor_gate(a, b);
    let carry = and_gate(a, b);
    (sum, carry)
}

/// Adds two bits and an incoming carry. Returns the sum bit and the
/// outgoing carry.
pub fn full_adder(a: bool, b: bool, carry_in: bool) -> (out: (bool, bool))
    ensures
        out.0 == (a ^ b ^ carry_in),
        out.1 == ((a && b) || ((a ^ b) && carry_in)),
        bit(out.0) + 2 * bit(out.1) == bit(a) + bit(b) + bit(carry_in),
{
    let (sum1, carry1) = half_adder(a, b);
    let (sum, carry2) = half_adder(sum1, carry_in);
    let carry_out = or_gate(carry1, carry2);
    (sum, carry_out)
}

/// A word and a carry whose weighted sum is the arithmetic sum of two
/// words are the low bits and the overflow of that sum.
proof fn lemma_sum_from_values(a: Seq<bool>, b: Seq<bool>, sum: Seq<bool>, carry: bool)
    requires
        sum.len() == 4,
        nibble_value(sum) + 16 * bit(carry) == nibble_value(a) + nibble_value(b),
    ensures
        (sum, carry) == sum_with_carry(a, b),
{
    let total = nibble_value(a) + nibble_value(b);
    assert(nibble_value(sum) < 16);
    assert(total % 16 == nibble_value(sum));
    lemma_bits_of_value(sum);
}

/// Adds two four-bit words, least significant bit first. Returns the four
/// bits of the sum and the carry out of the top bit; a sum of sixteen or
/// more wraps round and sets the carry.
pub fn four_bit_adder(a: [bool; 4], b: [bool; 4]) -> (out: ([bool; 4], bool))
    ensures
        (out.0@, out.1) == sum_with_carry(a@, b@),
        nibble_value(out.0@) + 16 * bit(out.1) == nibble_value(a@) + nibble_value(b@),
{
    let mut result = [false; 4];
    let mut carry = false;

    for i in 0..4usize
        invariant
            low_value(result@, i as int) + weight(i as int) * bit(carry) == low_value(a@, i as int)
                + low_value(b@, i as int),
    {
        let (sum, new_carry) = full_adder(a[i], b[i], carry);
        result[i] = sum;
        carry = new_carry;
    }

    proof {
        lemma_sum_from_values(a@, b@, result@, carry);
    }
    (result, carry)
}

/// The sum word has the value of the arithmetic sum modulo sixteen, and the
/// carry tells whether the arithmetic sum reached sixteen.
pub proof fn lemma_sum_value(a: Seq<bool>, b: Seq<bool>)
    ensures
        sum_with_carry(a, b).0.len() == 4,
        nibble_value(sum_with_carry(a, b).0) == (nibble_value(a) + nibble_value(b)) % 16,
        sum_with_carry(a, b).1 == (nibble_value(a) + nibble_value(b) >= 16),
{
    lemma_value_of_bits((nibble_value(a) + nibble_value(b)) % 16);
}

/// Addition does not depend on the order of the operands.
pub proof fn lemma_sum_commutes(a: Seq<bool>, b: Seq<bool>)
    ensures
        sum_with_carry(a, b) == sum_with_carry(b, a),
{
}

} // verus!
