//! Stateless boolean gates and the conversions between a four-bit word,
//! least significant bit first, and its value as a byte.

use vstd::prelude::*;

verus! {

/// The number that a bit stands for.
pub open spec fn bit(b: bool) -> nat {
    if b { 1 } else { 0 }
}

/// The value of a four-bit word whose bit `i` has weight `2^i`.
pub open spec fn nibble_value(bits: Seq<bool>) -> nat {
    bit(bits[0]) + 2 * bit(bits[1]) + 4 * bit(bits[2]) + 8 * bit(bits[3])
}

/// The four low bits of `value`, least significant first. Anything above
/// the fourth bit is dropped.
pub open spec fn nibble_bits(value: nat) -> Seq<bool> {
    seq![value % 2 == 1, value / 2 % 2 == 1, value / 4 % 2 == 1, value / 8 % 2 == 1]
}

pub fn and_gate(a: bool, b: bool) -> (out: bool)
    ensures
        out == (a && b),
{
    a && b
}

pub fn or_gate(a: bool, b: bool) -> (out: bool)
    ensures
        out == (a || b),
{
    a || b
}

pub fn nand_gate(a: bool, b: bool) -> (out: bool)
    ensures
        out == !(a && b),
{
    !(a && b)
}

pub fn xor_gate(a: bool, b: bool) -> (out: bool)
    ensures
        out == (a != b),
{
    a != b
}

pub fn not_gate(a: bool) -> (out: bool)
    ensures
        out == !a,
{
    !a
}

/// The weight of bit `i` of a four-bit word; sixteen past the top bit.
pub(crate) open spec fn weight(i: int) -> nat {
    if i <= 0 { 1 } else if i == 1 { 2 } else if i == 2 { 4 } else if i == 3 { 8 } else { 16 }
}

/// The value of the `n` lowest bits of a four-bit word.
pub(crate) open spec fn low_value(bits: Seq<bool>, n: int) -> nat {
    (if n > 0 { bit(bits[0]) } else { 0 })
        + (if n > 1 { 2 * bit(bits[1]) } else { 0 })
        + (if n > 2 { 4 * bit(bits[2]) } else { 0 })
        + (if n > 3 { 8 * bit(bits[3]) } else { 0 })
}

/// Packs a four-bit word into a byte: bit `i` of the result is `arr[i]`,
/// and the four high bits are zero.
pub fn bool_array_to_u8(arr: [bool; 4]) -> (value: u8)
    ensures
        value == nibble_value(arr@),
        value < 16,
{
    let mut result: u8 = 0;
    for i in 0..4usize
        invariant
            result == low_value(arr@, i as int),
            result < weight(i as int),
    {
        if arr[i] {
            let mask: u8 = 1u8 << i;
            assert(mask == weight(i as int)) by {
                assert(1u8 << 0usize == 1 && 1u8 << 1usize == 2 && 1u8 << 2usize == 4 && 1u8 << 3usize == 8)
                    by (bit_vector);
            }
            assert(result | mask == result + mask) by (bit_vector)
                requires
                    result < mask,
                    mask == 1 || mask == 2 || mask == 4 || mask == 8,
            ;
            result |= mask;
        }
    }
    result
}

/// Unpacks the four low bits of a byte, least significant first. The four
/// high bits of `value` are ignored.
pub fn u8_to_bool_array(value: u8) -> (bits: [bool; 4])
    ensures
        bits@ == nibble_bits(value as nat),
{
    let mut result = [false; 4];
    for i in 0..4usize
        invariant
            forall|j: int| 0 <= j < i ==> result@[j] == nibble_bits(value as nat)[j],
    {
        let mask: u8 = 1u8 << i;
        assert((value & mask != 0) == nibble_bits(value as nat)[i as int]) by {
            assert((value & (1u8 << 0usize) != 0) == (value % 2 == 1)
                && (value & (1u8 << 1usize) != 0) == (value / 2 % 2 == 1)
                && (value & (1u8 << 2usize) != 0) == (value / 4 % 2 == 1)
                && (value & (1u8 << 3usize) != 0) == (value / 8 % 2 == 1)) by (bit_vector);
        }
        result[i] = (value & mask) != 0;
    }
    assert(result@ =~= nibble_bits(value as nat));
    result
}

/// Unpacking a value and packing it again keeps its four low bits and
/// drops the rest.
pub proof fn lemma_value_of_bits(value: nat)
    ensures
        nibble_value(nibble_bits(value)) == value % 16,
{
}

/// Packing a four-bit word and unpacking it again gives the word back.
pub proof fn lemma_bits_of_value(bits: Seq<bool>)
    requires
        bits.len() == 4,
    ensures
        nibble_bits(nibble_value(bits)) == bits,
{
    assert(nibble_bits(nibble_value(bits)) =~= bits);
}

/// A four-bit word is determined by its value.
pub proof fn lemma_value_determines_bits(a: Seq<bool>, b: Seq<bool>)
    requires
        a.len() == 4,
        b.len() == 4,
        nibble_value(a) == nibble_value(b),
    ensures
        a == b,
{
    assert(a =~= b);
}

} // verus!
