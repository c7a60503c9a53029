//! The program counter: a sixteen-bit address that advances by one on each
//! rising clock edge and can be overwritten for a jump.

use vstd::prelude::*;
use crate::components::memory::{read_at, rising_edge, Memory};

verus! {

/// What a program counter remembers: the address and the clock sample that
/// it saw last.
pub struct CounterState {
    pub value: u16,
    pub prev_clock: bool,
}

/// The address that follows `value`; the last address is followed by zero.
pub open spec fn next_address(value: u16) -> u16 {
    if value == u16::MAX { 0 } else { (value + 1) as u16 }
}

impl CounterState {
    /// The counter after one clock sample: the address advances on a rising
    /// edge and stays otherwise; the clock sample is always recorded.
    pub open spec fn step(self, clock: bool) -> CounterState {
        CounterState {
            value: if rising_edge(self.prev_clock, clock) {
                next_address(self.value)
            } else {
                self.value
            },
            prev_clock: clock,
        }
    }
}

/// A sixteen-bit address counter. It owns no memory: the memory that it
/// addresses is handed to `read`.
pub struct ProgramCounter {
    value: u16,
    prev_clock: bool,
}

impl View for ProgramCounter {
    type V = CounterState;

    closed spec fn view(&self) -> CounterState {
        CounterState { value: self.value, prev_clock: self.prev_clock }
    }
}

impl ProgramCounter {
    /// A counter at address zero that has seen a low clock.
    pub fn new() -> (counter: Self)
        ensures
            counter@ == (CounterState { value: 0, prev_clock: false }),
    {
        ProgramCounter { value: 0, prev_clock: false }
    }

    /// The current address. Reading does not change the counter.
    pub fn get(&self) -> (address: u16)
        ensures
            address == self@.value,
    {
        self.value
    }

    /// Jumps to `address` at once, whatever the clock. The recorded clock
    /// sample is kept.
    pub fn set(&mut self, address: u16)
        ensures
            final(self)@ == (CounterState { value: address, prev_clock: old(self)@.prev_clock }),
    {
        self.value = address;
    }

    /// Presents one clock sample to the counter.
    pub fn update(&mut self, clock: bool)
        ensures
            final(self)@ == old(self)@.step(clock),
    {
        if clock && !self.prev_clock {
            self.value = self.value.wrapping_add(1);
        }
        self.prev_clock = clock;
    }

    /// The byte of `memory` at the current address, zero where the address
    /// is past the end of the memory. Neither the counter nor the memory
    /// changes.
    pub fn read(&self, memory: &Memory) -> (value: u8)
        ensures
            value == read_at(memory@, self@.value),
    {
        memory.read(self.value)
    }
}

/// The address changes only at a rising edge, and then by exactly one,
/// from the last address back to zero.
pub proof fn lemma_counter_advances_on_rising_edge(counter: CounterState, clock: bool)
    ensures
        !rising_edge(counter.prev_clock, clock) ==> counter.step(clock).value == counter.value,
        rising_edge(counter.prev_clock, clock) && counter.value < u16::MAX ==> counter.step(
            clock,
        ).value == counter.value + 1,
        rising_edge(counter.prev_clock, clock) && counter.value == u16::MAX ==> counter.step(
            clock,
        ).value == 0,
        counter.step(clock).value == if rising_edge(counter.prev_clock, clock) {
            (counter.value + 1) % 65536
        } else {
            counter.value as int
        },
{
}

/// While the clock stays high the counter does not advance again.
pub proof fn lemma_counter_holds_while_clock_high(counter: CounterState)
    ensures
        counter.step(true).step(true) == counter.step(true),
{
}

/// A low sample followed by a high sample advances the counter by one.
pub proof fn lemma_counter_counts_clock_cycles(counter: CounterState)
    ensures
        counter.step(false).step(true).value == next_address(counter.value),
{
}

} // verus!
