//! Storage: the edge-triggered bit cell from which every register is built,
//! and a byte-addressable memory of fixed length.

use vstd::prelude::*;

verus! {

/// Whether a clock sample is a rising edge: the clock is high now and was
/// low at the previous sample.
pub open spec fn rising_edge(prev_clock: bool, clock: bool) -> bool {
    clock && !prev_clock
}

/// What a bit cell remembers: the stored bit and the clock sample that it
/// saw last.
pub struct CellState {
    pub state: bool,
    pub prev_clock: bool,
}

impl CellState {
    /// The cell after one sample: the data is taken on a rising edge and
    /// ignored otherwise; the clock sample is always recorded.
    pub open spec fn step(self, data: bool, clock: bool) -> CellState {
        CellState {
            state: if rising_edge(self.prev_clock, clock) { data } else { self.state },
            prev_clock: clock,
        }
    }
}

/// A single-bit storage cell that samples its data input on the rising edge
/// of its clock input.
pub struct DFlipFlop {
    state: bool,
    prev_clock: bool,
}

impl View for DFlipFlop {
    type V = CellState;

    closed spec fn view(&self) -> CellState {
        CellState { state: self.state, prev_clock: self.prev_clock }
    }
}

impl DFlipFlop {
    /// A cell that stores `false` and has seen a low clock.
    pub fn new() -> (cell: Self)
        ensures
            cell@ == (CellState { state: false, prev_clock: false }),
    {
        DFlipFlop { state: false, prev_clock: false }
    }

    /// Presents one sample of data and clock to the cell.
    pub fn update(&mut self, data: bool, clock: bool)
        ensures
            final(self)@ == old(self)@.step(data, clock),
        no_unwind
    {
        if clock && !self.prev_clock {
            self.state = data;
        }
        self.prev_clock = clock;
    }

    /// The stored bit. Reading does not change the cell.
    pub fn output(&self) -> (bit: bool)
        ensures
            bit == self@.state,
    {
        self.state
    }

    /// The clock sample that the cell saw last.
    pub(crate) fn prev_clock(&self) -> (clock: bool)
        ensures
            clock == self@.prev_clock,
    {
        self.prev_clock
    }
}

/// The stored bit changes only at a rising edge.
pub proof fn lemma_cell_changes_only_on_rising_edge(cell: CellState, data: bool, clock: bool)
    ensures
        cell.step(data, clock).state != cell.state ==> rising_edge(cell.prev_clock, clock),
        !rising_edge(cell.prev_clock, clock) ==> cell.step(data, clock).state == cell.state,
        rising_edge(cell.prev_clock, clock) ==> cell.step(data, clock).state == data,
{
}

/// While the clock stays high the cell does not take new data: after any
/// sample with a high clock, a second sample with a high clock leaves the
/// cell as it is, whatever the data.
pub proof fn lemma_cell_holds_while_clock_high(cell: CellState, first: bool, second: bool)
    ensures
        cell.step(first, true).step(second, true) == cell.step(first, true),
{
}

/// A low sample followed by a high sample always stores the data presented
/// with the high sample.
pub proof fn lemma_cell_latches_after_low(cell: CellState, first: bool, second: bool)
    ensures
        cell.step(first, false).step(second, true).state == second,
{
}

/// A linear store of bytes whose length is fixed when it is made. An access
/// outside its length is not an error: a read yields zero and a write is
/// dropped.
pub struct Memory {
    data: Vec<u8>,
}

impl View for Memory {
    type V = Seq<u8>;

    closed spec fn view(&self) -> Seq<u8> {
        self.data@
    }
}

/// What a read at `address` yields from the bytes `cells`.
pub open spec fn read_at(cells: Seq<u8>, address: u16) -> u8 {
    if address < cells.len() { cells[address as int] } else { 0 }
}

/// The bytes `cells` after a write of `value` at `address`.
pub open spec fn write_at(cells: Seq<u8>, address: u16, value: u8) -> Seq<u8> {
    if address < cells.len() { cells.update(address as int, value) } else { cells }
}

impl Memory {
    /// A memory of `size` bytes, all zero.
    pub fn new(size: usize) -> (memory: Self)
        ensures
            memory@.len() == size,
            forall|i: int| 0 <= i < size ==> memory@[i] == 0,
    {
        Memory { data: vec![0u8; size] }
    }

    /// The byte at `address`, or zero where `address` is past the end.
    pub fn read(&self, address: u16) -> (value: u8)
        ensures
            value == read_at(self@, address),
    {
        if (address as usize) < self.data.len() {
            self.data[address as usize]
        } else {
            0
        }
    }

    /// Stores `value` at `address`; does nothing where `address` is past the
    /// end.
    pub fn write(&mut self, address: u16, value: u8)
        ensures
            final(self)@ == write_at(old(self)@, address, value),
    {
        if (address as usize) < self.data.len() {
            self.data[address as usize] = value;
        }
    }
}

/// A read after a write at the same address inside the memory yields the
/// value written; at any other address it yields what was there before.
pub proof fn lemma_read_after_write(cells: Seq<u8>, address: u16, value: u8, other: u16)
    ensures
        address < cells.len() ==> read_at(write_at(cells, address, value), address) == value,
        other != address ==> read_at(write_at(cells, address, value), other) == read_at(
            cells,
            other,
        ),
        write_at(cells, address, value).len() == cells.len(),
{
}

} // verus!
