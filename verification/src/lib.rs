//! A minimal synchronous datapath built from boolean gates: edge-triggered
//! bit cells, registers, a four-bit arithmetic-logic unit, a program counter
//! and a byte-addressable memory, all driven by a clock that the caller
//! supplies one sample at a time.

pub mod components;
