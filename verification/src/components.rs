//! The building blocks of the datapath, leaves first.

pub mod adders;
pub mod alu;
pub mod gates;
pub mod memory;
pub mod program_counter;
