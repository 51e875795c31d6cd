//! An emulator for a single RISC-V hart implementing the RV32I base
//! integer instruction set together with the Zicsr extension, full
//! machine/supervisor/user privilege separation, trap delivery and an
//! Sv32 page-table walker.
//!
//! Every architectural component carries a contract: the register file,
//! the decoder, the executor, the CSR file, the trap engine, the
//! interrupt selector and the memory bus are all specified over
//! mathematical views of the hart state and verified against those
//! specifications.

use vstd::prelude::*;

mod address;
pub mod bits;
pub mod cpu;
pub mod device;
pub mod emulator;
pub mod extensions;
pub mod instruction;
pub mod memory;
pub mod mmu;
pub mod trap;

pub use address::Address;

verus! {

/// Defines the base ISA for a RISC-V CPU.
#[derive(Debug)]
pub enum Base {
    /// RV32I Base Integer Instruction Set.
    RV32I,
}

} // verus!
