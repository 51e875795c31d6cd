//! The instruction-set extensions implemented by the hart: the RV32I
//! base integer set and the Zicsr control-and-status-register set.

pub mod rv32i;
pub mod zicsr;
