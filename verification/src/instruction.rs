//! Everything related to raw instructions: the operand formats of the
//! RV32I encoding (R/I/S/B/U/J), type-safe register indices, and the
//! sign-extension of stored immediate fields.

pub mod fmt;

use vstd::prelude::*;

use crate::bits::{sext12, sext13, sext21};

verus! {

/// Enum for representing the different instruction formats.
#[derive(Debug, Clone, Copy, PartialEq, Eq, Structural)]
pub enum InstructionType {
    /// The R-Type.
    R,
    /// The I-Type.
    I,
    /// The S-Type.
    S,
    /// The B-Type.
    B,
    /// The U-Type.
    U,
    /// The J-Type.
    J,
}

/// Type safe access for a X register.
#[derive(Debug, Clone, Copy, PartialEq, Eq, Structural)]
pub struct Register(pub u8);

impl Register {
    /// A register index is well-formed when it names one of `x0..x31`.
    pub open spec fn wf(self) -> bool {
        self.0 < 32
    }

    /// Create a new [`Register`] from a raw register index.
    pub fn new(raw: u8) -> (r: Self)
        requires
            raw < 32,
        ensures
            r.0 == raw,
    {
        Register(raw)
    }

    /// Check if this register is `x0`.
    pub fn is_zero(self) -> (r: bool)
        ensures
            r == (self.0 == 0),
    {
        self.0 == 0
    }
}

/// The R instruction format.
#[derive(Debug, Clone, Copy, PartialEq, Eq, Structural)]
pub struct RType {
    /// The destination register index.
    pub rd: Register,
    /// The first source register index.
    pub rs1: Register,
    /// The second source register index.
    pub rs2: Register,
}

impl RType {
    /// All register indices name real registers.
    pub open spec fn wf(self) -> bool {
        self.rd.wf() && self.rs1.wf() && self.rs2.wf()
    }
}

/// The I instruction format.
#[derive(Debug, Clone, Copy, PartialEq, Eq, Structural)]
pub struct IType {
    /// The immediate value as the raw bit pattern, not yet sign-extended.
    pub val: u32,
    /// The destination register index.
    pub rd: Register,
    /// The source register index.
    pub rs: Register,
}

impl IType {
    /// Register indices are in range and the stored immediate fits its
    /// 12-bit field.
    pub open spec fn wf(self) -> bool {
        self.rd.wf() && self.rs.wf() && self.val < 0x1000
    }

    /// Sign extend the raw immediate value of this I-type.
    pub fn sign_imm(&self) -> (r: i32)
        ensures
            r == sext12(self.val) as i32,
    {
        let m = self.val & 0xFFF;
        if self.val & 0x800 != 0 {
            (m | 0xFFFF_F000) as i32
        } else {
            m as i32
        }
    }

    /// Sign extend the raw immediate value of this I-type.
    pub fn sign_val(&self) -> (r: i32)
        ensures
            r == sext12(self.val) as i32,
    {
        self.sign_imm()
    }

    /// Get the shift amount of this I-type.
    pub fn shamt(&self) -> (r: u8)
        ensures
            r == (self.val & 0x3F) as u8,
    {
        (self.val & 0x3F) as u8
    }
}

/// The S instruction format.
#[derive(Debug, Clone, Copy, PartialEq, Eq, Structural)]
pub struct SType {
    /// The immediate value as the raw bit pattern, not yet sign-extended.
    pub val: u32,
    /// The source 1 register index.
    pub rs1: Register,
    /// The source 2 register index.
    pub rs2: Register,
}

impl SType {
    /// Register indices are in range and the stored immediate fits its
    /// 12-bit field.
    pub open spec fn wf(self) -> bool {
        self.rs1.wf() && self.rs2.wf() && self.val < 0x1000
    }

    /// Sign extend the raw immediate value of this S-type.
    pub fn sign_imm(&self) -> (r: i32)
        ensures
            r == sext12(self.val) as i32,
    {
        let m = self.val & 0xFFF;
        if self.val & 0x800 != 0 {
            (m | 0xFFFF_F000) as i32
        } else {
            m as i32
        }
    }

    /// Sign extend the raw immediate value of this S-type.
    pub fn sign_val(&self) -> (r: i32)
        ensures
            r == sext12(self.val) as i32,
    {
        self.sign_imm()
    }
}

/// The B instruction format.
#[derive(Debug, Clone, Copy, PartialEq, Eq, Structural)]
pub struct BType {
    /// The immediate value as the raw bit pattern, not yet sign-extended.
    pub val: u32,
    /// The source 1 register index.
    pub rs1: Register,
    /// The source 2 register index.
    pub rs2: Register,
}

impl BType {
    /// Register indices are in range, the stored immediate fits its
    /// 13-bit reconstruction and its lowest bit is zero.
    pub open spec fn wf(self) -> bool {
        self.rs1.wf() && self.rs2.wf() && self.val < 0x2000 && self.val & 1 == 0
    }

    /// Sign extend the raw immediate value of this B-type.
    pub fn sign_imm(&self) -> (r: i32)
        ensures
            r == sext13(self.val) as i32,
    {
        let m = self.val & 0x1FFF;
        if self.val & 0x1000 != 0 {
            (m | 0xFFFF_E000) as i32
        } else {
            m as i32
        }
    }

    /// Sign extend the raw immediate value of this B-type.
    pub fn sign_val(&self) -> (r: i32)
        ensures
            r == sext13(self.val) as i32,
    {
        self.sign_imm()
    }
}

/// The U instruction format.
#[derive(Debug, Clone, Copy, PartialEq, Eq, Structural)]
pub struct UType {
    /// The immediate value, already placed at bits 12..32.
    pub val: u32,
    /// The destination register index.
    pub rd: Register,
}

impl UType {
    /// The register index is in range and the low 12 bits of the
    /// stored immediate are zero.
    pub open spec fn wf(self) -> bool {
        self.rd.wf() && self.val & 0xFFF == 0
    }

    /// Get the immediate value of this U-type.
    pub fn imm(&self) -> (r: u32)
        ensures
            r == self.val,
    {
        self.val
    }

    /// Reinterpret the immediate value of this U-type as signed.
    pub fn sign_val(&self) -> (r: i32)
        ensures
            r == self.val as i32,
    {
        self.val as i32
    }
}

/// The J instruction format.
#[derive(Debug, Clone, Copy, PartialEq, Eq, Structural)]
pub struct JType {
    /// The immediate value as the raw bit pattern, not yet sign-extended.
    pub val: u32,
    /// The destination register index.
    pub rd: Register,
}

impl JType {
    /// The register index is in range, the stored immediate fits its
    /// 21-bit reconstruction and its lowest bit is zero.
    pub open spec fn wf(self) -> bool {
        self.rd.wf() && self.val < 0x20_0000 && self.val & 1 == 0
    }

    /// Sign extend the raw immediate value of this J-type.
    pub fn sign_imm(&self) -> (r: i32)
        ensures
            r == sext21(self.val) as i32,
    {
        let m = self.val & 0x1F_FFFF;
        if self.val & 0x10_0000 != 0 {
            (m | 0xFFE0_0000) as i32
        } else {
            m as i32
        }
    }

    /// Sign extend the raw immediate value of this J-type.
    pub fn sign_val(&self) -> (r: i32)
        ensures
            r == sext21(self.val) as i32,
    {
        self.sign_imm()
    }
}

} // verus!
