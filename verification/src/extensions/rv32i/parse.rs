//! Instruction decoding: from a raw 32-bit word to an [`Instruction`]
//! variant, together with the specification-level decoder, the
//! canonical encoder, and the proof that decoding inverts encoding.

use vstd::prelude::*;

use super::{BType, IType, Instruction, InstructionType, JType, RType, Register, SType, UType};

verus! {

/// The instruction format selected by an opcode, if the opcode is known.
pub open spec fn spec_from_opcode(opcode: u8) -> Option<InstructionType> {
    if opcode == 0b011_0011 {
        Some(InstructionType::R)
    } else if opcode == 0b000_0011 || opcode == 0b000_1111 || opcode == 0b001_0011 || opcode
        == 0b110_0111 || opcode == 0b111_0011 {
        Some(InstructionType::I)
    } else if opcode == 0b010_0011 {
        Some(InstructionType::S)
    } else if opcode == 0b110_0011 {
        Some(InstructionType::B)
    } else if opcode == 0b001_0111 || opcode == 0b011_0111 {
        Some(InstructionType::U)
    } else if opcode == 0b110_1111 {
        Some(InstructionType::J)
    } else {
        None
    }
}

impl InstructionType {
    /// Find the associated instruction type for a specific opcode.
    pub fn from_opcode(opcode: u8) -> (r: Option<Self>)
        ensures
            r == spec_from_opcode(opcode),
    {
        if opcode == 0b011_0011 {
            Some(InstructionType::R)
        } else if opcode == 0b000_0011 || opcode == 0b000_1111 || opcode == 0b001_0011 || opcode
            == 0b110_0111 || opcode == 0b111_0011 {
            Some(InstructionType::I)
        } else if opcode == 0b010_0011 {
            Some(InstructionType::S)
        } else if opcode == 0b110_0011 {
            Some(InstructionType::B)
        } else if opcode == 0b001_0111 || opcode == 0b011_0111 {
            Some(InstructionType::U)
        } else if opcode == 0b110_1111 {
            Some(InstructionType::J)
        } else {
            None
        }
    }
}

/// The `funct3`, `funct7` and operand fields of an R-format word.
pub open spec fn spec_parse_r(inst: u32) -> (u8, u8, RType) {
    (
        ((inst >> 12) & 0x7) as u8,
        ((inst >> 25) & 0x7F) as u8,
        RType {
            rd: Register(((inst >> 7) & 0x1F) as u8),
            rs1: Register(((inst >> 15) & 0x1F) as u8),
            rs2: Register(((inst >> 20) & 0x1F) as u8),
        },
    )
}

impl RType {
    /// Parse a R-Type instruction from the raw bytes.
    ///
    /// # Returns
    /// A tuple containing the `funct3` and `funct7` and the parsed [`RType`].
    pub fn parse(inst: u32) -> (r: (u8, u8, Self))
        ensures
            r == spec_parse_r(inst),
            r.2.wf(),
    {
        proof {
            lemma_extract_bounds(inst);
        }
        (
            ((inst >> 12) & 0x7) as u8,
            ((inst >> 25) & 0x7F) as u8,
            RType {
                rd: Register(((inst >> 7) & 0x1F) as u8),
                rs1: Register(((inst >> 15) & 0x1F) as u8),
                rs2: Register(((inst >> 20) & 0x1F) as u8),
            },
        )
    }
}

/// The `funct3` and operand fields of an I-format word.
pub open spec fn spec_parse_i(inst: u32) -> (u8, IType) {
    (
        ((inst >> 12) & 0x7) as u8,
        IType {
            val: (inst >> 20) & 0xFFF,
            rd: Register(((inst >> 7) & 0x1F) as u8),
            rs: Register(((inst >> 15) & 0x1F) as u8),
        },
    )
}

impl IType {
    /// Parse a I-Type instruction from the raw bytes.
    ///
    /// # Returns
    /// A tuple containing the `funct3` and the parsed [`IType`].
    pub fn parse(inst: u32) -> (r: (u8, Self))
        ensures
            r == spec_parse_i(inst),
            r.1.wf(),
    {
        proof {
            lemma_extract_bounds(inst);
        }
        (
            ((inst >> 12) & 0x7) as u8,
            IType {
                val: (inst >> 20) & 0xFFF,
                rd: Register(((inst >> 7) & 0x1F) as u8),
                rs: Register(((inst >> 15) & 0x1F) as u8),
            },
        )
    }
}

/// The `funct3` and operand fields of an S-format word.
pub open spec fn spec_parse_s(inst: u32) -> (u8, SType) {
    (
        ((inst >> 12) & 0x7) as u8,
        SType {
            val: ((inst >> 25) << 5) | ((inst >> 7) & 0x1F),
            rs1: Register(((inst >> 15) & 0x1F) as u8),
            rs2: Register(((inst >> 20) & 0x1F) as u8),
        },
    )
}

impl SType {
    /// Parse a S-Type instruction from the raw bytes.
    ///
    /// # Returns
    /// A tuple containing the `funct3` and the parsed [`SType`].
    pub fn parse(inst: u32) -> (r: (u8, Self))
        ensures
            r == spec_parse_s(inst),
            r.1.wf(),
    {
        proof {
            lemma_extract_bounds(inst);
        }
        (
            ((inst >> 12) & 0x7) as u8,
            SType {
                val: ((inst >> 25) << 5) | ((inst >> 7) & 0x1F),
                rs1: Register(((inst >> 15) & 0x1F) as u8),
                rs2: Register(((inst >> 20) & 0x1F) as u8),
            },
        )
    }
}

/// The `funct3` and operand fields of a B-format word, with the branch
/// displacement reassembled from its scattered bit fields.
pub open spec fn spec_parse_b(inst: u32) -> (u8, BType) {
    (
        ((inst >> 12) & 0x7) as u8,
        BType {
            val: (((((inst >> 25) & 0x7F) & 0x40) >> 6) << 12) | ((((inst >> 7) & 0x1F) & 0x1)
                << 11) | ((((inst >> 25) & 0x7F) & 0x3F) << 5) | (((((inst >> 7) & 0x1F) & 0x1E)
                >> 1) << 1),
            rs1: Register(((inst >> 15) & 0x1F) as u8),
            rs2: Register(((inst >> 20) & 0x1F) as u8),
        },
    )
}

impl BType {
    /// Parse a B-Type instruction from the raw bytes.
    ///
    /// # Returns
    /// A tuple containing the `funct3` and the parsed [`BType`].
    pub fn parse(inst: u32) -> (r: (u8, Self))
        ensures
            r == spec_parse_b(inst),
            r.1.wf(),
    {
        proof {
            lemma_extract_bounds(inst);
        }
        let imm12105 = (inst >> 25) & 0x7F;
        let imm4111 = (inst >> 7) & 0x1F;
        let imm12 = (imm12105 & 0x40) >> 6;
        let imm105 = imm12105 & 0x3F;
        let imm41 = (imm4111 & 0x1E) >> 1;
        let imm11 = imm4111 & 0x1;
        (
            ((inst >> 12) & 0x7) as u8,
            BType {
                val: (imm12 << 12) | (imm11 << 11) | (imm105 << 5) | (imm41 << 1),
                rs1: Register(((inst >> 15) & 0x1F) as u8),
                rs2: Register(((inst >> 20) & 0x1F) as u8),
            },
        )
    }
}

/// The operand fields of a U-format word.
pub open spec fn spec_parse_u(inst: u32) -> UType {
    UType { val: (inst >> 12) << 12, rd: Register(((inst >> 7) & 0x1F) as u8) }
}

impl UType {
    /// Parse a U-Type instruction from the raw bytes.
    ///
    /// # Returns
    /// The parsed [`UType`].
    pub fn parse(inst: u32) -> (r: Self)
        ensures
            r == spec_parse_u(inst),
            r.wf(),
    {
        proof {
            lemma_extract_bounds(inst);
        }
        UType { val: (inst >> 12) << 12, rd: Register(((inst >> 7) & 0x1F) as u8) }
    }
}

/// The operand fields of a J-format word, with the jump displacement
/// reassembled from its scattered bit fields.
pub open spec fn spec_parse_j(inst: u32) -> JType {
    JType {
        val: (((((inst & 0xFFFF_F000) >> 12) >> 19) & 0x1) << 20) | ((((inst & 0xFFFF_F000) >> 12)
            & 0xFF) << 12) | (((((inst & 0xFFFF_F000) >> 12) >> 8) & 0x1) << 11) | (((((inst
            & 0xFFFF_F000) >> 12) >> 9) & 0x3FF) << 1),
        rd: Register(((inst >> 7) & 0x1F) as u8),
    }
}

impl JType {
    /// Parse a J-Type instruction from the raw bytes.
    ///
    /// # Returns
    /// The parsed [`JType`].
    pub fn parse(inst: u32) -> (r: Self)
        ensures
            r == spec_parse_j(inst),
            r.wf(),
    {
        proof {
            lemma_extract_bounds(inst);
        }
        let imm = (inst & 0xFFFF_F000) >> 12;
        let imm20 = (imm >> 19) & 0x1;
        let imm101 = (imm >> 9) & 0x3FF;
        let imm11 = (imm >> 8) & 0x1;
        let imm1912 = imm & 0xFF;
        JType {
            val: (imm20 << 20) | (imm1912 << 12) | (imm11 << 11) | (imm101 << 1),
            rd: Register(((inst >> 7) & 0x1F) as u8),
        }
    }
}

/// The R-format instruction selected by `funct3` and `funct7`, if any.
pub open spec fn spec_get_r(ty: RType, funct3: u8, funct7: u8) -> Option<Instruction> {
    if funct3 == 0b000 && funct7 == 0b0000000 {
        Some(Instruction::ADD(ty))
    } else if funct3 == 0b000 && funct7 == 0b0100000 {
        Some(Instruction::SUB(ty))
    } else if funct3 == 0b001 && funct7 == 0b0000000 {
        Some(Instruction::SLL(ty))
    } else if funct3 == 0b010 && funct7 == 0b0000000 {
        Some(Instruction::SLT(ty))
    } else if funct3 == 0b011 && funct7 == 0b0000000 {
        Some(Instruction::SLTU(ty))
    } else if funct3 == 0b100 && funct7 == 0b0000000 {
        Some(Instruction::XOR(ty))
    } else if funct3 == 0b101 && funct7 == 0b0000000 {
        Some(Instruction::SRL(ty))
    } else if funct3 == 0b101 && funct7 == 0b0100000 {
        Some(Instruction::SRA(ty))
    } else if funct3 == 0b110 && funct7 == 0b0000000 {
        Some(Instruction::OR(ty))
    } else if funct3 == 0b111 && funct7 == 0b0000000 {
        Some(Instruction::AND(ty))
    } else {
        None
    }
}

fn get_r_type(ty: RType, funct3: u8, funct7: u8) -> (r: Option<Instruction>)
    ensures
        r == spec_get_r(ty, funct3, funct7),
        ty.wf() ==> match r {
            Some(i) => i.wf(),
            None => true,
        },
{
    if funct3 == 0b000 && funct7 == 0b0000000 {
        Some(Instruction::ADD(ty))
    } else if funct3 == 0b000 && funct7 == 0b0100000 {
        Some(Instruction::SUB(ty))
    } else if funct3 == 0b001 && funct7 == 0b0000000 {
        Some(Instruction::SLL(ty))
    } else if funct3 == 0b010 && funct7 == 0b0000000 {
        Some(Instruction::SLT(ty))
    } else if funct3 == 0b011 && funct7 == 0b0000000 {
        Some(Instruction::SLTU(ty))
    } else if funct3 == 0b100 && funct7 == 0b0000000 {
        Some(Instruction::XOR(ty))
    } else if funct3 == 0b101 && funct7 == 0b0000000 {
        Some(Instruction::SRL(ty))
    } else if funct3 == 0b101 && funct7 == 0b0100000 {
        Some(Instruction::SRA(ty))
    } else if funct3 == 0b110 && funct7 == 0b0000000 {
        Some(Instruction::OR(ty))
    } else if funct3 == 0b111 && funct7 == 0b0000000 {
        Some(Instruction::AND(ty))
    } else {
        None
    }
}

/// The I-format instruction selected by the opcode and `funct3`, if any.
pub open spec fn spec_get_i(ty: IType, opcode: u8, funct3: u8) -> Option<Instruction> {
    if opcode == 0b000_0011 && funct3 == 0b000 {
        Some(Instruction::LB(ty))
    } else if opcode == 0b000_0011 && funct3 == 0b001 {
        Some(Instruction::LH(ty))
    } else if opcode == 0b000_0011 && funct3 == 0b010 {
        Some(Instruction::LW(ty))
    } else if opcode == 0b000_0011 && funct3 == 0b100 {
        Some(Instruction::LBU(ty))
    } else if opcode == 0b000_0011 && funct3 == 0b101 {
        Some(Instruction::LHU(ty))
    } else if opcode == 0b000_1111 && funct3 == 0b000 {
        Some(Instruction::FENCE(ty))
    } else if opcode == 0b000_1111 && funct3 == 0b001 {
        Some(Instruction::FENCEI(ty))
    } else if opcode == 0b001_0011 && funct3 == 0b000 {
        Some(Instruction::ADDI(ty))
    } else if opcode == 0b001_0011 && funct3 == 0b010 {
        Some(Instruction::SLTI(ty))
    } else if opcode == 0b001_0011 && funct3 == 0b011 {
        Some(Instruction::SLTIU(ty))
    } else if opcode == 0b001_0011 && funct3 == 0b100 {
        Some(Instruction::XORI(ty))
    } else if opcode == 0b001_0011 && funct3 == 0b110 {
        Some(Instruction::ORI(ty))
    } else if opcode == 0b001_0011 && funct3 == 0b111 {
        Some(Instruction::ANDI(ty))
    } else if opcode == 0b001_0011 && funct3 == 0b001 {
        Some(Instruction::SLLI(ty))
    } else if opcode == 0b001_0011 && funct3 == 0b101 {
        if ty.val & 0x400 == 0 {
            Some(Instruction::SRLI(ty))
        } else {
            Some(Instruction::SRAI(IType { val: ty.val & 0xFFFF_FBFF, rd: ty.rd, rs: ty.rs }))
        }
    } else if opcode == 0b110_0111 && funct3 == 0b000 {
        Some(Instruction::JALR(ty))
    } else if opcode == 0b111_0011 && funct3 == 0b000 {
        if ty.val == 0 && ty.rd.0 == 0 && ty.rs.0 == 0 {
            Some(Instruction::ECALL(ty))
        } else if ty.val == 1 && ty.rd.0 == 0 && ty.rs.0 == 0 {
            Some(Instruction::EBREAK(ty))
        } else {
            None
        }
    } else {
        None
    }
}

fn get_i_type(ty: IType, opcode: u8, funct3: u8) -> (r: Option<Instruction>)
    ensures
        r == spec_get_i(ty, opcode, funct3),
        ty.wf() ==> match r {
            Some(i) => i.wf(),
            None => true,
        },
{
    proof {
        if ty.val < 0x1000 {
            lemma_srai_clear(ty.val);
        }
    }
    if opcode == 0b000_0011 && funct3 == 0b000 {
        Some(Instruction::LB(ty))
    } else if opcode == 0b000_0011 && funct3 == 0b001 {
        Some(Instruction::LH(ty))
    } else if opcode == 0b000_0011 && funct3 == 0b010 {
        Some(Instruction::LW(ty))
    } else if opcode == 0b000_0011 && funct3 == 0b100 {
        Some(Instruction::LBU(ty))
    } else if opcode == 0b000_0011 && funct3 == 0b101 {
        Some(Instruction::LHU(ty))
    } else if opcode == 0b000_1111 && funct3 == 0b000 {
        Some(Instruction::FENCE(ty))
    } else if opcode == 0b000_1111 && funct3 == 0b001 {
        Some(Instruction::FENCEI(ty))
    } else if opcode == 0b001_0011 && funct3 == 0b000 {
        Some(Instruction::ADDI(ty))
    } else if opcode == 0b001_0011 && funct3 == 0b010 {
        Some(Instruction::SLTI(ty))
    } else if opcode == 0b001_0011 && funct3 == 0b011 {
        Some(Instruction::SLTIU(ty))
    } else if opcode == 0b001_0011 && funct3 == 0b100 {
        Some(Instruction::XORI(ty))
    } else if opcode == 0b001_0011 && funct3 == 0b110 {
        Some(Instruction::ORI(ty))
    } else if opcode == 0b001_0011 && funct3 == 0b111 {
        Some(Instruction::ANDI(ty))
    } else if opcode == 0b001_0011 && funct3 == 0b001 {
        Some(Instruction::SLLI(ty))
    } else if opcode == 0b001_0011 && funct3 == 0b101 {
        if ty.val & 0x400 == 0 {
            Some(Instruction::SRLI(ty))
        } else {
            Some(Instruction::SRAI(IType { val: ty.val & 0xFFFF_FBFF, rd: ty.rd, rs: ty.rs }))
        }
    } else if opcode == 0b110_0111 && funct3 == 0b000 {
        Some(Instruction::JALR(ty))
    } else if opcode == 0b111_0011 && funct3 == 0b000 {
        if ty.val == 0 && ty.rd.0 == 0 && ty.rs.0 == 0 {
            Some(Instruction::ECALL(ty))
        } else if ty.val == 1 && ty.rd.0 == 0 && ty.rs.0 == 0 {
            Some(Instruction::EBREAK(ty))
        } else {
            None
        }
    } else {
        None
    }
}

/// The S-format instruction selected by `funct3`, if any.
pub open spec fn spec_get_s(ty: SType, funct3: u8) -> Option<Instruction> {
    if funct3 == 0b000 {
        Some(Instruction::SB(ty))
    } else if funct3 == 0b001 {
        Some(Instruction::SH(ty))
    } else if funct3 == 0b010 {
        Some(Instruction::SW(ty))
    } else {
        None
    }
}

fn get_s_type(ty: SType, funct3: u8) -> (r: Option<Instruction>)
    ensures
        r == spec_get_s(ty, funct3),
        ty.wf() ==> match r {
            Some(i) => i.wf(),
            None => true,
        },
{
    if funct3 == 0b000 {
        Some(Instruction::SB(ty))
    } else if funct3 == 0b001 {
        Some(Instruction::SH(ty))
    } else if funct3 == 0b010 {
        Some(Instruction::SW(ty))
    } else {
        None
    }
}

/// The B-format instruction selected by `funct3`, if any.
pub open spec fn spec_get_b(ty: BType, funct3: u8) -> Option<Instruction> {
    if funct3 == 0b000 {
        Some(Instruction::BEQ(ty))
    } else if funct3 == 0b001 {
        Some(Instruction::BNE(ty))
    } else if funct3 == 0b100 {
        Some(Instruction::BLT(ty))
    } else if funct3 == 0b101 {
        Some(Instruction::BGE(ty))
    } else if funct3 == 0b110 {
        Some(Instruction::BLTU(ty))
    } else if funct3 == 0b111 {
        Some(Instruction::BGEU(ty))
    } else {
        None
    }
}

fn get_b_type(ty: BType, funct3: u8) -> (r: Option<Instruction>)
    ensures
        r == spec_get_b(ty, funct3),
        ty.wf() ==> match r {
            Some(i) => i.wf(),
            None => true,
        },
{
    if funct3 == 0b000 {
        Some(Instruction::BEQ(ty))
    } else if funct3 == 0b001 {
        Some(Instruction::BNE(ty))
    } else if funct3 == 0b100 {
        Some(Instruction::BLT(ty))
    } else if funct3 == 0b101 {
        Some(Instruction::BGE(ty))
    } else if funct3 == 0b110 {
        Some(Instruction::BLTU(ty))
    } else if funct3 == 0b111 {
        Some(Instruction::BGEU(ty))
    } else {
        None
    }
}

/// The U-format instruction selected by the opcode, if any.
pub open spec fn spec_get_u(ty: UType, opcode: u8) -> Option<Instruction> {
    if opcode == 0b011_0111 {
        Some(Instruction::LUI(ty))
    } else if opcode == 0b001_0111 {
        Some(Instruction::AUIPC(ty))
    } else {
        None
    }
}

fn get_u_type(ty: UType, opcode: u8) -> (r: Option<Instruction>)
    ensures
        r == spec_get_u(ty, opcode),
        ty.wf() ==> match r {
            Some(i) => i.wf(),
            None => true,
        },
{
    if opcode == 0b011_0111 {
        Some(Instruction::LUI(ty))
    } else if opcode == 0b001_0111 {
        Some(Instruction::AUIPC(ty))
    } else {
        None
    }
}

/// The J-format instruction selected by the opcode, if any.
pub open spec fn spec_get_j(ty: JType, opcode: u8) -> Option<Instruction> {
    if opcode == 0b110_1111 {
        Some(Instruction::JAL(ty))
    } else {
        None
    }
}

fn get_j_type(ty: JType, opcode: u8) -> (r: Option<Instruction>)
    ensures
        r == spec_get_j(ty, opcode),
        ty.wf() ==> match r {
            Some(i) => i.wf(),
            None => true,
        },
{
    if opcode == 0b110_1111 {
        Some(Instruction::JAL(ty))
    } else {
        None
    }
}

/// The specification-level decoder: the instruction denoted by a raw
/// 32-bit word, or `None` for an unknown encoding.
pub open spec fn spec_parse(inst: u32) -> Option<Instruction> {
    let opcode = (inst & 0x7F) as u8;
    match spec_from_opcode(opcode) {
        None => None,
        Some(InstructionType::R) => {
            let (funct3, funct7, ty) = spec_parse_r(inst);
            spec_get_r(ty, funct3, funct7)
        },
        Some(InstructionType::I) => {
            let (funct3, ty) = spec_parse_i(inst);
            spec_get_i(ty, opcode, funct3)
        },
        Some(InstructionType::S) => {
            let (funct3, ty) = spec_parse_s(inst);
            spec_get_s(ty, funct3)
        },
        Some(InstructionType::B) => {
            let (funct3, ty) = spec_parse_b(inst);
            spec_get_b(ty, funct3)
        },
        Some(InstructionType::U) => spec_get_u(spec_parse_u(inst), opcode),
        Some(InstructionType::J) => spec_get_j(spec_parse_j(inst), opcode),
    }
}

/// Top level function for parsing a RV32I instruction.
pub fn parse(inst: u32) -> (r: Option<Instruction>)
    ensures
        r == spec_parse(inst),
        r matches Some(i) ==> i.wf(),
{
    let opcode = (inst & 0x7F) as u8;
    match InstructionType::from_opcode(opcode) {
        None => None,
        Some(InstructionType::R) => {
            let (funct3, funct7, ty) = RType::parse(inst);
            get_r_type(ty, funct3, funct7)
        },
        Some(InstructionType::I) => {
            let (funct3, ty) = IType::parse(inst);
            get_i_type(ty, opcode, funct3)
        },
        Some(InstructionType::S) => {
            let (funct3, ty) = SType::parse(inst);
            get_s_type(ty, funct3)
        },
        Some(InstructionType::B) => {
            let (funct3, ty) = BType::parse(inst);
            get_b_type(ty, funct3)
        },
        Some(InstructionType::U) => get_u_type(UType::parse(inst), opcode),
        Some(InstructionType::J) => get_j_type(JType::parse(inst), opcode),
    }
}

/// Clearing the arithmetic-shift bit of a 12-bit immediate keeps it in
/// its field with that bit clear.
proof fn lemma_srai_clear(v: u32)
    by (bit_vector)
    requires
        v < 0x1000,
    ensures
        (v & 0xFFFF_FBFF) < 0x1000,
        (v & 0xFFFF_FBFF) & 0x400 == 0,
{
}

/// Every field that the four parse helpers extract from a word is
/// small enough for its destination: register indices are below 32,
/// `funct3` below 8, and the reassembled immediates fit their widths.
proof fn lemma_extract_bounds(w: u32)
    by (bit_vector)
    ensures
        (w >> 7) & 0x1F < 32,
        (w >> 15) & 0x1F < 32,
        (w >> 20) & 0x1F < 32,
        (w >> 12) & 0x7 < 8,
        (w >> 25) & 0x7F < 128,
        (w >> 20) & 0xFFF < 0x1000,
        ((w >> 25) << 5) | ((w >> 7) & 0x1F) < 0x1000,
        (((((w >> 25) & 0x7F) & 0x40) >> 6) << 12) | ((((w >> 7) & 0x1F) & 0x1) << 11) | ((((w
            >> 25) & 0x7F) & 0x3F) << 5) | (((((w >> 7) & 0x1F) & 0x1E) >> 1) << 1) < 0x2000,
        ((((((w >> 25) & 0x7F) & 0x40) >> 6) << 12) | ((((w >> 7) & 0x1F) & 0x1) << 11) | ((((w
            >> 25) & 0x7F) & 0x3F) << 5) | (((((w >> 7) & 0x1F) & 0x1E) >> 1) << 1)) & 1 == 0,
        ((w >> 12) << 12) & 0xFFF == 0,
        (((((w & 0xFFFF_F000) >> 12) >> 19) & 0x1) << 20) | ((((w & 0xFFFF_F000) >> 12) & 0xFF)
            << 12) | (((((w & 0xFFFF_F000) >> 12) >> 8) & 0x1) << 11) | (((((w & 0xFFFF_F000)
            >> 12) >> 9) & 0x3FF) << 1) < 0x20_0000,
        ((((((w & 0xFFFF_F000) >> 12) >> 19) & 0x1) << 20) | ((((w & 0xFFFF_F000) >> 12) & 0xFF)
            << 12) | (((((w & 0xFFFF_F000) >> 12) >> 8) & 0x1) << 11) | (((((w & 0xFFFF_F000)
            >> 12) >> 9) & 0x3FF) << 1)) & 1 == 0,
{
}

/// The canonical encoding of an R-format instruction.
pub open spec fn enc_r(opcode: u32, funct3: u8, funct7: u8, ty: RType) -> u32 {
    opcode | ((ty.rd.0 as u32) << 7) | ((funct3 as u32) << 12) | ((ty.rs1.0 as u32) << 15) | ((
    ty.rs2.0 as u32) << 20) | ((funct7 as u32) << 25)
}

/// The canonical encoding of an I-format instruction.
pub open spec fn enc_i(opcode: u32, funct3: u8, ty: IType) -> u32 {
    opcode | ((ty.rd.0 as u32) << 7) | ((funct3 as u32) << 12) | ((ty.rs.0 as u32) << 15) | (ty.val
        << 20)
}

/// The canonical encoding of an S-format instruction.
pub open spec fn enc_s(opcode: u32, funct3: u8, ty: SType) -> u32 {
    opcode | ((ty.val & 0x1F) << 7) | ((funct3 as u32) << 12) | ((ty.rs1.0 as u32) << 15) | ((
    ty.rs2.0 as u32) << 20) | ((ty.val >> 5) << 25)
}

/// The canonical encoding of a B-format instruction.
pub open spec fn enc_b(opcode: u32, funct3: u8, ty: BType) -> u32 {
    opcode | (((ty.val >> 11) & 0x1) << 7) | (((ty.val >> 1) & 0xF) << 8) | ((funct3 as u32) << 12)
        | ((ty.rs1.0 as u32) << 15) | ((ty.rs2.0 as u32) << 20) | (((ty.val >> 5) & 0x3F) << 25) | (
    ((ty.val >> 12) & 0x1) << 31)
}

/// The canonical encoding of a U-format instruction.
pub open spec fn enc_u(opcode: u32, ty: UType) -> u32 {
    opcode | ((ty.rd.0 as u32) << 7) | ty.val
}

/// The canonical encoding of a J-format instruction.
pub open spec fn enc_j(opcode: u32, ty: JType) -> u32 {
    opcode | ((ty.rd.0 as u32) << 7) | (((ty.val >> 12) & 0xFF) << 12) | (((ty.val >> 11) & 0x1)
        << 20) | (((ty.val >> 1) & 0x3FF) << 21) | (((ty.val >> 20) & 0x1) << 31)
}

/// The canonical encoding of an instruction, as an RV32I assembler
/// would emit it.
pub open spec fn encode(i: Instruction) -> u32 {
    match i {
        Instruction::LUI(ty) => enc_u(0b011_0111, ty),
        Instruction::AUIPC(ty) => enc_u(0b001_0111, ty),
        Instruction::JAL(ty) => enc_j(0b110_1111, ty),
        Instruction::JALR(ty) => enc_i(0b110_0111, 0b000, ty),
        Instruction::BEQ(ty) => enc_b(0b110_0011, 0b000, ty),
        Instruction::BNE(ty) => enc_b(0b110_0011, 0b001, ty),
        Instruction::BLT(ty) => enc_b(0b110_0011, 0b100, ty),
        Instruction::BGE(ty) => enc_b(0b110_0011, 0b101, ty),
        Instruction::BLTU(ty) => enc_b(0b110_0011, 0b110, ty),
        Instruction::BGEU(ty) => enc_b(0b110_0011, 0b111, ty),
        Instruction::LB(ty) => enc_i(0b000_0011, 0b000, ty),
        Instruction::LH(ty) => enc_i(0b000_0011, 0b001, ty),
        Instruction::LW(ty) => enc_i(0b000_0011, 0b010, ty),
        Instruction::LBU(ty) => enc_i(0b000_0011, 0b100, ty),
        Instruction::LHU(ty) => enc_i(0b000_0011, 0b101, ty),
        Instruction::SB(ty) => enc_s(0b010_0011, 0b000, ty),
        Instruction::SH(ty) => enc_s(0b010_0011, 0b001, ty),
        Instruction::SW(ty) => enc_s(0b010_0011, 0b010, ty),
        Instruction::ADDI(ty) => enc_i(0b001_0011, 0b000, ty),
        Instruction::SLTI(ty) => enc_i(0b001_0011, 0b010, ty),
        Instruction::SLTIU(ty) => enc_i(0b001_0011, 0b011, ty),
        Instruction::XORI(ty) => enc_i(0b001_0011, 0b100, ty),
        Instruction::ORI(ty) => enc_i(0b001_0011, 0b110, ty),
        Instruction::ANDI(ty) => enc_i(0b001_0011, 0b111, ty),
        Instruction::SLLI(ty) => enc_i(0b001_0011, 0b001, ty),
        Instruction::SRLI(ty) => enc_i(0b001_0011, 0b101, ty),
        Instruction::SRAI(ty) => enc_i(
            0b001_0011,
            0b101,
            IType { val: ty.val | 0x400, rd: ty.rd, rs: ty.rs },
        ),
        Instruction::ADD(ty) => enc_r(0b011_0011, 0b000, 0b0000000, ty),
        Instruction::SUB(ty) => enc_r(0b011_0011, 0b000, 0b0100000, ty),
        Instruction::SLL(ty) => enc_r(0b011_0011, 0b001, 0b0000000, ty),
        Instruction::SLT(ty) => enc_r(0b011_0011, 0b010, 0b0000000, ty),
        Instruction::SLTU(ty) => enc_r(0b011_0011, 0b011, 0b0000000, ty),
        Instruction::XOR(ty) => enc_r(0b011_0011, 0b100, 0b0000000, ty),
        Instruction::SRL(ty) => enc_r(0b011_0011, 0b101, 0b0000000, ty),
        Instruction::SRA(ty) => enc_r(0b011_0011, 0b101, 0b0100000, ty),
        Instruction::OR(ty) => enc_r(0b011_0011, 0b110, 0b0000000, ty),
        Instruction::AND(ty) => enc_r(0b011_0011, 0b111, 0b0000000, ty),
        Instruction::FENCE(ty) => enc_i(0b000_1111, 0b000, ty),
        Instruction::FENCEI(ty) => enc_i(0b000_1111, 0b001, ty),
        Instruction::ECALL(ty) => enc_i(0b111_0011, 0b000, ty),
        Instruction::EBREAK(ty) => enc_i(0b111_0011, 0b000, ty),
    }
}

/// Field extraction undoes the R-format encoding.
pub(crate) proof fn lemma_enc_r(w: u32, opcode: u32, funct3: u8, funct7: u8, rd: u8, rs1: u8, rs2: u8)
    by (bit_vector)
    requires
        opcode < 128,
        funct3 < 8,
        funct7 < 128,
        rd < 32,
        rs1 < 32,
        rs2 < 32,
        w == opcode | ((rd as u32) << 7) | ((funct3 as u32) << 12) | ((rs1 as u32) << 15) | ((
        rs2 as u32) << 20) | ((funct7 as u32) << 25),
    ensures
        w & 0x7F == opcode,
        (w & 0x7F) as u8 == opcode as u8,
        ((w >> 12) & 0x7) as u8 == funct3,
        ((w >> 25) & 0x7F) as u8 == funct7,
        ((w >> 7) & 0x1F) as u8 == rd,
        ((w >> 15) & 0x1F) as u8 == rs1,
        ((w >> 20) & 0x1F) as u8 == rs2,
{
}

/// Field extraction undoes the I-format encoding.
pub(crate) proof fn lemma_enc_i(w: u32, opcode: u32, funct3: u8, rd: u8, rs: u8, val: u32)
    by (bit_vector)
    requires
        opcode < 128,
        funct3 < 8,
        rd < 32,
        rs < 32,
        val < 0x1000,
        w == opcode | ((rd as u32) << 7) | ((funct3 as u32) << 12) | ((rs as u32) << 15) | (val
            << 20),
    ensures
        w & 0x7F == opcode,
        (w & 0x7F) as u8 == opcode as u8,
        ((w >> 12) & 0x7) as u8 == funct3,
        ((w >> 7) & 0x1F) as u8 == rd,
        ((w >> 15) & 0x1F) as u8 == rs,
        (w >> 20) & 0xFFF == val,
{
}

/// Field extraction undoes the S-format encoding.
proof fn lemma_enc_s(w: u32, opcode: u32, funct3: u8, rs1: u8, rs2: u8, val: u32)
    by (bit_vector)
    requires
        opcode < 128,
        funct3 < 8,
        rs1 < 32,
        rs2 < 32,
        val < 0x1000,
        w == opcode | ((val & 0x1F) << 7) | ((funct3 as u32) << 12) | ((rs1 as u32) << 15) | ((
        rs2 as u32) << 20) | ((val >> 5) << 25),
    ensures
        w & 0x7F == opcode,
        (w & 0x7F) as u8 == opcode as u8,
        ((w >> 12) & 0x7) as u8 == funct3,
        ((w >> 15) & 0x1F) as u8 == rs1,
        ((w >> 20) & 0x1F) as u8 == rs2,
        ((w >> 25) << 5) | ((w >> 7) & 0x1F) == val,
{
}

/// Field extraction undoes the B-format encoding.
proof fn lemma_enc_b(w: u32, opcode: u32, funct3: u8, rs1: u8, rs2: u8, val: u32)
    by (bit_vector)
    requires
        opcode < 128,
        funct3 < 8,
        rs1 < 32,
        rs2 < 32,
        val < 0x2000,
        val & 1 == 0,
        w == opcode | (((val >> 11) & 0x1) << 7) | (((val >> 1) & 0xF) << 8) | ((funct3 as u32)
            << 12) | ((rs1 as u32) << 15) | ((rs2 as u32) << 20) | (((val >> 5) & 0x3F) << 25) | ((
        (val >> 12) & 0x1) << 31),
    ensures
        w & 0x7F == opcode,
        (w & 0x7F) as u8 == opcode as u8,
        ((w >> 12) & 0x7) as u8 == funct3,
        ((w >> 15) & 0x1F) as u8 == rs1,
        ((w >> 20) & 0x1F) as u8 == rs2,
        (((((w >> 25) & 0x7F) & 0x40) >> 6) << 12) | ((((w >> 7) & 0x1F) & 0x1) << 11) | ((((w
            >> 25) & 0x7F) & 0x3F) << 5) | (((((w >> 7) & 0x1F) & 0x1E) >> 1) << 1) == val,
{
}

/// Field extraction undoes the U-format encoding.
proof fn lemma_enc_u(w: u32, opcode: u32, rd: u8, val: u32)
    by (bit_vector)
    requires
        opcode < 128,
        rd < 32,
        val & 0xFFF == 0,
        w == opcode | ((rd as u32) << 7) | val,
    ensures
        w & 0x7F == opcode,
        (w & 0x7F) as u8 == opcode as u8,
        ((w >> 7) & 0x1F) as u8 == rd,
        (w >> 12) << 12 == val,
{
}

/// Field extraction undoes the J-format encoding.
proof fn lemma_enc_j(w: u32, opcode: u32, rd: u8, val: u32)
    by (bit_vector)
    requires
        opcode < 128,
        rd < 32,
        val < 0x20_0000,
        val & 1 == 0,
        w == opcode | ((rd as u32) << 7) | (((val >> 12) & 0xFF) << 12) | (((val >> 11) & 0x1)
            << 20) | (((val >> 1) & 0x3FF) << 21) | (((val >> 20) & 0x1) << 31),
    ensures
        w & 0x7F == opcode,
        (w & 0x7F) as u8 == opcode as u8,
        ((w >> 7) & 0x1F) as u8 == rd,
        (((((w & 0xFFFF_F000) >> 12) >> 19) & 0x1) << 20) | ((((w & 0xFFFF_F000) >> 12) & 0xFF)
            << 12) | (((((w & 0xFFFF_F000) >> 12) >> 8) & 0x1) << 11) | (((((w & 0xFFFF_F000)
            >> 12) >> 9) & 0x3FF) << 1) == val,
{
}

/// Setting the distinguishing bit of a shift immediate keeps it in its
/// field and clearing that bit afterwards restores the original value.
proof fn lemma_srai_bit(v: u32)
    by (bit_vector)
    requires
        v < 0x1000,
        v & 0x400 == 0,
    ensures
        (v | 0x400) < 0x1000,
        (v | 0x400) & 0x400 != 0,
        (v | 0x400) & 0xFFFF_FBFF == v,
{
}

/// The decoder is total on the encodings an assembler can produce:
/// decoding the canonical encoding of any well-formed instruction
/// yields that instruction back.
pub proof fn lemma_parse_encode(i: Instruction)
    requires
        i.wf(),
    ensures
        spec_parse(encode(i)) == Some(i),
{
    let w = encode(i);
    match i {
        Instruction::LUI(ty) => lemma_enc_u(w, 0b011_0111, ty.rd.0, ty.val),
        Instruction::AUIPC(ty) => lemma_enc_u(w, 0b001_0111, ty.rd.0, ty.val),
        Instruction::JAL(ty) => lemma_enc_j(w, 0b110_1111, ty.rd.0, ty.val),
        Instruction::JALR(ty) => lemma_enc_i(w, 0b110_0111, 0b000, ty.rd.0, ty.rs.0, ty.val),
        Instruction::BEQ(ty) => lemma_enc_b(w, 0b110_0011, 0b000, ty.rs1.0, ty.rs2.0, ty.val),
        Instruction::BNE(ty) => lemma_enc_b(w, 0b110_0011, 0b001, ty.rs1.0, ty.rs2.0, ty.val),
        Instruction::BLT(ty) => lemma_enc_b(w, 0b110_0011, 0b100, ty.rs1.0, ty.rs2.0, ty.val),
        Instruction::BGE(ty) => lemma_enc_b(w, 0b110_0011, 0b101, ty.rs1.0, ty.rs2.0, ty.val),
        Instruction::BLTU(ty) => lemma_enc_b(w, 0b110_0011, 0b110, ty.rs1.0, ty.rs2.0, ty.val),
        Instruction::BGEU(ty) => lemma_enc_b(w, 0b110_0011, 0b111, ty.rs1.0, ty.rs2.0, ty.val),
        Instruction::LB(ty) => lemma_enc_i(w, 0b000_0011, 0b000, ty.rd.0, ty.rs.0, ty.val),
        Instruction::LH(ty) => lemma_enc_i(w, 0b000_0011, 0b001, ty.rd.0, ty.rs.0, ty.val),
        Instruction::LW(ty) => lemma_enc_i(w, 0b000_0011, 0b010, ty.rd.0, ty.rs.0, ty.val),
        Instruction::LBU(ty) => lemma_enc_i(w, 0b000_0011, 0b100, ty.rd.0, ty.rs.0, ty.val),
        Instruction::LHU(ty) => lemma_enc_i(w, 0b000_0011, 0b101, ty.rd.0, ty.rs.0, ty.val),
        Instruction::SB(ty) => lemma_enc_s(w, 0b010_0011, 0b000, ty.rs1.0, ty.rs2.0, ty.val),
        Instruction::SH(ty) => lemma_enc_s(w, 0b010_0011, 0b001, ty.rs1.0, ty.rs2.0, ty.val),
        Instruction::SW(ty) => lemma_enc_s(w, 0b010_0011, 0b010, ty.rs1.0, ty.rs2.0, ty.val),
        Instruction::ADDI(ty) => lemma_enc_i(w, 0b001_0011, 0b000, ty.rd.0, ty.rs.0, ty.val),
        Instruction::SLTI(ty) => lemma_enc_i(w, 0b001_0011, 0b010, ty.rd.0, ty.rs.0, ty.val),
        Instruction::SLTIU(ty) => lemma_enc_i(w, 0b001_0011, 0b011, ty.rd.0, ty.rs.0, ty.val),
        Instruction::XORI(ty) => lemma_enc_i(w, 0b001_0011, 0b100, ty.rd.0, ty.rs.0, ty.val),
        Instruction::ORI(ty) => lemma_enc_i(w, 0b001_0011, 0b110, ty.rd.0, ty.rs.0, ty.val),
        Instruction::ANDI(ty) => lemma_enc_i(w, 0b001_0011, 0b111, ty.rd.0, ty.rs.0, ty.val),
        Instruction::SLLI(ty) => lemma_enc_i(w, 0b001_0011, 0b001, ty.rd.0, ty.rs.0, ty.val),
        Instruction::SRLI(ty) => lemma_enc_i(w, 0b001_0011, 0b101, ty.rd.0, ty.rs.0, ty.val),
        Instruction::SRAI(ty) => {
            lemma_srai_bit(ty.val);
            lemma_enc_i(w, 0b001_0011, 0b101, ty.rd.0, ty.rs.0, ty.val | 0x400);
        },
        Instruction::ADD(ty) => lemma_enc_r(
            w,
            0b011_0011,
            0b000,
            0b0000000,
            ty.rd.0,
            ty.rs1.0,
            ty.rs2.0,
        ),
        Instruction::SUB(ty) => lemma_enc_r(
            w,
            0b011_0011,
            0b000,
            0b0100000,
            ty.rd.0,
            ty.rs1.0,
            ty.rs2.0,
        ),
        Instruction::SLL(ty) => lemma_enc_r(
            w,
            0b011_0011,
            0b001,
            0b0000000,
            ty.rd.0,
            ty.rs1.0,
            ty.rs2.0,
        ),
        Instruction::SLT(ty) => lemma_enc_r(
            w,
            0b011_0011,
            0b010,
            0b0000000,
            ty.rd.0,
            ty.rs1.0,
            ty.rs2.0,
        ),
        Instruction::SLTU(ty) => lemma_enc_r(
            w,
            0b011_0011,
            0b011,
            0b0000000,
            ty.rd.0,
            ty.rs1.0,
            ty.rs2.0,
        ),
        Instruction::XOR(ty) => lemma_enc_r(
            w,
            0b011_0011,
            0b100,
            0b0000000,
            ty.rd.0,
            ty.rs1.0,
            ty.rs2.0,
        ),
        Instruction::SRL(ty) => lemma_enc_r(
            w,
            0b011_0011,
            0b101,
            0b0000000,
            ty.rd.0,
            ty.rs1.0,
            ty.rs2.0,
        ),
        Instruction::SRA(ty) => lemma_enc_r(
            w,
            0b011_0011,
            0b101,
            0b0100000,
            ty.rd.0,
            ty.rs1.0,
            ty.rs2.0,
        ),
        Instruction::OR(ty) => lemma_enc_r(
            w,
            0b011_0011,
            0b110,
            0b0000000,
            ty.rd.0,
            ty.rs1.0,
            ty.rs2.0,
        ),
        Instruction::AND(ty) => lemma_enc_r(
            w,
            0b011_0011,
            0b111,
            0b0000000,
            ty.rd.0,
            ty.rs1.0,
            ty.rs2.0,
        ),
        Instruction::FENCE(ty) => lemma_enc_i(w, 0b000_1111, 0b000, ty.rd.0, ty.rs.0, ty.val),
        Instruction::FENCEI(ty) => lemma_enc_i(w, 0b000_1111, 0b001, ty.rd.0, ty.rs.0, ty.val),
        Instruction::ECALL(ty) => lemma_enc_i(w, 0b111_0011, 0b000, ty.rd.0, ty.rs.0, ty.val),
        Instruction::EBREAK(ty) => lemma_enc_i(w, 0b111_0011, 0b000, ty.rd.0, ty.rs.0, ty.val),
    }
}

} // verus!
