//! Execution engine for RV32I instructions, together with the
//! specification-level interpreter that pins down the effect of every
//! instruction on the hart state.

use vstd::prelude::*;

use super::{BType, Instruction, Register};
use crate::bits::{sext12, sext13, sext16, sext21, sext8};
use crate::cpu::{Continuation, Cpu, CpuState, PrivilegeMode};
use crate::memory::{spec_read_bus, spec_write_bus};
use crate::trap::Exception;
use crate::Address;

verus! {

/// Addition wrapping at the 32-bit register width.
pub open spec fn wadd(a: u32, b: u32) -> u32 {
    vstd::wrapping::u32_specs::wrapping_add(a, b)
}

/// Subtraction wrapping at the 32-bit register width.
pub open spec fn wsub(a: u32, b: u32) -> u32 {
    vstd::wrapping::u32_specs::wrapping_sub(a, b)
}

/// The value of register `r` in state `s`.
pub open spec fn reg(s: CpuState, r: Register) -> u32 {
    s.regs[r.0 as int]
}

/// State `s` with `v` written to register `rd`; a write to `x0` is
/// discarded.
pub open spec fn upd_reg(s: CpuState, rd: Register, v: u32) -> CpuState {
    if rd.0 == 0 {
        s
    } else {
        CpuState { regs: s.regs.update(rd.0 as int, v), ..s }
    }
}

/// State `s` with the program counter replaced.
pub open spec fn with_pc(s: CpuState, pc: u32) -> CpuState {
    CpuState { pc, ..s }
}

/// The effect of a branch: when taken, jump to the displaced target if
/// it is four-byte aligned and fault otherwise; when not taken, fall
/// through.
pub open spec fn spec_branch(s: CpuState, ty: BType, taken: bool) -> (CpuState, core::result::Result<
    Continuation,
    Exception,
>) {
    if taken {
        let target = wadd(s.pc, sext13(ty.val));
        if target & 3 != 0 {
            (s, Err(Exception::InstructionAddressMisaligned(Address(target as u64))))
        } else {
            (with_pc(s, target), Ok(Continuation::Jump))
        }
    } else {
        (s, Ok(Continuation::Next))
    }
}

/// The effect of a load of `size` bytes at the effective address
/// `addr`: the loaded value, sign-extended from its width when `sign`
/// holds, is written into `rd`.
pub open spec fn spec_load(s: CpuState, rd: Register, addr: u32, size: u64, sign: bool) -> (
    CpuState,
    core::result::Result<Continuation, Exception>,
) {
    match spec_read_bus(s.mem, addr as u64, size) {
        Ok(v) => {
            let x = if sign && size == 1 {
                sext8(v as u32)
            } else if sign && size == 2 {
                sext16(v as u32)
            } else {
                v as u32
            };
            (upd_reg(s, rd, x), Ok(Continuation::Next))
        },
        Err(e) => (s, Err(e)),
    }
}

/// The effect of a store of the `size` low-order bytes of `v` at the
/// effective address `addr`.
pub open spec fn spec_store(s: CpuState, addr: u32, size: u64, v: u64) -> (CpuState, core::result::Result<
    Continuation,
    Exception,
>) {
    match spec_write_bus(s.mem, addr as u64, size, v) {
        Ok(m) => (CpuState { mem: m, ..s }, Ok(Continuation::Next)),
        Err(e) => (s, Err(e)),
    }
}

/// The specification-level interpreter: the state and outcome produced
/// by executing `inst` from state `s`, following the RV32I semantics.
pub open spec fn spec_exec(inst: Instruction, s: CpuState) -> (CpuState, core::result::Result<
    Continuation,
    Exception,
>) {
    match inst {
        Instruction::LUI(ty) => (upd_reg(s, ty.rd, ty.val), Ok(Continuation::Next)),
        Instruction::AUIPC(ty) => (upd_reg(s, ty.rd, wadd(s.pc, ty.val)), Ok(Continuation::Next)),
        Instruction::JAL(ty) => {
            let target = wadd(s.pc, sext21(ty.val));
            if target & 3 != 0 {
                (s, Err(Exception::InstructionAddressMisaligned(Address(target as u64))))
            } else {
                (upd_reg(with_pc(s, target), ty.rd, wadd(s.pc, 4)), Ok(Continuation::Jump))
            }
        },
        Instruction::JALR(ty) => {
            let target = wadd(reg(s, ty.rs), sext12(ty.val)) & 0xFFFF_FFFE;
            if target & 3 != 0 {
                (s, Err(Exception::InstructionAddressMisaligned(Address(target as u64))))
            } else {
                (upd_reg(with_pc(s, target), ty.rd, wadd(s.pc, 4)), Ok(Continuation::Jump))
            }
        },
        Instruction::BEQ(ty) => spec_branch(s, ty, reg(s, ty.rs1) == reg(s, ty.rs2)),
        Instruction::BNE(ty) => spec_branch(s, ty, reg(s, ty.rs1) != reg(s, ty.rs2)),
        Instruction::BLT(ty) => spec_branch(
            s,
            ty,
            (reg(s, ty.rs1) as i32) < (reg(s, ty.rs2) as i32),
        ),
        Instruction::BGE(ty) => spec_branch(
            s,
            ty,
            (reg(s, ty.rs1) as i32) >= (reg(s, ty.rs2) as i32),
        ),
        Instruction::BLTU(ty) => spec_branch(s, ty, reg(s, ty.rs1) < reg(s, ty.rs2)),
        Instruction::BGEU(ty) => spec_branch(s, ty, reg(s, ty.rs1) >= reg(s, ty.rs2)),
        Instruction::LB(ty) => spec_load(s, ty.rd, wadd(reg(s, ty.rs), sext12(ty.val)), 1, true),
        Instruction::LH(ty) => spec_load(s, ty.rd, wadd(reg(s, ty.rs), sext12(ty.val)), 2, true),
        Instruction::LW(ty) => spec_load(s, ty.rd, wadd(reg(s, ty.rs), sext12(ty.val)), 4, false),
        Instruction::LBU(ty) => spec_load(s, ty.rd, wadd(reg(s, ty.rs), sext12(ty.val)), 1, false),
        Instruction::LHU(ty) => spec_load(s, ty.rd, wadd(reg(s, ty.rs), sext12(ty.val)), 2, false),
        Instruction::SB(ty) => spec_store(
            s,
            wadd(reg(s, ty.rs1), sext12(ty.val)),
            1,
            (reg(s, ty.rs2) as u8) as u64,
        ),
        Instruction::SH(ty) => spec_store(
            s,
            wadd(reg(s, ty.rs1), sext12(ty.val)),
            2,
            (reg(s, ty.rs2) as u16) as u64,
        ),
        Instruction::SW(ty) => spec_store(
            s,
            wadd(reg(s, ty.rs1), sext12(ty.val)),
            4,
            reg(s, ty.rs2) as u64,
        ),
        Instruction::ADDI(ty) => (
            upd_reg(s, ty.rd, wadd(reg(s, ty.rs), sext12(ty.val))),
            Ok(Continuation::Next),
        ),
        Instruction::SLTI(ty) => (
            upd_reg(
                s,
                ty.rd,
                if (reg(s, ty.rs) as i32) < (sext12(ty.val) as i32) {
                    1
                } else {
                    0
                },
            ),
            Ok(Continuation::Next),
        ),
        Instruction::SLTIU(ty) => (
            upd_reg(
                s,
                ty.rd,
                if reg(s, ty.rs) < sext12(ty.val) {
                    1
                } else {
                    0
                },
            ),
            Ok(Continuation::Next),
        ),
        Instruction::XORI(ty) => (
            upd_reg(s, ty.rd, reg(s, ty.rs) ^ sext12(ty.val)),
            Ok(Continuation::Next),
        ),
        Instruction::ORI(ty) => (
            upd_reg(s, ty.rd, reg(s, ty.rs) | sext12(ty.val)),
            Ok(Continuation::Next),
        ),
        Instruction::ANDI(ty) => (
            upd_reg(s, ty.rd, reg(s, ty.rs) & sext12(ty.val)),
            Ok(Continuation::Next),
        ),
        Instruction::SLLI(ty) => {
            if ty.val & 0x3F >= 32 {
                (s, Err(Exception::IllegalInstruction(0)))
            } else {
                (upd_reg(s, ty.rd, reg(s, ty.rs) << (ty.val & 0x3F)), Ok(Continuation::Next))
            }
        },
        Instruction::SRLI(ty) => {
            if ty.val & 0x3F >= 32 {
                (s, Err(Exception::IllegalInstruction(0)))
            } else {
                (upd_reg(s, ty.rd, reg(s, ty.rs) >> (ty.val & 0x3F)), Ok(Continuation::Next))
            }
        },
        Instruction::SRAI(ty) => {
            if ty.val & 0x3F >= 32 {
                (s, Err(Exception::IllegalInstruction(0)))
            } else {
                (
                    upd_reg(s, ty.rd, ((reg(s, ty.rs) as i32) >> (ty.val & 0x3F)) as u32),
                    Ok(Continuation::Next),
                )
            }
        },
        Instruction::ADD(ty) => (
            upd_reg(s, ty.rd, wadd(reg(s, ty.rs1), reg(s, ty.rs2))),
            Ok(Continuation::Next),
        ),
        Instruction::SUB(ty) => (
            upd_reg(s, ty.rd, wsub(reg(s, ty.rs1), reg(s, ty.rs2))),
            Ok(Continuation::Next),
        ),
        Instruction::SLL(ty) => (
            upd_reg(s, ty.rd, reg(s, ty.rs1) << (reg(s, ty.rs2) & 0x1F)),
            Ok(Continuation::Next),
        ),
        Instruction::SLT(ty) => (
            upd_reg(
                s,
                ty.rd,
                if (reg(s, ty.rs1) as i32) < (reg(s, ty.rs2) as i32) {
                    1
                } else {
                    0
                },
            ),
            Ok(Continuation::Next),
        ),
        Instruction::SLTU(ty) => (
            upd_reg(
                s,
                ty.rd,
                if reg(s, ty.rs1) < reg(s, ty.rs2) {
                    1
                } else {
                    0
                },
            ),
            Ok(Continuation::Next),
        ),
        Instruction::XOR(ty) => (
            upd_reg(s, ty.rd, reg(s, ty.rs1) ^ reg(s, ty.rs2)),
            Ok(Continuation::Next),
        ),
        Instruction::SRL(ty) => (
            upd_reg(s, ty.rd, reg(s, ty.rs1) >> (reg(s, ty.rs2) & 0x1F)),
            Ok(Continuation::Next),
        ),
        Instruction::SRA(ty) => (
            upd_reg(s, ty.rd, ((reg(s, ty.rs1) as i32) >> (reg(s, ty.rs2) & 0x1F)) as u32),
            Ok(Continuation::Next),
        ),
        Instruction::OR(ty) => (
            upd_reg(s, ty.rd, reg(s, ty.rs1) | reg(s, ty.rs2)),
            Ok(Continuation::Next),
        ),
        Instruction::AND(ty) => (
            upd_reg(s, ty.rd, reg(s, ty.rs1) & reg(s, ty.rs2)),
            Ok(Continuation::Next),
        ),
        Instruction::FENCE(_) => (s, Ok(Continuation::Next)),
        Instruction::FENCEI(_) => (s, Ok(Continuation::Next)),
        Instruction::ECALL(_) => (
            s,
            Err(
                match s.mode {
                    PrivilegeMode::User => Exception::UserEcall,
                    PrivilegeMode::Supervisor => Exception::SupervisorEcall,
                    PrivilegeMode::Machine => Exception::MachineEcall,
                },
            ),
        ),
        Instruction::EBREAK(_) => (s, Err(Exception::Breakpoint)),
    }
}

/// Sign extension of a 12-bit immediate, as executable code.
fn sext12e(v: u32) -> (r: u32)
    ensures
        r == sext12(v),
{
    if v & 0x800 != 0 {
        (v & 0xFFF) | 0xFFFF_F000
    } else {
        v & 0xFFF
    }
}

/// Sign extension of a 13-bit immediate, as executable code.
fn sext13e(v: u32) -> (r: u32)
    ensures
        r == sext13(v),
{
    if v & 0x1000 != 0 {
        (v & 0x1FFF) | 0xFFFF_E000
    } else {
        v & 0x1FFF
    }
}

/// Sign extension of a 21-bit immediate, as executable code.
fn sext21e(v: u32) -> (r: u32)
    ensures
        r == sext21(v),
{
    if v & 0x10_0000 != 0 {
        (v & 0x1F_FFFF) | 0xFFE0_0000
    } else {
        v & 0x1F_FFFF
    }
}

/// The value of register `r`, as a 32-bit word.
pub(crate) fn read_reg(cpu: &Cpu, r: Register) -> (v: u32)
    requires
        cpu.wf(),
        r.wf(),
    ensures
        v == reg(cpu@, r),
{
    cpu.arch.base.read_register(r).value() as u32
}

/// Write `v` into register `rd`, leaving the rest of the hart alone.
pub(crate) fn write_rd(cpu: &mut Cpu, rd: Register, v: u32)
    requires
        old(cpu).wf(),
        rd.wf(),
    ensures
        final(cpu).wf(),
        final(cpu)@ == upd_reg(old(cpu)@, rd, v),
{
    cpu.arch.base.write_register(rd, Address(v as u64));
    proof {
        assert(cpu@ =~= upd_reg(old(cpu)@, rd, v));
    }
}

/// Execute a taken-or-not branch with the given displacement.
fn branch(cpu: &mut Cpu, ty: BType, cond: bool) -> (r: core::result::Result<
    Continuation,
    Exception,
>)
    requires
        old(cpu).wf(),
        ty.wf(),
    ensures
        final(cpu).wf(),
        ({
            let p = spec_branch(old(cpu)@, ty, cond);
            final(cpu)@ == p.0 && r == p.1
        }),
{
    if cond {
        let target = cpu.arch.base.pc.wrapping_add(sext13e(ty.val));
        if target & 3 != 0 {
            return Err(Exception::InstructionAddressMisaligned(Address(target as u64)));
        }
        cpu.arch.base.set_pc(Address(target as u64));
        proof {
            assert(cpu@ =~= with_pc(old(cpu)@, target));
        }
        Ok(Continuation::Jump)
    } else {
        Ok(Continuation::Next)
    }
}

/// A masked shift amount is below 64, so its `u8` image is faithful.
proof fn lemma_shamt_bound(v: u32)
    by (bit_vector)
    ensures
        v & 0x3F < 64,
        v & 0x1F < 32,
{
}

/// Check that a shift amount fits the register width of the hart.
fn verify_shamt(cpu: &Cpu, x: u8) -> (r: core::result::Result<(), Exception>)
    requires
        cpu.wf(),
    ensures
        match r {
            Ok(_) => x < 32,
            Err(e) => x >= 32 && e == Exception::IllegalInstruction(0),
        },
{
    if x as u32 >= cpu.arch.xlen {
        Err(Exception::IllegalInstruction(0))
    } else {
        Ok(())
    }
}

/// Execute a RV32I instruction on the given cpu.
///
/// The outcome and the new hart state are exactly those of the
/// specification-level interpreter [`spec_exec`].
#[verifier::rlimit(100)]
pub fn exec(inst: Instruction, cpu: &mut Cpu) -> (r: core::result::Result<
    Continuation,
    Exception,
>)
    requires
        old(cpu).wf(),
        inst.wf(),
    ensures
        final(cpu).wf(),
        ({
            let p = spec_exec(inst, old(cpu)@);
            final(cpu)@ == p.0 && r == p.1
        }),
        r == Ok::<Continuation, Exception>(Continuation::Jump) ==> final(cpu)@.pc & 3 == 0,
        r != Ok::<Continuation, Exception>(Continuation::Jump) ==> final(cpu)@.pc == old(cpu)@.pc,
{
    match inst {
        Instruction::LUI(op) => {
            write_rd(cpu, op.rd, op.val);
            Ok(Continuation::Next)
        },
        Instruction::AUIPC(op) => {
            let v = cpu.arch.base.pc.wrapping_add(op.val);
            write_rd(cpu, op.rd, v);
            Ok(Continuation::Next)
        },
        Instruction::JAL(op) => {
            let pc = cpu.arch.base.pc;
            let target = pc.wrapping_add(sext21e(op.val));
            if target & 3 != 0 {
                return Err(Exception::InstructionAddressMisaligned(Address(target as u64)));
            }
            cpu.arch.base.set_pc(Address(target as u64));
            proof {
                assert(cpu@ =~= with_pc(old(cpu)@, target));
            }
            write_rd(cpu, op.rd, pc.wrapping_add(4));
            Ok(Continuation::Jump)
        },
        Instruction::JALR(op) => {
            let pc = cpu.arch.base.pc;
            let target = read_reg(cpu, op.rs).wrapping_add(sext12e(op.val)) & 0xFFFF_FFFE;
            if target & 3 != 0 {
                return Err(Exception::InstructionAddressMisaligned(Address(target as u64)));
            }
            cpu.arch.base.set_pc(Address(target as u64));
            proof {
                assert(cpu@ =~= with_pc(old(cpu)@, target));
            }
            write_rd(cpu, op.rd, pc.wrapping_add(4));
            Ok(Continuation::Jump)
        },
        Instruction::BEQ(op) => {
            let c = read_reg(cpu, op.rs1) == read_reg(cpu, op.rs2);
            branch(cpu, op, c)
        },
        Instruction::BNE(op) => {
            let c = read_reg(cpu, op.rs1) != read_reg(cpu, op.rs2);
            branch(cpu, op, c)
        },
        Instruction::BLT(op) => {
            let c = (read_reg(cpu, op.rs1) as i32) < (read_reg(cpu, op.rs2) as i32);
            branch(cpu, op, c)
        },
        Instruction::BGE(op) => {
            let c = (read_reg(cpu, op.rs1) as i32) >= (read_reg(cpu, op.rs2) as i32);
            branch(cpu, op, c)
        },
        Instruction::BLTU(op) => {
            let c = read_reg(cpu, op.rs1) < read_reg(cpu, op.rs2);
            branch(cpu, op, c)
        },
        Instruction::BGEU(op) => {
            let c = read_reg(cpu, op.rs1) >= read_reg(cpu, op.rs2);
            branch(cpu, op, c)
        },
        Instruction::LB(op) => {
            let addr = read_reg(cpu, op.rs).wrapping_add(sext12e(op.val));
            match cpu.read::<u8>(Address(addr as u64)) {
                Ok(x) => {
                    let xv = x as u32;
                    let v = if xv & 0x80 != 0 {
                        (xv & 0xFF) | 0xFFFF_FF00
                    } else {
                        xv & 0xFF
                    };
                    write_rd(cpu, op.rd, v);
                    Ok(Continuation::Next)
                },
                Err(e) => Err(e),
            }
        },
        Instruction::LH(op) => {
            let addr = read_reg(cpu, op.rs).wrapping_add(sext12e(op.val));
            match cpu.read::<u16>(Address(addr as u64)) {
                Ok(x) => {
                    let xv = x as u32;
                    let v = if xv & 0x8000 != 0 {
                        (xv & 0xFFFF) | 0xFFFF_0000
                    } else {
                        xv & 0xFFFF
                    };
                    write_rd(cpu, op.rd, v);
                    Ok(Continuation::Next)
                },
                Err(e) => Err(e),
            }
        },
        Instruction::LW(op) => {
            let addr = read_reg(cpu, op.rs).wrapping_add(sext12e(op.val));
            match cpu.read::<u32>(Address(addr as u64)) {
                Ok(x) => {
                    write_rd(cpu, op.rd, x);
                    Ok(Continuation::Next)
                },
                Err(e) => Err(e),
            }
        },
        Instruction::LBU(op) => {
            let addr = read_reg(cpu, op.rs).wrapping_add(sext12e(op.val));
            match cpu.read::<u8>(Address(addr as u64)) {
                Ok(x) => {
                    write_rd(cpu, op.rd, x as u32);
                    Ok(Continuation::Next)
                },
                Err(e) => Err(e),
            }
        },
        Instruction::LHU(op) => {
            let addr = read_reg(cpu, op.rs).wrapping_add(sext12e(op.val));
            match cpu.read::<u16>(Address(addr as u64)) {
                Ok(x) => {
                    write_rd(cpu, op.rd, x as u32);
                    Ok(Continuation::Next)
                },
                Err(e) => Err(e),
            }
        },
        Instruction::SB(op) => {
            let addr = read_reg(cpu, op.rs1).wrapping_add(sext12e(op.val));
            let v = read_reg(cpu, op.rs2);
            match cpu.write::<u8>(Address(addr as u64), v as u8) {
                Ok(_) => Ok(Continuation::Next),
                Err(e) => Err(e),
            }
        },
        Instruction::SH(op) => {
            let addr = read_reg(cpu, op.rs1).wrapping_add(sext12e(op.val));
            let v = read_reg(cpu, op.rs2);
            match cpu.write::<u16>(Address(addr as u64), v as u16) {
                Ok(_) => Ok(Continuation::Next),
                Err(e) => Err(e),
            }
        },
        Instruction::SW(op) => {
            let addr = read_reg(cpu, op.rs1).wrapping_add(sext12e(op.val));
            let v = read_reg(cpu, op.rs2);
            match cpu.write::<u32>(Address(addr as u64), v) {
                Ok(_) => Ok(Continuation::Next),
                Err(e) => Err(e),
            }
        },
        Instruction::ADDI(op) => {
            let v = read_reg(cpu, op.rs).wrapping_add(sext12e(op.val));
            write_rd(cpu, op.rd, v);
            Ok(Continuation::Next)
        },
        Instruction::SLTI(op) => {
            let v: u32 = if (read_reg(cpu, op.rs) as i32) < (sext12e(op.val) as i32) {
                1
            } else {
                0
            };
            write_rd(cpu, op.rd, v);
            Ok(Continuation::Next)
        },
        Instruction::SLTIU(op) => {
            let v: u32 = if read_reg(cpu, op.rs) < sext12e(op.val) {
                1
            } else {
                0
            };
            write_rd(cpu, op.rd, v);
            Ok(Continuation::Next)
        },
        Instruction::XORI(op) => {
            let v = read_reg(cpu, op.rs) ^ sext12e(op.val);
            write_rd(cpu, op.rd, v);
            Ok(Continuation::Next)
        },
        Instruction::ORI(op) => {
            let v = read_reg(cpu, op.rs) | sext12e(op.val);
            write_rd(cpu, op.rd, v);
            Ok(Continuation::Next)
        },
        Instruction::ANDI(op) => {
            let v = read_reg(cpu, op.rs) & sext12e(op.val);
            write_rd(cpu, op.rd, v);
            Ok(Continuation::Next)
        },
        Instruction::SLLI(op) => {
            proof {
                lemma_shamt_bound(op.val);
            }
            match verify_shamt(cpu, op.shamt()) {
                Ok(_) => {
                    let sh = op.val & 0x3F;
                    let v = read_reg(cpu, op.rs) << sh;
                    write_rd(cpu, op.rd, v);
                    Ok(Continuation::Next)
                },
                Err(e) => Err(e),
            }
        },
        Instruction::SRLI(op) => {
            proof {
                lemma_shamt_bound(op.val);
            }
            match verify_shamt(cpu, op.shamt()) {
                Ok(_) => {
                    let sh = op.val & 0x3F;
                    let v = read_reg(cpu, op.rs) >> sh;
                    write_rd(cpu, op.rd, v);
                    Ok(Continuation::Next)
                },
                Err(e) => Err(e),
            }
        },
        Instruction::SRAI(op) => {
            proof {
                lemma_shamt_bound(op.val);
            }
            match verify_shamt(cpu, op.shamt()) {
                Ok(_) => {
                    let sh = op.val & 0x3F;
                    let v = ((read_reg(cpu, op.rs) as i32) >> sh) as u32;
                    write_rd(cpu, op.rd, v);
                    Ok(Continuation::Next)
                },
                Err(e) => Err(e),
            }
        },
        Instruction::ADD(op) => {
            let v = read_reg(cpu, op.rs1).wrapping_add(read_reg(cpu, op.rs2));
            write_rd(cpu, op.rd, v);
            Ok(Continuation::Next)
        },
        Instruction::SUB(op) => {
            let v = read_reg(cpu, op.rs1).wrapping_sub(read_reg(cpu, op.rs2));
            write_rd(cpu, op.rd, v);
            Ok(Continuation::Next)
        },
        Instruction::SLL(op) => {
            let b = read_reg(cpu, op.rs2);
            proof {
                lemma_shamt_bound(b);
            }
            let v = read_reg(cpu, op.rs1) << (b & 0x1F);
            write_rd(cpu, op.rd, v);
            Ok(Continuation::Next)
        },
        Instruction::SLT(op) => {
            let v: u32 = if (read_reg(cpu, op.rs1) as i32) < (read_reg(cpu, op.rs2) as i32) {
                1
            } else {
                0
            };
            write_rd(cpu, op.rd, v);
            Ok(Continuation::Next)
        },
        Instruction::SLTU(op) => {
            let v: u32 = if read_reg(cpu, op.rs1) < read_reg(cpu, op.rs2) {
                1
            } else {
                0
            };
            write_rd(cpu, op.rd, v);
            Ok(Continuation::Next)
        },
        Instruction::XOR(op) => {
            let v = read_reg(cpu, op.rs1) ^ read_reg(cpu, op.rs2);
            write_rd(cpu, op.rd, v);
            Ok(Continuation::Next)
        },
        Instruction::SRL(op) => {
            let b = read_reg(cpu, op.rs2);
            proof {
                lemma_shamt_bound(b);
            }
            let v = read_reg(cpu, op.rs1) >> (b & 0x1F);
            write_rd(cpu, op.rd, v);
            Ok(Continuation::Next)
        },
        Instruction::SRA(op) => {
            let b = read_reg(cpu, op.rs2);
            proof {
                lemma_shamt_bound(b);
            }
            let v = ((read_reg(cpu, op.rs1) as i32) >> (b & 0x1F)) as u32;
            write_rd(cpu, op.rd, v);
            Ok(Continuation::Next)
        },
        Instruction::OR(op) => {
            let v = read_reg(cpu, op.rs1) | read_reg(cpu, op.rs2);
            write_rd(cpu, op.rd, v);
            Ok(Continuation::Next)
        },
        Instruction::AND(op) => {
            let v = read_reg(cpu, op.rs1) & read_reg(cpu, op.rs2);
            write_rd(cpu, op.rd, v);
            Ok(Continuation::Next)
        },
        // we are not real hardware, so we need neither fences nor an
        // instruction cache flush
        Instruction::FENCE(_) => Ok(Continuation::Next),
        Instruction::FENCEI(_) => Ok(Continuation::Next),
        Instruction::ECALL(_) => match cpu.mode() {
            PrivilegeMode::User => Err(Exception::UserEcall),
            PrivilegeMode::Supervisor => Err(Exception::SupervisorEcall),
            PrivilegeMode::Machine => Err(Exception::MachineEcall),
        },
        Instruction::EBREAK(_) => Err(Exception::Breakpoint),
    }
}

} // verus!
