//! Tests for the executor: ALU semantics, jumps and branches, loads
//! and stores, and the system instructions.

use spear::cpu::{Architecture, Continuation, Cpu, PrivilegeMode};
use spear::device::DRAM_BASE;
use spear::extensions::rv32i;
use spear::extensions::zicsr;
use spear::extensions::zicsr::{csr, CsrAddress};
use spear::instruction::Register;
use spear::memory::{Memory, RamDevice};
use spear::trap::Exception;
use spear::Address;

fn fresh_cpu() -> Cpu {
    let mut mem = Memory::new();
    mem.add_device(Address(DRAM_BASE), RamDevice::new(0x20_0000));
    Cpu::new(Architecture::rv32i(), mem)
}

fn run_word(cpu: &mut Cpu, word: u32) -> Result<Continuation, Exception> {
    let inst = rv32i::parse(word).expect("word must decode");
    rv32i::exec(inst, cpu)
}

#[test]
fn alu_reference_values() {
    let mut cpu = fresh_cpu();
    let x = |cpu: &Cpu, i: u8| cpu.arch.base.read_register(Register::new(i)).value();

    // addi x1, x0, -1
    run_word(&mut cpu, 0xFFF0_0093).unwrap();
    assert_eq!(x(&cpu, 1), 0xFFFF_FFFF);
    // addi x2, x1, 1 wraps to zero
    run_word(&mut cpu, 0x0010_8113).unwrap();
    assert_eq!(x(&cpu, 2), 0);
    // sltiu x3, x0, 1 (x0 < 1 unsigned)
    run_word(&mut cpu, 0x0010_3193).unwrap();
    assert_eq!(x(&cpu, 3), 1);
    // slti x4, x1, 0 (x1 is -1 signed)
    run_word(&mut cpu, 0x0000_A213).unwrap();
    assert_eq!(x(&cpu, 4), 1);
    // xori x5, x1, -1 flips every bit of -1
    run_word(&mut cpu, 0xFFF0_C293).unwrap();
    assert_eq!(x(&cpu, 5), 0);
    // srai x6, x1, 4 keeps the sign
    run_word(&mut cpu, 0x4040_D313).unwrap();
    assert_eq!(x(&cpu, 6), 0xFFFF_FFFF);
    // srli x7, x1, 4 shifts in zeros
    run_word(&mut cpu, 0x0040_D393).unwrap();
    assert_eq!(x(&cpu, 7), 0x0FFF_FFFF);
    // sub x8, x0, x1 == 1
    run_word(&mut cpu, 0x4010_0433).unwrap();
    assert_eq!(x(&cpu, 8), 1);
    // sll x9, x8, x6 shifts by the low five bits of x6 (31)
    run_word(&mut cpu, 0x0064_14B3).unwrap();
    assert_eq!(x(&cpu, 9), 0x8000_0000);
}

#[test]
fn jal_links_and_jumps() {
    let mut cpu = fresh_cpu();
    cpu.set_pc(Address(DRAM_BASE));
    // jal x1, +8
    let r = run_word(&mut cpu, 0x0080_00EF);
    assert_eq!(r, Ok(Continuation::Jump));
    assert_eq!(cpu.arch.base.get_pc(), Address(DRAM_BASE + 8));
    assert_eq!(
        cpu.arch.base.read_register(Register::new(1)),
        Address(DRAM_BASE + 4)
    );
}

#[test]
fn jalr_to_misaligned_target_faults() {
    let mut cpu = fresh_cpu();
    cpu.arch
        .base
        .write_register(Register::new(5), Address(0x8000_0006));
    // jalr x1, t0, 0: the target has its low bit cleared but stays
    // misaligned on a four-byte boundary
    let r = run_word(&mut cpu, 0x0002_80E7);
    assert_eq!(
        r,
        Err(Exception::InstructionAddressMisaligned(Address(0x8000_0006)))
    );
    // the link register was not written on the faulting path
    assert_eq!(cpu.arch.base.read_register(Register::new(1)), Address(0));
}

#[test]
fn branch_taken_and_not_taken() {
    let mut cpu = fresh_cpu();
    cpu.set_pc(Address(DRAM_BASE));
    // beq x0, x0, +16
    let r = run_word(&mut cpu, 0x0000_0863);
    assert_eq!(r, Ok(Continuation::Jump));
    assert_eq!(cpu.arch.base.get_pc(), Address(DRAM_BASE + 16));

    // bne x0, x0, +16 falls through
    let r = run_word(&mut cpu, 0x0000_1863);
    assert_eq!(r, Ok(Continuation::Next));
    assert_eq!(cpu.arch.base.get_pc(), Address(DRAM_BASE + 16));
}

#[test]
fn loads_sign_and_zero_extend() {
    let mut cpu = fresh_cpu();
    cpu.write::<u32>(Address(DRAM_BASE), 0x8081_82FF).unwrap();
    cpu.arch
        .base
        .write_register(Register::new(5), Address(DRAM_BASE));

    // lb x6, 3(t0): byte 0x80 sign-extends
    run_word(&mut cpu, 0x0032_8303).unwrap();
    assert_eq!(
        cpu.arch.base.read_register(Register::new(6)),
        Address(0xFFFF_FF80)
    );
    // lbu x6, 3(t0): byte 0x80 zero-extends
    run_word(&mut cpu, 0x0032_C303).unwrap();
    assert_eq!(cpu.arch.base.read_register(Register::new(6)), Address(0x80));
    // lh x6, 0(t0): halfword 0x82FF sign-extends
    run_word(&mut cpu, 0x0002_9303).unwrap();
    assert_eq!(
        cpu.arch.base.read_register(Register::new(6)),
        Address(0xFFFF_82FF)
    );
    // lhu x6, 2(t0): halfword 0x8081 zero-extends
    run_word(&mut cpu, 0x0022_D303).unwrap();
    assert_eq!(
        cpu.arch.base.read_register(Register::new(6)),
        Address(0x8081)
    );
    // lw x6, 0(t0)
    run_word(&mut cpu, 0x0002_A303).unwrap();
    assert_eq!(
        cpu.arch.base.read_register(Register::new(6)),
        Address(0x8081_82FF)
    );
}

#[test]
fn stores_truncate_to_their_width() {
    let mut cpu = fresh_cpu();
    cpu.arch
        .base
        .write_register(Register::new(5), Address(DRAM_BASE));
    cpu.arch
        .base
        .write_register(Register::new(6), Address(0x1122_3344));

    // sb x6, 0(t0) stores only the low byte
    run_word(&mut cpu, 0x0062_8023).unwrap();
    assert_eq!(cpu.read::<u32>(Address(DRAM_BASE)), Ok(0x44u32));
    // sh x6, 4(t0) stores the low halfword
    run_word(&mut cpu, 0x0062_9223).unwrap();
    assert_eq!(cpu.read::<u32>(Address(DRAM_BASE + 4)), Ok(0x3344u32));
    // a store to a device-less address faults
    cpu.arch
        .base
        .write_register(Register::new(5), Address(0x6000_0000));
    let r = run_word(&mut cpu, 0x0062_8023);
    assert_eq!(r, Err(Exception::StoreAccessFault));
}

#[test]
fn ebreak_raises_breakpoint() {
    let mut cpu = fresh_cpu();
    assert_eq!(run_word(&mut cpu, 0x0010_0073), Err(Exception::Breakpoint));
}

#[test]
fn shift_amount_beyond_xlen_is_illegal() {
    let mut cpu = fresh_cpu();
    // srai a5, a3, 56: a 6-bit shift amount is illegal on a 32-bit hart
    let r = run_word(&mut cpu, 0x4386_D793);
    assert_eq!(r, Err(Exception::IllegalInstruction(0)));
}

#[test]
fn sret_pops_the_supervisor_stack() {
    let mut cpu = fresh_cpu();
    cpu.set_mode(PrivilegeMode::Supervisor);
    // SPP = U (bit 8 clear), SPIE set (bit 5)
    cpu.arch
        .zicsr
        .force_write_csr(CsrAddress(csr::MSTATUS), Address(0x20));
    cpu.arch
        .zicsr
        .force_write_csr(CsrAddress(csr::SEPC), Address(0x8000_0010));

    // 0x10200073 encodes SRET
    let inst = zicsr::parse(0x1020_0073).unwrap();
    assert_eq!(zicsr::exec(inst, &mut cpu), Ok(Continuation::Jump));
    assert_eq!(cpu.mode(), PrivilegeMode::User);
    assert_eq!(cpu.arch.base.get_pc(), Address(0x8000_0010));
    let st = cpu
        .arch
        .zicsr
        .force_read_csr(CsrAddress(csr::MSTATUS))
        .value();
    // SIE now carries the old SPIE, and SPIE is set
    assert_ne!(st & 0x2, 0);
    assert_ne!(st & 0x20, 0);
}

#[test]
fn sret_traps_under_tsr() {
    let mut cpu = fresh_cpu();
    cpu.set_mode(PrivilegeMode::Supervisor);
    // TSR (bit 22) set: SRET from S-mode is illegal
    cpu.arch
        .zicsr
        .force_write_csr(CsrAddress(csr::MSTATUS), Address(1 << 22));
    let inst = zicsr::parse(0x1020_0073).unwrap();
    assert_eq!(
        zicsr::exec(inst, &mut cpu),
        Err(Exception::IllegalInstruction(0))
    );
}

#[test]
fn satp_access_traps_under_tvm() {
    let mut cpu = fresh_cpu();
    cpu.set_mode(PrivilegeMode::Supervisor);
    // TVM (bit 20) set: satp accesses from S-mode are illegal
    cpu.arch
        .zicsr
        .force_write_csr(CsrAddress(csr::MSTATUS), Address(1 << 20));
    assert_eq!(
        cpu.arch
            .zicsr
            .read_csr(CsrAddress(csr::SATP), PrivilegeMode::Supervisor),
        Err(Exception::IllegalInstruction(0))
    );
    // sfence.vma is illegal under the same condition
    let inst = zicsr::parse(0x1200_0073).unwrap();
    assert_eq!(
        zicsr::exec(inst, &mut cpu),
        Err(Exception::IllegalInstruction(0))
    );
}
