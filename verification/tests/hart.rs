//! Whole-hart tests: the register file discipline, the privilege
//! ordering, trap delivery, interrupts, address translation and small
//! programs run through the emulator.

use spear::cpu::{Architecture, Cpu, PrivilegeMode};
use spear::device::{DeviceBus, DRAM_BASE};
use spear::emulator::Emulator;
use spear::extensions::rv32i;
use spear::extensions::zicsr::{csr, CsrAddress};
use spear::instruction::Register;
use spear::memory::{Memory, RamDevice};
use spear::mmu::{AccessType, Mmu};
use spear::trap::{Exception, Interrupt};
use spear::Address;
use spear::cpu::PrivilegeMode::{Machine, Supervisor, User};

fn fresh_cpu() -> Cpu {
    let mut mem = Memory::new();
    mem.add_device(Address(DRAM_BASE), RamDevice::new(0x20_0000));
    Cpu::new(Architecture::rv32i(), mem)
}

#[test]
fn x0_always_reads_zero() {
    let mut cpu = fresh_cpu();
    assert_eq!(cpu.arch.base.read_register(Register::new(0)), Address(0));
    cpu.arch
        .base
        .write_register(Register::new(0), Address(0xDEAD_BEEF));
    assert_eq!(cpu.arch.base.read_register(Register::new(0)), Address(0));
}

#[test]
fn x0_write_is_a_no_op() {
    let mut cpu = fresh_cpu();
    cpu.arch
        .base
        .write_register(Register::new(7), Address(0x1234));
    cpu.arch
        .base
        .write_register(Register::new(0), Address(0xFFFF_FFFF));
    // every other register still holds its value
    assert_eq!(
        cpu.arch.base.read_register(Register::new(7)),
        Address(0x1234)
    );
    assert_eq!(cpu.arch.base.read_register(Register::new(0)), Address(0));
}

#[test]
fn privilege_ordering_table() {
    assert!(Machine.can_access(Machine));
    assert!(Machine.can_access(Supervisor));
    assert!(Machine.can_access(User));
    assert!(!Supervisor.can_access(Machine));
    assert!(Supervisor.can_access(Supervisor));
    assert!(Supervisor.can_access(User));
    assert!(!User.can_access(Machine));
    assert!(!User.can_access(Supervisor));
    assert!(User.can_access(User));
}

#[test]
fn privilege_bit_round_trip() {
    assert_eq!(PrivilegeMode::from_bits(0b00), User);
    assert_eq!(PrivilegeMode::from_bits(0b01), Supervisor);
    assert_eq!(PrivilegeMode::from_bits(0b11), Machine);
    assert_eq!(User.to_bits(), 0b00);
    assert_eq!(Supervisor.to_bits(), 0b01);
    assert_eq!(Machine.to_bits(), 0b11);
}

#[test]
fn hart_starts_in_machine_mode() {
    let cpu = fresh_cpu();
    assert_eq!(cpu.mode(), PrivilegeMode::Machine);
    assert_eq!(
        cpu.arch
            .zicsr
            .force_read_csr(CsrAddress(csr::MISA))
            .value(),
        (1u64 << 30) | (1 << 20) | (1 << 18) | (1 << 8)
    );
}

#[test]
fn step_keeps_pc_aligned() {
    let mut cpu = fresh_cpu();
    // addi x1, x0, 7 at the reset vector
    cpu.write::<u32>(Address(DRAM_BASE), 0x0070_0093).unwrap();
    cpu.set_pc(Address(DRAM_BASE));
    assert!(cpu.step().is_ok());
    assert_eq!(cpu.arch.base.get_pc(), Address(DRAM_BASE + 4));
    assert_eq!(cpu.arch.base.read_register(Register::new(1)), Address(7));
    assert_eq!(cpu.arch.base.get_pc().value() % 4, 0);
}

#[test]
fn run_until_tohost_write() {
    // a tiny program that stores 1 to the HTIF `tohost` word
    let mut bus = Memory::new();
    bus.add_device(Address(DRAM_BASE), RamDevice::new(0x20_0000));
    let mut cpu = Cpu::new(Architecture::rv32i(), bus);
    let tohost = Address(0x8000_1000);

    // lui t0, 0x80001 ; addi t1, x0, 1 ; sw t1, 0(t0)
    cpu.write::<u32>(Address(DRAM_BASE), 0x8000_12B7).unwrap();
    cpu.write::<u32>(Address(DRAM_BASE + 4), 0x0010_0313).unwrap();
    cpu.write::<u32>(Address(DRAM_BASE + 8), 0x0062_A023).unwrap();
    cpu.set_pc(Address(DRAM_BASE));

    let mut emu = Emulator::new(cpu, Some(tohost));
    emu.run();

    assert_eq!(emu.cpu().read::<u32>(tohost), Ok(1u32));
    assert_eq!(emu.cpu().mode(), PrivilegeMode::Machine);
}

#[test]
fn illegal_instruction_traps_to_mtvec() {
    // install a trap vector, then execute an undecodable word; the
    // handler reports completion through `tohost`
    let mut bus = Memory::new();
    bus.add_device(Address(DRAM_BASE), RamDevice::new(0x20_0000));
    let mut cpu = Cpu::new(Architecture::rv32i(), bus);
    let tohost = Address(0x8000_1000);

    // 0x80000000: lui t0, 0x80000   (t0 = base)
    // 0x80000004: addi t0, t0, 0x20 (t0 = handler)
    // 0x80000008: csrrw x0, mtvec, t0
    // 0x8000000C: .word 0xFFFFFFFF  (illegal)
    cpu.write::<u32>(Address(DRAM_BASE), 0x8000_02B7).unwrap();
    cpu.write::<u32>(Address(DRAM_BASE + 0x4), 0x0202_8293).unwrap();
    cpu.write::<u32>(Address(DRAM_BASE + 0x8), 0x3052_9073).unwrap();
    cpu.write::<u32>(Address(DRAM_BASE + 0xC), 0xFFFF_FFFF).unwrap();
    // handler at 0x80000020:
    //   lui t1, 0x80001 ; addi t2, x0, 1 ; sw t2, 0(t1)
    cpu.write::<u32>(Address(DRAM_BASE + 0x20), 0x8000_1337).unwrap();
    cpu.write::<u32>(Address(DRAM_BASE + 0x24), 0x0010_0393).unwrap();
    cpu.write::<u32>(Address(DRAM_BASE + 0x28), 0x0073_2023).unwrap();
    cpu.set_pc(Address(DRAM_BASE));

    let mut emu = Emulator::new(cpu, Some(tohost));
    emu.run();

    assert_eq!(emu.cpu().read::<u32>(tohost), Ok(1u32));
    // exactly the illegal-instruction cause, with the raw word as the
    // trap value and the faulting pc in mepc
    let mcause = emu.cpu().arch().zicsr.force_read_csr(CsrAddress(csr::MCAUSE));
    let mtval = emu.cpu().arch().zicsr.force_read_csr(CsrAddress(csr::MTVAL));
    let mepc = emu.cpu().arch().zicsr.force_read_csr(CsrAddress(csr::MEPC));
    assert_eq!(mcause.value(), 2);
    assert_eq!(mtval.value(), 0xFFFF_FFFF);
    assert_eq!(mepc.value(), DRAM_BASE + 0xC);
    assert_eq!(emu.cpu().mode(), PrivilegeMode::Machine);
}

#[test]
fn ecall_cause_tracks_privilege_mode() {
    let mut cpu = fresh_cpu();
    let ecall = rv32i::parse(0x0000_0073).unwrap();
    assert_eq!(
        rv32i::exec(ecall, &mut cpu),
        Err(Exception::MachineEcall)
    );
    cpu.set_mode(PrivilegeMode::Supervisor);
    assert_eq!(
        rv32i::exec(ecall, &mut cpu),
        Err(Exception::SupervisorEcall)
    );
    cpu.set_mode(PrivilegeMode::User);
    assert_eq!(rv32i::exec(ecall, &mut cpu), Err(Exception::UserEcall));
}

#[test]
fn pending_interrupt_is_selected_by_priority() {
    let mut cpu = fresh_cpu();
    // enable machine interrupts globally
    cpu.arch
        .zicsr
        .force_write_csr(CsrAddress(csr::MSTATUS), Address(0x8));
    // both the machine timer and machine software interrupts pending
    cpu.arch
        .zicsr
        .force_write_csr(CsrAddress(csr::MIE), Address(0x88));
    cpu.arch
        .zicsr
        .force_write_csr(CsrAddress(csr::MIP), Address(0x88));
    // the software interrupt outranks the timer interrupt
    assert_eq!(
        cpu.check_pending_interrupt(),
        Some(Exception::Interrupt(Interrupt::MachineSoftwareInterrupt))
    );
    // with interrupts globally disabled nothing is delivered
    cpu.arch
        .zicsr
        .force_write_csr(CsrAddress(csr::MSTATUS), Address(0));
    assert_eq!(cpu.check_pending_interrupt(), None);
}

#[test]
fn sv32_walk_translates_and_faults() {
    let mut cpu = fresh_cpu();
    let mmu = Mmu::new();

    // machine mode: translation is off
    assert_eq!(
        mmu.translate(&cpu, Address(0x1234), AccessType::Read),
        Ok(Address(0x1234))
    );

    // root page table at 0x80001000 (ppn 0x80001)
    cpu.arch
        .zicsr
        .force_write_csr(CsrAddress(csr::SATP), Address(0x8008_0001));
    cpu.set_mode(PrivilegeMode::Supervisor);

    // VPN1 = 1: branch to the table at 0x80002000 (ppn 0x80002)
    cpu.write::<u32>(Address(0x8000_1004), (0x80002 << 10) | 0x1)
        .unwrap();
    // VPN0 = 0: leaf to ppn 0x80003 with R/W/A/D set
    cpu.write::<u32>(Address(0x8000_2000), (0x80003 << 10) | 0xC7)
        .unwrap();

    assert_eq!(
        mmu.translate(&cpu, Address(0x0040_0123), AccessType::Read),
        Ok(Address(0x8000_3123))
    );
    assert_eq!(
        mmu.translate(&cpu, Address(0x0040_0123), AccessType::Write),
        Ok(Address(0x8000_3123))
    );
    // fetching is denied: the leaf has no X permission
    assert_eq!(
        mmu.translate(&cpu, Address(0x0040_0123), AccessType::Fetch),
        Err(Exception::InstructionPageFault(Address(0x0040_0123)))
    );
    // an unmapped address page-faults
    assert_eq!(
        mmu.translate(&cpu, Address(0x00C0_0000), AccessType::Read),
        Err(Exception::LoadPageFault(Address(0x00C0_0000)))
    );
}

#[test]
fn wfi_leaves_pc_in_place() {
    let mut cpu = fresh_cpu();
    // wfi at the reset vector
    cpu.write::<u32>(Address(DRAM_BASE), 0x1050_0073).unwrap();
    cpu.set_pc(Address(DRAM_BASE));
    assert!(cpu.step().is_ok());
    assert_eq!(cpu.arch.base.get_pc(), Address(DRAM_BASE));
}

#[test]
fn device_bus_backs_a_cpu() {
    // the conventional bus layout also drives a hart
    let bus = DeviceBus::new();
    let mut cpu = Cpu::new(Architecture::rv32i(), bus.bus);
    cpu.write::<u32>(Address(DRAM_BASE), 0x0070_0093).unwrap();
    cpu.set_pc(Address(DRAM_BASE));
    assert!(cpu.step().is_ok());
    assert_eq!(cpu.arch.base.read_register(Register::new(1)), Address(7));
}
