//! Tests for the CSR file: privilege-gated access, read-only
//! registers, the S-mode view registers, and the xRET instructions.

use spear::cpu::{Architecture, Cpu, PrivilegeMode};
use spear::extensions::zicsr;
use spear::extensions::zicsr::csr;
use spear::extensions::zicsr::CsrAddress;
use spear::instruction::Register;
use spear::memory::Memory;
use spear::trap::Exception;
use spear::Address;

#[test]
fn check_readable() {
    let csr = CsrAddress(0x300);
    assert!(csr.readable_in(PrivilegeMode::Machine));
    assert!(!csr.readable_in(PrivilegeMode::Supervisor));
    assert!(!csr.readable_in(PrivilegeMode::User));

    let csr = CsrAddress(0x9FF);
    assert!(csr.readable_in(PrivilegeMode::Machine));
    assert!(csr.readable_in(PrivilegeMode::Supervisor));
    assert!(!csr.readable_in(PrivilegeMode::User));

    let csr = CsrAddress(0xC7F);
    assert!(csr.readable_in(PrivilegeMode::Machine));
    assert!(csr.readable_in(PrivilegeMode::Supervisor));
    assert!(csr.readable_in(PrivilegeMode::User));
}

#[test]
fn check_writeable() {
    let csr = CsrAddress(0x300);
    assert!(csr.writeable_in(PrivilegeMode::Machine));
    assert!(!csr.writeable_in(PrivilegeMode::Supervisor));
    assert!(!csr.writeable_in(PrivilegeMode::User));

    let csr = CsrAddress(0xF11);
    assert!(!csr.writeable_in(PrivilegeMode::Machine));
    assert!(!csr.writeable_in(PrivilegeMode::Supervisor));
    assert!(!csr.writeable_in(PrivilegeMode::User));

    let csr = CsrAddress(0x5BF);
    assert!(csr.writeable_in(PrivilegeMode::Machine));
    assert!(csr.writeable_in(PrivilegeMode::Supervisor));
    assert!(!csr.writeable_in(PrivilegeMode::User));

    let csr = CsrAddress(0x4FF);
    assert!(csr.writeable_in(PrivilegeMode::Machine));
    assert!(csr.writeable_in(PrivilegeMode::Supervisor));
    assert!(csr.writeable_in(PrivilegeMode::User));

    let csr = CsrAddress(0xCFF);
    assert!(!csr.writeable_in(PrivilegeMode::Machine));
    assert!(!csr.writeable_in(PrivilegeMode::Supervisor));
    assert!(!csr.writeable_in(PrivilegeMode::User));
}

#[test]
fn read_only_csr_write_fails_in_every_mode() {
    let mut ext = zicsr::Extension::new_32bit();
    // `mvendorid` has bits 11:10 set in its number, so it is read-only
    for mode in [
        PrivilegeMode::Machine,
        PrivilegeMode::Supervisor,
        PrivilegeMode::User,
    ] {
        assert_eq!(
            ext.write_csr(CsrAddress(csr::MVENDORID), Address(1), mode),
            Err(Exception::IllegalInstruction(0))
        );
    }
    // and so is every number in the 0xCxx block
    assert_eq!(
        ext.write_csr(CsrAddress(0xC00), Address(1), PrivilegeMode::Machine),
        Err(Exception::IllegalInstruction(0))
    );
}

#[test]
fn sstatus_is_masked_mstatus_view() {
    let mut ext = zicsr::Extension::new_32bit();
    ext.force_write_csr(CsrAddress(csr::MSTATUS), Address(0xFFFF_FFFF));
    let mstatus = ext.force_read_csr(CsrAddress(csr::MSTATUS)).value();
    let sstatus = ext.force_read_csr(CsrAddress(csr::SSTATUS)).value();
    assert_eq!(sstatus, mstatus & csr::SSTATUS_MASK);

    // writes through the view touch only the masked bits
    ext.force_write_csr(CsrAddress(csr::SSTATUS), Address(0));
    let mstatus2 = ext.force_read_csr(CsrAddress(csr::MSTATUS)).value();
    assert_eq!(mstatus2, mstatus & !csr::SSTATUS_MASK);
}

#[test]
fn sie_and_sip_are_gated_by_mideleg() {
    let mut ext = zicsr::Extension::new_32bit();
    ext.force_write_csr(CsrAddress(csr::MIE), Address(0xAAA));
    // nothing delegated: the S-view is empty
    assert_eq!(ext.force_read_csr(CsrAddress(csr::SIE)).value(), 0);
    // delegate the supervisor software interrupt
    ext.force_write_csr(CsrAddress(csr::MIDELEG), Address(0x222));
    assert_eq!(ext.force_read_csr(CsrAddress(csr::SIE)).value(), 0x222);
    // a write through the view cannot clear undelegated bits
    ext.force_write_csr(CsrAddress(csr::SIE), Address(0));
    assert_eq!(ext.force_read_csr(CsrAddress(csr::MIE)).value(), 0x888);

    // `sip` writes follow the same rule: every delegated bit of `mip`
    // changes, no undelegated bit does
    ext.force_write_csr(CsrAddress(csr::SIP), Address(0xFFF));
    assert_eq!(ext.force_read_csr(CsrAddress(csr::MIP)).value(), 0x222);
    assert_eq!(ext.force_read_csr(CsrAddress(csr::SIP)).value(), 0x222);
    ext.force_write_csr(CsrAddress(csr::SIP), Address(0));
    assert_eq!(ext.force_read_csr(CsrAddress(csr::MIP)).value(), 0);
}

#[test]
fn mret_pops_the_privilege_stack() {
    let mem = Memory::new();
    let mut cpu = Cpu::new(Architecture::rv32i(), mem);

    // previous privilege S (MPP = 0b01), MPIE set, MIE clear
    let mstatus: u64 = (0b01 << 11) | 0x80;
    cpu.arch
        .zicsr
        .force_write_csr(CsrAddress(csr::MSTATUS), Address(mstatus));
    cpu.arch
        .zicsr
        .force_write_csr(CsrAddress(csr::MEPC), Address(0x8000_0004));

    // 0x30200073 encodes MRET
    let inst = zicsr::parse(0x30200073).unwrap();
    let r = zicsr::exec(inst, &mut cpu);
    assert!(r.is_ok());

    assert_eq!(cpu.mode(), PrivilegeMode::Supervisor);
    assert_eq!(cpu.arch.base.get_pc(), Address(0x8000_0004));
    let st = cpu
        .arch
        .zicsr
        .force_read_csr(CsrAddress(csr::MSTATUS))
        .value();
    // MPP is back to U-mode
    assert_eq!((st >> 11) & 0b11, 0);
    // MPIE is set
    assert_ne!(st & 0x80, 0);
    // MIE now carries the old MPIE
    assert_ne!(st & 0x8, 0);
}

#[test]
fn csrrw_reads_old_value_and_writes_new() {
    let mem = Memory::new();
    let mut cpu = Cpu::new(Architecture::rv32i(), mem);

    cpu.arch
        .base
        .write_register(Register::new(5), Address(0xDEAD));
    // csrrw t1, mscratch, t0 == 0x340292F3? encode: csr=0x340, rs=5, f3=001, rd=6
    let word: u32 = (0x340 << 20) | (5 << 15) | (0b001 << 12) | (6 << 7) | 0x73;
    let inst = zicsr::parse(word).unwrap();
    let r = zicsr::exec(inst, &mut cpu);
    assert!(r.is_ok());
    assert_eq!(
        cpu.arch
            .zicsr
            .force_read_csr(CsrAddress(csr::MSCRATCH))
            .value(),
        0xDEAD
    );
    // the destination received the old CSR value
    assert_eq!(
        cpu.arch.base.read_register(Register::new(6)),
        Address(0)
    );
}

#[test]
fn csr_access_from_user_mode_is_illegal() {
    let mem = Memory::new();
    let mut cpu = Cpu::new(Architecture::rv32i(), mem);
    cpu.set_mode(PrivilegeMode::User);
    // csrrw x0, mscratch, x0 from U-mode
    let word: u32 = (0x340 << 20) | (0b001 << 12) | 0x73;
    let inst = zicsr::parse(word).unwrap();
    assert_eq!(
        zicsr::exec(inst, &mut cpu),
        Err(Exception::IllegalInstruction(0))
    );
}
