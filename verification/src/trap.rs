//! The architectural trap taxonomy: synchronous exceptions,
//! asynchronous interrupts, their cause encodings and trap values, and
//! the delivery of a trap to a handler.

use vstd::prelude::*;

use crate::cpu::{Cpu, CpuState, PrivilegeMode};
use crate::extensions::zicsr::registers::{
    MCAUSE, MEDELEG, MEPC, MIDELEG, MSTATUS, MTVAL, MTVEC, SCAUSE, SEPC, SSTATUS, STVAL, STVEC,
};
use crate::extensions::zicsr::{spec_force_read, spec_force_write, CsrAddress};
use crate::Address;

verus! {

/// All the interrupt kinds.
#[derive(Debug, Clone, Copy, PartialEq, Eq, Structural)]
#[allow(missing_docs)]
pub enum Interrupt {
    UserSoftwareInterrupt,
    SupervisorSoftwareInterrupt,
    MachineSoftwareInterrupt,
    UserTimerInterrupt,
    SupervisorTimerInterrupt,
    MachineTimerInterrupt,
    UserExternalInterrupt,
    SupervisorExternalInterrupt,
    MachineExternalInterrupt,
}

impl Interrupt {
    /// The architectural cause number of this interrupt.
    pub open spec fn spec_cause(self) -> u32 {
        match self {
            Interrupt::UserSoftwareInterrupt => 0,
            Interrupt::SupervisorSoftwareInterrupt => 1,
            Interrupt::MachineSoftwareInterrupt => 3,
            Interrupt::UserTimerInterrupt => 4,
            Interrupt::SupervisorTimerInterrupt => 5,
            Interrupt::MachineTimerInterrupt => 7,
            Interrupt::UserExternalInterrupt => 8,
            Interrupt::SupervisorExternalInterrupt => 9,
            Interrupt::MachineExternalInterrupt => 11,
        }
    }

    /// The architectural cause number of this interrupt.
    pub fn cause(self) -> (r: u32)
        ensures
            r == self.spec_cause(),
            r <= 11,
    {
        match self {
            Interrupt::UserSoftwareInterrupt => 0,
            Interrupt::SupervisorSoftwareInterrupt => 1,
            Interrupt::MachineSoftwareInterrupt => 3,
            Interrupt::UserTimerInterrupt => 4,
            Interrupt::SupervisorTimerInterrupt => 5,
            Interrupt::MachineTimerInterrupt => 7,
            Interrupt::UserExternalInterrupt => 8,
            Interrupt::SupervisorExternalInterrupt => 9,
            Interrupt::MachineExternalInterrupt => 11,
        }
    }
}

/// All the exception kinds.
#[derive(Debug, Clone, Copy, PartialEq, Eq, Structural)]
#[allow(missing_docs)]
pub enum Exception {
    InstructionAddressMisaligned(Address),
    InstructionAccessFault,
    IllegalInstruction(u64),
    Breakpoint,
    LoadAddressMisaligned(Address),
    StoreAddressMisaligned(Address),
    LoadAccessFault,
    StoreAccessFault,
    /// An environment call taken from U-mode.
    UserEcall,
    /// An environment call taken from S-mode.
    SupervisorEcall,
    /// An environment call taken from M-mode.
    MachineEcall,
    InstructionPageFault(Address),
    LoadPageFault(Address),
    StorePageFault(Address),
    Interrupt(Interrupt),
}

impl Exception {
    /// The architectural cause number of this exception.
    pub open spec fn spec_cause(self) -> u32 {
        match self {
            Exception::InstructionAddressMisaligned(..) => 0,
            Exception::InstructionAccessFault => 1,
            Exception::IllegalInstruction(..) => 2,
            Exception::Breakpoint => 3,
            Exception::LoadAddressMisaligned(..) => 4,
            Exception::LoadAccessFault => 5,
            Exception::StoreAddressMisaligned(..) => 6,
            Exception::StoreAccessFault => 7,
            Exception::UserEcall => 8,
            Exception::SupervisorEcall => 9,
            Exception::MachineEcall => 11,
            Exception::InstructionPageFault(..) => 12,
            Exception::LoadPageFault(..) => 13,
            Exception::StorePageFault(..) => 15,
            Exception::Interrupt(intr) => intr.spec_cause(),
        }
    }

    /// The architectural cause number of this exception.
    pub fn cause(self) -> (r: u32)
        ensures
            r == self.spec_cause(),
            r <= 15,
    {
        match self {
            Exception::InstructionAddressMisaligned(..) => 0,
            Exception::InstructionAccessFault => 1,
            Exception::IllegalInstruction(..) => 2,
            Exception::Breakpoint => 3,
            Exception::LoadAddressMisaligned(..) => 4,
            Exception::LoadAccessFault => 5,
            Exception::StoreAddressMisaligned(..) => 6,
            Exception::StoreAccessFault => 7,
            Exception::UserEcall => 8,
            Exception::SupervisorEcall => 9,
            Exception::MachineEcall => 11,
            Exception::InstructionPageFault(..) => 12,
            Exception::LoadPageFault(..) => 13,
            Exception::StorePageFault(..) => 15,
            Exception::Interrupt(intr) => intr.cause(),
        }
    }

    /// True iff this trap is an asynchronous interrupt.
    pub open spec fn spec_is_interrupt(self) -> bool {
        self is Interrupt
    }

    /// The value stored into `xtval` when this trap is taken at `pc`.
    pub open spec fn spec_trap_value(self, pc: Address) -> Address {
        match self {
            Exception::InstructionAccessFault => pc,
            Exception::Breakpoint => pc,
            Exception::LoadAccessFault => pc,
            Exception::StoreAccessFault => pc,
            Exception::InstructionPageFault(val) => val,
            Exception::InstructionAddressMisaligned(val) => val,
            Exception::LoadAddressMisaligned(val) => val,
            Exception::StoreAddressMisaligned(val) => val,
            Exception::LoadPageFault(val) => val,
            Exception::StorePageFault(val) => val,
            Exception::IllegalInstruction(val) => Address(val),
            _ => Address(0),
        }
    }

    /// The value stored into `xtval` when this trap is taken at `pc`.
    pub fn trap_value(&self, pc: Address) -> (r: Address)
        ensures
            r == self.spec_trap_value(pc),
    {
        match self {
            Exception::InstructionAccessFault
            | Exception::Breakpoint
            | Exception::LoadAccessFault
            | Exception::StoreAccessFault => pc,
            Exception::InstructionPageFault(val)
            | Exception::InstructionAddressMisaligned(val)
            | Exception::LoadAddressMisaligned(val)
            | Exception::StoreAddressMisaligned(val)
            | Exception::LoadPageFault(val)
            | Exception::StorePageFault(val) => *val,
            Exception::IllegalInstruction(val) => Address(*val),
            _ => Address::zero(),
        }
    }
}


/// The `sstatus` value after a trap is taken into S-mode: SPIE is
/// loaded from SIE, SIE is cleared, and SPP records whether the trap
/// came from S-mode.
pub open spec fn spec_stack_sstatus(status: u32, from_s: bool) -> u32 {
    let st1 = if status & 0x2 != 0 {
        status | 0x20
    } else {
        status & !0x20
    };
    let st2 = st1 & !0x2;
    if from_s {
        st2 | 0x100
    } else {
        st2 & !0x100
    }
}

/// The `mstatus` value after a trap is taken into M-mode: MPIE is
/// loaded from MIE, MIE is cleared, and MPP records the mode the trap
/// came from.
pub open spec fn spec_stack_mstatus(status: u32, prv: PrivilegeMode) -> u32 {
    let st1 = if status & 0x8 != 0 {
        status | 0x80
    } else {
        status & !0x80
    };
    let st2 = st1 & !0x8;
    (st2 & !0x1800) | ((prv.spec_to_bits() as u32) << 11)
}

/// The program counter a trap vector dispatches to: the vector base
/// with its low bit cleared, plus four times the cause when the
/// vector's low bit asks for vectored dispatch.
pub open spec fn spec_trap_pc(tvec: u32, cause: u32) -> u32 {
    vstd::wrapping::u32_specs::wrapping_add(
        tvec & !1,
        if tvec & 1 != 0 {
            ((4 * cause) as u32)
        } else {
            0
        },
    )
}

/// The hart state after the trap `e` is delivered at state `s`:
/// control transfers to the S-mode handler when the trap is delegated
/// there and the hart is not in M-mode, and to the M-mode handler
/// otherwise; the handler mode's `xepc`, `xcause`, `xtval` and status
/// stack are updated and the mode switches.
pub open spec fn spec_deliver(s: CpuState, e: Exception) -> CpuState {
    let cause = e.spec_cause();
    let is_int = e.spec_is_interrupt();
    let tval = e.spec_trap_value(Address(s.pc as u64)).0 as u32;
    let scause_val = if is_int {
        cause | 0x8000_0000
    } else {
        cause
    };
    let deleg = if is_int {
        spec_force_read(s.csrs, MIDELEG)
    } else {
        spec_force_read(s.csrs, MEDELEG)
    };
    let to_s = s.mode != PrivilegeMode::Machine && (deleg >> cause) & 1 != 0;
    if to_s {
        let tvec = spec_force_read(s.csrs, STVEC);
        let c1 = spec_force_write(s.csrs, SEPC, s.pc);
        let c2 = spec_force_write(c1, SCAUSE, scause_val);
        let c3 = spec_force_write(c2, STVAL, tval);
        let status = spec_force_read(c3, SSTATUS);
        let c4 = spec_force_write(
            c3,
            SSTATUS,
            spec_stack_sstatus(status, s.mode == PrivilegeMode::Supervisor),
        );
        CpuState {
            csrs: c4,
            pc: spec_trap_pc(tvec, cause),
            mode: PrivilegeMode::Supervisor,
            ..s
        }
    } else {
        let tvec = spec_force_read(s.csrs, MTVEC);
        let c1 = spec_force_write(s.csrs, MEPC, s.pc);
        let c2 = spec_force_write(c1, MCAUSE, scause_val);
        let c3 = spec_force_write(c2, MTVAL, tval);
        let status = spec_force_read(c3, MSTATUS);
        let c4 = spec_force_write(c3, MSTATUS, spec_stack_mstatus(status, s.mode));
        CpuState { csrs: c4, pc: spec_trap_pc(tvec, cause), mode: PrivilegeMode::Machine, ..s }
    }
}

/// The delivery core behind an illegal-instruction trap: taken from
/// M-mode, or with the illegal-instruction cause not delegated, it
/// lands in the M-mode handler named by `mtvec`, records cause 2, the
/// raw instruction word in `mtval` and the faulting program counter in
/// `mepc`, and leaves registers and memory alone.
pub proof fn lemma_illegal_delivery(s: CpuState, raw: u64)
    requires
        s.csrs.len() == crate::extensions::zicsr::registers::CSR_COUNT,
        s.mode == PrivilegeMode::Machine || (spec_force_read(s.csrs, MEDELEG) >> 2) & 1 == 0,
    ensures
        ({
            let s2 = spec_deliver(s, Exception::IllegalInstruction(raw));
            &&& s2.mode == PrivilegeMode::Machine
            &&& s2.csrs[MCAUSE as int] == 2
            &&& s2.csrs[MTVAL as int] == raw as u32
            &&& s2.csrs[MEPC as int] == s.pc
            &&& s2.pc == spec_trap_pc(spec_force_read(s.csrs, MTVEC), 2)
            &&& s2.regs == s.regs
            &&& s2.mem == s.mem
        }),
{
}

impl Exception {
    /// Deliver this trap on the given hart: route it to the M-mode or
    /// the delegated S-mode handler, record its cause and trap value,
    /// stack the interrupt-enable and previous-privilege bits, and
    /// jump to the handler.
    pub fn take_trap(&self, cpu: &mut Cpu)
        requires
            old(cpu).wf(),
        ensures
            final(cpu).wf(),
            final(cpu)@ == spec_deliver(old(cpu)@, *self),
    {
        let pc = cpu.arch.base.pc;
        let cause = self.cause();
        let is_int = matches!(self, Exception::Interrupt(_));
        let tval = self.trap_value(Address(pc as u64)).value() as u32;
        let scause_val = if is_int {
            cause | 0x8000_0000
        } else {
            cause
        };
        let deleg = if is_int {
            cpu.arch.zicsr.force_read_u32(MIDELEG)
        } else {
            cpu.arch.zicsr.force_read_u32(MEDELEG)
        };
        let to_s = cpu.mode != PrivilegeMode::Machine && (deleg >> cause) & 1 != 0;
        if to_s {
            let tvec = cpu.arch.zicsr.force_read_u32(STVEC);
            cpu.arch.zicsr.force_write_csr(CsrAddress(SEPC), Address(pc as u64));
            cpu.arch.zicsr.force_write_csr(CsrAddress(SCAUSE), Address(scause_val as u64));
            cpu.arch.zicsr.force_write_csr(CsrAddress(STVAL), Address(tval as u64));
            let status = cpu.arch.zicsr.force_read_u32(SSTATUS);
            let st1 = if status & 0x2 != 0 {
                status | 0x20
            } else {
                status & !0x20
            };
            let st2 = st1 & !0x2;
            let st3 = if cpu.mode == PrivilegeMode::Supervisor {
                st2 | 0x100
            } else {
                st2 & !0x100
            };
            cpu.arch.zicsr.force_write_csr(CsrAddress(SSTATUS), Address(st3 as u64));
            let offset: u32 = if tvec & 1 != 0 {
                4 * cause
            } else {
                0
            };
            let target = (tvec & !1u32).wrapping_add(offset);
            cpu.set_pc(Address(target as u64));
            cpu.set_mode(PrivilegeMode::Supervisor);
        } else {
            let tvec = cpu.arch.zicsr.force_read_u32(MTVEC);
            cpu.arch.zicsr.force_write_csr(CsrAddress(MEPC), Address(pc as u64));
            cpu.arch.zicsr.force_write_csr(CsrAddress(MCAUSE), Address(scause_val as u64));
            cpu.arch.zicsr.force_write_csr(CsrAddress(MTVAL), Address(tval as u64));
            let status = cpu.arch.zicsr.force_read_u32(MSTATUS);
            let st1 = if status & 0x8 != 0 {
                status | 0x80
            } else {
                status & !0x80
            };
            let st2 = st1 & !0x8;
            let st3 = (st2 & !0x1800) | ((cpu.mode.to_bits() as u32) << 11);
            cpu.arch.zicsr.force_write_csr(CsrAddress(MSTATUS), Address(st3 as u64));
            let offset: u32 = if tvec & 1 != 0 {
                4 * cause
            } else {
                0
            };
            let target = (tvec & !1u32).wrapping_add(offset);
            cpu.set_pc(Address(target as u64));
            cpu.set_mode(PrivilegeMode::Machine);
        }
    }
}

} // verus!
