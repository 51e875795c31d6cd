//! The core of the emulator that is responsible for executing
//! RISC-V code.

use vstd::prelude::*;

use crate::extensions::zicsr::registers::{MEPC, MIE, MIP, MSTATUS, SEPC, SSTATUS};
use crate::extensions::zicsr::spec_force_read;
use crate::extensions::{rv32i, zicsr};
use crate::memory::{spec_read_bus, spec_write_bus, Memory, MemoryData};
use crate::mmu::{AccessType, Mmu};
use crate::trap::{spec_deliver, Exception, Interrupt};
use crate::Address;

verus! {

/// Different privilege modes a CPU core can be in.
#[derive(Debug, Clone, Copy, PartialEq, Eq, Structural)]
pub enum PrivilegeMode {
    /// The highest privilege mode.
    Machine,
    /// The supervisor privilege mode.
    Supervisor,
    /// The user privilege mode.
    User,
}

/// The privilege mode denoted by the low two bits of a raw value:
/// `0b00` is U, `0b01` is S, and `0b11` is M.
pub open spec fn spec_from_bits(bits: u8) -> PrivilegeMode {
    if bits & 0b11 == 0b00 {
        PrivilegeMode::User
    } else if bits & 0b11 == 0b01 {
        PrivilegeMode::Supervisor
    } else {
        PrivilegeMode::Machine
    }
}

impl PrivilegeMode {
    /// Get the first two bits from the byte and turn them into a
    /// privilege mode according to the specification.
    ///
    /// # Bits
    ///
    /// - `0b00`: User mode
    /// - `0b01`: Supervisor mode
    /// - `0b11`: Machine mode
    ///
    /// The remaining pattern `0b10` names no privilege mode.
    pub fn from_bits(bits: u8) -> (r: Self)
        requires
            bits & 0b11 != 0b10,
        ensures
            r == spec_from_bits(bits),
    {
        if bits & 0b11 == 0b00 {
            PrivilegeMode::User
        } else if bits & 0b11 == 0b01 {
            PrivilegeMode::Supervisor
        } else {
            PrivilegeMode::Machine
        }
    }


    /// Turn the low two bits into a privilege mode, mapping the
    /// reserved pattern `0b10` like the specification-level
    /// [`spec_from_bits`] does.
    pub(crate) fn from_bits_any(bits: u8) -> (r: Self)
        ensures
            r == spec_from_bits(bits),
    {
        if bits & 0b11 == 0b00 {
            PrivilegeMode::User
        } else if bits & 0b11 == 0b01 {
            PrivilegeMode::Supervisor
        } else {
            PrivilegeMode::Machine
        }
    }

    /// The raw representation of this mode in bits according to the
    /// specification.
    pub open spec fn spec_to_bits(self) -> u8 {
        match self {
            PrivilegeMode::User => 0b00,
            PrivilegeMode::Supervisor => 0b01,
            PrivilegeMode::Machine => 0b11,
        }
    }

    /// Turn this mode into the raw representation of bits according to
    /// the specification.
    pub fn to_bits(self) -> (r: u8)
        ensures
            r == self.spec_to_bits(),
    {
        match self {
            PrivilegeMode::User => 0b00,
            PrivilegeMode::Supervisor => 0b01,
            PrivilegeMode::Machine => 0b11,
        }
    }

    /// The full access ordering between privilege modes: M reaches
    /// everything, S reaches S and U, U reaches only U, and nothing
    /// else is reachable.
    pub open spec fn spec_can_access(self, other: PrivilegeMode) -> bool {
        match (self, other) {
            (PrivilegeMode::Machine, _) => true,
            (PrivilegeMode::Supervisor, PrivilegeMode::Supervisor) => true,
            (PrivilegeMode::Supervisor, PrivilegeMode::User) => true,
            (PrivilegeMode::User, PrivilegeMode::User) => true,
            _ => false,
        }
    }

    /// Check if this privilege mode has at least the privileges of the
    /// given mode.
    pub fn can_access(self, other: PrivilegeMode) -> (r: bool)
        ensures
            r == self.spec_can_access(other),
    {
        match (self, other) {
            (PrivilegeMode::Machine, _) => true,
            (PrivilegeMode::Supervisor, PrivilegeMode::Supervisor) => true,
            (PrivilegeMode::Supervisor, PrivilegeMode::User) => true,
            (PrivilegeMode::User, PrivilegeMode::User) => true,
            _ => false,
        }
    }
}

/// The architectural state owned by the hart besides memory: the RV32I
/// base extension and the Zicsr extension.
#[derive(Debug)]
pub struct Architecture {
    /// The RV32I base extension: registers and program counter.
    pub base: rv32i::Extension,
    /// The Zicsr extension: the control-and-status register file.
    pub zicsr: zicsr::Extension,
    /// The native register width of the hart in bits.
    pub xlen: u32,
}

impl Architecture {
    /// Both extensions are well formed and the hart is a 32-bit one.
    pub open spec fn wf(self) -> bool {
        self.base.wf() && self.zicsr.wf() && self.xlen == 32
    }

    /// Create the architectural state of an RV32I hart with the Zicsr
    /// extension.
    pub fn rv32i() -> (r: Self)
        ensures
            r.wf(),
            r.base.pc == 0,
            forall|i: int| 0 <= i < 32 ==> r.base.registers@[i] == 0,
            r.zicsr@ == zicsr::spec_new_32bit(),
    {
        Architecture { base: rv32i::Extension::new_32bit(), zicsr: zicsr::Extension::new_32bit(), xlen: 32 }
    }
}

/// The result of executing one instruction: how the program counter
/// must advance afterwards.
#[derive(Debug, Clone, Copy, PartialEq, Eq, Structural)]
pub enum Continuation {
    /// Advance the program counter past the executed instruction.
    Next,
    /// The instruction already placed the new program counter.
    Jump,
    /// Leave the program counter alone and idle until an interrupt.
    WaitForInterrupt,
}

/// The mathematical state of a hart: register file, program counter,
/// CSR file, memory contents and privilege mode.
#[verifier::ext_equal]
pub struct CpuState {
    /// The registers `x0..x31`.
    pub regs: Seq<u32>,
    /// The program counter.
    pub pc: u32,
    /// The 4096 control-and-status registers.
    pub csrs: Seq<u32>,
    /// The memory bus: each device's base address and contents.
    pub mem: Seq<(u64, Seq<u8>)>,
    /// The privilege mode.
    pub mode: PrivilegeMode,
}

/// The interrupt the selector would deliver in state `s`, if any:
/// interrupts are gated by the current mode's global interrupt-enable
/// bit (always open from U-mode), a source is pending when it is both
/// enabled in `mie` and raised in `mip`, and the machine-level sources
/// outrank the supervisor-level ones.
pub open spec fn spec_pending(s: CpuState) -> Option<Interrupt> {
    let gate = match s.mode {
        PrivilegeMode::Machine => spec_force_read(s.csrs, MSTATUS) & 0x8 != 0,
        PrivilegeMode::Supervisor => spec_force_read(s.csrs, SSTATUS) & 0x2 != 0,
        PrivilegeMode::User => true,
    };
    if !gate {
        None
    } else {
        let pending = spec_force_read(s.csrs, MIE) & spec_force_read(s.csrs, MIP);
        if pending & 0x800 != 0 {
            Some(Interrupt::MachineExternalInterrupt)
        } else if pending & 0x8 != 0 {
            Some(Interrupt::MachineSoftwareInterrupt)
        } else if pending & 0x80 != 0 {
            Some(Interrupt::MachineTimerInterrupt)
        } else if pending & 0x200 != 0 {
            Some(Interrupt::SupervisorExternalInterrupt)
        } else if pending & 0x2 != 0 {
            Some(Interrupt::SupervisorSoftwareInterrupt)
        } else if pending & 0x20 != 0 {
            Some(Interrupt::SupervisorTimerInterrupt)
        } else {
            None
        }
    }
}

/// The outcome of decoding and executing the raw word `inst` in state
/// `s`: the RV32I decoder is consulted first, then the Zicsr decoder,
/// and a word neither knows raises `IllegalInstruction` carrying it.
#[verifier::opaque]
pub open spec fn spec_parse_and_exec(s: CpuState, inst: u32) -> (CpuState, core::result::Result<
    (u32, Continuation),
    Exception,
>) {
    match rv32i::parse::spec_parse(inst) {
        Some(i) => {
            let p = rv32i::exec::spec_exec(i, s);
            match p.1 {
                Ok(c) => (p.0, Ok((4, c))),
                Err(e) => (p.0, Err(e)),
            }
        },
        None => match zicsr::spec_parse(inst) {
            Some(i) => {
                let p = zicsr::spec_exec(i, s);
                match p.1 {
                    Ok(c) => (p.0, Ok((4, c))),
                    Err(e) => (p.0, Err(e)),
                }
            },
            None => (s, Err(Exception::IllegalInstruction(inst as u64))),
        },
    }
}

/// The outcome of one step of the hart from state `s`: deliver a
/// pending interrupt if there is one; otherwise translate and fetch
/// the next instruction word, check the program counter's alignment,
/// execute the instruction, and advance the program counter as the
/// instruction's continuation asks.
pub open spec fn spec_step(s: CpuState) -> (CpuState, core::result::Result<(), Exception>) {
    match spec_pending(s) {
        Some(i) => (spec_deliver(s, Exception::Interrupt(i)), Ok(())),
        None => match crate::mmu::spec_translate(s, s.pc as u64, AccessType::Fetch) {
            Err(e) => (s, Err(e)),
            Ok(pa) => match spec_read_bus(s.mem, pa, 4) {
                Err(e) => (s, Err(e)),
                Ok(w) => {
                    if s.pc & 3 != 0 {
                        (s, Err(Exception::InstructionAddressMisaligned(Address(s.pc as u64))))
                    } else {
                        let p = spec_parse_and_exec(s, w as u32);
                        match p.1 {
                            Err(e) => (p.0, Err(e)),
                            Ok((len, c)) => match c {
                                Continuation::Next => (
                                    rv32i::exec::with_pc(
                                        p.0,
                                        vstd::wrapping::u32_specs::wrapping_add(s.pc, len),
                                    ),
                                    Ok(()),
                                ),
                                Continuation::WaitForInterrupt => (
                                    rv32i::exec::with_pc(p.0, s.pc),
                                    Ok(()),
                                ),
                                Continuation::Jump => (p.0, Ok(())),
                            },
                        }
                    }
                },
            },
        },
    }
}

/// Representation of a single physical CPU.
#[derive(Debug)]
pub struct Cpu {
    /// The architectural state of the hart.
    pub arch: Architecture,
    /// The physical memory attached to the hart.
    pub mem: Memory,
    /// The current privilege mode.
    pub mode: PrivilegeMode,
}

impl View for Cpu {
    type V = CpuState;

    open spec fn view(&self) -> CpuState {
        CpuState {
            regs: self.arch.base.registers@,
            pc: self.arch.base.pc,
            csrs: self.arch.zicsr.csrs@,
            mem: self.mem@,
            mode: self.mode,
        }
    }
}

impl Cpu {
    /// The hart's components are all well formed.
    pub open spec fn wf(&self) -> bool {
        self.arch.wf() && self.mem.wf()
    }

    /// Create a new CPU. The hart starts in machine mode.
    pub fn new(arch: Architecture, mem: Memory) -> (r: Self)
        ensures
            r.arch == arch,
            r.mem == mem,
            r.mode == PrivilegeMode::Machine,
    {
        Cpu { arch, mem, mode: PrivilegeMode::Machine }
    }

    /// Read a `T` from the given physical address.
    pub fn read<T: MemoryData>(&self, addr: Address) -> (r: core::result::Result<T, Exception>)
        requires
            self.wf(),
        ensures
            ({
                let s = spec_read_bus(self@.mem, addr.0, T::spec_size());
                match r {
                    Ok(v) => s == Ok::<u64, Exception>(v.to_u64()),
                    Err(e) => s == Err::<u64, Exception>(e),
                }
            }),
    {
        self.mem.read(addr)
    }

    /// Write a `T` to the given physical address.
    pub fn write<T: MemoryData>(&mut self, addr: Address, item: T) -> (r: core::result::Result<
        (),
        Exception,
    >)
        requires
            old(self).wf(),
        ensures
            final(self).wf(),
            final(self).arch == old(self).arch,
            final(self).mode == old(self).mode,
            match r {
                Ok(_) => spec_write_bus(old(self)@.mem, addr.0, T::spec_size(), item.to_u64())
                    == Ok::<Seq<(u64, Seq<u8>)>, Exception>(final(self)@.mem),
                Err(e) => spec_write_bus(old(self)@.mem, addr.0, T::spec_size(), item.to_u64())
                    == Err::<Seq<(u64, Seq<u8>)>, Exception>(e) && final(self)@.mem
                    == old(self)@.mem,
            },
    {
        self.mem.write(addr, item)
    }

    /// Set the program counter to the given value.
    pub fn set_pc(&mut self, pc: Address)
        ensures
            final(self)@ == (CpuState { pc: pc.0 as u32, ..old(self)@ }),
            final(self).wf() == old(self).wf(),
    {
        self.arch.base.set_pc(pc);
    }

    /// Update the privilege mode to the given mode.
    pub fn set_mode(&mut self, new: PrivilegeMode)
        ensures
            final(self)@ == (CpuState { mode: new, ..old(self)@ }),
            final(self).wf() == old(self).wf(),
    {
        self.mode = new;
    }

    /// Return a reference to the underlying architecture of this CPU.
    pub fn arch(&mut self) -> (r: &mut Architecture)
        ensures
            *r == old(self).arch,
            final(self).arch == *final(r),
            final(self).mem == old(self).mem,
            final(self).mode == old(self).mode,
    {
        &mut self.arch
    }

    /// Return a reference to the underlying memory of this CPU.
    pub fn mem(&mut self) -> (r: &mut Memory)
        ensures
            *r == old(self).mem,
            final(self).mem == *final(r),
            final(self).arch == old(self).arch,
            final(self).mode == old(self).mode,
    {
        &mut self.mem
    }

    /// The interrupt the selector would deliver right now, wrapped as
    /// a trap, or `None` when none is both enabled and pending.
    pub fn check_pending_interrupt(&self) -> (r: Option<Exception>)
        requires
            self.wf(),
        ensures
            r == match spec_pending(self@) {
                Some(i) => Some(Exception::Interrupt(i)),
                None => None::<Exception>,
            },
    {
        let gate = match self.mode {
            PrivilegeMode::Machine => self.arch.zicsr.force_read_u32(MSTATUS) & 0x8 != 0,
            PrivilegeMode::Supervisor => self.arch.zicsr.force_read_u32(SSTATUS) & 0x2 != 0,
            PrivilegeMode::User => true,
        };
        if !gate {
            return None;
        }
        let pending = self.arch.zicsr.force_read_u32(MIE) & self.arch.zicsr.force_read_u32(MIP);
        if pending & 0x800 != 0 {
            Some(Exception::Interrupt(Interrupt::MachineExternalInterrupt))
        } else if pending & 0x8 != 0 {
            Some(Exception::Interrupt(Interrupt::MachineSoftwareInterrupt))
        } else if pending & 0x80 != 0 {
            Some(Exception::Interrupt(Interrupt::MachineTimerInterrupt))
        } else if pending & 0x200 != 0 {
            Some(Exception::Interrupt(Interrupt::SupervisorExternalInterrupt))
        } else if pending & 0x2 != 0 {
            Some(Exception::Interrupt(Interrupt::SupervisorSoftwareInterrupt))
        } else if pending & 0x20 != 0 {
            Some(Exception::Interrupt(Interrupt::SupervisorTimerInterrupt))
        } else {
            None
        }
    }

    /// Decode the raw word with the RV32I decoder, then with the Zicsr
    /// decoder, and execute what was found, reporting the instruction
    /// length and continuation.
    pub fn parse_and_exec(&mut self, inst: u32) -> (r: core::result::Result<
        (u32, Continuation),
        Exception,
    >)
        requires
            old(self).wf(),
        ensures
            final(self).wf(),
            ({
                let p = spec_parse_and_exec(old(self)@, inst);
                final(self)@ == p.0 && r == p.1
            }),
            r matches Ok((len, c)) ==> len == 4,
            r matches Ok((len, c)) && c == Continuation::Jump && old(self)@.csrs[MEPC as int] & 3
                == 0 && old(self)@.csrs[SEPC as int] & 3 == 0 ==> final(self)@.pc & 3 == 0,
            !(r matches Ok((len, c)) && c == Continuation::Jump) ==> final(self)@.pc == old(self)@.pc,
    {
        proof {
            reveal(crate::cpu::spec_parse_and_exec);
        }
        if let Some(i) = rv32i::parse(inst) {
            match rv32i::exec(i, self) {
                Ok(c) => Ok((i.len(), c)),
                Err(e) => Err(e),
            }
        } else if let Some(i) = zicsr::parse(inst) {
            match zicsr::exec(i, self) {
                Ok(c) => Ok((i.len(), c)),
                Err(e) => Err(e),
            }
        } else {
            Err(Exception::IllegalInstruction(inst as u64))
        }
    }

    /// Perform one step of the CPU: deliver a pending interrupt, or
    /// fetch, decode and execute one instruction and advance the
    /// program counter.
    ///
    /// When no interrupt was delivered and the step succeeds, the
    /// program counter stays four-byte aligned, provided the exception
    /// return addresses in `mepc` and `sepc` are themselves aligned.
    #[verifier::rlimit(100)]
    pub fn step(&mut self) -> (r: core::result::Result<(), Exception>)
        requires
            old(self).wf(),
        ensures
            final(self).wf(),
            ({
                let p = spec_step(old(self)@);
                final(self)@ == p.0 && r == p.1
            }),
            r is Ok && spec_pending(old(self)@) is None && old(self)@.pc % 4 == 0 && old(self)@.csrs[MEPC as int] % 4 == 0 && old(self)@.csrs[SEPC as int] % 4 == 0 ==> final(self)@.pc % 4 == 0,
    {
        proof {
            crate::bits::lemma_align4(old(self)@.pc);
            crate::bits::lemma_align4(old(self)@.csrs[MEPC as int]);
            crate::bits::lemma_align4(old(self)@.csrs[SEPC as int]);
        }
        if let Some(intr) = self.check_pending_interrupt() {
            intr.take_trap(self);
            return Ok(());
        }

        let pc = self.arch.base.pc;
        let mmu = Mmu::new();
        let pa = match mmu.translate(&*self, Address(pc as u64), AccessType::Fetch) {
            Ok(a) => a,
            Err(e) => {
                return Err(e);
            },
        };
        let inst = match self.read::<u32>(pa) {
            Ok(w) => w,
            Err(e) => {
                return Err(e);
            },
        };

        // check alignment of instruction
        if pc & 3 != 0 {
            return Err(Exception::InstructionAddressMisaligned(Address(pc as u64)));
        }

        let (len, c) = match self.parse_and_exec(inst) {
            Ok(p) => p,
            Err(e) => {
                return Err(e);
            },
        };
        let new_pc = pc.wrapping_add(len);

        match c {
            Continuation::Next => {
                proof {
                    crate::bits::lemma_align4(new_pc);
                    if old(self)@.pc % 4 == 0 {
                        assert(new_pc % 4 == 0);
                    }
                }
                self.set_pc(Address(new_pc as u64));
                proof {
                    crate::bits::lemma_align4(self@.pc);
                }
            },
            // WFI leaves the program counter alone, so the hart polls
            // the interrupt selector again on the next step
            Continuation::WaitForInterrupt => self.set_pc(Address(pc as u64)),
            Continuation::Jump => {
                proof {
                    crate::bits::lemma_align4(self@.pc);
                }
            },
        }

        Ok(())
    }

    /// Return the current privilege mode of this CPU.
    pub fn mode(&self) -> (r: PrivilegeMode)
        ensures
            r == self.mode,
    {
        self.mode
    }
}

} // verus!
