//! This module implements abstractions for loading, executing and
//! debugging RISC-V code using the spear emulator.

use vstd::prelude::*;

use crate::cpu::{spec_step, Cpu, CpuState};
use crate::memory::{spec_read_bus, spec_write_bus};
use crate::trap::spec_deliver;
use crate::Address;

verus! {

/// The physical address of the HTIF `tohost` word, if one is known.
pub open spec fn spec_tohost(t: Option<Address>) -> Option<u64> {
    match t {
        Some(a) => Some(a.0),
        None => None,
    }
}

/// True iff the run must stop in state `s`: a `tohost` word is known
/// and reads back as a non-zero 32-bit value.
pub open spec fn spec_run_stop(s: CpuState, tohost: Option<u64>) -> bool {
    match tohost {
        Some(a) => match spec_read_bus(s.mem, a, 4) {
            Ok(v) => v != 0,
            Err(_) => false,
        },
        None => false,
    }
}

/// One iteration of the driver: step the hart, and hand a raised trap
/// to the trap engine.
#[verifier::opaque]
pub open spec fn spec_run_step(s: CpuState) -> CpuState {
    let p = spec_step(s);
    match p.1 {
        Ok(_) => p.0,
        Err(e) => spec_deliver(p.0, e),
    }
}

/// The state before the run loop starts: the `tohost` word is zeroed
/// when it is known and backed by memory, so that every write by the
/// guest is observed.
pub open spec fn spec_run_init(s: CpuState, tohost: Option<u64>) -> CpuState {
    match tohost {
        Some(a) => match spec_write_bus(s.mem, a, 4, 0) {
            Ok(m) => CpuState { mem: m, ..s },
            Err(_) => s,
        },
        None => s,
    }
}

/// The state after the driver has iterated from `s`: it repeats
/// [`spec_run_step`] until the stop test holds or `fuel` iterations
/// have passed.
pub open spec fn spec_run(s: CpuState, tohost: Option<u64>, fuel: nat) -> CpuState
    decreases fuel,
{
    if fuel == 0 {
        s
    } else if spec_run_stop(s, tohost) {
        s
    } else {
        spec_run(spec_run_step(s), tohost, (fuel - 1) as nat)
    }
}

/// True iff the driver, iterating from `s`, reaches the stop test
/// within `fuel` iterations.
pub open spec fn spec_run_stops_within(s: CpuState, tohost: Option<u64>, fuel: nat) -> bool
    decreases fuel,
{
    if fuel == 0 {
        false
    } else if spec_run_stop(s, tohost) {
        true
    } else {
        spec_run_stops_within(spec_run_step(s), tohost, (fuel - 1) as nat)
    }
}

/// The `Emulator` is responsible for initializing and running a [`Cpu`].
#[derive(Debug)]
pub struct Emulator {
    /// The hart being driven.
    pub cpu: Cpu,
    /// The physical address of the HTIF `tohost` word, when the loaded
    /// image exports one.
    pub tohost_addr: Option<Address>,
}

impl Emulator {
    /// Create an emulator driving the given CPU, observing the HTIF
    /// `tohost` word at `tohost_addr` if one is known.
    pub fn new(cpu: Cpu, tohost_addr: Option<Address>) -> (r: Self)
        ensures
            r.cpu == cpu,
            r.tohost_addr == tohost_addr,
    {
        Emulator { cpu, tohost_addr }
    }

    /// Run this emulator until something is written to `tohost`.
    ///
    /// The `tohost` word is zeroed first. Each iteration stops once
    /// that word reads back non-zero; otherwise it steps the hart and
    /// hands any trap the step raised to the trap engine, so a trap
    /// never aborts the run. The final state is exactly the one
    /// [`spec_run`] computes, and whenever the iterated run reaches
    /// the stop test at all, the state this function returns in has a
    /// non-zero `tohost` word.
    pub fn run(&mut self)
        requires
            old(self).cpu.wf(),
        ensures
            final(self).cpu.wf(),
            final(self).tohost_addr == old(self).tohost_addr,
            final(self).cpu@ == spec_run(
                spec_run_init(old(self).cpu@, spec_tohost(old(self).tohost_addr)),
                spec_tohost(old(self).tohost_addr),
                u64::MAX as nat,
            ),
            spec_run_stops_within(
                spec_run_init(old(self).cpu@, spec_tohost(old(self).tohost_addr)),
                spec_tohost(old(self).tohost_addr),
                u64::MAX as nat,
            ) ==> spec_run_stop(final(self).cpu@, spec_tohost(old(self).tohost_addr)),
    {
        let ghost th = spec_tohost(self.tohost_addr);

        // we set `tohost` to zero at the beginning, to see every write
        // that occurs
        if let Some(addr) = self.tohost_addr {
            let _ = self.cpu.write::<u32>(addr, 0u32);
        }
        proof {
            assert(self.cpu@ =~= spec_run_init(old(self).cpu@, th));
        }
        let ghost init = self.cpu@;

        let mut fuel: u64 = u64::MAX;
        while fuel > 0
            invariant
                self.cpu.wf(),
                self.tohost_addr == old(self).tohost_addr,
                th == spec_tohost(old(self).tohost_addr),
                init == spec_run_init(old(self).cpu@, th),
                spec_run(init, th, u64::MAX as nat) == spec_run(self.cpu@, th, fuel as nat),
                spec_run_stops_within(init, th, u64::MAX as nat) == spec_run_stops_within(
                    self.cpu@,
                    th,
                    fuel as nat,
                ),
            decreases fuel,
        {
            if let Some(addr) = self.tohost_addr {
                match self.cpu.read::<u32>(addr) {
                    Ok(x) => {
                        if x != 0 {
                            proof {
                                assert(spec_run_stop(self.cpu@, th));
                                assert(spec_run(self.cpu@, th, fuel as nat) == self.cpu@);
                            }
                            return;
                        }
                    },
                    Err(_) => {},
                }
            }
            proof {
                assert(!spec_run_stop(self.cpu@, th));
            }
            let ghost pre = self.cpu@;

            match self.cpu.step() {
                Ok(_) => {},
                Err(trap) => trap.take_trap(&mut self.cpu),
            }
            proof {
                assert(self.cpu@ == spec_run_step(pre)) by {
                    reveal(crate::emulator::spec_run_step);
                }
                assert(spec_run(pre, th, fuel as nat) == spec_run(
                    spec_run_step(pre),
                    th,
                    (fuel - 1) as nat,
                ));
                assert(spec_run_stops_within(pre, th, fuel as nat) == spec_run_stops_within(
                    spec_run_step(pre),
                    th,
                    (fuel - 1) as nat,
                ));
            }
            fuel = fuel - 1;
        }
    }

    /// Get a mutable reference to the underlying CPU.
    pub fn cpu(&mut self) -> (r: &mut Cpu)
        ensures
            *r == old(self).cpu,
            final(self).cpu == *final(r),
            final(self).tohost_addr == old(self).tohost_addr,
    {
        &mut self.cpu
    }
}

} // verus!
