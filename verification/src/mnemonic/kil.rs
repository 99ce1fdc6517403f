use vstd::prelude::*;

use crate::cpu::{Cpu, CpuBus};

verus! {

/// JAM - halts the processor; its one cycle is a bus read that changes nothing.
pub fn exec_jam(cpu: &mut Cpu, bus: &mut CpuBus, step: u8)
    requires
        step < 1,
    ensures
        *final(cpu) == *old(cpu),
        final(bus)@ == old(bus)@,
{
    let _ = bus.read(cpu.pc);
}

} // verus!
