use vstd::prelude::*;

use crate::cpu::{Cpu, CpuBus};

verus! {

/// NOP - its one execute cycle reads the operand (or the next byte) and discards it.
pub fn exec_nop(cpu: &mut Cpu, bus: &mut CpuBus, step: u8)
    requires
        step < 1,
    ensures
        *final(cpu) == *old(cpu),
        final(bus)@ == old(bus)@,
{
    let _ = bus.read(cpu.effective_addr);
}

} // verus!
