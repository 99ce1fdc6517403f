use vstd::prelude::*;

use crate::cpu::{wr, Cpu, CpuBus};

verus! {

/// SHS: `A & X -> S`, then `S & (H + 1)` stored at the effective address, H being
/// the base's high byte latched by the addressing cycles.
pub open spec fn shs_step(c: Cpu, m: Seq<u8>) -> (Cpu, Seq<u8>) {
    let s = c.a & c.x;
    (Cpu { s, ..c }, wr(m, c.effective_addr, s & c.tmp.wrapping_add(1)))
}

/// SHS - store `A & X` in S, and `S & (H + 1)` in memory; no flag is affected.
pub fn exec_shs(cpu: &mut Cpu, bus: &mut CpuBus, step: u8)
    requires
        step < 1,
    ensures
        (*final(cpu), final(bus)@) == shs_step(*old(cpu), old(bus)@),
{
    let s = cpu.a & cpu.x;
    cpu.s = s;
    let m = s & cpu.tmp.wrapping_add(1);
    bus.write(cpu.effective_addr, m);
}

/// TAX - transfer accumulator to X; N and Z from the value.
pub fn exec_tax(cpu: &mut Cpu, bus: &mut CpuBus, step: u8)
    requires
        step < 1,
    ensures
        final(bus)@ == old(bus)@,
        *final(cpu) == (Cpu { x: old(cpu).a, p: old(cpu).p.with_zn(old(cpu).a), ..*old(cpu) }),
{
    cpu.x = cpu.a;
    cpu.p.set_zn(cpu.x);
}

/// TAY - transfer accumulator to Y; N and Z from the value.
pub fn exec_tay(cpu: &mut Cpu, bus: &mut CpuBus, step: u8)
    requires
        step < 1,
    ensures
        final(bus)@ == old(bus)@,
        *final(cpu) == (Cpu { y: old(cpu).a, p: old(cpu).p.with_zn(old(cpu).a), ..*old(cpu) }),
{
    cpu.y = cpu.a;
    cpu.p.set_zn(cpu.y);
}

/// TSX - transfer stack pointer to X; N and Z from the value.
pub fn exec_tsx(cpu: &mut Cpu, bus: &mut CpuBus, step: u8)
    requires
        step < 1,
    ensures
        final(bus)@ == old(bus)@,
        *final(cpu) == (Cpu { x: old(cpu).s, p: old(cpu).p.with_zn(old(cpu).s), ..*old(cpu) }),
{
    cpu.x = cpu.s;
    cpu.p.set_zn(cpu.x);
}

/// TXA - transfer X to accumulator; N and Z from the value.
pub fn exec_txa(cpu: &mut Cpu, bus: &mut CpuBus, step: u8)
    requires
        step < 1,
    ensures
        final(bus)@ == old(bus)@,
        *final(cpu) == (Cpu { a: old(cpu).x, p: old(cpu).p.with_zn(old(cpu).x), ..*old(cpu) }),
{
    cpu.a = cpu.x;
    cpu.p.set_zn(cpu.a);
}

/// TXS - transfer X to stack pointer; no flag is affected.
pub fn exec_txs(cpu: &mut Cpu, bus: &mut CpuBus, step: u8)
    requires
        step < 1,
    ensures
        final(bus)@ == old(bus)@,
        *final(cpu) == (Cpu { s: old(cpu).x, ..*old(cpu) }),
{
    cpu.s = cpu.x;
}

/// TYA - transfer Y to accumulator; N and Z from the value.
pub fn exec_tya(cpu: &mut Cpu, bus: &mut CpuBus, step: u8)
    requires
        step < 1,
    ensures
        final(bus)@ == old(bus)@,
        *final(cpu) == (Cpu { a: old(cpu).y, p: old(cpu).p.with_zn(old(cpu).y), ..*old(cpu) }),
{
    cpu.a = cpu.y;
    cpu.p.set_zn(cpu.a);
}

} // verus!
