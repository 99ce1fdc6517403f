use vstd::prelude::*;

use crate::cpu::{Cpu, CpuBus};
use crate::status::Status;

verus! {

/// The single cycle of a flag instruction: the flag of `mask` becomes `value`.
pub open spec fn flag_step(c: Cpu, m: Seq<u8>, mask: u8, value: bool) -> (Cpu, Seq<u8>) {
    (Cpu { p: c.p.with(mask, value), ..c }, m)
}

/// CLC - Clear carry flag.
pub fn exec_clc(cpu: &mut Cpu, bus: &mut CpuBus, step: u8)
    requires
        step < 1,
    ensures
        (*final(cpu), final(bus)@) == flag_step(*old(cpu), old(bus)@, Status::CARRY, false),
{
    let _ = bus.read(cpu.pc);
    cpu.p.set_c(false);
}

/// CLD - Clear decimal mode.
pub fn exec_cld(cpu: &mut Cpu, bus: &mut CpuBus, step: u8)
    requires
        step < 1,
    ensures
        (*final(cpu), final(bus)@) == flag_step(*old(cpu), old(bus)@, Status::DECIMAL, false),
{
    let _ = bus.read(cpu.pc);
    cpu.p.set_d(false);
}

/// CLI - Clear interrupt disable.
pub fn exec_cli(cpu: &mut Cpu, bus: &mut CpuBus, step: u8)
    requires
        step < 1,
    ensures
        (*final(cpu), final(bus)@) == flag_step(*old(cpu), old(bus)@, Status::INTERRUPT, false),
{
    let _ = bus.read(cpu.pc);
    cpu.p.remove(Status::INTERRUPT);
}

/// CLV - Clear overflow flag.
pub fn exec_clv(cpu: &mut Cpu, bus: &mut CpuBus, step: u8)
    requires
        step < 1,
    ensures
        (*final(cpu), final(bus)@) == flag_step(*old(cpu), old(bus)@, Status::OVERFLOW, false),
{
    let _ = bus.read(cpu.pc);
    cpu.p.set_v(false);
}

/// SEC - Set carry flag.
pub fn exec_sec(cpu: &mut Cpu, bus: &mut CpuBus, step: u8)
    requires
        step < 1,
    ensures
        (*final(cpu), final(bus)@) == flag_step(*old(cpu), old(bus)@, Status::CARRY, true),
{
    let _ = bus.read(cpu.pc);
    cpu.p.set_c(true);
}

/// SED - Set decimal mode.
pub fn exec_sed(cpu: &mut Cpu, bus: &mut CpuBus, step: u8)
    requires
        step < 1,
    ensures
        (*final(cpu), final(bus)@) == flag_step(*old(cpu), old(bus)@, Status::DECIMAL, true),
{
    let _ = bus.read(cpu.pc);
    cpu.p.set_d(true);
}

/// SEI - Set interrupt disable.
pub fn exec_sei(cpu: &mut Cpu, bus: &mut CpuBus, step: u8)
    requires
        step < 1,
    ensures
        (*final(cpu), final(bus)@) == flag_step(*old(cpu), old(bus)@, Status::INTERRUPT, true),
{
    let _ = bus.read(cpu.pc);
    cpu.p.insert(Status::INTERRUPT);
}

} // verus!
