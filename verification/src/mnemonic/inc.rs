use vstd::prelude::*;

use crate::cpu::{rd, wr, Cpu, CpuBus};

verus! {

/// The read-modify-write cycles of INC and DEC: read M, write it back while
/// `M + delta` is formed, write the result and set N and Z from it.
pub open spec fn inc_dec_step(c: Cpu, m: Seq<u8>, step: u8, up: bool) -> (Cpu, Seq<u8>) {
    if step == 0 {
        (Cpu { base: rd(m, c.effective_addr), ..c }, m)
    } else if step == 1 {
        (
            Cpu {
                base: if up {
                    c.base.wrapping_add(1)
                } else {
                    c.base.wrapping_sub(1)
                },
                ..c
            },
            wr(m, c.effective_addr, c.base),
        )
    } else {
        (Cpu { p: c.p.with_zn(c.base), ..c }, wr(m, c.effective_addr, c.base))
    }
}

/// The cycles shared by INC and DEC.
fn exec_inc_dec(cpu: &mut Cpu, bus: &mut CpuBus, step: u8, up: bool)
    requires
        step < 3,
    ensures
        (*final(cpu), final(bus)@) == inc_dec_step(*old(cpu), old(bus)@, step, up),
{
    match step {
        0 => {
            cpu.base = bus.read(cpu.effective_addr);
        },
        1 => {
            bus.write(cpu.effective_addr, cpu.base);
            if up {
                cpu.base = cpu.base.wrapping_add(1);
            } else {
                cpu.base = cpu.base.wrapping_sub(1);
            }
        },
        _ => {
            let new_value = cpu.base;
            bus.write(cpu.effective_addr, new_value);
            cpu.p.set_zn(new_value);
        },
    }
}

/// DEC - decrement memory by one; N and Z from the result.
pub fn exec_dec(cpu: &mut Cpu, bus: &mut CpuBus, step: u8)
    requires
        step < 3,
    ensures
        (*final(cpu), final(bus)@) == inc_dec_step(*old(cpu), old(bus)@, step, false),
{
    exec_inc_dec(cpu, bus, step, false);
}

/// INC - increment memory by one; N and Z from the result.
pub fn exec_inc(cpu: &mut Cpu, bus: &mut CpuBus, step: u8)
    requires
        step < 3,
    ensures
        (*final(cpu), final(bus)@) == inc_dec_step(*old(cpu), old(bus)@, step, true),
{
    exec_inc_dec(cpu, bus, step, true);
}

/// DEX - decrement X by one; N and Z from the result.
pub fn exec_dex(cpu: &mut Cpu, bus: &mut CpuBus, step: u8)
    requires
        step < 1,
    ensures
        final(bus)@ == old(bus)@,
        *final(cpu) == (Cpu {
            x: old(cpu).x.wrapping_sub(1),
            p: old(cpu).p.with_zn(old(cpu).x.wrapping_sub(1)),
            ..*old(cpu)
        }),
{
    cpu.x = cpu.x.wrapping_sub(1);
    cpu.p.set_zn(cpu.x);
}

/// DEY - decrement Y by one; N and Z from the result.
pub fn exec_dey(cpu: &mut Cpu, bus: &mut CpuBus, step: u8)
    requires
        step < 1,
    ensures
        final(bus)@ == old(bus)@,
        *final(cpu) == (Cpu {
            y: old(cpu).y.wrapping_sub(1),
            p: old(cpu).p.with_zn(old(cpu).y.wrapping_sub(1)),
            ..*old(cpu)
        }),
{
    cpu.y = cpu.y.wrapping_sub(1);
    cpu.p.set_zn(cpu.y);
}

/// INX - increment X by one; N and Z from the result.
pub fn exec_inx(cpu: &mut Cpu, bus: &mut CpuBus, step: u8)
    requires
        step < 1,
    ensures
        final(bus)@ == old(bus)@,
        *final(cpu) == (Cpu {
            x: old(cpu).x.wrapping_add(1),
            p: old(cpu).p.with_zn(old(cpu).x.wrapping_add(1)),
            ..*old(cpu)
        }),
{
    cpu.x = cpu.x.wrapping_add(1);
    cpu.p.set_zn(cpu.x);
}

/// INY - increment Y by one; N and Z from the result.
pub fn exec_iny(cpu: &mut Cpu, bus: &mut CpuBus, step: u8)
    requires
        step < 1,
    ensures
        final(bus)@ == old(bus)@,
        *final(cpu) == (Cpu {
            y: old(cpu).y.wrapping_add(1),
            p: old(cpu).p.with_zn(old(cpu).y.wrapping_add(1)),
            ..*old(cpu)
        }),
{
    cpu.y = cpu.y.wrapping_add(1);
    cpu.p.set_zn(cpu.y);
}

} // verus!
