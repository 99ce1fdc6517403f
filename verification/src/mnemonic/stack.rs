use vstd::prelude::*;

use crate::cpu::{pop_value, popped, push_spec, Cpu, CpuBus, STACK_ADDR};
use crate::status::Status;

verus! {

/// PHA: a padding read, then push A.
pub open spec fn pha_step(c: Cpu, m: Seq<u8>, step: u8) -> (Cpu, Seq<u8>) {
    if step == 0 {
        (c, m)
    } else {
        push_spec(c, m, c.a)
    }
}

/// PHP: a padding read, then push P with B and U set.
pub open spec fn php_step(c: Cpu, m: Seq<u8>, step: u8) -> (Cpu, Seq<u8>) {
    if step == 0 {
        (c, m)
    } else {
        push_spec(c, m, c.p.with(Status::BREAK | Status::UNUSED, true).bits)
    }
}

/// PLA: two padding reads, then pull A; N and Z from the value.
pub open spec fn pla_step(c: Cpu, m: Seq<u8>, step: u8) -> (Cpu, Seq<u8>) {
    if step < 2 {
        (c, m)
    } else {
        let v = pop_value(c, m);
        (Cpu { a: v, p: c.p.with_zn(v), ..popped(c) }, m)
    }
}

/// PLP: two padding reads, then pull P with B and U cleared.
pub open spec fn plp_step(c: Cpu, m: Seq<u8>, step: u8) -> (Cpu, Seq<u8>) {
    if step < 2 {
        (c, m)
    } else {
        (
            Cpu {
                p: Status { bits: pop_value(c, m) }.with(Status::UNUSED | Status::BREAK, false),
                ..popped(c)
            },
            m,
        )
    }
}

/// PHA - push accumulator on stack.
pub fn exec_pha(cpu: &mut Cpu, bus: &mut CpuBus, step: u8)
    requires
        step < 2,
    ensures
        (*final(cpu), final(bus)@) == pha_step(*old(cpu), old(bus)@, step),
{
    match step {
        0 => {
            let _ = bus.read(cpu.pc);
        },
        _ => {
            let a = cpu.a;
            cpu.push_stack(bus, a);
        },
    }
}

/// PHP - push processor status on stack, with B and U set in the pushed copy.
pub fn exec_php(cpu: &mut Cpu, bus: &mut CpuBus, step: u8)
    requires
        step < 2,
    ensures
        (*final(cpu), final(bus)@) == php_step(*old(cpu), old(bus)@, step),
{
    match step {
        0 => {
            let _ = bus.read(cpu.pc);
        },
        _ => {
            let p = cpu.p.union(Status::BREAK | Status::UNUSED);
            cpu.push_stack(bus, p.bits());
        },
    }
}

/// PLA - pull accumulator from stack.
pub fn exec_pla(cpu: &mut Cpu, bus: &mut CpuBus, step: u8)
    requires
        step < 3,
    ensures
        (*final(cpu), final(bus)@) == pla_step(*old(cpu), old(bus)@, step),
{
    match step {
        0 => {
            let _ = bus.read(cpu.pc);
        },
        1 => {
            let _ = bus.read(STACK_ADDR | cpu.s as u16);
        },
        _ => {
            let value = cpu.pop_stack(bus);
            cpu.a = value;
            cpu.p.set_zn(value);
        },
    }
}

/// PLP - pull processor status from stack; B and U are not kept.
pub fn exec_plp(cpu: &mut Cpu, bus: &mut CpuBus, step: u8)
    requires
        step < 3,
    ensures
        (*final(cpu), final(bus)@) == plp_step(*old(cpu), old(bus)@, step),
{
    match step {
        0 => {
            let _ = bus.read(cpu.pc);
        },
        1 => {
            let _ = bus.read(STACK_ADDR | cpu.s as u16);
        },
        _ => {
            let value = cpu.pop_stack(bus);
            cpu.p = Status::from_bits_truncate(value);
            cpu.p.remove(Status::UNUSED | Status::BREAK);
        },
    }
}

} // verus!
