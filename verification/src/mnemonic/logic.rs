use vstd::prelude::*;

use crate::cpu::{rd, Cpu, CpuBus};
use crate::status::{Status, BIT_6, BIT_7};

verus! {

/// AND: `A & M -> A`; N and Z from the result.
pub open spec fn and_op(c: Cpu, m: u8) -> Cpu {
    let a = c.a & m;
    Cpu { a, p: c.p.with_zn(a), ..c }
}

/// EOR: `A ^ M -> A`; N and Z from the result.
pub open spec fn eor_op(c: Cpu, m: u8) -> Cpu {
    let a = c.a ^ m;
    Cpu { a, p: c.p.with_zn(a), ..c }
}

/// ORA: `A | M -> A`; N and Z from the result.
pub open spec fn ora_op(c: Cpu, m: u8) -> Cpu {
    let a = c.a | m;
    Cpu { a, p: c.p.with_zn(a), ..c }
}

/// BIT: Z when `A & M` is zero, N from bit 7 of M, V from bit 6 of M.
pub open spec fn bit_op(c: Cpu, m: u8) -> Cpu {
    Cpu {
        p: c.p.with(Status::ZERO, c.a & m == 0).with(Status::NEGATIVE, m & BIT_7 != 0).with(
            Status::OVERFLOW,
            m & BIT_6 != 0,
        ),
        ..c
    }
}

/// AND - AND memory with accumulator.
pub fn exec_and(cpu: &mut Cpu, bus: &mut CpuBus, step: u8)
    requires
        step < 1,
    ensures
        final(bus)@ == old(bus)@,
        *final(cpu) == and_op(*old(cpu), rd(old(bus)@, old(cpu).effective_addr)),
{
    let m = bus.read(cpu.effective_addr);
    cpu.a = cpu.a & m;
    cpu.p.set_zn(cpu.a);
}

/// BIT - test bits in memory with accumulator.
pub fn exec_bit(cpu: &mut Cpu, bus: &mut CpuBus, step: u8)
    requires
        step < 1,
    ensures
        final(bus)@ == old(bus)@,
        *final(cpu) == bit_op(*old(cpu), rd(old(bus)@, old(cpu).effective_addr)),
{
    let m = bus.read(cpu.effective_addr);
    let and = cpu.a & m;
    cpu.p.set_z(and == 0);
    cpu.p.set_n(m & BIT_7 != 0);
    cpu.p.set_v(m & BIT_6 != 0);
}

/// EOR - exclusive-OR memory with accumulator.
pub fn exec_eor(cpu: &mut Cpu, bus: &mut CpuBus, step: u8)
    requires
        step < 1,
    ensures
        final(bus)@ == old(bus)@,
        *final(cpu) == eor_op(*old(cpu), rd(old(bus)@, old(cpu).effective_addr)),
{
    let m = bus.read(cpu.effective_addr);
    cpu.a = cpu.a ^ m;
    cpu.p.set_zn(cpu.a);
}

/// ORA - OR memory with accumulator.
pub fn exec_ora(cpu: &mut Cpu, bus: &mut CpuBus, step: u8)
    requires
        step < 1,
    ensures
        final(bus)@ == old(bus)@,
        *final(cpu) == ora_op(*old(cpu), rd(old(bus)@, old(cpu).effective_addr)),
{
    let m = bus.read(cpu.effective_addr);
    cpu.a = cpu.a | m;
    cpu.p.set_zn(cpu.a);
}

} // verus!
