use vstd::prelude::*;

use crate::cpu::{rd, wr, Cpu, CpuBus};
use crate::mnemonic::Mnemonic;
use crate::mnemonic::arith::keeps_control_flags;
use crate::status::{is_flag, lemma_flag_then_zn, lemma_with_flag, Status, BIT_0, BIT_7};

verus! {

/// The byte produced by shifting or rotating `v` (ASL, LSR, ROL; anything else
/// rotates right), with the carry taken from `p`.
pub open spec fn shift_result(mn: Mnemonic, v: u8, p: Status) -> u8 {
    match mn {
        Mnemonic::ASL => v << 1u8,
        Mnemonic::LSR => v >> 1u8,
        Mnemonic::ROL => (v << 1u8) | (if p.has(Status::CARRY) {
            1u8
        } else {
            0u8
        }),
        _ => (v >> 1u8) | (if p.has(Status::CARRY) {
            BIT_7
        } else {
            0u8
        }),
    }
}

/// The flags after shifting or rotating `v`: C takes the bit shifted out, N and
/// Z come from the result (LSR always clears N).
pub open spec fn shift_flags(mn: Mnemonic, v: u8, p: Status) -> Status {
    let r = shift_result(mn, v, p);
    match mn {
        Mnemonic::ASL | Mnemonic::ROL => p.with(Status::CARRY, v & BIT_7 != 0).with_zn(r),
        Mnemonic::LSR => p.with(Status::CARRY, v & BIT_0 != 0).with(Status::NEGATIVE, false).with(
            Status::ZERO,
            r == 0,
        ),
        _ => p.with(Status::CARRY, v & BIT_0 != 0).with_zn(r),
    }
}

/// The read-modify-write cycles of a shift. Cycle 0 reads M, cycle 1 writes it
/// back unchanged; cycle 2 shifts the accumulator when the opcode in flight is
/// `acc_opcode` (the accumulator form), and otherwise shifts M and writes it.
pub open spec fn shift_step(c: Cpu, m: Seq<u8>, step: u8, mn: Mnemonic, acc_opcode: u8) -> (
    Cpu,
    Seq<u8>,
) {
    if step == 0 {
        (Cpu { tmp: rd(m, c.effective_addr), ..c }, m)
    } else if step == 1 {
        (c, wr(m, c.effective_addr, c.tmp))
    } else if c.opcode_in_flight == Some(acc_opcode) {
        (Cpu { a: shift_result(mn, c.a, c.p), p: shift_flags(mn, c.a, c.p), ..c }, m)
    } else {
        let r = shift_result(mn, c.tmp, c.p);
        (Cpu { tmp: r, p: shift_flags(mn, c.tmp, c.p), ..c }, wr(m, c.effective_addr, r))
    }
}

/// Shift or rotate `v` as `mn` does, updating C, N and Z in `p`.
pub fn shift_value(p: &mut Status, mn: Mnemonic, v: u8) -> (r: u8)
    requires
        mn == Mnemonic::ASL || mn == Mnemonic::LSR || mn == Mnemonic::ROL || mn == Mnemonic::ROR,
    ensures
        r == shift_result(mn, v, *old(p)),
        *final(p) == shift_flags(mn, v, *old(p)),
        shifts(mn, v, *old(p), r, *final(p)),
{
    proof {
        lemma_shift(mn, v, *p);
    }
    match mn {
        Mnemonic::ASL => {
            p.set_c(v & BIT_7 != 0);
            let r = v << 1u8;
            p.set_zn(r);
            r
        },
        Mnemonic::LSR => {
            p.set_c(v & BIT_0 != 0);
            let r = v >> 1u8;
            p.remove(Status::NEGATIVE);
            p.set_z(r == 0);
            r
        },
        Mnemonic::ROL => {
            let r = (v << 1u8) | if p.c() {
                1
            } else {
                0
            };
            p.set_c(v & BIT_7 != 0);
            p.set_zn(r);
            r
        },
        _ => {
            let r = (v >> 1u8) | if p.c() {
                BIT_7
            } else {
                0
            };
            p.set_c(v & BIT_0 != 0);
            p.set_zn(r);
            r
        },
    }
}

/// The cycles shared by the four shifts.
fn exec_shift(cpu: &mut Cpu, bus: &mut CpuBus, step: u8, mn: Mnemonic, acc_opcode: u8)
    requires
        step < 3,
        mn == Mnemonic::ASL || mn == Mnemonic::LSR || mn == Mnemonic::ROL || mn == Mnemonic::ROR,
    ensures
        (*final(cpu), final(bus)@) == shift_step(*old(cpu), old(bus)@, step, mn, acc_opcode),
{
    match step {
        0 => {
            cpu.tmp = bus.read(cpu.effective_addr);
        },
        1 => {
            bus.write(cpu.effective_addr, cpu.tmp);
        },
        _ => {
            if cpu.opcode_in_flight == Some(acc_opcode) {
                let _ = bus.read(cpu.pc);
                let a = cpu.a;
                cpu.a = shift_value(&mut cpu.p, mn, a);
            } else {
                let v = cpu.tmp;
                cpu.tmp = shift_value(&mut cpu.p, mn, v);
                bus.write(cpu.effective_addr, cpu.tmp);
            }
        },
    }
}

/// ASL - shift left one bit (memory, or the accumulator for opcode $0A).
pub fn exec_asl(cpu: &mut Cpu, bus: &mut CpuBus, step: u8)
    requires
        step < 3,
    ensures
        (*final(cpu), final(bus)@) == shift_step(*old(cpu), old(bus)@, step, Mnemonic::ASL, 0x0A),
{
    exec_shift(cpu, bus, step, Mnemonic::ASL, 0x0A);
}

/// LSR - shift right one bit (memory, or the accumulator for opcode $4A).
pub fn exec_lsr(cpu: &mut Cpu, bus: &mut CpuBus, step: u8)
    requires
        step < 3,
    ensures
        (*final(cpu), final(bus)@) == shift_step(*old(cpu), old(bus)@, step, Mnemonic::LSR, 0x4A),
{
    exec_shift(cpu, bus, step, Mnemonic::LSR, 0x4A);
}

/// ROL - rotate left one bit through carry (memory, or the accumulator for $2A).
pub fn exec_rol(cpu: &mut Cpu, bus: &mut CpuBus, step: u8)
    requires
        step < 3,
    ensures
        (*final(cpu), final(bus)@) == shift_step(*old(cpu), old(bus)@, step, Mnemonic::ROL, 0x2A),
{
    exec_shift(cpu, bus, step, Mnemonic::ROL, 0x2A);
}

/// ROR - rotate right one bit through carry (memory, or the accumulator for $6A).
pub fn exec_ror(cpu: &mut Cpu, bus: &mut CpuBus, step: u8)
    requires
        step < 3,
    ensures
        (*final(cpu), final(bus)@) == shift_step(*old(cpu), old(bus)@, step, Mnemonic::ROR, 0x6A),
{
    exec_shift(cpu, bus, step, Mnemonic::ROR, 0x6A);
}

/// The carry flag as the number 0 or 1.
pub open spec fn carry_bit(p: Status) -> int {
    if p.has(Status::CARRY) {
        1
    } else {
        0
    }
}

/// What shifting or rotating `v` by one bit gives, `r` being the new byte and
/// `after` the new flags: ASL doubles `v` modulo 256 and moves bit 7 into C; LSR
/// halves `v` and moves bit 0 into C; ROL is ASL with the old C entering bit 0;
/// ROR is LSR with the old C entering bit 7. Z and N describe `r`; V and the
/// other flags are unchanged.
pub open spec fn shifts(mn: Mnemonic, v: u8, before: Status, r: u8, after: Status) -> bool {
    &&& mn == Mnemonic::ASL ==> r == (2 * v) % 256 && after.has(Status::CARRY) == (v >= 0x80)
    &&& mn == Mnemonic::LSR ==> r == v / 2 && after.has(Status::CARRY) == (v % 2 == 1)
    &&& mn == Mnemonic::ROL ==> r == (2 * v) % 256 + carry_bit(before) && after.has(Status::CARRY)
        == (v >= 0x80)
    &&& mn == Mnemonic::ROR ==> r == v / 2 + 128 * carry_bit(before) && after.has(Status::CARRY)
        == (v % 2 == 1)
    &&& after.has(Status::ZERO) == (r == 0)
    &&& after.has(Status::NEGATIVE) == (r >= 0x80)
    &&& after.has(Status::OVERFLOW) == before.has(Status::OVERFLOW)
    &&& keeps_control_flags(before, after)
}

/// Shifts of a byte by one bit, read as arithmetic.
pub proof fn lemma_shift_bits(v: u8)
    ensures
        (v << 1u8) as int == (2 * v) % 256,
        ((v << 1u8) | 1u8) as int == (2 * v) % 256 + 1,
        ((v << 1u8) | 0u8) == v << 1u8,
        (v >> 1u8) as int == v as int / 2,
        ((v >> 1u8) | 0x80u8) as int == v as int / 2 + 128,
        ((v >> 1u8) | 0u8) == v >> 1u8,
        (v & 0x80u8 != 0) == (v >= 0x80),
        (v & 0x01u8 != 0) == (v as int % 2 == 1),
{
    assert({
        &&& (v << 1u8) as int == (2 * v) % 256
        &&& ((v << 1u8) | 1u8) as int == (2 * v) % 256 + 1
        &&& ((v << 1u8) | 0u8) == v << 1u8
        &&& (v >> 1u8) as int == v as int / 2
        &&& ((v >> 1u8) | 0x80u8) as int == v as int / 2 + 128
        &&& ((v >> 1u8) | 0u8) == v >> 1u8
        &&& (v & 0x80u8 != 0) == (v >= 0x80)
        &&& (v & 0x01u8 != 0) == (v as int % 2 == 1)
    }) by (bit_vector);
}

/// One flag after a shift: C takes the bit shifted out, Z and N describe the
/// result, the others are unchanged.
proof fn lemma_shift_flag(mn: Mnemonic, v: u8, p: Status, f: u8)
    requires
        mn == Mnemonic::ASL || mn == Mnemonic::LSR || mn == Mnemonic::ROL || mn == Mnemonic::ROR,
        is_flag(f),
    ensures
        shift_flags(mn, v, p).has(f) == if f == Status::ZERO {
            shift_result(mn, v, p) == 0
        } else if f == Status::NEGATIVE {
            shift_result(mn, v, p) >= 0x80
        } else if f == Status::CARRY {
            if mn == Mnemonic::ASL || mn == Mnemonic::ROL {
                v >= 0x80
            } else {
                v % 2 == 1
            }
        } else {
            p.has(f)
        },
{
    lemma_shift_bits(v);
    let r = shift_result(mn, v, p);
    if mn == Mnemonic::LSR {
        let p1 = p.with(Status::CARRY, v & BIT_0 != 0);
        let p2 = p1.with(Status::NEGATIVE, false);
        lemma_with_flag(p, Status::CARRY, v & BIT_0 != 0, f);
        lemma_with_flag(p1, Status::NEGATIVE, false, f);
        lemma_with_flag(p2, Status::ZERO, r == 0, f);
    } else if mn == Mnemonic::ASL || mn == Mnemonic::ROL {
        lemma_flag_then_zn(p, Status::CARRY, v & BIT_7 != 0, r, f);
    } else {
        lemma_flag_then_zn(p, Status::CARRY, v & BIT_0 != 0, r, f);
    }
}

/// ASL, LSR, ROL and ROR shift or rotate a byte by one bit, with the carry and
/// the flags as documented.
pub proof fn lemma_shift(mn: Mnemonic, v: u8, p: Status)
    requires
        mn == Mnemonic::ASL || mn == Mnemonic::LSR || mn == Mnemonic::ROL || mn == Mnemonic::ROR,
    ensures
        shifts(mn, v, p, shift_result(mn, v, p), shift_flags(mn, v, p)),
{
    lemma_shift_bits(v);
    lemma_shift_flag(mn, v, p, Status::CARRY);
    lemma_shift_flag(mn, v, p, Status::ZERO);
    lemma_shift_flag(mn, v, p, Status::NEGATIVE);
    lemma_shift_flag(mn, v, p, Status::OVERFLOW);
    lemma_shift_flag(mn, v, p, Status::INTERRUPT);
    lemma_shift_flag(mn, v, p, Status::DECIMAL);
    lemma_shift_flag(mn, v, p, Status::BREAK);
    lemma_shift_flag(mn, v, p, Status::UNUSED);
}

/// The last cycle of a shift: in the accumulator form it shifts A; otherwise it
/// shifts the latched byte and writes the result back to the effective address.
pub proof fn lemma_shift_step(c: Cpu, m: Seq<u8>, mn: Mnemonic, acc_opcode: u8)
    requires
        mn == Mnemonic::ASL || mn == Mnemonic::LSR || mn == Mnemonic::ROL || mn == Mnemonic::ROR,
    ensures
        c.opcode_in_flight == Some(acc_opcode) ==> {
            let r = shift_step(c, m, 2, mn, acc_opcode);
            &&& shifts(mn, c.a, c.p, r.0.a, r.0.p)
            &&& r.0 == (Cpu { a: r.0.a, p: r.0.p, ..c })
            &&& r.1 == m
        },
        c.opcode_in_flight != Some(acc_opcode) ==> {
            let r = shift_step(c, m, 2, mn, acc_opcode);
            &&& shifts(mn, c.tmp, c.p, r.0.tmp, r.0.p)
            &&& r.0 == (Cpu { tmp: r.0.tmp, p: r.0.p, ..c })
            &&& r.1 == wr(m, c.effective_addr, r.0.tmp)
        },
{
    lemma_shift(mn, c.a, c.p);
    lemma_shift(mn, c.tmp, c.p);
}

} // verus!
