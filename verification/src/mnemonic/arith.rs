use vstd::prelude::*;

use crate::cpu::{rd, wr, Cpu, CpuBus};
use crate::mnemonic::shift::lemma_shift_bits;
use crate::status::{
    lemma_flag_then_zn, lemma_flags_after, lemma_with_flag, lemma_with_zn, Status, BIT_0, BIT_5,
    BIT_6, BIT_7,
};

verus! {

/// The carry flag as the number 0 or 1.
pub open spec fn carry_in(c: Cpu) -> int {
    if c.p.has(Status::CARRY) {
        1
    } else {
        0
    }
}

/// Binary add with carry: `A + M + C -> A`; C from the carry out of bit 7, V when
/// both operands have the same sign and the result's sign differs, N and Z from
/// the result.
pub open spec fn adc_op(c: Cpu, m: u8) -> Cpu {
    let sum = c.a + m + carry_in(c);
    let result = sum as u8;
    Cpu {
        a: result,
        p: c.p.with(Status::CARRY, sum > 0xFF).with(
            Status::OVERFLOW,
            (!(c.a ^ m) & (c.a ^ result) & BIT_7) != 0,
        ).with_zn(result),
        ..c
    }
}

/// Binary subtract with borrow: `A - M - !C -> A`, computed as `A + !M + C`.
pub open spec fn sbc_op(c: Cpu, m: u8) -> Cpu {
    let value = !m;
    let sum = c.a + value + carry_in(c);
    let result = sum as u8;
    Cpu {
        a: result,
        p: c.p.with(Status::OVERFLOW, ((c.a ^ result) & (value ^ result) & BIT_7) != 0).with(
            Status::CARRY,
            sum > 0xFF,
        ).with_zn(result),
        ..c
    }
}

/// ANC: `A & M -> A`; N and Z from the result, C from its bit 7.
pub open spec fn anc_op(c: Cpu, m: u8) -> Cpu {
    let a = c.a & m;
    Cpu { a, p: c.p.with_zn(a).with(Status::CARRY, a & BIT_7 != 0), ..c }
}

/// ARR: `(A & M)` rotated right through carry; N, Z from the result, V from bit 6
/// xor bit 5, C from bit 6.
pub open spec fn arr_op(c: Cpu, m: u8) -> Cpu {
    let anded = c.a & m;
    let a = (anded >> 1u8) | (if c.p.has(Status::CARRY) {
        BIT_7
    } else {
        0u8
    });
    Cpu {
        a,
        p: c.p.with(Status::NEGATIVE, a & BIT_7 != 0).with(Status::ZERO, a == 0).with(
            Status::OVERFLOW,
            ((a & BIT_6) != 0) != ((a & BIT_5) != 0),
        ).with(Status::CARRY, a & BIT_6 != 0),
        ..c
    }
}

/// ASR: `(A & M) >> 1 -> A`; C from bit 0 of `A & M`, N and Z from the result.
pub open spec fn asr_op(c: Cpu, m: u8) -> Cpu {
    let anded = c.a & m;
    let a = anded >> 1u8;
    Cpu { a, p: c.p.with(Status::CARRY, anded & BIT_0 != 0).with_zn(a), ..c }
}

/// Compare `reg` with `m`: C when `reg >= m`, N and Z from `reg - m`.
pub open spec fn compare_op(c: Cpu, reg: u8, m: u8) -> Cpu {
    Cpu { p: c.p.with(Status::CARRY, reg >= m).with_zn(reg.wrapping_sub(m)), ..c }
}

/// SBX: `(A & X) - M -> X`; C when `A & X >= M`, N and Z from the result.
pub open spec fn sbx_op(c: Cpu, m: u8) -> Cpu {
    let ax = c.a & c.x;
    let v = ax.wrapping_sub(m);
    Cpu { x: v, p: c.p.with(Status::CARRY, ax >= m).with_zn(v), ..c }
}

/// XAA with a zero magic constant: `A & X & M -> A`; N and Z from the result.
pub open spec fn xaa_op(c: Cpu, m: u8) -> Cpu {
    let a = (c.a & c.x) & m;
    Cpu { a, p: c.p.with_zn(a), ..c }
}

/// The execute cycle of ADC.
pub open spec fn adc_step(c: Cpu, m: Seq<u8>) -> (Cpu, Seq<u8>) {
    (adc_op(c, rd(m, c.effective_addr)), m)
}

/// The execute cycle of ANC.
pub open spec fn anc_step(c: Cpu, m: Seq<u8>) -> (Cpu, Seq<u8>) {
    (anc_op(c, rd(m, c.effective_addr)), m)
}

/// The execute cycle of ARR.
pub open spec fn arr_step(c: Cpu, m: Seq<u8>) -> (Cpu, Seq<u8>) {
    (arr_op(c, rd(m, c.effective_addr)), m)
}

/// The execute cycle of ASR.
pub open spec fn asr_step(c: Cpu, m: Seq<u8>) -> (Cpu, Seq<u8>) {
    (asr_op(c, rd(m, c.effective_addr)), m)
}

/// The execute cycle of CMP.
pub open spec fn cmp_step(c: Cpu, m: Seq<u8>) -> (Cpu, Seq<u8>) {
    (compare_op(c, c.a, rd(m, c.effective_addr)), m)
}

/// The execute cycle of CPX.
pub open spec fn cpx_step(c: Cpu, m: Seq<u8>) -> (Cpu, Seq<u8>) {
    (compare_op(c, c.x, rd(m, c.effective_addr)), m)
}

/// The execute cycle of CPY.
pub open spec fn cpy_step(c: Cpu, m: Seq<u8>) -> (Cpu, Seq<u8>) {
    (compare_op(c, c.y, rd(m, c.effective_addr)), m)
}

/// The execute cycle of SBC.
pub open spec fn sbc_step(c: Cpu, m: Seq<u8>) -> (Cpu, Seq<u8>) {
    (sbc_op(c, rd(m, c.effective_addr)), m)
}

/// The execute cycle of SBX.
pub open spec fn sbx_step(c: Cpu, m: Seq<u8>) -> (Cpu, Seq<u8>) {
    (sbx_op(c, rd(m, c.effective_addr)), m)
}

/// The execute cycle of XAA.
pub open spec fn xaa_step(c: Cpu, m: Seq<u8>) -> (Cpu, Seq<u8>) {
    (xaa_op(c, rd(m, c.effective_addr)), m)
}

/// The first cycle of the illegal read-modify-write instructions: latch `M`.
pub open spec fn rmw_read_step(c: Cpu, m: Seq<u8>) -> (Cpu, Seq<u8>) {
    (Cpu { base: rd(m, c.effective_addr), ..c }, m)
}

/// DCP: decrement memory, then compare A with it.
pub open spec fn dcp_step(c: Cpu, m: Seq<u8>, step: u8) -> (Cpu, Seq<u8>) {
    if step == 0 {
        rmw_read_step(c, m)
    } else if step == 1 {
        (Cpu { base: c.base.wrapping_sub(1), ..c }, wr(m, c.effective_addr, c.base))
    } else {
        (compare_op(c, c.a, c.base), wr(m, c.effective_addr, c.base))
    }
}

/// ISC: increment memory, then subtract it from A with borrow.
pub open spec fn isc_step(c: Cpu, m: Seq<u8>, step: u8) -> (Cpu, Seq<u8>) {
    if step == 0 {
        rmw_read_step(c, m)
    } else if step == 1 {
        (Cpu { base: c.base.wrapping_add(1), ..c }, wr(m, c.effective_addr, c.base))
    } else {
        let m_inv = !c.base;
        let sum = c.a + m_inv + carry_in(c);
        let result = sum as u8;
        (
            Cpu {
                a: result,
                p: c.p.with(Status::CARRY, sum > 0xFF).with(
                    Status::OVERFLOW,
                    ((c.a ^ result) & (m_inv ^ result) & BIT_7) != 0,
                ).with_zn(result),
                ..c
            },
            wr(m, c.effective_addr, c.base),
        )
    }
}

/// RLA: rotate memory left through carry, then AND it into A.
pub open spec fn rla_step(c: Cpu, m: Seq<u8>, step: u8) -> (Cpu, Seq<u8>) {
    if step == 0 {
        rmw_read_step(c, m)
    } else if step == 1 {
        (
            Cpu {
                p: c.p.with(Status::CARRY, c.base & BIT_7 != 0),
                base: (c.base << 1u8) | (if c.p.has(Status::CARRY) {
                    1u8
                } else {
                    0u8
                }),
                ..c
            },
            wr(m, c.effective_addr, c.base),
        )
    } else {
        let a = c.a & c.base;
        (Cpu { a, p: c.p.with_zn(a), ..c }, wr(m, c.effective_addr, c.base))
    }
}

/// RRA: rotate memory right through carry, then add it to A with carry.
pub open spec fn rra_step(c: Cpu, m: Seq<u8>, step: u8) -> (Cpu, Seq<u8>) {
    if step == 0 {
        rmw_read_step(c, m)
    } else if step == 1 {
        (
            Cpu {
                p: c.p.with(Status::CARRY, c.base & BIT_0 != 0),
                base: (c.base >> 1u8) | (if c.p.has(Status::CARRY) {
                    BIT_7
                } else {
                    0u8
                }),
                ..c
            },
            wr(m, c.effective_addr, c.base),
        )
    } else {
        let sum = c.a + c.base + carry_in(c);
        let result = sum as u8;
        (
            Cpu {
                a: result,
                p: c.p.with(
                    Status::OVERFLOW,
                    ((c.a ^ result) & (c.base ^ result) & BIT_7) != 0,
                ).with(Status::CARRY, sum > 0xFF).with_zn(result),
                ..c
            },
            wr(m, c.effective_addr, c.base),
        )
    }
}

/// SLO: shift memory left, then OR it into A.
pub open spec fn slo_step(c: Cpu, m: Seq<u8>, step: u8) -> (Cpu, Seq<u8>) {
    if step == 0 {
        rmw_read_step(c, m)
    } else if step == 1 {
        (
            Cpu {
                p: c.p.with(Status::CARRY, c.base & BIT_7 != 0),
                base: c.base.wrapping_mul(2),
                ..c
            },
            wr(m, c.effective_addr, c.base),
        )
    } else {
        let a = c.a | c.base;
        (Cpu { a, p: c.p.with_zn(a), ..c }, wr(m, c.effective_addr, c.base))
    }
}

/// SRE: shift memory right, then XOR it into A.
pub open spec fn sre_step(c: Cpu, m: Seq<u8>, step: u8) -> (Cpu, Seq<u8>) {
    if step == 0 {
        rmw_read_step(c, m)
    } else if step == 1 {
        (
            Cpu {
                p: c.p.with(Status::CARRY, c.base & BIT_0 != 0),
                base: c.base >> 1u8,
                ..c
            },
            wr(m, c.effective_addr, c.base),
        )
    } else {
        let a = c.a ^ c.base;
        (Cpu { a, p: c.p.with_zn(a), ..c }, wr(m, c.effective_addr, c.base))
    }
}

/// ADC - add memory to accumulator with carry (binary mode; the 2A03 has no
/// decimal mode).
pub fn exec_adc(cpu: &mut Cpu, bus: &mut CpuBus, step: u8)
    requires
        step < 1,
    ensures
        (*final(cpu), final(bus)@) == adc_step(*old(cpu), old(bus)@),
        adds_with_carry(*old(cpu), rd(old(bus)@, old(cpu).effective_addr), *final(cpu)),
{
    let ghost c0 = *cpu;
    let ghost m0 = bus@;
    let m = bus.read(cpu.effective_addr);
    let carry_in: u16 = if cpu.p.c() {
        1
    } else {
        0
    };
    let sum = cpu.a as u16 + m as u16 + carry_in;
    let result = sum as u8;
    cpu.p.set_c(sum > 0xFF);
    cpu.p.set_v((!(cpu.a ^ m) & (cpu.a ^ result) & BIT_7) != 0);
    cpu.a = result;
    cpu.p.set_zn(result);
    proof {
        lemma_adc_step(c0, m0);
    }
}

/// ANC - AND memory with accumulator, then copy N into C.
pub fn exec_anc(cpu: &mut Cpu, bus: &mut CpuBus, step: u8)
    requires
        step < 1,
    ensures
        (*final(cpu), final(bus)@) == anc_step(*old(cpu), old(bus)@),
{
    let m = bus.read(cpu.effective_addr);
    cpu.a = cpu.a & m;
    cpu.p.set_zn(cpu.a);
    cpu.p.set_c(cpu.a & BIT_7 != 0);
}

/// ARR - AND memory with accumulator, then rotate right (binary-mode flags).
pub fn exec_arr(cpu: &mut Cpu, bus: &mut CpuBus, step: u8)
    requires
        step < 1,
    ensures
        (*final(cpu), final(bus)@) == arr_step(*old(cpu), old(bus)@),
{
    let m = bus.read(cpu.effective_addr);
    cpu.a = cpu.a & m;
    let carry_in = if cpu.p.c() {
        BIT_7
    } else {
        0
    };
    cpu.a = (cpu.a >> 1u8) | carry_in;
    cpu.p.set_n(cpu.a & BIT_7 != 0);
    cpu.p.set_z(cpu.a == 0);
    cpu.p.set_v(((cpu.a & BIT_6) != 0) != ((cpu.a & BIT_5) != 0));
    cpu.p.set_c(cpu.a & BIT_6 != 0);
}

/// ASR - AND memory with accumulator, then shift right.
pub fn exec_asr(cpu: &mut Cpu, bus: &mut CpuBus, step: u8)
    requires
        step < 1,
    ensures
        (*final(cpu), final(bus)@) == asr_step(*old(cpu), old(bus)@),
{
    let m = bus.read(cpu.effective_addr);
    cpu.a = cpu.a & m;
    cpu.p.set_c(cpu.a & BIT_0 != 0);
    cpu.a = cpu.a >> 1u8;
    cpu.p.set_zn(cpu.a);
}

/// CMP - compare memory with accumulator.
pub fn exec_cmp(cpu: &mut Cpu, bus: &mut CpuBus, step: u8)
    requires
        step < 1,
    ensures
        (*final(cpu), final(bus)@) == cmp_step(*old(cpu), old(bus)@),
        compares(*old(cpu), old(cpu).a, rd(old(bus)@, old(cpu).effective_addr), *final(cpu)),
{
    let ghost c0 = *cpu;
    let ghost m0 = bus@;
    let m = bus.read(cpu.effective_addr);
    let result = cpu.a.wrapping_sub(m);
    cpu.p.set_c(cpu.a >= m);
    cpu.p.set_zn(result);
    proof {
        lemma_cmp_step(c0, m0);
    }
}

/// CPX - compare memory with index register X.
pub fn exec_cpx(cpu: &mut Cpu, bus: &mut CpuBus, step: u8)
    requires
        step < 1,
    ensures
        (*final(cpu), final(bus)@) == cpx_step(*old(cpu), old(bus)@),
        compares(*old(cpu), old(cpu).x, rd(old(bus)@, old(cpu).effective_addr), *final(cpu)),
{
    let ghost c0 = *cpu;
    let ghost m0 = bus@;
    let m = bus.read(cpu.effective_addr);
    let result = cpu.x.wrapping_sub(m);
    cpu.p.set_c(cpu.x >= m);
    cpu.p.set_zn(result);
    proof {
        lemma_cpx_step(c0, m0);
    }
}

/// CPY - compare memory with index register Y.
pub fn exec_cpy(cpu: &mut Cpu, bus: &mut CpuBus, step: u8)
    requires
        step < 1,
    ensures
        (*final(cpu), final(bus)@) == cpy_step(*old(cpu), old(bus)@),
        compares(*old(cpu), old(cpu).y, rd(old(bus)@, old(cpu).effective_addr), *final(cpu)),
{
    let ghost c0 = *cpu;
    let ghost m0 = bus@;
    let m = bus.read(cpu.effective_addr);
    let result = cpu.y.wrapping_sub(m);
    cpu.p.set_c(cpu.y >= m);
    cpu.p.set_zn(result);
    proof {
        lemma_cpy_step(c0, m0);
    }
}

/// DCP - decrement memory, then compare it with the accumulator.
pub fn exec_dcp(cpu: &mut Cpu, bus: &mut CpuBus, step: u8)
    requires
        step < 3,
    ensures
        (*final(cpu), final(bus)@) == dcp_step(*old(cpu), old(bus)@, step),
{
    match step {
        0 => {
            cpu.base = bus.read(cpu.effective_addr);
        },
        1 => {
            bus.write(cpu.effective_addr, cpu.base);
            cpu.base = cpu.base.wrapping_sub(1);
        },
        _ => {
            bus.write(cpu.effective_addr, cpu.base);
            let m = cpu.base;
            cpu.p.set_c(cpu.a >= m);
            cpu.p.set_zn(cpu.a.wrapping_sub(m));
        },
    }
}

/// ISC - increment memory, then subtract it from the accumulator with borrow.
pub fn exec_isc(cpu: &mut Cpu, bus: &mut CpuBus, step: u8)
    requires
        step < 3,
    ensures
        (*final(cpu), final(bus)@) == isc_step(*old(cpu), old(bus)@, step),
{
    match step {
        0 => {
            cpu.base = bus.read(cpu.effective_addr);
        },
        1 => {
            bus.write(cpu.effective_addr, cpu.base);
            cpu.base = cpu.base.wrapping_add(1);
        },
        _ => {
            bus.write(cpu.effective_addr, cpu.base);
            let m_inv = !cpu.base;
            let carry: u16 = if cpu.p.c() {
                1
            } else {
                0
            };
            let sum = cpu.a as u16 + m_inv as u16 + carry;
            let result = sum as u8;
            cpu.p.set_c(sum > 0xFF);
            cpu.p.set_v(((cpu.a ^ result) & (m_inv ^ result) & BIT_7) != 0);
            cpu.a = result;
            cpu.p.set_zn(result);
        },
    }
}

/// RLA - rotate memory left through carry, then AND it into the accumulator.
pub fn exec_rla(cpu: &mut Cpu, bus: &mut CpuBus, step: u8)
    requires
        step < 3,
    ensures
        (*final(cpu), final(bus)@) == rla_step(*old(cpu), old(bus)@, step),
{
    match step {
        0 => {
            cpu.base = bus.read(cpu.effective_addr);
        },
        1 => {
            bus.write(cpu.effective_addr, cpu.base);
            let m_old = cpu.base;
            let carry_in: u8 = if cpu.p.c() {
                1
            } else {
                0
            };
            cpu.p.set_c(m_old & BIT_7 != 0);
            cpu.base = (m_old << 1u8) | carry_in;
        },
        _ => {
            bus.write(cpu.effective_addr, cpu.base);
            let m_new = cpu.base;
            cpu.a = cpu.a & m_new;
            cpu.p.set_zn(cpu.a);
        },
    }
}

/// RRA - rotate memory right through carry, then add it to the accumulator.
pub fn exec_rra(cpu: &mut Cpu, bus: &mut CpuBus, step: u8)
    requires
        step < 3,
    ensures
        (*final(cpu), final(bus)@) == rra_step(*old(cpu), old(bus)@, step),
{
    match step {
        0 => {
            cpu.base = bus.read(cpu.effective_addr);
        },
        1 => {
            let m_old = cpu.base;
            bus.write(cpu.effective_addr, m_old);
            let carry_in = if cpu.p.c() {
                BIT_7
            } else {
                0
            };
            cpu.p.set_c(m_old & BIT_0 != 0);
            cpu.base = (m_old >> 1u8) | carry_in;
        },
        _ => {
            let m_prime = cpu.base;
            bus.write(cpu.effective_addr, m_prime);
            let carry: u16 = if cpu.p.c() {
                1
            } else {
                0
            };
            let sum = cpu.a as u16 + m_prime as u16 + carry;
            let result = sum as u8;
            cpu.p.set_v(((cpu.a ^ result) & (m_prime ^ result) & BIT_7) != 0);
            cpu.p.set_c(sum > 0xFF);
            cpu.a = result;
            cpu.p.set_zn(result);
        },
    }
}

/// SBC - subtract memory from accumulator with borrow.
pub fn exec_sbc(cpu: &mut Cpu, bus: &mut CpuBus, step: u8)
    requires
        step < 1,
    ensures
        (*final(cpu), final(bus)@) == sbc_step(*old(cpu), old(bus)@),
        subtracts_with_borrow(*old(cpu), rd(old(bus)@, old(cpu).effective_addr), *final(cpu)),
{
    let ghost c0 = *cpu;
    let ghost m0 = bus@;
    let m = bus.read(cpu.effective_addr);
    let carry_in: u16 = if cpu.p.c() {
        1
    } else {
        0
    };
    let value = (!m) as u16;
    let sum = cpu.a as u16 + value + carry_in;
    let result = sum as u8;
    cpu.p.set_v(((cpu.a ^ result) & (value as u8 ^ result) & BIT_7) != 0);
    cpu.p.set_c(sum > 0xFF);
    cpu.a = result;
    cpu.p.set_zn(result);
    proof {
        lemma_sbc_step(c0, m0);
    }
}

/// SBX - `(A & X) - M -> X`, setting C like a compare.
pub fn exec_sbx(cpu: &mut Cpu, bus: &mut CpuBus, step: u8)
    requires
        step < 1,
    ensures
        (*final(cpu), final(bus)@) == sbx_step(*old(cpu), old(bus)@),
{
    let m = bus.read(cpu.effective_addr);
    let value = (cpu.a & cpu.x).wrapping_sub(m);
    cpu.p.set_c((cpu.a & cpu.x) >= m);
    cpu.x = value;
    cpu.p.set_zn(cpu.x);
}

/// SLO - shift memory left, then OR it into the accumulator.
pub fn exec_slo(cpu: &mut Cpu, bus: &mut CpuBus, step: u8)
    requires
        step < 3,
    ensures
        (*final(cpu), final(bus)@) == slo_step(*old(cpu), old(bus)@, step),
{
    match step {
        0 => {
            cpu.base = bus.read(cpu.effective_addr);
        },
        1 => {
            let m_old = cpu.base;
            bus.write(cpu.effective_addr, m_old);
            cpu.p.set_c(m_old & BIT_7 != 0);
            cpu.base = m_old.wrapping_mul(2);
        },
        _ => {
            let m_prime = cpu.base;
            bus.write(cpu.effective_addr, m_prime);
            let result = cpu.a | m_prime;
            cpu.a = result;
            cpu.p.set_zn(result);
        },
    }
}

/// SRE - shift memory right, then XOR it into the accumulator.
pub fn exec_sre(cpu: &mut Cpu, bus: &mut CpuBus, step: u8)
    requires
        step < 3,
    ensures
        (*final(cpu), final(bus)@) == sre_step(*old(cpu), old(bus)@, step),
{
    match step {
        0 => {
            cpu.base = bus.read(cpu.effective_addr);
        },
        1 => {
            let m_old = cpu.base;
            bus.write(cpu.effective_addr, m_old);
            cpu.p.set_c(m_old & BIT_0 != 0);
            cpu.base = m_old >> 1u8;
        },
        _ => {
            let m_prime = cpu.base;
            bus.write(cpu.effective_addr, m_prime);
            let result = cpu.a ^ m_prime;
            cpu.a = result;
            cpu.p.set_zn(result);
        },
    }
}

/// XAA - `A & X & M -> A` (magic constant taken as zero).
pub fn exec_xaa(cpu: &mut Cpu, bus: &mut CpuBus, step: u8)
    requires
        step < 1,
    ensures
        (*final(cpu), final(bus)@) == xaa_step(*old(cpu), old(bus)@),
{
    let m = bus.read(cpu.effective_addr);
    cpu.a = (cpu.a & cpu.x) & m;
    cpu.p.set_zn(cpu.a);
}

/// The byte `v` read as a two's complement number.
pub open spec fn signed(v: u8) -> int {
    if v >= 0x80 {
        v - 256
    } else {
        v as int
    }
}

/// The borrow of a subtraction as the number 0 or 1: the complement of C.
pub open spec fn borrow_in(c: Cpu) -> int {
    1 - carry_in(c)
}

/// Whether two status values agree on the flags I, D, B and U.
pub open spec fn keeps_control_flags(before: Status, after: Status) -> bool {
    &&& after.has(Status::INTERRUPT) == before.has(Status::INTERRUPT)
    &&& after.has(Status::DECIMAL) == before.has(Status::DECIMAL)
    &&& after.has(Status::BREAK) == before.has(Status::BREAK)
    &&& after.has(Status::UNUSED) == before.has(Status::UNUSED)
}

/// What adding `v` with carry does: A becomes `A + v + C` modulo 256; C tells
/// whether that sum exceeds 255; V whether the same sum taken over the signed
/// values of A and `v` leaves -128..=127; Z and N describe the new A; nothing else
/// changes.
pub open spec fn adds_with_carry(before: Cpu, v: u8, after: Cpu) -> bool {
    let sum = before.a + v + carry_in(before);
    let signed_sum = signed(before.a) + signed(v) + carry_in(before);
    &&& after.a == sum % 256
    &&& after.p.has(Status::CARRY) == (sum > 0xFF)
    &&& after.p.has(Status::OVERFLOW) == (signed_sum < -128 || signed_sum > 127)
    &&& after.p.has(Status::ZERO) == (after.a == 0)
    &&& after.p.has(Status::NEGATIVE) == (after.a >= 0x80)
    &&& keeps_control_flags(before.p, after.p)
    &&& after == (Cpu { a: after.a, p: after.p, ..before })
}

/// What subtracting `v` with borrow does: A becomes `A - v - borrow` modulo 256,
/// the borrow being 1 exactly when C is clear; C is set exactly when that
/// difference is not negative (no borrow); V tells whether the same difference
/// taken over the signed values of A and `v` leaves -128..=127; Z and N describe
/// the new A; nothing else changes.
pub open spec fn subtracts_with_borrow(before: Cpu, v: u8, after: Cpu) -> bool {
    let diff = before.a - v - borrow_in(before);
    let signed_diff = signed(before.a) - signed(v) - borrow_in(before);
    &&& after.a == diff % 256
    &&& after.p.has(Status::CARRY) == (diff >= 0)
    &&& after.p.has(Status::OVERFLOW) == (signed_diff < -128 || signed_diff > 127)
    &&& after.p.has(Status::ZERO) == (after.a == 0)
    &&& after.p.has(Status::NEGATIVE) == (after.a >= 0x80)
    &&& keeps_control_flags(before.p, after.p)
    &&& after == (Cpu { a: after.a, p: after.p, ..before })
}

/// What comparing the register value `reg` with `v` does: C is set exactly when
/// `reg >= v` as unsigned bytes, Z exactly when they are equal, N is bit 7 of
/// `reg - v` modulo 256; V, the other flags and every register are unchanged.
pub open spec fn compares(before: Cpu, reg: u8, v: u8, after: Cpu) -> bool {
    &&& after.p.has(Status::CARRY) == (reg >= v)
    &&& after.p.has(Status::ZERO) == (reg == v)
    &&& after.p.has(Status::NEGATIVE) == ((reg - v) % 256 >= 0x80)
    &&& after.p.has(Status::OVERFLOW) == before.p.has(Status::OVERFLOW)
    &&& keeps_control_flags(before.p, after.p)
    &&& after == (Cpu { p: after.p, ..before })
}

/// A byte sum with a carry, truncated to a byte, is that sum modulo 256.
proof fn lemma_byte_sum(a: u8, b: u8, cin: u8)
    requires
        cin <= 1,
    ensures
        ((a + b + cin) as u8) as int == (a + b + cin) % 256,
{
    assert(((a + b + cin) as u8) as int == (a + b + cin) % 256) by (bit_vector)
        requires
            cin <= 1u8,
    ;
}

/// Bit 7 of the overflow tests of addition and subtraction, read as signs.
pub proof fn lemma_sign_bits(x: u8, y: u8, r: u8)
    by (bit_vector)
    ensures
        (((x ^ r) & (y ^ r) & 0x80u8) != 0) == ((x >= 0x80) != (r >= 0x80) && (y >= 0x80) != (r
            >= 0x80)),
        ((!(x ^ y) & (x ^ r) & 0x80u8) != 0) == ((x >= 0x80) == (y >= 0x80) && (x >= 0x80) != (r
            >= 0x80)),
        (((x ^ r) & (x ^ y) & 0x80u8) != 0) == ((x >= 0x80) != (r >= 0x80) && (x >= 0x80) != (y
            >= 0x80)),
        (!y) as int == 255 - y,
{
}

/// The arithmetic of `A + v + C`: its low byte is the sum modulo 256, and both
/// sign tests on it tell whether the signed sum leaves -128..=127.
proof fn lemma_add_arith(c: Cpu, v: u8)
    ensures
        ({
            let sum = c.a + v + carry_in(c);
            let r = sum as u8;
            let signed_sum = signed(c.a) + signed(v) + carry_in(c);
            &&& r == sum % 256
            &&& ((!(c.a ^ v) & (c.a ^ r) & BIT_7) != 0) == (signed_sum < -128 || signed_sum > 127)
            &&& (((c.a ^ r) & (v ^ r) & BIT_7) != 0) == (signed_sum < -128 || signed_sum > 127)
        }),
{
    let cin: u8 = if c.p.has(Status::CARRY) {
        1
    } else {
        0
    };
    lemma_byte_sum(c.a, v, cin);
    let sum = c.a + v + carry_in(c);
    let r = sum as u8;
    if sum > 0xFF {
        assert(r == sum - 256);
    } else {
        assert(r == sum);
    }
    lemma_sign_bits(c.a, v, r);
}

/// The arithmetic of `A + !v + C`: its low byte is `A - v - borrow` modulo 256,
/// it exceeds 255 exactly when that difference is not negative, and its sign test
/// tells whether the signed difference leaves -128..=127.
proof fn lemma_sub_arith(c: Cpu, v: u8)
    ensures
        ({
            let sum = c.a + !v + carry_in(c);
            let r = sum as u8;
            let diff = c.a - v - borrow_in(c);
            let signed_diff = signed(c.a) - signed(v) - borrow_in(c);
            &&& r == diff % 256
            &&& (sum > 0xFF) == (diff >= 0)
            &&& (((c.a ^ r) & (!v ^ r) & BIT_7) != 0) == (signed_diff < -128 || signed_diff > 127)
        }),
{
    let nv = !v;
    let cin: u8 = if c.p.has(Status::CARRY) {
        1
    } else {
        0
    };
    lemma_byte_sum(c.a, nv, cin);
    let sum = c.a + nv + carry_in(c);
    let r = sum as u8;
    lemma_sign_bits(c.a, v, r);
    lemma_sign_bits(c.a, nv, r);
    let diff = c.a - v - borrow_in(c);
    assert(sum == diff + 256);
    if diff >= 0 {
        assert(r == diff);
    } else {
        assert(r == sum);
    }
}

/// ADC adds the operand and the carry to A, with C, V, Z and N as documented.
pub proof fn lemma_adc_op(c: Cpu, v: u8)
    ensures
        adds_with_carry(c, v, adc_op(c, v)),
{
    lemma_add_arith(c, v);
    let r = adc_op(c, v);
    let carry = c.a + v + carry_in(c) > 0xFF;
    let overflow = (!(c.a ^ v) & (c.a ^ r.a) & BIT_7) != 0;
    lemma_flags_after(c.p, Status::CARRY, carry, Status::OVERFLOW, overflow, r.a, Status::CARRY);
    lemma_flags_after(c.p, Status::CARRY, carry, Status::OVERFLOW, overflow, r.a, Status::OVERFLOW);
    lemma_flags_after(c.p, Status::CARRY, carry, Status::OVERFLOW, overflow, r.a, Status::ZERO);
    lemma_flags_after(c.p, Status::CARRY, carry, Status::OVERFLOW, overflow, r.a, Status::NEGATIVE);
    lemma_flags_after(c.p, Status::CARRY, carry, Status::OVERFLOW, overflow, r.a, Status::INTERRUPT);
    lemma_flags_after(c.p, Status::CARRY, carry, Status::OVERFLOW, overflow, r.a, Status::DECIMAL);
    lemma_flags_after(c.p, Status::CARRY, carry, Status::OVERFLOW, overflow, r.a, Status::BREAK);
    lemma_flags_after(c.p, Status::CARRY, carry, Status::OVERFLOW, overflow, r.a, Status::UNUSED);
}

/// SBC subtracts the operand and the borrow (C complemented) from A, with C, V,
/// Z and N as documented.
pub proof fn lemma_sbc_op(c: Cpu, v: u8)
    ensures
        subtracts_with_borrow(c, v, sbc_op(c, v)),
{
    lemma_sub_arith(c, v);
    let r = sbc_op(c, v);
    let carry = c.a + !v + carry_in(c) > 0xFF;
    let overflow = ((c.a ^ r.a) & (!v ^ r.a) & BIT_7) != 0;
    lemma_flags_after(c.p, Status::OVERFLOW, overflow, Status::CARRY, carry, r.a, Status::CARRY);
    lemma_flags_after(c.p, Status::OVERFLOW, overflow, Status::CARRY, carry, r.a, Status::OVERFLOW);
    lemma_flags_after(c.p, Status::OVERFLOW, overflow, Status::CARRY, carry, r.a, Status::ZERO);
    lemma_flags_after(c.p, Status::OVERFLOW, overflow, Status::CARRY, carry, r.a, Status::NEGATIVE);
    lemma_flags_after(c.p, Status::OVERFLOW, overflow, Status::CARRY, carry, r.a, Status::INTERRUPT);
    lemma_flags_after(c.p, Status::OVERFLOW, overflow, Status::CARRY, carry, r.a, Status::DECIMAL);
    lemma_flags_after(c.p, Status::OVERFLOW, overflow, Status::CARRY, carry, r.a, Status::BREAK);
    lemma_flags_after(c.p, Status::OVERFLOW, overflow, Status::CARRY, carry, r.a, Status::UNUSED);
}

/// Comparing a register value with an operand sets C, Z and N as documented.
pub proof fn lemma_compare_op(c: Cpu, reg: u8, v: u8)
    ensures
        compares(c, reg, v, compare_op(c, reg, v)),
{
    let d = reg.wrapping_sub(v);
    let carry = reg >= v;
    if reg >= v {
        assert(d == reg - v);
    } else {
        assert(d == reg - v + 256);
    }
    lemma_flag_then_zn(c.p, Status::CARRY, carry, d, Status::CARRY);
    lemma_flag_then_zn(c.p, Status::CARRY, carry, d, Status::OVERFLOW);
    lemma_flag_then_zn(c.p, Status::CARRY, carry, d, Status::ZERO);
    lemma_flag_then_zn(c.p, Status::CARRY, carry, d, Status::NEGATIVE);
    lemma_flag_then_zn(c.p, Status::CARRY, carry, d, Status::INTERRUPT);
    lemma_flag_then_zn(c.p, Status::CARRY, carry, d, Status::DECIMAL);
    lemma_flag_then_zn(c.p, Status::CARRY, carry, d, Status::BREAK);
    lemma_flag_then_zn(c.p, Status::CARRY, carry, d, Status::UNUSED);
}

/// The execute cycle of ADC adds the byte at the effective address to A with
/// carry, and writes no memory.
pub proof fn lemma_adc_step(c: Cpu, m: Seq<u8>)
    ensures
        adds_with_carry(c, rd(m, c.effective_addr), adc_step(c, m).0),
        adc_step(c, m).1 == m,
{
    lemma_adc_op(c, rd(m, c.effective_addr));
}

/// The execute cycle of SBC subtracts the byte at the effective address from A
/// with borrow, and writes no memory.
pub proof fn lemma_sbc_step(c: Cpu, m: Seq<u8>)
    ensures
        subtracts_with_borrow(c, rd(m, c.effective_addr), sbc_step(c, m).0),
        sbc_step(c, m).1 == m,
{
    lemma_sbc_op(c, rd(m, c.effective_addr));
}

/// The execute cycle of CMP compares A with the byte at the effective address,
/// and writes no memory.
pub proof fn lemma_cmp_step(c: Cpu, m: Seq<u8>)
    ensures
        compares(c, c.a, rd(m, c.effective_addr), cmp_step(c, m).0),
        cmp_step(c, m).1 == m,
{
    lemma_compare_op(c, c.a, rd(m, c.effective_addr));
}

/// The execute cycle of CPX compares X with the byte at the effective address,
/// and writes no memory.
pub proof fn lemma_cpx_step(c: Cpu, m: Seq<u8>)
    ensures
        compares(c, c.x, rd(m, c.effective_addr), cpx_step(c, m).0),
        cpx_step(c, m).1 == m,
{
    lemma_compare_op(c, c.x, rd(m, c.effective_addr));
}

/// The execute cycle of CPY compares Y with the byte at the effective address,
/// and writes no memory.
pub proof fn lemma_cpy_step(c: Cpu, m: Seq<u8>)
    ensures
        compares(c, c.y, rd(m, c.effective_addr), cpy_step(c, m).0),
        cpy_step(c, m).1 == m,
{
    lemma_compare_op(c, c.y, rd(m, c.effective_addr));
}

/// SLO, over its three cycles, shifts the byte at the effective address left
/// (bit 7 into C), writes it back and ORs it into A; Z and N describe the new A.
pub proof fn lemma_slo_steps(c: Cpu, m: Seq<u8>)
    requires
        m.len() == 0x10000,
    ensures
        ({
            let v = rd(m, c.effective_addr);
            let r0 = slo_step(c, m, 0);
            let r1 = slo_step(r0.0, r0.1, 1);
            let r2 = slo_step(r1.0, r1.1, 2);
            let w = r2.0.base;
            &&& w == (2 * v) % 256
            &&& r2.1 == m.update(c.effective_addr as int, w)
            &&& r2.0.a == (c.a | w)
            &&& r2.0.p.has(Status::CARRY) == (v >= 0x80)
            &&& r2.0.p.has(Status::ZERO) == (r2.0.a == 0)
            &&& r2.0.p.has(Status::NEGATIVE) == (r2.0.a >= 0x80)
            &&& r2.0.p.has(Status::OVERFLOW) == c.p.has(Status::OVERFLOW)
            &&& keeps_control_flags(c.p, r2.0.p)
            &&& r2.0 == (Cpu { a: r2.0.a, p: r2.0.p, base: w, ..c })
        }),
{
    let v = rd(m, c.effective_addr);
    lemma_shift_bits(v);
    let w = v.wrapping_mul(2);
    let ea = c.effective_addr as int;
    assert(m.update(ea, v).update(ea, w) =~= m.update(ea, w));
    lemma_flag_then_zn(c.p, Status::CARRY, v & BIT_7 != 0, c.a | w, Status::CARRY);
    lemma_flag_then_zn(c.p, Status::CARRY, v & BIT_7 != 0, c.a | w, Status::OVERFLOW);
    lemma_flag_then_zn(c.p, Status::CARRY, v & BIT_7 != 0, c.a | w, Status::ZERO);
    lemma_flag_then_zn(c.p, Status::CARRY, v & BIT_7 != 0, c.a | w, Status::NEGATIVE);
    lemma_flag_then_zn(c.p, Status::CARRY, v & BIT_7 != 0, c.a | w, Status::INTERRUPT);
    lemma_flag_then_zn(c.p, Status::CARRY, v & BIT_7 != 0, c.a | w, Status::DECIMAL);
    lemma_flag_then_zn(c.p, Status::CARRY, v & BIT_7 != 0, c.a | w, Status::BREAK);
    lemma_flag_then_zn(c.p, Status::CARRY, v & BIT_7 != 0, c.a | w, Status::UNUSED);
}

/// RLA, over its three cycles, rotates the byte at the effective address left
/// through C, writes it back and ANDs it into A; Z and N describe the new A.
pub proof fn lemma_rla_steps(c: Cpu, m: Seq<u8>)
    requires
        m.len() == 0x10000,
    ensures
        ({
            let v = rd(m, c.effective_addr);
            let r0 = rla_step(c, m, 0);
            let r1 = rla_step(r0.0, r0.1, 1);
            let r2 = rla_step(r1.0, r1.1, 2);
            let w = r2.0.base;
            &&& w == (2 * v) % 256 + carry_in(c)
            &&& r2.1 == m.update(c.effective_addr as int, w)
            &&& r2.0.a == (c.a & w)
            &&& r2.0.p.has(Status::CARRY) == (v >= 0x80)
            &&& r2.0.p.has(Status::ZERO) == (r2.0.a == 0)
            &&& r2.0.p.has(Status::NEGATIVE) == (r2.0.a >= 0x80)
            &&& r2.0.p.has(Status::OVERFLOW) == c.p.has(Status::OVERFLOW)
            &&& keeps_control_flags(c.p, r2.0.p)
            &&& r2.0 == (Cpu { a: r2.0.a, p: r2.0.p, base: w, ..c })
        }),
{
    let v = rd(m, c.effective_addr);
    lemma_shift_bits(v);
    let cin: u8 = if c.p.has(Status::CARRY) {
        1
    } else {
        0
    };
    let w = (v << 1u8) | cin;
    let ea = c.effective_addr as int;
    assert(m.update(ea, v).update(ea, w) =~= m.update(ea, w));
    lemma_flag_then_zn(c.p, Status::CARRY, v & BIT_7 != 0, c.a & w, Status::CARRY);
    lemma_flag_then_zn(c.p, Status::CARRY, v & BIT_7 != 0, c.a & w, Status::OVERFLOW);
    lemma_flag_then_zn(c.p, Status::CARRY, v & BIT_7 != 0, c.a & w, Status::ZERO);
    lemma_flag_then_zn(c.p, Status::CARRY, v & BIT_7 != 0, c.a & w, Status::NEGATIVE);
    lemma_flag_then_zn(c.p, Status::CARRY, v & BIT_7 != 0, c.a & w, Status::INTERRUPT);
    lemma_flag_then_zn(c.p, Status::CARRY, v & BIT_7 != 0, c.a & w, Status::DECIMAL);
    lemma_flag_then_zn(c.p, Status::CARRY, v & BIT_7 != 0, c.a & w, Status::BREAK);
    lemma_flag_then_zn(c.p, Status::CARRY, v & BIT_7 != 0, c.a & w, Status::UNUSED);
}

/// SRE, over its three cycles, shifts the byte at the effective address right
/// (bit 0 into C), writes it back and XORs it into A; Z and N describe the new A.
pub proof fn lemma_sre_steps(c: Cpu, m: Seq<u8>)
    requires
        m.len() == 0x10000,
    ensures
        ({
            let v = rd(m, c.effective_addr);
            let r0 = sre_step(c, m, 0);
            let r1 = sre_step(r0.0, r0.1, 1);
            let r2 = sre_step(r1.0, r1.1, 2);
            let w = r2.0.base;
            &&& w == v / 2
            &&& r2.1 == m.update(c.effective_addr as int, w)
            &&& r2.0.a == (c.a ^ w)
            &&& r2.0.p.has(Status::CARRY) == (v % 2 == 1)
            &&& r2.0.p.has(Status::ZERO) == (r2.0.a == 0)
            &&& r2.0.p.has(Status::NEGATIVE) == (r2.0.a >= 0x80)
            &&& r2.0.p.has(Status::OVERFLOW) == c.p.has(Status::OVERFLOW)
            &&& keeps_control_flags(c.p, r2.0.p)
            &&& r2.0 == (Cpu { a: r2.0.a, p: r2.0.p, base: w, ..c })
        }),
{
    let v = rd(m, c.effective_addr);
    lemma_shift_bits(v);
    let w = v >> 1u8;
    let ea = c.effective_addr as int;
    assert(m.update(ea, v).update(ea, w) =~= m.update(ea, w));
    lemma_flag_then_zn(c.p, Status::CARRY, v & BIT_0 != 0, c.a ^ w, Status::CARRY);
    lemma_flag_then_zn(c.p, Status::CARRY, v & BIT_0 != 0, c.a ^ w, Status::OVERFLOW);
    lemma_flag_then_zn(c.p, Status::CARRY, v & BIT_0 != 0, c.a ^ w, Status::ZERO);
    lemma_flag_then_zn(c.p, Status::CARRY, v & BIT_0 != 0, c.a ^ w, Status::NEGATIVE);
    lemma_flag_then_zn(c.p, Status::CARRY, v & BIT_0 != 0, c.a ^ w, Status::INTERRUPT);
    lemma_flag_then_zn(c.p, Status::CARRY, v & BIT_0 != 0, c.a ^ w, Status::DECIMAL);
    lemma_flag_then_zn(c.p, Status::CARRY, v & BIT_0 != 0, c.a ^ w, Status::BREAK);
    lemma_flag_then_zn(c.p, Status::CARRY, v & BIT_0 != 0, c.a ^ w, Status::UNUSED);
}

/// RRA, over its three cycles, rotates the byte at the effective address right
/// through C (bit 0 into C), writes it back and adds it to A with that carry.
pub proof fn lemma_rra_steps(c: Cpu, m: Seq<u8>)
    requires
        m.len() == 0x10000,
    ensures
        ({
            let v = rd(m, c.effective_addr);
            let r0 = rra_step(c, m, 0);
            let r1 = rra_step(r0.0, r0.1, 1);
            let r2 = rra_step(r1.0, r1.1, 2);
            let w = r2.0.base;
            &&& w == v / 2 + 128 * carry_in(c)
            &&& r2.1 == m.update(c.effective_addr as int, w)
            &&& adds_with_carry(
                Cpu { base: w, p: c.p.with(Status::CARRY, v % 2 == 1), ..c },
                w,
                r2.0,
            )
        }),
{
    let v = rd(m, c.effective_addr);
    lemma_shift_bits(v);
    let hi: u8 = if c.p.has(Status::CARRY) {
        BIT_7
    } else {
        0
    };
    let w = (v >> 1u8) | hi;
    let ea = c.effective_addr as int;
    assert(m.update(ea, v).update(ea, w) =~= m.update(ea, w));
    let c1 = Cpu { base: w, p: c.p.with(Status::CARRY, v & BIT_0 != 0), ..c };
    lemma_add_arith(c1, w);
    let sum = c1.a + w + carry_in(c1);
    let r = sum as u8;
    let overflow = ((c1.a ^ r) & (w ^ r) & BIT_7) != 0;
    lemma_flags_after(c1.p, Status::OVERFLOW, overflow, Status::CARRY, sum > 0xFF, r, Status::CARRY);
    lemma_flags_after(c1.p, Status::OVERFLOW, overflow, Status::CARRY, sum > 0xFF, r, Status::OVERFLOW);
    lemma_flags_after(c1.p, Status::OVERFLOW, overflow, Status::CARRY, sum > 0xFF, r, Status::ZERO);
    lemma_flags_after(c1.p, Status::OVERFLOW, overflow, Status::CARRY, sum > 0xFF, r, Status::NEGATIVE);
    lemma_flags_after(c1.p, Status::OVERFLOW, overflow, Status::CARRY, sum > 0xFF, r, Status::INTERRUPT);
    lemma_flags_after(c1.p, Status::OVERFLOW, overflow, Status::CARRY, sum > 0xFF, r, Status::DECIMAL);
    lemma_flags_after(c1.p, Status::OVERFLOW, overflow, Status::CARRY, sum > 0xFF, r, Status::BREAK);
    lemma_flags_after(c1.p, Status::OVERFLOW, overflow, Status::CARRY, sum > 0xFF, r, Status::UNUSED);
}

/// DCP, over its three cycles, decrements the byte at the effective address
/// (modulo 256), writes it back and compares A with it.
pub proof fn lemma_dcp_steps(c: Cpu, m: Seq<u8>)
    requires
        m.len() == 0x10000,
    ensures
        ({
            let v = rd(m, c.effective_addr);
            let r0 = dcp_step(c, m, 0);
            let r1 = dcp_step(r0.0, r0.1, 1);
            let r2 = dcp_step(r1.0, r1.1, 2);
            let w = r2.0.base;
            &&& w == (v - 1) % 256
            &&& r2.1 == m.update(c.effective_addr as int, w)
            &&& compares(Cpu { base: w, ..c }, c.a, w, r2.0)
        }),
{
    let v = rd(m, c.effective_addr);
    let w = v.wrapping_sub(1);
    let ea = c.effective_addr as int;
    assert(m.update(ea, v).update(ea, w) =~= m.update(ea, w));
    lemma_compare_op(Cpu { base: w, ..c }, c.a, w);
}

/// ISC, over its three cycles, increments the byte at the effective address
/// (modulo 256), writes it back and subtracts it from A with borrow.
pub proof fn lemma_isc_steps(c: Cpu, m: Seq<u8>)
    requires
        m.len() == 0x10000,
    ensures
        ({
            let v = rd(m, c.effective_addr);
            let r0 = isc_step(c, m, 0);
            let r1 = isc_step(r0.0, r0.1, 1);
            let r2 = isc_step(r1.0, r1.1, 2);
            let w = r2.0.base;
            &&& w == (v + 1) % 256
            &&& r2.1 == m.update(c.effective_addr as int, w)
            &&& subtracts_with_borrow(Cpu { base: w, ..c }, w, r2.0)
        }),
{
    let v = rd(m, c.effective_addr);
    let w = v.wrapping_add(1);
    let ea = c.effective_addr as int;
    assert(m.update(ea, v).update(ea, w) =~= m.update(ea, w));
    let c1 = Cpu { base: w, ..c };
    lemma_sub_arith(c1, w);
    let sum = c1.a + !w + carry_in(c1);
    let r = sum as u8;
    let overflow = ((c1.a ^ r) & (!w ^ r) & BIT_7) != 0;
    lemma_flags_after(c1.p, Status::CARRY, sum > 0xFF, Status::OVERFLOW, overflow, r, Status::CARRY);
    lemma_flags_after(c1.p, Status::CARRY, sum > 0xFF, Status::OVERFLOW, overflow, r, Status::OVERFLOW);
    lemma_flags_after(c1.p, Status::CARRY, sum > 0xFF, Status::OVERFLOW, overflow, r, Status::ZERO);
    lemma_flags_after(c1.p, Status::CARRY, sum > 0xFF, Status::OVERFLOW, overflow, r, Status::NEGATIVE);
    lemma_flags_after(c1.p, Status::CARRY, sum > 0xFF, Status::OVERFLOW, overflow, r, Status::INTERRUPT);
    lemma_flags_after(c1.p, Status::CARRY, sum > 0xFF, Status::OVERFLOW, overflow, r, Status::DECIMAL);
    lemma_flags_after(c1.p, Status::CARRY, sum > 0xFF, Status::OVERFLOW, overflow, r, Status::BREAK);
    lemma_flags_after(c1.p, Status::CARRY, sum > 0xFF, Status::OVERFLOW, overflow, r, Status::UNUSED);
}

/// The undocumented immediate operations: ANC ANDs the operand into A and copies
/// the new bit 7 into C; ASR ANDs it into A and shifts A right, bit 0 into C;
/// ARR ANDs it into A and rotates A right through C, then takes C from bit 6 and
/// V from bit 6 xor bit 5; SBX sets X to `(A & X) - v` modulo 256 with C as a
/// compare would set it; XAA (with a zero magic constant) sets A to `A & X & v`.
/// Each sets Z and N from its result.
pub proof fn lemma_combined_immediates(c: Cpu, v: u8)
    ensures
        ({
            let r = anc_op(c, v);
            &&& r.a == c.a & v
            &&& r.p.has(Status::CARRY) == (r.a >= 0x80)
            &&& r.p.has(Status::ZERO) == (r.a == 0)
            &&& r.p.has(Status::NEGATIVE) == (r.a >= 0x80)
            &&& r.p.has(Status::OVERFLOW) == c.p.has(Status::OVERFLOW)
            &&& keeps_control_flags(c.p, r.p)
            &&& r == (Cpu { a: r.a, p: r.p, ..c })
        }),
        ({
            let r = asr_op(c, v);
            &&& r.a == (c.a & v) / 2
            &&& r.p.has(Status::CARRY) == ((c.a & v) % 2 == 1)
            &&& r.p.has(Status::ZERO) == (r.a == 0)
            &&& r.p.has(Status::NEGATIVE) == (r.a >= 0x80)
            &&& r.p.has(Status::OVERFLOW) == c.p.has(Status::OVERFLOW)
            &&& keeps_control_flags(c.p, r.p)
            &&& r == (Cpu { a: r.a, p: r.p, ..c })
        }),
        ({
            let r = arr_op(c, v);
            &&& r.a == (c.a & v) / 2 + 128 * carry_in(c)
            &&& r.p.has(Status::CARRY) == ((r.a / 64) % 2 == 1)
            &&& r.p.has(Status::OVERFLOW) == ((r.a / 64) % 2 != (r.a / 32) % 2)
            &&& r.p.has(Status::ZERO) == (r.a == 0)
            &&& r.p.has(Status::NEGATIVE) == (r.a >= 0x80)
            &&& keeps_control_flags(c.p, r.p)
            &&& r == (Cpu { a: r.a, p: r.p, ..c })
        }),
        ({
            let r = sbx_op(c, v);
            &&& r.x == ((c.a & c.x) - v) % 256
            &&& r.p.has(Status::CARRY) == ((c.a & c.x) >= v)
            &&& r.p.has(Status::ZERO) == (r.x == 0)
            &&& r.p.has(Status::NEGATIVE) == (r.x >= 0x80)
            &&& r.p.has(Status::OVERFLOW) == c.p.has(Status::OVERFLOW)
            &&& keeps_control_flags(c.p, r.p)
            &&& r == (Cpu { x: r.x, p: r.p, ..c })
        }),
        ({
            let r = xaa_op(c, v);
            &&& r.a == c.a & c.x & v
            &&& r.p.has(Status::ZERO) == (r.a == 0)
            &&& r.p.has(Status::NEGATIVE) == (r.a >= 0x80)
            &&& r.p.has(Status::CARRY) == c.p.has(Status::CARRY)
            &&& r.p.has(Status::OVERFLOW) == c.p.has(Status::OVERFLOW)
            &&& keeps_control_flags(c.p, r.p)
            &&& r == (Cpu { a: r.a, p: r.p, ..c })
        }),
{
    let t = c.a & v;
    lemma_shift_bits(t);
    // ANC
    let anc = t;
    lemma_with_zn(c.p, anc, Status::CARRY);
    lemma_with_flag(c.p.with_zn(anc), Status::CARRY, anc & BIT_7 != 0, Status::CARRY);
    lemma_with_zn(c.p, anc, Status::OVERFLOW);
    lemma_with_flag(c.p.with_zn(anc), Status::CARRY, anc & BIT_7 != 0, Status::OVERFLOW);
    lemma_with_zn(c.p, anc, Status::ZERO);
    lemma_with_flag(c.p.with_zn(anc), Status::CARRY, anc & BIT_7 != 0, Status::ZERO);
    lemma_with_zn(c.p, anc, Status::NEGATIVE);
    lemma_with_flag(c.p.with_zn(anc), Status::CARRY, anc & BIT_7 != 0, Status::NEGATIVE);
    lemma_with_zn(c.p, anc, Status::INTERRUPT);
    lemma_with_flag(c.p.with_zn(anc), Status::CARRY, anc & BIT_7 != 0, Status::INTERRUPT);
    lemma_with_zn(c.p, anc, Status::DECIMAL);
    lemma_with_flag(c.p.with_zn(anc), Status::CARRY, anc & BIT_7 != 0, Status::DECIMAL);
    lemma_with_zn(c.p, anc, Status::BREAK);
    lemma_with_flag(c.p.with_zn(anc), Status::CARRY, anc & BIT_7 != 0, Status::BREAK);
    lemma_with_zn(c.p, anc, Status::UNUSED);
    lemma_with_flag(c.p.with_zn(anc), Status::CARRY, anc & BIT_7 != 0, Status::UNUSED);
    // ASR
    let asr = t >> 1u8;
    lemma_flag_then_zn(c.p, Status::CARRY, t & BIT_0 != 0, asr, Status::CARRY);
    lemma_flag_then_zn(c.p, Status::CARRY, t & BIT_0 != 0, asr, Status::OVERFLOW);
    lemma_flag_then_zn(c.p, Status::CARRY, t & BIT_0 != 0, asr, Status::ZERO);
    lemma_flag_then_zn(c.p, Status::CARRY, t & BIT_0 != 0, asr, Status::NEGATIVE);
    lemma_flag_then_zn(c.p, Status::CARRY, t & BIT_0 != 0, asr, Status::INTERRUPT);
    lemma_flag_then_zn(c.p, Status::CARRY, t & BIT_0 != 0, asr, Status::DECIMAL);
    lemma_flag_then_zn(c.p, Status::CARRY, t & BIT_0 != 0, asr, Status::BREAK);
    lemma_flag_then_zn(c.p, Status::CARRY, t & BIT_0 != 0, asr, Status::UNUSED);
    // ARR
    let hi: u8 = if c.p.has(Status::CARRY) {
        BIT_7
    } else {
        0
    };
    let a = (t >> 1u8) | hi;
    assert((a & 0x40u8 != 0) == ((a / 64) % 2 == 1) && (a & 0x20u8 != 0) == ((a / 32) % 2 == 1)
        && (a & 0x80u8 != 0) == (a >= 0x80)) by (bit_vector);
    let p1 = c.p.with(Status::NEGATIVE, a & BIT_7 != 0);
    let p2 = p1.with(Status::ZERO, a == 0);
    let p3 = p2.with(Status::OVERFLOW, ((a & BIT_6) != 0) != ((a & BIT_5) != 0));
    lemma_with_flag(c.p, Status::NEGATIVE, a & BIT_7 != 0, Status::CARRY);
    lemma_with_flag(p1, Status::ZERO, a == 0, Status::CARRY);
    lemma_with_flag(p2, Status::OVERFLOW, ((a & BIT_6) != 0) != ((a & BIT_5) != 0), Status::CARRY);
    lemma_with_flag(p3, Status::CARRY, a & BIT_6 != 0, Status::CARRY);
    lemma_with_flag(c.p, Status::NEGATIVE, a & BIT_7 != 0, Status::OVERFLOW);
    lemma_with_flag(p1, Status::ZERO, a == 0, Status::OVERFLOW);
    lemma_with_flag(p2, Status::OVERFLOW, ((a & BIT_6) != 0) != ((a & BIT_5) != 0), Status::OVERFLOW);
    lemma_with_flag(p3, Status::CARRY, a & BIT_6 != 0, Status::OVERFLOW);
    lemma_with_flag(c.p, Status::NEGATIVE, a & BIT_7 != 0, Status::ZERO);
    lemma_with_flag(p1, Status::ZERO, a == 0, Status::ZERO);
    lemma_with_flag(p2, Status::OVERFLOW, ((a & BIT_6) != 0) != ((a & BIT_5) != 0), Status::ZERO);
    lemma_with_flag(p3, Status::CARRY, a & BIT_6 != 0, Status::ZERO);
    lemma_with_flag(c.p, Status::NEGATIVE, a & BIT_7 != 0, Status::NEGATIVE);
    lemma_with_flag(p1, Status::ZERO, a == 0, Status::NEGATIVE);
    lemma_with_flag(p2, Status::OVERFLOW, ((a & BIT_6) != 0) != ((a & BIT_5) != 0), Status::NEGATIVE);
    lemma_with_flag(p3, Status::CARRY, a & BIT_6 != 0, Status::NEGATIVE);
    lemma_with_flag(c.p, Status::NEGATIVE, a & BIT_7 != 0, Status::INTERRUPT);
    lemma_with_flag(p1, Status::ZERO, a == 0, Status::INTERRUPT);
    lemma_with_flag(p2, Status::OVERFLOW, ((a & BIT_6) != 0) != ((a & BIT_5) != 0), Status::INTERRUPT);
    lemma_with_flag(p3, Status::CARRY, a & BIT_6 != 0, Status::INTERRUPT);
    lemma_with_flag(c.p, Status::NEGATIVE, a & BIT_7 != 0, Status::DECIMAL);
    lemma_with_flag(p1, Status::ZERO, a == 0, Status::DECIMAL);
    lemma_with_flag(p2, Status::OVERFLOW, ((a & BIT_6) != 0) != ((a & BIT_5) != 0), Status::DECIMAL);
    lemma_with_flag(p3, Status::CARRY, a & BIT_6 != 0, Status::DECIMAL);
    lemma_with_flag(c.p, Status::NEGATIVE, a & BIT_7 != 0, Status::BREAK);
    lemma_with_flag(p1, Status::ZERO, a == 0, Status::BREAK);
    lemma_with_flag(p2, Status::OVERFLOW, ((a & BIT_6) != 0) != ((a & BIT_5) != 0), Status::BREAK);
    lemma_with_flag(p3, Status::CARRY, a & BIT_6 != 0, Status::BREAK);
    lemma_with_flag(c.p, Status::NEGATIVE, a & BIT_7 != 0, Status::UNUSED);
    lemma_with_flag(p1, Status::ZERO, a == 0, Status::UNUSED);
    lemma_with_flag(p2, Status::OVERFLOW, ((a & BIT_6) != 0) != ((a & BIT_5) != 0), Status::UNUSED);
    lemma_with_flag(p3, Status::CARRY, a & BIT_6 != 0, Status::UNUSED);
    // SBX
    let ax = c.a & c.x;
    let d = ax.wrapping_sub(v);
    lemma_flag_then_zn(c.p, Status::CARRY, ax >= v, d, Status::CARRY);
    lemma_flag_then_zn(c.p, Status::CARRY, ax >= v, d, Status::OVERFLOW);
    lemma_flag_then_zn(c.p, Status::CARRY, ax >= v, d, Status::ZERO);
    lemma_flag_then_zn(c.p, Status::CARRY, ax >= v, d, Status::NEGATIVE);
    lemma_flag_then_zn(c.p, Status::CARRY, ax >= v, d, Status::INTERRUPT);
    lemma_flag_then_zn(c.p, Status::CARRY, ax >= v, d, Status::DECIMAL);
    lemma_flag_then_zn(c.p, Status::CARRY, ax >= v, d, Status::BREAK);
    lemma_flag_then_zn(c.p, Status::CARRY, ax >= v, d, Status::UNUSED);
    // XAA
    let x = (c.a & c.x) & v;
    assert(x == c.a & c.x & v);
    lemma_with_zn(c.p, x, Status::CARRY);
    lemma_with_zn(c.p, x, Status::OVERFLOW);
    lemma_with_zn(c.p, x, Status::INTERRUPT);
    lemma_with_zn(c.p, x, Status::DECIMAL);
    lemma_with_zn(c.p, x, Status::BREAK);
    lemma_with_zn(c.p, x, Status::UNUSED);
}

} // verus!
