use vstd::prelude::*;

use crate::cpu::{
    pop_value, popped, push_spec, rd, word, Cpu, CpuBus, IRQ_VECTOR_HI, IRQ_VECTOR_LO,
    NMI_VECTOR_HI, NMI_VECTOR_LO, STACK_ADDR, wr,
};
use crate::mnemonic::{run_steps, Mnemonic};
use crate::status::Status;

verus! {

/// The cycles of BRK after its padding byte.
///
/// It pushes `pc + 1` (high byte first) and the status with B and U set, sets I,
/// and loads the program counter from the NMI vector when an NMI is latched
/// (clearing the latch), from the IRQ vector otherwise.
pub open spec fn brk_step(c: Cpu, m: Seq<u8>, step: u8) -> (Cpu, Seq<u8>) {
    let ret = c.pc.wrapping_add(1);
    if step == 0 {
        (c, m)
    } else if step == 1 {
        push_spec(c, m, (ret >> 8) as u8)
    } else if step == 2 {
        let (c1, m1) = push_spec(c, m, (ret & 0xFF) as u8);
        if c1.nmi_latch {
            (Cpu { nmi_latch: false, effective_addr: NMI_VECTOR_LO, ..c1 }, m1)
        } else {
            (Cpu { effective_addr: IRQ_VECTOR_LO, ..c1 }, m1)
        }
    } else if step == 3 {
        let (c1, m1) = push_spec(c, m, c.p.with(Status::BREAK | Status::UNUSED, true).bits);
        (Cpu { p: c1.p.with(Status::INTERRUPT, true), ..c1 }, m1)
    } else if step == 4 {
        (
            Cpu {
                tmp: rd(m, c.effective_addr),
                effective_addr: if c.effective_addr == NMI_VECTOR_LO {
                    NMI_VECTOR_HI
                } else {
                    IRQ_VECTOR_HI
                },
                ..c
            },
            m,
        )
    } else {
        (Cpu { pc: word(c.tmp, rd(m, c.effective_addr)), prev_nmi_latch: false, ..c }, m)
    }
}

/// The cycles of JSR: fetch the target's low byte, push the address of the
/// target's high byte (high byte first), then fetch the high byte and jump.
pub open spec fn jsr_step(c: Cpu, m: Seq<u8>, step: u8) -> (Cpu, Seq<u8>) {
    if step == 0 {
        (Cpu { tmp: rd(m, c.pc), pc: c.next_pc(), ..c }, m)
    } else if step == 1 {
        (Cpu { effective_addr: c.pc, ..c }, m)
    } else if step == 2 {
        push_spec(c, m, (c.effective_addr >> 8) as u8)
    } else if step == 3 {
        push_spec(c, m, c.effective_addr as u8)
    } else {
        (Cpu { pc: word(c.tmp, rd(m, c.pc)), ..c }, m)
    }
}

/// The cycles of RTI: pull the status (ignoring B and U), then the program counter.
pub open spec fn rti_step(c: Cpu, m: Seq<u8>, step: u8) -> (Cpu, Seq<u8>) {
    if step == 0 || step == 1 {
        (c, m)
    } else if step == 2 {
        let c1 = popped(c);
        (
            Cpu {
                p: Status { bits: pop_value(c, m) }.with(Status::UNUSED | Status::BREAK, false),
                ..c1
            },
            m,
        )
    } else if step == 3 {
        (Cpu { tmp: pop_value(c, m), ..popped(c) }, m)
    } else {
        (Cpu { pc: word(c.tmp, pop_value(c, m)), ..popped(c) }, m)
    }
}

/// The cycles of RTS: pull the return address and continue one byte after it.
pub open spec fn rts_step(c: Cpu, m: Seq<u8>, step: u8) -> (Cpu, Seq<u8>) {
    if step == 0 || step == 1 {
        (c, m)
    } else if step == 2 {
        (Cpu { tmp: pop_value(c, m), ..popped(c) }, m)
    } else if step == 3 {
        (Cpu { effective_addr: word(c.tmp, pop_value(c, m)), ..popped(c) }, m)
    } else {
        (Cpu { pc: c.effective_addr.wrapping_add(1), ..c }, m)
    }
}

/// BRK - force break: push PC + 1 and P (with B and U), set I, jump through the
/// interrupt vector. The return address wraps at 16 bits.
pub fn exec_brk(cpu: &mut Cpu, bus: &mut CpuBus, step: u8)
    requires
        step < 6,
    ensures
        (*final(cpu), final(bus)@) == brk_step(*old(cpu), old(bus)@, step),
{
    match step {
        0 => {
            let _ = bus.read(cpu.pc);
        },
        1 => {
            let pc_hi = (cpu.pc.wrapping_add(1) >> 8) as u8;
            cpu.push_stack(bus, pc_hi);
        },
        2 => {
            let pc_lo = (cpu.pc.wrapping_add(1) & 0xFF) as u8;
            cpu.push_stack(bus, pc_lo);
            if cpu.nmi_latch {
                cpu.nmi_latch = false;
                cpu.effective_addr = NMI_VECTOR_LO;
            } else {
                cpu.effective_addr = IRQ_VECTOR_LO;
            }
        },
        3 => {
            let p_with_b_u = cpu.p.union(Status::BREAK | Status::UNUSED);
            cpu.push_stack(bus, p_with_b_u.bits());
            cpu.p.insert(Status::INTERRUPT);
        },
        4 => {
            cpu.tmp = bus.read(cpu.effective_addr);
            if cpu.effective_addr == NMI_VECTOR_LO {
                cpu.effective_addr = NMI_VECTOR_HI;
            } else {
                cpu.effective_addr = IRQ_VECTOR_HI;
            }
        },
        _ => {
            let high_byte = bus.read(cpu.effective_addr);
            cpu.pc = ((high_byte as u16) << 8) | (cpu.tmp as u16);
            cpu.prev_nmi_latch = false;
        },
    }
}

/// JMP - its work is done by the addressing cycles; it has no execute cycle.
pub fn exec_jmp(cpu: &mut Cpu, bus: &mut CpuBus, step: u8)
    requires
        step < 0,
{
}

/// JSR - jump to subroutine, pushing the address of the operand's last byte.
pub fn exec_jsr(cpu: &mut Cpu, bus: &mut CpuBus, step: u8)
    requires
        step < 5,
    ensures
        (*final(cpu), final(bus)@) == jsr_step(*old(cpu), old(bus)@, step),
{
    match step {
        0 => {
            cpu.tmp = cpu.fetch_u8(bus);
        },
        1 => {
            let return_pc = cpu.pc;
            cpu.effective_addr = return_pc;
            let _ = bus.read(STACK_ADDR.wrapping_add(cpu.s as u16));
        },
        2 => {
            let pc_hi = (cpu.effective_addr >> 8) as u8;
            cpu.push_stack(bus, pc_hi);
        },
        3 => {
            let pc_lo = cpu.effective_addr as u8;
            cpu.push_stack(bus, pc_lo);
        },
        _ => {
            let hi_byte = bus.read(cpu.pc) as u16;
            let lo_byte = cpu.tmp as u16;
            cpu.pc = (hi_byte << 8) | lo_byte;
        },
    }
}

/// RTI - return from interrupt: pull P (B and U cleared), then PC.
pub fn exec_rti(cpu: &mut Cpu, bus: &mut CpuBus, step: u8)
    requires
        step < 5,
    ensures
        (*final(cpu), final(bus)@) == rti_step(*old(cpu), old(bus)@, step),
{
    match step {
        0 => {
            let _ = bus.read(cpu.pc);
        },
        1 => {
            let _ = bus.read(STACK_ADDR.wrapping_add(cpu.s as u16));
        },
        2 => {
            let p_bits = cpu.pop_stack(bus);
            cpu.p = Status::from_bits_truncate(p_bits);
            cpu.p.remove(Status::UNUSED | Status::BREAK);
        },
        3 => {
            cpu.tmp = cpu.pop_stack(bus);
        },
        _ => {
            let hi_byte = cpu.pop_stack(bus) as u16;
            cpu.pc = (hi_byte << 8) | (cpu.tmp as u16);
        },
    }
}

/// RTS - return from subroutine: pull PC and add one.
pub fn exec_rts(cpu: &mut Cpu, bus: &mut CpuBus, step: u8)
    requires
        step < 5,
    ensures
        (*final(cpu), final(bus)@) == rts_step(*old(cpu), old(bus)@, step),
{
    match step {
        0 => {
            let _ = bus.read(cpu.pc);
        },
        1 => {
            let _ = bus.read(STACK_ADDR.wrapping_add(cpu.s as u16));
        },
        2 => {
            cpu.tmp = cpu.pop_stack(bus);
        },
        3 => {
            let hi_byte = cpu.pop_stack(bus) as u16;
            cpu.effective_addr = (hi_byte << 8) | (cpu.tmp as u16);
        },
        _ => {
            let _ = bus.read(cpu.effective_addr);
            cpu.pc = cpu.effective_addr.wrapping_add(1);
        },
    }
}


/// JSR's execute cycles (PC on the first operand byte) followed by RTS's
/// return to the byte after the JSR instruction, with S as it was: JSR pushes
/// the address of its last byte, and RTS continues one byte past the address
/// it pulls (`m` being the image of the whole address space).
pub proof fn lemma_jsr_rts_roundtrip(c: Cpu, m: Seq<u8>)
    requires
        m.len() == 0x10000,
    ensures
        ({
            let (c1, m1) = run_steps(Mnemonic::JSR, c, m, 5);
            let (c2, m2) = run_steps(Mnemonic::RTS, c1, m1, 5);
            &&& c2.pc == c.pc.wrapping_add(2)
            &&& c2.s == c.s
            &&& c1.s == c.s.wrapping_sub(2)
            &&& m2 == m1
        }),
{
    let mn = Mnemonic::JSR;
    assert(run_steps(mn, c, m, 0) == (c, m));
    let (j1, n1) = run_steps(mn, c, m, 1);
    assert(j1.pc == c.pc.wrapping_add(1) && n1 == m && j1.s == c.s);
    let (j2, n2) = run_steps(mn, c, m, 2);
    assert(j2.effective_addr == c.pc.wrapping_add(1) && n2 == m && j2.s == c.s);
    let (j3, n3) = run_steps(mn, c, m, 3);
    let ret = c.pc.wrapping_add(1);
    assert(j3.s == c.s.wrapping_sub(1) && n3 == wr(m, j2.stack_top(), (ret >> 8) as u8));
    let (j4, n4) = run_steps(mn, c, m, 4);
    assert(j4.s == c.s.wrapping_sub(1).wrapping_sub(1) && n4 == wr(n3, j3.stack_top(), ret as u8));
    let (j5, n5) = run_steps(mn, c, m, 5);
    assert(j5.s == j4.s && n5 == n4);
    let r = Mnemonic::RTS;
    assert(run_steps(r, j5, n5, 0) == (j5, n5));
    let (r1, p1) = run_steps(r, j5, n5, 1);
    let (r2, p2) = run_steps(r, j5, n5, 2);
    assert(r2 == j5 && p2 == n5);
    let (r3, p3) = run_steps(r, j5, n5, 3);
    assert(r3.s == j5.s.wrapping_add(1) && r3.tmp == ret as u8);
    let (r4, p4) = run_steps(r, j5, n5, 4);
    assert(r4.s == c.s && r4.effective_addr == word(ret as u8, (ret >> 8) as u8));
    assert(word(ret as u8, (ret >> 8) as u8) == ret) by (bit_vector);
    let (r5, p5) = run_steps(r, j5, n5, 5);
    assert(r5.pc == ret.wrapping_add(1));
}


/// BRK's execute cycles (PC on the padding byte after the opcode) followed by
/// RTI's give back S, P with B and U clear, and PC two bytes past the BRK
/// opcode (`m` being the image of the whole address space).
pub proof fn lemma_brk_rti_roundtrip(c: Cpu, m: Seq<u8>)
    requires
        m.len() == 0x10000,
    ensures
        ({
            let (c1, m1) = run_steps(Mnemonic::BRK, c, m, 6);
            let (c2, m2) = run_steps(Mnemonic::RTI, c1, m1, 5);
            &&& c2.pc == c.pc.wrapping_add(1)
            &&& c2.s == c.s
            &&& c2.p == c.p.with(Status::BREAK | Status::UNUSED, false)
            &&& c1.p.has(Status::INTERRUPT)
            &&& c1.s == c.s.wrapping_sub(3)
        }),
{
    let mn = Mnemonic::BRK;
    let ret = c.pc.wrapping_add(1);
    let pushed_p = c.p.with(Status::BREAK | Status::UNUSED, true).bits;
    assert(run_steps(mn, c, m, 0) == (c, m));
    let (b1, n1) = run_steps(mn, c, m, 1);
    assert(b1 == c && n1 == m);
    let (b2, n2) = run_steps(mn, c, m, 2);
    assert(b2.s == c.s.wrapping_sub(1) && b2.p == c.p && b2.pc == c.pc);
    assert(n2 == wr(m, c.stack_top(), (ret >> 8) as u8));
    let (b3, n3) = run_steps(mn, c, m, 3);
    assert(b3.s == c.s.wrapping_sub(1).wrapping_sub(1) && b3.p == c.p && b3.pc == c.pc);
    assert(n3 == wr(n2, b2.stack_top(), (ret & 0xFF) as u8));
    let (b4, n4) = run_steps(mn, c, m, 4);
    assert(b4.s == b3.s.wrapping_sub(1) && n4 == wr(n3, b3.stack_top(), pushed_p));
    assert(b4.p == c.p.with(Status::INTERRUPT, true));
    let (b5, n5) = run_steps(mn, c, m, 5);
    assert(b5.s == b4.s && n5 == n4 && b5.p == b4.p);
    let (b6, n6) = run_steps(mn, c, m, 6);
    assert(b6.s == b4.s && n6 == n4 && b6.p == b4.p);
    crate::status::lemma_with_flag(c.p, Status::INTERRUPT, true, Status::INTERRUPT);
    let r = Mnemonic::RTI;
    assert(run_steps(r, b6, n6, 0) == (b6, n6));
    let (r1, p1) = run_steps(r, b6, n6, 1);
    let (r2, p2) = run_steps(r, b6, n6, 2);
    assert(r2 == b6 && p2 == n6);
    let (r3, p3) = run_steps(r, b6, n6, 3);
    assert(r3.s == b6.s.wrapping_add(1) && r3.p == Status { bits: pushed_p }.with(
        Status::UNUSED | Status::BREAK,
        false,
    ));
    let (r4, p4) = run_steps(r, b6, n6, 4);
    assert(r4.s == r3.s.wrapping_add(1) && r4.tmp == (ret & 0xFF) as u8 && r4.p == r3.p);
    let (r5, p5) = run_steps(r, b6, n6, 5);
    assert(r5.s == c.s && r5.pc == word((ret & 0xFF) as u8, (ret >> 8) as u8));
    assert(word((ret & 0xFF) as u8, (ret >> 8) as u8) == ret) by (bit_vector);
    let b = c.p.bits;
    assert(Status::BREAK | Status::UNUSED == 0x30u8 && Status::UNUSED | Status::BREAK == 0x30u8)
        by (bit_vector);
    assert(((b | 0x30u8) & !0x30u8) == b & !0x30u8) by (bit_vector);
}

/// BRK's execute cycles (PC on the padding byte after the opcode) push the
/// address two bytes past the opcode, high byte first, then P with B and U set,
/// set I, and jump through the NMI vector ($FFFA/$FFFB) when an NMI is latched,
/// through the IRQ/BRK vector ($FFFE/$FFFF) otherwise (`m` being the image of
/// the whole address space).
pub proof fn lemma_brk_vector(c: Cpu, m: Seq<u8>)
    requires
        m.len() == 0x10000,
    ensures
        ({
            let (c1, m1) = run_steps(Mnemonic::BRK, c, m, 6);
            let ret = (c.pc + 1) % 0x10000;
            &&& c1.pc == if c.nmi_latch {
                m[0xFFFA] + 256 * m[0xFFFB]
            } else {
                m[0xFFFE] + 256 * m[0xFFFF]
            }
            &&& !c1.nmi_latch
            &&& c1.p.has(Status::INTERRUPT)
            &&& c1.s == (c.s - 3) % 256
            &&& m1[0x100 + c.s] == ret / 256
            &&& m1[0x100 + (c.s - 1) % 256] == ret % 256
            &&& m1[0x100 + (c.s - 2) % 256] == (c.p.bits | 0x30)
        }),
{
    let mn = Mnemonic::BRK;
    let ret = c.pc.wrapping_add(1);
    let pushed_p = c.p.with(Status::BREAK | Status::UNUSED, true).bits;
    assert(run_steps(mn, c, m, 0) == (c, m));
    let (b1, n1) = run_steps(mn, c, m, 1);
    let (b2, n2) = run_steps(mn, c, m, 2);
    assert(n2 == wr(m, c.stack_top(), (ret >> 8) as u8));
    let (b3, n3) = run_steps(mn, c, m, 3);
    assert(n3 == wr(n2, b2.stack_top(), (ret & 0xFF) as u8));
    let (b4, n4) = run_steps(mn, c, m, 4);
    assert(n4 == wr(n3, b3.stack_top(), pushed_p));
    assert(b4.p == c.p.with(Status::INTERRUPT, true));
    assert(b4.nmi_latch == false);
    assert(b4.effective_addr == if c.nmi_latch {
        NMI_VECTOR_LO
    } else {
        IRQ_VECTOR_LO
    });
    let (b5, n5) = run_steps(mn, c, m, 5);
    let (b6, n6) = run_steps(mn, c, m, 6);
    crate::status::lemma_with_flag(c.p, Status::INTERRUPT, true, Status::INTERRUPT);
    assert((ret >> 8) as u8 as int == ret / 256 && (ret & 0xFF) as u8 as int == ret % 256)
        by (bit_vector);
    assert(Status::BREAK | Status::UNUSED == 0x30u8) by (bit_vector);
    if c.nmi_latch {
        crate::addressing::lemma_word(n4[0xFFFA], n4[0xFFFB]);
    } else {
        crate::addressing::lemma_word(n4[0xFFFE], n4[0xFFFF]);
    }
}

/// JSR's execute cycles (PC on the first operand byte) jump to the address
/// formed by the two operand bytes, low byte first, unless its two pushes
/// overwrite the second operand byte before it is read.
pub proof fn lemma_jsr_target(c: Cpu, m: Seq<u8>)
    requires
        m.len() == 0x10000,
        (c.pc + 1) % 0x10000 != 0x100 + c.s,
        (c.pc + 1) % 0x10000 != 0x100 + (c.s - 1) % 256,
    ensures
        ({
            let (c1, m1) = run_steps(Mnemonic::JSR, c, m, 5);
            c1.pc == m[c.pc as int] + 256 * m[(c.pc + 1) % 0x10000]
        }),
{
    let mn = Mnemonic::JSR;
    assert(run_steps(mn, c, m, 0) == (c, m));
    let (j1, n1) = run_steps(mn, c, m, 1);
    let (j2, n2) = run_steps(mn, c, m, 2);
    let (j3, n3) = run_steps(mn, c, m, 3);
    assert(n3 == wr(m, c.stack_top(), (j2.effective_addr >> 8) as u8));
    let (j4, n4) = run_steps(mn, c, m, 4);
    assert(n4 == wr(n3, j3.stack_top(), j2.effective_addr as u8));
    assert(j4.pc == c.pc.wrapping_add(1) && j4.tmp == m[c.pc as int]);
    assert(n4[j4.pc as int] == m[j4.pc as int]);
    let (j5, n5) = run_steps(mn, c, m, 5);
    crate::addressing::lemma_word(m[c.pc as int], m[j4.pc as int]);
}

} // verus!
