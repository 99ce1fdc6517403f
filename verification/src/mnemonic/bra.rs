use vstd::prelude::*;

use crate::cpu::{rd, Cpu, CpuBus};
use crate::mnemonic::Mnemonic;
use crate::mnemonic::arith::signed;
use crate::status::Status;

verus! {

/// The cycles of a relative branch whose condition is `taken`.
///
/// Cycle 0 fetches the signed offset and, when the branch is not taken, schedules
/// the skip of the two remaining cycles. Cycle 1 adds the offset to the program
/// counter and records whether the target lies on another page (the fix-up cycle
/// is skipped when it does not). Cycle 2 is the fix-up read.
pub open spec fn branch_step(c: Cpu, m: Seq<u8>, step: u8, taken: bool) -> (Cpu, Seq<u8>) {
    if step == 0 {
        let c1 = Cpu { tmp: rd(m, c.pc), pc: c.next_pc(), ..c };
        (
            if taken {
                c1
            } else {
                Cpu { skip_cycles: 2, ..c1 }
            },
            m,
        )
    } else if step == 1 {
        let new_pc = c.pc.wrapping_add((c.tmp as i8) as u16);
        (Cpu { pc: new_pc, ..c }.after_index(c.pc, new_pc), m)
    } else {
        (c, m)
    }
}

/// The shared cycles of the eight branches, given the outcome of their test.
fn exec_branch(cpu: &mut Cpu, bus: &mut CpuBus, step: u8, taken: bool)
    requires
        step < 3,
    ensures
        (*final(cpu), final(bus)@) == branch_step(*old(cpu), old(bus)@, step, taken),
{
    match step {
        0 => {
            cpu.tmp = cpu.fetch_u8(bus);
            cpu.test_branch(taken);
        },
        1 => {
            let _ = bus.read(cpu.pc);
            let old_pc = cpu.pc;
            let offset = cpu.tmp as i8;
            let new_pc = old_pc.wrapping_add(offset as u16);
            cpu.pc = new_pc;
            cpu.skip_optional_dummy_read_cycle(old_pc, new_pc);
        },
        _ => {
            let _ = bus.read(cpu.pc);
        },
    }
}

/// Whether BCC takes its branch.
pub open spec fn bcc_taken(c: Cpu) -> bool {
    !c.p.has(Status::CARRY)
}

/// BCC - Branch on carry clear (C = 0).
pub fn exec_bcc(cpu: &mut Cpu, bus: &mut CpuBus, step: u8)
    requires
        step < 3,
    ensures
        (*final(cpu), final(bus)@) == branch_step(*old(cpu), old(bus)@, step, bcc_taken(*old(cpu))),
        step == 0 ==> final(cpu).skip_cycles == if !old(cpu).p.has(Status::CARRY) {
            old(cpu).skip_cycles
        } else {
            2
        },
{
    let taken = !cpu.p.c();
    exec_branch(cpu, bus, step, taken);
}

/// Whether BCS takes its branch.
pub open spec fn bcs_taken(c: Cpu) -> bool {
    c.p.has(Status::CARRY)
}

/// BCS - Branch on carry set (C = 1).
pub fn exec_bcs(cpu: &mut Cpu, bus: &mut CpuBus, step: u8)
    requires
        step < 3,
    ensures
        (*final(cpu), final(bus)@) == branch_step(*old(cpu), old(bus)@, step, bcs_taken(*old(cpu))),
        step == 0 ==> final(cpu).skip_cycles == if old(cpu).p.has(Status::CARRY) {
            old(cpu).skip_cycles
        } else {
            2
        },
{
    let taken = cpu.p.c();
    exec_branch(cpu, bus, step, taken);
}

/// Whether BEQ takes its branch.
pub open spec fn beq_taken(c: Cpu) -> bool {
    c.p.has(Status::ZERO)
}

/// BEQ - Branch on result zero (Z = 1).
pub fn exec_beq(cpu: &mut Cpu, bus: &mut CpuBus, step: u8)
    requires
        step < 3,
    ensures
        (*final(cpu), final(bus)@) == branch_step(*old(cpu), old(bus)@, step, beq_taken(*old(cpu))),
        step == 0 ==> final(cpu).skip_cycles == if old(cpu).p.has(Status::ZERO) {
            old(cpu).skip_cycles
        } else {
            2
        },
{
    let taken = cpu.p.z();
    exec_branch(cpu, bus, step, taken);
}

/// Whether BMI takes its branch.
pub open spec fn bmi_taken(c: Cpu) -> bool {
    c.p.has(Status::NEGATIVE)
}

/// BMI - Branch on result minus (N = 1).
pub fn exec_bmi(cpu: &mut Cpu, bus: &mut CpuBus, step: u8)
    requires
        step < 3,
    ensures
        (*final(cpu), final(bus)@) == branch_step(*old(cpu), old(bus)@, step, bmi_taken(*old(cpu))),
        step == 0 ==> final(cpu).skip_cycles == if old(cpu).p.has(Status::NEGATIVE) {
            old(cpu).skip_cycles
        } else {
            2
        },
{
    let taken = cpu.p.n();
    exec_branch(cpu, bus, step, taken);
}

/// Whether BNE takes its branch.
pub open spec fn bne_taken(c: Cpu) -> bool {
    !c.p.has(Status::ZERO)
}

/// BNE - Branch on result not zero (Z = 0).
pub fn exec_bne(cpu: &mut Cpu, bus: &mut CpuBus, step: u8)
    requires
        step < 3,
    ensures
        (*final(cpu), final(bus)@) == branch_step(*old(cpu), old(bus)@, step, bne_taken(*old(cpu))),
        step == 0 ==> final(cpu).skip_cycles == if !old(cpu).p.has(Status::ZERO) {
            old(cpu).skip_cycles
        } else {
            2
        },
{
    let taken = !cpu.p.z();
    exec_branch(cpu, bus, step, taken);
}

/// Whether BPL takes its branch.
pub open spec fn bpl_taken(c: Cpu) -> bool {
    !c.p.has(Status::NEGATIVE)
}

/// BPL - Branch on result plus (N = 0).
pub fn exec_bpl(cpu: &mut Cpu, bus: &mut CpuBus, step: u8)
    requires
        step < 3,
    ensures
        (*final(cpu), final(bus)@) == branch_step(*old(cpu), old(bus)@, step, bpl_taken(*old(cpu))),
        step == 0 ==> final(cpu).skip_cycles == if !old(cpu).p.has(Status::NEGATIVE) {
            old(cpu).skip_cycles
        } else {
            2
        },
{
    let taken = !cpu.p.n();
    exec_branch(cpu, bus, step, taken);
}

/// Whether BVC takes its branch.
pub open spec fn bvc_taken(c: Cpu) -> bool {
    !c.p.has(Status::OVERFLOW)
}

/// BVC - Branch on overflow clear (V = 0).
pub fn exec_bvc(cpu: &mut Cpu, bus: &mut CpuBus, step: u8)
    requires
        step < 3,
    ensures
        (*final(cpu), final(bus)@) == branch_step(*old(cpu), old(bus)@, step, bvc_taken(*old(cpu))),
        step == 0 ==> final(cpu).skip_cycles == if !old(cpu).p.has(Status::OVERFLOW) {
            old(cpu).skip_cycles
        } else {
            2
        },
{
    let taken = !cpu.p.v();
    exec_branch(cpu, bus, step, taken);
}

/// Whether BVS takes its branch.
pub open spec fn bvs_taken(c: Cpu) -> bool {
    c.p.has(Status::OVERFLOW)
}

/// BVS - Branch on overflow set (V = 1).
pub fn exec_bvs(cpu: &mut Cpu, bus: &mut CpuBus, step: u8)
    requires
        step < 3,
    ensures
        (*final(cpu), final(bus)@) == branch_step(*old(cpu), old(bus)@, step, bvs_taken(*old(cpu))),
        step == 0 ==> final(cpu).skip_cycles == if old(cpu).p.has(Status::OVERFLOW) {
            old(cpu).skip_cycles
        } else {
            2
        },
{
    let taken = cpu.p.v();
    exec_branch(cpu, bus, step, taken);
}


/// Whether `mn` is one of the eight relative branches.
pub open spec fn is_branch(mn: Mnemonic) -> bool {
    match mn {
        Mnemonic::BCC | Mnemonic::BCS | Mnemonic::BEQ | Mnemonic::BMI | Mnemonic::BNE
        | Mnemonic::BPL | Mnemonic::BVC | Mnemonic::BVS => true,
        _ => false,
    }
}

/// Whether the branch `mn` is taken in state `c`.
pub open spec fn branch_taken(mn: Mnemonic, c: Cpu) -> bool {
    match mn {
        Mnemonic::BCC => bcc_taken(c),
        Mnemonic::BCS => bcs_taken(c),
        Mnemonic::BEQ => beq_taken(c),
        Mnemonic::BMI => bmi_taken(c),
        Mnemonic::BNE => bne_taken(c),
        Mnemonic::BPL => bpl_taken(c),
        Mnemonic::BVC => bvc_taken(c),
        _ => bvs_taken(c),
    }
}

/// Each branch tests its flag as documented. Its first cycle fetches the offset
/// and steps past it; when the flag does not call for the branch it schedules the
/// skip of the two remaining cycles, and otherwise leaves the schedule alone.
/// BCC branches on C clear, BCS on C set, BEQ on Z set, BNE on Z clear, BMI on N
/// set, BPL on N clear, BVC on V clear and BVS on V set.
pub proof fn lemma_branch_conditions(c: Cpu, m: Seq<u8>)
    ensures
        Mnemonic::BCC.step_spec(c, m, 0).0.skip_cycles == if !c.p.has(Status::CARRY) {
            c.skip_cycles
        } else {
            2
        },
        Mnemonic::BCS.step_spec(c, m, 0).0.skip_cycles == if c.p.has(Status::CARRY) {
            c.skip_cycles
        } else {
            2
        },
        Mnemonic::BEQ.step_spec(c, m, 0).0.skip_cycles == if c.p.has(Status::ZERO) {
            c.skip_cycles
        } else {
            2
        },
        Mnemonic::BNE.step_spec(c, m, 0).0.skip_cycles == if !c.p.has(Status::ZERO) {
            c.skip_cycles
        } else {
            2
        },
        Mnemonic::BMI.step_spec(c, m, 0).0.skip_cycles == if c.p.has(Status::NEGATIVE) {
            c.skip_cycles
        } else {
            2
        },
        Mnemonic::BPL.step_spec(c, m, 0).0.skip_cycles == if !c.p.has(Status::NEGATIVE) {
            c.skip_cycles
        } else {
            2
        },
        Mnemonic::BVC.step_spec(c, m, 0).0.skip_cycles == if !c.p.has(Status::OVERFLOW) {
            c.skip_cycles
        } else {
            2
        },
        Mnemonic::BVS.step_spec(c, m, 0).0.skip_cycles == if c.p.has(Status::OVERFLOW) {
            c.skip_cycles
        } else {
            2
        },
        forall|mn: Mnemonic|
            is_branch(mn) ==> {
                let r = #[trigger] mn.step_spec(c, m, 0);
                &&& r.0.tmp == rd(m, c.pc)
                &&& r.0.pc == (c.pc + 1) % 0x10000
                &&& r.0 == (Cpu { tmp: r.0.tmp, pc: r.0.pc, skip_cycles: r.0.skip_cycles, ..c })
                &&& r.1 == m
            },
{
}

/// The second cycle of a taken branch adds the fetched offset, read as a signed
/// byte, to the program counter (modulo 0x10000) and writes no memory.
pub proof fn lemma_branch_target(mn: Mnemonic, c: Cpu, m: Seq<u8>)
    requires
        is_branch(mn),
    ensures
        mn.step_spec(c, m, 1).0.pc == (c.pc + signed(c.tmp)) % 0x10000,
        mn.step_spec(c, m, 1).1 == m,
{
    let t = c.tmp;
    let ext = (t as i8) as u16;
    assert(ext as int == if t >= 0x80 {
        t + 0xFF00
    } else {
        t as int
    }) by (bit_vector)
        requires
            ext == (t as i8) as u16,
    ;
    let new_pc = c.pc.wrapping_add(ext);
    assert(mn.step_spec(c, m, 1).0.pc == new_pc);
    if t >= 0x80 {
        if c.pc + t >= 256 {
            assert(new_pc == c.pc + t - 256);
        } else {
            assert(new_pc == c.pc + t + 0xFF00);
        }
    } else {
        if c.pc + t > 0xFFFF {
            assert(new_pc == c.pc + t - 0x10000);
        } else {
            assert(new_pc == c.pc + t);
        }
    }
}

} // verus!
