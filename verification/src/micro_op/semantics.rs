//! What the cycle programs compute, stated one instruction at a time.

use vstd::prelude::*;

use crate::addressing::{is_operand_mode, operand_address, past_instruction, Addressing};
use crate::cpu::{pop_value, rd, same_registers, word, wr, Cpu};
use crate::instruction::{lemma_addressing_cycles, opcode_fetched, run_cycles, Instruction};
use crate::micro_op::{
    address_ops, has_fixup, implied_program, is_read_op, isc_sbc_spec, masked_store_program, op,
    operand_op, read_from, read_operand, read_program, read_then_fixup_program, rmw_program,
    run_ops, shift_memory_program, store_program, with_late_fixup, MicroFn, MicroOp,
    ReadFrom,
};
use crate::mnemonic::arith::{
    adds_with_carry, borrow_in, compare_op, compares, lemma_adc_op, lemma_compare_op,
    lemma_sbc_op, lemma_sign_bits, subtracts_with_borrow,
};
use crate::mnemonic::shift::{shift_flags, shift_result, shift_step};
use crate::status::{lemma_flags_after, Status};
use crate::mnemonic::{exec_cycle, Mnemonic};

verus! {

/// What a reading instruction does: apply the operation of `mn` to the byte at
/// the operand address, with PC past the instruction.
pub open spec fn read_effect(mn: Mnemonic, mode: Addressing, c: Cpu, m: Seq<u8>) -> Cpu {
    operand_op(mn, past_instruction(mode, c), rd(m, operand_address(mode, c, m)))
}

/// Running `ops` and then `x` is running `ops.push(x)`.
pub proof fn lemma_run_ops_push(ops: Seq<MicroOp>, x: MicroOp, c: Cpu, m: Seq<u8>)
    ensures
        run_ops(ops.push(x), c, m) == x.spec_exec(run_ops(ops, c, m).0, run_ops(ops, c, m).1),
{
    assert(ops.push(x).drop_last() =~= ops);
}

/// Running `a + b` is running `a`, then `b` from where `a` ended.
pub proof fn lemma_run_ops_append(a: Seq<MicroOp>, b: Seq<MicroOp>, c: Cpu, m: Seq<u8>)
    ensures
        run_ops(a + b, c, m) == run_ops(b, run_ops(a, c, m).0, run_ops(a, c, m).1),
    decreases b.len(),
{
    if b.len() == 0 {
        assert(a + b =~= a);
    } else {
        lemma_run_ops_append(a, b.drop_last(), c, m);
        assert((a + b).drop_last() =~= a + b.drop_last());
        assert((a + b).last() == b.last());
    }
}

/// What holds after the address cycles of `mode`: memory is untouched, PC is
/// past the operand bytes (past the opcode only, for an immediate operand,
/// which is read at PC), the other registers are unchanged, and the effective
/// address (and, for zero page, the latched zero-page address) is the operand address.
pub open spec fn after_address_ops(mode: Addressing, c: Cpu, m: Seq<u8>) -> bool {
    let (c1, m1) = run_ops(address_ops(mode), c, m);
    &&& m1 == m
    &&& c1.opcode_in_flight == c.opcode_in_flight
    &&& mode == Addressing::Immediate ==> same_registers(c1, Cpu { pc: c.pc.wrapping_add(1), ..c })
        && c1.pc == operand_address(mode, c, m)
    &&& mode != Addressing::Immediate ==> same_registers(c1, past_instruction(mode, c))
        && c1.effective_addr == operand_address(mode, c, m)
    &&& mode == Addressing::ZeroPage ==> c1.zp_addr as u16 == operand_address(mode, c, m)
}

proof fn lemma_step_advance_pc(c: Cpu, m: Seq<u8>)
    ensures
        op(MicroFn::AdvancePc).spec_exec(c, m) == (Cpu { pc: c.pc.wrapping_add(1), ..c }, m),
{
    reveal(MicroOp::spec_exec);
}

proof fn lemma_step_fetch_zp_addr_lo(c: Cpu, m: Seq<u8>)
    ensures
        op(MicroFn::FetchZpAddrLo).spec_exec(c, m) == (Cpu { zp_addr: rd(m, c.pc), effective_addr: rd(m, c.pc) as u16, pc: c.pc.wrapping_add(1), ..c }, m),
{
    reveal(MicroOp::spec_exec);
}

proof fn lemma_step_fetch_abs_addr_lo(c: Cpu, m: Seq<u8>)
    ensures
        op(MicroFn::FetchAbsAddrLo).spec_exec(c, m) == (Cpu { base_lo: rd(m, c.pc), effective_addr: rd(m, c.pc) as u16, pc: c.pc.wrapping_add(1), ..c }, m),
{
    reveal(MicroOp::spec_exec);
}

proof fn lemma_step_fetch_abs_addr_hi(c: Cpu, m: Seq<u8>)
    ensures
        op(MicroFn::FetchAbsAddrHi).spec_exec(c, m) == (Cpu { effective_addr: ((rd(m, c.pc) as u16) << 8) | c.effective_addr, pc: c.pc.wrapping_add(1), ..c }, m),
{
    reveal(MicroOp::spec_exec);
}

proof fn lemma_step_read_zero_page(c: Cpu, m: Seq<u8>)
    ensures
        op(MicroFn::ReadZeroPage).spec_exec(c, m) == (Cpu { tmp: rd(m, c.effective_addr), ..c }, m),
{
    reveal(MicroOp::spec_exec);
}

proof fn lemma_step_zero_page_add_x(c: Cpu, m: Seq<u8>)
    ensures
        op(MicroFn::ReadZeroPageAddXDummy).spec_exec(c, m) == (Cpu { effective_addr: c.effective_addr.wrapping_add(c.x as u16) & 0x00FF, ..c }, m),
{
    reveal(MicroOp::spec_exec);
}

proof fn lemma_step_zero_page_add_y(c: Cpu, m: Seq<u8>)
    ensures
        op(MicroFn::ReadZeroPageAddYDummy).spec_exec(c, m) == (Cpu { effective_addr: c.effective_addr.wrapping_add(c.y as u16) & 0x00FF, ..c }, m),
{
    reveal(MicroOp::spec_exec);
}

proof fn lemma_step_indirect_x_dummy(c: Cpu, m: Seq<u8>)
    ensures
        op(MicroFn::ReadIndirectXDummy).spec_exec(c, m) == (c, m),
{
    reveal(MicroOp::spec_exec);
}

proof fn lemma_step_cross_x(c: Cpu, m: Seq<u8>)
    ensures
        op(MicroFn::DummyReadCrossX).spec_exec(c, m) == (c, m),
{
    reveal(MicroOp::spec_exec);
}

proof fn lemma_step_cross_y(c: Cpu, m: Seq<u8>)
    ensures
        op(MicroFn::DummyReadCrossY).spec_exec(c, m) == (c, m),
{
    reveal(MicroOp::spec_exec);
}

proof fn lemma_step_indirect_x_lo(c: Cpu, m: Seq<u8>)
    ensures
        op(MicroFn::ReadIndirectXLo).spec_exec(c, m) == (Cpu { tmp: rd(m, c.effective_addr.wrapping_add(c.x as u16) & 0x00FF), ..c }, m),
{
    reveal(MicroOp::spec_exec);
}

proof fn lemma_step_indirect_x_hi(c: Cpu, m: Seq<u8>)
    ensures
        op(MicroFn::ReadIndirectXHi).spec_exec(c, m) == (Cpu { effective_addr: word(c.tmp, rd(m, c.effective_addr.wrapping_add(c.x as u16).wrapping_add(1) & 0x00FF)), ..c }, m),
{
    reveal(MicroOp::spec_exec);
}

proof fn lemma_step_fetch_abs_addr_hi_add_x(c: Cpu, m: Seq<u8>)
    ensures
        op(MicroFn::FetchAbsAddrHiAddX).spec_exec(c, m).1 == m,
        op(MicroFn::FetchAbsAddrHiAddX).spec_exec(c, m).0.opcode_in_flight == c.opcode_in_flight,
        same_registers(op(MicroFn::FetchAbsAddrHiAddX).spec_exec(c, m).0, Cpu { pc: c.pc.wrapping_add(1), ..c }),
        op(MicroFn::FetchAbsAddrHiAddX).spec_exec(c, m).0.effective_addr == (((rd(m, c.pc) as u16) << 8) | c.effective_addr).wrapping_add(c.x as u16),
{
    reveal(MicroOp::spec_exec);
}

proof fn lemma_step_fetch_abs_addr_hi_add_y(c: Cpu, m: Seq<u8>)
    ensures
        op(MicroFn::FetchAbsAddrHiAddY).spec_exec(c, m).1 == m,
        op(MicroFn::FetchAbsAddrHiAddY).spec_exec(c, m).0.opcode_in_flight == c.opcode_in_flight,
        same_registers(op(MicroFn::FetchAbsAddrHiAddY).spec_exec(c, m).0, Cpu { pc: c.pc.wrapping_add(1), ..c }),
        op(MicroFn::FetchAbsAddrHiAddY).spec_exec(c, m).0.effective_addr == (((rd(m, c.pc) as u16) << 8) | c.effective_addr).wrapping_add(c.y as u16),
{
    reveal(MicroOp::spec_exec);
}

proof fn lemma_step_indirect_y_hi(c: Cpu, m: Seq<u8>)
    ensures
        op(MicroFn::ReadIndirectYHi).spec_exec(c, m).1 == m,
        op(MicroFn::ReadIndirectYHi).spec_exec(c, m).0.opcode_in_flight == c.opcode_in_flight,
        same_registers(op(MicroFn::ReadIndirectYHi).spec_exec(c, m).0, c),
        op(MicroFn::ReadIndirectYHi).spec_exec(c, m).0.effective_addr == word(c.tmp, rd(m, c.effective_addr.wrapping_add(1) & 0x00FF)).wrapping_add(c.y as u16),
{
    reveal(MicroOp::spec_exec);
}

proof fn lemma_address_immediate(c: Cpu, m: Seq<u8>)
    ensures
        after_address_ops(Addressing::Immediate, c, m),
{
    assert(c.pc.wrapping_add(1).wrapping_add(1) == c.pc.wrapping_add(2));
    assert(c.pc.wrapping_add(2).wrapping_add(1) == c.pc.wrapping_add(3));
    let s0 = Seq::<MicroOp>::empty();
    let s1 = s0.push(op(MicroFn::AdvancePc));
    lemma_run_ops_push(s0, op(MicroFn::AdvancePc), c, m);
    lemma_step_advance_pc(run_ops(s0, c, m).0, run_ops(s0, c, m).1);
    assert(address_ops(Addressing::Immediate) =~= s1);
}

proof fn lemma_address_zero_page(c: Cpu, m: Seq<u8>)
    ensures
        after_address_ops(Addressing::ZeroPage, c, m),
{
    assert(c.pc.wrapping_add(1).wrapping_add(1) == c.pc.wrapping_add(2));
    assert(c.pc.wrapping_add(2).wrapping_add(1) == c.pc.wrapping_add(3));
    let s0 = Seq::<MicroOp>::empty();
    let s1 = s0.push(op(MicroFn::AdvancePc));
    lemma_run_ops_push(s0, op(MicroFn::AdvancePc), c, m);
    lemma_step_advance_pc(run_ops(s0, c, m).0, run_ops(s0, c, m).1);
    let s2 = s1.push(op(MicroFn::FetchZpAddrLo));
    lemma_run_ops_push(s1, op(MicroFn::FetchZpAddrLo), c, m);
    lemma_step_fetch_zp_addr_lo(run_ops(s1, c, m).0, run_ops(s1, c, m).1);
    assert(address_ops(Addressing::ZeroPage) =~= s2);
}

proof fn lemma_address_zero_page_x(c: Cpu, m: Seq<u8>)
    ensures
        after_address_ops(Addressing::ZeroPageX, c, m),
{
    assert(c.pc.wrapping_add(1).wrapping_add(1) == c.pc.wrapping_add(2));
    assert(c.pc.wrapping_add(2).wrapping_add(1) == c.pc.wrapping_add(3));
    let s0 = Seq::<MicroOp>::empty();
    let s1 = s0.push(op(MicroFn::AdvancePc));
    lemma_run_ops_push(s0, op(MicroFn::AdvancePc), c, m);
    lemma_step_advance_pc(run_ops(s0, c, m).0, run_ops(s0, c, m).1);
    let s2 = s1.push(op(MicroFn::FetchZpAddrLo));
    lemma_run_ops_push(s1, op(MicroFn::FetchZpAddrLo), c, m);
    lemma_step_fetch_zp_addr_lo(run_ops(s1, c, m).0, run_ops(s1, c, m).1);
    let s3 = s2.push(op(MicroFn::ReadZeroPageAddXDummy));
    lemma_run_ops_push(s2, op(MicroFn::ReadZeroPageAddXDummy), c, m);
    lemma_step_zero_page_add_x(run_ops(s2, c, m).0, run_ops(s2, c, m).1);
    assert(address_ops(Addressing::ZeroPageX) =~= s3);
}

proof fn lemma_address_zero_page_y(c: Cpu, m: Seq<u8>)
    ensures
        after_address_ops(Addressing::ZeroPageY, c, m),
{
    assert(c.pc.wrapping_add(1).wrapping_add(1) == c.pc.wrapping_add(2));
    assert(c.pc.wrapping_add(2).wrapping_add(1) == c.pc.wrapping_add(3));
    let s0 = Seq::<MicroOp>::empty();
    let s1 = s0.push(op(MicroFn::AdvancePc));
    lemma_run_ops_push(s0, op(MicroFn::AdvancePc), c, m);
    lemma_step_advance_pc(run_ops(s0, c, m).0, run_ops(s0, c, m).1);
    let s2 = s1.push(op(MicroFn::FetchZpAddrLo));
    lemma_run_ops_push(s1, op(MicroFn::FetchZpAddrLo), c, m);
    lemma_step_fetch_zp_addr_lo(run_ops(s1, c, m).0, run_ops(s1, c, m).1);
    let s3 = s2.push(op(MicroFn::ReadZeroPageAddYDummy));
    lemma_run_ops_push(s2, op(MicroFn::ReadZeroPageAddYDummy), c, m);
    lemma_step_zero_page_add_y(run_ops(s2, c, m).0, run_ops(s2, c, m).1);
    assert(address_ops(Addressing::ZeroPageY) =~= s3);
}

proof fn lemma_address_absolute(c: Cpu, m: Seq<u8>)
    ensures
        after_address_ops(Addressing::Absolute, c, m),
{
    assert(c.pc.wrapping_add(1).wrapping_add(1) == c.pc.wrapping_add(2));
    assert(c.pc.wrapping_add(2).wrapping_add(1) == c.pc.wrapping_add(3));
    let s0 = Seq::<MicroOp>::empty();
    let s1 = s0.push(op(MicroFn::AdvancePc));
    lemma_run_ops_push(s0, op(MicroFn::AdvancePc), c, m);
    lemma_step_advance_pc(run_ops(s0, c, m).0, run_ops(s0, c, m).1);
    let s2 = s1.push(op(MicroFn::FetchAbsAddrLo));
    lemma_run_ops_push(s1, op(MicroFn::FetchAbsAddrLo), c, m);
    lemma_step_fetch_abs_addr_lo(run_ops(s1, c, m).0, run_ops(s1, c, m).1);
    let s3 = s2.push(op(MicroFn::FetchAbsAddrHi));
    lemma_run_ops_push(s2, op(MicroFn::FetchAbsAddrHi), c, m);
    lemma_step_fetch_abs_addr_hi(run_ops(s2, c, m).0, run_ops(s2, c, m).1);
    assert(address_ops(Addressing::Absolute) =~= s3);
}

proof fn lemma_address_absolute_x(c: Cpu, m: Seq<u8>)
    ensures
        after_address_ops(Addressing::AbsoluteX, c, m),
{
    assert(c.pc.wrapping_add(1).wrapping_add(1) == c.pc.wrapping_add(2));
    assert(c.pc.wrapping_add(2).wrapping_add(1) == c.pc.wrapping_add(3));
    let s0 = Seq::<MicroOp>::empty();
    let s1 = s0.push(op(MicroFn::AdvancePc));
    lemma_run_ops_push(s0, op(MicroFn::AdvancePc), c, m);
    lemma_step_advance_pc(run_ops(s0, c, m).0, run_ops(s0, c, m).1);
    let s2 = s1.push(op(MicroFn::FetchAbsAddrLo));
    lemma_run_ops_push(s1, op(MicroFn::FetchAbsAddrLo), c, m);
    lemma_step_fetch_abs_addr_lo(run_ops(s1, c, m).0, run_ops(s1, c, m).1);
    let s3 = s2.push(op(MicroFn::FetchAbsAddrHiAddX));
    lemma_run_ops_push(s2, op(MicroFn::FetchAbsAddrHiAddX), c, m);
    lemma_step_fetch_abs_addr_hi_add_x(run_ops(s2, c, m).0, run_ops(s2, c, m).1);
    let s4 = s3.push(op(MicroFn::DummyReadCrossX));
    lemma_run_ops_push(s3, op(MicroFn::DummyReadCrossX), c, m);
    lemma_step_cross_x(run_ops(s3, c, m).0, run_ops(s3, c, m).1);
    assert(address_ops(Addressing::AbsoluteX) =~= s4);
}

proof fn lemma_address_absolute_y(c: Cpu, m: Seq<u8>)
    ensures
        after_address_ops(Addressing::AbsoluteY, c, m),
{
    assert(c.pc.wrapping_add(1).wrapping_add(1) == c.pc.wrapping_add(2));
    assert(c.pc.wrapping_add(2).wrapping_add(1) == c.pc.wrapping_add(3));
    let s0 = Seq::<MicroOp>::empty();
    let s1 = s0.push(op(MicroFn::AdvancePc));
    lemma_run_ops_push(s0, op(MicroFn::AdvancePc), c, m);
    lemma_step_advance_pc(run_ops(s0, c, m).0, run_ops(s0, c, m).1);
    let s2 = s1.push(op(MicroFn::FetchAbsAddrLo));
    lemma_run_ops_push(s1, op(MicroFn::FetchAbsAddrLo), c, m);
    lemma_step_fetch_abs_addr_lo(run_ops(s1, c, m).0, run_ops(s1, c, m).1);
    let s3 = s2.push(op(MicroFn::FetchAbsAddrHiAddY));
    lemma_run_ops_push(s2, op(MicroFn::FetchAbsAddrHiAddY), c, m);
    lemma_step_fetch_abs_addr_hi_add_y(run_ops(s2, c, m).0, run_ops(s2, c, m).1);
    let s4 = s3.push(op(MicroFn::DummyReadCrossY));
    lemma_run_ops_push(s3, op(MicroFn::DummyReadCrossY), c, m);
    lemma_step_cross_y(run_ops(s3, c, m).0, run_ops(s3, c, m).1);
    assert(address_ops(Addressing::AbsoluteY) =~= s4);
}

proof fn lemma_address_indirect_x(c: Cpu, m: Seq<u8>)
    ensures
        after_address_ops(Addressing::IndirectX, c, m),
{
    assert(c.pc.wrapping_add(1).wrapping_add(1) == c.pc.wrapping_add(2));
    assert(c.pc.wrapping_add(2).wrapping_add(1) == c.pc.wrapping_add(3));
    let s0 = Seq::<MicroOp>::empty();
    let s1 = s0.push(op(MicroFn::AdvancePc));
    lemma_run_ops_push(s0, op(MicroFn::AdvancePc), c, m);
    lemma_step_advance_pc(run_ops(s0, c, m).0, run_ops(s0, c, m).1);
    let s2 = s1.push(op(MicroFn::FetchZpAddrLo));
    lemma_run_ops_push(s1, op(MicroFn::FetchZpAddrLo), c, m);
    lemma_step_fetch_zp_addr_lo(run_ops(s1, c, m).0, run_ops(s1, c, m).1);
    let s3 = s2.push(op(MicroFn::ReadIndirectXDummy));
    lemma_run_ops_push(s2, op(MicroFn::ReadIndirectXDummy), c, m);
    lemma_step_indirect_x_dummy(run_ops(s2, c, m).0, run_ops(s2, c, m).1);
    let s4 = s3.push(op(MicroFn::ReadIndirectXLo));
    lemma_run_ops_push(s3, op(MicroFn::ReadIndirectXLo), c, m);
    lemma_step_indirect_x_lo(run_ops(s3, c, m).0, run_ops(s3, c, m).1);
    let s5 = s4.push(op(MicroFn::ReadIndirectXHi));
    lemma_run_ops_push(s4, op(MicroFn::ReadIndirectXHi), c, m);
    lemma_step_indirect_x_hi(run_ops(s4, c, m).0, run_ops(s4, c, m).1);
    assert(address_ops(Addressing::IndirectX) =~= s5);
}

proof fn lemma_address_indirect_y(c: Cpu, m: Seq<u8>)
    ensures
        after_address_ops(Addressing::IndirectY, c, m),
{
    assert(c.pc.wrapping_add(1).wrapping_add(1) == c.pc.wrapping_add(2));
    assert(c.pc.wrapping_add(2).wrapping_add(1) == c.pc.wrapping_add(3));
    let s0 = Seq::<MicroOp>::empty();
    let s1 = s0.push(op(MicroFn::AdvancePc));
    lemma_run_ops_push(s0, op(MicroFn::AdvancePc), c, m);
    lemma_step_advance_pc(run_ops(s0, c, m).0, run_ops(s0, c, m).1);
    let s2 = s1.push(op(MicroFn::FetchZpAddrLo));
    lemma_run_ops_push(s1, op(MicroFn::FetchZpAddrLo), c, m);
    lemma_step_fetch_zp_addr_lo(run_ops(s1, c, m).0, run_ops(s1, c, m).1);
    let s3 = s2.push(op(MicroFn::ReadZeroPage));
    lemma_run_ops_push(s2, op(MicroFn::ReadZeroPage), c, m);
    lemma_step_read_zero_page(run_ops(s2, c, m).0, run_ops(s2, c, m).1);
    let s4 = s3.push(op(MicroFn::ReadIndirectYHi));
    lemma_run_ops_push(s3, op(MicroFn::ReadIndirectYHi), c, m);
    lemma_step_indirect_y_hi(run_ops(s3, c, m).0, run_ops(s3, c, m).1);
    let s5 = s4.push(op(MicroFn::DummyReadCrossY));
    lemma_run_ops_push(s4, op(MicroFn::DummyReadCrossY), c, m);
    lemma_step_cross_y(run_ops(s4, c, m).0, run_ops(s4, c, m).1);
    assert(address_ops(Addressing::IndirectY) =~= s5);
}

/// The address cycles of every operand mode form the operand address and move
/// PC past the operand bytes, changing no other register and no memory.
pub proof fn lemma_address_ops(mode: Addressing, c: Cpu, m: Seq<u8>)
    requires
        is_operand_mode(mode),
    ensures
        after_address_ops(mode, c, m),
{
    match mode {
        Addressing::Immediate => lemma_address_immediate(c, m),
        Addressing::ZeroPage => lemma_address_zero_page(c, m),
        Addressing::ZeroPageX => lemma_address_zero_page_x(c, m),
        Addressing::ZeroPageY => lemma_address_zero_page_y(c, m),
        Addressing::Absolute => lemma_address_absolute(c, m),
        Addressing::AbsoluteX => lemma_address_absolute_x(c, m),
        Addressing::AbsoluteY => lemma_address_absolute_y(c, m),
        Addressing::IndirectX => lemma_address_indirect_x(c, m),
        _ => lemma_address_indirect_y(c, m),
    }
}

proof fn lemma_step_read(mn: Mnemonic, from: ReadFrom, c: Cpu, m: Seq<u8>)
    ensures
        op(MicroFn::Read(mn, from)).spec_exec(c, m) == (
            operand_op(mn, read_operand(c, m, from).0, read_operand(c, m, from).1),
            m,
        ),
{
    reveal(MicroOp::spec_exec);
}

/// The operation of a reading mnemonic depends only on the registers and the operand.
pub proof fn lemma_operand_op_registers(mn: Mnemonic, c1: Cpu, c2: Cpu, v: u8)
    requires
        is_read_op(mn),
        same_registers(c1, c2),
    ensures
        same_registers(operand_op(mn, c1, v), operand_op(mn, c2, v)),
{
}

/// The cycle program of a reading instruction leaves memory as it was, and
/// leaves the registers as the instruction's operation applied to the byte at
/// its operand address, with PC past the instruction.
pub proof fn lemma_read_program(mn: Mnemonic, mode: Addressing, c: Cpu, m: Seq<u8>)
    requires
        is_read_op(mn),
        is_operand_mode(mode),
    ensures
        run_ops(read_program(mn, mode), c, m).1 == m,
        same_registers(run_ops(read_program(mn, mode), c, m).0, read_effect(mn, mode, c, m)),
{
    let x = op(MicroFn::Read(mn, read_from(mode)));
    lemma_address_ops(mode, c, m);
    lemma_run_ops_push(address_ops(mode), x, c, m);
    let (c1, m1) = run_ops(address_ops(mode), c, m);
    lemma_step_read(mn, read_from(mode), c1, m1);
    let (c2, v) = read_operand(c1, m1, read_from(mode));
    assert(same_registers(c2, past_instruction(mode, c)));
    assert(v == rd(m, operand_address(mode, c, m)));
    lemma_operand_op_registers(mn, c2, past_instruction(mode, c), v);
}


/// The read cycles of a reading instruction reach the same state whether the
/// page-crossing fix-up read comes before or after the operand read.
pub proof fn lemma_read_then_fixup_program(mn: Mnemonic, mode: Addressing, c: Cpu, m: Seq<u8>)
    requires
        is_read_op(mn),
        is_operand_mode(mode),
    ensures
        run_ops(read_then_fixup_program(mn, mode), c, m) == run_ops(read_program(mn, mode), c, m),
{
    let x = op(MicroFn::Read(mn, read_from(mode)));
    if has_fixup(mode) {
        let pre = address_ops(mode).drop_last();
        let d = address_ops(mode).last();
        assert(address_ops(mode) =~= pre.push(d));
        assert(read_then_fixup_program(mn, mode) =~= pre.push(x).push(d));
        lemma_run_ops_push(pre, d, c, m);
        lemma_run_ops_push(pre, x, c, m);
        lemma_run_ops_push(pre.push(x), d, c, m);
        lemma_run_ops_push(pre.push(d), x, c, m);
        let r = run_ops(pre, c, m);
        let r2 = run_ops(pre.push(x), c, m);
        if mode == Addressing::AbsoluteX {
            lemma_step_cross_x(r.0, r.1);
            lemma_step_cross_x(r2.0, r2.1);
        } else {
            lemma_step_cross_y(r.0, r.1);
            lemma_step_cross_y(r2.0, r2.1);
        }
    } else {
        assert(read_then_fixup_program(mn, mode) =~= read_program(mn, mode));
    }
}

proof fn lemma_step_exec(mn: Mnemonic, step: u8, c: Cpu, m: Seq<u8>)
    ensures
        op(MicroFn::Exec(mn, step)).spec_exec(c, m) == mn.step_spec(c, m, step),
{
    reveal(MicroOp::spec_exec);
    reveal(exec_cycle);
}

/// The byte that the store instruction `mn` writes: A (STA), X (STX), Y (STY)
/// or `A & X` (SAX).
pub open spec fn store_value(mn: Mnemonic, c: Cpu) -> u8 {
    match mn {
        Mnemonic::STA => c.a,
        Mnemonic::STX => c.x,
        Mnemonic::STY => c.y,
        _ => c.a & c.x,
    }
}

/// The cycle program of a store writes the stored register at the operand
/// address, changes no register but PC, and leaves the rest of memory alone.
pub proof fn lemma_store_program(mn: Mnemonic, mode: Addressing, c: Cpu, m: Seq<u8>)
    requires
        mn == Mnemonic::STA || mn == Mnemonic::STX || mn == Mnemonic::STY || mn == Mnemonic::SAX,
        is_operand_mode(mode),
        mode != Addressing::Immediate,
    ensures
        run_ops(store_program(mn, mode), c, m).1 == wr(
            m,
            operand_address(mode, c, m),
            store_value(mn, c),
        ),
        same_registers(run_ops(store_program(mn, mode), c, m).0, past_instruction(mode, c)),
{
    let x = op(MicroFn::Exec(mn, 0));
    lemma_address_ops(mode, c, m);
    lemma_run_ops_push(address_ops(mode), x, c, m);
    let (c1, m1) = run_ops(address_ops(mode), c, m);
    lemma_step_exec(mn, 0, c1, m1);
}

proof fn lemma_step_rmw_read(c: Cpu, m: Seq<u8>)
    ensures
        op(MicroFn::RmwRead).spec_exec(c, m) == (Cpu { base_lo: rd(m, c.effective_addr), ..c }, m),
{
    reveal(MicroOp::spec_exec);
}

proof fn lemma_step_rmw_modify(f: MicroFn, c: Cpu, m: Seq<u8>)
    requires
        f == MicroFn::DcpRmw || f == MicroFn::IscRmw || f == MicroFn::SloRmw,
    ensures
        op(f).spec_exec(c, m) == (if f == MicroFn::DcpRmw {
            (
                Cpu { base_lo: c.base_lo.wrapping_sub(1), ..c },
                wr(wr(m, c.effective_addr, c.base_lo), c.effective_addr, c.base_lo.wrapping_sub(1)),
            )
        } else if f == MicroFn::IscRmw {
            (
                Cpu { base_lo: c.base_lo.wrapping_add(1), ..c },
                wr(wr(m, c.effective_addr, c.base_lo), c.effective_addr, c.base_lo.wrapping_add(1)),
            )
        } else {
            (
                Cpu {
                    base_lo: c.base_lo << 1u8,
                    p: c.p.with(Status::CARRY, c.base_lo & 0x80 != 0),
                    ..c
                },
                wr(wr(m, c.effective_addr, c.base_lo), c.effective_addr, c.base_lo << 1u8),
            )
        }),
{
    reveal(MicroOp::spec_exec);
}

proof fn lemma_step_rmw_combine(f: MicroFn, c: Cpu, m: Seq<u8>)
    requires
        f == MicroFn::DcpCompare || f == MicroFn::IscSbc || f == MicroFn::SloOra,
    ensures
        op(f).spec_exec(c, m) == (if f == MicroFn::DcpCompare {
            (compare_op(c, c.a, c.base_lo), m)
        } else if f == MicroFn::IscSbc {
            (isc_sbc_spec(c, c.base_lo), m)
        } else {
            (Cpu { a: c.a | c.base_lo, p: c.p.with_zn(c.a | c.base_lo), ..c }, m)
        }),
{
    reveal(MicroOp::spec_exec);
}

/// The byte that DCP, ISC or SLO writes back in place of `v`: `v - 1`, `v + 1`
/// or `v << 1`.
pub open spec fn rmw_modified(mn: Mnemonic, v: u8) -> u8 {
    match mn {
        Mnemonic::DCP => v.wrapping_sub(1),
        Mnemonic::ISC => v.wrapping_add(1),
        _ => v << 1u8,
    }
}

/// The registers after DCP (compare A with the new byte), ISC (subtract it
/// from A with borrow) or SLO (C from the old bit 7, then OR the new byte into A).
pub open spec fn rmw_registers(mn: Mnemonic, c: Cpu, v: u8) -> Cpu {
    let new = rmw_modified(mn, v);
    match mn {
        Mnemonic::DCP => compare_op(c, c.a, new),
        Mnemonic::ISC => isc_sbc_spec(c, new),
        _ => Cpu {
            a: c.a | new,
            p: c.p.with(Status::CARRY, v & 0x80 != 0).with_zn(c.a | new),
            ..c
        },
    }
}

/// The cycle program of DCP, ISC or SLO replaces the byte at the operand
/// address with its modification, and combines the modified byte with A
/// (`m` being the image of the whole address space).
pub proof fn lemma_rmw_program(mn: Mnemonic, mode: Addressing, c: Cpu, m: Seq<u8>)
    requires
        mn == Mnemonic::DCP || mn == Mnemonic::ISC || mn == Mnemonic::SLO,
        is_operand_mode(mode),
        mode != Addressing::Immediate,
        m.len() == 0x10000,
    ensures
        ({
            let ea = operand_address(mode, c, m);
            let v = rd(m, ea);
            &&& run_ops(rmw_program(mn, mode), c, m).1 == wr(m, ea, rmw_modified(mn, v))
            &&& same_registers(
                run_ops(rmw_program(mn, mode), c, m).0,
                rmw_registers(mn, past_instruction(mode, c), v),
            )
        }),
{
    let (modify, combine) = match mn {
        Mnemonic::DCP => (MicroFn::DcpRmw, MicroFn::DcpCompare),
        Mnemonic::ISC => (MicroFn::IscRmw, MicroFn::IscSbc),
        _ => (MicroFn::SloRmw, MicroFn::SloOra),
    };
    let a = address_ops(mode);
    let s1 = a.push(op(MicroFn::RmwRead));
    let s2 = s1.push(op(modify));
    let s3 = s2.push(op(combine));
    assert(rmw_program(mn, mode) =~= s3);
    lemma_address_ops(mode, c, m);
    lemma_run_ops_push(a, op(MicroFn::RmwRead), c, m);
    lemma_run_ops_push(s1, op(modify), c, m);
    lemma_run_ops_push(s2, op(combine), c, m);
    let r0 = run_ops(a, c, m);
    lemma_step_rmw_read(r0.0, r0.1);
    let r1 = run_ops(s1, c, m);
    lemma_step_rmw_modify(modify, r1.0, r1.1);
    let r2 = run_ops(s2, c, m);
    lemma_step_rmw_combine(combine, r2.0, r2.1);
    let ea = operand_address(mode, c, m);
    let v = rd(m, ea);
    assert(wr(wr(m, ea, v), ea, rmw_modified(mn, v)) =~= wr(m, ea, rmw_modified(mn, v)));
}

/// The opcode of the accumulator form of the shift `mn`.
pub open spec fn accumulator_opcode(mn: Mnemonic) -> u8 {
    match mn {
        Mnemonic::ASL => 0x0A,
        Mnemonic::LSR => 0x4A,
        Mnemonic::ROL => 0x2A,
        _ => 0x6A,
    }
}

/// Whether `mn` shifts or rotates.
pub open spec fn is_shift_mnemonic(mn: Mnemonic) -> bool {
    mn == Mnemonic::ASL || mn == Mnemonic::LSR || mn == Mnemonic::ROL || mn == Mnemonic::ROR
}

proof fn lemma_shift_exec(mn: Mnemonic, step: u8, c: Cpu, m: Seq<u8>)
    requires
        is_shift_mnemonic(mn),
    ensures
        op(MicroFn::Exec(mn, step)).spec_exec(c, m) == shift_step(
            c,
            m,
            step,
            mn,
            accumulator_opcode(mn),
        ),
{
    lemma_step_exec(mn, step, c, m);
}

proof fn lemma_step_shift_write(mn: Mnemonic, c: Cpu, m: Seq<u8>)
    ensures
        op(MicroFn::ShiftWrite(mn)).spec_exec(c, m) == (
            Cpu {
                tmp: shift_result(mn, c.tmp, c.p),
                p: shift_flags(mn, c.tmp, c.p),
                ..c
            },
            wr(m, c.effective_addr, shift_result(mn, c.tmp, c.p)),
        ),
{
    reveal(MicroOp::spec_exec);
}

/// The cycle program of a shift on memory replaces the byte at the operand
/// address with its shifted value and sets the flags from it, whatever opcode
/// is latched (`m` being the image of the whole address space).
pub proof fn lemma_shift_memory_program(mn: Mnemonic, mode: Addressing, c: Cpu, m: Seq<u8>)
    requires
        is_shift_mnemonic(mn),
        is_operand_mode(mode),
        mode != Addressing::Immediate,
        m.len() == 0x10000,
    ensures
        ({
            let ea = operand_address(mode, c, m);
            let v = rd(m, ea);
            &&& run_ops(shift_memory_program(mn, mode), c, m).1 == wr(m, ea, shift_result(mn, v, c.p))
            &&& same_registers(
                run_ops(shift_memory_program(mn, mode), c, m).0,
                Cpu { p: shift_flags(mn, v, c.p), ..past_instruction(mode, c) },
            )
        }),
{
    let e0 = op(MicroFn::Exec(mn, 0));
    let e1 = op(MicroFn::Exec(mn, 1));
    let e2 = op(MicroFn::ShiftWrite(mn));
    let a = address_ops(mode);
    lemma_address_ops(mode, c, m);
    let ea = operand_address(mode, c, m);
    let v = rd(m, ea);
    if has_fixup(mode) {
        let pre = a.drop_last();
        let d = a.last();
        assert(a =~= pre.push(d));
        let s1 = pre.push(e0);
        let s2 = s1.push(e1);
        let s3 = s2.push(d);
        let s4 = s3.push(e2);
        assert(shift_memory_program(mn, mode) =~= s4);
        lemma_run_ops_push(pre, d, c, m);
        lemma_run_ops_push(pre, e0, c, m);
        lemma_run_ops_push(s1, e1, c, m);
        lemma_run_ops_push(s2, d, c, m);
        lemma_run_ops_push(s3, e2, c, m);
        let r = run_ops(pre, c, m);
        let r2 = run_ops(s2, c, m);
        if mode == Addressing::AbsoluteX {
            lemma_step_cross_x(r.0, r.1);
            lemma_step_cross_x(r2.0, r2.1);
        } else {
            lemma_step_cross_y(r.0, r.1);
            lemma_step_cross_y(r2.0, r2.1);
        }
        lemma_shift_exec(mn, 0, r.0, r.1);
        let q1 = run_ops(s1, c, m);
        lemma_shift_exec(mn, 1, q1.0, q1.1);
        let q3 = run_ops(s3, c, m);
        lemma_step_shift_write(mn, q3.0, q3.1);
    } else {
        let s1 = a.push(e0);
        let s2 = s1.push(e1);
        let s3 = s2.push(e2);
        assert(shift_memory_program(mn, mode) =~= s3);
        lemma_run_ops_push(a, e0, c, m);
        lemma_run_ops_push(s1, e1, c, m);
        lemma_run_ops_push(s2, e2, c, m);
        let r = run_ops(a, c, m);
        lemma_shift_exec(mn, 0, r.0, r.1);
        let q1 = run_ops(s1, c, m);
        lemma_shift_exec(mn, 1, q1.0, q1.1);
        let q2 = run_ops(s2, c, m);
        lemma_step_shift_write(mn, q2.0, q2.1);
    }
    assert(wr(wr(m, ea, v), ea, shift_result(mn, v, c.p)) =~= wr(m, ea, shift_result(mn, v, c.p)));
}


proof fn lemma_step_accumulator(mn: Mnemonic, c: Cpu, m: Seq<u8>)
    ensures
        op(MicroFn::Accumulator(mn)).spec_exec(c, m) == (
            Cpu { a: shift_result(mn, c.a, c.p), p: shift_flags(mn, c.a, c.p), ..c },
            m,
        ),
{
    reveal(MicroOp::spec_exec);
}

/// The cycle program of a shift of the accumulator shifts A, sets the flags
/// from it, and moves PC past the opcode; memory is untouched.
pub proof fn lemma_accumulator_program(mn: Mnemonic, c: Cpu, m: Seq<u8>)
    ensures
        run_ops(seq![op(MicroFn::AdvancePc), op(MicroFn::Accumulator(mn))], c, m) == (
            Cpu {
                a: shift_result(mn, c.a, c.p),
                p: shift_flags(mn, c.a, c.p),
                pc: c.pc.wrapping_add(1),
                ..c
            },
            m,
        ),
{
    let s0 = Seq::<MicroOp>::empty();
    let s1 = s0.push(op(MicroFn::AdvancePc));
    let s2 = s1.push(op(MicroFn::Accumulator(mn)));
    assert(seq![op(MicroFn::AdvancePc), op(MicroFn::Accumulator(mn))] =~= s2);
    lemma_run_ops_push(s0, op(MicroFn::AdvancePc), c, m);
    lemma_step_advance_pc(c, m);
    lemma_run_ops_push(s1, op(MicroFn::Accumulator(mn)), c, m);
    lemma_step_accumulator(mn, Cpu { pc: c.pc.wrapping_add(1), ..c }, m);
}

/// The register that the masked store `mn` stores before masking: `A & X`
/// (SHA, SHS), X (SHX) or Y (SHY).
pub open spec fn masked_register(mn: Mnemonic, c: Cpu) -> u8 {
    match mn {
        Mnemonic::SHX => c.x,
        Mnemonic::SHY => c.y,
        _ => c.a & c.x,
    }
}

/// The high byte H of the unindexed base address of a masked store: the
/// second operand byte, or for `(zp),Y` the pointer's high byte.
pub open spec fn masked_high(mode: Addressing, c: Cpu, m: Seq<u8>) -> u8 {
    if mode == Addressing::IndirectY {
        rd(m, (rd(m, c.pc.wrapping_add(1)) as u16).wrapping_add(1) & 0x00FF)
    } else {
        rd(m, c.pc.wrapping_add(2))
    }
}

proof fn lemma_step_fetch_hi_calc_v(use_x: bool, c: Cpu, m: Seq<u8>)
    ensures
        op(MicroFn::FetchHiCalcV(use_x)).spec_exec(c, m) == (
            Cpu {
                tmp: rd(m, c.pc).wrapping_add(1),
                effective_addr: (((rd(m, c.pc) as u16) << 8) | (c.base_lo as u16)).wrapping_add(
                    (if use_x {
                        c.x
                    } else {
                        c.y
                    }) as u16,
                ),
                pc: c.pc.wrapping_add(1),
                ..c
            },
            m,
        ),
{
    reveal(MicroOp::spec_exec);
}

proof fn lemma_step_indirect_y_hi_calc_v(c: Cpu, m: Seq<u8>)
    ensures
        ({
            let (c1, m1) = op(MicroFn::ReadIndirectYHiCalcV).spec_exec(c, m);
            let hi = rd(m, c.effective_addr.wrapping_add(1) & 0x00FF);
            &&& m1 == m
            &&& same_registers(c1, c)
            &&& c1.tmp == hi.wrapping_add(1)
            &&& c1.effective_addr == word(c.tmp, hi).wrapping_add(c.y as u16)
        }),
{
    reveal(MicroOp::spec_exec);
}

proof fn lemma_step_store_masked(mn: Mnemonic, c: Cpu, m: Seq<u8>)
    requires
        mn == Mnemonic::SHA || mn == Mnemonic::SHX || mn == Mnemonic::SHY || mn == Mnemonic::SHS,
    ensures
        op(MicroFn::StoreMasked(mn)).spec_exec(c, m) == (
            if mn == Mnemonic::SHS {
                Cpu { s: c.a & c.x, ..c }
            } else {
                c
            },
            wr(m, c.effective_addr, masked_register(mn, c) & c.tmp),
        ),
{
    reveal(MicroOp::spec_exec);
}

/// The cycle program of SHA, SHX, SHY or SHS stores its register masked by
/// `H + 1` at the operand address, H being the high byte of the unindexed
/// base address; SHS also sets S to `A & X`. No other register but PC changes.
pub proof fn lemma_masked_store_program(mn: Mnemonic, mode: Addressing, c: Cpu, m: Seq<u8>)
    requires
        mn == Mnemonic::SHA || mn == Mnemonic::SHX || mn == Mnemonic::SHY || mn == Mnemonic::SHS,
        mode == Addressing::AbsoluteX || mode == Addressing::AbsoluteY || mode
            == Addressing::IndirectY,
    ensures
        run_ops(masked_store_program(mn, mode), c, m).1 == wr(
            m,
            operand_address(mode, c, m),
            masked_register(mn, c) & masked_high(mode, c, m).wrapping_add(1),
        ),
        same_registers(
            run_ops(masked_store_program(mn, mode), c, m).0,
            if mn == Mnemonic::SHS {
                Cpu { s: c.a & c.x, ..past_instruction(mode, c) }
            } else {
                past_instruction(mode, c)
            },
        ),
{
    assert(c.pc.wrapping_add(1).wrapping_add(1) == c.pc.wrapping_add(2));
    assert(c.pc.wrapping_add(2).wrapping_add(1) == c.pc.wrapping_add(3));
    let s0 = Seq::<MicroOp>::empty();
    let s1 = s0.push(op(MicroFn::AdvancePc));
    lemma_run_ops_push(s0, op(MicroFn::AdvancePc), c, m);
    lemma_step_advance_pc(c, m);
    if mode == Addressing::IndirectY {
        let s2 = s1.push(op(MicroFn::FetchZpAddrLo));
        let s3 = s2.push(op(MicroFn::ReadZeroPage));
        let s4 = s3.push(op(MicroFn::ReadIndirectYHiCalcV));
        let s5 = s4.push(op(MicroFn::DummyReadCrossY));
        let s6 = s5.push(op(MicroFn::StoreMasked(mn)));
        assert(masked_store_program(mn, mode) =~= s6);
        lemma_run_ops_push(s1, op(MicroFn::FetchZpAddrLo), c, m);
        lemma_step_fetch_zp_addr_lo(run_ops(s1, c, m).0, m);
        lemma_run_ops_push(s2, op(MicroFn::ReadZeroPage), c, m);
        lemma_step_read_zero_page(run_ops(s2, c, m).0, m);
        lemma_run_ops_push(s3, op(MicroFn::ReadIndirectYHiCalcV), c, m);
        lemma_step_indirect_y_hi_calc_v(run_ops(s3, c, m).0, m);
        lemma_run_ops_push(s4, op(MicroFn::DummyReadCrossY), c, m);
        lemma_step_cross_y(run_ops(s4, c, m).0, m);
        lemma_run_ops_push(s5, op(MicroFn::StoreMasked(mn)), c, m);
        lemma_step_store_masked(mn, run_ops(s5, c, m).0, m);
    } else {
        let use_x = mode == Addressing::AbsoluteX;
        let s2 = s1.push(op(MicroFn::FetchAbsAddrLo));
        let s3 = s2.push(op(MicroFn::FetchHiCalcV(use_x)));
        let d = if use_x {
            op(MicroFn::DummyReadCrossX)
        } else {
            op(MicroFn::DummyReadCrossY)
        };
        let s4 = s3.push(d);
        let s5 = s4.push(op(MicroFn::StoreMasked(mn)));
        assert(masked_store_program(mn, mode) =~= s5);
        lemma_run_ops_push(s1, op(MicroFn::FetchAbsAddrLo), c, m);
        lemma_step_fetch_abs_addr_lo(run_ops(s1, c, m).0, m);
        lemma_run_ops_push(s2, op(MicroFn::FetchHiCalcV(use_x)), c, m);
        lemma_step_fetch_hi_calc_v(use_x, run_ops(s2, c, m).0, m);
        lemma_run_ops_push(s3, d, c, m);
        if use_x {
            lemma_step_cross_x(run_ops(s3, c, m).0, m);
        } else {
            lemma_step_cross_y(run_ops(s3, c, m).0, m);
        }
        lemma_run_ops_push(s4, op(MicroFn::StoreMasked(mn)), c, m);
        lemma_step_store_masked(mn, run_ops(s4, c, m).0, m);
    }
}


/// What the single-byte stack and transfer instructions do: PHA and PHP push A
/// and P (with B and U set), PLA and PLP pull A and P (with B and U clear),
/// TAY, TSX and TXA copy a register and set N and Z from it, TXS copies X to S;
/// PC moves past the opcode.
pub open spec fn implied_effect(mn: Mnemonic, c: Cpu, m: Seq<u8>) -> (Cpu, Seq<u8>) {
    let c1 = Cpu { pc: c.pc.wrapping_add(1), ..c };
    match mn {
        Mnemonic::PHA => (Cpu { s: c.s.wrapping_sub(1), ..c1 }, wr(m, c.stack_top(), c.a)),
        Mnemonic::PHP => (
            Cpu { s: c.s.wrapping_sub(1), ..c1 },
            wr(m, c.stack_top(), c.p.with(Status::BREAK | Status::UNUSED, true).bits),
        ),
        Mnemonic::PLA => {
            let v = pop_value(c, m);
            (Cpu { a: v, p: c.p.with_zn(v), s: c.s.wrapping_add(1), ..c1 }, m)
        },
        Mnemonic::PLP => (
            Cpu {
                p: Status { bits: pop_value(c, m) }.with(Status::UNUSED | Status::BREAK, false),
                s: c.s.wrapping_add(1),
                ..c1
            },
            m,
        ),
        Mnemonic::TAY => (Cpu { y: c.a, p: c.p.with_zn(c.a), ..c1 }, m),
        Mnemonic::TSX => (Cpu { x: c.s, p: c.p.with_zn(c.s), ..c1 }, m),
        Mnemonic::TXA => (Cpu { a: c.x, p: c.p.with_zn(c.x), ..c1 }, m),
        _ => (Cpu { s: c.x, ..c1 }, m),
    }
}

/// The stack and transfer instructions that have a cycle program of their own.
pub open spec fn is_implied_program_mnemonic(mn: Mnemonic) -> bool {
    match mn {
        Mnemonic::PHA | Mnemonic::PHP | Mnemonic::PLA | Mnemonic::PLP | Mnemonic::TAY
        | Mnemonic::TSX | Mnemonic::TXA | Mnemonic::TXS => true,
        _ => false,
    }
}

/// The cycle program of a stack or transfer instruction does what the
/// instruction does, and nothing else.
pub proof fn lemma_implied_program(mn: Mnemonic, c: Cpu, m: Seq<u8>)
    requires
        is_implied_program_mnemonic(mn),
    ensures
        run_ops(implied_program(mn), c, m) == implied_effect(mn, c, m),
{
    let s0 = Seq::<MicroOp>::empty();
    let s1 = s0.push(op(MicroFn::AdvancePc));
    let e0 = op(MicroFn::Exec(mn, 0));
    let e1 = op(MicroFn::Exec(mn, 1));
    let e2 = op(MicroFn::Exec(mn, 2));
    let s2 = s1.push(e0);
    let s3 = s2.push(e1);
    let s4 = s3.push(e2);
    lemma_run_ops_push(s0, op(MicroFn::AdvancePc), c, m);
    lemma_step_advance_pc(c, m);
    lemma_run_ops_push(s1, e0, c, m);
    lemma_step_exec(mn, 0, run_ops(s1, c, m).0, run_ops(s1, c, m).1);
    lemma_run_ops_push(s2, e1, c, m);
    lemma_step_exec(mn, 1, run_ops(s2, c, m).0, run_ops(s2, c, m).1);
    lemma_run_ops_push(s3, e2, c, m);
    lemma_step_exec(mn, 2, run_ops(s3, c, m).0, run_ops(s3, c, m).1);
    match mn {
        Mnemonic::PHA | Mnemonic::PHP => {
            assert(implied_program(mn) =~= s3);
        },
        Mnemonic::PLA | Mnemonic::PLP => {
            assert(implied_program(mn) =~= s4);
        },
        _ => {
            assert(implied_program(mn) =~= s2);
        },
    }
}

/// PHA followed by PLA gives A and S back, with N and Z set from A; the
/// pushed byte stays in the stack page (`m` being the image of the whole
/// address space).
pub proof fn lemma_push_pull_accumulator(c: Cpu, m: Seq<u8>)
    requires
        m.len() == 0x10000,
    ensures
        ({
            let (c1, m1) = run_ops(implied_program(Mnemonic::PHA), c, m);
            let (c2, m2) = run_ops(implied_program(Mnemonic::PLA), c1, m1);
            &&& c2.a == c.a
            &&& c2.s == c.s
            &&& c2.x == c.x
            &&& c2.y == c.y
            &&& c2.p == c.p.with_zn(c.a)
            &&& c2.pc == c.pc.wrapping_add(2)
            &&& m2 == wr(m, c.stack_top(), c.a)
        }),
{
    lemma_implied_program(Mnemonic::PHA, c, m);
    let (c1, m1) = run_ops(implied_program(Mnemonic::PHA), c, m);
    lemma_implied_program(Mnemonic::PLA, c1, m1);
    assert(c1.s.wrapping_add(1) == c.s);
    assert(c.pc.wrapping_add(1).wrapping_add(1) == c.pc.wrapping_add(2));
}

/// PHP followed by PLP gives S back and every flag of P but B and U, which
/// come back clear (`m` being the image of the whole address space).
pub proof fn lemma_push_pull_status(c: Cpu, m: Seq<u8>)
    requires
        m.len() == 0x10000,
    ensures
        ({
            let (c1, m1) = run_ops(implied_program(Mnemonic::PHP), c, m);
            let (c2, m2) = run_ops(implied_program(Mnemonic::PLP), c1, m1);
            &&& c2.s == c.s
            &&& c2.a == c.a
            &&& c2.p == c.p.with(Status::BREAK | Status::UNUSED, false)
            &&& c2.pc == c.pc.wrapping_add(2)
        }),
{
    lemma_implied_program(Mnemonic::PHP, c, m);
    let (c1, m1) = run_ops(implied_program(Mnemonic::PHP), c, m);
    lemma_implied_program(Mnemonic::PLP, c1, m1);
    assert(c1.s.wrapping_add(1) == c.s);
    assert(c.pc.wrapping_add(1).wrapping_add(1) == c.pc.wrapping_add(2));
    let b = c.p.bits;
    assert(Status::BREAK | Status::UNUSED == 0x30u8 && Status::UNUSED | Status::BREAK == 0x30u8)
        by (bit_vector);
    assert(((b | 0x30u8) & !0x30u8) == b & !0x30u8) by (bit_vector);
}

/// TXS followed by TSX leaves X as it was, S equal to it, and N and Z set from it.
pub proof fn lemma_transfer_x_stack(c: Cpu, m: Seq<u8>)
    ensures
        ({
            let (c1, m1) = run_ops(implied_program(Mnemonic::TXS), c, m);
            let (c2, m2) = run_ops(implied_program(Mnemonic::TSX), c1, m1);
            &&& c2.x == c.x
            &&& c2.s == c.x
            &&& c2.a == c.a
            &&& c2.p == c.p.with_zn(c.x)
            &&& m2 == m
        }),
{
    lemma_implied_program(Mnemonic::TXS, c, m);
    let (c1, m1) = run_ops(implied_program(Mnemonic::TXS), c, m);
    lemma_implied_program(Mnemonic::TSX, c1, m1);
}


/// The reading mnemonics that both execution models carry out with the same
/// operation on the operand (XAA's magic constant differs between them).
pub open spec fn is_shared_read_op(mn: Mnemonic) -> bool {
    match mn {
        Mnemonic::LDA | Mnemonic::LDX | Mnemonic::LDY | Mnemonic::LAX | Mnemonic::LAS
        | Mnemonic::AND | Mnemonic::ORA | Mnemonic::EOR | Mnemonic::BIT | Mnemonic::ADC
        | Mnemonic::SBC | Mnemonic::CMP | Mnemonic::CPX | Mnemonic::CPY | Mnemonic::ANC
        | Mnemonic::ASR | Mnemonic::ARR | Mnemonic::SBX => true,
        _ => false,
    }
}

/// The execute cycle of a shared reading mnemonic applies its operation to the
/// byte at the effective address.
proof fn lemma_shared_read_step(mn: Mnemonic, c: Cpu, m: Seq<u8>)
    requires
        is_shared_read_op(mn),
    ensures
        mn.exec_len_spec() == 1,
        exec_cycle(mn, c, m, 0) == (operand_op(mn, c, rd(m, c.effective_addr)), m),
{
    reveal(exec_cycle);
}

/// The cycle program of a reading instruction and the instruction's
/// addressing-then-execute cycles leave the same registers and memory.
pub proof fn lemma_read_models_agree(mn: Mnemonic, mode: Addressing, c: Cpu, m: Seq<u8>)
    requires
        is_shared_read_op(mn),
        is_operand_mode(mode),
        mode != Addressing::Immediate,
    ensures
        ({
            let instr = Instruction { mnemonic: mn, addressing: mode };
            let (c1, m1) = run_ops(read_program(mn, mode), c, m);
            let (c2, m2) = run_cycles(instr, opcode_fetched(c), m, instr.len_spec() as nat);
            &&& same_registers(c1, c2)
            &&& m1 == m2
        }),
{
    let instr = Instruction { mnemonic: mn, addressing: mode };
    lemma_read_program(mn, mode, c, m);
    lemma_addressing_cycles(instr, c, m);
    let n = mode.exec_len_spec() as nat;
    let (a1, b1) = run_cycles(instr, opcode_fetched(c), m, n);
    lemma_shared_read_step(mn, a1, b1);
    assert(instr.len_spec() == n + 1);
    assert(run_cycles(instr, opcode_fetched(c), m, n + 1) == instr.step_spec(a1, b1, n as u8));
    lemma_operand_op_registers(mn, a1, past_instruction(mode, c), rd(m, operand_address(mode, c, m)));
}

/// Applied to an operand byte read by the cycle programs, ADC adds it to A with
/// carry, SBC subtracts it from A with borrow, and CMP, CPX and CPY compare A, X
/// and Y with it.
pub proof fn lemma_operand_arith(c: Cpu, v: u8)
    ensures
        adds_with_carry(c, v, operand_op(Mnemonic::ADC, c, v)),
        subtracts_with_borrow(c, v, operand_op(Mnemonic::SBC, c, v)),
        compares(c, c.a, v, operand_op(Mnemonic::CMP, c, v)),
        compares(c, c.x, v, operand_op(Mnemonic::CPX, c, v)),
        compares(c, c.y, v, operand_op(Mnemonic::CPY, c, v)),
{
    lemma_adc_op(c, v);
    lemma_sbc_op(c, v);
    lemma_compare_op(c, c.a, v);
    lemma_compare_op(c, c.x, v);
    lemma_compare_op(c, c.y, v);
}

/// The subtraction that closes the micro-coded ISC subtracts `mem` from A with
/// borrow, with C, V, Z and N as SBC sets them.
pub proof fn lemma_isc_subtraction(c: Cpu, mem: u8)
    ensures
        subtracts_with_borrow(c, mem, isc_sbc_spec(c, mem)),
{
    let b: u8 = if c.p.has(Status::CARRY) {
        0
    } else {
        1
    };
    let r = isc_sbc_spec(c, mem);
    let diff = c.a - mem - borrow_in(c);
    assert(b == borrow_in(c));
    if diff >= 0 {
        assert(r.a == diff);
    } else {
        assert(r.a == diff + 256);
    }
    lemma_sign_bits(c.a, mem, r.a);
    let carry = !(c.a < mem + b);
    let overflow = ((c.a ^ r.a) & (c.a ^ mem) & 0x80) != 0;
    lemma_flags_after(c.p, Status::CARRY, carry, Status::OVERFLOW, overflow, r.a, Status::CARRY);
    lemma_flags_after(c.p, Status::CARRY, carry, Status::OVERFLOW, overflow, r.a, Status::OVERFLOW);
    lemma_flags_after(c.p, Status::CARRY, carry, Status::OVERFLOW, overflow, r.a, Status::ZERO);
    lemma_flags_after(c.p, Status::CARRY, carry, Status::OVERFLOW, overflow, r.a, Status::NEGATIVE);
    lemma_flags_after(c.p, Status::CARRY, carry, Status::OVERFLOW, overflow, r.a, Status::INTERRUPT);
    lemma_flags_after(c.p, Status::CARRY, carry, Status::OVERFLOW, overflow, r.a, Status::DECIMAL);
    lemma_flags_after(c.p, Status::CARRY, carry, Status::OVERFLOW, overflow, r.a, Status::BREAK);
    lemma_flags_after(c.p, Status::CARRY, carry, Status::OVERFLOW, overflow, r.a, Status::UNUSED);
}

} // verus!
