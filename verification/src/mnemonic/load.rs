use vstd::prelude::*;

use crate::cpu::{rd, word, wr, Cpu, CpuBus};

verus! {

/// LAS: `M & S -> A, X, S`; N and Z from the result.
pub open spec fn las_op(c: Cpu, v: u8) -> Cpu {
    let r = v & c.s;
    Cpu { a: r, x: r, s: r, p: c.p.with_zn(r), ..c }
}

/// LAX: `M -> A, X`; N and Z from the value.
pub open spec fn lax_op(c: Cpu, v: u8) -> Cpu {
    Cpu { a: v, x: v, p: c.p.with_zn(v), ..c }
}

/// LDA: `M -> A`; N and Z from the value.
pub open spec fn lda_op(c: Cpu, v: u8) -> Cpu {
    Cpu { a: v, p: c.p.with_zn(v), ..c }
}

/// LDX: `M -> X`; N and Z from the value.
pub open spec fn ldx_op(c: Cpu, v: u8) -> Cpu {
    Cpu { x: v, p: c.p.with_zn(v), ..c }
}

/// LDY: `M -> Y`; N and Z from the value.
pub open spec fn ldy_op(c: Cpu, v: u8) -> Cpu {
    Cpu { y: v, p: c.p.with_zn(v), ..c }
}

/// The address that SHX/SHY store to: the unindexed base's high byte masked by
/// `mask_reg + 1`, with the indexed low byte.
pub open spec fn unstable_store_addr(ea: u16, index: u8, mask_reg: u8) -> u16 {
    let base = ea.wrapping_sub(index as u16);
    let lo = base as u8;
    let hi = (base >> 8) as u8;
    word(lo.wrapping_add(index), hi & mask_reg.wrapping_add(1))
}

/// The value that SHX/SHY store: the register masked by the base's high byte plus 1.
pub open spec fn unstable_store_value(ea: u16, index: u8, reg: u8) -> u8 {
    let base = ea.wrapping_sub(index as u16);
    let hi = (base >> 8) as u8;
    reg & hi.wrapping_add(1)
}

/// The execute cycle of LAS.
pub open spec fn las_step(c: Cpu, m: Seq<u8>) -> (Cpu, Seq<u8>) {
    (las_op(c, rd(m, c.effective_addr)), m)
}

/// The execute cycle of LAX.
pub open spec fn lax_step(c: Cpu, m: Seq<u8>) -> (Cpu, Seq<u8>) {
    (lax_op(c, rd(m, c.effective_addr)), m)
}

/// The execute cycle of LDA.
pub open spec fn lda_step(c: Cpu, m: Seq<u8>) -> (Cpu, Seq<u8>) {
    (lda_op(c, rd(m, c.effective_addr)), m)
}

/// The execute cycle of LDX.
pub open spec fn ldx_step(c: Cpu, m: Seq<u8>) -> (Cpu, Seq<u8>) {
    (ldx_op(c, rd(m, c.effective_addr)), m)
}

/// The execute cycle of LDY.
pub open spec fn ldy_step(c: Cpu, m: Seq<u8>) -> (Cpu, Seq<u8>) {
    (ldy_op(c, rd(m, c.effective_addr)), m)
}

/// The execute cycle of SAX: `A & X -> M`.
pub open spec fn sax_step(c: Cpu, m: Seq<u8>) -> (Cpu, Seq<u8>) {
    (c, wr(m, c.effective_addr, c.a & c.x))
}

/// The execute cycle of SHA: `A & X & (H + 1) -> M`, H being the high byte of
/// the unindexed base address, which the addressing cycles latch in `tmp`.
pub open spec fn sha_step(c: Cpu, m: Seq<u8>) -> (Cpu, Seq<u8>) {
    (c, wr(m, c.effective_addr, c.a & c.x & c.tmp.wrapping_add(1)))
}

/// The execute cycle of SHX: `X & (H + 1)` stored at the masked address.
pub open spec fn shx_step(c: Cpu, m: Seq<u8>) -> (Cpu, Seq<u8>) {
    (
        c,
        wr(
            m,
            unstable_store_addr(c.effective_addr, c.y, c.x),
            unstable_store_value(c.effective_addr, c.y, c.x),
        ),
    )
}

/// The execute cycle of SHY: `Y & (H + 1)` stored at the masked address.
pub open spec fn shy_step(c: Cpu, m: Seq<u8>) -> (Cpu, Seq<u8>) {
    (
        c,
        wr(
            m,
            unstable_store_addr(c.effective_addr, c.x, c.y),
            unstable_store_value(c.effective_addr, c.x, c.y),
        ),
    )
}

/// The execute cycle of STA.
pub open spec fn sta_step(c: Cpu, m: Seq<u8>) -> (Cpu, Seq<u8>) {
    (c, wr(m, c.effective_addr, c.a))
}

/// The execute cycle of STX.
pub open spec fn stx_step(c: Cpu, m: Seq<u8>) -> (Cpu, Seq<u8>) {
    (c, wr(m, c.effective_addr, c.x))
}

/// The execute cycle of STY.
pub open spec fn sty_step(c: Cpu, m: Seq<u8>) -> (Cpu, Seq<u8>) {
    (c, wr(m, c.effective_addr, c.y))
}

/// LAS - "AND" memory with stack pointer: `M & S -> A, X, S`.
pub fn exec_las(cpu: &mut Cpu, bus: &mut CpuBus, step: u8)
    requires
        step < 1,
    ensures
        (*final(cpu), final(bus)@) == las_step(*old(cpu), old(bus)@),
{
    let value = bus.read(cpu.effective_addr) & cpu.s;
    cpu.a = value;
    cpu.x = value;
    cpu.s = value;
    cpu.p.set_zn(value);
}

/// LAX - load accumulator and index register X from memory.
pub fn exec_lax(cpu: &mut Cpu, bus: &mut CpuBus, step: u8)
    requires
        step < 1,
    ensures
        (*final(cpu), final(bus)@) == lax_step(*old(cpu), old(bus)@),
{
    let value = bus.read(cpu.effective_addr);
    cpu.a = value;
    cpu.x = value;
    cpu.p.set_zn(value);
}

/// LDA - load accumulator with memory.
pub fn exec_lda(cpu: &mut Cpu, bus: &mut CpuBus, step: u8)
    requires
        step < 1,
    ensures
        (*final(cpu), final(bus)@) == lda_step(*old(cpu), old(bus)@),
{
    let value = bus.read(cpu.effective_addr);
    cpu.a = value;
    cpu.p.set_zn(value);
}

/// LDX - load index register X from memory.
pub fn exec_ldx(cpu: &mut Cpu, bus: &mut CpuBus, step: u8)
    requires
        step < 1,
    ensures
        (*final(cpu), final(bus)@) == ldx_step(*old(cpu), old(bus)@),
{
    let value = bus.read(cpu.effective_addr);
    cpu.x = value;
    cpu.p.set_zn(value);
}

/// LDY - load index register Y from memory.
pub fn exec_ldy(cpu: &mut Cpu, bus: &mut CpuBus, step: u8)
    requires
        step < 1,
    ensures
        (*final(cpu), final(bus)@) == ldy_step(*old(cpu), old(bus)@),
{
    let value = bus.read(cpu.effective_addr);
    cpu.y = value;
    cpu.p.set_zn(value);
}

/// SAX - store `A & X` in memory; no flag is affected.
pub fn exec_sax(cpu: &mut Cpu, bus: &mut CpuBus, step: u8)
    requires
        step < 1,
    ensures
        (*final(cpu), final(bus)@) == sax_step(*old(cpu), old(bus)@),
{
    let value = cpu.a & cpu.x;
    bus.write(cpu.effective_addr, value);
}

/// SHA - store `A & X & (H + 1)`, H being the high byte of the unindexed base
/// address latched by the addressing cycles.
pub fn exec_sha(cpu: &mut Cpu, bus: &mut CpuBus, step: u8)
    requires
        step < 1,
    ensures
        (*final(cpu), final(bus)@) == sha_step(*old(cpu), old(bus)@),
{
    let hi = cpu.tmp;
    let value = cpu.a & cpu.x & hi.wrapping_add(1);
    bus.write(cpu.effective_addr, value);
}

/// SHX - store `X & (H + 1)`; the high byte of the store address is masked by `X + 1`.
pub fn exec_shx(cpu: &mut Cpu, bus: &mut CpuBus, step: u8)
    requires
        step < 1,
    ensures
        (*final(cpu), final(bus)@) == shx_step(*old(cpu), old(bus)@),
{
    let base = cpu.effective_addr.wrapping_sub(cpu.y as u16);
    let lo = base as u8;
    let hi = (base >> 8) as u8;
    let addr_hi = hi & cpu.x.wrapping_add(1);
    let addr_lo = lo.wrapping_add(cpu.y);
    let addr = ((addr_hi as u16) << 8) | addr_lo as u16;
    let value = cpu.x & hi.wrapping_add(1);
    bus.write(addr, value);
}

/// SHY - store `Y & (H + 1)`; the high byte of the store address is masked by `Y + 1`.
pub fn exec_shy(cpu: &mut Cpu, bus: &mut CpuBus, step: u8)
    requires
        step < 1,
    ensures
        (*final(cpu), final(bus)@) == shy_step(*old(cpu), old(bus)@),
{
    let base = cpu.effective_addr.wrapping_sub(cpu.x as u16);
    let lo = base as u8;
    let hi = (base >> 8) as u8;
    let addr_hi = hi & cpu.y.wrapping_add(1);
    let addr_lo = lo.wrapping_add(cpu.x);
    let addr = ((addr_hi as u16) << 8) | addr_lo as u16;
    let value = cpu.y & hi.wrapping_add(1);
    bus.write(addr, value);
}

/// STA - store accumulator in memory.
pub fn exec_sta(cpu: &mut Cpu, bus: &mut CpuBus, step: u8)
    requires
        step < 1,
    ensures
        (*final(cpu), final(bus)@) == sta_step(*old(cpu), old(bus)@),
{
    bus.write(cpu.effective_addr, cpu.a);
}

/// STX - store index register X in memory.
pub fn exec_stx(cpu: &mut Cpu, bus: &mut CpuBus, step: u8)
    requires
        step < 1,
    ensures
        (*final(cpu), final(bus)@) == stx_step(*old(cpu), old(bus)@),
{
    bus.write(cpu.effective_addr, cpu.x);
}

/// STY - store index register Y in memory.
pub fn exec_sty(cpu: &mut Cpu, bus: &mut CpuBus, step: u8)
    requires
        step < 1,
    ensures
        (*final(cpu), final(bus)@) == sty_step(*old(cpu), old(bus)@),
{
    bus.write(cpu.effective_addr, cpu.y);
}

} // verus!
