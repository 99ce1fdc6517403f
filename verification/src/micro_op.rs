use vstd::prelude::*;

use crate::addressing::Addressing;
use crate::cpu::{rd, word, wr, Cpu, CpuBus};
use crate::mnemonic::arith::{adc_op, anc_op, arr_op, asr_op, compare_op, sbc_op, sbx_op};
use crate::mnemonic::load::{las_op, lax_op, lda_op, ldx_op, ldy_op};
use crate::mnemonic::logic::{and_op, bit_op, eor_op, ora_op};
use crate::mnemonic::shift::{shift_flags, shift_result, shift_value};
use crate::mnemonic::{exec_cycle, Mnemonic};
use crate::status::{Status, BIT_7};
use crate::micro_op::names::{standard_name, standard_name_spec, Label};

pub mod arith;
pub mod load;
pub mod logic;
pub mod names;
pub mod semantics;
pub mod shift;
pub mod stack;
pub mod trans;

verus! {

/// Where an operand-reading micro-operation takes its byte from.
#[derive(Clone, Copy, PartialEq, Eq, Structural, Debug, Hash)]
pub enum ReadFrom {
    /// The byte at `pc`, which is then advanced.
    Immediate,
    /// The byte at the fetched zero-page address.
    ZeroPage,
    /// The byte at the effective address.
    Effective,
}

/// What one micro-operation (one CPU cycle) does.
#[derive(Clone, Copy, PartialEq, Eq, Structural, Debug, Hash)]
pub enum MicroFn {
    /// Step past the opcode byte.
    AdvancePc,
    /// Fetch a zero-page address from `pc`.
    FetchZpAddrLo,
    /// Fetch the low byte of an absolute address from `pc`.
    FetchAbsAddrLo,
    /// Fetch the high byte of an absolute address from `pc`.
    FetchAbsAddrHi,
    /// Fetch the high byte and add X, recording the page crossing.
    FetchAbsAddrHiAddX,
    /// Fetch the high byte and add Y, recording the page crossing.
    FetchAbsAddrHiAddY,
    /// Read the byte at the effective address into `tmp`.
    ReadZeroPage,
    /// Add X to the zero-page address (wrapping in page zero); dummy read.
    ReadZeroPageAddXDummy,
    /// Add Y to the zero-page address (wrapping in page zero); dummy read.
    ReadZeroPageAddYDummy,
    /// `(zp,X)`: dummy read while X is added.
    ReadIndirectXDummy,
    /// `(zp,X)`: read the pointer's low byte at `zp + X`.
    ReadIndirectXLo,
    /// `(zp,X)`: read the pointer's high byte at `zp + X + 1` and form the address.
    ReadIndirectXHi,
    /// `(zp),Y`: read the pointer's high byte, add Y, record the page crossing.
    ReadIndirectYHi,
    /// `JMP ($nnnn)`: read the target's low byte.
    ReadIndirectLo,
    /// `JMP ($nnnn)`: read the target's high byte, within the pointer's page.
    ReadIndirectHiBuggy,
    /// Fix-up read of an X-indexed address.
    DummyReadCrossX,
    /// Fix-up read of a Y-indexed address.
    DummyReadCrossY,
    /// A cycle that only reads the next byte.
    Empty,
    /// Read an operand and apply the mnemonic's operation to it.
    Read(Mnemonic, ReadFrom),
    /// Execute cycle `step` of the mnemonic.
    Exec(Mnemonic, u8),
    /// Shift or rotate the accumulator.
    Accumulator(Mnemonic),
    /// Shift or rotate the byte latched in `tmp` and write it at the effective address.
    ShiftWrite(Mnemonic),
    /// Fetch the high byte, latch `H + 1` in `tmp`, add the index (X when `true`).
    FetchHiCalcV(bool),
    /// `(zp),Y`: read the pointer's high byte H, latch `H + 1` in `tmp`, add Y.
    ReadIndirectYHiCalcV,
    /// Store a register masked by the latched `H + 1` (SHA, SHX, SHY, SHS).
    StoreMasked(Mnemonic),
    /// Read the byte to be modified into `base_lo`.
    RmwRead,
    /// DCP: write the byte back, then its decrement.
    DcpRmw,
    /// DCP: compare A with the decremented byte.
    DcpCompare,
    /// ISC: write the byte back, then its increment.
    IscRmw,
    /// ISC: subtract the incremented byte from A with borrow.
    IscSbc,
    /// SLO: write the byte back, then its left shift.
    SloRmw,
    /// SLO: OR the shifted byte into A.
    SloOra,
}

/// One cycle of an instruction: what it does, and the name its builder gives it.
#[derive(Clone, Copy, PartialEq, Eq, Structural, Debug, Hash)]
pub struct MicroOp {
    pub micro_fn: MicroFn,
    pub label: Label,
}

/// An instruction spelled out cycle by cycle.
pub struct MicroInstruction {
    pub opcode: Mnemonic,
    pub addressing: Addressing,
    pub micro_ops: Vec<MicroOp>,
}

/// The mnemonics whose operation a `Read` micro-operation can apply.
pub open spec fn is_read_op(mn: Mnemonic) -> bool {
    match mn {
        Mnemonic::LDA | Mnemonic::LDX | Mnemonic::LDY | Mnemonic::LAX | Mnemonic::LAS
        | Mnemonic::AND | Mnemonic::ORA | Mnemonic::EOR | Mnemonic::BIT | Mnemonic::ADC
        | Mnemonic::SBC | Mnemonic::CMP | Mnemonic::CPX | Mnemonic::CPY | Mnemonic::ANC
        | Mnemonic::ASR | Mnemonic::ARR | Mnemonic::SBX | Mnemonic::XAA | Mnemonic::NOP => true,
        _ => false,
    }
}

/// The mnemonics that shift or rotate.
pub open spec fn is_shift(mn: Mnemonic) -> bool {
    mn == Mnemonic::ASL || mn == Mnemonic::LSR || mn == Mnemonic::ROL || mn == Mnemonic::ROR
}

/// The mnemonics that store a masked register.
pub open spec fn is_masked_store(mn: Mnemonic) -> bool {
    mn == Mnemonic::SHA || mn == Mnemonic::SHX || mn == Mnemonic::SHY || mn == Mnemonic::SHS
}

/// XAA as micro-coded: `X & (A | $EE) & M -> A`, M being latched in `base_lo`.
pub open spec fn xaa_final_spec(c: Cpu) -> Cpu {
    let result = c.x & (c.a | 0xEE) & c.base_lo;
    Cpu { a: result, p: c.p.with_zn(result), ..c }
}

/// The effect of applying the operation of `mn` to the operand `v`.
pub open spec fn operand_op(mn: Mnemonic, c: Cpu, v: u8) -> Cpu {
    match mn {
        Mnemonic::LDA => lda_op(c, v),
        Mnemonic::LDX => ldx_op(c, v),
        Mnemonic::LDY => ldy_op(c, v),
        Mnemonic::LAX => lax_op(c, v),
        Mnemonic::LAS => las_op(c, v),
        Mnemonic::AND => and_op(c, v),
        Mnemonic::ORA => ora_op(c, v),
        Mnemonic::EOR => eor_op(c, v),
        Mnemonic::BIT => bit_op(c, v),
        Mnemonic::ADC => adc_op(c, v),
        Mnemonic::SBC => sbc_op(c, v),
        Mnemonic::CMP => compare_op(c, c.a, v),
        Mnemonic::CPX => compare_op(c, c.x, v),
        Mnemonic::CPY => compare_op(c, c.y, v),
        Mnemonic::ANC => anc_op(c, v),
        Mnemonic::ASR => asr_op(c, v),
        Mnemonic::ARR => arr_op(c, v),
        Mnemonic::SBX => sbx_op(c, v),
        Mnemonic::XAA => xaa_final_spec(Cpu { base_lo: v, ..c }),
        _ => c,
    }
}

/// The state after the operand byte has been read from `from`.
pub open spec fn read_operand(c: Cpu, m: Seq<u8>, from: ReadFrom) -> (Cpu, u8) {
    match from {
        ReadFrom::Immediate => (Cpu { pc: c.next_pc(), ..c }, rd(m, c.pc)),
        ReadFrom::ZeroPage => (c, rd(m, c.zp_addr as u16)),
        ReadFrom::Effective => (c, rd(m, c.effective_addr)),
    }
}

/// Add `index` to the absolute base formed with the high byte `hi`.
pub open spec fn hi_add_index(c: Cpu, hi: u8, index: u8, latch_opcodes: bool) -> Cpu {
    let base = ((hi as u16) << 8) | c.effective_addr;
    let addr = base.wrapping_add(index as u16);
    let c1 = if latch_opcodes {
        Cpu { tmp: hi, ..c }
    } else {
        c
    };
    Cpu { effective_addr: addr, ..c1.after_index(base, addr) }
}

/// The ISC subtraction as micro-coded: `A - M - !C` with borrow-based flags, M being `mem`.
pub open spec fn isc_sbc_spec(c: Cpu, mem: u8) -> Cpu {
    let borrow_in: u8 = if c.p.has(Status::CARRY) {
        0
    } else {
        1
    };
    let result = c.a.wrapping_sub(mem).wrapping_sub(borrow_in);
    let borrow = (c.a as u16) < (mem as u16 + borrow_in as u16);
    Cpu {
        a: result,
        p: c.p.with(Status::CARRY, !borrow).with(
            Status::OVERFLOW,
            ((c.a ^ result) & (c.a ^ mem) & 0x80) != 0,
        ).with_zn(result),
        ..c
    }
}

/// The micro-operation that performs `f`.
pub open spec fn op(f: MicroFn) -> MicroOp {
    MicroOp { micro_fn: f, label: Label::Standard }
}

/// The cycles that fetch the opcode's operand bytes and form the operand
/// address of `mode`, the opcode cycle first.
pub open spec fn address_ops(mode: Addressing) -> Seq<MicroOp> {
    match mode {
        Addressing::ZeroPage => seq![op(MicroFn::AdvancePc), op(MicroFn::FetchZpAddrLo)],
        Addressing::ZeroPageX => seq![
            op(MicroFn::AdvancePc),
            op(MicroFn::FetchZpAddrLo),
            op(MicroFn::ReadZeroPageAddXDummy),
        ],
        Addressing::ZeroPageY => seq![
            op(MicroFn::AdvancePc),
            op(MicroFn::FetchZpAddrLo),
            op(MicroFn::ReadZeroPageAddYDummy),
        ],
        Addressing::Absolute => seq![
            op(MicroFn::AdvancePc),
            op(MicroFn::FetchAbsAddrLo),
            op(MicroFn::FetchAbsAddrHi),
        ],
        Addressing::AbsoluteX => seq![
            op(MicroFn::AdvancePc),
            op(MicroFn::FetchAbsAddrLo),
            op(MicroFn::FetchAbsAddrHiAddX),
            op(MicroFn::DummyReadCrossX),
        ],
        Addressing::AbsoluteY => seq![
            op(MicroFn::AdvancePc),
            op(MicroFn::FetchAbsAddrLo),
            op(MicroFn::FetchAbsAddrHiAddY),
            op(MicroFn::DummyReadCrossY),
        ],
        Addressing::IndirectX => seq![
            op(MicroFn::AdvancePc),
            op(MicroFn::FetchZpAddrLo),
            op(MicroFn::ReadIndirectXDummy),
            op(MicroFn::ReadIndirectXLo),
            op(MicroFn::ReadIndirectXHi),
        ],
        Addressing::IndirectY => seq![
            op(MicroFn::AdvancePc),
            op(MicroFn::FetchZpAddrLo),
            op(MicroFn::ReadZeroPage),
            op(MicroFn::ReadIndirectYHi),
            op(MicroFn::DummyReadCrossY),
        ],
        _ => seq![op(MicroFn::AdvancePc)],
    }
}

/// Where the operand of `mode` is read from.
pub open spec fn read_from(mode: Addressing) -> ReadFrom {
    match mode {
        Addressing::Immediate => ReadFrom::Immediate,
        Addressing::ZeroPage => ReadFrom::ZeroPage,
        _ => ReadFrom::Effective,
    }
}

/// Whether `mode` ends its address cycles with a page-crossing fix-up read.
pub open spec fn has_fixup(mode: Addressing) -> bool {
    mode == Addressing::AbsoluteX || mode == Addressing::AbsoluteY || mode == Addressing::IndirectY
}

/// The address cycles of `mode` without the fix-up read, which then comes
/// after `ops` (the operand cycles); without a fix-up, the address cycles and `ops`.
pub open spec fn with_late_fixup(mode: Addressing, ops: Seq<MicroOp>) -> Seq<MicroOp> {
    if has_fixup(mode) {
        address_ops(mode).drop_last() + ops + seq![address_ops(mode).last()]
    } else {
        address_ops(mode) + ops
    }
}

/// Address cycles, then one cycle that reads the operand and applies `mn`.
pub open spec fn read_program(mn: Mnemonic, mode: Addressing) -> Seq<MicroOp> {
    address_ops(mode).push(op(MicroFn::Read(mn, read_from(mode))))
}

/// As `read_program`, with the page-crossing fix-up read after the operand read.
pub open spec fn read_then_fixup_program(mn: Mnemonic, mode: Addressing) -> Seq<MicroOp> {
    with_late_fixup(mode, seq![op(MicroFn::Read(mn, read_from(mode)))])
}

/// Address cycles, then the store cycle of `mn`.
pub open spec fn store_program(mn: Mnemonic, mode: Addressing) -> Seq<MicroOp> {
    address_ops(mode).push(op(MicroFn::Exec(mn, 0)))
}

/// Address cycles, then read the byte, write it back with its modification,
/// and combine it with A (DCP, ISC, SLO).
pub open spec fn rmw_program(mn: Mnemonic, mode: Addressing) -> Seq<MicroOp> {
    let (modify, combine) = match mn {
        Mnemonic::DCP => (MicroFn::DcpRmw, MicroFn::DcpCompare),
        Mnemonic::ISC => (MicroFn::IscRmw, MicroFn::IscSbc),
        _ => (MicroFn::SloRmw, MicroFn::SloOra),
    };
    address_ops(mode) + seq![op(MicroFn::RmwRead), op(modify), op(combine)]
}

/// Address cycles, then the read-modify-write cycles of the shift `mn`: read the
/// byte, write it back, write it shifted (whatever opcode is latched); with a
/// fix-up read, it comes before the final write.
pub open spec fn shift_memory_program(mn: Mnemonic, mode: Addressing) -> Seq<MicroOp> {
    if has_fixup(mode) {
        address_ops(mode).drop_last() + seq![
            op(MicroFn::Exec(mn, 0)),
            op(MicroFn::Exec(mn, 1)),
            address_ops(mode).last(),
            op(MicroFn::ShiftWrite(mn)),
        ]
    } else {
        address_ops(mode) + seq![
            op(MicroFn::Exec(mn, 0)),
            op(MicroFn::Exec(mn, 1)),
            op(MicroFn::ShiftWrite(mn)),
        ]
    }
}

/// The opcode cycle, then every execute cycle of the single-byte instruction `mn`.
pub open spec fn implied_program(mn: Mnemonic) -> Seq<MicroOp> {
    seq![op(MicroFn::AdvancePc)] + Seq::new(
        mn.exec_len_spec() as nat,
        |i: int| op(MicroFn::Exec(mn, i as u8)),
    )
}

/// The cycles of a store masked by the latched `H + 1` (SHA, SHX, SHY, SHS):
/// absolute indexed by X (`use_x`) or Y, or `(zp),Y` for the indirect form.
pub open spec fn masked_store_program(mn: Mnemonic, mode: Addressing) -> Seq<MicroOp> {
    if mode == Addressing::IndirectY {
        seq![
            op(MicroFn::AdvancePc),
            op(MicroFn::FetchZpAddrLo),
            op(MicroFn::ReadZeroPage),
            op(MicroFn::ReadIndirectYHiCalcV),
            op(MicroFn::DummyReadCrossY),
            op(MicroFn::StoreMasked(mn)),
        ]
    } else if mode == Addressing::AbsoluteX {
        seq![
            op(MicroFn::AdvancePc),
            op(MicroFn::FetchAbsAddrLo),
            op(MicroFn::FetchHiCalcV(true)),
            op(MicroFn::DummyReadCrossX),
            op(MicroFn::StoreMasked(mn)),
        ]
    } else {
        seq![
            op(MicroFn::AdvancePc),
            op(MicroFn::FetchAbsAddrLo),
            op(MicroFn::FetchHiCalcV(false)),
            op(MicroFn::DummyReadCrossY),
            op(MicroFn::StoreMasked(mn)),
        ]
    }
}

impl MicroOp {
    /// Whether the micro-operation can run: execute cycles name an existing cycle
    /// of their mnemonic, and the operations named fit their kind.
    pub open spec fn wf(self) -> bool {
        match self.micro_fn {
            MicroFn::Read(mn, _) => is_read_op(mn),
            MicroFn::Exec(mn, step) => step < mn.exec_len_spec(),
            MicroFn::Accumulator(mn) => is_shift(mn),
            MicroFn::ShiftWrite(mn) => is_shift(mn),
            MicroFn::StoreMasked(mn) => is_masked_store(mn),
            _ => true,
        }
    }

    /// What the micro-operation does to the CPU and memory.
    #[verifier::opaque]
    pub open spec fn spec_exec(self, c: Cpu, m: Seq<u8>) -> (Cpu, Seq<u8>) {
        match self.micro_fn {
            MicroFn::AdvancePc => (Cpu { pc: c.next_pc(), ..c }, m),
            MicroFn::FetchZpAddrLo => {
                let v = rd(m, c.pc);
                (Cpu { zp_addr: v, effective_addr: v as u16, pc: c.next_pc(), ..c }, m)
            },
            MicroFn::FetchAbsAddrLo => {
                let v = rd(m, c.pc);
                (Cpu { base_lo: v, effective_addr: v as u16, pc: c.next_pc(), ..c }, m)
            },
            MicroFn::FetchAbsAddrHi => (
                Cpu {
                    effective_addr: ((rd(m, c.pc) as u16) << 8) | c.effective_addr,
                    pc: c.next_pc(),
                    ..c
                },
                m,
            ),
            MicroFn::FetchAbsAddrHiAddX => (
                hi_add_index(
                    Cpu { pc: c.next_pc(), ..c },
                    rd(m, c.pc),
                    c.x,
                    c.opcode_in_flight == Some(0x9Cu8),
                ),
                m,
            ),
            MicroFn::FetchAbsAddrHiAddY => (
                hi_add_index(
                    Cpu { pc: c.next_pc(), ..c },
                    rd(m, c.pc),
                    c.y,
                    c.opcode_in_flight == Some(0x9Fu8) || c.opcode_in_flight == Some(0x9Eu8)
                        || c.opcode_in_flight == Some(0x9Bu8),
                ),
                m,
            ),
            MicroFn::ReadZeroPage | MicroFn::ReadIndirectLo => (
                Cpu { tmp: rd(m, c.effective_addr), ..c },
                m,
            ),
            MicroFn::ReadZeroPageAddXDummy => (
                Cpu { effective_addr: c.effective_addr.wrapping_add(c.x as u16) & 0x00FF, ..c },
                m,
            ),
            MicroFn::ReadZeroPageAddYDummy => (
                Cpu { effective_addr: c.effective_addr.wrapping_add(c.y as u16) & 0x00FF, ..c },
                m,
            ),
            MicroFn::ReadIndirectXLo => (
                Cpu {
                    tmp: rd(m, c.effective_addr.wrapping_add(c.x as u16) & 0x00FF),
                    ..c
                },
                m,
            ),
            MicroFn::ReadIndirectXHi => {
                let ptr = c.effective_addr.wrapping_add(c.x as u16).wrapping_add(1) & 0x00FF;
                (Cpu { effective_addr: word(c.tmp, rd(m, ptr)), ..c }, m)
            },
            MicroFn::ReadIndirectYHi => {
                let hi = rd(m, c.effective_addr.wrapping_add(1) & 0x00FF);
                let base = word(c.tmp, hi);
                let addr = base.wrapping_add(c.y as u16);
                let c1 = if c.opcode_in_flight == Some(0x93u8) {
                    Cpu { tmp: hi, ..c }
                } else {
                    c
                };
                (Cpu { effective_addr: addr, ..c1.after_index(base, addr) }, m)
            },
            MicroFn::ReadIndirectHiBuggy => {
                let hi_addr = if (c.effective_addr & 0xFF) == 0xFF {
                    c.effective_addr & 0xFF00
                } else {
                    c.effective_addr.wrapping_add(1)
                };
                (Cpu { effective_addr: word(c.tmp, rd(m, hi_addr)), ..c }, m)
            },
            MicroFn::ReadIndirectXDummy | MicroFn::DummyReadCrossX | MicroFn::DummyReadCrossY
            | MicroFn::Empty => (c, m),
            MicroFn::Read(mn, from) => {
                let (c1, v) = read_operand(c, m, from);
                (operand_op(mn, c1, v), m)
            },
            MicroFn::Exec(mn, step) => exec_cycle(mn, c, m, step),
            MicroFn::Accumulator(mn) => (
                Cpu { a: shift_result(mn, c.a, c.p), p: shift_flags(mn, c.a, c.p), ..c },
                m,
            ),
            MicroFn::ShiftWrite(mn) => {
                let r = shift_result(mn, c.tmp, c.p);
                (Cpu { tmp: r, p: shift_flags(mn, c.tmp, c.p), ..c }, wr(m, c.effective_addr, r))
            },
            MicroFn::FetchHiCalcV(use_x) => {
                let hi = rd(m, c.pc);
                let base = ((hi as u16) << 8) | (c.base_lo as u16);
                let index = if use_x {
                    c.x
                } else {
                    c.y
                };
                (
                    Cpu {
                        tmp: hi.wrapping_add(1),
                        effective_addr: base.wrapping_add(index as u16),
                        pc: c.next_pc(),
                        ..c
                    },
                    m,
                )
            },
            MicroFn::ReadIndirectYHiCalcV => {
                let hi = rd(m, c.effective_addr.wrapping_add(1) & 0x00FF);
                let base = word(c.tmp, hi);
                let addr = base.wrapping_add(c.y as u16);
                (
                    Cpu {
                        effective_addr: addr,
                        ..Cpu { tmp: hi.wrapping_add(1), ..c }.after_index(base, addr)
                    },
                    m,
                )
            },
            MicroFn::StoreMasked(mn) => match mn {
                Mnemonic::SHA => (c, wr(m, c.effective_addr, c.a & c.x & c.tmp)),
                Mnemonic::SHX => (c, wr(m, c.effective_addr, c.x & c.tmp)),
                Mnemonic::SHY => (c, wr(m, c.effective_addr, c.y & c.tmp)),
                _ => (Cpu { s: c.a & c.x, ..c }, wr(m, c.effective_addr, (c.a & c.x) & c.tmp)),
            },
            MicroFn::RmwRead => (Cpu { base_lo: rd(m, c.effective_addr), ..c }, m),
            MicroFn::DcpRmw => (
                Cpu { base_lo: c.base_lo.wrapping_sub(1), ..c },
                wr(wr(m, c.effective_addr, c.base_lo), c.effective_addr, c.base_lo.wrapping_sub(1)),
            ),
            MicroFn::DcpCompare => (compare_op(c, c.a, c.base_lo), m),
            MicroFn::IscRmw => (
                Cpu { base_lo: c.base_lo.wrapping_add(1), ..c },
                wr(wr(m, c.effective_addr, c.base_lo), c.effective_addr, c.base_lo.wrapping_add(1)),
            ),
            MicroFn::IscSbc => (isc_sbc_spec(c, c.base_lo), m),
            MicroFn::SloRmw => (
                Cpu {
                    base_lo: c.base_lo << 1u8,
                    p: c.p.with(Status::CARRY, c.base_lo & BIT_7 != 0),
                    ..c
                },
                wr(wr(m, c.effective_addr, c.base_lo), c.effective_addr, c.base_lo << 1u8),
            ),
            MicroFn::SloOra => {
                let result = c.a | c.base_lo;
                (Cpu { a: result, p: c.p.with_zn(result), ..c }, m)
            },
        }
    }
}

impl MicroOp {
    /// The name of the cycle: the builder's label, or else the name of what it does.
    pub open spec fn name_spec(self) -> Seq<char> {
        if self.label == Label::Standard {
            standard_name_spec(self.micro_fn)
        } else {
            self.label.text_spec()
        }
    }

    /// The name of the cycle (`inc_pc`, `fetch_abs_addr_lo`, `rra_read_old`, ...).
    pub fn name(&self) -> (r: &'static str)
        ensures
            r@ == self.name_spec(),
    {
        if self.label == Label::Standard {
            standard_name(self.micro_fn)
        } else {
            self.label.text()
        }
    }
}

/// What each cycle of `ops` does, its names left out.
pub open spec fn fns(ops: Seq<MicroOp>) -> Seq<MicroFn> {
    ops.map_values(|o: MicroOp| o.micro_fn)
}

/// The builder's label of each cycle of `ops`.
pub open spec fn labels(ops: Seq<MicroOp>) -> Seq<Label> {
    ops.map_values(|o: MicroOp| o.label)
}

/// Run a sequence of micro-operations, first to last.
pub open spec fn run_ops(ops: Seq<MicroOp>, c: Cpu, m: Seq<u8>) -> (Cpu, Seq<u8>)
    decreases ops.len(),
{
    if ops.len() == 0 {
        (c, m)
    } else {
        let (c1, m1) = run_ops(ops.drop_last(), c, m);
        ops.last().spec_exec(c1, m1)
    }
}

/// Running two sequences whose cycles do the same, whatever their names, ends
/// in the same state.
pub proof fn lemma_run_ops_fns(a: Seq<MicroOp>, b: Seq<MicroOp>, c: Cpu, m: Seq<u8>)
    requires
        fns(a) == fns(b),
    ensures
        run_ops(a, c, m) == run_ops(b, c, m),
    decreases a.len(),
{
    assert(a.len() == fns(a).len() && b.len() == fns(b).len());
    if a.len() > 0 {
        assert(fns(a.drop_last()) =~= fns(b.drop_last())) by {
            assert forall|i: int| 0 <= i < a.len() - 1 implies a.drop_last()[i].micro_fn
                == b.drop_last()[i].micro_fn by {
                assert(fns(a)[i] == a[i].micro_fn);
                assert(fns(b)[i] == b[i].micro_fn);
                assert(a.drop_last()[i] == a[i]);
                assert(b.drop_last()[i] == b[i]);
            }
        }
        lemma_run_ops_fns(a.drop_last(), b.drop_last(), c, m);
        assert(fns(a)[a.len() - 1] == a.last().micro_fn);
        assert(fns(b)[b.len() - 1] == b.last().micro_fn);
        reveal(MicroOp::spec_exec);
    }
}

/// Whether every micro-operation of the sequence can run.
pub open spec fn all_wf(ops: Seq<MicroOp>) -> bool {
    forall|i: int| 0 <= i < ops.len() ==> (#[trigger] ops[i]).wf()
}

impl MicroInstruction {
    /// Whether every micro-operation of the instruction can run.
    pub open spec fn wf(&self) -> bool {
        all_wf(self.micro_ops@)
    }
}

/// Add with carry into the accumulator. The decimal flag has no effect on the
/// NES CPU: the addition is always binary.
pub fn adc_core(cpu: &mut Cpu, mem: u8)
    ensures
        *final(cpu) == adc_op(*old(cpu), mem),
{
    let carry_in: u16 = if cpu.p.contains(Status::CARRY) {
        1
    } else {
        0
    };
    let sum = cpu.a as u16 + mem as u16 + carry_in;
    let result = sum as u8;
    cpu.p.set_c(sum > 0xFF);
    cpu.p.set_v((!(cpu.a ^ mem) & (cpu.a ^ result) & BIT_7) != 0);
    cpu.a = result;
    cpu.p.set_zn(result);
}

/// XAA: `X & (A | $EE) & M -> A` with M latched in `base_lo`; N and Z from the result.
pub fn xaa_final(cpu: &mut Cpu)
    ensures
        *final(cpu) == xaa_final_spec(*old(cpu)),
{
    let magic = cpu.a | 0xEE;
    let result = cpu.x & magic & cpu.base_lo;
    cpu.a = result;
    cpu.p.set_zn(result);
}

/// Apply the operation of `mn` to the operand `v`.
fn apply_operand(cpu: &mut Cpu, mn: Mnemonic, v: u8)
    requires
        is_read_op(mn),
    ensures
        *final(cpu) == operand_op(mn, *old(cpu), v),
{
    match mn {
        Mnemonic::LDA => {
            cpu.a = v;
            cpu.p.set_zn(v);
        },
        Mnemonic::LDX => {
            cpu.x = v;
            cpu.p.set_zn(v);
        },
        Mnemonic::LDY => {
            cpu.y = v;
            cpu.p.set_zn(v);
        },
        Mnemonic::LAX => {
            cpu.a = v;
            cpu.x = v;
            cpu.p.set_zn(v);
        },
        Mnemonic::LAS => {
            let r = v & cpu.s;
            cpu.a = r;
            cpu.x = r;
            cpu.s = r;
            cpu.p.set_zn(r);
        },
        Mnemonic::AND => {
            cpu.a = cpu.a & v;
            cpu.p.set_zn(cpu.a);
        },
        Mnemonic::ORA => {
            cpu.a = cpu.a | v;
            cpu.p.set_zn(cpu.a);
        },
        Mnemonic::EOR => {
            cpu.a = cpu.a ^ v;
            cpu.p.set_zn(cpu.a);
        },
        Mnemonic::BIT => {
            let and = cpu.a & v;
            cpu.p.set_z(and == 0);
            cpu.p.set_n(v & 0x80 != 0);
            cpu.p.set_v(v & 0x40 != 0);
        },
        Mnemonic::ADC => {
            adc_core(cpu, v);
        },
        Mnemonic::SBC => {
            let carry_in: u16 = if cpu.p.c() {
                1
            } else {
                0
            };
            let value = (!v) as u16;
            let sum = cpu.a as u16 + value + carry_in;
            let result = sum as u8;
            cpu.p.set_v(((cpu.a ^ result) & (value as u8 ^ result) & BIT_7) != 0);
            cpu.p.set_c(sum > 0xFF);
            cpu.a = result;
            cpu.p.set_zn(result);
        },
        Mnemonic::CMP => {
            let result = cpu.a.wrapping_sub(v);
            cpu.p.set_c(cpu.a >= v);
            cpu.p.set_zn(result);
        },
        Mnemonic::CPX => {
            let result = cpu.x.wrapping_sub(v);
            cpu.p.set_c(cpu.x >= v);
            cpu.p.set_zn(result);
        },
        Mnemonic::CPY => {
            let result = cpu.y.wrapping_sub(v);
            cpu.p.set_c(cpu.y >= v);
            cpu.p.set_zn(result);
        },
        Mnemonic::ANC => {
            cpu.a = cpu.a & v;
            cpu.p.set_zn(cpu.a);
            cpu.p.set_c(cpu.a & BIT_7 != 0);
        },
        Mnemonic::ASR => {
            cpu.a = cpu.a & v;
            cpu.p.set_c(cpu.a & 0x01 != 0);
            cpu.a = cpu.a >> 1u8;
            cpu.p.set_zn(cpu.a);
        },
        Mnemonic::ARR => {
            cpu.a = cpu.a & v;
            let carry_in = if cpu.p.c() {
                BIT_7
            } else {
                0
            };
            cpu.a = (cpu.a >> 1u8) | carry_in;
            cpu.p.set_n(cpu.a & BIT_7 != 0);
            cpu.p.set_z(cpu.a == 0);
            cpu.p.set_v(((cpu.a & 0x40) != 0) != ((cpu.a & 0x20) != 0));
            cpu.p.set_c(cpu.a & 0x40 != 0);
        },
        Mnemonic::SBX => {
            let value = (cpu.a & cpu.x).wrapping_sub(v);
            cpu.p.set_c((cpu.a & cpu.x) >= v);
            cpu.x = value;
            cpu.p.set_zn(cpu.x);
        },
        Mnemonic::XAA => {
            cpu.base_lo = v;
            xaa_final(cpu);
        },
        _ => {},
    }
}

impl MicroOp {
    /// Cycle 1: the opcode has been fetched; step `pc` past it.
    pub fn advance_pc_after_opcode() -> (r: Self)
        ensures
            r.micro_fn == MicroFn::AdvancePc,
            r.label == Label::Standard,
    {
        MicroOp { micro_fn: MicroFn::AdvancePc, label: Label::Standard }
    }

    /// Read a zero-page address byte from `pc` and advance `pc`.
    pub fn fetch_zp_addr_lo() -> (r: Self)
        ensures
            r.micro_fn == MicroFn::FetchZpAddrLo,
            r.label == Label::Standard,
    {
        MicroOp { micro_fn: MicroFn::FetchZpAddrLo, label: Label::Standard }
    }

    /// Fetch the low byte of an absolute address from `pc` and advance `pc`.
    pub fn fetch_abs_addr_lo() -> (r: Self)
        ensures
            r.micro_fn == MicroFn::FetchAbsAddrLo,
            r.label == Label::Standard,
    {
        MicroOp { micro_fn: MicroFn::FetchAbsAddrLo, label: Label::Standard }
    }

    /// Fetch the high byte of an absolute address, forming the full address.
    pub fn fetch_abs_addr_hi() -> (r: Self)
        ensures
            r.micro_fn == MicroFn::FetchAbsAddrHi,
            r.label == Label::Standard,
    {
        MicroOp { micro_fn: MicroFn::FetchAbsAddrHi, label: Label::Standard }
    }

    /// Fetch the high byte, add X and detect a page crossing.
    pub fn fetch_abs_addr_hi_add_x() -> (r: Self)
        ensures
            r.micro_fn == MicroFn::FetchAbsAddrHiAddX,
            r.label == Label::Standard,
    {
        MicroOp { micro_fn: MicroFn::FetchAbsAddrHiAddX, label: Label::Standard }
    }

    /// Fetch the high byte, add Y and detect a page crossing.
    pub fn fetch_abs_addr_hi_add_y() -> (r: Self)
        ensures
            r.micro_fn == MicroFn::FetchAbsAddrHiAddY,
            r.label == Label::Standard,
    {
        MicroOp { micro_fn: MicroFn::FetchAbsAddrHiAddY, label: Label::Standard }
    }

    /// Read the byte at the zero-page address into `tmp`.
    pub fn read_zero_page() -> (r: Self)
        ensures
            r.micro_fn == MicroFn::ReadZeroPage,
            r.label == Label::Standard,
    {
        MicroOp { micro_fn: MicroFn::ReadZeroPage, label: Label::Standard }
    }

    /// Add X to the zero-page address with wrap-around; dummy read.
    pub fn read_zero_page_add_x_dummy() -> (r: Self)
        ensures
            r.micro_fn == MicroFn::ReadZeroPageAddXDummy,
            r.label == Label::Standard,
    {
        MicroOp { micro_fn: MicroFn::ReadZeroPageAddXDummy, label: Label::Standard }
    }

    /// Add Y to the zero-page address with wrap-around; dummy read.
    pub fn read_zero_page_add_y_dummy() -> (r: Self)
        ensures
            r.micro_fn == MicroFn::ReadZeroPageAddYDummy,
            r.label == Label::Standard,
    {
        MicroOp { micro_fn: MicroFn::ReadZeroPageAddYDummy, label: Label::Standard }
    }

    /// `(zp,X)`: dummy read at `(zp + X) & $FF`.
    pub fn read_indirect_x_dummy() -> (r: Self)
        ensures
            r.micro_fn == MicroFn::ReadIndirectXDummy,
            r.label == Label::Standard,
    {
        MicroOp { micro_fn: MicroFn::ReadIndirectXDummy, label: Label::Standard }
    }

    /// `(zp,X)`: read the low byte of the effective address at `(zp + X) & $FF`.
    pub fn read_indirect_x_lo() -> (r: Self)
        ensures
            r.micro_fn == MicroFn::ReadIndirectXLo,
            r.label == Label::Standard,
    {
        MicroOp { micro_fn: MicroFn::ReadIndirectXLo, label: Label::Standard }
    }

    /// `(zp,X)`: read the high byte at `(zp + X + 1) & $FF` and form the address.
    pub fn read_indirect_x_hi() -> (r: Self)
        ensures
            r.micro_fn == MicroFn::ReadIndirectXHi,
            r.label == Label::Standard,
    {
        MicroOp { micro_fn: MicroFn::ReadIndirectXHi, label: Label::Standard }
    }

    /// `(zp),Y`: read the high byte at `(zp + 1) & $FF`, add Y, detect page crossing.
    pub fn read_indirect_y_hi() -> (r: Self)
        ensures
            r.micro_fn == MicroFn::ReadIndirectYHi,
            r.label == Label::Standard,
    {
        MicroOp { micro_fn: MicroFn::ReadIndirectYHi, label: Label::Standard }
    }

    /// `JMP ($nnnn)`: read the low byte of the target from the pointer.
    pub fn read_indirect_lo() -> (r: Self)
        ensures
            r.micro_fn == MicroFn::ReadIndirectLo,
            r.label == Label::Standard,
    {
        MicroOp { micro_fn: MicroFn::ReadIndirectLo, label: Label::Standard }
    }

    /// `JMP ($nnnn)`: read the high byte of the target; a pointer ending in $FF
    /// takes it from `$xx00` of the same page.
    pub fn read_indirect_hi_buggy() -> (r: Self)
        ensures
            r.micro_fn == MicroFn::ReadIndirectHiBuggy,
            r.label == Label::Standard,
    {
        MicroOp { micro_fn: MicroFn::ReadIndirectHiBuggy, label: Label::Standard }
    }

    /// Dummy read for Absolute,X when a page boundary is crossed.
    pub fn dummy_read_cross_x() -> (r: Self)
        ensures
            r.micro_fn == MicroFn::DummyReadCrossX,
            r.label == Label::Standard,
    {
        MicroOp { micro_fn: MicroFn::DummyReadCrossX, label: Label::Standard }
    }

    /// Dummy read for Absolute,Y or (Indirect),Y when a page boundary is crossed.
    pub fn dummy_read_cross_y() -> (r: Self)
        ensures
            r.micro_fn == MicroFn::DummyReadCrossY,
            r.label == Label::Standard,
    {
        MicroOp { micro_fn: MicroFn::DummyReadCrossY, label: Label::Standard }
    }







    /// Execute this micro-operation.
    #[verifier::rlimit(100)]
    #[verifier::spinoff_prover]
    pub fn exec(&self, cpu: &mut Cpu, bus: &mut CpuBus)
        requires
            self.wf(),
        ensures
            (*final(cpu), final(bus)@) == self.spec_exec(*old(cpu), old(bus)@),
    {
        proof {
            reveal(MicroOp::spec_exec);
        }
        match self.micro_fn {
            MicroFn::AdvancePc => {
                cpu.incr_pc();
            },
            MicroFn::FetchZpAddrLo => {
                let v = cpu.fetch_u8(bus);
                cpu.zp_addr = v;
                cpu.effective_addr = v as u16;
            },
            MicroFn::FetchAbsAddrLo => {
                let v = cpu.fetch_u8(bus);
                cpu.base_lo = v;
                cpu.effective_addr = v as u16;
            },
            MicroFn::FetchAbsAddrHi => {
                let hi = cpu.fetch_u8(bus);
                cpu.effective_addr = ((hi as u16) << 8) | cpu.effective_addr;
            },
            MicroFn::FetchAbsAddrHiAddX => {
                let latch = cpu.opcode_in_flight == Some(0x9Cu8);
                let hi = cpu.fetch_u8(bus);
                let base = ((hi as u16) << 8) | cpu.effective_addr;
                if latch {
                    cpu.tmp = hi;
                }
                let addr = base.wrapping_add(cpu.x as u16);
                cpu.skip_optional_dummy_read_cycle(base, addr);
                cpu.effective_addr = addr;
            },
            MicroFn::FetchAbsAddrHiAddY => {
                let latch = cpu.opcode_in_flight == Some(0x9Fu8) || cpu.opcode_in_flight == Some(
                    0x9Eu8,
                ) || cpu.opcode_in_flight == Some(0x9Bu8);
                let hi = cpu.fetch_u8(bus);
                let base = ((hi as u16) << 8) | cpu.effective_addr;
                if latch {
                    cpu.tmp = hi;
                }
                let addr = base.wrapping_add(cpu.y as u16);
                cpu.skip_optional_dummy_read_cycle(base, addr);
                cpu.effective_addr = addr;
            },
            MicroFn::ReadZeroPage | MicroFn::ReadIndirectLo => {
                cpu.tmp = bus.read(cpu.effective_addr);
            },
            MicroFn::ReadZeroPageAddXDummy => {
                let addr = cpu.effective_addr.wrapping_add(cpu.x as u16) & 0x00FF;
                let _ = bus.read(addr);
                cpu.effective_addr = addr;
            },
            MicroFn::ReadZeroPageAddYDummy => {
                let addr = cpu.effective_addr.wrapping_add(cpu.y as u16) & 0x00FF;
                let _ = bus.read(addr);
                cpu.effective_addr = addr;
            },
            MicroFn::ReadIndirectXDummy => {
                let ptr = cpu.effective_addr.wrapping_add(cpu.x as u16) & 0x00FF;
                let _ = bus.read(ptr);
            },
            MicroFn::ReadIndirectXLo => {
                let ptr = cpu.effective_addr.wrapping_add(cpu.x as u16) & 0x00FF;
                cpu.tmp = bus.read(ptr);
            },
            MicroFn::ReadIndirectXHi => {
                let ptr = cpu.effective_addr.wrapping_add(cpu.x as u16).wrapping_add(1) & 0x00FF;
                let hi = bus.read(ptr);
                cpu.effective_addr = ((hi as u16) << 8) | cpu.tmp as u16;
            },
            MicroFn::ReadIndirectYHi => {
                let hi_addr = cpu.effective_addr.wrapping_add(1) & 0x00FF;
                let hi = bus.read(hi_addr);
                let base = ((hi as u16) << 8) | (cpu.tmp as u16);
                if cpu.opcode_in_flight == Some(0x93u8) {
                    cpu.tmp = hi;
                }
                let addr = base.wrapping_add(cpu.y as u16);
                cpu.skip_optional_dummy_read_cycle(base, addr);
                cpu.effective_addr = addr;
            },
            MicroFn::ReadIndirectHiBuggy => {
                let hi_addr = if (cpu.effective_addr & 0xFF) == 0xFF {
                    cpu.effective_addr & 0xFF00
                } else {
                    cpu.effective_addr.wrapping_add(1)
                };
                let hi = bus.read(hi_addr);
                cpu.effective_addr = ((hi as u16) << 8) | (cpu.tmp as u16);
            },
            MicroFn::DummyReadCrossX => {
                let base = cpu.effective_addr.wrapping_sub(cpu.x as u16);
                let dummy_addr = (base & 0xFF00) | (cpu.effective_addr & 0x00FF);
                let _ = bus.read(dummy_addr);
            },
            MicroFn::DummyReadCrossY => {
                let base = cpu.effective_addr.wrapping_sub(cpu.y as u16);
                let dummy_addr = (base & 0xFF00) | (cpu.effective_addr & 0x00FF);
                let _ = bus.read(dummy_addr);
            },
            MicroFn::Empty => {
                empty_micro_fn(cpu, bus);
            },
            MicroFn::Read(mn, from) => {
                let v = match from {
                    ReadFrom::Immediate => cpu.fetch_u8(bus),
                    ReadFrom::ZeroPage => bus.read(cpu.zp_addr as u16),
                    ReadFrom::Effective => bus.read(cpu.effective_addr),
                };
                apply_operand(cpu, mn, v);
            },
            MicroFn::Exec(mn, step) => {
                mn.exec(cpu, bus, step);
                proof {
                    reveal(exec_cycle);
                }
            },
            MicroFn::Accumulator(mn) => {
                let a = cpu.a;
                cpu.a = shift_value(&mut cpu.p, mn, a);
            },
            MicroFn::ShiftWrite(mn) => {
                let v = cpu.tmp;
                let r = shift_value(&mut cpu.p, mn, v);
                cpu.tmp = r;
                bus.write(cpu.effective_addr, r);
            },
            MicroFn::FetchHiCalcV(use_x) => {
                let hi = bus.read(cpu.pc);
                let v = hi.wrapping_add(1);
                cpu.tmp = v;
                let base = ((hi as u16) << 8) | cpu.base_lo as u16;
                let index = if use_x {
                    cpu.x
                } else {
                    cpu.y
                };
                cpu.effective_addr = base.wrapping_add(index as u16);
                cpu.incr_pc();
            },
            MicroFn::ReadIndirectYHiCalcV => {
                let hi_addr = cpu.effective_addr.wrapping_add(1) & 0x00FF;
                let hi = bus.read(hi_addr);
                let base = ((hi as u16) << 8) | (cpu.tmp as u16);
                cpu.tmp = hi.wrapping_add(1);
                let addr = base.wrapping_add(cpu.y as u16);
                cpu.skip_optional_dummy_read_cycle(base, addr);
                cpu.effective_addr = addr;
            },
            MicroFn::StoreMasked(mn) => {
                match mn {
                    Mnemonic::SHA => {
                        let result = cpu.a & cpu.x & cpu.tmp;
                        bus.write(cpu.effective_addr, result);
                    },
                    Mnemonic::SHX => {
                        let result = cpu.x & cpu.tmp;
                        bus.write(cpu.effective_addr, result);
                    },
                    Mnemonic::SHY => {
                        let result = cpu.y & cpu.tmp;
                        bus.write(cpu.effective_addr, result);
                    },
                    _ => {
                        cpu.s = cpu.a & cpu.x;
                        let result = cpu.s & cpu.tmp;
                        bus.write(cpu.effective_addr, result);
                    },
                }
            },
            MicroFn::RmwRead => {
                cpu.base_lo = bus.read(cpu.effective_addr);
            },
            MicroFn::DcpRmw => {
                dcp_rmw(cpu, bus);
            },
            MicroFn::DcpCompare => {
                dcp_compare(cpu);
            },
            MicroFn::IscRmw => {
                isc_rmw(cpu, bus);
            },
            MicroFn::IscSbc => {
                isc_sbc(cpu);
            },
            MicroFn::SloRmw => {
                slo_rmw(cpu, bus);
            },
            MicroFn::SloOra => {
                slo_ora(cpu);
            },
        }
    }
}

/// A cycle that only performs a dummy read of the next byte.
pub fn empty_micro_fn(cpu: &mut Cpu, bus: &mut CpuBus)
    ensures
        *final(cpu) == *old(cpu),
        final(bus)@ == old(bus)@,
{
    let _ = bus.read(cpu.pc);
}

/// DCP: write the old byte back, then its decrement; keep the decrement in `base_lo`.
fn dcp_rmw(cpu: &mut Cpu, bus: &mut CpuBus)
    ensures
        (*final(cpu), final(bus)@) == (MicroOp { micro_fn: MicroFn::DcpRmw, label: Label::Standard }).spec_exec(
            *old(cpu),
            old(bus)@,
        ),
{
    proof {
        reveal(MicroOp::spec_exec);
    }
    let old = cpu.base_lo;
    bus.write(cpu.effective_addr, old);
    let new = old.wrapping_sub(1);
    cpu.base_lo = new;
    bus.write(cpu.effective_addr, new);
}

/// DCP: compare A with the decremented byte.
fn dcp_compare(cpu: &mut Cpu)
    ensures
        *final(cpu) == compare_op(*old(cpu), old(cpu).a, old(cpu).base_lo),
{
    let mem = cpu.base_lo;
    let a = cpu.a;
    let result = a.wrapping_sub(mem);
    cpu.p.set_c(a >= mem);
    cpu.p.set_zn(result);
}

/// ISC: write the old byte back, then its increment; keep the increment in `base_lo`.
fn isc_rmw(cpu: &mut Cpu, bus: &mut CpuBus)
    ensures
        (*final(cpu), final(bus)@) == (MicroOp { micro_fn: MicroFn::IscRmw, label: Label::Standard }).spec_exec(
            *old(cpu),
            old(bus)@,
        ),
{
    proof {
        reveal(MicroOp::spec_exec);
    }
    let old = cpu.base_lo;
    bus.write(cpu.effective_addr, old);
    let new = old.wrapping_add(1);
    cpu.base_lo = new;
    bus.write(cpu.effective_addr, new);
}

/// ISC: subtract the incremented byte and the borrow from A.
fn isc_sbc(cpu: &mut Cpu)
    ensures
        *final(cpu) == isc_sbc_spec(*old(cpu), old(cpu).base_lo),
{
    let mem = cpu.base_lo;
    let a = cpu.a;
    let c: u8 = if cpu.p.contains(Status::CARRY) {
        0
    } else {
        1
    };
    let result = a.wrapping_sub(mem).wrapping_sub(c);
    let borrow = (a as u16) < (mem as u16 + c as u16);
    cpu.p.set_c(!borrow);
    let overflow = ((a ^ result) & (a ^ mem) & 0x80) != 0;
    cpu.p.set_v(overflow);
    cpu.a = result;
    cpu.p.set_zn(result);
}

/// SLO: write the old byte back, then its left shift; C takes the old bit 7.
fn slo_rmw(cpu: &mut Cpu, bus: &mut CpuBus)
    ensures
        (*final(cpu), final(bus)@) == (MicroOp { micro_fn: MicroFn::SloRmw, label: Label::Standard }).spec_exec(
            *old(cpu),
            old(bus)@,
        ),
{
    proof {
        reveal(MicroOp::spec_exec);
    }
    let old = cpu.base_lo;
    bus.write(cpu.effective_addr, old);
    let new = old << 1u8;
    let carry_out = old & 0x80 != 0;
    cpu.base_lo = new;
    cpu.p.set_c(carry_out);
    bus.write(cpu.effective_addr, new);
}

/// SLO: OR the shifted byte into A.
fn slo_ora(cpu: &mut Cpu)
    ensures
        *final(cpu) == (MicroOp { micro_fn: MicroFn::SloOra, label: Label::Standard }).spec_exec(*old(cpu), Seq::empty()).0,
{
    proof {
        reveal(MicroOp::spec_exec);
    }
    let result = cpu.a | cpu.base_lo;
    cpu.a = result;
    cpu.p.set_zn(result);
}

impl Cpu {
    /// Run every micro-operation of `instr`, first to last.
    pub fn test_clock(&mut self, bus: &mut CpuBus, instr: &MicroInstruction)
        requires
            instr.wf(),
        ensures
            (*final(self), final(bus)@) == run_ops(instr.micro_ops@, *old(self), old(bus)@),
    {
        let ops = &instr.micro_ops;
        let n = ops.len();
        let mut i: usize = 0;
        while i < n
            invariant
                n == ops@.len(),
                i <= n,
                all_wf(ops@),
                (*self, bus@) == run_ops(ops@.take(i as int), *old(self), old(bus)@),
            decreases n - i,
        {
            let op = ops[i];
            op.exec(self, bus);
            proof {
                assert(ops@.take(i + 1).drop_last() =~= ops@.take(i as int));
            }
            i += 1;
        }
        proof {
            assert(ops@.take(n as int) =~= ops@);
        }
    }
}

impl Mnemonic {
    /// The execute cycles of this mnemonic as micro-operations, in order.
    pub fn micro_ops(&self) -> (r: Vec<MicroOp>)
        ensures
            r@.len() == self.exec_len_spec(),
            forall|i: int|
                0 <= i < r@.len() ==> #[trigger] r@[i] == (MicroOp {
                    micro_fn: MicroFn::Exec(*self, i as u8),
                    label: Label::Standard,
                }),
    {
        let n = self.exec_len();
        let mut ops: Vec<MicroOp> = Vec::new();
        let mut k: u8 = 0;
        while k < n
            invariant
                n == self.exec_len_spec(),
                k <= n,
                ops@.len() == k,
                forall|i: int|
                    0 <= i < ops@.len() ==> #[trigger] ops@[i] == (MicroOp {
                        micro_fn: MicroFn::Exec(*self, i as u8),
                        label: Label::Standard,
                    }),
            decreases n - k,
        {
            ops.push(MicroOp { micro_fn: MicroFn::Exec(*self, k), label: Label::Standard });
            k += 1;
        }
        ops
    }
}

} // verus!
