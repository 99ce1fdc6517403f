//! Cycle programs of the arithmetic and compare instructions.

use vstd::prelude::*;

use crate::addressing::Addressing;
use crate::micro_op::{MicroFn, MicroInstruction, MicroOp, ReadFrom, fns, labels, read_program, read_then_fixup_program, rmw_program};
use crate::micro_op::names::Label;
use crate::instruction::Instruction;
use crate::lookup::lookup_spec;
use crate::mnemonic::Mnemonic;
use crate::timing::timing_spec;

verus! {

/// `ADC`, immediate (opcode $69; one cycle per micro-operation, the page-crossing one included): the address cycles, then the operand read; a page-crossing fix-up read comes last.
pub fn adc_immediate() -> (r: MicroInstruction)
    ensures
        r.opcode == Mnemonic::ADC,
        r.addressing == Addressing::Immediate,
        fns(r.micro_ops@) == fns(read_then_fixup_program(Mnemonic::ADC, Addressing::Immediate)),
        labels(r.micro_ops@) == seq![Label::IncPc, Label::AdcImm],
        r.wf(),
        lookup_spec(0x69u8) == (Instruction { mnemonic: Mnemonic::ADC, addressing: Addressing::Immediate }),
        r.micro_ops@.len() == timing_spec(0x69u8).total_spec(true, false),
{
    let r = MicroInstruction {
        opcode: Mnemonic::ADC,
        addressing: Addressing::Immediate,
        micro_ops: vec![
            MicroOp { micro_fn: MicroFn::AdvancePc, label: Label::IncPc },
            MicroOp { micro_fn: MicroFn::Read(Mnemonic::ADC, ReadFrom::Immediate), label: Label::AdcImm },
        ],
    };
    proof {
        assert(fns(r.micro_ops@) =~= fns(read_then_fixup_program(Mnemonic::ADC, Addressing::Immediate)));
        assert(labels(r.micro_ops@) =~= seq![Label::IncPc, Label::AdcImm]);
    }
    r
}

/// `ADC`, zero page (opcode $65; one cycle per micro-operation, the page-crossing one included): the address cycles, then the operand read; a page-crossing fix-up read comes last.
pub fn adc_zero_page() -> (r: MicroInstruction)
    ensures
        r.opcode == Mnemonic::ADC,
        r.addressing == Addressing::ZeroPage,
        fns(r.micro_ops@) == fns(read_then_fixup_program(Mnemonic::ADC, Addressing::ZeroPage)),
        labels(r.micro_ops@) == seq![Label::IncPc, Label::FetchZpAddr, Label::AdcMem],
        r.wf(),
        lookup_spec(0x65u8) == (Instruction { mnemonic: Mnemonic::ADC, addressing: Addressing::ZeroPage }),
        r.micro_ops@.len() == timing_spec(0x65u8).total_spec(true, false),
{
    let r = MicroInstruction {
        opcode: Mnemonic::ADC,
        addressing: Addressing::ZeroPage,
        micro_ops: vec![
            MicroOp { micro_fn: MicroFn::AdvancePc, label: Label::IncPc },
            MicroOp { micro_fn: MicroFn::FetchZpAddrLo, label: Label::FetchZpAddr },
            MicroOp { micro_fn: MicroFn::Read(Mnemonic::ADC, ReadFrom::ZeroPage), label: Label::AdcMem },
        ],
    };
    proof {
        assert(fns(r.micro_ops@) =~= fns(read_then_fixup_program(Mnemonic::ADC, Addressing::ZeroPage)));
        assert(labels(r.micro_ops@) =~= seq![Label::IncPc, Label::FetchZpAddr, Label::AdcMem]);
    }
    r
}

/// `ADC`, zero page indexed by X (opcode $75; one cycle per micro-operation, the page-crossing one included): the address cycles, then the operand read; a page-crossing fix-up read comes last.
pub fn adc_zero_page_x() -> (r: MicroInstruction)
    ensures
        r.opcode == Mnemonic::ADC,
        r.addressing == Addressing::ZeroPageX,
        fns(r.micro_ops@) == fns(read_then_fixup_program(Mnemonic::ADC, Addressing::ZeroPageX)),
        labels(r.micro_ops@) == seq![Label::IncPc, Label::FetchBase, Label::AddX, Label::AdcMem],
        r.wf(),
        lookup_spec(0x75u8) == (Instruction { mnemonic: Mnemonic::ADC, addressing: Addressing::ZeroPageX }),
        r.micro_ops@.len() == timing_spec(0x75u8).total_spec(true, false),
{
    let r = MicroInstruction {
        opcode: Mnemonic::ADC,
        addressing: Addressing::ZeroPageX,
        micro_ops: vec![
            MicroOp { micro_fn: MicroFn::AdvancePc, label: Label::IncPc },
            MicroOp { micro_fn: MicroFn::FetchZpAddrLo, label: Label::FetchBase },
            MicroOp { micro_fn: MicroFn::ReadZeroPageAddXDummy, label: Label::AddX },
            MicroOp { micro_fn: MicroFn::Read(Mnemonic::ADC, ReadFrom::Effective), label: Label::AdcMem },
        ],
    };
    proof {
        assert(fns(r.micro_ops@) =~= fns(read_then_fixup_program(Mnemonic::ADC, Addressing::ZeroPageX)));
        assert(labels(r.micro_ops@) =~= seq![Label::IncPc, Label::FetchBase, Label::AddX, Label::AdcMem]);
    }
    r
}

/// `ADC`, absolute (opcode $6D; one cycle per micro-operation, the page-crossing one included): the address cycles, then the operand read; a page-crossing fix-up read comes last.
pub fn adc_absolute() -> (r: MicroInstruction)
    ensures
        r.opcode == Mnemonic::ADC,
        r.addressing == Addressing::Absolute,
        fns(r.micro_ops@) == fns(read_then_fixup_program(Mnemonic::ADC, Addressing::Absolute)),
        labels(r.micro_ops@) == seq![Label::IncPc, Label::FetchLo, Label::FetchHi, Label::AdcMem],
        r.wf(),
        lookup_spec(0x6Du8) == (Instruction { mnemonic: Mnemonic::ADC, addressing: Addressing::Absolute }),
        r.micro_ops@.len() == timing_spec(0x6Du8).total_spec(true, false),
{
    let r = MicroInstruction {
        opcode: Mnemonic::ADC,
        addressing: Addressing::Absolute,
        micro_ops: vec![
            MicroOp { micro_fn: MicroFn::AdvancePc, label: Label::IncPc },
            MicroOp { micro_fn: MicroFn::FetchAbsAddrLo, label: Label::FetchLo },
            MicroOp { micro_fn: MicroFn::FetchAbsAddrHi, label: Label::FetchHi },
            MicroOp { micro_fn: MicroFn::Read(Mnemonic::ADC, ReadFrom::Effective), label: Label::AdcMem },
        ],
    };
    proof {
        assert(fns(r.micro_ops@) =~= fns(read_then_fixup_program(Mnemonic::ADC, Addressing::Absolute)));
        assert(labels(r.micro_ops@) =~= seq![Label::IncPc, Label::FetchLo, Label::FetchHi, Label::AdcMem]);
    }
    r
}

/// `ADC`, absolute indexed by X (opcode $7D; one cycle per micro-operation, the page-crossing one included): the address cycles, then the operand read; a page-crossing fix-up read comes last.
pub fn adc_absolute_x() -> (r: MicroInstruction)
    ensures
        r.opcode == Mnemonic::ADC,
        r.addressing == Addressing::AbsoluteX,
        fns(r.micro_ops@) == fns(read_then_fixup_program(Mnemonic::ADC, Addressing::AbsoluteX)),
        labels(r.micro_ops@) == seq![Label::IncPc, Label::FetchLo, Label::FetchHiAddX, Label::AdcMem, Label::ExtraCycleIfCrossed],
        r.wf(),
        lookup_spec(0x7Du8) == (Instruction { mnemonic: Mnemonic::ADC, addressing: Addressing::AbsoluteX }),
        r.micro_ops@.len() == timing_spec(0x7Du8).total_spec(true, false),
{
    let r = MicroInstruction {
        opcode: Mnemonic::ADC,
        addressing: Addressing::AbsoluteX,
        micro_ops: vec![
            MicroOp { micro_fn: MicroFn::AdvancePc, label: Label::IncPc },
            MicroOp { micro_fn: MicroFn::FetchAbsAddrLo, label: Label::FetchLo },
            MicroOp { micro_fn: MicroFn::FetchAbsAddrHiAddX, label: Label::FetchHiAddX },
            MicroOp { micro_fn: MicroFn::Read(Mnemonic::ADC, ReadFrom::Effective), label: Label::AdcMem },
            MicroOp { micro_fn: MicroFn::DummyReadCrossX, label: Label::ExtraCycleIfCrossed },
        ],
    };
    proof {
        assert(fns(r.micro_ops@) =~= fns(read_then_fixup_program(Mnemonic::ADC, Addressing::AbsoluteX)));
        assert(labels(r.micro_ops@) =~= seq![Label::IncPc, Label::FetchLo, Label::FetchHiAddX, Label::AdcMem, Label::ExtraCycleIfCrossed]);
    }
    r
}

/// `ADC`, absolute indexed by Y (opcode $79; one cycle per micro-operation, the page-crossing one included): the address cycles, then the operand read; a page-crossing fix-up read comes last.
pub fn adc_absolute_y() -> (r: MicroInstruction)
    ensures
        r.opcode == Mnemonic::ADC,
        r.addressing == Addressing::AbsoluteY,
        fns(r.micro_ops@) == fns(read_then_fixup_program(Mnemonic::ADC, Addressing::AbsoluteY)),
        labels(r.micro_ops@) == seq![Label::IncPc, Label::FetchLo, Label::FetchHiAddY, Label::AdcMem, Label::ExtraCycleIfCrossed],
        r.wf(),
        lookup_spec(0x79u8) == (Instruction { mnemonic: Mnemonic::ADC, addressing: Addressing::AbsoluteY }),
        r.micro_ops@.len() == timing_spec(0x79u8).total_spec(true, false),
{
    let r = MicroInstruction {
        opcode: Mnemonic::ADC,
        addressing: Addressing::AbsoluteY,
        micro_ops: vec![
            MicroOp { micro_fn: MicroFn::AdvancePc, label: Label::IncPc },
            MicroOp { micro_fn: MicroFn::FetchAbsAddrLo, label: Label::FetchLo },
            MicroOp { micro_fn: MicroFn::FetchAbsAddrHiAddY, label: Label::FetchHiAddY },
            MicroOp { micro_fn: MicroFn::Read(Mnemonic::ADC, ReadFrom::Effective), label: Label::AdcMem },
            MicroOp { micro_fn: MicroFn::DummyReadCrossY, label: Label::ExtraCycleIfCrossed },
        ],
    };
    proof {
        assert(fns(r.micro_ops@) =~= fns(read_then_fixup_program(Mnemonic::ADC, Addressing::AbsoluteY)));
        assert(labels(r.micro_ops@) =~= seq![Label::IncPc, Label::FetchLo, Label::FetchHiAddY, Label::AdcMem, Label::ExtraCycleIfCrossed]);
    }
    r
}

/// `ADC`, `(zp,X)` (opcode $61; one cycle per micro-operation, the page-crossing one included): the address cycles, then the operand read; a page-crossing fix-up read comes last.
pub fn adc_indirect_x() -> (r: MicroInstruction)
    ensures
        r.opcode == Mnemonic::ADC,
        r.addressing == Addressing::IndirectX,
        fns(r.micro_ops@) == fns(read_then_fixup_program(Mnemonic::ADC, Addressing::IndirectX)),
        labels(r.micro_ops@) == seq![Label::IncPc, Label::FetchZpPtr, Label::AddXDiscard, Label::FetchLo, Label::FetchHi, Label::AdcMem],
        r.wf(),
        lookup_spec(0x61u8) == (Instruction { mnemonic: Mnemonic::ADC, addressing: Addressing::IndirectX }),
        r.micro_ops@.len() == timing_spec(0x61u8).total_spec(true, false),
{
    let r = MicroInstruction {
        opcode: Mnemonic::ADC,
        addressing: Addressing::IndirectX,
        micro_ops: vec![
            MicroOp { micro_fn: MicroFn::AdvancePc, label: Label::IncPc },
            MicroOp { micro_fn: MicroFn::FetchZpAddrLo, label: Label::FetchZpPtr },
            MicroOp { micro_fn: MicroFn::ReadIndirectXDummy, label: Label::AddXDiscard },
            MicroOp { micro_fn: MicroFn::ReadIndirectXLo, label: Label::FetchLo },
            MicroOp { micro_fn: MicroFn::ReadIndirectXHi, label: Label::FetchHi },
            MicroOp { micro_fn: MicroFn::Read(Mnemonic::ADC, ReadFrom::Effective), label: Label::AdcMem },
        ],
    };
    proof {
        assert(fns(r.micro_ops@) =~= fns(read_then_fixup_program(Mnemonic::ADC, Addressing::IndirectX)));
        assert(labels(r.micro_ops@) =~= seq![Label::IncPc, Label::FetchZpPtr, Label::AddXDiscard, Label::FetchLo, Label::FetchHi, Label::AdcMem]);
    }
    r
}

/// `ADC`, `(zp),Y` (opcode $71; one cycle per micro-operation, the page-crossing one included): the address cycles, then the operand read; a page-crossing fix-up read comes last.
pub fn adc_indirect_y() -> (r: MicroInstruction)
    ensures
        r.opcode == Mnemonic::ADC,
        r.addressing == Addressing::IndirectY,
        fns(r.micro_ops@) == fns(read_then_fixup_program(Mnemonic::ADC, Addressing::IndirectY)),
        labels(r.micro_ops@) == seq![Label::IncPc, Label::FetchZpPtr, Label::FetchLo, Label::FetchHiAddY, Label::AdcMem, Label::ExtraCycleIfCrossed],
        r.wf(),
        lookup_spec(0x71u8) == (Instruction { mnemonic: Mnemonic::ADC, addressing: Addressing::IndirectY }),
        r.micro_ops@.len() == timing_spec(0x71u8).total_spec(true, false),
{
    let r = MicroInstruction {
        opcode: Mnemonic::ADC,
        addressing: Addressing::IndirectY,
        micro_ops: vec![
            MicroOp { micro_fn: MicroFn::AdvancePc, label: Label::IncPc },
            MicroOp { micro_fn: MicroFn::FetchZpAddrLo, label: Label::FetchZpPtr },
            MicroOp { micro_fn: MicroFn::ReadZeroPage, label: Label::FetchLo },
            MicroOp { micro_fn: MicroFn::ReadIndirectYHi, label: Label::FetchHiAddY },
            MicroOp { micro_fn: MicroFn::Read(Mnemonic::ADC, ReadFrom::Effective), label: Label::AdcMem },
            MicroOp { micro_fn: MicroFn::DummyReadCrossY, label: Label::ExtraCycleIfCrossed },
        ],
    };
    proof {
        assert(fns(r.micro_ops@) =~= fns(read_then_fixup_program(Mnemonic::ADC, Addressing::IndirectY)));
        assert(labels(r.micro_ops@) =~= seq![Label::IncPc, Label::FetchZpPtr, Label::FetchLo, Label::FetchHiAddY, Label::AdcMem, Label::ExtraCycleIfCrossed]);
    }
    r
}

/// `ANC`, immediate (opcode $0B; one cycle per micro-operation, the page-crossing one included): the address cycles, then one cycle that reads the operand and applies the operation.
pub fn anc_immediate() -> (r: MicroInstruction)
    ensures
        r.opcode == Mnemonic::ANC,
        r.addressing == Addressing::Immediate,
        fns(r.micro_ops@) == fns(read_program(Mnemonic::ANC, Addressing::Immediate)),
        labels(r.micro_ops@) == seq![Label::Standard, Label::Standard],
        r.wf(),
        lookup_spec(0x0Bu8) == (Instruction { mnemonic: Mnemonic::ANC, addressing: Addressing::Immediate }),
        r.micro_ops@.len() == timing_spec(0x0Bu8).total_spec(true, false),
{
    let r = MicroInstruction {
        opcode: Mnemonic::ANC,
        addressing: Addressing::Immediate,
        micro_ops: vec![
            MicroOp::advance_pc_after_opcode(),
            MicroOp { micro_fn: MicroFn::Read(Mnemonic::ANC, ReadFrom::Immediate), label: Label::Standard },
        ],
    };
    proof {
        assert(fns(r.micro_ops@) =~= fns(read_program(Mnemonic::ANC, Addressing::Immediate)));
        assert(labels(r.micro_ops@) =~= seq![Label::Standard, Label::Standard]);
    }
    r
}

/// `ASR`, immediate (opcode $4B; one cycle per micro-operation, the page-crossing one included): the address cycles, then one cycle that reads the operand and applies the operation.
pub fn asr_immediate() -> (r: MicroInstruction)
    ensures
        r.opcode == Mnemonic::ASR,
        r.addressing == Addressing::Immediate,
        fns(r.micro_ops@) == fns(read_program(Mnemonic::ASR, Addressing::Immediate)),
        labels(r.micro_ops@) == seq![Label::Standard, Label::Standard],
        r.wf(),
        lookup_spec(0x4Bu8) == (Instruction { mnemonic: Mnemonic::ASR, addressing: Addressing::Immediate }),
        r.micro_ops@.len() == timing_spec(0x4Bu8).total_spec(true, false),
{
    let r = MicroInstruction {
        opcode: Mnemonic::ASR,
        addressing: Addressing::Immediate,
        micro_ops: vec![
            MicroOp::advance_pc_after_opcode(),
            MicroOp { micro_fn: MicroFn::Read(Mnemonic::ASR, ReadFrom::Immediate), label: Label::Standard },
        ],
    };
    proof {
        assert(fns(r.micro_ops@) =~= fns(read_program(Mnemonic::ASR, Addressing::Immediate)));
        assert(labels(r.micro_ops@) =~= seq![Label::Standard, Label::Standard]);
    }
    r
}

/// `CPX`, immediate (opcode $E0; one cycle per micro-operation, the page-crossing one included): the address cycles, then one cycle that reads the operand and applies the operation.
pub fn cpx_immediate() -> (r: MicroInstruction)
    ensures
        r.opcode == Mnemonic::CPX,
        r.addressing == Addressing::Immediate,
        fns(r.micro_ops@) == fns(read_program(Mnemonic::CPX, Addressing::Immediate)),
        labels(r.micro_ops@) == seq![Label::Standard, Label::Standard],
        r.wf(),
        lookup_spec(0xE0u8) == (Instruction { mnemonic: Mnemonic::CPX, addressing: Addressing::Immediate }),
        r.micro_ops@.len() == timing_spec(0xE0u8).total_spec(true, false),
{
    let r = MicroInstruction {
        opcode: Mnemonic::CPX,
        addressing: Addressing::Immediate,
        micro_ops: vec![
            MicroOp::advance_pc_after_opcode(),
            MicroOp { micro_fn: MicroFn::Read(Mnemonic::CPX, ReadFrom::Immediate), label: Label::Standard },
        ],
    };
    proof {
        assert(fns(r.micro_ops@) =~= fns(read_program(Mnemonic::CPX, Addressing::Immediate)));
        assert(labels(r.micro_ops@) =~= seq![Label::Standard, Label::Standard]);
    }
    r
}

/// `CPX`, zero page (opcode $E4; one cycle per micro-operation, the page-crossing one included): the address cycles, then one cycle that reads the operand and applies the operation.
pub fn cpx_zero_page() -> (r: MicroInstruction)
    ensures
        r.opcode == Mnemonic::CPX,
        r.addressing == Addressing::ZeroPage,
        fns(r.micro_ops@) == fns(read_program(Mnemonic::CPX, Addressing::ZeroPage)),
        labels(r.micro_ops@) == seq![Label::Standard, Label::Standard, Label::Standard],
        r.wf(),
        lookup_spec(0xE4u8) == (Instruction { mnemonic: Mnemonic::CPX, addressing: Addressing::ZeroPage }),
        r.micro_ops@.len() == timing_spec(0xE4u8).total_spec(true, false),
{
    let r = MicroInstruction {
        opcode: Mnemonic::CPX,
        addressing: Addressing::ZeroPage,
        micro_ops: vec![
            MicroOp::advance_pc_after_opcode(),
            MicroOp::fetch_zp_addr_lo(),
            MicroOp { micro_fn: MicroFn::Read(Mnemonic::CPX, ReadFrom::ZeroPage), label: Label::Standard },
        ],
    };
    proof {
        assert(fns(r.micro_ops@) =~= fns(read_program(Mnemonic::CPX, Addressing::ZeroPage)));
        assert(labels(r.micro_ops@) =~= seq![Label::Standard, Label::Standard, Label::Standard]);
    }
    r
}

/// `CPX`, absolute (opcode $EC; one cycle per micro-operation, the page-crossing one included): the address cycles, then one cycle that reads the operand and applies the operation.
pub fn cpx_absolute() -> (r: MicroInstruction)
    ensures
        r.opcode == Mnemonic::CPX,
        r.addressing == Addressing::Absolute,
        fns(r.micro_ops@) == fns(read_program(Mnemonic::CPX, Addressing::Absolute)),
        labels(r.micro_ops@) == seq![Label::Standard, Label::Standard, Label::Standard, Label::Standard],
        r.wf(),
        lookup_spec(0xECu8) == (Instruction { mnemonic: Mnemonic::CPX, addressing: Addressing::Absolute }),
        r.micro_ops@.len() == timing_spec(0xECu8).total_spec(true, false),
{
    let r = MicroInstruction {
        opcode: Mnemonic::CPX,
        addressing: Addressing::Absolute,
        micro_ops: vec![
            MicroOp::advance_pc_after_opcode(),
            MicroOp::fetch_abs_addr_lo(),
            MicroOp::fetch_abs_addr_hi(),
            MicroOp { micro_fn: MicroFn::Read(Mnemonic::CPX, ReadFrom::Effective), label: Label::Standard },
        ],
    };
    proof {
        assert(fns(r.micro_ops@) =~= fns(read_program(Mnemonic::CPX, Addressing::Absolute)));
        assert(labels(r.micro_ops@) =~= seq![Label::Standard, Label::Standard, Label::Standard, Label::Standard]);
    }
    r
}

/// `CPY`, immediate (opcode $C0; one cycle per micro-operation, the page-crossing one included): the address cycles, then one cycle that reads the operand and applies the operation.
pub fn cpy_immediate() -> (r: MicroInstruction)
    ensures
        r.opcode == Mnemonic::CPY,
        r.addressing == Addressing::Immediate,
        fns(r.micro_ops@) == fns(read_program(Mnemonic::CPY, Addressing::Immediate)),
        labels(r.micro_ops@) == seq![Label::Standard, Label::Standard],
        r.wf(),
        lookup_spec(0xC0u8) == (Instruction { mnemonic: Mnemonic::CPY, addressing: Addressing::Immediate }),
        r.micro_ops@.len() == timing_spec(0xC0u8).total_spec(true, false),
{
    let r = MicroInstruction {
        opcode: Mnemonic::CPY,
        addressing: Addressing::Immediate,
        micro_ops: vec![
            MicroOp::advance_pc_after_opcode(),
            MicroOp { micro_fn: MicroFn::Read(Mnemonic::CPY, ReadFrom::Immediate), label: Label::Standard },
        ],
    };
    proof {
        assert(fns(r.micro_ops@) =~= fns(read_program(Mnemonic::CPY, Addressing::Immediate)));
        assert(labels(r.micro_ops@) =~= seq![Label::Standard, Label::Standard]);
    }
    r
}

/// `CPY`, zero page (opcode $C4; one cycle per micro-operation, the page-crossing one included): the address cycles, then one cycle that reads the operand and applies the operation.
pub fn cpy_zero_page() -> (r: MicroInstruction)
    ensures
        r.opcode == Mnemonic::CPY,
        r.addressing == Addressing::ZeroPage,
        fns(r.micro_ops@) == fns(read_program(Mnemonic::CPY, Addressing::ZeroPage)),
        labels(r.micro_ops@) == seq![Label::Standard, Label::Standard, Label::Standard],
        r.wf(),
        lookup_spec(0xC4u8) == (Instruction { mnemonic: Mnemonic::CPY, addressing: Addressing::ZeroPage }),
        r.micro_ops@.len() == timing_spec(0xC4u8).total_spec(true, false),
{
    let r = MicroInstruction {
        opcode: Mnemonic::CPY,
        addressing: Addressing::ZeroPage,
        micro_ops: vec![
            MicroOp::advance_pc_after_opcode(),
            MicroOp::fetch_zp_addr_lo(),
            MicroOp { micro_fn: MicroFn::Read(Mnemonic::CPY, ReadFrom::ZeroPage), label: Label::Standard },
        ],
    };
    proof {
        assert(fns(r.micro_ops@) =~= fns(read_program(Mnemonic::CPY, Addressing::ZeroPage)));
        assert(labels(r.micro_ops@) =~= seq![Label::Standard, Label::Standard, Label::Standard]);
    }
    r
}

/// `CPY`, absolute (opcode $CC; one cycle per micro-operation, the page-crossing one included): the address cycles, then one cycle that reads the operand and applies the operation.
pub fn cpy_absolute() -> (r: MicroInstruction)
    ensures
        r.opcode == Mnemonic::CPY,
        r.addressing == Addressing::Absolute,
        fns(r.micro_ops@) == fns(read_program(Mnemonic::CPY, Addressing::Absolute)),
        labels(r.micro_ops@) == seq![Label::Standard, Label::Standard, Label::Standard, Label::Standard],
        r.wf(),
        lookup_spec(0xCCu8) == (Instruction { mnemonic: Mnemonic::CPY, addressing: Addressing::Absolute }),
        r.micro_ops@.len() == timing_spec(0xCCu8).total_spec(true, false),
{
    let r = MicroInstruction {
        opcode: Mnemonic::CPY,
        addressing: Addressing::Absolute,
        micro_ops: vec![
            MicroOp::advance_pc_after_opcode(),
            MicroOp::fetch_abs_addr_lo(),
            MicroOp::fetch_abs_addr_hi(),
            MicroOp { micro_fn: MicroFn::Read(Mnemonic::CPY, ReadFrom::Effective), label: Label::Standard },
        ],
    };
    proof {
        assert(fns(r.micro_ops@) =~= fns(read_program(Mnemonic::CPY, Addressing::Absolute)));
        assert(labels(r.micro_ops@) =~= seq![Label::Standard, Label::Standard, Label::Standard, Label::Standard]);
    }
    r
}

/// `DCP`, zero page (opcode $C7; one cycle per micro-operation, the page-crossing one included): the address cycles, then read the byte, write it back and modified, and combine it with A.
pub fn dcp_zero_page() -> (r: MicroInstruction)
    ensures
        r.opcode == Mnemonic::DCP,
        r.addressing == Addressing::ZeroPage,
        fns(r.micro_ops@) == fns(rmw_program(Mnemonic::DCP, Addressing::ZeroPage)),
        labels(r.micro_ops@) == seq![Label::Standard, Label::Standard, Label::ReadZpForRmw, Label::DcpRmwDecrement, Label::DcpCompareA],
        r.wf(),
        lookup_spec(0xC7u8) == (Instruction { mnemonic: Mnemonic::DCP, addressing: Addressing::ZeroPage }),
        r.micro_ops@.len() == timing_spec(0xC7u8).total_spec(true, false),
{
    let r = MicroInstruction {
        opcode: Mnemonic::DCP,
        addressing: Addressing::ZeroPage,
        micro_ops: vec![
            MicroOp::advance_pc_after_opcode(),
            MicroOp::fetch_zp_addr_lo(),
            MicroOp { micro_fn: MicroFn::RmwRead, label: Label::ReadZpForRmw },
            MicroOp { micro_fn: MicroFn::DcpRmw, label: Label::DcpRmwDecrement },
            MicroOp { micro_fn: MicroFn::DcpCompare, label: Label::DcpCompareA },
        ],
    };
    proof {
        assert(fns(r.micro_ops@) =~= fns(rmw_program(Mnemonic::DCP, Addressing::ZeroPage)));
        assert(labels(r.micro_ops@) =~= seq![Label::Standard, Label::Standard, Label::ReadZpForRmw, Label::DcpRmwDecrement, Label::DcpCompareA]);
    }
    r
}

/// `DCP`, zero page indexed by X (opcode $D7; one cycle per micro-operation, the page-crossing one included): the address cycles, then read the byte, write it back and modified, and combine it with A.
pub fn dcp_zero_page_x() -> (r: MicroInstruction)
    ensures
        r.opcode == Mnemonic::DCP,
        r.addressing == Addressing::ZeroPageX,
        fns(r.micro_ops@) == fns(rmw_program(Mnemonic::DCP, Addressing::ZeroPageX)),
        labels(r.micro_ops@) == seq![Label::Standard, Label::Standard, Label::Standard, Label::ReadZpXForRmw, Label::DcpRmwDecrement, Label::DcpCompareA],
        r.wf(),
        lookup_spec(0xD7u8) == (Instruction { mnemonic: Mnemonic::DCP, addressing: Addressing::ZeroPageX }),
        r.micro_ops@.len() == timing_spec(0xD7u8).total_spec(true, false),
{
    let r = MicroInstruction {
        opcode: Mnemonic::DCP,
        addressing: Addressing::ZeroPageX,
        micro_ops: vec![
            MicroOp::advance_pc_after_opcode(),
            MicroOp::fetch_zp_addr_lo(),
            MicroOp::read_zero_page_add_x_dummy(),
            MicroOp { micro_fn: MicroFn::RmwRead, label: Label::ReadZpXForRmw },
            MicroOp { micro_fn: MicroFn::DcpRmw, label: Label::DcpRmwDecrement },
            MicroOp { micro_fn: MicroFn::DcpCompare, label: Label::DcpCompareA },
        ],
    };
    proof {
        assert(fns(r.micro_ops@) =~= fns(rmw_program(Mnemonic::DCP, Addressing::ZeroPageX)));
        assert(labels(r.micro_ops@) =~= seq![Label::Standard, Label::Standard, Label::Standard, Label::ReadZpXForRmw, Label::DcpRmwDecrement, Label::DcpCompareA]);
    }
    r
}

/// `DCP`, absolute (opcode $CF; one cycle per micro-operation, the page-crossing one included): the address cycles, then read the byte, write it back and modified, and combine it with A.
pub fn dcp_absolute() -> (r: MicroInstruction)
    ensures
        r.opcode == Mnemonic::DCP,
        r.addressing == Addressing::Absolute,
        fns(r.micro_ops@) == fns(rmw_program(Mnemonic::DCP, Addressing::Absolute)),
        labels(r.micro_ops@) == seq![Label::Standard, Label::Standard, Label::Standard, Label::ReadAbsForRmw, Label::DcpRmwDecrement, Label::DcpCompareA],
        r.wf(),
        lookup_spec(0xCFu8) == (Instruction { mnemonic: Mnemonic::DCP, addressing: Addressing::Absolute }),
        r.micro_ops@.len() == timing_spec(0xCFu8).total_spec(true, false),
{
    let r = MicroInstruction {
        opcode: Mnemonic::DCP,
        addressing: Addressing::Absolute,
        micro_ops: vec![
            MicroOp::advance_pc_after_opcode(),
            MicroOp::fetch_abs_addr_lo(),
            MicroOp::fetch_abs_addr_hi(),
            MicroOp { micro_fn: MicroFn::RmwRead, label: Label::ReadAbsForRmw },
            MicroOp { micro_fn: MicroFn::DcpRmw, label: Label::DcpRmwDecrement },
            MicroOp { micro_fn: MicroFn::DcpCompare, label: Label::DcpCompareA },
        ],
    };
    proof {
        assert(fns(r.micro_ops@) =~= fns(rmw_program(Mnemonic::DCP, Addressing::Absolute)));
        assert(labels(r.micro_ops@) =~= seq![Label::Standard, Label::Standard, Label::Standard, Label::ReadAbsForRmw, Label::DcpRmwDecrement, Label::DcpCompareA]);
    }
    r
}

/// `DCP`, absolute indexed by X (opcode $DF; one cycle per micro-operation, the page-crossing one included): the address cycles, then read the byte, write it back and modified, and combine it with A.
pub fn dcp_absolute_x() -> (r: MicroInstruction)
    ensures
        r.opcode == Mnemonic::DCP,
        r.addressing == Addressing::AbsoluteX,
        fns(r.micro_ops@) == fns(rmw_program(Mnemonic::DCP, Addressing::AbsoluteX)),
        labels(r.micro_ops@) == seq![Label::Standard, Label::Standard, Label::Standard, Label::Standard, Label::ReadAbsXForRmw, Label::DcpRmwDecrement, Label::DcpCompareA],
        r.wf(),
        lookup_spec(0xDFu8) == (Instruction { mnemonic: Mnemonic::DCP, addressing: Addressing::AbsoluteX }),
        r.micro_ops@.len() == timing_spec(0xDFu8).total_spec(true, false),
{
    let r = MicroInstruction {
        opcode: Mnemonic::DCP,
        addressing: Addressing::AbsoluteX,
        micro_ops: vec![
            MicroOp::advance_pc_after_opcode(),
            MicroOp::fetch_abs_addr_lo(),
            MicroOp::fetch_abs_addr_hi_add_x(),
            MicroOp::dummy_read_cross_x(),
            MicroOp { micro_fn: MicroFn::RmwRead, label: Label::ReadAbsXForRmw },
            MicroOp { micro_fn: MicroFn::DcpRmw, label: Label::DcpRmwDecrement },
            MicroOp { micro_fn: MicroFn::DcpCompare, label: Label::DcpCompareA },
        ],
    };
    proof {
        assert(fns(r.micro_ops@) =~= fns(rmw_program(Mnemonic::DCP, Addressing::AbsoluteX)));
        assert(labels(r.micro_ops@) =~= seq![Label::Standard, Label::Standard, Label::Standard, Label::Standard, Label::ReadAbsXForRmw, Label::DcpRmwDecrement, Label::DcpCompareA]);
    }
    r
}

/// `DCP`, absolute indexed by Y (opcode $DB; one cycle per micro-operation, the page-crossing one included): the address cycles, then read the byte, write it back and modified, and combine it with A.
pub fn dcp_absolute_y() -> (r: MicroInstruction)
    ensures
        r.opcode == Mnemonic::DCP,
        r.addressing == Addressing::AbsoluteY,
        fns(r.micro_ops@) == fns(rmw_program(Mnemonic::DCP, Addressing::AbsoluteY)),
        labels(r.micro_ops@) == seq![Label::Standard, Label::Standard, Label::Standard, Label::Standard, Label::ReadAbsYForRmw, Label::DcpRmwDecrement, Label::DcpCompareA],
        r.wf(),
        lookup_spec(0xDBu8) == (Instruction { mnemonic: Mnemonic::DCP, addressing: Addressing::AbsoluteY }),
        r.micro_ops@.len() == timing_spec(0xDBu8).total_spec(true, false),
{
    let r = MicroInstruction {
        opcode: Mnemonic::DCP,
        addressing: Addressing::AbsoluteY,
        micro_ops: vec![
            MicroOp::advance_pc_after_opcode(),
            MicroOp::fetch_abs_addr_lo(),
            MicroOp::fetch_abs_addr_hi_add_y(),
            MicroOp::dummy_read_cross_y(),
            MicroOp { micro_fn: MicroFn::RmwRead, label: Label::ReadAbsYForRmw },
            MicroOp { micro_fn: MicroFn::DcpRmw, label: Label::DcpRmwDecrement },
            MicroOp { micro_fn: MicroFn::DcpCompare, label: Label::DcpCompareA },
        ],
    };
    proof {
        assert(fns(r.micro_ops@) =~= fns(rmw_program(Mnemonic::DCP, Addressing::AbsoluteY)));
        assert(labels(r.micro_ops@) =~= seq![Label::Standard, Label::Standard, Label::Standard, Label::Standard, Label::ReadAbsYForRmw, Label::DcpRmwDecrement, Label::DcpCompareA]);
    }
    r
}

/// `DCP`, `(zp,X)` (opcode $C3; one cycle per micro-operation, the page-crossing one included): the address cycles, then read the byte, write it back and modified, and combine it with A.
pub fn dcp_indirect_x() -> (r: MicroInstruction)
    ensures
        r.opcode == Mnemonic::DCP,
        r.addressing == Addressing::IndirectX,
        fns(r.micro_ops@) == fns(rmw_program(Mnemonic::DCP, Addressing::IndirectX)),
        labels(r.micro_ops@) == seq![Label::Standard, Label::Standard, Label::Standard, Label::Standard, Label::Standard, Label::ReadIndXForRmw, Label::DcpRmwDecrement, Label::DcpCompareA],
        r.wf(),
        lookup_spec(0xC3u8) == (Instruction { mnemonic: Mnemonic::DCP, addressing: Addressing::IndirectX }),
        r.micro_ops@.len() == timing_spec(0xC3u8).total_spec(true, false),
{
    let r = MicroInstruction {
        opcode: Mnemonic::DCP,
        addressing: Addressing::IndirectX,
        micro_ops: vec![
            MicroOp::advance_pc_after_opcode(),
            MicroOp::fetch_zp_addr_lo(),
            MicroOp::read_indirect_x_dummy(),
            MicroOp::read_indirect_x_lo(),
            MicroOp::read_indirect_x_hi(),
            MicroOp { micro_fn: MicroFn::RmwRead, label: Label::ReadIndXForRmw },
            MicroOp { micro_fn: MicroFn::DcpRmw, label: Label::DcpRmwDecrement },
            MicroOp { micro_fn: MicroFn::DcpCompare, label: Label::DcpCompareA },
        ],
    };
    proof {
        assert(fns(r.micro_ops@) =~= fns(rmw_program(Mnemonic::DCP, Addressing::IndirectX)));
        assert(labels(r.micro_ops@) =~= seq![Label::Standard, Label::Standard, Label::Standard, Label::Standard, Label::Standard, Label::ReadIndXForRmw, Label::DcpRmwDecrement, Label::DcpCompareA]);
    }
    r
}

/// `DCP`, `(zp),Y` (opcode $D3; one cycle per micro-operation, the page-crossing one included): the address cycles, then read the byte, write it back and modified, and combine it with A.
pub fn dcp_indirect_y() -> (r: MicroInstruction)
    ensures
        r.opcode == Mnemonic::DCP,
        r.addressing == Addressing::IndirectY,
        fns(r.micro_ops@) == fns(rmw_program(Mnemonic::DCP, Addressing::IndirectY)),
        labels(r.micro_ops@) == seq![Label::Standard, Label::Standard, Label::Standard, Label::Standard, Label::Standard, Label::ReadIndYForRmw, Label::DcpRmwDecrement, Label::DcpCompareA],
        r.wf(),
        lookup_spec(0xD3u8) == (Instruction { mnemonic: Mnemonic::DCP, addressing: Addressing::IndirectY }),
        r.micro_ops@.len() == timing_spec(0xD3u8).total_spec(true, false),
{
    let r = MicroInstruction {
        opcode: Mnemonic::DCP,
        addressing: Addressing::IndirectY,
        micro_ops: vec![
            MicroOp::advance_pc_after_opcode(),
            MicroOp::fetch_zp_addr_lo(),
            MicroOp::read_zero_page(),
            MicroOp::read_indirect_y_hi(),
            MicroOp::dummy_read_cross_y(),
            MicroOp { micro_fn: MicroFn::RmwRead, label: Label::ReadIndYForRmw },
            MicroOp { micro_fn: MicroFn::DcpRmw, label: Label::DcpRmwDecrement },
            MicroOp { micro_fn: MicroFn::DcpCompare, label: Label::DcpCompareA },
        ],
    };
    proof {
        assert(fns(r.micro_ops@) =~= fns(rmw_program(Mnemonic::DCP, Addressing::IndirectY)));
        assert(labels(r.micro_ops@) =~= seq![Label::Standard, Label::Standard, Label::Standard, Label::Standard, Label::Standard, Label::ReadIndYForRmw, Label::DcpRmwDecrement, Label::DcpCompareA]);
    }
    r
}

/// `ISC`, zero page (opcode $E7; one cycle per micro-operation, the page-crossing one included): the address cycles, then read the byte, write it back and modified, and combine it with A.
pub fn isc_zero_page() -> (r: MicroInstruction)
    ensures
        r.opcode == Mnemonic::ISC,
        r.addressing == Addressing::ZeroPage,
        fns(r.micro_ops@) == fns(rmw_program(Mnemonic::ISC, Addressing::ZeroPage)),
        labels(r.micro_ops@) == seq![Label::Standard, Label::Standard, Label::ReadZpForRmw, Label::IscRmwIncrement, Label::IscSubtractWithCarry],
        r.wf(),
        lookup_spec(0xE7u8) == (Instruction { mnemonic: Mnemonic::ISC, addressing: Addressing::ZeroPage }),
        r.micro_ops@.len() == timing_spec(0xE7u8).total_spec(true, false),
{
    let r = MicroInstruction {
        opcode: Mnemonic::ISC,
        addressing: Addressing::ZeroPage,
        micro_ops: vec![
            MicroOp::advance_pc_after_opcode(),
            MicroOp::fetch_zp_addr_lo(),
            MicroOp { micro_fn: MicroFn::RmwRead, label: Label::ReadZpForRmw },
            MicroOp { micro_fn: MicroFn::IscRmw, label: Label::IscRmwIncrement },
            MicroOp { micro_fn: MicroFn::IscSbc, label: Label::IscSubtractWithCarry },
        ],
    };
    proof {
        assert(fns(r.micro_ops@) =~= fns(rmw_program(Mnemonic::ISC, Addressing::ZeroPage)));
        assert(labels(r.micro_ops@) =~= seq![Label::Standard, Label::Standard, Label::ReadZpForRmw, Label::IscRmwIncrement, Label::IscSubtractWithCarry]);
    }
    r
}

/// `ISC`, zero page indexed by X (opcode $F7; one cycle per micro-operation, the page-crossing one included): the address cycles, then read the byte, write it back and modified, and combine it with A.
pub fn isc_zero_page_x() -> (r: MicroInstruction)
    ensures
        r.opcode == Mnemonic::ISC,
        r.addressing == Addressing::ZeroPageX,
        fns(r.micro_ops@) == fns(rmw_program(Mnemonic::ISC, Addressing::ZeroPageX)),
        labels(r.micro_ops@) == seq![Label::Standard, Label::Standard, Label::Standard, Label::ReadZpXForRmw, Label::IscRmwIncrement, Label::IscSubtractWithCarry],
        r.wf(),
        lookup_spec(0xF7u8) == (Instruction { mnemonic: Mnemonic::ISC, addressing: Addressing::ZeroPageX }),
        r.micro_ops@.len() == timing_spec(0xF7u8).total_spec(true, false),
{
    let r = MicroInstruction {
        opcode: Mnemonic::ISC,
        addressing: Addressing::ZeroPageX,
        micro_ops: vec![
            MicroOp::advance_pc_after_opcode(),
            MicroOp::fetch_zp_addr_lo(),
            MicroOp::read_zero_page_add_x_dummy(),
            MicroOp { micro_fn: MicroFn::RmwRead, label: Label::ReadZpXForRmw },
            MicroOp { micro_fn: MicroFn::IscRmw, label: Label::IscRmwIncrement },
            MicroOp { micro_fn: MicroFn::IscSbc, label: Label::IscSubtractWithCarry },
        ],
    };
    proof {
        assert(fns(r.micro_ops@) =~= fns(rmw_program(Mnemonic::ISC, Addressing::ZeroPageX)));
        assert(labels(r.micro_ops@) =~= seq![Label::Standard, Label::Standard, Label::Standard, Label::ReadZpXForRmw, Label::IscRmwIncrement, Label::IscSubtractWithCarry]);
    }
    r
}

/// `ISC`, absolute (opcode $EF; one cycle per micro-operation, the page-crossing one included): the address cycles, then read the byte, write it back and modified, and combine it with A.
pub fn isc_absolute() -> (r: MicroInstruction)
    ensures
        r.opcode == Mnemonic::ISC,
        r.addressing == Addressing::Absolute,
        fns(r.micro_ops@) == fns(rmw_program(Mnemonic::ISC, Addressing::Absolute)),
        labels(r.micro_ops@) == seq![Label::Standard, Label::Standard, Label::Standard, Label::ReadAbsForRmw, Label::IscRmwIncrement, Label::IscSubtractWithCarry],
        r.wf(),
        lookup_spec(0xEFu8) == (Instruction { mnemonic: Mnemonic::ISC, addressing: Addressing::Absolute }),
        r.micro_ops@.len() == timing_spec(0xEFu8).total_spec(true, false),
{
    let r = MicroInstruction {
        opcode: Mnemonic::ISC,
        addressing: Addressing::Absolute,
        micro_ops: vec![
            MicroOp::advance_pc_after_opcode(),
            MicroOp::fetch_abs_addr_lo(),
            MicroOp::fetch_abs_addr_hi(),
            MicroOp { micro_fn: MicroFn::RmwRead, label: Label::ReadAbsForRmw },
            MicroOp { micro_fn: MicroFn::IscRmw, label: Label::IscRmwIncrement },
            MicroOp { micro_fn: MicroFn::IscSbc, label: Label::IscSubtractWithCarry },
        ],
    };
    proof {
        assert(fns(r.micro_ops@) =~= fns(rmw_program(Mnemonic::ISC, Addressing::Absolute)));
        assert(labels(r.micro_ops@) =~= seq![Label::Standard, Label::Standard, Label::Standard, Label::ReadAbsForRmw, Label::IscRmwIncrement, Label::IscSubtractWithCarry]);
    }
    r
}

/// `ISC`, absolute indexed by X (opcode $FF; one cycle per micro-operation, the page-crossing one included): the address cycles, then read the byte, write it back and modified, and combine it with A.
pub fn isc_absolute_x() -> (r: MicroInstruction)
    ensures
        r.opcode == Mnemonic::ISC,
        r.addressing == Addressing::AbsoluteX,
        fns(r.micro_ops@) == fns(rmw_program(Mnemonic::ISC, Addressing::AbsoluteX)),
        labels(r.micro_ops@) == seq![Label::Standard, Label::Standard, Label::Standard, Label::Standard, Label::ReadAbsXForRmw, Label::IscRmwIncrement, Label::IscSubtractWithCarry],
        r.wf(),
        lookup_spec(0xFFu8) == (Instruction { mnemonic: Mnemonic::ISC, addressing: Addressing::AbsoluteX }),
        r.micro_ops@.len() == timing_spec(0xFFu8).total_spec(true, false),
{
    let r = MicroInstruction {
        opcode: Mnemonic::ISC,
        addressing: Addressing::AbsoluteX,
        micro_ops: vec![
            MicroOp::advance_pc_after_opcode(),
            MicroOp::fetch_abs_addr_lo(),
            MicroOp::fetch_abs_addr_hi_add_x(),
            MicroOp::dummy_read_cross_x(),
            MicroOp { micro_fn: MicroFn::RmwRead, label: Label::ReadAbsXForRmw },
            MicroOp { micro_fn: MicroFn::IscRmw, label: Label::IscRmwIncrement },
            MicroOp { micro_fn: MicroFn::IscSbc, label: Label::IscSubtractWithCarry },
        ],
    };
    proof {
        assert(fns(r.micro_ops@) =~= fns(rmw_program(Mnemonic::ISC, Addressing::AbsoluteX)));
        assert(labels(r.micro_ops@) =~= seq![Label::Standard, Label::Standard, Label::Standard, Label::Standard, Label::ReadAbsXForRmw, Label::IscRmwIncrement, Label::IscSubtractWithCarry]);
    }
    r
}

/// `ISC`, absolute indexed by Y (opcode $FB; one cycle per micro-operation, the page-crossing one included): the address cycles, then read the byte, write it back and modified, and combine it with A.
pub fn isc_absolute_y() -> (r: MicroInstruction)
    ensures
        r.opcode == Mnemonic::ISC,
        r.addressing == Addressing::AbsoluteY,
        fns(r.micro_ops@) == fns(rmw_program(Mnemonic::ISC, Addressing::AbsoluteY)),
        labels(r.micro_ops@) == seq![Label::Standard, Label::Standard, Label::Standard, Label::Standard, Label::ReadAbsYForRmw, Label::IscRmwIncrement, Label::IscSubtractWithCarry],
        r.wf(),
        lookup_spec(0xFBu8) == (Instruction { mnemonic: Mnemonic::ISC, addressing: Addressing::AbsoluteY }),
        r.micro_ops@.len() == timing_spec(0xFBu8).total_spec(true, false),
{
    let r = MicroInstruction {
        opcode: Mnemonic::ISC,
        addressing: Addressing::AbsoluteY,
        micro_ops: vec![
            MicroOp::advance_pc_after_opcode(),
            MicroOp::fetch_abs_addr_lo(),
            MicroOp::fetch_abs_addr_hi_add_y(),
            MicroOp::dummy_read_cross_y(),
            MicroOp { micro_fn: MicroFn::RmwRead, label: Label::ReadAbsYForRmw },
            MicroOp { micro_fn: MicroFn::IscRmw, label: Label::IscRmwIncrement },
            MicroOp { micro_fn: MicroFn::IscSbc, label: Label::IscSubtractWithCarry },
        ],
    };
    proof {
        assert(fns(r.micro_ops@) =~= fns(rmw_program(Mnemonic::ISC, Addressing::AbsoluteY)));
        assert(labels(r.micro_ops@) =~= seq![Label::Standard, Label::Standard, Label::Standard, Label::Standard, Label::ReadAbsYForRmw, Label::IscRmwIncrement, Label::IscSubtractWithCarry]);
    }
    r
}

/// `ISC`, `(zp,X)` (opcode $E3; one cycle per micro-operation, the page-crossing one included): the address cycles, then read the byte, write it back and modified, and combine it with A.
pub fn isc_indirect_x() -> (r: MicroInstruction)
    ensures
        r.opcode == Mnemonic::ISC,
        r.addressing == Addressing::IndirectX,
        fns(r.micro_ops@) == fns(rmw_program(Mnemonic::ISC, Addressing::IndirectX)),
        labels(r.micro_ops@) == seq![Label::Standard, Label::Standard, Label::Standard, Label::Standard, Label::Standard, Label::ReadIndXForRmw, Label::IscRmwIncrement, Label::IscSubtractWithCarry],
        r.wf(),
        lookup_spec(0xE3u8) == (Instruction { mnemonic: Mnemonic::ISC, addressing: Addressing::IndirectX }),
        r.micro_ops@.len() == timing_spec(0xE3u8).total_spec(true, false),
{
    let r = MicroInstruction {
        opcode: Mnemonic::ISC,
        addressing: Addressing::IndirectX,
        micro_ops: vec![
            MicroOp::advance_pc_after_opcode(),
            MicroOp::fetch_zp_addr_lo(),
            MicroOp::read_indirect_x_dummy(),
            MicroOp::read_indirect_x_lo(),
            MicroOp::read_indirect_x_hi(),
            MicroOp { micro_fn: MicroFn::RmwRead, label: Label::ReadIndXForRmw },
            MicroOp { micro_fn: MicroFn::IscRmw, label: Label::IscRmwIncrement },
            MicroOp { micro_fn: MicroFn::IscSbc, label: Label::IscSubtractWithCarry },
        ],
    };
    proof {
        assert(fns(r.micro_ops@) =~= fns(rmw_program(Mnemonic::ISC, Addressing::IndirectX)));
        assert(labels(r.micro_ops@) =~= seq![Label::Standard, Label::Standard, Label::Standard, Label::Standard, Label::Standard, Label::ReadIndXForRmw, Label::IscRmwIncrement, Label::IscSubtractWithCarry]);
    }
    r
}

/// `ISC`, `(zp),Y` (opcode $F3; one cycle per micro-operation, the page-crossing one included): the address cycles, then read the byte, write it back and modified, and combine it with A.
pub fn isc_indirect_y() -> (r: MicroInstruction)
    ensures
        r.opcode == Mnemonic::ISC,
        r.addressing == Addressing::IndirectY,
        fns(r.micro_ops@) == fns(rmw_program(Mnemonic::ISC, Addressing::IndirectY)),
        labels(r.micro_ops@) == seq![Label::Standard, Label::Standard, Label::Standard, Label::Standard, Label::Standard, Label::ReadIndYForRmw, Label::IscRmwIncrement, Label::IscSubtractWithCarry],
        r.wf(),
        lookup_spec(0xF3u8) == (Instruction { mnemonic: Mnemonic::ISC, addressing: Addressing::IndirectY }),
        r.micro_ops@.len() == timing_spec(0xF3u8).total_spec(true, false),
{
    let r = MicroInstruction {
        opcode: Mnemonic::ISC,
        addressing: Addressing::IndirectY,
        micro_ops: vec![
            MicroOp::advance_pc_after_opcode(),
            MicroOp::fetch_zp_addr_lo(),
            MicroOp::read_zero_page(),
            MicroOp::read_indirect_y_hi(),
            MicroOp::dummy_read_cross_y(),
            MicroOp { micro_fn: MicroFn::RmwRead, label: Label::ReadIndYForRmw },
            MicroOp { micro_fn: MicroFn::IscRmw, label: Label::IscRmwIncrement },
            MicroOp { micro_fn: MicroFn::IscSbc, label: Label::IscSubtractWithCarry },
        ],
    };
    proof {
        assert(fns(r.micro_ops@) =~= fns(rmw_program(Mnemonic::ISC, Addressing::IndirectY)));
        assert(labels(r.micro_ops@) =~= seq![Label::Standard, Label::Standard, Label::Standard, Label::Standard, Label::Standard, Label::ReadIndYForRmw, Label::IscRmwIncrement, Label::IscSubtractWithCarry]);
    }
    r
}

/// `SLO`, zero page (opcode $07; one cycle per micro-operation, the page-crossing one included): the address cycles, then read the byte, write it back and modified, and combine it with A.
pub fn slo_zero_page() -> (r: MicroInstruction)
    ensures
        r.opcode == Mnemonic::SLO,
        r.addressing == Addressing::ZeroPage,
        fns(r.micro_ops@) == fns(rmw_program(Mnemonic::SLO, Addressing::ZeroPage)),
        labels(r.micro_ops@) == seq![Label::Standard, Label::Standard, Label::ReadZpForRmw, Label::SloRmwShiftLeft, Label::SloOrWithA],
        r.wf(),
        lookup_spec(0x07u8) == (Instruction { mnemonic: Mnemonic::SLO, addressing: Addressing::ZeroPage }),
        r.micro_ops@.len() == timing_spec(0x07u8).total_spec(true, false),
{
    let r = MicroInstruction {
        opcode: Mnemonic::SLO,
        addressing: Addressing::ZeroPage,
        micro_ops: vec![
            MicroOp::advance_pc_after_opcode(),
            MicroOp::fetch_zp_addr_lo(),
            MicroOp { micro_fn: MicroFn::RmwRead, label: Label::ReadZpForRmw },
            MicroOp { micro_fn: MicroFn::SloRmw, label: Label::SloRmwShiftLeft },
            MicroOp { micro_fn: MicroFn::SloOra, label: Label::SloOrWithA },
        ],
    };
    proof {
        assert(fns(r.micro_ops@) =~= fns(rmw_program(Mnemonic::SLO, Addressing::ZeroPage)));
        assert(labels(r.micro_ops@) =~= seq![Label::Standard, Label::Standard, Label::ReadZpForRmw, Label::SloRmwShiftLeft, Label::SloOrWithA]);
    }
    r
}

/// `SLO`, zero page indexed by X (opcode $17; one cycle per micro-operation, the page-crossing one included): the address cycles, then read the byte, write it back and modified, and combine it with A.
pub fn slo_zero_page_x() -> (r: MicroInstruction)
    ensures
        r.opcode == Mnemonic::SLO,
        r.addressing == Addressing::ZeroPageX,
        fns(r.micro_ops@) == fns(rmw_program(Mnemonic::SLO, Addressing::ZeroPageX)),
        labels(r.micro_ops@) == seq![Label::Standard, Label::Standard, Label::Standard, Label::ReadZpXForRmw, Label::SloRmwShiftLeft, Label::SloOrWithA],
        r.wf(),
        lookup_spec(0x17u8) == (Instruction { mnemonic: Mnemonic::SLO, addressing: Addressing::ZeroPageX }),
        r.micro_ops@.len() == timing_spec(0x17u8).total_spec(true, false),
{
    let r = MicroInstruction {
        opcode: Mnemonic::SLO,
        addressing: Addressing::ZeroPageX,
        micro_ops: vec![
            MicroOp::advance_pc_after_opcode(),
            MicroOp::fetch_zp_addr_lo(),
            MicroOp::read_zero_page_add_x_dummy(),
            MicroOp { micro_fn: MicroFn::RmwRead, label: Label::ReadZpXForRmw },
            MicroOp { micro_fn: MicroFn::SloRmw, label: Label::SloRmwShiftLeft },
            MicroOp { micro_fn: MicroFn::SloOra, label: Label::SloOrWithA },
        ],
    };
    proof {
        assert(fns(r.micro_ops@) =~= fns(rmw_program(Mnemonic::SLO, Addressing::ZeroPageX)));
        assert(labels(r.micro_ops@) =~= seq![Label::Standard, Label::Standard, Label::Standard, Label::ReadZpXForRmw, Label::SloRmwShiftLeft, Label::SloOrWithA]);
    }
    r
}

/// `SLO`, absolute (opcode $0F; one cycle per micro-operation, the page-crossing one included): the address cycles, then read the byte, write it back and modified, and combine it with A.
pub fn slo_absolute() -> (r: MicroInstruction)
    ensures
        r.opcode == Mnemonic::SLO,
        r.addressing == Addressing::Absolute,
        fns(r.micro_ops@) == fns(rmw_program(Mnemonic::SLO, Addressing::Absolute)),
        labels(r.micro_ops@) == seq![Label::Standard, Label::Standard, Label::Standard, Label::ReadAbsForRmw, Label::SloRmwShiftLeft, Label::SloOrWithA],
        r.wf(),
        lookup_spec(0x0Fu8) == (Instruction { mnemonic: Mnemonic::SLO, addressing: Addressing::Absolute }),
        r.micro_ops@.len() == timing_spec(0x0Fu8).total_spec(true, false),
{
    let r = MicroInstruction {
        opcode: Mnemonic::SLO,
        addressing: Addressing::Absolute,
        micro_ops: vec![
            MicroOp::advance_pc_after_opcode(),
            MicroOp::fetch_abs_addr_lo(),
            MicroOp::fetch_abs_addr_hi(),
            MicroOp { micro_fn: MicroFn::RmwRead, label: Label::ReadAbsForRmw },
            MicroOp { micro_fn: MicroFn::SloRmw, label: Label::SloRmwShiftLeft },
            MicroOp { micro_fn: MicroFn::SloOra, label: Label::SloOrWithA },
        ],
    };
    proof {
        assert(fns(r.micro_ops@) =~= fns(rmw_program(Mnemonic::SLO, Addressing::Absolute)));
        assert(labels(r.micro_ops@) =~= seq![Label::Standard, Label::Standard, Label::Standard, Label::ReadAbsForRmw, Label::SloRmwShiftLeft, Label::SloOrWithA]);
    }
    r
}

/// `SLO`, absolute indexed by X (opcode $1F; one cycle per micro-operation, the page-crossing one included): the address cycles, then read the byte, write it back and modified, and combine it with A.
pub fn slo_absolute_x() -> (r: MicroInstruction)
    ensures
        r.opcode == Mnemonic::SLO,
        r.addressing == Addressing::AbsoluteX,
        fns(r.micro_ops@) == fns(rmw_program(Mnemonic::SLO, Addressing::AbsoluteX)),
        labels(r.micro_ops@) == seq![Label::Standard, Label::Standard, Label::Standard, Label::Standard, Label::ReadAbsXForRmw, Label::SloRmwShiftLeft, Label::SloOrWithA],
        r.wf(),
        lookup_spec(0x1Fu8) == (Instruction { mnemonic: Mnemonic::SLO, addressing: Addressing::AbsoluteX }),
        r.micro_ops@.len() == timing_spec(0x1Fu8).total_spec(true, false),
{
    let r = MicroInstruction {
        opcode: Mnemonic::SLO,
        addressing: Addressing::AbsoluteX,
        micro_ops: vec![
            MicroOp::advance_pc_after_opcode(),
            MicroOp::fetch_abs_addr_lo(),
            MicroOp::fetch_abs_addr_hi_add_x(),
            MicroOp::dummy_read_cross_x(),
            MicroOp { micro_fn: MicroFn::RmwRead, label: Label::ReadAbsXForRmw },
            MicroOp { micro_fn: MicroFn::SloRmw, label: Label::SloRmwShiftLeft },
            MicroOp { micro_fn: MicroFn::SloOra, label: Label::SloOrWithA },
        ],
    };
    proof {
        assert(fns(r.micro_ops@) =~= fns(rmw_program(Mnemonic::SLO, Addressing::AbsoluteX)));
        assert(labels(r.micro_ops@) =~= seq![Label::Standard, Label::Standard, Label::Standard, Label::Standard, Label::ReadAbsXForRmw, Label::SloRmwShiftLeft, Label::SloOrWithA]);
    }
    r
}

/// `SLO`, absolute indexed by Y (opcode $1B; one cycle per micro-operation, the page-crossing one included): the address cycles, then read the byte, write it back and modified, and combine it with A.
pub fn slo_absolute_y() -> (r: MicroInstruction)
    ensures
        r.opcode == Mnemonic::SLO,
        r.addressing == Addressing::AbsoluteY,
        fns(r.micro_ops@) == fns(rmw_program(Mnemonic::SLO, Addressing::AbsoluteY)),
        labels(r.micro_ops@) == seq![Label::Standard, Label::Standard, Label::Standard, Label::Standard, Label::ReadAbsYForRmw, Label::SloRmwShiftLeft, Label::SloOrWithA],
        r.wf(),
        lookup_spec(0x1Bu8) == (Instruction { mnemonic: Mnemonic::SLO, addressing: Addressing::AbsoluteY }),
        r.micro_ops@.len() == timing_spec(0x1Bu8).total_spec(true, false),
{
    let r = MicroInstruction {
        opcode: Mnemonic::SLO,
        addressing: Addressing::AbsoluteY,
        micro_ops: vec![
            MicroOp::advance_pc_after_opcode(),
            MicroOp::fetch_abs_addr_lo(),
            MicroOp::fetch_abs_addr_hi_add_y(),
            MicroOp::dummy_read_cross_y(),
            MicroOp { micro_fn: MicroFn::RmwRead, label: Label::ReadAbsYForRmw },
            MicroOp { micro_fn: MicroFn::SloRmw, label: Label::SloRmwShiftLeft },
            MicroOp { micro_fn: MicroFn::SloOra, label: Label::SloOrWithA },
        ],
    };
    proof {
        assert(fns(r.micro_ops@) =~= fns(rmw_program(Mnemonic::SLO, Addressing::AbsoluteY)));
        assert(labels(r.micro_ops@) =~= seq![Label::Standard, Label::Standard, Label::Standard, Label::Standard, Label::ReadAbsYForRmw, Label::SloRmwShiftLeft, Label::SloOrWithA]);
    }
    r
}

/// `SLO`, `(zp,X)` (opcode $03; one cycle per micro-operation, the page-crossing one included): the address cycles, then read the byte, write it back and modified, and combine it with A.
pub fn slo_indirect_x() -> (r: MicroInstruction)
    ensures
        r.opcode == Mnemonic::SLO,
        r.addressing == Addressing::IndirectX,
        fns(r.micro_ops@) == fns(rmw_program(Mnemonic::SLO, Addressing::IndirectX)),
        labels(r.micro_ops@) == seq![Label::Standard, Label::Standard, Label::Standard, Label::Standard, Label::Standard, Label::ReadIndXForRmw, Label::SloRmwShiftLeft, Label::SloOrWithA],
        r.wf(),
        lookup_spec(0x03u8) == (Instruction { mnemonic: Mnemonic::SLO, addressing: Addressing::IndirectX }),
        r.micro_ops@.len() == timing_spec(0x03u8).total_spec(true, false),
{
    let r = MicroInstruction {
        opcode: Mnemonic::SLO,
        addressing: Addressing::IndirectX,
        micro_ops: vec![
            MicroOp::advance_pc_after_opcode(),
            MicroOp::fetch_zp_addr_lo(),
            MicroOp::read_indirect_x_dummy(),
            MicroOp::read_indirect_x_lo(),
            MicroOp::read_indirect_x_hi(),
            MicroOp { micro_fn: MicroFn::RmwRead, label: Label::ReadIndXForRmw },
            MicroOp { micro_fn: MicroFn::SloRmw, label: Label::SloRmwShiftLeft },
            MicroOp { micro_fn: MicroFn::SloOra, label: Label::SloOrWithA },
        ],
    };
    proof {
        assert(fns(r.micro_ops@) =~= fns(rmw_program(Mnemonic::SLO, Addressing::IndirectX)));
        assert(labels(r.micro_ops@) =~= seq![Label::Standard, Label::Standard, Label::Standard, Label::Standard, Label::Standard, Label::ReadIndXForRmw, Label::SloRmwShiftLeft, Label::SloOrWithA]);
    }
    r
}

/// `SLO`, `(zp),Y` (opcode $13; one cycle per micro-operation, the page-crossing one included): the address cycles, then read the byte, write it back and modified, and combine it with A.
pub fn slo_indirect_y() -> (r: MicroInstruction)
    ensures
        r.opcode == Mnemonic::SLO,
        r.addressing == Addressing::IndirectY,
        fns(r.micro_ops@) == fns(rmw_program(Mnemonic::SLO, Addressing::IndirectY)),
        labels(r.micro_ops@) == seq![Label::Standard, Label::Standard, Label::Standard, Label::Standard, Label::Standard, Label::ReadIndYForRmw, Label::SloRmwShiftLeft, Label::SloOrWithA],
        r.wf(),
        lookup_spec(0x13u8) == (Instruction { mnemonic: Mnemonic::SLO, addressing: Addressing::IndirectY }),
        r.micro_ops@.len() == timing_spec(0x13u8).total_spec(true, false),
{
    let r = MicroInstruction {
        opcode: Mnemonic::SLO,
        addressing: Addressing::IndirectY,
        micro_ops: vec![
            MicroOp::advance_pc_after_opcode(),
            MicroOp::fetch_zp_addr_lo(),
            MicroOp::read_zero_page(),
            MicroOp::read_indirect_y_hi(),
            MicroOp::dummy_read_cross_y(),
            MicroOp { micro_fn: MicroFn::RmwRead, label: Label::ReadIndYForRmw },
            MicroOp { micro_fn: MicroFn::SloRmw, label: Label::SloRmwShiftLeft },
            MicroOp { micro_fn: MicroFn::SloOra, label: Label::SloOrWithA },
        ],
    };
    proof {
        assert(fns(r.micro_ops@) =~= fns(rmw_program(Mnemonic::SLO, Addressing::IndirectY)));
        assert(labels(r.micro_ops@) =~= seq![Label::Standard, Label::Standard, Label::Standard, Label::Standard, Label::Standard, Label::ReadIndYForRmw, Label::SloRmwShiftLeft, Label::SloOrWithA]);
    }
    r
}

/// `XAA`, immediate (opcode $8B; one cycle per micro-operation, the page-crossing one included): the address cycles, then one cycle that reads the operand and applies the operation.
pub fn xaa_immediate() -> (r: MicroInstruction)
    ensures
        r.opcode == Mnemonic::XAA,
        r.addressing == Addressing::Immediate,
        fns(r.micro_ops@) == fns(read_program(Mnemonic::XAA, Addressing::Immediate)),
        labels(r.micro_ops@) == seq![Label::Standard, Label::XaaImmediate],
        r.wf(),
        lookup_spec(0x8Bu8) == (Instruction { mnemonic: Mnemonic::XAA, addressing: Addressing::Immediate }),
        r.micro_ops@.len() == timing_spec(0x8Bu8).total_spec(true, false),
{
    let r = MicroInstruction {
        opcode: Mnemonic::XAA,
        addressing: Addressing::Immediate,
        micro_ops: vec![
            MicroOp::advance_pc_after_opcode(),
            MicroOp { micro_fn: MicroFn::Read(Mnemonic::XAA, ReadFrom::Immediate), label: Label::XaaImmediate },
        ],
    };
    proof {
        assert(fns(r.micro_ops@) =~= fns(read_program(Mnemonic::XAA, Addressing::Immediate)));
        assert(labels(r.micro_ops@) =~= seq![Label::Standard, Label::XaaImmediate]);
    }
    r
}

/// `XAA`, zero page: the address cycles, then one cycle that reads the operand and applies the operation.
pub fn xaa_zero_page() -> (r: MicroInstruction)
    ensures
        r.opcode == Mnemonic::XAA,
        r.addressing == Addressing::ZeroPage,
        fns(r.micro_ops@) == fns(read_program(Mnemonic::XAA, Addressing::ZeroPage)),
        labels(r.micro_ops@) == seq![Label::Standard, Label::Standard, Label::XaaZp],
        r.wf(),
{
    let r = MicroInstruction {
        opcode: Mnemonic::XAA,
        addressing: Addressing::ZeroPage,
        micro_ops: vec![
            MicroOp::advance_pc_after_opcode(),
            MicroOp::fetch_zp_addr_lo(),
            MicroOp { micro_fn: MicroFn::Read(Mnemonic::XAA, ReadFrom::ZeroPage), label: Label::XaaZp },
        ],
    };
    proof {
        assert(fns(r.micro_ops@) =~= fns(read_program(Mnemonic::XAA, Addressing::ZeroPage)));
        assert(labels(r.micro_ops@) =~= seq![Label::Standard, Label::Standard, Label::XaaZp]);
    }
    r
}

/// `XAA`, zero page indexed by Y: the address cycles, then one cycle that reads the operand and applies the operation.
pub fn xaa_zero_page_y() -> (r: MicroInstruction)
    ensures
        r.opcode == Mnemonic::XAA,
        r.addressing == Addressing::ZeroPageY,
        fns(r.micro_ops@) == fns(read_program(Mnemonic::XAA, Addressing::ZeroPageY)),
        labels(r.micro_ops@) == seq![Label::Standard, Label::Standard, Label::Standard, Label::XaaZpY],
        r.wf(),
{
    let r = MicroInstruction {
        opcode: Mnemonic::XAA,
        addressing: Addressing::ZeroPageY,
        micro_ops: vec![
            MicroOp::advance_pc_after_opcode(),
            MicroOp::fetch_zp_addr_lo(),
            MicroOp::read_zero_page_add_y_dummy(),
            MicroOp { micro_fn: MicroFn::Read(Mnemonic::XAA, ReadFrom::Effective), label: Label::XaaZpY },
        ],
    };
    proof {
        assert(fns(r.micro_ops@) =~= fns(read_program(Mnemonic::XAA, Addressing::ZeroPageY)));
        assert(labels(r.micro_ops@) =~= seq![Label::Standard, Label::Standard, Label::Standard, Label::XaaZpY]);
    }
    r
}

/// `XAA`, absolute: the address cycles, then one cycle that reads the operand and applies the operation.
pub fn xaa_absolute() -> (r: MicroInstruction)
    ensures
        r.opcode == Mnemonic::XAA,
        r.addressing == Addressing::Absolute,
        fns(r.micro_ops@) == fns(read_program(Mnemonic::XAA, Addressing::Absolute)),
        labels(r.micro_ops@) == seq![Label::Standard, Label::Standard, Label::Standard, Label::XaaAbs],
        r.wf(),
{
    let r = MicroInstruction {
        opcode: Mnemonic::XAA,
        addressing: Addressing::Absolute,
        micro_ops: vec![
            MicroOp::advance_pc_after_opcode(),
            MicroOp::fetch_abs_addr_lo(),
            MicroOp::fetch_abs_addr_hi(),
            MicroOp { micro_fn: MicroFn::Read(Mnemonic::XAA, ReadFrom::Effective), label: Label::XaaAbs },
        ],
    };
    proof {
        assert(fns(r.micro_ops@) =~= fns(read_program(Mnemonic::XAA, Addressing::Absolute)));
        assert(labels(r.micro_ops@) =~= seq![Label::Standard, Label::Standard, Label::Standard, Label::XaaAbs]);
    }
    r
}

/// `XAA`, absolute indexed by Y: the address cycles, then one cycle that reads the operand and applies the operation.
pub fn xaa_absolute_y() -> (r: MicroInstruction)
    ensures
        r.opcode == Mnemonic::XAA,
        r.addressing == Addressing::AbsoluteY,
        fns(r.micro_ops@) == fns(read_program(Mnemonic::XAA, Addressing::AbsoluteY)),
        labels(r.micro_ops@) == seq![Label::Standard, Label::Standard, Label::Standard, Label::Standard, Label::XaaAbsY],
        r.wf(),
{
    let r = MicroInstruction {
        opcode: Mnemonic::XAA,
        addressing: Addressing::AbsoluteY,
        micro_ops: vec![
            MicroOp::advance_pc_after_opcode(),
            MicroOp::fetch_abs_addr_lo(),
            MicroOp::fetch_abs_addr_hi_add_y(),
            MicroOp::dummy_read_cross_y(),
            MicroOp { micro_fn: MicroFn::Read(Mnemonic::XAA, ReadFrom::Effective), label: Label::XaaAbsY },
        ],
    };
    proof {
        assert(fns(r.micro_ops@) =~= fns(read_program(Mnemonic::XAA, Addressing::AbsoluteY)));
        assert(labels(r.micro_ops@) =~= seq![Label::Standard, Label::Standard, Label::Standard, Label::Standard, Label::XaaAbsY]);
    }
    r
}

/// `XAA`, `(zp,X)`: the address cycles, then one cycle that reads the operand and applies the operation.
pub fn xaa_indirect_x() -> (r: MicroInstruction)
    ensures
        r.opcode == Mnemonic::XAA,
        r.addressing == Addressing::IndirectX,
        fns(r.micro_ops@) == fns(read_program(Mnemonic::XAA, Addressing::IndirectX)),
        labels(r.micro_ops@) == seq![Label::Standard, Label::Standard, Label::Standard, Label::Standard, Label::Standard, Label::XaaIndX],
        r.wf(),
{
    let r = MicroInstruction {
        opcode: Mnemonic::XAA,
        addressing: Addressing::IndirectX,
        micro_ops: vec![
            MicroOp::advance_pc_after_opcode(),
            MicroOp::fetch_zp_addr_lo(),
            MicroOp::read_indirect_x_dummy(),
            MicroOp::read_indirect_x_lo(),
            MicroOp::read_indirect_x_hi(),
            MicroOp { micro_fn: MicroFn::Read(Mnemonic::XAA, ReadFrom::Effective), label: Label::XaaIndX },
        ],
    };
    proof {
        assert(fns(r.micro_ops@) =~= fns(read_program(Mnemonic::XAA, Addressing::IndirectX)));
        assert(labels(r.micro_ops@) =~= seq![Label::Standard, Label::Standard, Label::Standard, Label::Standard, Label::Standard, Label::XaaIndX]);
    }
    r
}

} // verus!
