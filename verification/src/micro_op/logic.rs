//! Cycle programs of the logical instructions.

use vstd::prelude::*;

use crate::addressing::Addressing;
use crate::micro_op::{MicroFn, MicroInstruction, MicroOp, ReadFrom, fns, labels, read_program, read_then_fixup_program};
use crate::micro_op::names::Label;
use crate::instruction::Instruction;
use crate::lookup::lookup_spec;
use crate::mnemonic::Mnemonic;
use crate::timing::timing_spec;

verus! {

/// `AND`, immediate (opcode $29; one cycle per micro-operation, the page-crossing one included): the address cycles, then the operand read; a page-crossing fix-up read comes last.
pub fn and_immediate() -> (r: MicroInstruction)
    ensures
        r.opcode == Mnemonic::AND,
        r.addressing == Addressing::Immediate,
        fns(r.micro_ops@) == fns(read_then_fixup_program(Mnemonic::AND, Addressing::Immediate)),
        labels(r.micro_ops@) == seq![Label::IncPc, Label::AndImm],
        r.wf(),
        lookup_spec(0x29u8) == (Instruction { mnemonic: Mnemonic::AND, addressing: Addressing::Immediate }),
        r.micro_ops@.len() == timing_spec(0x29u8).total_spec(true, false),
{
    let r = MicroInstruction {
        opcode: Mnemonic::AND,
        addressing: Addressing::Immediate,
        micro_ops: vec![
            MicroOp { micro_fn: MicroFn::AdvancePc, label: Label::IncPc },
            MicroOp { micro_fn: MicroFn::Read(Mnemonic::AND, ReadFrom::Immediate), label: Label::AndImm },
        ],
    };
    proof {
        assert(fns(r.micro_ops@) =~= fns(read_then_fixup_program(Mnemonic::AND, Addressing::Immediate)));
        assert(labels(r.micro_ops@) =~= seq![Label::IncPc, Label::AndImm]);
    }
    r
}

/// `AND`, zero page (opcode $25; one cycle per micro-operation, the page-crossing one included): the address cycles, then the operand read; a page-crossing fix-up read comes last.
pub fn and_zero_page() -> (r: MicroInstruction)
    ensures
        r.opcode == Mnemonic::AND,
        r.addressing == Addressing::ZeroPage,
        fns(r.micro_ops@) == fns(read_then_fixup_program(Mnemonic::AND, Addressing::ZeroPage)),
        labels(r.micro_ops@) == seq![Label::IncPc, Label::FetchZpAddr, Label::AndMem],
        r.wf(),
        lookup_spec(0x25u8) == (Instruction { mnemonic: Mnemonic::AND, addressing: Addressing::ZeroPage }),
        r.micro_ops@.len() == timing_spec(0x25u8).total_spec(true, false),
{
    let r = MicroInstruction {
        opcode: Mnemonic::AND,
        addressing: Addressing::ZeroPage,
        micro_ops: vec![
            MicroOp { micro_fn: MicroFn::AdvancePc, label: Label::IncPc },
            MicroOp { micro_fn: MicroFn::FetchZpAddrLo, label: Label::FetchZpAddr },
            MicroOp { micro_fn: MicroFn::Read(Mnemonic::AND, ReadFrom::ZeroPage), label: Label::AndMem },
        ],
    };
    proof {
        assert(fns(r.micro_ops@) =~= fns(read_then_fixup_program(Mnemonic::AND, Addressing::ZeroPage)));
        assert(labels(r.micro_ops@) =~= seq![Label::IncPc, Label::FetchZpAddr, Label::AndMem]);
    }
    r
}

/// `AND`, zero page indexed by X (opcode $35; one cycle per micro-operation, the page-crossing one included): the address cycles, then the operand read; a page-crossing fix-up read comes last.
pub fn and_zero_page_x() -> (r: MicroInstruction)
    ensures
        r.opcode == Mnemonic::AND,
        r.addressing == Addressing::ZeroPageX,
        fns(r.micro_ops@) == fns(read_then_fixup_program(Mnemonic::AND, Addressing::ZeroPageX)),
        labels(r.micro_ops@) == seq![Label::IncPc, Label::FetchBase, Label::AddX, Label::AndMem],
        r.wf(),
        lookup_spec(0x35u8) == (Instruction { mnemonic: Mnemonic::AND, addressing: Addressing::ZeroPageX }),
        r.micro_ops@.len() == timing_spec(0x35u8).total_spec(true, false),
{
    let r = MicroInstruction {
        opcode: Mnemonic::AND,
        addressing: Addressing::ZeroPageX,
        micro_ops: vec![
            MicroOp { micro_fn: MicroFn::AdvancePc, label: Label::IncPc },
            MicroOp { micro_fn: MicroFn::FetchZpAddrLo, label: Label::FetchBase },
            MicroOp { micro_fn: MicroFn::ReadZeroPageAddXDummy, label: Label::AddX },
            MicroOp { micro_fn: MicroFn::Read(Mnemonic::AND, ReadFrom::Effective), label: Label::AndMem },
        ],
    };
    proof {
        assert(fns(r.micro_ops@) =~= fns(read_then_fixup_program(Mnemonic::AND, Addressing::ZeroPageX)));
        assert(labels(r.micro_ops@) =~= seq![Label::IncPc, Label::FetchBase, Label::AddX, Label::AndMem]);
    }
    r
}

/// `AND`, absolute (opcode $2D; one cycle per micro-operation, the page-crossing one included): the address cycles, then the operand read; a page-crossing fix-up read comes last.
pub fn and_absolute() -> (r: MicroInstruction)
    ensures
        r.opcode == Mnemonic::AND,
        r.addressing == Addressing::Absolute,
        fns(r.micro_ops@) == fns(read_then_fixup_program(Mnemonic::AND, Addressing::Absolute)),
        labels(r.micro_ops@) == seq![Label::IncPc, Label::FetchLo, Label::FetchHi, Label::AndMem],
        r.wf(),
        lookup_spec(0x2Du8) == (Instruction { mnemonic: Mnemonic::AND, addressing: Addressing::Absolute }),
        r.micro_ops@.len() == timing_spec(0x2Du8).total_spec(true, false),
{
    let r = MicroInstruction {
        opcode: Mnemonic::AND,
        addressing: Addressing::Absolute,
        micro_ops: vec![
            MicroOp { micro_fn: MicroFn::AdvancePc, label: Label::IncPc },
            MicroOp { micro_fn: MicroFn::FetchAbsAddrLo, label: Label::FetchLo },
            MicroOp { micro_fn: MicroFn::FetchAbsAddrHi, label: Label::FetchHi },
            MicroOp { micro_fn: MicroFn::Read(Mnemonic::AND, ReadFrom::Effective), label: Label::AndMem },
        ],
    };
    proof {
        assert(fns(r.micro_ops@) =~= fns(read_then_fixup_program(Mnemonic::AND, Addressing::Absolute)));
        assert(labels(r.micro_ops@) =~= seq![Label::IncPc, Label::FetchLo, Label::FetchHi, Label::AndMem]);
    }
    r
}

/// `AND`, absolute indexed by X (opcode $3D; one cycle per micro-operation, the page-crossing one included): the address cycles, then the operand read; a page-crossing fix-up read comes last.
pub fn and_absolute_x() -> (r: MicroInstruction)
    ensures
        r.opcode == Mnemonic::AND,
        r.addressing == Addressing::AbsoluteX,
        fns(r.micro_ops@) == fns(read_then_fixup_program(Mnemonic::AND, Addressing::AbsoluteX)),
        labels(r.micro_ops@) == seq![Label::IncPc, Label::FetchLo, Label::FetchHiCalcAddr, Label::AndMem, Label::ExtraCycleIfCrossed],
        r.wf(),
        lookup_spec(0x3Du8) == (Instruction { mnemonic: Mnemonic::AND, addressing: Addressing::AbsoluteX }),
        r.micro_ops@.len() == timing_spec(0x3Du8).total_spec(true, false),
{
    let r = MicroInstruction {
        opcode: Mnemonic::AND,
        addressing: Addressing::AbsoluteX,
        micro_ops: vec![
            MicroOp { micro_fn: MicroFn::AdvancePc, label: Label::IncPc },
            MicroOp { micro_fn: MicroFn::FetchAbsAddrLo, label: Label::FetchLo },
            MicroOp { micro_fn: MicroFn::FetchAbsAddrHiAddX, label: Label::FetchHiCalcAddr },
            MicroOp { micro_fn: MicroFn::Read(Mnemonic::AND, ReadFrom::Effective), label: Label::AndMem },
            MicroOp { micro_fn: MicroFn::DummyReadCrossX, label: Label::ExtraCycleIfCrossed },
        ],
    };
    proof {
        assert(fns(r.micro_ops@) =~= fns(read_then_fixup_program(Mnemonic::AND, Addressing::AbsoluteX)));
        assert(labels(r.micro_ops@) =~= seq![Label::IncPc, Label::FetchLo, Label::FetchHiCalcAddr, Label::AndMem, Label::ExtraCycleIfCrossed]);
    }
    r
}

/// `AND`, absolute indexed by Y (opcode $39; one cycle per micro-operation, the page-crossing one included): the address cycles, then the operand read; a page-crossing fix-up read comes last.
pub fn and_absolute_y() -> (r: MicroInstruction)
    ensures
        r.opcode == Mnemonic::AND,
        r.addressing == Addressing::AbsoluteY,
        fns(r.micro_ops@) == fns(read_then_fixup_program(Mnemonic::AND, Addressing::AbsoluteY)),
        labels(r.micro_ops@) == seq![Label::IncPc, Label::FetchLo, Label::FetchHiCalcAddr, Label::AndMem, Label::ExtraCycleIfCrossed],
        r.wf(),
        lookup_spec(0x39u8) == (Instruction { mnemonic: Mnemonic::AND, addressing: Addressing::AbsoluteY }),
        r.micro_ops@.len() == timing_spec(0x39u8).total_spec(true, false),
{
    let r = MicroInstruction {
        opcode: Mnemonic::AND,
        addressing: Addressing::AbsoluteY,
        micro_ops: vec![
            MicroOp { micro_fn: MicroFn::AdvancePc, label: Label::IncPc },
            MicroOp { micro_fn: MicroFn::FetchAbsAddrLo, label: Label::FetchLo },
            MicroOp { micro_fn: MicroFn::FetchAbsAddrHiAddY, label: Label::FetchHiCalcAddr },
            MicroOp { micro_fn: MicroFn::Read(Mnemonic::AND, ReadFrom::Effective), label: Label::AndMem },
            MicroOp { micro_fn: MicroFn::DummyReadCrossY, label: Label::ExtraCycleIfCrossed },
        ],
    };
    proof {
        assert(fns(r.micro_ops@) =~= fns(read_then_fixup_program(Mnemonic::AND, Addressing::AbsoluteY)));
        assert(labels(r.micro_ops@) =~= seq![Label::IncPc, Label::FetchLo, Label::FetchHiCalcAddr, Label::AndMem, Label::ExtraCycleIfCrossed]);
    }
    r
}

/// `AND`, `(zp,X)` (opcode $21; one cycle per micro-operation, the page-crossing one included): the address cycles, then the operand read; a page-crossing fix-up read comes last.
pub fn and_indirect_x() -> (r: MicroInstruction)
    ensures
        r.opcode == Mnemonic::AND,
        r.addressing == Addressing::IndirectX,
        fns(r.micro_ops@) == fns(read_then_fixup_program(Mnemonic::AND, Addressing::IndirectX)),
        labels(r.micro_ops@) == seq![Label::IncPc, Label::FetchZp, Label::AddXDummy, Label::ReadLo, Label::ReadHi, Label::AndMem],
        r.wf(),
        lookup_spec(0x21u8) == (Instruction { mnemonic: Mnemonic::AND, addressing: Addressing::IndirectX }),
        r.micro_ops@.len() == timing_spec(0x21u8).total_spec(true, false),
{
    let r = MicroInstruction {
        opcode: Mnemonic::AND,
        addressing: Addressing::IndirectX,
        micro_ops: vec![
            MicroOp { micro_fn: MicroFn::AdvancePc, label: Label::IncPc },
            MicroOp { micro_fn: MicroFn::FetchZpAddrLo, label: Label::FetchZp },
            MicroOp { micro_fn: MicroFn::ReadIndirectXDummy, label: Label::AddXDummy },
            MicroOp { micro_fn: MicroFn::ReadIndirectXLo, label: Label::ReadLo },
            MicroOp { micro_fn: MicroFn::ReadIndirectXHi, label: Label::ReadHi },
            MicroOp { micro_fn: MicroFn::Read(Mnemonic::AND, ReadFrom::Effective), label: Label::AndMem },
        ],
    };
    proof {
        assert(fns(r.micro_ops@) =~= fns(read_then_fixup_program(Mnemonic::AND, Addressing::IndirectX)));
        assert(labels(r.micro_ops@) =~= seq![Label::IncPc, Label::FetchZp, Label::AddXDummy, Label::ReadLo, Label::ReadHi, Label::AndMem]);
    }
    r
}

/// `AND`, `(zp),Y` (opcode $31; one cycle per micro-operation, the page-crossing one included): the address cycles, then the operand read; a page-crossing fix-up read comes last.
pub fn and_indirect_y() -> (r: MicroInstruction)
    ensures
        r.opcode == Mnemonic::AND,
        r.addressing == Addressing::IndirectY,
        fns(r.micro_ops@) == fns(read_then_fixup_program(Mnemonic::AND, Addressing::IndirectY)),
        labels(r.micro_ops@) == seq![Label::IncPc, Label::FetchZp, Label::ReadLo, Label::ReadHiCalcAddr, Label::AndMem, Label::ExtraCycleIfCrossed],
        r.wf(),
        lookup_spec(0x31u8) == (Instruction { mnemonic: Mnemonic::AND, addressing: Addressing::IndirectY }),
        r.micro_ops@.len() == timing_spec(0x31u8).total_spec(true, false),
{
    let r = MicroInstruction {
        opcode: Mnemonic::AND,
        addressing: Addressing::IndirectY,
        micro_ops: vec![
            MicroOp { micro_fn: MicroFn::AdvancePc, label: Label::IncPc },
            MicroOp { micro_fn: MicroFn::FetchZpAddrLo, label: Label::FetchZp },
            MicroOp { micro_fn: MicroFn::ReadZeroPage, label: Label::ReadLo },
            MicroOp { micro_fn: MicroFn::ReadIndirectYHi, label: Label::ReadHiCalcAddr },
            MicroOp { micro_fn: MicroFn::Read(Mnemonic::AND, ReadFrom::Effective), label: Label::AndMem },
            MicroOp { micro_fn: MicroFn::DummyReadCrossY, label: Label::ExtraCycleIfCrossed },
        ],
    };
    proof {
        assert(fns(r.micro_ops@) =~= fns(read_then_fixup_program(Mnemonic::AND, Addressing::IndirectY)));
        assert(labels(r.micro_ops@) =~= seq![Label::IncPc, Label::FetchZp, Label::ReadLo, Label::ReadHiCalcAddr, Label::AndMem, Label::ExtraCycleIfCrossed]);
    }
    r
}

/// `BIT`, zero page (opcode $24; one cycle per micro-operation, the page-crossing one included): the address cycles, then one cycle that reads the operand and applies the operation.
pub fn bit_zero_page() -> (r: MicroInstruction)
    ensures
        r.opcode == Mnemonic::BIT,
        r.addressing == Addressing::ZeroPage,
        fns(r.micro_ops@) == fns(read_program(Mnemonic::BIT, Addressing::ZeroPage)),
        labels(r.micro_ops@) == seq![Label::IncPc, Label::FetchZpAddr, Label::BitTest],
        r.wf(),
        lookup_spec(0x24u8) == (Instruction { mnemonic: Mnemonic::BIT, addressing: Addressing::ZeroPage }),
        r.micro_ops@.len() == timing_spec(0x24u8).total_spec(true, false),
{
    let r = MicroInstruction {
        opcode: Mnemonic::BIT,
        addressing: Addressing::ZeroPage,
        micro_ops: vec![
            MicroOp { micro_fn: MicroFn::AdvancePc, label: Label::IncPc },
            MicroOp { micro_fn: MicroFn::FetchZpAddrLo, label: Label::FetchZpAddr },
            MicroOp { micro_fn: MicroFn::Read(Mnemonic::BIT, ReadFrom::ZeroPage), label: Label::BitTest },
        ],
    };
    proof {
        assert(fns(r.micro_ops@) =~= fns(read_program(Mnemonic::BIT, Addressing::ZeroPage)));
        assert(labels(r.micro_ops@) =~= seq![Label::IncPc, Label::FetchZpAddr, Label::BitTest]);
    }
    r
}

/// `BIT`, absolute (opcode $2C; one cycle per micro-operation, the page-crossing one included): the address cycles, then one cycle that reads the operand and applies the operation.
pub fn bit_absolute() -> (r: MicroInstruction)
    ensures
        r.opcode == Mnemonic::BIT,
        r.addressing == Addressing::Absolute,
        fns(r.micro_ops@) == fns(read_program(Mnemonic::BIT, Addressing::Absolute)),
        labels(r.micro_ops@) == seq![Label::IncPc, Label::FetchLo, Label::FetchHi, Label::BitTest],
        r.wf(),
        lookup_spec(0x2Cu8) == (Instruction { mnemonic: Mnemonic::BIT, addressing: Addressing::Absolute }),
        r.micro_ops@.len() == timing_spec(0x2Cu8).total_spec(true, false),
{
    let r = MicroInstruction {
        opcode: Mnemonic::BIT,
        addressing: Addressing::Absolute,
        micro_ops: vec![
            MicroOp { micro_fn: MicroFn::AdvancePc, label: Label::IncPc },
            MicroOp { micro_fn: MicroFn::FetchAbsAddrLo, label: Label::FetchLo },
            MicroOp { micro_fn: MicroFn::FetchAbsAddrHi, label: Label::FetchHi },
            MicroOp { micro_fn: MicroFn::Read(Mnemonic::BIT, ReadFrom::Effective), label: Label::BitTest },
        ],
    };
    proof {
        assert(fns(r.micro_ops@) =~= fns(read_program(Mnemonic::BIT, Addressing::Absolute)));
        assert(labels(r.micro_ops@) =~= seq![Label::IncPc, Label::FetchLo, Label::FetchHi, Label::BitTest]);
    }
    r
}

/// `ORA`, immediate (opcode $09; one cycle per micro-operation, the page-crossing one included): the address cycles, then one cycle that reads the operand and applies the operation.
pub fn ora_immediate() -> (r: MicroInstruction)
    ensures
        r.opcode == Mnemonic::ORA,
        r.addressing == Addressing::Immediate,
        fns(r.micro_ops@) == fns(read_program(Mnemonic::ORA, Addressing::Immediate)),
        labels(r.micro_ops@) == seq![Label::Standard, Label::Standard],
        r.wf(),
        lookup_spec(0x09u8) == (Instruction { mnemonic: Mnemonic::ORA, addressing: Addressing::Immediate }),
        r.micro_ops@.len() == timing_spec(0x09u8).total_spec(true, false),
{
    let r = MicroInstruction {
        opcode: Mnemonic::ORA,
        addressing: Addressing::Immediate,
        micro_ops: vec![
            MicroOp::advance_pc_after_opcode(),
            MicroOp { micro_fn: MicroFn::Read(Mnemonic::ORA, ReadFrom::Immediate), label: Label::Standard },
        ],
    };
    proof {
        assert(fns(r.micro_ops@) =~= fns(read_program(Mnemonic::ORA, Addressing::Immediate)));
        assert(labels(r.micro_ops@) =~= seq![Label::Standard, Label::Standard]);
    }
    r
}

/// `ORA`, zero page (opcode $05; one cycle per micro-operation, the page-crossing one included): the address cycles, then one cycle that reads the operand and applies the operation.
pub fn ora_zero_page() -> (r: MicroInstruction)
    ensures
        r.opcode == Mnemonic::ORA,
        r.addressing == Addressing::ZeroPage,
        fns(r.micro_ops@) == fns(read_program(Mnemonic::ORA, Addressing::ZeroPage)),
        labels(r.micro_ops@) == seq![Label::Standard, Label::Standard, Label::Standard],
        r.wf(),
        lookup_spec(0x05u8) == (Instruction { mnemonic: Mnemonic::ORA, addressing: Addressing::ZeroPage }),
        r.micro_ops@.len() == timing_spec(0x05u8).total_spec(true, false),
{
    let r = MicroInstruction {
        opcode: Mnemonic::ORA,
        addressing: Addressing::ZeroPage,
        micro_ops: vec![
            MicroOp::advance_pc_after_opcode(),
            MicroOp::fetch_zp_addr_lo(),
            MicroOp { micro_fn: MicroFn::Read(Mnemonic::ORA, ReadFrom::ZeroPage), label: Label::Standard },
        ],
    };
    proof {
        assert(fns(r.micro_ops@) =~= fns(read_program(Mnemonic::ORA, Addressing::ZeroPage)));
        assert(labels(r.micro_ops@) =~= seq![Label::Standard, Label::Standard, Label::Standard]);
    }
    r
}

/// `ORA`, zero page indexed by X (opcode $15; one cycle per micro-operation, the page-crossing one included): the address cycles, then one cycle that reads the operand and applies the operation.
pub fn ora_zero_page_x() -> (r: MicroInstruction)
    ensures
        r.opcode == Mnemonic::ORA,
        r.addressing == Addressing::ZeroPageX,
        fns(r.micro_ops@) == fns(read_program(Mnemonic::ORA, Addressing::ZeroPageX)),
        labels(r.micro_ops@) == seq![Label::Standard, Label::Standard, Label::Standard, Label::Standard],
        r.wf(),
        lookup_spec(0x15u8) == (Instruction { mnemonic: Mnemonic::ORA, addressing: Addressing::ZeroPageX }),
        r.micro_ops@.len() == timing_spec(0x15u8).total_spec(true, false),
{
    let r = MicroInstruction {
        opcode: Mnemonic::ORA,
        addressing: Addressing::ZeroPageX,
        micro_ops: vec![
            MicroOp::advance_pc_after_opcode(),
            MicroOp::fetch_zp_addr_lo(),
            MicroOp::read_zero_page_add_x_dummy(),
            MicroOp { micro_fn: MicroFn::Read(Mnemonic::ORA, ReadFrom::Effective), label: Label::Standard },
        ],
    };
    proof {
        assert(fns(r.micro_ops@) =~= fns(read_program(Mnemonic::ORA, Addressing::ZeroPageX)));
        assert(labels(r.micro_ops@) =~= seq![Label::Standard, Label::Standard, Label::Standard, Label::Standard]);
    }
    r
}

/// `ORA`, absolute (opcode $0D; one cycle per micro-operation, the page-crossing one included): the address cycles, then one cycle that reads the operand and applies the operation.
pub fn ora_absolute() -> (r: MicroInstruction)
    ensures
        r.opcode == Mnemonic::ORA,
        r.addressing == Addressing::Absolute,
        fns(r.micro_ops@) == fns(read_program(Mnemonic::ORA, Addressing::Absolute)),
        labels(r.micro_ops@) == seq![Label::Standard, Label::Standard, Label::Standard, Label::Standard],
        r.wf(),
        lookup_spec(0x0Du8) == (Instruction { mnemonic: Mnemonic::ORA, addressing: Addressing::Absolute }),
        r.micro_ops@.len() == timing_spec(0x0Du8).total_spec(true, false),
{
    let r = MicroInstruction {
        opcode: Mnemonic::ORA,
        addressing: Addressing::Absolute,
        micro_ops: vec![
            MicroOp::advance_pc_after_opcode(),
            MicroOp::fetch_abs_addr_lo(),
            MicroOp::fetch_abs_addr_hi(),
            MicroOp { micro_fn: MicroFn::Read(Mnemonic::ORA, ReadFrom::Effective), label: Label::Standard },
        ],
    };
    proof {
        assert(fns(r.micro_ops@) =~= fns(read_program(Mnemonic::ORA, Addressing::Absolute)));
        assert(labels(r.micro_ops@) =~= seq![Label::Standard, Label::Standard, Label::Standard, Label::Standard]);
    }
    r
}

/// `ORA`, absolute indexed by X (opcode $1D; one cycle per micro-operation, the page-crossing one included): the address cycles, then one cycle that reads the operand and applies the operation.
pub fn ora_absolute_x() -> (r: MicroInstruction)
    ensures
        r.opcode == Mnemonic::ORA,
        r.addressing == Addressing::AbsoluteX,
        fns(r.micro_ops@) == fns(read_program(Mnemonic::ORA, Addressing::AbsoluteX)),
        labels(r.micro_ops@) == seq![Label::Standard, Label::Standard, Label::Standard, Label::Standard, Label::Standard],
        r.wf(),
        lookup_spec(0x1Du8) == (Instruction { mnemonic: Mnemonic::ORA, addressing: Addressing::AbsoluteX }),
        r.micro_ops@.len() == timing_spec(0x1Du8).total_spec(true, false),
{
    let r = MicroInstruction {
        opcode: Mnemonic::ORA,
        addressing: Addressing::AbsoluteX,
        micro_ops: vec![
            MicroOp::advance_pc_after_opcode(),
            MicroOp::fetch_abs_addr_lo(),
            MicroOp::fetch_abs_addr_hi_add_x(),
            MicroOp::dummy_read_cross_x(),
            MicroOp { micro_fn: MicroFn::Read(Mnemonic::ORA, ReadFrom::Effective), label: Label::Standard },
        ],
    };
    proof {
        assert(fns(r.micro_ops@) =~= fns(read_program(Mnemonic::ORA, Addressing::AbsoluteX)));
        assert(labels(r.micro_ops@) =~= seq![Label::Standard, Label::Standard, Label::Standard, Label::Standard, Label::Standard]);
    }
    r
}

/// `ORA`, absolute indexed by Y (opcode $19; one cycle per micro-operation, the page-crossing one included): the address cycles, then one cycle that reads the operand and applies the operation.
pub fn ora_absolute_y() -> (r: MicroInstruction)
    ensures
        r.opcode == Mnemonic::ORA,
        r.addressing == Addressing::AbsoluteY,
        fns(r.micro_ops@) == fns(read_program(Mnemonic::ORA, Addressing::AbsoluteY)),
        labels(r.micro_ops@) == seq![Label::Standard, Label::Standard, Label::Standard, Label::Standard, Label::Standard],
        r.wf(),
        lookup_spec(0x19u8) == (Instruction { mnemonic: Mnemonic::ORA, addressing: Addressing::AbsoluteY }),
        r.micro_ops@.len() == timing_spec(0x19u8).total_spec(true, false),
{
    let r = MicroInstruction {
        opcode: Mnemonic::ORA,
        addressing: Addressing::AbsoluteY,
        micro_ops: vec![
            MicroOp::advance_pc_after_opcode(),
            MicroOp::fetch_abs_addr_lo(),
            MicroOp::fetch_abs_addr_hi_add_y(),
            MicroOp::dummy_read_cross_y(),
            MicroOp { micro_fn: MicroFn::Read(Mnemonic::ORA, ReadFrom::Effective), label: Label::Standard },
        ],
    };
    proof {
        assert(fns(r.micro_ops@) =~= fns(read_program(Mnemonic::ORA, Addressing::AbsoluteY)));
        assert(labels(r.micro_ops@) =~= seq![Label::Standard, Label::Standard, Label::Standard, Label::Standard, Label::Standard]);
    }
    r
}

/// `ORA`, `(zp,X)` (opcode $01; one cycle per micro-operation, the page-crossing one included): the address cycles, then one cycle that reads the operand and applies the operation.
pub fn ora_indirect_x() -> (r: MicroInstruction)
    ensures
        r.opcode == Mnemonic::ORA,
        r.addressing == Addressing::IndirectX,
        fns(r.micro_ops@) == fns(read_program(Mnemonic::ORA, Addressing::IndirectX)),
        labels(r.micro_ops@) == seq![Label::Standard, Label::Standard, Label::Standard, Label::Standard, Label::Standard, Label::Standard],
        r.wf(),
        lookup_spec(0x01u8) == (Instruction { mnemonic: Mnemonic::ORA, addressing: Addressing::IndirectX }),
        r.micro_ops@.len() == timing_spec(0x01u8).total_spec(true, false),
{
    let r = MicroInstruction {
        opcode: Mnemonic::ORA,
        addressing: Addressing::IndirectX,
        micro_ops: vec![
            MicroOp::advance_pc_after_opcode(),
            MicroOp::fetch_zp_addr_lo(),
            MicroOp::read_indirect_x_dummy(),
            MicroOp::read_indirect_x_lo(),
            MicroOp::read_indirect_x_hi(),
            MicroOp { micro_fn: MicroFn::Read(Mnemonic::ORA, ReadFrom::Effective), label: Label::Standard },
        ],
    };
    proof {
        assert(fns(r.micro_ops@) =~= fns(read_program(Mnemonic::ORA, Addressing::IndirectX)));
        assert(labels(r.micro_ops@) =~= seq![Label::Standard, Label::Standard, Label::Standard, Label::Standard, Label::Standard, Label::Standard]);
    }
    r
}

/// `ORA`, `(zp),Y` (opcode $11; one cycle per micro-operation, the page-crossing one included): the address cycles, then one cycle that reads the operand and applies the operation.
pub fn ora_indirect_y() -> (r: MicroInstruction)
    ensures
        r.opcode == Mnemonic::ORA,
        r.addressing == Addressing::IndirectY,
        fns(r.micro_ops@) == fns(read_program(Mnemonic::ORA, Addressing::IndirectY)),
        labels(r.micro_ops@) == seq![Label::Standard, Label::Standard, Label::Standard, Label::Standard, Label::Standard, Label::Standard],
        r.wf(),
        lookup_spec(0x11u8) == (Instruction { mnemonic: Mnemonic::ORA, addressing: Addressing::IndirectY }),
        r.micro_ops@.len() == timing_spec(0x11u8).total_spec(true, false),
{
    let r = MicroInstruction {
        opcode: Mnemonic::ORA,
        addressing: Addressing::IndirectY,
        micro_ops: vec![
            MicroOp::advance_pc_after_opcode(),
            MicroOp::fetch_zp_addr_lo(),
            MicroOp::read_zero_page(),
            MicroOp::read_indirect_y_hi(),
            MicroOp::dummy_read_cross_y(),
            MicroOp { micro_fn: MicroFn::Read(Mnemonic::ORA, ReadFrom::Effective), label: Label::Standard },
        ],
    };
    proof {
        assert(fns(r.micro_ops@) =~= fns(read_program(Mnemonic::ORA, Addressing::IndirectY)));
        assert(labels(r.micro_ops@) =~= seq![Label::Standard, Label::Standard, Label::Standard, Label::Standard, Label::Standard, Label::Standard]);
    }
    r
}

} // verus!
