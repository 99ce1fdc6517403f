//! Cycle programs of the shift and rotate instructions.

use vstd::prelude::*;

use crate::addressing::Addressing;
use crate::micro_op::{MicroFn, MicroInstruction, MicroOp, fns, labels, op, shift_memory_program};
use crate::micro_op::names::Label;
use crate::instruction::Instruction;
use crate::lookup::lookup_spec;
use crate::mnemonic::Mnemonic;
use crate::timing::timing_spec;

verus! {

/// `ASL`, accumulator (opcode $0A; one cycle per micro-operation, the page-crossing one included): the opcode cycle, then the shift of A.
pub fn asl_accumulator() -> (r: MicroInstruction)
    ensures
        r.opcode == Mnemonic::ASL,
        r.addressing == Addressing::Accumulator,
        fns(r.micro_ops@) == fns(seq![op(MicroFn::AdvancePc), op(MicroFn::Accumulator(Mnemonic::ASL))]),
        labels(r.micro_ops@) == seq![Label::IncPc, Label::AslA],
        r.wf(),
        lookup_spec(0x0Au8) == (Instruction { mnemonic: Mnemonic::ASL, addressing: Addressing::Accumulator }),
        r.micro_ops@.len() == timing_spec(0x0Au8).total_spec(true, false),
{
    let r = MicroInstruction {
        opcode: Mnemonic::ASL,
        addressing: Addressing::Accumulator,
        micro_ops: vec![
            MicroOp { micro_fn: MicroFn::AdvancePc, label: Label::IncPc },
            MicroOp { micro_fn: MicroFn::Accumulator(Mnemonic::ASL), label: Label::AslA },
        ],
    };
    proof {
        assert(fns(r.micro_ops@) =~= fns(seq![op(MicroFn::AdvancePc), op(MicroFn::Accumulator(Mnemonic::ASL))]));
        assert(labels(r.micro_ops@) =~= seq![Label::IncPc, Label::AslA]);
    }
    r
}

/// `ASL`, zero page (opcode $06; one cycle per micro-operation, the page-crossing one included): the address cycles, then read the byte, write it back, and write it shifted, whatever opcode is latched.
pub fn asl_zero_page() -> (r: MicroInstruction)
    ensures
        r.opcode == Mnemonic::ASL,
        r.addressing == Addressing::ZeroPage,
        fns(r.micro_ops@) == fns(shift_memory_program(Mnemonic::ASL, Addressing::ZeroPage)),
        labels(r.micro_ops@) == seq![Label::IncPc, Label::FetchZpAddr, Label::ReadOldValue, Label::WriteOldValue, Label::AslAndWrite],
        r.wf(),
        lookup_spec(0x06u8) == (Instruction { mnemonic: Mnemonic::ASL, addressing: Addressing::ZeroPage }),
        r.micro_ops@.len() == timing_spec(0x06u8).total_spec(true, false),
{
    let r = MicroInstruction {
        opcode: Mnemonic::ASL,
        addressing: Addressing::ZeroPage,
        micro_ops: vec![
            MicroOp { micro_fn: MicroFn::AdvancePc, label: Label::IncPc },
            MicroOp { micro_fn: MicroFn::FetchZpAddrLo, label: Label::FetchZpAddr },
            MicroOp { micro_fn: MicroFn::Exec(Mnemonic::ASL, 0), label: Label::ReadOldValue },
            MicroOp { micro_fn: MicroFn::Exec(Mnemonic::ASL, 1), label: Label::WriteOldValue },
            MicroOp { micro_fn: MicroFn::ShiftWrite(Mnemonic::ASL), label: Label::AslAndWrite },
        ],
    };
    proof {
        assert(fns(r.micro_ops@) =~= fns(shift_memory_program(Mnemonic::ASL, Addressing::ZeroPage)));
        assert(labels(r.micro_ops@) =~= seq![Label::IncPc, Label::FetchZpAddr, Label::ReadOldValue, Label::WriteOldValue, Label::AslAndWrite]);
    }
    r
}

/// `ASL`, zero page indexed by X (opcode $16; one cycle per micro-operation, the page-crossing one included): the address cycles, then read the byte, write it back, and write it shifted, whatever opcode is latched.
pub fn asl_zero_page_x() -> (r: MicroInstruction)
    ensures
        r.opcode == Mnemonic::ASL,
        r.addressing == Addressing::ZeroPageX,
        fns(r.micro_ops@) == fns(shift_memory_program(Mnemonic::ASL, Addressing::ZeroPageX)),
        labels(r.micro_ops@) == seq![Label::IncPc, Label::FetchBase, Label::AddX, Label::ReadOldValue, Label::WriteOldValue, Label::AslAndWrite],
        r.wf(),
        lookup_spec(0x16u8) == (Instruction { mnemonic: Mnemonic::ASL, addressing: Addressing::ZeroPageX }),
        r.micro_ops@.len() == timing_spec(0x16u8).total_spec(true, false),
{
    let r = MicroInstruction {
        opcode: Mnemonic::ASL,
        addressing: Addressing::ZeroPageX,
        micro_ops: vec![
            MicroOp { micro_fn: MicroFn::AdvancePc, label: Label::IncPc },
            MicroOp { micro_fn: MicroFn::FetchZpAddrLo, label: Label::FetchBase },
            MicroOp { micro_fn: MicroFn::ReadZeroPageAddXDummy, label: Label::AddX },
            MicroOp { micro_fn: MicroFn::Exec(Mnemonic::ASL, 0), label: Label::ReadOldValue },
            MicroOp { micro_fn: MicroFn::Exec(Mnemonic::ASL, 1), label: Label::WriteOldValue },
            MicroOp { micro_fn: MicroFn::ShiftWrite(Mnemonic::ASL), label: Label::AslAndWrite },
        ],
    };
    proof {
        assert(fns(r.micro_ops@) =~= fns(shift_memory_program(Mnemonic::ASL, Addressing::ZeroPageX)));
        assert(labels(r.micro_ops@) =~= seq![Label::IncPc, Label::FetchBase, Label::AddX, Label::ReadOldValue, Label::WriteOldValue, Label::AslAndWrite]);
    }
    r
}

/// `ASL`, absolute (opcode $0E; one cycle per micro-operation, the page-crossing one included): the address cycles, then read the byte, write it back, and write it shifted, whatever opcode is latched.
pub fn asl_absolute() -> (r: MicroInstruction)
    ensures
        r.opcode == Mnemonic::ASL,
        r.addressing == Addressing::Absolute,
        fns(r.micro_ops@) == fns(shift_memory_program(Mnemonic::ASL, Addressing::Absolute)),
        labels(r.micro_ops@) == seq![Label::IncPc, Label::FetchLo, Label::FetchHi, Label::ReadOldValue, Label::WriteOldValue, Label::AslAndWrite],
        r.wf(),
        lookup_spec(0x0Eu8) == (Instruction { mnemonic: Mnemonic::ASL, addressing: Addressing::Absolute }),
        r.micro_ops@.len() == timing_spec(0x0Eu8).total_spec(true, false),
{
    let r = MicroInstruction {
        opcode: Mnemonic::ASL,
        addressing: Addressing::Absolute,
        micro_ops: vec![
            MicroOp { micro_fn: MicroFn::AdvancePc, label: Label::IncPc },
            MicroOp { micro_fn: MicroFn::FetchAbsAddrLo, label: Label::FetchLo },
            MicroOp { micro_fn: MicroFn::FetchAbsAddrHi, label: Label::FetchHi },
            MicroOp { micro_fn: MicroFn::Exec(Mnemonic::ASL, 0), label: Label::ReadOldValue },
            MicroOp { micro_fn: MicroFn::Exec(Mnemonic::ASL, 1), label: Label::WriteOldValue },
            MicroOp { micro_fn: MicroFn::ShiftWrite(Mnemonic::ASL), label: Label::AslAndWrite },
        ],
    };
    proof {
        assert(fns(r.micro_ops@) =~= fns(shift_memory_program(Mnemonic::ASL, Addressing::Absolute)));
        assert(labels(r.micro_ops@) =~= seq![Label::IncPc, Label::FetchLo, Label::FetchHi, Label::ReadOldValue, Label::WriteOldValue, Label::AslAndWrite]);
    }
    r
}

/// `ASL`, absolute indexed by X (opcode $1E; one cycle per micro-operation, the page-crossing one included): the address cycles, then read the byte, write it back, and write it shifted, whatever opcode is latched.
pub fn asl_absolute_x() -> (r: MicroInstruction)
    ensures
        r.opcode == Mnemonic::ASL,
        r.addressing == Addressing::AbsoluteX,
        fns(r.micro_ops@) == fns(shift_memory_program(Mnemonic::ASL, Addressing::AbsoluteX)),
        labels(r.micro_ops@) == seq![Label::IncPc, Label::FetchLo, Label::FetchHiAddX, Label::ReadOldValue, Label::WriteOldValue, Label::ExtraCycleIfCrossed, Label::AslAndWrite],
        r.wf(),
        lookup_spec(0x1Eu8) == (Instruction { mnemonic: Mnemonic::ASL, addressing: Addressing::AbsoluteX }),
        r.micro_ops@.len() == timing_spec(0x1Eu8).total_spec(true, false),
{
    let r = MicroInstruction {
        opcode: Mnemonic::ASL,
        addressing: Addressing::AbsoluteX,
        micro_ops: vec![
            MicroOp { micro_fn: MicroFn::AdvancePc, label: Label::IncPc },
            MicroOp { micro_fn: MicroFn::FetchAbsAddrLo, label: Label::FetchLo },
            MicroOp { micro_fn: MicroFn::FetchAbsAddrHiAddX, label: Label::FetchHiAddX },
            MicroOp { micro_fn: MicroFn::Exec(Mnemonic::ASL, 0), label: Label::ReadOldValue },
            MicroOp { micro_fn: MicroFn::Exec(Mnemonic::ASL, 1), label: Label::WriteOldValue },
            MicroOp { micro_fn: MicroFn::DummyReadCrossX, label: Label::ExtraCycleIfCrossed },
            MicroOp { micro_fn: MicroFn::ShiftWrite(Mnemonic::ASL), label: Label::AslAndWrite },
        ],
    };
    proof {
        assert(fns(r.micro_ops@) =~= fns(shift_memory_program(Mnemonic::ASL, Addressing::AbsoluteX)));
        assert(labels(r.micro_ops@) =~= seq![Label::IncPc, Label::FetchLo, Label::FetchHiAddX, Label::ReadOldValue, Label::WriteOldValue, Label::ExtraCycleIfCrossed, Label::AslAndWrite]);
    }
    r
}

/// `ROR`, accumulator (opcode $6A; one cycle per micro-operation, the page-crossing one included): the opcode cycle, then the shift of A.
pub fn ror_accumulator() -> (r: MicroInstruction)
    ensures
        r.opcode == Mnemonic::ROR,
        r.addressing == Addressing::Accumulator,
        fns(r.micro_ops@) == fns(seq![op(MicroFn::AdvancePc), op(MicroFn::Accumulator(Mnemonic::ROR))]),
        labels(r.micro_ops@) == seq![Label::IncPc, Label::RorA],
        r.wf(),
        lookup_spec(0x6Au8) == (Instruction { mnemonic: Mnemonic::ROR, addressing: Addressing::Accumulator }),
        r.micro_ops@.len() == timing_spec(0x6Au8).total_spec(true, false),
{
    let r = MicroInstruction {
        opcode: Mnemonic::ROR,
        addressing: Addressing::Accumulator,
        micro_ops: vec![
            MicroOp { micro_fn: MicroFn::AdvancePc, label: Label::IncPc },
            MicroOp { micro_fn: MicroFn::Accumulator(Mnemonic::ROR), label: Label::RorA },
        ],
    };
    proof {
        assert(fns(r.micro_ops@) =~= fns(seq![op(MicroFn::AdvancePc), op(MicroFn::Accumulator(Mnemonic::ROR))]));
        assert(labels(r.micro_ops@) =~= seq![Label::IncPc, Label::RorA]);
    }
    r
}

/// `ROR`, zero page (opcode $66; one cycle per micro-operation, the page-crossing one included): the address cycles, then read the byte, write it back, and write it shifted, whatever opcode is latched.
pub fn ror_zero_page() -> (r: MicroInstruction)
    ensures
        r.opcode == Mnemonic::ROR,
        r.addressing == Addressing::ZeroPage,
        fns(r.micro_ops@) == fns(shift_memory_program(Mnemonic::ROR, Addressing::ZeroPage)),
        labels(r.micro_ops@) == seq![Label::IncPc, Label::FetchZpAddr, Label::ReadOldValue, Label::WriteOldValue, Label::RorAndWrite],
        r.wf(),
        lookup_spec(0x66u8) == (Instruction { mnemonic: Mnemonic::ROR, addressing: Addressing::ZeroPage }),
        r.micro_ops@.len() == timing_spec(0x66u8).total_spec(true, false),
{
    let r = MicroInstruction {
        opcode: Mnemonic::ROR,
        addressing: Addressing::ZeroPage,
        micro_ops: vec![
            MicroOp { micro_fn: MicroFn::AdvancePc, label: Label::IncPc },
            MicroOp { micro_fn: MicroFn::FetchZpAddrLo, label: Label::FetchZpAddr },
            MicroOp { micro_fn: MicroFn::Exec(Mnemonic::ROR, 0), label: Label::ReadOldValue },
            MicroOp { micro_fn: MicroFn::Exec(Mnemonic::ROR, 1), label: Label::WriteOldValue },
            MicroOp { micro_fn: MicroFn::ShiftWrite(Mnemonic::ROR), label: Label::RorAndWrite },
        ],
    };
    proof {
        assert(fns(r.micro_ops@) =~= fns(shift_memory_program(Mnemonic::ROR, Addressing::ZeroPage)));
        assert(labels(r.micro_ops@) =~= seq![Label::IncPc, Label::FetchZpAddr, Label::ReadOldValue, Label::WriteOldValue, Label::RorAndWrite]);
    }
    r
}

/// `ROR`, zero page indexed by X (opcode $76; one cycle per micro-operation, the page-crossing one included): the address cycles, then read the byte, write it back, and write it shifted, whatever opcode is latched.
pub fn ror_zero_page_x() -> (r: MicroInstruction)
    ensures
        r.opcode == Mnemonic::ROR,
        r.addressing == Addressing::ZeroPageX,
        fns(r.micro_ops@) == fns(shift_memory_program(Mnemonic::ROR, Addressing::ZeroPageX)),
        labels(r.micro_ops@) == seq![Label::IncPc, Label::FetchBase, Label::AddX, Label::ReadOldValue, Label::WriteOldValue, Label::RorAndWrite],
        r.wf(),
        lookup_spec(0x76u8) == (Instruction { mnemonic: Mnemonic::ROR, addressing: Addressing::ZeroPageX }),
        r.micro_ops@.len() == timing_spec(0x76u8).total_spec(true, false),
{
    let r = MicroInstruction {
        opcode: Mnemonic::ROR,
        addressing: Addressing::ZeroPageX,
        micro_ops: vec![
            MicroOp { micro_fn: MicroFn::AdvancePc, label: Label::IncPc },
            MicroOp { micro_fn: MicroFn::FetchZpAddrLo, label: Label::FetchBase },
            MicroOp { micro_fn: MicroFn::ReadZeroPageAddXDummy, label: Label::AddX },
            MicroOp { micro_fn: MicroFn::Exec(Mnemonic::ROR, 0), label: Label::ReadOldValue },
            MicroOp { micro_fn: MicroFn::Exec(Mnemonic::ROR, 1), label: Label::WriteOldValue },
            MicroOp { micro_fn: MicroFn::ShiftWrite(Mnemonic::ROR), label: Label::RorAndWrite },
        ],
    };
    proof {
        assert(fns(r.micro_ops@) =~= fns(shift_memory_program(Mnemonic::ROR, Addressing::ZeroPageX)));
        assert(labels(r.micro_ops@) =~= seq![Label::IncPc, Label::FetchBase, Label::AddX, Label::ReadOldValue, Label::WriteOldValue, Label::RorAndWrite]);
    }
    r
}

/// `ROR`, absolute (opcode $6E; one cycle per micro-operation, the page-crossing one included): the address cycles, then read the byte, write it back, and write it shifted, whatever opcode is latched.
pub fn ror_absolute() -> (r: MicroInstruction)
    ensures
        r.opcode == Mnemonic::ROR,
        r.addressing == Addressing::Absolute,
        fns(r.micro_ops@) == fns(shift_memory_program(Mnemonic::ROR, Addressing::Absolute)),
        labels(r.micro_ops@) == seq![Label::IncPc, Label::FetchLo, Label::FetchHi, Label::ReadOldValue, Label::WriteOldValue, Label::RorAndWrite],
        r.wf(),
        lookup_spec(0x6Eu8) == (Instruction { mnemonic: Mnemonic::ROR, addressing: Addressing::Absolute }),
        r.micro_ops@.len() == timing_spec(0x6Eu8).total_spec(true, false),
{
    let r = MicroInstruction {
        opcode: Mnemonic::ROR,
        addressing: Addressing::Absolute,
        micro_ops: vec![
            MicroOp { micro_fn: MicroFn::AdvancePc, label: Label::IncPc },
            MicroOp { micro_fn: MicroFn::FetchAbsAddrLo, label: Label::FetchLo },
            MicroOp { micro_fn: MicroFn::FetchAbsAddrHi, label: Label::FetchHi },
            MicroOp { micro_fn: MicroFn::Exec(Mnemonic::ROR, 0), label: Label::ReadOldValue },
            MicroOp { micro_fn: MicroFn::Exec(Mnemonic::ROR, 1), label: Label::WriteOldValue },
            MicroOp { micro_fn: MicroFn::ShiftWrite(Mnemonic::ROR), label: Label::RorAndWrite },
        ],
    };
    proof {
        assert(fns(r.micro_ops@) =~= fns(shift_memory_program(Mnemonic::ROR, Addressing::Absolute)));
        assert(labels(r.micro_ops@) =~= seq![Label::IncPc, Label::FetchLo, Label::FetchHi, Label::ReadOldValue, Label::WriteOldValue, Label::RorAndWrite]);
    }
    r
}

/// `ROR`, absolute indexed by X (opcode $7E; one cycle per micro-operation, the page-crossing one included): the address cycles, then read the byte, write it back, and write it shifted, whatever opcode is latched.
pub fn ror_absolute_x() -> (r: MicroInstruction)
    ensures
        r.opcode == Mnemonic::ROR,
        r.addressing == Addressing::AbsoluteX,
        fns(r.micro_ops@) == fns(shift_memory_program(Mnemonic::ROR, Addressing::AbsoluteX)),
        labels(r.micro_ops@) == seq![Label::IncPc, Label::FetchLo, Label::FetchHiAddX, Label::ReadOldValue, Label::WriteOldValue, Label::ExtraCycleIfCrossed, Label::RorAndWrite],
        r.wf(),
        lookup_spec(0x7Eu8) == (Instruction { mnemonic: Mnemonic::ROR, addressing: Addressing::AbsoluteX }),
        r.micro_ops@.len() == timing_spec(0x7Eu8).total_spec(true, false),
{
    let r = MicroInstruction {
        opcode: Mnemonic::ROR,
        addressing: Addressing::AbsoluteX,
        micro_ops: vec![
            MicroOp { micro_fn: MicroFn::AdvancePc, label: Label::IncPc },
            MicroOp { micro_fn: MicroFn::FetchAbsAddrLo, label: Label::FetchLo },
            MicroOp { micro_fn: MicroFn::FetchAbsAddrHiAddX, label: Label::FetchHiAddX },
            MicroOp { micro_fn: MicroFn::Exec(Mnemonic::ROR, 0), label: Label::ReadOldValue },
            MicroOp { micro_fn: MicroFn::Exec(Mnemonic::ROR, 1), label: Label::WriteOldValue },
            MicroOp { micro_fn: MicroFn::DummyReadCrossX, label: Label::ExtraCycleIfCrossed },
            MicroOp { micro_fn: MicroFn::ShiftWrite(Mnemonic::ROR), label: Label::RorAndWrite },
        ],
    };
    proof {
        assert(fns(r.micro_ops@) =~= fns(shift_memory_program(Mnemonic::ROR, Addressing::AbsoluteX)));
        assert(labels(r.micro_ops@) =~= seq![Label::IncPc, Label::FetchLo, Label::FetchHiAddX, Label::ReadOldValue, Label::WriteOldValue, Label::ExtraCycleIfCrossed, Label::RorAndWrite]);
    }
    r
}

} // verus!
