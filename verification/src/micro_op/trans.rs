//! Cycle programs of the transfer instructions.

use vstd::prelude::*;

use crate::addressing::Addressing;
use crate::micro_op::{MicroFn, MicroInstruction, MicroOp, fns, implied_program, labels, masked_store_program};
use crate::micro_op::names::Label;
use crate::instruction::Instruction;
use crate::lookup::lookup_spec;
use crate::mnemonic::Mnemonic;
use crate::timing::timing_spec;

verus! {

/// `SHS`, absolute indexed by Y (opcode $9B; one cycle per micro-operation, the page-crossing one included): the address cycles with `H + 1` latched, the fix-up read, then the masked write.
pub fn shs_absolute_y() -> (r: MicroInstruction)
    ensures
        r.opcode == Mnemonic::SHS,
        r.addressing == Addressing::AbsoluteY,
        fns(r.micro_ops@) == fns(masked_store_program(Mnemonic::SHS, Addressing::AbsoluteY)),
        labels(r.micro_ops@) == seq![Label::IncPc, Label::FetchLo, Label::FetchHiAndS, Label::DummyReadBase, Label::WriteShs],
        r.wf(),
        lookup_spec(0x9Bu8) == (Instruction { mnemonic: Mnemonic::SHS, addressing: Addressing::AbsoluteY }),
        r.micro_ops@.len() == timing_spec(0x9Bu8).total_spec(true, false),
{
    let r = MicroInstruction {
        opcode: Mnemonic::SHS,
        addressing: Addressing::AbsoluteY,
        micro_ops: vec![
            MicroOp { micro_fn: MicroFn::AdvancePc, label: Label::IncPc },
            MicroOp { micro_fn: MicroFn::FetchAbsAddrLo, label: Label::FetchLo },
            MicroOp { micro_fn: MicroFn::FetchHiCalcV(false), label: Label::FetchHiAndS },
            MicroOp { micro_fn: MicroFn::DummyReadCrossY, label: Label::DummyReadBase },
            MicroOp { micro_fn: MicroFn::StoreMasked(Mnemonic::SHS), label: Label::WriteShs },
        ],
    };
    proof {
        assert(fns(r.micro_ops@) =~= fns(masked_store_program(Mnemonic::SHS, Addressing::AbsoluteY)));
        assert(labels(r.micro_ops@) =~= seq![Label::IncPc, Label::FetchLo, Label::FetchHiAndS, Label::DummyReadBase, Label::WriteShs]);
    }
    r
}

/// `TAY`, implied (opcode $A8; one cycle per micro-operation, the page-crossing one included): the opcode cycle, then the execute cycles.
pub fn tay_implied() -> (r: MicroInstruction)
    ensures
        r.opcode == Mnemonic::TAY,
        r.addressing == Addressing::Implied,
        fns(r.micro_ops@) == fns(implied_program(Mnemonic::TAY)),
        labels(r.micro_ops@) == seq![Label::IncPc, Label::TransferAndFlags],
        r.wf(),
        lookup_spec(0xA8u8) == (Instruction { mnemonic: Mnemonic::TAY, addressing: Addressing::Implied }),
        r.micro_ops@.len() == timing_spec(0xA8u8).total_spec(true, false),
{
    let r = MicroInstruction {
        opcode: Mnemonic::TAY,
        addressing: Addressing::Implied,
        micro_ops: vec![
            MicroOp { micro_fn: MicroFn::AdvancePc, label: Label::IncPc },
            MicroOp { micro_fn: MicroFn::Exec(Mnemonic::TAY, 0), label: Label::TransferAndFlags },
        ],
    };
    proof {
        assert(fns(r.micro_ops@) =~= fns(implied_program(Mnemonic::TAY)));
        assert(labels(r.micro_ops@) =~= seq![Label::IncPc, Label::TransferAndFlags]);
    }
    r
}

/// `TSX`, implied (opcode $BA; one cycle per micro-operation, the page-crossing one included): the opcode cycle, then the execute cycles.
pub fn tsx_implied() -> (r: MicroInstruction)
    ensures
        r.opcode == Mnemonic::TSX,
        r.addressing == Addressing::Implied,
        fns(r.micro_ops@) == fns(implied_program(Mnemonic::TSX)),
        labels(r.micro_ops@) == seq![Label::IncPc, Label::TransferAndFlags],
        r.wf(),
        lookup_spec(0xBAu8) == (Instruction { mnemonic: Mnemonic::TSX, addressing: Addressing::Implied }),
        r.micro_ops@.len() == timing_spec(0xBAu8).total_spec(true, false),
{
    let r = MicroInstruction {
        opcode: Mnemonic::TSX,
        addressing: Addressing::Implied,
        micro_ops: vec![
            MicroOp { micro_fn: MicroFn::AdvancePc, label: Label::IncPc },
            MicroOp { micro_fn: MicroFn::Exec(Mnemonic::TSX, 0), label: Label::TransferAndFlags },
        ],
    };
    proof {
        assert(fns(r.micro_ops@) =~= fns(implied_program(Mnemonic::TSX)));
        assert(labels(r.micro_ops@) =~= seq![Label::IncPc, Label::TransferAndFlags]);
    }
    r
}

/// `TXA`, implied (opcode $8A; one cycle per micro-operation, the page-crossing one included): the opcode cycle, then the execute cycles.
pub fn txa_implied() -> (r: MicroInstruction)
    ensures
        r.opcode == Mnemonic::TXA,
        r.addressing == Addressing::Implied,
        fns(r.micro_ops@) == fns(implied_program(Mnemonic::TXA)),
        labels(r.micro_ops@) == seq![Label::IncPc, Label::TransferAndFlags],
        r.wf(),
        lookup_spec(0x8Au8) == (Instruction { mnemonic: Mnemonic::TXA, addressing: Addressing::Implied }),
        r.micro_ops@.len() == timing_spec(0x8Au8).total_spec(true, false),
{
    let r = MicroInstruction {
        opcode: Mnemonic::TXA,
        addressing: Addressing::Implied,
        micro_ops: vec![
            MicroOp { micro_fn: MicroFn::AdvancePc, label: Label::IncPc },
            MicroOp { micro_fn: MicroFn::Exec(Mnemonic::TXA, 0), label: Label::TransferAndFlags },
        ],
    };
    proof {
        assert(fns(r.micro_ops@) =~= fns(implied_program(Mnemonic::TXA)));
        assert(labels(r.micro_ops@) =~= seq![Label::IncPc, Label::TransferAndFlags]);
    }
    r
}

/// `TXS`, implied (opcode $9A; one cycle per micro-operation, the page-crossing one included): the opcode cycle, then the execute cycles.
pub fn txs_implied() -> (r: MicroInstruction)
    ensures
        r.opcode == Mnemonic::TXS,
        r.addressing == Addressing::Implied,
        fns(r.micro_ops@) == fns(implied_program(Mnemonic::TXS)),
        labels(r.micro_ops@) == seq![Label::IncPc, Label::TransferToS],
        r.wf(),
        lookup_spec(0x9Au8) == (Instruction { mnemonic: Mnemonic::TXS, addressing: Addressing::Implied }),
        r.micro_ops@.len() == timing_spec(0x9Au8).total_spec(true, false),
{
    let r = MicroInstruction {
        opcode: Mnemonic::TXS,
        addressing: Addressing::Implied,
        micro_ops: vec![
            MicroOp { micro_fn: MicroFn::AdvancePc, label: Label::IncPc },
            MicroOp { micro_fn: MicroFn::Exec(Mnemonic::TXS, 0), label: Label::TransferToS },
        ],
    };
    proof {
        assert(fns(r.micro_ops@) =~= fns(implied_program(Mnemonic::TXS)));
        assert(labels(r.micro_ops@) =~= seq![Label::IncPc, Label::TransferToS]);
    }
    r
}

} // verus!
