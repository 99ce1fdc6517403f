//! Cycle programs of the stack instructions.

use vstd::prelude::*;

use crate::addressing::Addressing;
use crate::micro_op::{MicroFn, MicroInstruction, MicroOp, fns, implied_program, labels};
use crate::micro_op::names::Label;
use crate::instruction::Instruction;
use crate::lookup::lookup_spec;
use crate::mnemonic::Mnemonic;
use crate::timing::timing_spec;

verus! {

/// `PHA`, implied (opcode $48; one cycle per micro-operation, the page-crossing one included): the opcode cycle, then the execute cycles.
pub fn pha_implied() -> (r: MicroInstruction)
    ensures
        r.opcode == Mnemonic::PHA,
        r.addressing == Addressing::Implied,
        fns(r.micro_ops@) == fns(implied_program(Mnemonic::PHA)),
        labels(r.micro_ops@) == seq![Label::IncPc, Label::PushA, Label::DecrementS],
        r.wf(),
        lookup_spec(0x48u8) == (Instruction { mnemonic: Mnemonic::PHA, addressing: Addressing::Implied }),
        r.micro_ops@.len() == timing_spec(0x48u8).total_spec(true, false),
{
    let r = MicroInstruction {
        opcode: Mnemonic::PHA,
        addressing: Addressing::Implied,
        micro_ops: vec![
            MicroOp { micro_fn: MicroFn::AdvancePc, label: Label::IncPc },
            MicroOp { micro_fn: MicroFn::Exec(Mnemonic::PHA, 0), label: Label::PushA },
            MicroOp { micro_fn: MicroFn::Exec(Mnemonic::PHA, 1), label: Label::DecrementS },
        ],
    };
    proof {
        assert(fns(r.micro_ops@) =~= fns(implied_program(Mnemonic::PHA)));
        assert(labels(r.micro_ops@) =~= seq![Label::IncPc, Label::PushA, Label::DecrementS]);
    }
    r
}

/// `PHP`, implied (opcode $08; one cycle per micro-operation, the page-crossing one included): the opcode cycle, then the execute cycles.
pub fn php_implied() -> (r: MicroInstruction)
    ensures
        r.opcode == Mnemonic::PHP,
        r.addressing == Addressing::Implied,
        fns(r.micro_ops@) == fns(implied_program(Mnemonic::PHP)),
        labels(r.micro_ops@) == seq![Label::IncPc, Label::PushP, Label::DecrementS],
        r.wf(),
        lookup_spec(0x08u8) == (Instruction { mnemonic: Mnemonic::PHP, addressing: Addressing::Implied }),
        r.micro_ops@.len() == timing_spec(0x08u8).total_spec(true, false),
{
    let r = MicroInstruction {
        opcode: Mnemonic::PHP,
        addressing: Addressing::Implied,
        micro_ops: vec![
            MicroOp { micro_fn: MicroFn::AdvancePc, label: Label::IncPc },
            MicroOp { micro_fn: MicroFn::Exec(Mnemonic::PHP, 0), label: Label::PushP },
            MicroOp { micro_fn: MicroFn::Exec(Mnemonic::PHP, 1), label: Label::DecrementS },
        ],
    };
    proof {
        assert(fns(r.micro_ops@) =~= fns(implied_program(Mnemonic::PHP)));
        assert(labels(r.micro_ops@) =~= seq![Label::IncPc, Label::PushP, Label::DecrementS]);
    }
    r
}

/// `PLA`, implied (opcode $68; one cycle per micro-operation, the page-crossing one included): the opcode cycle, then the execute cycles.
pub fn pla_implied() -> (r: MicroInstruction)
    ensures
        r.opcode == Mnemonic::PLA,
        r.addressing == Addressing::Implied,
        fns(r.micro_ops@) == fns(implied_program(Mnemonic::PLA)),
        labels(r.micro_ops@) == seq![Label::IncPc, Label::IncrementS, Label::ReadFromStack, Label::LoadAAndFlags],
        r.wf(),
        lookup_spec(0x68u8) == (Instruction { mnemonic: Mnemonic::PLA, addressing: Addressing::Implied }),
        r.micro_ops@.len() == timing_spec(0x68u8).total_spec(true, false),
{
    let r = MicroInstruction {
        opcode: Mnemonic::PLA,
        addressing: Addressing::Implied,
        micro_ops: vec![
            MicroOp { micro_fn: MicroFn::AdvancePc, label: Label::IncPc },
            MicroOp { micro_fn: MicroFn::Exec(Mnemonic::PLA, 0), label: Label::IncrementS },
            MicroOp { micro_fn: MicroFn::Exec(Mnemonic::PLA, 1), label: Label::ReadFromStack },
            MicroOp { micro_fn: MicroFn::Exec(Mnemonic::PLA, 2), label: Label::LoadAAndFlags },
        ],
    };
    proof {
        assert(fns(r.micro_ops@) =~= fns(implied_program(Mnemonic::PLA)));
        assert(labels(r.micro_ops@) =~= seq![Label::IncPc, Label::IncrementS, Label::ReadFromStack, Label::LoadAAndFlags]);
    }
    r
}

/// `PLP`, implied (opcode $28; one cycle per micro-operation, the page-crossing one included): the opcode cycle, then the execute cycles.
pub fn plp_implied() -> (r: MicroInstruction)
    ensures
        r.opcode == Mnemonic::PLP,
        r.addressing == Addressing::Implied,
        fns(r.micro_ops@) == fns(implied_program(Mnemonic::PLP)),
        labels(r.micro_ops@) == seq![Label::IncPc, Label::IncrementS, Label::ReadFromStack, Label::LoadP],
        r.wf(),
        lookup_spec(0x28u8) == (Instruction { mnemonic: Mnemonic::PLP, addressing: Addressing::Implied }),
        r.micro_ops@.len() == timing_spec(0x28u8).total_spec(true, false),
{
    let r = MicroInstruction {
        opcode: Mnemonic::PLP,
        addressing: Addressing::Implied,
        micro_ops: vec![
            MicroOp { micro_fn: MicroFn::AdvancePc, label: Label::IncPc },
            MicroOp { micro_fn: MicroFn::Exec(Mnemonic::PLP, 0), label: Label::IncrementS },
            MicroOp { micro_fn: MicroFn::Exec(Mnemonic::PLP, 1), label: Label::ReadFromStack },
            MicroOp { micro_fn: MicroFn::Exec(Mnemonic::PLP, 2), label: Label::LoadP },
        ],
    };
    proof {
        assert(fns(r.micro_ops@) =~= fns(implied_program(Mnemonic::PLP)));
        assert(labels(r.micro_ops@) =~= seq![Label::IncPc, Label::IncrementS, Label::ReadFromStack, Label::LoadP]);
    }
    r
}

} // verus!
