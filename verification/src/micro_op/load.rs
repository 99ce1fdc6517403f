//! Cycle programs of the load and store instructions.

use vstd::prelude::*;

use crate::addressing::Addressing;
use crate::micro_op::{MicroFn, MicroInstruction, MicroOp, ReadFrom, fns, labels, masked_store_program, read_program, store_program};
use crate::micro_op::names::Label;
use crate::instruction::Instruction;
use crate::lookup::lookup_spec;
use crate::mnemonic::Mnemonic;
use crate::timing::timing_spec;

verus! {

/// `LAS`, absolute indexed by Y (opcode $BB; one cycle per micro-operation, the page-crossing one included): the address cycles, then one cycle that reads the operand and applies the operation.
pub fn las_absolute_y() -> (r: MicroInstruction)
    ensures
        r.opcode == Mnemonic::LAS,
        r.addressing == Addressing::AbsoluteY,
        fns(r.micro_ops@) == fns(read_program(Mnemonic::LAS, Addressing::AbsoluteY)),
        labels(r.micro_ops@) == seq![Label::Standard, Label::Standard, Label::Standard, Label::DummyReadCross, Label::ReadAndLas],
        r.wf(),
        lookup_spec(0xBBu8) == (Instruction { mnemonic: Mnemonic::LAS, addressing: Addressing::AbsoluteY }),
        r.micro_ops@.len() == timing_spec(0xBBu8).total_spec(true, false),
{
    let r = MicroInstruction {
        opcode: Mnemonic::LAS,
        addressing: Addressing::AbsoluteY,
        micro_ops: vec![
            MicroOp::advance_pc_after_opcode(),
            MicroOp::fetch_abs_addr_lo(),
            MicroOp::fetch_abs_addr_hi_add_y(),
            MicroOp { micro_fn: MicroFn::DummyReadCrossY, label: Label::DummyReadCross },
            MicroOp { micro_fn: MicroFn::Read(Mnemonic::LAS, ReadFrom::Effective), label: Label::ReadAndLas },
        ],
    };
    proof {
        assert(fns(r.micro_ops@) =~= fns(read_program(Mnemonic::LAS, Addressing::AbsoluteY)));
        assert(labels(r.micro_ops@) =~= seq![Label::Standard, Label::Standard, Label::Standard, Label::DummyReadCross, Label::ReadAndLas]);
    }
    r
}

/// `LAX`, immediate (opcode $AB; one cycle per micro-operation, the page-crossing one included): the address cycles, then one cycle that reads the operand and applies the operation.
pub fn lax_immediate() -> (r: MicroInstruction)
    ensures
        r.opcode == Mnemonic::LAX,
        r.addressing == Addressing::Immediate,
        fns(r.micro_ops@) == fns(read_program(Mnemonic::LAX, Addressing::Immediate)),
        labels(r.micro_ops@) == seq![Label::Standard, Label::FetchAndLax],
        r.wf(),
        lookup_spec(0xABu8) == (Instruction { mnemonic: Mnemonic::LAX, addressing: Addressing::Immediate }),
        r.micro_ops@.len() == timing_spec(0xABu8).total_spec(true, false),
{
    let r = MicroInstruction {
        opcode: Mnemonic::LAX,
        addressing: Addressing::Immediate,
        micro_ops: vec![
            MicroOp::advance_pc_after_opcode(),
            MicroOp { micro_fn: MicroFn::Read(Mnemonic::LAX, ReadFrom::Immediate), label: Label::FetchAndLax },
        ],
    };
    proof {
        assert(fns(r.micro_ops@) =~= fns(read_program(Mnemonic::LAX, Addressing::Immediate)));
        assert(labels(r.micro_ops@) =~= seq![Label::Standard, Label::FetchAndLax]);
    }
    r
}

/// `LAX`, zero page (opcode $A7; one cycle per micro-operation, the page-crossing one included): the address cycles, then one cycle that reads the operand and applies the operation.
pub fn lax_zero_page() -> (r: MicroInstruction)
    ensures
        r.opcode == Mnemonic::LAX,
        r.addressing == Addressing::ZeroPage,
        fns(r.micro_ops@) == fns(read_program(Mnemonic::LAX, Addressing::ZeroPage)),
        labels(r.micro_ops@) == seq![Label::Standard, Label::Standard, Label::ReadAndLax],
        r.wf(),
        lookup_spec(0xA7u8) == (Instruction { mnemonic: Mnemonic::LAX, addressing: Addressing::ZeroPage }),
        r.micro_ops@.len() == timing_spec(0xA7u8).total_spec(true, false),
{
    let r = MicroInstruction {
        opcode: Mnemonic::LAX,
        addressing: Addressing::ZeroPage,
        micro_ops: vec![
            MicroOp::advance_pc_after_opcode(),
            MicroOp::fetch_zp_addr_lo(),
            MicroOp { micro_fn: MicroFn::Read(Mnemonic::LAX, ReadFrom::ZeroPage), label: Label::ReadAndLax },
        ],
    };
    proof {
        assert(fns(r.micro_ops@) =~= fns(read_program(Mnemonic::LAX, Addressing::ZeroPage)));
        assert(labels(r.micro_ops@) =~= seq![Label::Standard, Label::Standard, Label::ReadAndLax]);
    }
    r
}

/// `LAX`, zero page indexed by Y (opcode $B7; one cycle per micro-operation, the page-crossing one included): the address cycles, then one cycle that reads the operand and applies the operation.
pub fn lax_zero_page_y() -> (r: MicroInstruction)
    ensures
        r.opcode == Mnemonic::LAX,
        r.addressing == Addressing::ZeroPageY,
        fns(r.micro_ops@) == fns(read_program(Mnemonic::LAX, Addressing::ZeroPageY)),
        labels(r.micro_ops@) == seq![Label::Standard, Label::Standard, Label::Standard, Label::ReadAndLax],
        r.wf(),
        lookup_spec(0xB7u8) == (Instruction { mnemonic: Mnemonic::LAX, addressing: Addressing::ZeroPageY }),
        r.micro_ops@.len() == timing_spec(0xB7u8).total_spec(true, false),
{
    let r = MicroInstruction {
        opcode: Mnemonic::LAX,
        addressing: Addressing::ZeroPageY,
        micro_ops: vec![
            MicroOp::advance_pc_after_opcode(),
            MicroOp::fetch_zp_addr_lo(),
            MicroOp::read_zero_page_add_y_dummy(),
            MicroOp { micro_fn: MicroFn::Read(Mnemonic::LAX, ReadFrom::Effective), label: Label::ReadAndLax },
        ],
    };
    proof {
        assert(fns(r.micro_ops@) =~= fns(read_program(Mnemonic::LAX, Addressing::ZeroPageY)));
        assert(labels(r.micro_ops@) =~= seq![Label::Standard, Label::Standard, Label::Standard, Label::ReadAndLax]);
    }
    r
}

/// `LAX`, absolute (opcode $AF; one cycle per micro-operation, the page-crossing one included): the address cycles, then one cycle that reads the operand and applies the operation.
pub fn lax_absolute() -> (r: MicroInstruction)
    ensures
        r.opcode == Mnemonic::LAX,
        r.addressing == Addressing::Absolute,
        fns(r.micro_ops@) == fns(read_program(Mnemonic::LAX, Addressing::Absolute)),
        labels(r.micro_ops@) == seq![Label::Standard, Label::Standard, Label::Standard, Label::ReadAndLax],
        r.wf(),
        lookup_spec(0xAFu8) == (Instruction { mnemonic: Mnemonic::LAX, addressing: Addressing::Absolute }),
        r.micro_ops@.len() == timing_spec(0xAFu8).total_spec(true, false),
{
    let r = MicroInstruction {
        opcode: Mnemonic::LAX,
        addressing: Addressing::Absolute,
        micro_ops: vec![
            MicroOp::advance_pc_after_opcode(),
            MicroOp::fetch_abs_addr_lo(),
            MicroOp::fetch_abs_addr_hi(),
            MicroOp { micro_fn: MicroFn::Read(Mnemonic::LAX, ReadFrom::Effective), label: Label::ReadAndLax },
        ],
    };
    proof {
        assert(fns(r.micro_ops@) =~= fns(read_program(Mnemonic::LAX, Addressing::Absolute)));
        assert(labels(r.micro_ops@) =~= seq![Label::Standard, Label::Standard, Label::Standard, Label::ReadAndLax]);
    }
    r
}

/// `LAX`, absolute indexed by Y (opcode $BF; one cycle per micro-operation, the page-crossing one included): the address cycles, then one cycle that reads the operand and applies the operation.
pub fn lax_absolute_y() -> (r: MicroInstruction)
    ensures
        r.opcode == Mnemonic::LAX,
        r.addressing == Addressing::AbsoluteY,
        fns(r.micro_ops@) == fns(read_program(Mnemonic::LAX, Addressing::AbsoluteY)),
        labels(r.micro_ops@) == seq![Label::Standard, Label::Standard, Label::Standard, Label::Standard, Label::ReadAndLax],
        r.wf(),
        lookup_spec(0xBFu8) == (Instruction { mnemonic: Mnemonic::LAX, addressing: Addressing::AbsoluteY }),
        r.micro_ops@.len() == timing_spec(0xBFu8).total_spec(true, false),
{
    let r = MicroInstruction {
        opcode: Mnemonic::LAX,
        addressing: Addressing::AbsoluteY,
        micro_ops: vec![
            MicroOp::advance_pc_after_opcode(),
            MicroOp::fetch_abs_addr_lo(),
            MicroOp::fetch_abs_addr_hi_add_y(),
            MicroOp::dummy_read_cross_y(),
            MicroOp { micro_fn: MicroFn::Read(Mnemonic::LAX, ReadFrom::Effective), label: Label::ReadAndLax },
        ],
    };
    proof {
        assert(fns(r.micro_ops@) =~= fns(read_program(Mnemonic::LAX, Addressing::AbsoluteY)));
        assert(labels(r.micro_ops@) =~= seq![Label::Standard, Label::Standard, Label::Standard, Label::Standard, Label::ReadAndLax]);
    }
    r
}

/// `LAX`, `(zp,X)` (opcode $A3; one cycle per micro-operation, the page-crossing one included): the address cycles, then one cycle that reads the operand and applies the operation.
pub fn lax_indirect_x() -> (r: MicroInstruction)
    ensures
        r.opcode == Mnemonic::LAX,
        r.addressing == Addressing::IndirectX,
        fns(r.micro_ops@) == fns(read_program(Mnemonic::LAX, Addressing::IndirectX)),
        labels(r.micro_ops@) == seq![Label::Standard, Label::Standard, Label::Standard, Label::Standard, Label::Standard, Label::ReadAndLax],
        r.wf(),
        lookup_spec(0xA3u8) == (Instruction { mnemonic: Mnemonic::LAX, addressing: Addressing::IndirectX }),
        r.micro_ops@.len() == timing_spec(0xA3u8).total_spec(true, false),
{
    let r = MicroInstruction {
        opcode: Mnemonic::LAX,
        addressing: Addressing::IndirectX,
        micro_ops: vec![
            MicroOp::advance_pc_after_opcode(),
            MicroOp::fetch_zp_addr_lo(),
            MicroOp::read_indirect_x_dummy(),
            MicroOp::read_indirect_x_lo(),
            MicroOp::read_indirect_x_hi(),
            MicroOp { micro_fn: MicroFn::Read(Mnemonic::LAX, ReadFrom::Effective), label: Label::ReadAndLax },
        ],
    };
    proof {
        assert(fns(r.micro_ops@) =~= fns(read_program(Mnemonic::LAX, Addressing::IndirectX)));
        assert(labels(r.micro_ops@) =~= seq![Label::Standard, Label::Standard, Label::Standard, Label::Standard, Label::Standard, Label::ReadAndLax]);
    }
    r
}

/// `LAX`, `(zp),Y` (opcode $B3; one cycle per micro-operation, the page-crossing one included): the address cycles, then one cycle that reads the operand and applies the operation.
pub fn lax_indirect_y() -> (r: MicroInstruction)
    ensures
        r.opcode == Mnemonic::LAX,
        r.addressing == Addressing::IndirectY,
        fns(r.micro_ops@) == fns(read_program(Mnemonic::LAX, Addressing::IndirectY)),
        labels(r.micro_ops@) == seq![Label::Standard, Label::Standard, Label::Standard, Label::Standard, Label::Standard, Label::ReadAndLax],
        r.wf(),
        lookup_spec(0xB3u8) == (Instruction { mnemonic: Mnemonic::LAX, addressing: Addressing::IndirectY }),
        r.micro_ops@.len() == timing_spec(0xB3u8).total_spec(true, false),
{
    let r = MicroInstruction {
        opcode: Mnemonic::LAX,
        addressing: Addressing::IndirectY,
        micro_ops: vec![
            MicroOp::advance_pc_after_opcode(),
            MicroOp::fetch_zp_addr_lo(),
            MicroOp::read_zero_page(),
            MicroOp::read_indirect_y_hi(),
            MicroOp::dummy_read_cross_y(),
            MicroOp { micro_fn: MicroFn::Read(Mnemonic::LAX, ReadFrom::Effective), label: Label::ReadAndLax },
        ],
    };
    proof {
        assert(fns(r.micro_ops@) =~= fns(read_program(Mnemonic::LAX, Addressing::IndirectY)));
        assert(labels(r.micro_ops@) =~= seq![Label::Standard, Label::Standard, Label::Standard, Label::Standard, Label::Standard, Label::ReadAndLax]);
    }
    r
}

/// `LDA`, immediate (opcode $A9; one cycle per micro-operation, the page-crossing one included): the address cycles, then one cycle that reads the operand and applies the operation.
pub fn lda_immediate() -> (r: MicroInstruction)
    ensures
        r.opcode == Mnemonic::LDA,
        r.addressing == Addressing::Immediate,
        fns(r.micro_ops@) == fns(read_program(Mnemonic::LDA, Addressing::Immediate)),
        labels(r.micro_ops@) == seq![Label::Standard, Label::Standard],
        r.wf(),
        lookup_spec(0xA9u8) == (Instruction { mnemonic: Mnemonic::LDA, addressing: Addressing::Immediate }),
        r.micro_ops@.len() == timing_spec(0xA9u8).total_spec(true, false),
{
    let r = MicroInstruction {
        opcode: Mnemonic::LDA,
        addressing: Addressing::Immediate,
        micro_ops: vec![
            MicroOp::advance_pc_after_opcode(),
            MicroOp { micro_fn: MicroFn::Read(Mnemonic::LDA, ReadFrom::Immediate), label: Label::Standard },
        ],
    };
    proof {
        assert(fns(r.micro_ops@) =~= fns(read_program(Mnemonic::LDA, Addressing::Immediate)));
        assert(labels(r.micro_ops@) =~= seq![Label::Standard, Label::Standard]);
    }
    r
}

/// `LDA`, zero page (opcode $A5; one cycle per micro-operation, the page-crossing one included): the address cycles, then one cycle that reads the operand and applies the operation.
pub fn lda_zero_page() -> (r: MicroInstruction)
    ensures
        r.opcode == Mnemonic::LDA,
        r.addressing == Addressing::ZeroPage,
        fns(r.micro_ops@) == fns(read_program(Mnemonic::LDA, Addressing::ZeroPage)),
        labels(r.micro_ops@) == seq![Label::Standard, Label::Standard, Label::Standard],
        r.wf(),
        lookup_spec(0xA5u8) == (Instruction { mnemonic: Mnemonic::LDA, addressing: Addressing::ZeroPage }),
        r.micro_ops@.len() == timing_spec(0xA5u8).total_spec(true, false),
{
    let r = MicroInstruction {
        opcode: Mnemonic::LDA,
        addressing: Addressing::ZeroPage,
        micro_ops: vec![
            MicroOp::advance_pc_after_opcode(),
            MicroOp::fetch_zp_addr_lo(),
            MicroOp { micro_fn: MicroFn::Read(Mnemonic::LDA, ReadFrom::ZeroPage), label: Label::Standard },
        ],
    };
    proof {
        assert(fns(r.micro_ops@) =~= fns(read_program(Mnemonic::LDA, Addressing::ZeroPage)));
        assert(labels(r.micro_ops@) =~= seq![Label::Standard, Label::Standard, Label::Standard]);
    }
    r
}

/// `LDA`, zero page indexed by X (opcode $B5; one cycle per micro-operation, the page-crossing one included): the address cycles, then one cycle that reads the operand and applies the operation.
pub fn lda_zero_page_x() -> (r: MicroInstruction)
    ensures
        r.opcode == Mnemonic::LDA,
        r.addressing == Addressing::ZeroPageX,
        fns(r.micro_ops@) == fns(read_program(Mnemonic::LDA, Addressing::ZeroPageX)),
        labels(r.micro_ops@) == seq![Label::Standard, Label::Standard, Label::Standard, Label::Standard],
        r.wf(),
        lookup_spec(0xB5u8) == (Instruction { mnemonic: Mnemonic::LDA, addressing: Addressing::ZeroPageX }),
        r.micro_ops@.len() == timing_spec(0xB5u8).total_spec(true, false),
{
    let r = MicroInstruction {
        opcode: Mnemonic::LDA,
        addressing: Addressing::ZeroPageX,
        micro_ops: vec![
            MicroOp::advance_pc_after_opcode(),
            MicroOp::fetch_zp_addr_lo(),
            MicroOp::read_zero_page_add_x_dummy(),
            MicroOp { micro_fn: MicroFn::Read(Mnemonic::LDA, ReadFrom::Effective), label: Label::Standard },
        ],
    };
    proof {
        assert(fns(r.micro_ops@) =~= fns(read_program(Mnemonic::LDA, Addressing::ZeroPageX)));
        assert(labels(r.micro_ops@) =~= seq![Label::Standard, Label::Standard, Label::Standard, Label::Standard]);
    }
    r
}

/// `LDA`, absolute (opcode $AD; one cycle per micro-operation, the page-crossing one included): the address cycles, then one cycle that reads the operand and applies the operation.
pub fn lda_absolute() -> (r: MicroInstruction)
    ensures
        r.opcode == Mnemonic::LDA,
        r.addressing == Addressing::Absolute,
        fns(r.micro_ops@) == fns(read_program(Mnemonic::LDA, Addressing::Absolute)),
        labels(r.micro_ops@) == seq![Label::Standard, Label::Standard, Label::Standard, Label::Standard],
        r.wf(),
        lookup_spec(0xADu8) == (Instruction { mnemonic: Mnemonic::LDA, addressing: Addressing::Absolute }),
        r.micro_ops@.len() == timing_spec(0xADu8).total_spec(true, false),
{
    let r = MicroInstruction {
        opcode: Mnemonic::LDA,
        addressing: Addressing::Absolute,
        micro_ops: vec![
            MicroOp::advance_pc_after_opcode(),
            MicroOp::fetch_abs_addr_lo(),
            MicroOp::fetch_abs_addr_hi(),
            MicroOp { micro_fn: MicroFn::Read(Mnemonic::LDA, ReadFrom::Effective), label: Label::Standard },
        ],
    };
    proof {
        assert(fns(r.micro_ops@) =~= fns(read_program(Mnemonic::LDA, Addressing::Absolute)));
        assert(labels(r.micro_ops@) =~= seq![Label::Standard, Label::Standard, Label::Standard, Label::Standard]);
    }
    r
}

/// `LDA`, absolute indexed by X (opcode $BD; one cycle per micro-operation, the page-crossing one included): the address cycles, then one cycle that reads the operand and applies the operation.
pub fn lda_absolute_x() -> (r: MicroInstruction)
    ensures
        r.opcode == Mnemonic::LDA,
        r.addressing == Addressing::AbsoluteX,
        fns(r.micro_ops@) == fns(read_program(Mnemonic::LDA, Addressing::AbsoluteX)),
        labels(r.micro_ops@) == seq![Label::Standard, Label::Standard, Label::Standard, Label::Standard, Label::Standard],
        r.wf(),
        lookup_spec(0xBDu8) == (Instruction { mnemonic: Mnemonic::LDA, addressing: Addressing::AbsoluteX }),
        r.micro_ops@.len() == timing_spec(0xBDu8).total_spec(true, false),
{
    let r = MicroInstruction {
        opcode: Mnemonic::LDA,
        addressing: Addressing::AbsoluteX,
        micro_ops: vec![
            MicroOp::advance_pc_after_opcode(),
            MicroOp::fetch_abs_addr_lo(),
            MicroOp::fetch_abs_addr_hi_add_x(),
            MicroOp::dummy_read_cross_x(),
            MicroOp { micro_fn: MicroFn::Read(Mnemonic::LDA, ReadFrom::Effective), label: Label::Standard },
        ],
    };
    proof {
        assert(fns(r.micro_ops@) =~= fns(read_program(Mnemonic::LDA, Addressing::AbsoluteX)));
        assert(labels(r.micro_ops@) =~= seq![Label::Standard, Label::Standard, Label::Standard, Label::Standard, Label::Standard]);
    }
    r
}

/// `LDA`, absolute indexed by Y (opcode $B9; one cycle per micro-operation, the page-crossing one included): the address cycles, then one cycle that reads the operand and applies the operation.
pub fn lda_absolute_y() -> (r: MicroInstruction)
    ensures
        r.opcode == Mnemonic::LDA,
        r.addressing == Addressing::AbsoluteY,
        fns(r.micro_ops@) == fns(read_program(Mnemonic::LDA, Addressing::AbsoluteY)),
        labels(r.micro_ops@) == seq![Label::Standard, Label::Standard, Label::Standard, Label::Standard, Label::Standard],
        r.wf(),
        lookup_spec(0xB9u8) == (Instruction { mnemonic: Mnemonic::LDA, addressing: Addressing::AbsoluteY }),
        r.micro_ops@.len() == timing_spec(0xB9u8).total_spec(true, false),
{
    let r = MicroInstruction {
        opcode: Mnemonic::LDA,
        addressing: Addressing::AbsoluteY,
        micro_ops: vec![
            MicroOp::advance_pc_after_opcode(),
            MicroOp::fetch_abs_addr_lo(),
            MicroOp::fetch_abs_addr_hi_add_y(),
            MicroOp::dummy_read_cross_y(),
            MicroOp { micro_fn: MicroFn::Read(Mnemonic::LDA, ReadFrom::Effective), label: Label::Standard },
        ],
    };
    proof {
        assert(fns(r.micro_ops@) =~= fns(read_program(Mnemonic::LDA, Addressing::AbsoluteY)));
        assert(labels(r.micro_ops@) =~= seq![Label::Standard, Label::Standard, Label::Standard, Label::Standard, Label::Standard]);
    }
    r
}

/// `LDA`, `(zp,X)` (opcode $A1; one cycle per micro-operation, the page-crossing one included): the address cycles, then one cycle that reads the operand and applies the operation.
pub fn lda_indirect_x() -> (r: MicroInstruction)
    ensures
        r.opcode == Mnemonic::LDA,
        r.addressing == Addressing::IndirectX,
        fns(r.micro_ops@) == fns(read_program(Mnemonic::LDA, Addressing::IndirectX)),
        labels(r.micro_ops@) == seq![Label::Standard, Label::Standard, Label::Standard, Label::Standard, Label::Standard, Label::Standard],
        r.wf(),
        lookup_spec(0xA1u8) == (Instruction { mnemonic: Mnemonic::LDA, addressing: Addressing::IndirectX }),
        r.micro_ops@.len() == timing_spec(0xA1u8).total_spec(true, false),
{
    let r = MicroInstruction {
        opcode: Mnemonic::LDA,
        addressing: Addressing::IndirectX,
        micro_ops: vec![
            MicroOp::advance_pc_after_opcode(),
            MicroOp::fetch_zp_addr_lo(),
            MicroOp::read_indirect_x_dummy(),
            MicroOp::read_indirect_x_lo(),
            MicroOp::read_indirect_x_hi(),
            MicroOp { micro_fn: MicroFn::Read(Mnemonic::LDA, ReadFrom::Effective), label: Label::Standard },
        ],
    };
    proof {
        assert(fns(r.micro_ops@) =~= fns(read_program(Mnemonic::LDA, Addressing::IndirectX)));
        assert(labels(r.micro_ops@) =~= seq![Label::Standard, Label::Standard, Label::Standard, Label::Standard, Label::Standard, Label::Standard]);
    }
    r
}

/// `LDA`, `(zp),Y` (opcode $B1; one cycle per micro-operation, the page-crossing one included): the address cycles, then one cycle that reads the operand and applies the operation.
pub fn lda_indirect_y() -> (r: MicroInstruction)
    ensures
        r.opcode == Mnemonic::LDA,
        r.addressing == Addressing::IndirectY,
        fns(r.micro_ops@) == fns(read_program(Mnemonic::LDA, Addressing::IndirectY)),
        labels(r.micro_ops@) == seq![Label::Standard, Label::Standard, Label::Standard, Label::Standard, Label::Standard, Label::Standard],
        r.wf(),
        lookup_spec(0xB1u8) == (Instruction { mnemonic: Mnemonic::LDA, addressing: Addressing::IndirectY }),
        r.micro_ops@.len() == timing_spec(0xB1u8).total_spec(true, false),
{
    let r = MicroInstruction {
        opcode: Mnemonic::LDA,
        addressing: Addressing::IndirectY,
        micro_ops: vec![
            MicroOp::advance_pc_after_opcode(),
            MicroOp::fetch_zp_addr_lo(),
            MicroOp::read_zero_page(),
            MicroOp::read_indirect_y_hi(),
            MicroOp::dummy_read_cross_y(),
            MicroOp { micro_fn: MicroFn::Read(Mnemonic::LDA, ReadFrom::Effective), label: Label::Standard },
        ],
    };
    proof {
        assert(fns(r.micro_ops@) =~= fns(read_program(Mnemonic::LDA, Addressing::IndirectY)));
        assert(labels(r.micro_ops@) =~= seq![Label::Standard, Label::Standard, Label::Standard, Label::Standard, Label::Standard, Label::Standard]);
    }
    r
}

/// `LDX`, immediate (opcode $A2; one cycle per micro-operation, the page-crossing one included): the address cycles, then one cycle that reads the operand and applies the operation.
pub fn ldx_immediate() -> (r: MicroInstruction)
    ensures
        r.opcode == Mnemonic::LDX,
        r.addressing == Addressing::Immediate,
        fns(r.micro_ops@) == fns(read_program(Mnemonic::LDX, Addressing::Immediate)),
        labels(r.micro_ops@) == seq![Label::Standard, Label::FetchAndLdx],
        r.wf(),
        lookup_spec(0xA2u8) == (Instruction { mnemonic: Mnemonic::LDX, addressing: Addressing::Immediate }),
        r.micro_ops@.len() == timing_spec(0xA2u8).total_spec(true, false),
{
    let r = MicroInstruction {
        opcode: Mnemonic::LDX,
        addressing: Addressing::Immediate,
        micro_ops: vec![
            MicroOp::advance_pc_after_opcode(),
            MicroOp { micro_fn: MicroFn::Read(Mnemonic::LDX, ReadFrom::Immediate), label: Label::FetchAndLdx },
        ],
    };
    proof {
        assert(fns(r.micro_ops@) =~= fns(read_program(Mnemonic::LDX, Addressing::Immediate)));
        assert(labels(r.micro_ops@) =~= seq![Label::Standard, Label::FetchAndLdx]);
    }
    r
}

/// `LDX`, zero page (opcode $A6; one cycle per micro-operation, the page-crossing one included): the address cycles, then one cycle that reads the operand and applies the operation.
pub fn ldx_zero_page() -> (r: MicroInstruction)
    ensures
        r.opcode == Mnemonic::LDX,
        r.addressing == Addressing::ZeroPage,
        fns(r.micro_ops@) == fns(read_program(Mnemonic::LDX, Addressing::ZeroPage)),
        labels(r.micro_ops@) == seq![Label::Standard, Label::Standard, Label::ReadAndLdx],
        r.wf(),
        lookup_spec(0xA6u8) == (Instruction { mnemonic: Mnemonic::LDX, addressing: Addressing::ZeroPage }),
        r.micro_ops@.len() == timing_spec(0xA6u8).total_spec(true, false),
{
    let r = MicroInstruction {
        opcode: Mnemonic::LDX,
        addressing: Addressing::ZeroPage,
        micro_ops: vec![
            MicroOp::advance_pc_after_opcode(),
            MicroOp::fetch_zp_addr_lo(),
            MicroOp { micro_fn: MicroFn::Read(Mnemonic::LDX, ReadFrom::ZeroPage), label: Label::ReadAndLdx },
        ],
    };
    proof {
        assert(fns(r.micro_ops@) =~= fns(read_program(Mnemonic::LDX, Addressing::ZeroPage)));
        assert(labels(r.micro_ops@) =~= seq![Label::Standard, Label::Standard, Label::ReadAndLdx]);
    }
    r
}

/// `LDX`, zero page indexed by Y (opcode $B6; one cycle per micro-operation, the page-crossing one included): the address cycles, then one cycle that reads the operand and applies the operation.
pub fn ldx_zero_page_y() -> (r: MicroInstruction)
    ensures
        r.opcode == Mnemonic::LDX,
        r.addressing == Addressing::ZeroPageY,
        fns(r.micro_ops@) == fns(read_program(Mnemonic::LDX, Addressing::ZeroPageY)),
        labels(r.micro_ops@) == seq![Label::Standard, Label::Standard, Label::Standard, Label::ReadAndLdx],
        r.wf(),
        lookup_spec(0xB6u8) == (Instruction { mnemonic: Mnemonic::LDX, addressing: Addressing::ZeroPageY }),
        r.micro_ops@.len() == timing_spec(0xB6u8).total_spec(true, false),
{
    let r = MicroInstruction {
        opcode: Mnemonic::LDX,
        addressing: Addressing::ZeroPageY,
        micro_ops: vec![
            MicroOp::advance_pc_after_opcode(),
            MicroOp::fetch_zp_addr_lo(),
            MicroOp::read_zero_page_add_y_dummy(),
            MicroOp { micro_fn: MicroFn::Read(Mnemonic::LDX, ReadFrom::Effective), label: Label::ReadAndLdx },
        ],
    };
    proof {
        assert(fns(r.micro_ops@) =~= fns(read_program(Mnemonic::LDX, Addressing::ZeroPageY)));
        assert(labels(r.micro_ops@) =~= seq![Label::Standard, Label::Standard, Label::Standard, Label::ReadAndLdx]);
    }
    r
}

/// `LDX`, absolute (opcode $AE; one cycle per micro-operation, the page-crossing one included): the address cycles, then one cycle that reads the operand and applies the operation.
pub fn ldx_absolute() -> (r: MicroInstruction)
    ensures
        r.opcode == Mnemonic::LDX,
        r.addressing == Addressing::Absolute,
        fns(r.micro_ops@) == fns(read_program(Mnemonic::LDX, Addressing::Absolute)),
        labels(r.micro_ops@) == seq![Label::Standard, Label::Standard, Label::Standard, Label::ReadAndLdx],
        r.wf(),
        lookup_spec(0xAEu8) == (Instruction { mnemonic: Mnemonic::LDX, addressing: Addressing::Absolute }),
        r.micro_ops@.len() == timing_spec(0xAEu8).total_spec(true, false),
{
    let r = MicroInstruction {
        opcode: Mnemonic::LDX,
        addressing: Addressing::Absolute,
        micro_ops: vec![
            MicroOp::advance_pc_after_opcode(),
            MicroOp::fetch_abs_addr_lo(),
            MicroOp::fetch_abs_addr_hi(),
            MicroOp { micro_fn: MicroFn::Read(Mnemonic::LDX, ReadFrom::Effective), label: Label::ReadAndLdx },
        ],
    };
    proof {
        assert(fns(r.micro_ops@) =~= fns(read_program(Mnemonic::LDX, Addressing::Absolute)));
        assert(labels(r.micro_ops@) =~= seq![Label::Standard, Label::Standard, Label::Standard, Label::ReadAndLdx]);
    }
    r
}

/// `LDX`, absolute indexed by Y (opcode $BE; one cycle per micro-operation, the page-crossing one included): the address cycles, then one cycle that reads the operand and applies the operation.
pub fn ldx_absolute_y() -> (r: MicroInstruction)
    ensures
        r.opcode == Mnemonic::LDX,
        r.addressing == Addressing::AbsoluteY,
        fns(r.micro_ops@) == fns(read_program(Mnemonic::LDX, Addressing::AbsoluteY)),
        labels(r.micro_ops@) == seq![Label::Standard, Label::Standard, Label::Standard, Label::Standard, Label::ReadAndLdx],
        r.wf(),
        lookup_spec(0xBEu8) == (Instruction { mnemonic: Mnemonic::LDX, addressing: Addressing::AbsoluteY }),
        r.micro_ops@.len() == timing_spec(0xBEu8).total_spec(true, false),
{
    let r = MicroInstruction {
        opcode: Mnemonic::LDX,
        addressing: Addressing::AbsoluteY,
        micro_ops: vec![
            MicroOp::advance_pc_after_opcode(),
            MicroOp::fetch_abs_addr_lo(),
            MicroOp::fetch_abs_addr_hi_add_y(),
            MicroOp::dummy_read_cross_y(),
            MicroOp { micro_fn: MicroFn::Read(Mnemonic::LDX, ReadFrom::Effective), label: Label::ReadAndLdx },
        ],
    };
    proof {
        assert(fns(r.micro_ops@) =~= fns(read_program(Mnemonic::LDX, Addressing::AbsoluteY)));
        assert(labels(r.micro_ops@) =~= seq![Label::Standard, Label::Standard, Label::Standard, Label::Standard, Label::ReadAndLdx]);
    }
    r
}

/// `LDY`, immediate (opcode $A0; one cycle per micro-operation, the page-crossing one included): the address cycles, then one cycle that reads the operand and applies the operation.
pub fn ldy_immediate() -> (r: MicroInstruction)
    ensures
        r.opcode == Mnemonic::LDY,
        r.addressing == Addressing::Immediate,
        fns(r.micro_ops@) == fns(read_program(Mnemonic::LDY, Addressing::Immediate)),
        labels(r.micro_ops@) == seq![Label::IncPc, Label::FetchAndLdy],
        r.wf(),
        lookup_spec(0xA0u8) == (Instruction { mnemonic: Mnemonic::LDY, addressing: Addressing::Immediate }),
        r.micro_ops@.len() == timing_spec(0xA0u8).total_spec(true, false),
{
    let r = MicroInstruction {
        opcode: Mnemonic::LDY,
        addressing: Addressing::Immediate,
        micro_ops: vec![
            MicroOp { micro_fn: MicroFn::AdvancePc, label: Label::IncPc },
            MicroOp { micro_fn: MicroFn::Read(Mnemonic::LDY, ReadFrom::Immediate), label: Label::FetchAndLdy },
        ],
    };
    proof {
        assert(fns(r.micro_ops@) =~= fns(read_program(Mnemonic::LDY, Addressing::Immediate)));
        assert(labels(r.micro_ops@) =~= seq![Label::IncPc, Label::FetchAndLdy]);
    }
    r
}

/// `LDY`, zero page (opcode $A4; one cycle per micro-operation, the page-crossing one included): the address cycles, then one cycle that reads the operand and applies the operation.
pub fn ldy_zero_page() -> (r: MicroInstruction)
    ensures
        r.opcode == Mnemonic::LDY,
        r.addressing == Addressing::ZeroPage,
        fns(r.micro_ops@) == fns(read_program(Mnemonic::LDY, Addressing::ZeroPage)),
        labels(r.micro_ops@) == seq![Label::IncPc, Label::FetchZpAddr, Label::ReadAndLdy],
        r.wf(),
        lookup_spec(0xA4u8) == (Instruction { mnemonic: Mnemonic::LDY, addressing: Addressing::ZeroPage }),
        r.micro_ops@.len() == timing_spec(0xA4u8).total_spec(true, false),
{
    let r = MicroInstruction {
        opcode: Mnemonic::LDY,
        addressing: Addressing::ZeroPage,
        micro_ops: vec![
            MicroOp { micro_fn: MicroFn::AdvancePc, label: Label::IncPc },
            MicroOp { micro_fn: MicroFn::FetchZpAddrLo, label: Label::FetchZpAddr },
            MicroOp { micro_fn: MicroFn::Read(Mnemonic::LDY, ReadFrom::ZeroPage), label: Label::ReadAndLdy },
        ],
    };
    proof {
        assert(fns(r.micro_ops@) =~= fns(read_program(Mnemonic::LDY, Addressing::ZeroPage)));
        assert(labels(r.micro_ops@) =~= seq![Label::IncPc, Label::FetchZpAddr, Label::ReadAndLdy]);
    }
    r
}

/// `LDY`, zero page indexed by X (opcode $B4; one cycle per micro-operation, the page-crossing one included): the address cycles, then one cycle that reads the operand and applies the operation.
pub fn ldy_zero_page_x() -> (r: MicroInstruction)
    ensures
        r.opcode == Mnemonic::LDY,
        r.addressing == Addressing::ZeroPageX,
        fns(r.micro_ops@) == fns(read_program(Mnemonic::LDY, Addressing::ZeroPageX)),
        labels(r.micro_ops@) == seq![Label::IncPc, Label::FetchBase, Label::AddXZpWrap, Label::ReadAndLdy],
        r.wf(),
        lookup_spec(0xB4u8) == (Instruction { mnemonic: Mnemonic::LDY, addressing: Addressing::ZeroPageX }),
        r.micro_ops@.len() == timing_spec(0xB4u8).total_spec(true, false),
{
    let r = MicroInstruction {
        opcode: Mnemonic::LDY,
        addressing: Addressing::ZeroPageX,
        micro_ops: vec![
            MicroOp { micro_fn: MicroFn::AdvancePc, label: Label::IncPc },
            MicroOp { micro_fn: MicroFn::FetchZpAddrLo, label: Label::FetchBase },
            MicroOp { micro_fn: MicroFn::ReadZeroPageAddXDummy, label: Label::AddXZpWrap },
            MicroOp { micro_fn: MicroFn::Read(Mnemonic::LDY, ReadFrom::Effective), label: Label::ReadAndLdy },
        ],
    };
    proof {
        assert(fns(r.micro_ops@) =~= fns(read_program(Mnemonic::LDY, Addressing::ZeroPageX)));
        assert(labels(r.micro_ops@) =~= seq![Label::IncPc, Label::FetchBase, Label::AddXZpWrap, Label::ReadAndLdy]);
    }
    r
}

/// `LDY`, absolute (opcode $AC; one cycle per micro-operation, the page-crossing one included): the address cycles, then one cycle that reads the operand and applies the operation.
pub fn ldy_absolute() -> (r: MicroInstruction)
    ensures
        r.opcode == Mnemonic::LDY,
        r.addressing == Addressing::Absolute,
        fns(r.micro_ops@) == fns(read_program(Mnemonic::LDY, Addressing::Absolute)),
        labels(r.micro_ops@) == seq![Label::IncPc, Label::FetchLo, Label::FetchHi, Label::ReadAndLdy],
        r.wf(),
        lookup_spec(0xACu8) == (Instruction { mnemonic: Mnemonic::LDY, addressing: Addressing::Absolute }),
        r.micro_ops@.len() == timing_spec(0xACu8).total_spec(true, false),
{
    let r = MicroInstruction {
        opcode: Mnemonic::LDY,
        addressing: Addressing::Absolute,
        micro_ops: vec![
            MicroOp { micro_fn: MicroFn::AdvancePc, label: Label::IncPc },
            MicroOp { micro_fn: MicroFn::FetchAbsAddrLo, label: Label::FetchLo },
            MicroOp { micro_fn: MicroFn::FetchAbsAddrHi, label: Label::FetchHi },
            MicroOp { micro_fn: MicroFn::Read(Mnemonic::LDY, ReadFrom::Effective), label: Label::ReadAndLdy },
        ],
    };
    proof {
        assert(fns(r.micro_ops@) =~= fns(read_program(Mnemonic::LDY, Addressing::Absolute)));
        assert(labels(r.micro_ops@) =~= seq![Label::IncPc, Label::FetchLo, Label::FetchHi, Label::ReadAndLdy]);
    }
    r
}

/// `LDY`, absolute indexed by X (opcode $BC; one cycle per micro-operation, the page-crossing one included): the address cycles, then one cycle that reads the operand and applies the operation.
pub fn ldy_absolute_x() -> (r: MicroInstruction)
    ensures
        r.opcode == Mnemonic::LDY,
        r.addressing == Addressing::AbsoluteX,
        fns(r.micro_ops@) == fns(read_program(Mnemonic::LDY, Addressing::AbsoluteX)),
        labels(r.micro_ops@) == seq![Label::IncPc, Label::FetchLo, Label::FetchHiAddX, Label::DummyReadCross, Label::ReadAndLdy],
        r.wf(),
        lookup_spec(0xBCu8) == (Instruction { mnemonic: Mnemonic::LDY, addressing: Addressing::AbsoluteX }),
        r.micro_ops@.len() == timing_spec(0xBCu8).total_spec(true, false),
{
    let r = MicroInstruction {
        opcode: Mnemonic::LDY,
        addressing: Addressing::AbsoluteX,
        micro_ops: vec![
            MicroOp { micro_fn: MicroFn::AdvancePc, label: Label::IncPc },
            MicroOp { micro_fn: MicroFn::FetchAbsAddrLo, label: Label::FetchLo },
            MicroOp { micro_fn: MicroFn::FetchAbsAddrHiAddX, label: Label::FetchHiAddX },
            MicroOp { micro_fn: MicroFn::DummyReadCrossX, label: Label::DummyReadCross },
            MicroOp { micro_fn: MicroFn::Read(Mnemonic::LDY, ReadFrom::Effective), label: Label::ReadAndLdy },
        ],
    };
    proof {
        assert(fns(r.micro_ops@) =~= fns(read_program(Mnemonic::LDY, Addressing::AbsoluteX)));
        assert(labels(r.micro_ops@) =~= seq![Label::IncPc, Label::FetchLo, Label::FetchHiAddX, Label::DummyReadCross, Label::ReadAndLdy]);
    }
    r
}

/// `SAX`, absolute (opcode $8F; one cycle per micro-operation, the page-crossing one included): the address cycles, then the write.
pub fn sax_absolute() -> (r: MicroInstruction)
    ensures
        r.opcode == Mnemonic::SAX,
        r.addressing == Addressing::Absolute,
        fns(r.micro_ops@) == fns(store_program(Mnemonic::SAX, Addressing::Absolute)),
        labels(r.micro_ops@) == seq![Label::Standard, Label::Standard, Label::Standard, Label::WriteAnd],
        r.wf(),
        lookup_spec(0x8Fu8) == (Instruction { mnemonic: Mnemonic::SAX, addressing: Addressing::Absolute }),
        r.micro_ops@.len() == timing_spec(0x8Fu8).total_spec(true, false),
{
    let r = MicroInstruction {
        opcode: Mnemonic::SAX,
        addressing: Addressing::Absolute,
        micro_ops: vec![
            MicroOp::advance_pc_after_opcode(),
            MicroOp::fetch_abs_addr_lo(),
            MicroOp::fetch_abs_addr_hi(),
            MicroOp { micro_fn: MicroFn::Exec(Mnemonic::SAX, 0), label: Label::WriteAnd },
        ],
    };
    proof {
        assert(fns(r.micro_ops@) =~= fns(store_program(Mnemonic::SAX, Addressing::Absolute)));
        assert(labels(r.micro_ops@) =~= seq![Label::Standard, Label::Standard, Label::Standard, Label::WriteAnd]);
    }
    r
}

/// `SAX`, zero page (opcode $87; one cycle per micro-operation, the page-crossing one included): the address cycles, then the write.
pub fn sax_zero_page() -> (r: MicroInstruction)
    ensures
        r.opcode == Mnemonic::SAX,
        r.addressing == Addressing::ZeroPage,
        fns(r.micro_ops@) == fns(store_program(Mnemonic::SAX, Addressing::ZeroPage)),
        labels(r.micro_ops@) == seq![Label::Standard, Label::Standard, Label::WriteAnd],
        r.wf(),
        lookup_spec(0x87u8) == (Instruction { mnemonic: Mnemonic::SAX, addressing: Addressing::ZeroPage }),
        r.micro_ops@.len() == timing_spec(0x87u8).total_spec(true, false),
{
    let r = MicroInstruction {
        opcode: Mnemonic::SAX,
        addressing: Addressing::ZeroPage,
        micro_ops: vec![
            MicroOp::advance_pc_after_opcode(),
            MicroOp::fetch_zp_addr_lo(),
            MicroOp { micro_fn: MicroFn::Exec(Mnemonic::SAX, 0), label: Label::WriteAnd },
        ],
    };
    proof {
        assert(fns(r.micro_ops@) =~= fns(store_program(Mnemonic::SAX, Addressing::ZeroPage)));
        assert(labels(r.micro_ops@) =~= seq![Label::Standard, Label::Standard, Label::WriteAnd]);
    }
    r
}

/// `SAX`, zero page indexed by Y (opcode $97; one cycle per micro-operation, the page-crossing one included): the address cycles, then the write.
pub fn sax_zero_page_y() -> (r: MicroInstruction)
    ensures
        r.opcode == Mnemonic::SAX,
        r.addressing == Addressing::ZeroPageY,
        fns(r.micro_ops@) == fns(store_program(Mnemonic::SAX, Addressing::ZeroPageY)),
        labels(r.micro_ops@) == seq![Label::Standard, Label::Standard, Label::Standard, Label::WriteAnd],
        r.wf(),
        lookup_spec(0x97u8) == (Instruction { mnemonic: Mnemonic::SAX, addressing: Addressing::ZeroPageY }),
        r.micro_ops@.len() == timing_spec(0x97u8).total_spec(true, false),
{
    let r = MicroInstruction {
        opcode: Mnemonic::SAX,
        addressing: Addressing::ZeroPageY,
        micro_ops: vec![
            MicroOp::advance_pc_after_opcode(),
            MicroOp::fetch_zp_addr_lo(),
            MicroOp::read_zero_page_add_y_dummy(),
            MicroOp { micro_fn: MicroFn::Exec(Mnemonic::SAX, 0), label: Label::WriteAnd },
        ],
    };
    proof {
        assert(fns(r.micro_ops@) =~= fns(store_program(Mnemonic::SAX, Addressing::ZeroPageY)));
        assert(labels(r.micro_ops@) =~= seq![Label::Standard, Label::Standard, Label::Standard, Label::WriteAnd]);
    }
    r
}

/// `SAX`, `(zp,X)` (opcode $83; one cycle per micro-operation, the page-crossing one included): the address cycles, then the write.
pub fn sax_indirect_x() -> (r: MicroInstruction)
    ensures
        r.opcode == Mnemonic::SAX,
        r.addressing == Addressing::IndirectX,
        fns(r.micro_ops@) == fns(store_program(Mnemonic::SAX, Addressing::IndirectX)),
        labels(r.micro_ops@) == seq![Label::Standard, Label::Standard, Label::Standard, Label::Standard, Label::Standard, Label::WriteAnd],
        r.wf(),
        lookup_spec(0x83u8) == (Instruction { mnemonic: Mnemonic::SAX, addressing: Addressing::IndirectX }),
        r.micro_ops@.len() == timing_spec(0x83u8).total_spec(true, false),
{
    let r = MicroInstruction {
        opcode: Mnemonic::SAX,
        addressing: Addressing::IndirectX,
        micro_ops: vec![
            MicroOp::advance_pc_after_opcode(),
            MicroOp::fetch_zp_addr_lo(),
            MicroOp::read_indirect_x_dummy(),
            MicroOp::read_indirect_x_lo(),
            MicroOp::read_indirect_x_hi(),
            MicroOp { micro_fn: MicroFn::Exec(Mnemonic::SAX, 0), label: Label::WriteAnd },
        ],
    };
    proof {
        assert(fns(r.micro_ops@) =~= fns(store_program(Mnemonic::SAX, Addressing::IndirectX)));
        assert(labels(r.micro_ops@) =~= seq![Label::Standard, Label::Standard, Label::Standard, Label::Standard, Label::Standard, Label::WriteAnd]);
    }
    r
}

/// `SHA`, absolute indexed by Y (opcode $9F; one cycle per micro-operation, the page-crossing one included): the address cycles with `H + 1` latched, the fix-up read, then the masked write.
pub fn sha_absolute_y() -> (r: MicroInstruction)
    ensures
        r.opcode == Mnemonic::SHA,
        r.addressing == Addressing::AbsoluteY,
        fns(r.micro_ops@) == fns(masked_store_program(Mnemonic::SHA, Addressing::AbsoluteY)),
        labels(r.micro_ops@) == seq![Label::Standard, Label::Standard, Label::FetchHiCalcV, Label::Standard, Label::WriteSha],
        r.wf(),
        lookup_spec(0x9Fu8) == (Instruction { mnemonic: Mnemonic::SHA, addressing: Addressing::AbsoluteY }),
        r.micro_ops@.len() == timing_spec(0x9Fu8).total_spec(true, false),
{
    let r = MicroInstruction {
        opcode: Mnemonic::SHA,
        addressing: Addressing::AbsoluteY,
        micro_ops: vec![
            MicroOp::advance_pc_after_opcode(),
            MicroOp::fetch_abs_addr_lo(),
            MicroOp { micro_fn: MicroFn::FetchHiCalcV(false), label: Label::FetchHiCalcV },
            MicroOp::dummy_read_cross_y(),
            MicroOp { micro_fn: MicroFn::StoreMasked(Mnemonic::SHA), label: Label::WriteSha },
        ],
    };
    proof {
        assert(fns(r.micro_ops@) =~= fns(masked_store_program(Mnemonic::SHA, Addressing::AbsoluteY)));
        assert(labels(r.micro_ops@) =~= seq![Label::Standard, Label::Standard, Label::FetchHiCalcV, Label::Standard, Label::WriteSha]);
    }
    r
}

/// `SHA`, `(zp),Y` (opcode $93; one cycle per micro-operation, the page-crossing one included): the address cycles with `H + 1` latched, the fix-up read, then the masked write.
pub fn sha_indirect_y() -> (r: MicroInstruction)
    ensures
        r.opcode == Mnemonic::SHA,
        r.addressing == Addressing::IndirectY,
        fns(r.micro_ops@) == fns(masked_store_program(Mnemonic::SHA, Addressing::IndirectY)),
        labels(r.micro_ops@) == seq![Label::Standard, Label::Standard, Label::ReadLoCalcV, Label::Standard, Label::Standard, Label::WriteSha],
        r.wf(),
        lookup_spec(0x93u8) == (Instruction { mnemonic: Mnemonic::SHA, addressing: Addressing::IndirectY }),
        r.micro_ops@.len() == timing_spec(0x93u8).total_spec(true, false),
{
    let r = MicroInstruction {
        opcode: Mnemonic::SHA,
        addressing: Addressing::IndirectY,
        micro_ops: vec![
            MicroOp::advance_pc_after_opcode(),
            MicroOp::fetch_zp_addr_lo(),
            MicroOp { micro_fn: MicroFn::ReadZeroPage, label: Label::ReadLoCalcV },
            MicroOp { micro_fn: MicroFn::ReadIndirectYHiCalcV, label: Label::Standard },
            MicroOp::dummy_read_cross_y(),
            MicroOp { micro_fn: MicroFn::StoreMasked(Mnemonic::SHA), label: Label::WriteSha },
        ],
    };
    proof {
        assert(fns(r.micro_ops@) =~= fns(masked_store_program(Mnemonic::SHA, Addressing::IndirectY)));
        assert(labels(r.micro_ops@) =~= seq![Label::Standard, Label::Standard, Label::ReadLoCalcV, Label::Standard, Label::Standard, Label::WriteSha]);
    }
    r
}

/// `SHX`, absolute indexed by Y (opcode $9E; one cycle per micro-operation, the page-crossing one included): the address cycles with `H + 1` latched, the fix-up read, then the masked write.
pub fn shx_absolute_y() -> (r: MicroInstruction)
    ensures
        r.opcode == Mnemonic::SHX,
        r.addressing == Addressing::AbsoluteY,
        fns(r.micro_ops@) == fns(masked_store_program(Mnemonic::SHX, Addressing::AbsoluteY)),
        labels(r.micro_ops@) == seq![Label::Standard, Label::Standard, Label::FetchHiCalcV, Label::Standard, Label::WriteShx],
        r.wf(),
        lookup_spec(0x9Eu8) == (Instruction { mnemonic: Mnemonic::SHX, addressing: Addressing::AbsoluteY }),
        r.micro_ops@.len() == timing_spec(0x9Eu8).total_spec(true, false),
{
    let r = MicroInstruction {
        opcode: Mnemonic::SHX,
        addressing: Addressing::AbsoluteY,
        micro_ops: vec![
            MicroOp::advance_pc_after_opcode(),
            MicroOp::fetch_abs_addr_lo(),
            MicroOp { micro_fn: MicroFn::FetchHiCalcV(false), label: Label::FetchHiCalcV },
            MicroOp::dummy_read_cross_y(),
            MicroOp { micro_fn: MicroFn::StoreMasked(Mnemonic::SHX), label: Label::WriteShx },
        ],
    };
    proof {
        assert(fns(r.micro_ops@) =~= fns(masked_store_program(Mnemonic::SHX, Addressing::AbsoluteY)));
        assert(labels(r.micro_ops@) =~= seq![Label::Standard, Label::Standard, Label::FetchHiCalcV, Label::Standard, Label::WriteShx]);
    }
    r
}

/// `SHY`, absolute indexed by X (opcode $9C; one cycle per micro-operation, the page-crossing one included): the address cycles with `H + 1` latched, the fix-up read, then the masked write.
pub fn shy_absolute_x() -> (r: MicroInstruction)
    ensures
        r.opcode == Mnemonic::SHY,
        r.addressing == Addressing::AbsoluteX,
        fns(r.micro_ops@) == fns(masked_store_program(Mnemonic::SHY, Addressing::AbsoluteX)),
        labels(r.micro_ops@) == seq![Label::Standard, Label::Standard, Label::FetchHiCalcV, Label::Standard, Label::WriteShy],
        r.wf(),
        lookup_spec(0x9Cu8) == (Instruction { mnemonic: Mnemonic::SHY, addressing: Addressing::AbsoluteX }),
        r.micro_ops@.len() == timing_spec(0x9Cu8).total_spec(true, false),
{
    let r = MicroInstruction {
        opcode: Mnemonic::SHY,
        addressing: Addressing::AbsoluteX,
        micro_ops: vec![
            MicroOp::advance_pc_after_opcode(),
            MicroOp::fetch_abs_addr_lo(),
            MicroOp { micro_fn: MicroFn::FetchHiCalcV(true), label: Label::FetchHiCalcV },
            MicroOp::dummy_read_cross_x(),
            MicroOp { micro_fn: MicroFn::StoreMasked(Mnemonic::SHY), label: Label::WriteShy },
        ],
    };
    proof {
        assert(fns(r.micro_ops@) =~= fns(masked_store_program(Mnemonic::SHY, Addressing::AbsoluteX)));
        assert(labels(r.micro_ops@) =~= seq![Label::Standard, Label::Standard, Label::FetchHiCalcV, Label::Standard, Label::WriteShy]);
    }
    r
}

/// `STA`, absolute (opcode $8D; one cycle per micro-operation, the page-crossing one included): the address cycles, then the write.
pub fn sta_absolute() -> (r: MicroInstruction)
    ensures
        r.opcode == Mnemonic::STA,
        r.addressing == Addressing::Absolute,
        fns(r.micro_ops@) == fns(store_program(Mnemonic::STA, Addressing::Absolute)),
        labels(r.micro_ops@) == seq![Label::Standard, Label::Standard, Label::Standard, Label::WriteA],
        r.wf(),
        lookup_spec(0x8Du8) == (Instruction { mnemonic: Mnemonic::STA, addressing: Addressing::Absolute }),
        r.micro_ops@.len() == timing_spec(0x8Du8).total_spec(true, false),
{
    let r = MicroInstruction {
        opcode: Mnemonic::STA,
        addressing: Addressing::Absolute,
        micro_ops: vec![
            MicroOp::advance_pc_after_opcode(),
            MicroOp::fetch_abs_addr_lo(),
            MicroOp::fetch_abs_addr_hi(),
            MicroOp { micro_fn: MicroFn::Exec(Mnemonic::STA, 0), label: Label::WriteA },
        ],
    };
    proof {
        assert(fns(r.micro_ops@) =~= fns(store_program(Mnemonic::STA, Addressing::Absolute)));
        assert(labels(r.micro_ops@) =~= seq![Label::Standard, Label::Standard, Label::Standard, Label::WriteA]);
    }
    r
}

/// `STA`, absolute indexed by X (opcode $9D; one cycle per micro-operation, the page-crossing one included): the address cycles, then the write.
pub fn sta_absolute_x() -> (r: MicroInstruction)
    ensures
        r.opcode == Mnemonic::STA,
        r.addressing == Addressing::AbsoluteX,
        fns(r.micro_ops@) == fns(store_program(Mnemonic::STA, Addressing::AbsoluteX)),
        labels(r.micro_ops@) == seq![Label::Standard, Label::Standard, Label::Standard, Label::Standard, Label::WriteA],
        r.wf(),
        lookup_spec(0x9Du8) == (Instruction { mnemonic: Mnemonic::STA, addressing: Addressing::AbsoluteX }),
        r.micro_ops@.len() == timing_spec(0x9Du8).total_spec(true, false),
{
    let r = MicroInstruction {
        opcode: Mnemonic::STA,
        addressing: Addressing::AbsoluteX,
        micro_ops: vec![
            MicroOp::advance_pc_after_opcode(),
            MicroOp::fetch_abs_addr_lo(),
            MicroOp::fetch_abs_addr_hi_add_x(),
            MicroOp::dummy_read_cross_x(),
            MicroOp { micro_fn: MicroFn::Exec(Mnemonic::STA, 0), label: Label::WriteA },
        ],
    };
    proof {
        assert(fns(r.micro_ops@) =~= fns(store_program(Mnemonic::STA, Addressing::AbsoluteX)));
        assert(labels(r.micro_ops@) =~= seq![Label::Standard, Label::Standard, Label::Standard, Label::Standard, Label::WriteA]);
    }
    r
}

/// `STA`, absolute indexed by Y (opcode $99; one cycle per micro-operation, the page-crossing one included): the address cycles, then the write.
pub fn sta_absolute_y() -> (r: MicroInstruction)
    ensures
        r.opcode == Mnemonic::STA,
        r.addressing == Addressing::AbsoluteY,
        fns(r.micro_ops@) == fns(store_program(Mnemonic::STA, Addressing::AbsoluteY)),
        labels(r.micro_ops@) == seq![Label::Standard, Label::Standard, Label::Standard, Label::Standard, Label::WriteA],
        r.wf(),
        lookup_spec(0x99u8) == (Instruction { mnemonic: Mnemonic::STA, addressing: Addressing::AbsoluteY }),
        r.micro_ops@.len() == timing_spec(0x99u8).total_spec(true, false),
{
    let r = MicroInstruction {
        opcode: Mnemonic::STA,
        addressing: Addressing::AbsoluteY,
        micro_ops: vec![
            MicroOp::advance_pc_after_opcode(),
            MicroOp::fetch_abs_addr_lo(),
            MicroOp::fetch_abs_addr_hi_add_y(),
            MicroOp::dummy_read_cross_y(),
            MicroOp { micro_fn: MicroFn::Exec(Mnemonic::STA, 0), label: Label::WriteA },
        ],
    };
    proof {
        assert(fns(r.micro_ops@) =~= fns(store_program(Mnemonic::STA, Addressing::AbsoluteY)));
        assert(labels(r.micro_ops@) =~= seq![Label::Standard, Label::Standard, Label::Standard, Label::Standard, Label::WriteA]);
    }
    r
}

/// `STA`, zero page (opcode $85; one cycle per micro-operation, the page-crossing one included): the address cycles, then the write.
pub fn sta_zero_page() -> (r: MicroInstruction)
    ensures
        r.opcode == Mnemonic::STA,
        r.addressing == Addressing::ZeroPage,
        fns(r.micro_ops@) == fns(store_program(Mnemonic::STA, Addressing::ZeroPage)),
        labels(r.micro_ops@) == seq![Label::Standard, Label::Standard, Label::WriteA],
        r.wf(),
        lookup_spec(0x85u8) == (Instruction { mnemonic: Mnemonic::STA, addressing: Addressing::ZeroPage }),
        r.micro_ops@.len() == timing_spec(0x85u8).total_spec(true, false),
{
    let r = MicroInstruction {
        opcode: Mnemonic::STA,
        addressing: Addressing::ZeroPage,
        micro_ops: vec![
            MicroOp::advance_pc_after_opcode(),
            MicroOp::fetch_zp_addr_lo(),
            MicroOp { micro_fn: MicroFn::Exec(Mnemonic::STA, 0), label: Label::WriteA },
        ],
    };
    proof {
        assert(fns(r.micro_ops@) =~= fns(store_program(Mnemonic::STA, Addressing::ZeroPage)));
        assert(labels(r.micro_ops@) =~= seq![Label::Standard, Label::Standard, Label::WriteA]);
    }
    r
}

/// `STA`, zero page indexed by X (opcode $95; one cycle per micro-operation, the page-crossing one included): the address cycles, then the write.
pub fn sta_zero_page_x() -> (r: MicroInstruction)
    ensures
        r.opcode == Mnemonic::STA,
        r.addressing == Addressing::ZeroPageX,
        fns(r.micro_ops@) == fns(store_program(Mnemonic::STA, Addressing::ZeroPageX)),
        labels(r.micro_ops@) == seq![Label::Standard, Label::Standard, Label::Standard, Label::WriteA],
        r.wf(),
        lookup_spec(0x95u8) == (Instruction { mnemonic: Mnemonic::STA, addressing: Addressing::ZeroPageX }),
        r.micro_ops@.len() == timing_spec(0x95u8).total_spec(true, false),
{
    let r = MicroInstruction {
        opcode: Mnemonic::STA,
        addressing: Addressing::ZeroPageX,
        micro_ops: vec![
            MicroOp::advance_pc_after_opcode(),
            MicroOp::fetch_zp_addr_lo(),
            MicroOp::read_zero_page_add_x_dummy(),
            MicroOp { micro_fn: MicroFn::Exec(Mnemonic::STA, 0), label: Label::WriteA },
        ],
    };
    proof {
        assert(fns(r.micro_ops@) =~= fns(store_program(Mnemonic::STA, Addressing::ZeroPageX)));
        assert(labels(r.micro_ops@) =~= seq![Label::Standard, Label::Standard, Label::Standard, Label::WriteA]);
    }
    r
}

/// `STA`, `(zp,X)` (opcode $81; one cycle per micro-operation, the page-crossing one included): the address cycles, then the write.
pub fn sta_indirect_x() -> (r: MicroInstruction)
    ensures
        r.opcode == Mnemonic::STA,
        r.addressing == Addressing::IndirectX,
        fns(r.micro_ops@) == fns(store_program(Mnemonic::STA, Addressing::IndirectX)),
        labels(r.micro_ops@) == seq![Label::Standard, Label::Standard, Label::Standard, Label::Standard, Label::Standard, Label::WriteA],
        r.wf(),
        lookup_spec(0x81u8) == (Instruction { mnemonic: Mnemonic::STA, addressing: Addressing::IndirectX }),
        r.micro_ops@.len() == timing_spec(0x81u8).total_spec(true, false),
{
    let r = MicroInstruction {
        opcode: Mnemonic::STA,
        addressing: Addressing::IndirectX,
        micro_ops: vec![
            MicroOp::advance_pc_after_opcode(),
            MicroOp::fetch_zp_addr_lo(),
            MicroOp::read_indirect_x_dummy(),
            MicroOp::read_indirect_x_lo(),
            MicroOp::read_indirect_x_hi(),
            MicroOp { micro_fn: MicroFn::Exec(Mnemonic::STA, 0), label: Label::WriteA },
        ],
    };
    proof {
        assert(fns(r.micro_ops@) =~= fns(store_program(Mnemonic::STA, Addressing::IndirectX)));
        assert(labels(r.micro_ops@) =~= seq![Label::Standard, Label::Standard, Label::Standard, Label::Standard, Label::Standard, Label::WriteA]);
    }
    r
}

/// `STA`, `(zp),Y` (opcode $91; one cycle per micro-operation, the page-crossing one included): the address cycles, then the write.
pub fn sta_indirect_y() -> (r: MicroInstruction)
    ensures
        r.opcode == Mnemonic::STA,
        r.addressing == Addressing::IndirectY,
        fns(r.micro_ops@) == fns(store_program(Mnemonic::STA, Addressing::IndirectY)),
        labels(r.micro_ops@) == seq![Label::Standard, Label::Standard, Label::Standard, Label::Standard, Label::Standard, Label::WriteA],
        r.wf(),
        lookup_spec(0x91u8) == (Instruction { mnemonic: Mnemonic::STA, addressing: Addressing::IndirectY }),
        r.micro_ops@.len() == timing_spec(0x91u8).total_spec(true, false),
{
    let r = MicroInstruction {
        opcode: Mnemonic::STA,
        addressing: Addressing::IndirectY,
        micro_ops: vec![
            MicroOp::advance_pc_after_opcode(),
            MicroOp::fetch_zp_addr_lo(),
            MicroOp::read_zero_page(),
            MicroOp::read_indirect_y_hi(),
            MicroOp::dummy_read_cross_y(),
            MicroOp { micro_fn: MicroFn::Exec(Mnemonic::STA, 0), label: Label::WriteA },
        ],
    };
    proof {
        assert(fns(r.micro_ops@) =~= fns(store_program(Mnemonic::STA, Addressing::IndirectY)));
        assert(labels(r.micro_ops@) =~= seq![Label::Standard, Label::Standard, Label::Standard, Label::Standard, Label::Standard, Label::WriteA]);
    }
    r
}

/// `STX`, absolute (opcode $8E; one cycle per micro-operation, the page-crossing one included): the address cycles, then the write.
pub fn stx_absolute() -> (r: MicroInstruction)
    ensures
        r.opcode == Mnemonic::STX,
        r.addressing == Addressing::Absolute,
        fns(r.micro_ops@) == fns(store_program(Mnemonic::STX, Addressing::Absolute)),
        labels(r.micro_ops@) == seq![Label::Standard, Label::Standard, Label::Standard, Label::WriteX],
        r.wf(),
        lookup_spec(0x8Eu8) == (Instruction { mnemonic: Mnemonic::STX, addressing: Addressing::Absolute }),
        r.micro_ops@.len() == timing_spec(0x8Eu8).total_spec(true, false),
{
    let r = MicroInstruction {
        opcode: Mnemonic::STX,
        addressing: Addressing::Absolute,
        micro_ops: vec![
            MicroOp::advance_pc_after_opcode(),
            MicroOp::fetch_abs_addr_lo(),
            MicroOp::fetch_abs_addr_hi(),
            MicroOp { micro_fn: MicroFn::Exec(Mnemonic::STX, 0), label: Label::WriteX },
        ],
    };
    proof {
        assert(fns(r.micro_ops@) =~= fns(store_program(Mnemonic::STX, Addressing::Absolute)));
        assert(labels(r.micro_ops@) =~= seq![Label::Standard, Label::Standard, Label::Standard, Label::WriteX]);
    }
    r
}

/// `STX`, zero page (opcode $86; one cycle per micro-operation, the page-crossing one included): the address cycles, then the write.
pub fn stx_zero_page() -> (r: MicroInstruction)
    ensures
        r.opcode == Mnemonic::STX,
        r.addressing == Addressing::ZeroPage,
        fns(r.micro_ops@) == fns(store_program(Mnemonic::STX, Addressing::ZeroPage)),
        labels(r.micro_ops@) == seq![Label::Standard, Label::Standard, Label::WriteX],
        r.wf(),
        lookup_spec(0x86u8) == (Instruction { mnemonic: Mnemonic::STX, addressing: Addressing::ZeroPage }),
        r.micro_ops@.len() == timing_spec(0x86u8).total_spec(true, false),
{
    let r = MicroInstruction {
        opcode: Mnemonic::STX,
        addressing: Addressing::ZeroPage,
        micro_ops: vec![
            MicroOp::advance_pc_after_opcode(),
            MicroOp::fetch_zp_addr_lo(),
            MicroOp { micro_fn: MicroFn::Exec(Mnemonic::STX, 0), label: Label::WriteX },
        ],
    };
    proof {
        assert(fns(r.micro_ops@) =~= fns(store_program(Mnemonic::STX, Addressing::ZeroPage)));
        assert(labels(r.micro_ops@) =~= seq![Label::Standard, Label::Standard, Label::WriteX]);
    }
    r
}

/// `STX`, zero page indexed by Y (opcode $96; one cycle per micro-operation, the page-crossing one included): the address cycles, then the write.
pub fn stx_zero_page_y() -> (r: MicroInstruction)
    ensures
        r.opcode == Mnemonic::STX,
        r.addressing == Addressing::ZeroPageY,
        fns(r.micro_ops@) == fns(store_program(Mnemonic::STX, Addressing::ZeroPageY)),
        labels(r.micro_ops@) == seq![Label::Standard, Label::Standard, Label::Standard, Label::WriteX],
        r.wf(),
        lookup_spec(0x96u8) == (Instruction { mnemonic: Mnemonic::STX, addressing: Addressing::ZeroPageY }),
        r.micro_ops@.len() == timing_spec(0x96u8).total_spec(true, false),
{
    let r = MicroInstruction {
        opcode: Mnemonic::STX,
        addressing: Addressing::ZeroPageY,
        micro_ops: vec![
            MicroOp::advance_pc_after_opcode(),
            MicroOp::fetch_zp_addr_lo(),
            MicroOp::read_zero_page_add_y_dummy(),
            MicroOp { micro_fn: MicroFn::Exec(Mnemonic::STX, 0), label: Label::WriteX },
        ],
    };
    proof {
        assert(fns(r.micro_ops@) =~= fns(store_program(Mnemonic::STX, Addressing::ZeroPageY)));
        assert(labels(r.micro_ops@) =~= seq![Label::Standard, Label::Standard, Label::Standard, Label::WriteX]);
    }
    r
}

/// `STY`, absolute (opcode $8C; one cycle per micro-operation, the page-crossing one included): the address cycles, then the write.
pub fn sty_absolute() -> (r: MicroInstruction)
    ensures
        r.opcode == Mnemonic::STY,
        r.addressing == Addressing::Absolute,
        fns(r.micro_ops@) == fns(store_program(Mnemonic::STY, Addressing::Absolute)),
        labels(r.micro_ops@) == seq![Label::Standard, Label::Standard, Label::Standard, Label::WriteY],
        r.wf(),
        lookup_spec(0x8Cu8) == (Instruction { mnemonic: Mnemonic::STY, addressing: Addressing::Absolute }),
        r.micro_ops@.len() == timing_spec(0x8Cu8).total_spec(true, false),
{
    let r = MicroInstruction {
        opcode: Mnemonic::STY,
        addressing: Addressing::Absolute,
        micro_ops: vec![
            MicroOp::advance_pc_after_opcode(),
            MicroOp::fetch_abs_addr_lo(),
            MicroOp::fetch_abs_addr_hi(),
            MicroOp { micro_fn: MicroFn::Exec(Mnemonic::STY, 0), label: Label::WriteY },
        ],
    };
    proof {
        assert(fns(r.micro_ops@) =~= fns(store_program(Mnemonic::STY, Addressing::Absolute)));
        assert(labels(r.micro_ops@) =~= seq![Label::Standard, Label::Standard, Label::Standard, Label::WriteY]);
    }
    r
}

/// `STY`, zero page (opcode $84; one cycle per micro-operation, the page-crossing one included): the address cycles, then the write.
pub fn sty_zero_page() -> (r: MicroInstruction)
    ensures
        r.opcode == Mnemonic::STY,
        r.addressing == Addressing::ZeroPage,
        fns(r.micro_ops@) == fns(store_program(Mnemonic::STY, Addressing::ZeroPage)),
        labels(r.micro_ops@) == seq![Label::Standard, Label::Standard, Label::WriteY],
        r.wf(),
        lookup_spec(0x84u8) == (Instruction { mnemonic: Mnemonic::STY, addressing: Addressing::ZeroPage }),
        r.micro_ops@.len() == timing_spec(0x84u8).total_spec(true, false),
{
    let r = MicroInstruction {
        opcode: Mnemonic::STY,
        addressing: Addressing::ZeroPage,
        micro_ops: vec![
            MicroOp::advance_pc_after_opcode(),
            MicroOp::fetch_zp_addr_lo(),
            MicroOp { micro_fn: MicroFn::Exec(Mnemonic::STY, 0), label: Label::WriteY },
        ],
    };
    proof {
        assert(fns(r.micro_ops@) =~= fns(store_program(Mnemonic::STY, Addressing::ZeroPage)));
        assert(labels(r.micro_ops@) =~= seq![Label::Standard, Label::Standard, Label::WriteY]);
    }
    r
}

/// `STY`, zero page indexed by X (opcode $94; one cycle per micro-operation, the page-crossing one included): the address cycles, then the write.
pub fn sty_zero_page_x() -> (r: MicroInstruction)
    ensures
        r.opcode == Mnemonic::STY,
        r.addressing == Addressing::ZeroPageX,
        fns(r.micro_ops@) == fns(store_program(Mnemonic::STY, Addressing::ZeroPageX)),
        labels(r.micro_ops@) == seq![Label::Standard, Label::Standard, Label::Standard, Label::WriteY],
        r.wf(),
        lookup_spec(0x94u8) == (Instruction { mnemonic: Mnemonic::STY, addressing: Addressing::ZeroPageX }),
        r.micro_ops@.len() == timing_spec(0x94u8).total_spec(true, false),
{
    let r = MicroInstruction {
        opcode: Mnemonic::STY,
        addressing: Addressing::ZeroPageX,
        micro_ops: vec![
            MicroOp::advance_pc_after_opcode(),
            MicroOp::fetch_zp_addr_lo(),
            MicroOp::read_zero_page_add_x_dummy(),
            MicroOp { micro_fn: MicroFn::Exec(Mnemonic::STY, 0), label: Label::WriteY },
        ],
    };
    proof {
        assert(fns(r.micro_ops@) =~= fns(store_program(Mnemonic::STY, Addressing::ZeroPageX)));
        assert(labels(r.micro_ops@) =~= seq![Label::Standard, Label::Standard, Label::Standard, Label::WriteY]);
    }
    r
}

} // verus!
