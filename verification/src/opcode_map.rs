//! The regular layout of the 6502 opcode map, and the proof that the decoding
//! table follows it.
//!
//! An opcode is read as `aaabbbcc`: the group `cc` (bits 1..0), the operation
//! `aaa` (bits 7..5) and the addressing column `bbb` (bits 4..2).

use vstd::prelude::*;

use crate::addressing::Addressing;
use crate::instruction::Instruction;
use crate::lookup::lookup_spec;
use crate::mnemonic::Mnemonic;
use crate::timing::{timing_spec, Timing};

verus! {

/// Bits 7..5 of an opcode: the operation within its group.
pub open spec fn op_bits(o: u8) -> u8 {
    o / 32
}

/// Bits 4..2 of an opcode: the addressing column.
pub open spec fn mode_bits(o: u8) -> u8 {
    (o / 4) % 8
}

/// Bits 1..0 of an opcode: the group.
pub open spec fn group_bits(o: u8) -> u8 {
    o % 4
}

/// The instruction with mnemonic `mnemonic` and addressing mode `addressing`.
pub open spec fn ins(mnemonic: Mnemonic, addressing: Addressing) -> Instruction {
    Instruction { mnemonic, addressing }
}

/// The eight operations of group 01, by `aaa`.
pub open spec fn alu_group(aaa: u8) -> Mnemonic {
    match aaa {
        0 => Mnemonic::ORA,
        1 => Mnemonic::AND,
        2 => Mnemonic::EOR,
        3 => Mnemonic::ADC,
        4 => Mnemonic::STA,
        5 => Mnemonic::LDA,
        6 => Mnemonic::CMP,
        _ => Mnemonic::SBC,
    }
}

/// The eight addressing columns of group 01, by `bbb`.
pub open spec fn alu_mode(bbb: u8) -> Addressing {
    match bbb {
        0 => Addressing::IndirectX,
        1 => Addressing::ZeroPage,
        2 => Addressing::Immediate,
        3 => Addressing::Absolute,
        4 => Addressing::IndirectY,
        5 => Addressing::ZeroPageX,
        6 => Addressing::AbsoluteY,
        _ => Addressing::AbsoluteX,
    }
}

/// The addressing columns of groups 10 and 11: those of group 01, except that the
/// operations that move X (`aaa` 4 and 5) index their zero-page and absolute
/// columns by Y.
pub open spec fn xy_mode(aaa: u8, bbb: u8) -> Addressing {
    if (aaa == 4 || aaa == 5) && bbb == 5 {
        Addressing::ZeroPageY
    } else if (aaa == 4 || aaa == 5) && bbb == 7 {
        Addressing::AbsoluteY
    } else {
        alu_mode(bbb)
    }
}

/// The eight operations of group 10 in its odd columns, by `aaa`.
pub open spec fn rmw_group(aaa: u8) -> Mnemonic {
    match aaa {
        0 => Mnemonic::ASL,
        1 => Mnemonic::ROL,
        2 => Mnemonic::LSR,
        3 => Mnemonic::ROR,
        4 => Mnemonic::STX,
        5 => Mnemonic::LDX,
        6 => Mnemonic::DEC,
        _ => Mnemonic::INC,
    }
}

/// The eight undocumented operations of group 11, by `aaa`.
pub open spec fn combined_group(aaa: u8) -> Mnemonic {
    match aaa {
        0 => Mnemonic::SLO,
        1 => Mnemonic::RLA,
        2 => Mnemonic::SRE,
        3 => Mnemonic::RRA,
        4 => Mnemonic::SAX,
        5 => Mnemonic::LAX,
        6 => Mnemonic::DCP,
        _ => Mnemonic::ISC,
    }
}

/// The undocumented immediate operations of group 11 (column 010), by `aaa`.
pub open spec fn combined_immediate(aaa: u8) -> Mnemonic {
    match aaa {
        0 | 1 => Mnemonic::ANC,
        2 => Mnemonic::ASR,
        3 => Mnemonic::ARR,
        4 => Mnemonic::XAA,
        5 => Mnemonic::LAX,
        6 => Mnemonic::SBX,
        _ => Mnemonic::SBC,
    }
}

/// The eight conditional branches (`aaa10000`), by `aaa`.
pub open spec fn branch_group(aaa: u8) -> Mnemonic {
    match aaa {
        0 => Mnemonic::BPL,
        1 => Mnemonic::BMI,
        2 => Mnemonic::BVC,
        3 => Mnemonic::BVS,
        4 => Mnemonic::BCC,
        5 => Mnemonic::BCS,
        6 => Mnemonic::BNE,
        _ => Mnemonic::BEQ,
    }
}

/// The one-byte operations of column `aaa11000`, by `aaa`.
pub open spec fn flag_group(aaa: u8) -> Mnemonic {
    match aaa {
        0 => Mnemonic::CLC,
        1 => Mnemonic::SEC,
        2 => Mnemonic::CLI,
        3 => Mnemonic::SEI,
        4 => Mnemonic::TYA,
        5 => Mnemonic::CLV,
        6 => Mnemonic::CLD,
        _ => Mnemonic::SED,
    }
}

/// The one-byte operations of column `aaa01000`, by `aaa`.
pub open spec fn stack_group(aaa: u8) -> Mnemonic {
    match aaa {
        0 => Mnemonic::PHP,
        1 => Mnemonic::PLP,
        2 => Mnemonic::PHA,
        3 => Mnemonic::PLA,
        4 => Mnemonic::DEY,
        5 => Mnemonic::TAY,
        6 => Mnemonic::INY,
        _ => Mnemonic::INX,
    }
}

/// The operations of group 00 that load or compare an index register, by `aaa`
/// (5, 6 and 7).
pub open spec fn index_group(aaa: u8) -> Mnemonic {
    match aaa {
        5 => Mnemonic::LDY,
        6 => Mnemonic::CPY,
        _ => Mnemonic::CPX,
    }
}

/// Whether `mn` is one of the eight operations of group 01.
pub open spec fn is_alu(mn: Mnemonic) -> bool {
    match mn {
        Mnemonic::ORA | Mnemonic::AND | Mnemonic::EOR | Mnemonic::ADC | Mnemonic::STA
        | Mnemonic::LDA | Mnemonic::CMP | Mnemonic::SBC => true,
        _ => false,
    }
}

/// Whether `mn` writes its operand without reading it.
pub open spec fn is_store(mn: Mnemonic) -> bool {
    match mn {
        Mnemonic::STA | Mnemonic::STX | Mnemonic::STY | Mnemonic::SAX | Mnemonic::SHA
        | Mnemonic::SHX | Mnemonic::SHY | Mnemonic::SHS => true,
        _ => false,
    }
}

/// Whether `mn` reads its operand, modifies it and writes it back.
pub open spec fn is_rmw(mn: Mnemonic) -> bool {
    match mn {
        Mnemonic::ASL | Mnemonic::LSR | Mnemonic::ROL | Mnemonic::ROR | Mnemonic::INC
        | Mnemonic::DEC | Mnemonic::SLO | Mnemonic::RLA | Mnemonic::SRE | Mnemonic::RRA
        | Mnemonic::DCP | Mnemonic::ISC => true,
        _ => false,
    }
}

/// The cycle count of an instruction as the 6502 documentation gives it: from
/// its addressing mode and whether it reads, writes, or reads, modifies and
/// writes its operand; branches take 2 cycles plus their penalties, and the
/// stack and control instructions have counts of their own.
pub open spec fn documented_timing(i: Instruction) -> Timing {
    let mn = i.mnemonic;
    match i.addressing {
        Addressing::Relative => Timing::Branch(2),
        Addressing::Implied => match mn {
            Mnemonic::BRK => Timing::Fixed(7),
            Mnemonic::RTI | Mnemonic::RTS => Timing::Fixed(6),
            Mnemonic::PHA | Mnemonic::PHP => Timing::Fixed(3),
            Mnemonic::PLA | Mnemonic::PLP => Timing::Fixed(4),
            Mnemonic::JAM => Timing::Fixed(0),
            _ => Timing::Fixed(2),
        },
        Addressing::Accumulator | Addressing::Immediate => Timing::Fixed(2),
        Addressing::Indirect => Timing::Fixed(5),
        mode => if mn == Mnemonic::JMP {
            Timing::Fixed(3)
        } else if mn == Mnemonic::JSR {
            Timing::Fixed(6)
        } else if is_rmw(mn) {
            match mode {
                Addressing::ZeroPage => Timing::Fixed(5),
                Addressing::ZeroPageX | Addressing::Absolute => Timing::Fixed(6),
                Addressing::AbsoluteX | Addressing::AbsoluteY => Timing::Fixed(7),
                _ => Timing::Fixed(8),
            }
        } else if is_store(mn) {
            match mode {
                Addressing::ZeroPage => Timing::Fixed(3),
                Addressing::ZeroPageX | Addressing::ZeroPageY | Addressing::Absolute => Timing::Fixed(4),
                Addressing::AbsoluteX | Addressing::AbsoluteY => Timing::Fixed(5),
                _ => Timing::Fixed(6),
            }
        } else {
            match mode {
                Addressing::ZeroPage => Timing::Fixed(3),
                Addressing::ZeroPageX | Addressing::ZeroPageY | Addressing::Absolute => Timing::Fixed(4),
                Addressing::AbsoluteX | Addressing::AbsoluteY => Timing::PageCross(4),
                Addressing::IndirectX => Timing::Fixed(6),
                _ => Timing::PageCross(5),
            }
        },
    }
}

/// The layout of the 6502 opcode map, as it bears on opcode `o`: the groups,
/// the columns and the few opcodes that break the pattern.
pub open spec fn opcode_map_rules(o: u8) -> bool {
    let aaa = op_bits(o);
    let bbb = mode_bits(o);
    let cc = group_bits(o);
    let i = lookup_spec(o);
    // Group 01: eight operations in eight addressing columns; STA has no
    // immediate form, and its slot is a two-byte NOP.
    &&& cc == 1 && o != 0x89 ==> i == ins(alu_group(aaa), alu_mode(bbb))
    &&& o == 0x89 ==> i == ins(Mnemonic::NOP, Addressing::Immediate)
    // The group 01 operations occur nowhere else but at SBC's undocumented copy.
    &&& is_alu(i.mnemonic) ==> (cc == 1 && i.mnemonic == alu_group(aaa)) || o == 0xEB
    // Group 10: shifts, rotates, X moves, increments and decrements.
    &&& cc == 2 && bbb % 2 == 1 && o != 0x9E ==> i == ins(rmw_group(aaa), xy_mode(aaa, bbb))
    &&& cc == 2 && bbb == 2 && aaa < 4 ==> i == ins(rmw_group(aaa), Addressing::Accumulator)
    &&& cc == 2 && bbb == 2 && aaa == 4 ==> i == ins(Mnemonic::TXA, Addressing::Implied)
    &&& cc == 2 && bbb == 2 && aaa == 5 ==> i == ins(Mnemonic::TAX, Addressing::Implied)
    &&& cc == 2 && bbb == 2 && aaa == 6 ==> i == ins(Mnemonic::DEX, Addressing::Implied)
    &&& cc == 2 && bbb == 2 && aaa == 7 ==> i == ins(Mnemonic::NOP, Addressing::Implied)
    &&& cc == 2 && bbb == 0 && aaa < 4 ==> i == ins(Mnemonic::JAM, Addressing::Implied)
    &&& cc == 2 && bbb == 0 && aaa == 5 ==> i == ins(Mnemonic::LDX, Addressing::Immediate)
    &&& cc == 2 && bbb == 0 && aaa >= 4 && aaa != 5 ==> i == ins(Mnemonic::NOP, Addressing::Immediate)
    &&& cc == 2 && bbb == 4 ==> i == ins(Mnemonic::JAM, Addressing::Implied)
    &&& cc == 2 && bbb == 6 && aaa == 4 ==> i == ins(Mnemonic::TXS, Addressing::Implied)
    &&& cc == 2 && bbb == 6 && aaa == 5 ==> i == ins(Mnemonic::TSX, Addressing::Implied)
    &&& cc == 2 && bbb == 6 && aaa != 4 && aaa != 5 ==> i == ins(Mnemonic::NOP, Addressing::Implied)
    &&& o == 0x9E ==> i == ins(Mnemonic::SHX, Addressing::AbsoluteY)
    // Group 11: the undocumented combined operations.
    &&& cc == 3 && bbb != 2 && o != 0x93 && o != 0x9B && o != 0x9F && o != 0xBB ==> i == ins(
        combined_group(aaa),
        xy_mode(aaa, bbb),
    )
    &&& cc == 3 && bbb == 2 ==> i == ins(combined_immediate(aaa), Addressing::Immediate)
    &&& o == 0x93 ==> i == ins(Mnemonic::SHA, Addressing::IndirectY)
    &&& o == 0x9F ==> i == ins(Mnemonic::SHA, Addressing::AbsoluteY)
    &&& o == 0x9B ==> i == ins(Mnemonic::SHS, Addressing::AbsoluteY)
    &&& o == 0xBB ==> i == ins(Mnemonic::LAS, Addressing::AbsoluteY)
    // Group 00: branches, one-byte operations, Y moves, control flow.
    &&& (i.addressing == Addressing::Relative) == (cc == 0 && bbb == 4)
    &&& cc == 0 && bbb == 4 ==> i == ins(branch_group(aaa), Addressing::Relative)
    &&& cc == 0 && bbb == 6 ==> i == ins(flag_group(aaa), Addressing::Implied)
    &&& cc == 0 && bbb == 2 ==> i == ins(stack_group(aaa), Addressing::Implied)
    &&& cc == 0 && aaa >= 5 && bbb == 0 ==> i == ins(index_group(aaa), Addressing::Immediate)
    &&& cc == 0 && aaa >= 5 && (bbb == 1 || bbb == 3) ==> i == ins(index_group(aaa), alu_mode(bbb))
    &&& cc == 0 && aaa == 4 && (bbb == 1 || bbb == 3 || bbb == 5) ==> i == ins(Mnemonic::STY, alu_mode(bbb))
    &&& cc == 0 && aaa == 5 && (bbb == 5 || bbb == 7) ==> i == ins(Mnemonic::LDY, alu_mode(bbb))
    &&& o == 0x9C ==> i == ins(Mnemonic::SHY, Addressing::AbsoluteX)
    &&& cc == 0 && (bbb == 5 || bbb == 7) && aaa != 4 && aaa != 5 ==> i == ins(Mnemonic::NOP, alu_mode(bbb))
    &&& cc == 0 && bbb == 1 && aaa < 4 && aaa != 1 ==> i == ins(Mnemonic::NOP, Addressing::ZeroPage)
    &&& cc == 0 && (bbb == 1 || bbb == 3) && aaa == 1 ==> i == ins(Mnemonic::BIT, alu_mode(bbb))
    &&& o == 0x0C ==> i == ins(Mnemonic::NOP, Addressing::Absolute)
    &&& o == 0x4C ==> i == ins(Mnemonic::JMP, Addressing::Absolute)
    &&& o == 0x6C ==> i == ins(Mnemonic::JMP, Addressing::Indirect)
    &&& o == 0x00 ==> i == ins(Mnemonic::BRK, Addressing::Implied)
    &&& o == 0x20 ==> i == ins(Mnemonic::JSR, Addressing::Absolute)
    &&& o == 0x40 ==> i == ins(Mnemonic::RTI, Addressing::Implied)
    &&& o == 0x60 ==> i == ins(Mnemonic::RTS, Addressing::Implied)
    &&& o == 0x80 ==> i == ins(Mnemonic::NOP, Addressing::Immediate)
}

proof fn lemma_opcode_map_0()
    ensures
        forall|o: u8| 0x00 <= o <= 0x0F ==> opcode_map_rules(o) && timing_spec(o) == documented_timing(
            lookup_spec(o),
        ),
{
    assert forall|o: u8| 0x00 <= o <= 0x0F implies opcode_map_rules(o) && timing_spec(o)
        == documented_timing(lookup_spec(o)) by {
        if o == 0x00u8 {
            assert(opcode_map_rules(0x00u8));
            assert(timing_spec(0x00u8) == documented_timing(lookup_spec(0x00u8)));
        } else if o == 0x01u8 {
            assert(opcode_map_rules(0x01u8));
            assert(timing_spec(0x01u8) == documented_timing(lookup_spec(0x01u8)));
        } else if o == 0x02u8 {
            assert(opcode_map_rules(0x02u8));
            assert(timing_spec(0x02u8) == documented_timing(lookup_spec(0x02u8)));
        } else if o == 0x03u8 {
            assert(opcode_map_rules(0x03u8));
            assert(timing_spec(0x03u8) == documented_timing(lookup_spec(0x03u8)));
        } else if o == 0x04u8 {
            assert(opcode_map_rules(0x04u8));
            assert(timing_spec(0x04u8) == documented_timing(lookup_spec(0x04u8)));
        } else if o == 0x05u8 {
            assert(opcode_map_rules(0x05u8));
            assert(timing_spec(0x05u8) == documented_timing(lookup_spec(0x05u8)));
        } else if o == 0x06u8 {
            assert(opcode_map_rules(0x06u8));
            assert(timing_spec(0x06u8) == documented_timing(lookup_spec(0x06u8)));
        } else if o == 0x07u8 {
            assert(opcode_map_rules(0x07u8));
            assert(timing_spec(0x07u8) == documented_timing(lookup_spec(0x07u8)));
        } else if o == 0x08u8 {
            assert(opcode_map_rules(0x08u8));
            assert(timing_spec(0x08u8) == documented_timing(lookup_spec(0x08u8)));
        } else if o == 0x09u8 {
            assert(opcode_map_rules(0x09u8));
            assert(timing_spec(0x09u8) == documented_timing(lookup_spec(0x09u8)));
        } else if o == 0x0Au8 {
            assert(opcode_map_rules(0x0Au8));
            assert(timing_spec(0x0Au8) == documented_timing(lookup_spec(0x0Au8)));
        } else if o == 0x0Bu8 {
            assert(opcode_map_rules(0x0Bu8));
            assert(timing_spec(0x0Bu8) == documented_timing(lookup_spec(0x0Bu8)));
        } else if o == 0x0Cu8 {
            assert(opcode_map_rules(0x0Cu8));
            assert(timing_spec(0x0Cu8) == documented_timing(lookup_spec(0x0Cu8)));
        } else if o == 0x0Du8 {
            assert(opcode_map_rules(0x0Du8));
            assert(timing_spec(0x0Du8) == documented_timing(lookup_spec(0x0Du8)));
        } else if o == 0x0Eu8 {
            assert(opcode_map_rules(0x0Eu8));
            assert(timing_spec(0x0Eu8) == documented_timing(lookup_spec(0x0Eu8)));
        } else {
            assert(o == 0x0Fu8);
            assert(opcode_map_rules(0x0Fu8));
            assert(timing_spec(0x0Fu8) == documented_timing(lookup_spec(0x0Fu8)));
        }
    }
}

proof fn lemma_opcode_map_1()
    ensures
        forall|o: u8| 0x10 <= o <= 0x1F ==> opcode_map_rules(o) && timing_spec(o) == documented_timing(
            lookup_spec(o),
        ),
{
    assert forall|o: u8| 0x10 <= o <= 0x1F implies opcode_map_rules(o) && timing_spec(o)
        == documented_timing(lookup_spec(o)) by {
        if o == 0x10u8 {
            assert(opcode_map_rules(0x10u8));
            assert(timing_spec(0x10u8) == documented_timing(lookup_spec(0x10u8)));
        } else if o == 0x11u8 {
            assert(opcode_map_rules(0x11u8));
            assert(timing_spec(0x11u8) == documented_timing(lookup_spec(0x11u8)));
        } else if o == 0x12u8 {
            assert(opcode_map_rules(0x12u8));
            assert(timing_spec(0x12u8) == documented_timing(lookup_spec(0x12u8)));
        } else if o == 0x13u8 {
            assert(opcode_map_rules(0x13u8));
            assert(timing_spec(0x13u8) == documented_timing(lookup_spec(0x13u8)));
        } else if o == 0x14u8 {
            assert(opcode_map_rules(0x14u8));
            assert(timing_spec(0x14u8) == documented_timing(lookup_spec(0x14u8)));
        } else if o == 0x15u8 {
            assert(opcode_map_rules(0x15u8));
            assert(timing_spec(0x15u8) == documented_timing(lookup_spec(0x15u8)));
        } else if o == 0x16u8 {
            assert(opcode_map_rules(0x16u8));
            assert(timing_spec(0x16u8) == documented_timing(lookup_spec(0x16u8)));
        } else if o == 0x17u8 {
            assert(opcode_map_rules(0x17u8));
            assert(timing_spec(0x17u8) == documented_timing(lookup_spec(0x17u8)));
        } else if o == 0x18u8 {
            assert(opcode_map_rules(0x18u8));
            assert(timing_spec(0x18u8) == documented_timing(lookup_spec(0x18u8)));
        } else if o == 0x19u8 {
            assert(opcode_map_rules(0x19u8));
            assert(timing_spec(0x19u8) == documented_timing(lookup_spec(0x19u8)));
        } else if o == 0x1Au8 {
            assert(opcode_map_rules(0x1Au8));
            assert(timing_spec(0x1Au8) == documented_timing(lookup_spec(0x1Au8)));
        } else if o == 0x1Bu8 {
            assert(opcode_map_rules(0x1Bu8));
            assert(timing_spec(0x1Bu8) == documented_timing(lookup_spec(0x1Bu8)));
        } else if o == 0x1Cu8 {
            assert(opcode_map_rules(0x1Cu8));
            assert(timing_spec(0x1Cu8) == documented_timing(lookup_spec(0x1Cu8)));
        } else if o == 0x1Du8 {
            assert(opcode_map_rules(0x1Du8));
            assert(timing_spec(0x1Du8) == documented_timing(lookup_spec(0x1Du8)));
        } else if o == 0x1Eu8 {
            assert(opcode_map_rules(0x1Eu8));
            assert(timing_spec(0x1Eu8) == documented_timing(lookup_spec(0x1Eu8)));
        } else {
            assert(o == 0x1Fu8);
            assert(opcode_map_rules(0x1Fu8));
            assert(timing_spec(0x1Fu8) == documented_timing(lookup_spec(0x1Fu8)));
        }
    }
}

proof fn lemma_opcode_map_2()
    ensures
        forall|o: u8| 0x20 <= o <= 0x2F ==> opcode_map_rules(o) && timing_spec(o) == documented_timing(
            lookup_spec(o),
        ),
{
    assert forall|o: u8| 0x20 <= o <= 0x2F implies opcode_map_rules(o) && timing_spec(o)
        == documented_timing(lookup_spec(o)) by {
        if o == 0x20u8 {
            assert(opcode_map_rules(0x20u8));
            assert(timing_spec(0x20u8) == documented_timing(lookup_spec(0x20u8)));
        } else if o == 0x21u8 {
            assert(opcode_map_rules(0x21u8));
            assert(timing_spec(0x21u8) == documented_timing(lookup_spec(0x21u8)));
        } else if o == 0x22u8 {
            assert(opcode_map_rules(0x22u8));
            assert(timing_spec(0x22u8) == documented_timing(lookup_spec(0x22u8)));
        } else if o == 0x23u8 {
            assert(opcode_map_rules(0x23u8));
            assert(timing_spec(0x23u8) == documented_timing(lookup_spec(0x23u8)));
        } else if o == 0x24u8 {
            assert(opcode_map_rules(0x24u8));
            assert(timing_spec(0x24u8) == documented_timing(lookup_spec(0x24u8)));
        } else if o == 0x25u8 {
            assert(opcode_map_rules(0x25u8));
            assert(timing_spec(0x25u8) == documented_timing(lookup_spec(0x25u8)));
        } else if o == 0x26u8 {
            assert(opcode_map_rules(0x26u8));
            assert(timing_spec(0x26u8) == documented_timing(lookup_spec(0x26u8)));
        } else if o == 0x27u8 {
            assert(opcode_map_rules(0x27u8));
            assert(timing_spec(0x27u8) == documented_timing(lookup_spec(0x27u8)));
        } else if o == 0x28u8 {
            assert(opcode_map_rules(0x28u8));
            assert(timing_spec(0x28u8) == documented_timing(lookup_spec(0x28u8)));
        } else if o == 0x29u8 {
            assert(opcode_map_rules(0x29u8));
            assert(timing_spec(0x29u8) == documented_timing(lookup_spec(0x29u8)));
        } else if o == 0x2Au8 {
            assert(opcode_map_rules(0x2Au8));
            assert(timing_spec(0x2Au8) == documented_timing(lookup_spec(0x2Au8)));
        } else if o == 0x2Bu8 {
            assert(opcode_map_rules(0x2Bu8));
            assert(timing_spec(0x2Bu8) == documented_timing(lookup_spec(0x2Bu8)));
        } else if o == 0x2Cu8 {
            assert(opcode_map_rules(0x2Cu8));
            assert(timing_spec(0x2Cu8) == documented_timing(lookup_spec(0x2Cu8)));
        } else if o == 0x2Du8 {
            assert(opcode_map_rules(0x2Du8));
            assert(timing_spec(0x2Du8) == documented_timing(lookup_spec(0x2Du8)));
        } else if o == 0x2Eu8 {
            assert(opcode_map_rules(0x2Eu8));
            assert(timing_spec(0x2Eu8) == documented_timing(lookup_spec(0x2Eu8)));
        } else {
            assert(o == 0x2Fu8);
            assert(opcode_map_rules(0x2Fu8));
            assert(timing_spec(0x2Fu8) == documented_timing(lookup_spec(0x2Fu8)));
        }
    }
}

proof fn lemma_opcode_map_3()
    ensures
        forall|o: u8| 0x30 <= o <= 0x3F ==> opcode_map_rules(o) && timing_spec(o) == documented_timing(
            lookup_spec(o),
        ),
{
    assert forall|o: u8| 0x30 <= o <= 0x3F implies opcode_map_rules(o) && timing_spec(o)
        == documented_timing(lookup_spec(o)) by {
        if o == 0x30u8 {
            assert(opcode_map_rules(0x30u8));
            assert(timing_spec(0x30u8) == documented_timing(lookup_spec(0x30u8)));
        } else if o == 0x31u8 {
            assert(opcode_map_rules(0x31u8));
            assert(timing_spec(0x31u8) == documented_timing(lookup_spec(0x31u8)));
        } else if o == 0x32u8 {
            assert(opcode_map_rules(0x32u8));
            assert(timing_spec(0x32u8) == documented_timing(lookup_spec(0x32u8)));
        } else if o == 0x33u8 {
            assert(opcode_map_rules(0x33u8));
            assert(timing_spec(0x33u8) == documented_timing(lookup_spec(0x33u8)));
        } else if o == 0x34u8 {
            assert(opcode_map_rules(0x34u8));
            assert(timing_spec(0x34u8) == documented_timing(lookup_spec(0x34u8)));
        } else if o == 0x35u8 {
            assert(opcode_map_rules(0x35u8));
            assert(timing_spec(0x35u8) == documented_timing(lookup_spec(0x35u8)));
        } else if o == 0x36u8 {
            assert(opcode_map_rules(0x36u8));
            assert(timing_spec(0x36u8) == documented_timing(lookup_spec(0x36u8)));
        } else if o == 0x37u8 {
            assert(opcode_map_rules(0x37u8));
            assert(timing_spec(0x37u8) == documented_timing(lookup_spec(0x37u8)));
        } else if o == 0x38u8 {
            assert(opcode_map_rules(0x38u8));
            assert(timing_spec(0x38u8) == documented_timing(lookup_spec(0x38u8)));
        } else if o == 0x39u8 {
            assert(opcode_map_rules(0x39u8));
            assert(timing_spec(0x39u8) == documented_timing(lookup_spec(0x39u8)));
        } else if o == 0x3Au8 {
            assert(opcode_map_rules(0x3Au8));
            assert(timing_spec(0x3Au8) == documented_timing(lookup_spec(0x3Au8)));
        } else if o == 0x3Bu8 {
            assert(opcode_map_rules(0x3Bu8));
            assert(timing_spec(0x3Bu8) == documented_timing(lookup_spec(0x3Bu8)));
        } else if o == 0x3Cu8 {
            assert(opcode_map_rules(0x3Cu8));
            assert(timing_spec(0x3Cu8) == documented_timing(lookup_spec(0x3Cu8)));
        } else if o == 0x3Du8 {
            assert(opcode_map_rules(0x3Du8));
            assert(timing_spec(0x3Du8) == documented_timing(lookup_spec(0x3Du8)));
        } else if o == 0x3Eu8 {
            assert(opcode_map_rules(0x3Eu8));
            assert(timing_spec(0x3Eu8) == documented_timing(lookup_spec(0x3Eu8)));
        } else {
            assert(o == 0x3Fu8);
            assert(opcode_map_rules(0x3Fu8));
            assert(timing_spec(0x3Fu8) == documented_timing(lookup_spec(0x3Fu8)));
        }
    }
}

proof fn lemma_opcode_map_4()
    ensures
        forall|o: u8| 0x40 <= o <= 0x4F ==> opcode_map_rules(o) && timing_spec(o) == documented_timing(
            lookup_spec(o),
        ),
{
    assert forall|o: u8| 0x40 <= o <= 0x4F implies opcode_map_rules(o) && timing_spec(o)
        == documented_timing(lookup_spec(o)) by {
        if o == 0x40u8 {
            assert(opcode_map_rules(0x40u8));
            assert(timing_spec(0x40u8) == documented_timing(lookup_spec(0x40u8)));
        } else if o == 0x41u8 {
            assert(opcode_map_rules(0x41u8));
            assert(timing_spec(0x41u8) == documented_timing(lookup_spec(0x41u8)));
        } else if o == 0x42u8 {
            assert(opcode_map_rules(0x42u8));
            assert(timing_spec(0x42u8) == documented_timing(lookup_spec(0x42u8)));
        } else if o == 0x43u8 {
            assert(opcode_map_rules(0x43u8));
            assert(timing_spec(0x43u8) == documented_timing(lookup_spec(0x43u8)));
        } else if o == 0x44u8 {
            assert(opcode_map_rules(0x44u8));
            assert(timing_spec(0x44u8) == documented_timing(lookup_spec(0x44u8)));
        } else if o == 0x45u8 {
            assert(opcode_map_rules(0x45u8));
            assert(timing_spec(0x45u8) == documented_timing(lookup_spec(0x45u8)));
        } else if o == 0x46u8 {
            assert(opcode_map_rules(0x46u8));
            assert(timing_spec(0x46u8) == documented_timing(lookup_spec(0x46u8)));
        } else if o == 0x47u8 {
            assert(opcode_map_rules(0x47u8));
            assert(timing_spec(0x47u8) == documented_timing(lookup_spec(0x47u8)));
        } else if o == 0x48u8 {
            assert(opcode_map_rules(0x48u8));
            assert(timing_spec(0x48u8) == documented_timing(lookup_spec(0x48u8)));
        } else if o == 0x49u8 {
            assert(opcode_map_rules(0x49u8));
            assert(timing_spec(0x49u8) == documented_timing(lookup_spec(0x49u8)));
        } else if o == 0x4Au8 {
            assert(opcode_map_rules(0x4Au8));
            assert(timing_spec(0x4Au8) == documented_timing(lookup_spec(0x4Au8)));
        } else if o == 0x4Bu8 {
            assert(opcode_map_rules(0x4Bu8));
            assert(timing_spec(0x4Bu8) == documented_timing(lookup_spec(0x4Bu8)));
        } else if o == 0x4Cu8 {
            assert(opcode_map_rules(0x4Cu8));
            assert(timing_spec(0x4Cu8) == documented_timing(lookup_spec(0x4Cu8)));
        } else if o == 0x4Du8 {
            assert(opcode_map_rules(0x4Du8));
            assert(timing_spec(0x4Du8) == documented_timing(lookup_spec(0x4Du8)));
        } else if o == 0x4Eu8 {
            assert(opcode_map_rules(0x4Eu8));
            assert(timing_spec(0x4Eu8) == documented_timing(lookup_spec(0x4Eu8)));
        } else {
            assert(o == 0x4Fu8);
            assert(opcode_map_rules(0x4Fu8));
            assert(timing_spec(0x4Fu8) == documented_timing(lookup_spec(0x4Fu8)));
        }
    }
}

proof fn lemma_opcode_map_5()
    ensures
        forall|o: u8| 0x50 <= o <= 0x5F ==> opcode_map_rules(o) && timing_spec(o) == documented_timing(
            lookup_spec(o),
        ),
{
    assert forall|o: u8| 0x50 <= o <= 0x5F implies opcode_map_rules(o) && timing_spec(o)
        == documented_timing(lookup_spec(o)) by {
        if o == 0x50u8 {
            assert(opcode_map_rules(0x50u8));
            assert(timing_spec(0x50u8) == documented_timing(lookup_spec(0x50u8)));
        } else if o == 0x51u8 {
            assert(opcode_map_rules(0x51u8));
            assert(timing_spec(0x51u8) == documented_timing(lookup_spec(0x51u8)));
        } else if o == 0x52u8 {
            assert(opcode_map_rules(0x52u8));
            assert(timing_spec(0x52u8) == documented_timing(lookup_spec(0x52u8)));
        } else if o == 0x53u8 {
            assert(opcode_map_rules(0x53u8));
            assert(timing_spec(0x53u8) == documented_timing(lookup_spec(0x53u8)));
        } else if o == 0x54u8 {
            assert(opcode_map_rules(0x54u8));
            assert(timing_spec(0x54u8) == documented_timing(lookup_spec(0x54u8)));
        } else if o == 0x55u8 {
            assert(opcode_map_rules(0x55u8));
            assert(timing_spec(0x55u8) == documented_timing(lookup_spec(0x55u8)));
        } else if o == 0x56u8 {
            assert(opcode_map_rules(0x56u8));
            assert(timing_spec(0x56u8) == documented_timing(lookup_spec(0x56u8)));
        } else if o == 0x57u8 {
            assert(opcode_map_rules(0x57u8));
            assert(timing_spec(0x57u8) == documented_timing(lookup_spec(0x57u8)));
        } else if o == 0x58u8 {
            assert(opcode_map_rules(0x58u8));
            assert(timing_spec(0x58u8) == documented_timing(lookup_spec(0x58u8)));
        } else if o == 0x59u8 {
            assert(opcode_map_rules(0x59u8));
            assert(timing_spec(0x59u8) == documented_timing(lookup_spec(0x59u8)));
        } else if o == 0x5Au8 {
            assert(opcode_map_rules(0x5Au8));
            assert(timing_spec(0x5Au8) == documented_timing(lookup_spec(0x5Au8)));
        } else if o == 0x5Bu8 {
            assert(opcode_map_rules(0x5Bu8));
            assert(timing_spec(0x5Bu8) == documented_timing(lookup_spec(0x5Bu8)));
        } else if o == 0x5Cu8 {
            assert(opcode_map_rules(0x5Cu8));
            assert(timing_spec(0x5Cu8) == documented_timing(lookup_spec(0x5Cu8)));
        } else if o == 0x5Du8 {
            assert(opcode_map_rules(0x5Du8));
            assert(timing_spec(0x5Du8) == documented_timing(lookup_spec(0x5Du8)));
        } else if o == 0x5Eu8 {
            assert(opcode_map_rules(0x5Eu8));
            assert(timing_spec(0x5Eu8) == documented_timing(lookup_spec(0x5Eu8)));
        } else {
            assert(o == 0x5Fu8);
            assert(opcode_map_rules(0x5Fu8));
            assert(timing_spec(0x5Fu8) == documented_timing(lookup_spec(0x5Fu8)));
        }
    }
}

proof fn lemma_opcode_map_6()
    ensures
        forall|o: u8| 0x60 <= o <= 0x6F ==> opcode_map_rules(o) && timing_spec(o) == documented_timing(
            lookup_spec(o),
        ),
{
    assert forall|o: u8| 0x60 <= o <= 0x6F implies opcode_map_rules(o) && timing_spec(o)
        == documented_timing(lookup_spec(o)) by {
        if o == 0x60u8 {
            assert(opcode_map_rules(0x60u8));
            assert(timing_spec(0x60u8) == documented_timing(lookup_spec(0x60u8)));
        } else if o == 0x61u8 {
            assert(opcode_map_rules(0x61u8));
            assert(timing_spec(0x61u8) == documented_timing(lookup_spec(0x61u8)));
        } else if o == 0x62u8 {
            assert(opcode_map_rules(0x62u8));
            assert(timing_spec(0x62u8) == documented_timing(lookup_spec(0x62u8)));
        } else if o == 0x63u8 {
            assert(opcode_map_rules(0x63u8));
            assert(timing_spec(0x63u8) == documented_timing(lookup_spec(0x63u8)));
        } else if o == 0x64u8 {
            assert(opcode_map_rules(0x64u8));
            assert(timing_spec(0x64u8) == documented_timing(lookup_spec(0x64u8)));
        } else if o == 0x65u8 {
            assert(opcode_map_rules(0x65u8));
            assert(timing_spec(0x65u8) == documented_timing(lookup_spec(0x65u8)));
        } else if o == 0x66u8 {
            assert(opcode_map_rules(0x66u8));
            assert(timing_spec(0x66u8) == documented_timing(lookup_spec(0x66u8)));
        } else if o == 0x67u8 {
            assert(opcode_map_rules(0x67u8));
            assert(timing_spec(0x67u8) == documented_timing(lookup_spec(0x67u8)));
        } else if o == 0x68u8 {
            assert(opcode_map_rules(0x68u8));
            assert(timing_spec(0x68u8) == documented_timing(lookup_spec(0x68u8)));
        } else if o == 0x69u8 {
            assert(opcode_map_rules(0x69u8));
            assert(timing_spec(0x69u8) == documented_timing(lookup_spec(0x69u8)));
        } else if o == 0x6Au8 {
            assert(opcode_map_rules(0x6Au8));
            assert(timing_spec(0x6Au8) == documented_timing(lookup_spec(0x6Au8)));
        } else if o == 0x6Bu8 {
            assert(opcode_map_rules(0x6Bu8));
            assert(timing_spec(0x6Bu8) == documented_timing(lookup_spec(0x6Bu8)));
        } else if o == 0x6Cu8 {
            assert(opcode_map_rules(0x6Cu8));
            assert(timing_spec(0x6Cu8) == documented_timing(lookup_spec(0x6Cu8)));
        } else if o == 0x6Du8 {
            assert(opcode_map_rules(0x6Du8));
            assert(timing_spec(0x6Du8) == documented_timing(lookup_spec(0x6Du8)));
        } else if o == 0x6Eu8 {
            assert(opcode_map_rules(0x6Eu8));
            assert(timing_spec(0x6Eu8) == documented_timing(lookup_spec(0x6Eu8)));
        } else {
            assert(o == 0x6Fu8);
            assert(opcode_map_rules(0x6Fu8));
            assert(timing_spec(0x6Fu8) == documented_timing(lookup_spec(0x6Fu8)));
        }
    }
}

proof fn lemma_opcode_map_7()
    ensures
        forall|o: u8| 0x70 <= o <= 0x7F ==> opcode_map_rules(o) && timing_spec(o) == documented_timing(
            lookup_spec(o),
        ),
{
    assert forall|o: u8| 0x70 <= o <= 0x7F implies opcode_map_rules(o) && timing_spec(o)
        == documented_timing(lookup_spec(o)) by {
        if o == 0x70u8 {
            assert(opcode_map_rules(0x70u8));
            assert(timing_spec(0x70u8) == documented_timing(lookup_spec(0x70u8)));
        } else if o == 0x71u8 {
            assert(opcode_map_rules(0x71u8));
            assert(timing_spec(0x71u8) == documented_timing(lookup_spec(0x71u8)));
        } else if o == 0x72u8 {
            assert(opcode_map_rules(0x72u8));
            assert(timing_spec(0x72u8) == documented_timing(lookup_spec(0x72u8)));
        } else if o == 0x73u8 {
            assert(opcode_map_rules(0x73u8));
            assert(timing_spec(0x73u8) == documented_timing(lookup_spec(0x73u8)));
        } else if o == 0x74u8 {
            assert(opcode_map_rules(0x74u8));
            assert(timing_spec(0x74u8) == documented_timing(lookup_spec(0x74u8)));
        } else if o == 0x75u8 {
            assert(opcode_map_rules(0x75u8));
            assert(timing_spec(0x75u8) == documented_timing(lookup_spec(0x75u8)));
        } else if o == 0x76u8 {
            assert(opcode_map_rules(0x76u8));
            assert(timing_spec(0x76u8) == documented_timing(lookup_spec(0x76u8)));
        } else if o == 0x77u8 {
            assert(opcode_map_rules(0x77u8));
            assert(timing_spec(0x77u8) == documented_timing(lookup_spec(0x77u8)));
        } else if o == 0x78u8 {
            assert(opcode_map_rules(0x78u8));
            assert(timing_spec(0x78u8) == documented_timing(lookup_spec(0x78u8)));
        } else if o == 0x79u8 {
            assert(opcode_map_rules(0x79u8));
            assert(timing_spec(0x79u8) == documented_timing(lookup_spec(0x79u8)));
        } else if o == 0x7Au8 {
            assert(opcode_map_rules(0x7Au8));
            assert(timing_spec(0x7Au8) == documented_timing(lookup_spec(0x7Au8)));
        } else if o == 0x7Bu8 {
            assert(opcode_map_rules(0x7Bu8));
            assert(timing_spec(0x7Bu8) == documented_timing(lookup_spec(0x7Bu8)));
        } else if o == 0x7Cu8 {
            assert(opcode_map_rules(0x7Cu8));
            assert(timing_spec(0x7Cu8) == documented_timing(lookup_spec(0x7Cu8)));
        } else if o == 0x7Du8 {
            assert(opcode_map_rules(0x7Du8));
            assert(timing_spec(0x7Du8) == documented_timing(lookup_spec(0x7Du8)));
        } else if o == 0x7Eu8 {
            assert(opcode_map_rules(0x7Eu8));
            assert(timing_spec(0x7Eu8) == documented_timing(lookup_spec(0x7Eu8)));
        } else {
            assert(o == 0x7Fu8);
            assert(opcode_map_rules(0x7Fu8));
            assert(timing_spec(0x7Fu8) == documented_timing(lookup_spec(0x7Fu8)));
        }
    }
}

proof fn lemma_opcode_map_8()
    ensures
        forall|o: u8| 0x80 <= o <= 0x8F ==> opcode_map_rules(o) && timing_spec(o) == documented_timing(
            lookup_spec(o),
        ),
{
    assert forall|o: u8| 0x80 <= o <= 0x8F implies opcode_map_rules(o) && timing_spec(o)
        == documented_timing(lookup_spec(o)) by {
        if o == 0x80u8 {
            assert(opcode_map_rules(0x80u8));
            assert(timing_spec(0x80u8) == documented_timing(lookup_spec(0x80u8)));
        } else if o == 0x81u8 {
            assert(opcode_map_rules(0x81u8));
            assert(timing_spec(0x81u8) == documented_timing(lookup_spec(0x81u8)));
        } else if o == 0x82u8 {
            assert(opcode_map_rules(0x82u8));
            assert(timing_spec(0x82u8) == documented_timing(lookup_spec(0x82u8)));
        } else if o == 0x83u8 {
            assert(opcode_map_rules(0x83u8));
            assert(timing_spec(0x83u8) == documented_timing(lookup_spec(0x83u8)));
        } else if o == 0x84u8 {
            assert(opcode_map_rules(0x84u8));
            assert(timing_spec(0x84u8) == documented_timing(lookup_spec(0x84u8)));
        } else if o == 0x85u8 {
            assert(opcode_map_rules(0x85u8));
            assert(timing_spec(0x85u8) == documented_timing(lookup_spec(0x85u8)));
        } else if o == 0x86u8 {
            assert(opcode_map_rules(0x86u8));
            assert(timing_spec(0x86u8) == documented_timing(lookup_spec(0x86u8)));
        } else if o == 0x87u8 {
            assert(opcode_map_rules(0x87u8));
            assert(timing_spec(0x87u8) == documented_timing(lookup_spec(0x87u8)));
        } else if o == 0x88u8 {
            assert(opcode_map_rules(0x88u8));
            assert(timing_spec(0x88u8) == documented_timing(lookup_spec(0x88u8)));
        } else if o == 0x89u8 {
            assert(opcode_map_rules(0x89u8));
            assert(timing_spec(0x89u8) == documented_timing(lookup_spec(0x89u8)));
        } else if o == 0x8Au8 {
            assert(opcode_map_rules(0x8Au8));
            assert(timing_spec(0x8Au8) == documented_timing(lookup_spec(0x8Au8)));
        } else if o == 0x8Bu8 {
            assert(opcode_map_rules(0x8Bu8));
            assert(timing_spec(0x8Bu8) == documented_timing(lookup_spec(0x8Bu8)));
        } else if o == 0x8Cu8 {
            assert(opcode_map_rules(0x8Cu8));
            assert(timing_spec(0x8Cu8) == documented_timing(lookup_spec(0x8Cu8)));
        } else if o == 0x8Du8 {
            assert(opcode_map_rules(0x8Du8));
            assert(timing_spec(0x8Du8) == documented_timing(lookup_spec(0x8Du8)));
        } else if o == 0x8Eu8 {
            assert(opcode_map_rules(0x8Eu8));
            assert(timing_spec(0x8Eu8) == documented_timing(lookup_spec(0x8Eu8)));
        } else {
            assert(o == 0x8Fu8);
            assert(opcode_map_rules(0x8Fu8));
            assert(timing_spec(0x8Fu8) == documented_timing(lookup_spec(0x8Fu8)));
        }
    }
}

proof fn lemma_opcode_map_9()
    ensures
        forall|o: u8| 0x90 <= o <= 0x9F ==> opcode_map_rules(o) && timing_spec(o) == documented_timing(
            lookup_spec(o),
        ),
{
    assert forall|o: u8| 0x90 <= o <= 0x9F implies opcode_map_rules(o) && timing_spec(o)
        == documented_timing(lookup_spec(o)) by {
        if o == 0x90u8 {
            assert(opcode_map_rules(0x90u8));
            assert(timing_spec(0x90u8) == documented_timing(lookup_spec(0x90u8)));
        } else if o == 0x91u8 {
            assert(opcode_map_rules(0x91u8));
            assert(timing_spec(0x91u8) == documented_timing(lookup_spec(0x91u8)));
        } else if o == 0x92u8 {
            assert(opcode_map_rules(0x92u8));
            assert(timing_spec(0x92u8) == documented_timing(lookup_spec(0x92u8)));
        } else if o == 0x93u8 {
            assert(opcode_map_rules(0x93u8));
            assert(timing_spec(0x93u8) == documented_timing(lookup_spec(0x93u8)));
        } else if o == 0x94u8 {
            assert(opcode_map_rules(0x94u8));
            assert(timing_spec(0x94u8) == documented_timing(lookup_spec(0x94u8)));
        } else if o == 0x95u8 {
            assert(opcode_map_rules(0x95u8));
            assert(timing_spec(0x95u8) == documented_timing(lookup_spec(0x95u8)));
        } else if o == 0x96u8 {
            assert(opcode_map_rules(0x96u8));
            assert(timing_spec(0x96u8) == documented_timing(lookup_spec(0x96u8)));
        } else if o == 0x97u8 {
            assert(opcode_map_rules(0x97u8));
            assert(timing_spec(0x97u8) == documented_timing(lookup_spec(0x97u8)));
        } else if o == 0x98u8 {
            assert(opcode_map_rules(0x98u8));
            assert(timing_spec(0x98u8) == documented_timing(lookup_spec(0x98u8)));
        } else if o == 0x99u8 {
            assert(opcode_map_rules(0x99u8));
            assert(timing_spec(0x99u8) == documented_timing(lookup_spec(0x99u8)));
        } else if o == 0x9Au8 {
            assert(opcode_map_rules(0x9Au8));
            assert(timing_spec(0x9Au8) == documented_timing(lookup_spec(0x9Au8)));
        } else if o == 0x9Bu8 {
            assert(opcode_map_rules(0x9Bu8));
            assert(timing_spec(0x9Bu8) == documented_timing(lookup_spec(0x9Bu8)));
        } else if o == 0x9Cu8 {
            assert(opcode_map_rules(0x9Cu8));
            assert(timing_spec(0x9Cu8) == documented_timing(lookup_spec(0x9Cu8)));
        } else if o == 0x9Du8 {
            assert(opcode_map_rules(0x9Du8));
            assert(timing_spec(0x9Du8) == documented_timing(lookup_spec(0x9Du8)));
        } else if o == 0x9Eu8 {
            assert(opcode_map_rules(0x9Eu8));
            assert(timing_spec(0x9Eu8) == documented_timing(lookup_spec(0x9Eu8)));
        } else {
            assert(o == 0x9Fu8);
            assert(opcode_map_rules(0x9Fu8));
            assert(timing_spec(0x9Fu8) == documented_timing(lookup_spec(0x9Fu8)));
        }
    }
}

proof fn lemma_opcode_map_A()
    ensures
        forall|o: u8| 0xA0 <= o <= 0xAF ==> opcode_map_rules(o) && timing_spec(o) == documented_timing(
            lookup_spec(o),
        ),
{
    assert forall|o: u8| 0xA0 <= o <= 0xAF implies opcode_map_rules(o) && timing_spec(o)
        == documented_timing(lookup_spec(o)) by {
        if o == 0xA0u8 {
            assert(opcode_map_rules(0xA0u8));
            assert(timing_spec(0xA0u8) == documented_timing(lookup_spec(0xA0u8)));
        } else if o == 0xA1u8 {
            assert(opcode_map_rules(0xA1u8));
            assert(timing_spec(0xA1u8) == documented_timing(lookup_spec(0xA1u8)));
        } else if o == 0xA2u8 {
            assert(opcode_map_rules(0xA2u8));
            assert(timing_spec(0xA2u8) == documented_timing(lookup_spec(0xA2u8)));
        } else if o == 0xA3u8 {
            assert(opcode_map_rules(0xA3u8));
            assert(timing_spec(0xA3u8) == documented_timing(lookup_spec(0xA3u8)));
        } else if o == 0xA4u8 {
            assert(opcode_map_rules(0xA4u8));
            assert(timing_spec(0xA4u8) == documented_timing(lookup_spec(0xA4u8)));
        } else if o == 0xA5u8 {
            assert(opcode_map_rules(0xA5u8));
            assert(timing_spec(0xA5u8) == documented_timing(lookup_spec(0xA5u8)));
        } else if o == 0xA6u8 {
            assert(opcode_map_rules(0xA6u8));
            assert(timing_spec(0xA6u8) == documented_timing(lookup_spec(0xA6u8)));
        } else if o == 0xA7u8 {
            assert(opcode_map_rules(0xA7u8));
            assert(timing_spec(0xA7u8) == documented_timing(lookup_spec(0xA7u8)));
        } else if o == 0xA8u8 {
            assert(opcode_map_rules(0xA8u8));
            assert(timing_spec(0xA8u8) == documented_timing(lookup_spec(0xA8u8)));
        } else if o == 0xA9u8 {
            assert(opcode_map_rules(0xA9u8));
            assert(timing_spec(0xA9u8) == documented_timing(lookup_spec(0xA9u8)));
        } else if o == 0xAAu8 {
            assert(opcode_map_rules(0xAAu8));
            assert(timing_spec(0xAAu8) == documented_timing(lookup_spec(0xAAu8)));
        } else if o == 0xABu8 {
            assert(opcode_map_rules(0xABu8));
            assert(timing_spec(0xABu8) == documented_timing(lookup_spec(0xABu8)));
        } else if o == 0xACu8 {
            assert(opcode_map_rules(0xACu8));
            assert(timing_spec(0xACu8) == documented_timing(lookup_spec(0xACu8)));
        } else if o == 0xADu8 {
            assert(opcode_map_rules(0xADu8));
            assert(timing_spec(0xADu8) == documented_timing(lookup_spec(0xADu8)));
        } else if o == 0xAEu8 {
            assert(opcode_map_rules(0xAEu8));
            assert(timing_spec(0xAEu8) == documented_timing(lookup_spec(0xAEu8)));
        } else {
            assert(o == 0xAFu8);
            assert(opcode_map_rules(0xAFu8));
            assert(timing_spec(0xAFu8) == documented_timing(lookup_spec(0xAFu8)));
        }
    }
}

proof fn lemma_opcode_map_B()
    ensures
        forall|o: u8| 0xB0 <= o <= 0xBF ==> opcode_map_rules(o) && timing_spec(o) == documented_timing(
            lookup_spec(o),
        ),
{
    assert forall|o: u8| 0xB0 <= o <= 0xBF implies opcode_map_rules(o) && timing_spec(o)
        == documented_timing(lookup_spec(o)) by {
        if o == 0xB0u8 {
            assert(opcode_map_rules(0xB0u8));
            assert(timing_spec(0xB0u8) == documented_timing(lookup_spec(0xB0u8)));
        } else if o == 0xB1u8 {
            assert(opcode_map_rules(0xB1u8));
            assert(timing_spec(0xB1u8) == documented_timing(lookup_spec(0xB1u8)));
        } else if o == 0xB2u8 {
            assert(opcode_map_rules(0xB2u8));
            assert(timing_spec(0xB2u8) == documented_timing(lookup_spec(0xB2u8)));
        } else if o == 0xB3u8 {
            assert(opcode_map_rules(0xB3u8));
            assert(timing_spec(0xB3u8) == documented_timing(lookup_spec(0xB3u8)));
        } else if o == 0xB4u8 {
            assert(opcode_map_rules(0xB4u8));
            assert(timing_spec(0xB4u8) == documented_timing(lookup_spec(0xB4u8)));
        } else if o == 0xB5u8 {
            assert(opcode_map_rules(0xB5u8));
            assert(timing_spec(0xB5u8) == documented_timing(lookup_spec(0xB5u8)));
        } else if o == 0xB6u8 {
            assert(opcode_map_rules(0xB6u8));
            assert(timing_spec(0xB6u8) == documented_timing(lookup_spec(0xB6u8)));
        } else if o == 0xB7u8 {
            assert(opcode_map_rules(0xB7u8));
            assert(timing_spec(0xB7u8) == documented_timing(lookup_spec(0xB7u8)));
        } else if o == 0xB8u8 {
            assert(opcode_map_rules(0xB8u8));
            assert(timing_spec(0xB8u8) == documented_timing(lookup_spec(0xB8u8)));
        } else if o == 0xB9u8 {
            assert(opcode_map_rules(0xB9u8));
            assert(timing_spec(0xB9u8) == documented_timing(lookup_spec(0xB9u8)));
        } else if o == 0xBAu8 {
            assert(opcode_map_rules(0xBAu8));
            assert(timing_spec(0xBAu8) == documented_timing(lookup_spec(0xBAu8)));
        } else if o == 0xBBu8 {
            assert(opcode_map_rules(0xBBu8));
            assert(timing_spec(0xBBu8) == documented_timing(lookup_spec(0xBBu8)));
        } else if o == 0xBCu8 {
            assert(opcode_map_rules(0xBCu8));
            assert(timing_spec(0xBCu8) == documented_timing(lookup_spec(0xBCu8)));
        } else if o == 0xBDu8 {
            assert(opcode_map_rules(0xBDu8));
            assert(timing_spec(0xBDu8) == documented_timing(lookup_spec(0xBDu8)));
        } else if o == 0xBEu8 {
            assert(opcode_map_rules(0xBEu8));
            assert(timing_spec(0xBEu8) == documented_timing(lookup_spec(0xBEu8)));
        } else {
            assert(o == 0xBFu8);
            assert(opcode_map_rules(0xBFu8));
            assert(timing_spec(0xBFu8) == documented_timing(lookup_spec(0xBFu8)));
        }
    }
}

proof fn lemma_opcode_map_C()
    ensures
        forall|o: u8| 0xC0 <= o <= 0xCF ==> opcode_map_rules(o) && timing_spec(o) == documented_timing(
            lookup_spec(o),
        ),
{
    assert forall|o: u8| 0xC0 <= o <= 0xCF implies opcode_map_rules(o) && timing_spec(o)
        == documented_timing(lookup_spec(o)) by {
        if o == 0xC0u8 {
            assert(opcode_map_rules(0xC0u8));
            assert(timing_spec(0xC0u8) == documented_timing(lookup_spec(0xC0u8)));
        } else if o == 0xC1u8 {
            assert(opcode_map_rules(0xC1u8));
            assert(timing_spec(0xC1u8) == documented_timing(lookup_spec(0xC1u8)));
        } else if o == 0xC2u8 {
            assert(opcode_map_rules(0xC2u8));
            assert(timing_spec(0xC2u8) == documented_timing(lookup_spec(0xC2u8)));
        } else if o == 0xC3u8 {
            assert(opcode_map_rules(0xC3u8));
            assert(timing_spec(0xC3u8) == documented_timing(lookup_spec(0xC3u8)));
        } else if o == 0xC4u8 {
            assert(opcode_map_rules(0xC4u8));
            assert(timing_spec(0xC4u8) == documented_timing(lookup_spec(0xC4u8)));
        } else if o == 0xC5u8 {
            assert(opcode_map_rules(0xC5u8));
            assert(timing_spec(0xC5u8) == documented_timing(lookup_spec(0xC5u8)));
        } else if o == 0xC6u8 {
            assert(opcode_map_rules(0xC6u8));
            assert(timing_spec(0xC6u8) == documented_timing(lookup_spec(0xC6u8)));
        } else if o == 0xC7u8 {
            assert(opcode_map_rules(0xC7u8));
            assert(timing_spec(0xC7u8) == documented_timing(lookup_spec(0xC7u8)));
        } else if o == 0xC8u8 {
            assert(opcode_map_rules(0xC8u8));
            assert(timing_spec(0xC8u8) == documented_timing(lookup_spec(0xC8u8)));
        } else if o == 0xC9u8 {
            assert(opcode_map_rules(0xC9u8));
            assert(timing_spec(0xC9u8) == documented_timing(lookup_spec(0xC9u8)));
        } else if o == 0xCAu8 {
            assert(opcode_map_rules(0xCAu8));
            assert(timing_spec(0xCAu8) == documented_timing(lookup_spec(0xCAu8)));
        } else if o == 0xCBu8 {
            assert(opcode_map_rules(0xCBu8));
            assert(timing_spec(0xCBu8) == documented_timing(lookup_spec(0xCBu8)));
        } else if o == 0xCCu8 {
            assert(opcode_map_rules(0xCCu8));
            assert(timing_spec(0xCCu8) == documented_timing(lookup_spec(0xCCu8)));
        } else if o == 0xCDu8 {
            assert(opcode_map_rules(0xCDu8));
            assert(timing_spec(0xCDu8) == documented_timing(lookup_spec(0xCDu8)));
        } else if o == 0xCEu8 {
            assert(opcode_map_rules(0xCEu8));
            assert(timing_spec(0xCEu8) == documented_timing(lookup_spec(0xCEu8)));
        } else {
            assert(o == 0xCFu8);
            assert(opcode_map_rules(0xCFu8));
            assert(timing_spec(0xCFu8) == documented_timing(lookup_spec(0xCFu8)));
        }
    }
}

proof fn lemma_opcode_map_D()
    ensures
        forall|o: u8| 0xD0 <= o <= 0xDF ==> opcode_map_rules(o) && timing_spec(o) == documented_timing(
            lookup_spec(o),
        ),
{
    assert forall|o: u8| 0xD0 <= o <= 0xDF implies opcode_map_rules(o) && timing_spec(o)
        == documented_timing(lookup_spec(o)) by {
        if o == 0xD0u8 {
            assert(opcode_map_rules(0xD0u8));
            assert(timing_spec(0xD0u8) == documented_timing(lookup_spec(0xD0u8)));
        } else if o == 0xD1u8 {
            assert(opcode_map_rules(0xD1u8));
            assert(timing_spec(0xD1u8) == documented_timing(lookup_spec(0xD1u8)));
        } else if o == 0xD2u8 {
            assert(opcode_map_rules(0xD2u8));
            assert(timing_spec(0xD2u8) == documented_timing(lookup_spec(0xD2u8)));
        } else if o == 0xD3u8 {
            assert(opcode_map_rules(0xD3u8));
            assert(timing_spec(0xD3u8) == documented_timing(lookup_spec(0xD3u8)));
        } else if o == 0xD4u8 {
            assert(opcode_map_rules(0xD4u8));
            assert(timing_spec(0xD4u8) == documented_timing(lookup_spec(0xD4u8)));
        } else if o == 0xD5u8 {
            assert(opcode_map_rules(0xD5u8));
            assert(timing_spec(0xD5u8) == documented_timing(lookup_spec(0xD5u8)));
        } else if o == 0xD6u8 {
            assert(opcode_map_rules(0xD6u8));
            assert(timing_spec(0xD6u8) == documented_timing(lookup_spec(0xD6u8)));
        } else if o == 0xD7u8 {
            assert(opcode_map_rules(0xD7u8));
            assert(timing_spec(0xD7u8) == documented_timing(lookup_spec(0xD7u8)));
        } else if o == 0xD8u8 {
            assert(opcode_map_rules(0xD8u8));
            assert(timing_spec(0xD8u8) == documented_timing(lookup_spec(0xD8u8)));
        } else if o == 0xD9u8 {
            assert(opcode_map_rules(0xD9u8));
            assert(timing_spec(0xD9u8) == documented_timing(lookup_spec(0xD9u8)));
        } else if o == 0xDAu8 {
            assert(opcode_map_rules(0xDAu8));
            assert(timing_spec(0xDAu8) == documented_timing(lookup_spec(0xDAu8)));
        } else if o == 0xDBu8 {
            assert(opcode_map_rules(0xDBu8));
            assert(timing_spec(0xDBu8) == documented_timing(lookup_spec(0xDBu8)));
        } else if o == 0xDCu8 {
            assert(opcode_map_rules(0xDCu8));
            assert(timing_spec(0xDCu8) == documented_timing(lookup_spec(0xDCu8)));
        } else if o == 0xDDu8 {
            assert(opcode_map_rules(0xDDu8));
            assert(timing_spec(0xDDu8) == documented_timing(lookup_spec(0xDDu8)));
        } else if o == 0xDEu8 {
            assert(opcode_map_rules(0xDEu8));
            assert(timing_spec(0xDEu8) == documented_timing(lookup_spec(0xDEu8)));
        } else {
            assert(o == 0xDFu8);
            assert(opcode_map_rules(0xDFu8));
            assert(timing_spec(0xDFu8) == documented_timing(lookup_spec(0xDFu8)));
        }
    }
}

proof fn lemma_opcode_map_E()
    ensures
        forall|o: u8| 0xE0 <= o <= 0xEF ==> opcode_map_rules(o) && timing_spec(o) == documented_timing(
            lookup_spec(o),
        ),
{
    assert forall|o: u8| 0xE0 <= o <= 0xEF implies opcode_map_rules(o) && timing_spec(o)
        == documented_timing(lookup_spec(o)) by {
        if o == 0xE0u8 {
            assert(opcode_map_rules(0xE0u8));
            assert(timing_spec(0xE0u8) == documented_timing(lookup_spec(0xE0u8)));
        } else if o == 0xE1u8 {
            assert(opcode_map_rules(0xE1u8));
            assert(timing_spec(0xE1u8) == documented_timing(lookup_spec(0xE1u8)));
        } else if o == 0xE2u8 {
            assert(opcode_map_rules(0xE2u8));
            assert(timing_spec(0xE2u8) == documented_timing(lookup_spec(0xE2u8)));
        } else if o == 0xE3u8 {
            assert(opcode_map_rules(0xE3u8));
            assert(timing_spec(0xE3u8) == documented_timing(lookup_spec(0xE3u8)));
        } else if o == 0xE4u8 {
            assert(opcode_map_rules(0xE4u8));
            assert(timing_spec(0xE4u8) == documented_timing(lookup_spec(0xE4u8)));
        } else if o == 0xE5u8 {
            assert(opcode_map_rules(0xE5u8));
            assert(timing_spec(0xE5u8) == documented_timing(lookup_spec(0xE5u8)));
        } else if o == 0xE6u8 {
            assert(opcode_map_rules(0xE6u8));
            assert(timing_spec(0xE6u8) == documented_timing(lookup_spec(0xE6u8)));
        } else if o == 0xE7u8 {
            assert(opcode_map_rules(0xE7u8));
            assert(timing_spec(0xE7u8) == documented_timing(lookup_spec(0xE7u8)));
        } else if o == 0xE8u8 {
            assert(opcode_map_rules(0xE8u8));
            assert(timing_spec(0xE8u8) == documented_timing(lookup_spec(0xE8u8)));
        } else if o == 0xE9u8 {
            assert(opcode_map_rules(0xE9u8));
            assert(timing_spec(0xE9u8) == documented_timing(lookup_spec(0xE9u8)));
        } else if o == 0xEAu8 {
            assert(opcode_map_rules(0xEAu8));
            assert(timing_spec(0xEAu8) == documented_timing(lookup_spec(0xEAu8)));
        } else if o == 0xEBu8 {
            assert(opcode_map_rules(0xEBu8));
            assert(timing_spec(0xEBu8) == documented_timing(lookup_spec(0xEBu8)));
        } else if o == 0xECu8 {
            assert(opcode_map_rules(0xECu8));
            assert(timing_spec(0xECu8) == documented_timing(lookup_spec(0xECu8)));
        } else if o == 0xEDu8 {
            assert(opcode_map_rules(0xEDu8));
            assert(timing_spec(0xEDu8) == documented_timing(lookup_spec(0xEDu8)));
        } else if o == 0xEEu8 {
            assert(opcode_map_rules(0xEEu8));
            assert(timing_spec(0xEEu8) == documented_timing(lookup_spec(0xEEu8)));
        } else {
            assert(o == 0xEFu8);
            assert(opcode_map_rules(0xEFu8));
            assert(timing_spec(0xEFu8) == documented_timing(lookup_spec(0xEFu8)));
        }
    }
}

proof fn lemma_opcode_map_F()
    ensures
        forall|o: u8| 0xF0 <= o <= 0xFF ==> opcode_map_rules(o) && timing_spec(o) == documented_timing(
            lookup_spec(o),
        ),
{
    assert forall|o: u8| 0xF0 <= o <= 0xFF implies opcode_map_rules(o) && timing_spec(o)
        == documented_timing(lookup_spec(o)) by {
        if o == 0xF0u8 {
            assert(opcode_map_rules(0xF0u8));
            assert(timing_spec(0xF0u8) == documented_timing(lookup_spec(0xF0u8)));
        } else if o == 0xF1u8 {
            assert(opcode_map_rules(0xF1u8));
            assert(timing_spec(0xF1u8) == documented_timing(lookup_spec(0xF1u8)));
        } else if o == 0xF2u8 {
            assert(opcode_map_rules(0xF2u8));
            assert(timing_spec(0xF2u8) == documented_timing(lookup_spec(0xF2u8)));
        } else if o == 0xF3u8 {
            assert(opcode_map_rules(0xF3u8));
            assert(timing_spec(0xF3u8) == documented_timing(lookup_spec(0xF3u8)));
        } else if o == 0xF4u8 {
            assert(opcode_map_rules(0xF4u8));
            assert(timing_spec(0xF4u8) == documented_timing(lookup_spec(0xF4u8)));
        } else if o == 0xF5u8 {
            assert(opcode_map_rules(0xF5u8));
            assert(timing_spec(0xF5u8) == documented_timing(lookup_spec(0xF5u8)));
        } else if o == 0xF6u8 {
            assert(opcode_map_rules(0xF6u8));
            assert(timing_spec(0xF6u8) == documented_timing(lookup_spec(0xF6u8)));
        } else if o == 0xF7u8 {
            assert(opcode_map_rules(0xF7u8));
            assert(timing_spec(0xF7u8) == documented_timing(lookup_spec(0xF7u8)));
        } else if o == 0xF8u8 {
            assert(opcode_map_rules(0xF8u8));
            assert(timing_spec(0xF8u8) == documented_timing(lookup_spec(0xF8u8)));
        } else if o == 0xF9u8 {
            assert(opcode_map_rules(0xF9u8));
            assert(timing_spec(0xF9u8) == documented_timing(lookup_spec(0xF9u8)));
        } else if o == 0xFAu8 {
            assert(opcode_map_rules(0xFAu8));
            assert(timing_spec(0xFAu8) == documented_timing(lookup_spec(0xFAu8)));
        } else if o == 0xFBu8 {
            assert(opcode_map_rules(0xFBu8));
            assert(timing_spec(0xFBu8) == documented_timing(lookup_spec(0xFBu8)));
        } else if o == 0xFCu8 {
            assert(opcode_map_rules(0xFCu8));
            assert(timing_spec(0xFCu8) == documented_timing(lookup_spec(0xFCu8)));
        } else if o == 0xFDu8 {
            assert(opcode_map_rules(0xFDu8));
            assert(timing_spec(0xFDu8) == documented_timing(lookup_spec(0xFDu8)));
        } else if o == 0xFEu8 {
            assert(opcode_map_rules(0xFEu8));
            assert(timing_spec(0xFEu8) == documented_timing(lookup_spec(0xFEu8)));
        } else {
            assert(o == 0xFFu8);
            assert(opcode_map_rules(0xFFu8));
            assert(timing_spec(0xFFu8) == documented_timing(lookup_spec(0xFFu8)));
        }
    }
}

/// The decoding table follows the regular layout of the 6502 opcode map: every
/// opcode decodes as its group, operation bits and addressing column prescribe,
/// and the few opcodes that break the pattern decode as documented (for
/// instance, `$FD` is SBC with absolute X-indexed addressing, and every opcode of
/// the form `111bbb01`, with `$EB`, decodes to SBC). The cycle table gives each
/// opcode the count that its decoded instruction's kind and addressing mode
/// call for.
pub proof fn lemma_opcode_map(o: u8)
    ensures
        opcode_map_rules(o),
        timing_spec(o) == documented_timing(lookup_spec(o)),
{
    lemma_opcode_map_0();
    lemma_opcode_map_1();
    lemma_opcode_map_2();
    lemma_opcode_map_3();
    lemma_opcode_map_4();
    lemma_opcode_map_5();
    lemma_opcode_map_6();
    lemma_opcode_map_7();
    lemma_opcode_map_8();
    lemma_opcode_map_9();
    lemma_opcode_map_A();
    lemma_opcode_map_B();
    lemma_opcode_map_C();
    lemma_opcode_map_D();
    lemma_opcode_map_E();
    lemma_opcode_map_F();
}

} // verus!
