use vstd::prelude::*;

pub mod arith;
pub mod bra;
pub mod ctrl;
pub mod effects;
pub mod flags;
pub mod inc;
pub mod kil;
pub mod logic;
pub mod nop;
pub mod shift;
pub mod stack;
pub mod trans;
pub mod load;

use crate::cpu::{rd, word, wr, Cpu, CpuBus};
use crate::status::Status;

verus! {

/// The instruction mnemonics of the 6502, documented and undocumented.
#[allow(clippy::upper_case_acronyms)]
#[derive(Clone, Copy, PartialEq, Eq, Structural, Debug, Hash)]
pub enum Mnemonic {
    // Load/Store
    LAS,
    LAX,
    LDA,
    LDX,
    LDY,
    SAX,
    SHA,
    SHX,
    SHY,
    STA,
    STX,
    STY,
    // Transfer
    SHS,
    TAX,
    TAY,
    TSX,
    TXA,
    TXS,
    TYA,
    // Stack
    PHA,
    PHP,
    PLA,
    PLP,
    // Shift
    ASL,
    LSR,
    ROL,
    ROR,
    // Logic
    AND,
    BIT,
    EOR,
    ORA,
    // Arithmetic
    ADC,
    ANC,
    ARR,
    ASR,
    CMP,
    CPX,
    CPY,
    DCP,
    ISC,
    RLA,
    RRA,
    SBC,
    SBX,
    SLO,
    SRE,
    XAA,
    // Arithmetic: Inc/Dec
    DEC,
    DEX,
    DEY,
    INC,
    INX,
    INY,
    // Control Flow
    BRK,
    JMP,
    JSR,
    RTI,
    RTS,
    // Control Flow: Branch
    BCC,
    BCS,
    BEQ,
    BMI,
    BNE,
    BPL,
    BVC,
    BVS,
    // Flags
    CLC,
    CLD,
    CLI,
    CLV,
    SEC,
    SED,
    SEI,
    // KIL
    JAM,
    // NOP
    NOP,
}

impl Mnemonic {
    /// Longest execution sequence (in cycles) after the addressing cycles.
    pub open spec fn exec_len_spec(self) -> u8 {
        match self {
            // Load / Store
            Mnemonic::LAS
            | Mnemonic::LAX
            | Mnemonic::LDA
            | Mnemonic::LDX
            | Mnemonic::LDY
            | Mnemonic::SAX
            | Mnemonic::SHA
            | Mnemonic::SHX
            | Mnemonic::SHY
            | Mnemonic::STA
            | Mnemonic::STX
            | Mnemonic::STY => 1,
            // Transfer
            Mnemonic::SHS
            | Mnemonic::TAX
            | Mnemonic::TAY
            | Mnemonic::TSX
            | Mnemonic::TXA
            | Mnemonic::TXS
            | Mnemonic::TYA => 1,
            // Stack
            Mnemonic::PHA | Mnemonic::PHP => 2,
            Mnemonic::PLA | Mnemonic::PLP => 3,
            // Shift / Rotate
            Mnemonic::ASL | Mnemonic::LSR | Mnemonic::ROL | Mnemonic::ROR => 3,
            // Logical
            Mnemonic::AND | Mnemonic::BIT | Mnemonic::EOR | Mnemonic::ORA => 1,
            // Arithmetic
            Mnemonic::ADC
            | Mnemonic::ANC
            | Mnemonic::ARR
            | Mnemonic::ASR
            | Mnemonic::CMP
            | Mnemonic::CPX
            | Mnemonic::CPY
            | Mnemonic::SBC
            | Mnemonic::SBX
            | Mnemonic::XAA => 1,
            Mnemonic::DCP
            | Mnemonic::ISC
            | Mnemonic::RLA
            | Mnemonic::RRA
            | Mnemonic::SLO
            | Mnemonic::SRE => 3,
            // Increment / Decrement
            Mnemonic::DEC | Mnemonic::INC => 3,
            Mnemonic::DEX | Mnemonic::DEY | Mnemonic::INX | Mnemonic::INY => 1,
            // Control flow
            Mnemonic::BRK => 6,
            Mnemonic::JMP => 0,
            Mnemonic::JSR => 5,
            Mnemonic::RTI => 5,
            Mnemonic::RTS => 5,
            // Branches
            Mnemonic::BCC
            | Mnemonic::BCS
            | Mnemonic::BEQ
            | Mnemonic::BMI
            | Mnemonic::BNE
            | Mnemonic::BPL
            | Mnemonic::BVC
            | Mnemonic::BVS => 3,
            // Status flags
            Mnemonic::CLC
            | Mnemonic::CLD
            | Mnemonic::CLI
            | Mnemonic::CLV
            | Mnemonic::SEC
            | Mnemonic::SED
            | Mnemonic::SEI => 1,
            // Halt
            Mnemonic::JAM => 1,
            // No operation
            Mnemonic::NOP => 1,
        }
    }

    /// Longest execution sequence (in cycles) after the addressing cycles.
    pub fn exec_len(&self) -> (r: u8)
        ensures
            r == self.exec_len_spec(),
    {
        match self {
            // Load / Store
            Mnemonic::LAS
            | Mnemonic::LAX
            | Mnemonic::LDA
            | Mnemonic::LDX
            | Mnemonic::LDY
            | Mnemonic::SAX
            | Mnemonic::SHA
            | Mnemonic::SHX
            | Mnemonic::SHY
            | Mnemonic::STA
            | Mnemonic::STX
            | Mnemonic::STY => 1,
            // Transfer
            Mnemonic::SHS
            | Mnemonic::TAX
            | Mnemonic::TAY
            | Mnemonic::TSX
            | Mnemonic::TXA
            | Mnemonic::TXS
            | Mnemonic::TYA => 1,
            // Stack
            Mnemonic::PHA | Mnemonic::PHP => 2,
            Mnemonic::PLA | Mnemonic::PLP => 3,
            // Shift / Rotate
            Mnemonic::ASL | Mnemonic::LSR | Mnemonic::ROL | Mnemonic::ROR => 3,
            // Logical
            Mnemonic::AND | Mnemonic::BIT | Mnemonic::EOR | Mnemonic::ORA => 1,
            // Arithmetic
            Mnemonic::ADC
            | Mnemonic::ANC
            | Mnemonic::ARR
            | Mnemonic::ASR
            | Mnemonic::CMP
            | Mnemonic::CPX
            | Mnemonic::CPY
            | Mnemonic::SBC
            | Mnemonic::SBX
            | Mnemonic::XAA => 1,
            Mnemonic::DCP
            | Mnemonic::ISC
            | Mnemonic::RLA
            | Mnemonic::RRA
            | Mnemonic::SLO
            | Mnemonic::SRE => 3,
            // Increment / Decrement
            Mnemonic::DEC | Mnemonic::INC => 3,
            Mnemonic::DEX | Mnemonic::DEY | Mnemonic::INX | Mnemonic::INY => 1,
            // Control flow
            Mnemonic::BRK => 6,
            Mnemonic::JMP => 0,
            Mnemonic::JSR => 5,
            Mnemonic::RTI => 5,
            Mnemonic::RTS => 5,
            // Branches
            Mnemonic::BCC
            | Mnemonic::BCS
            | Mnemonic::BEQ
            | Mnemonic::BMI
            | Mnemonic::BNE
            | Mnemonic::BPL
            | Mnemonic::BVC
            | Mnemonic::BVS => 3,
            // Status flags
            Mnemonic::CLC
            | Mnemonic::CLD
            | Mnemonic::CLI
            | Mnemonic::CLV
            | Mnemonic::SEC
            | Mnemonic::SED
            | Mnemonic::SEI => 1,
            // Halt
            Mnemonic::JAM => 1,
            // No operation
            Mnemonic::NOP => 1,
        }
    }

    /// What one execute cycle `step` of this mnemonic does to the CPU and memory.
    pub open spec fn step_spec(self, c: Cpu, m: Seq<u8>, step: u8) -> (Cpu, Seq<u8>) {
        match self {
            Mnemonic::LAS => load::las_step(c, m),
            Mnemonic::LAX => load::lax_step(c, m),
            Mnemonic::LDA => load::lda_step(c, m),
            Mnemonic::LDX => load::ldx_step(c, m),
            Mnemonic::LDY => load::ldy_step(c, m),
            Mnemonic::SAX => load::sax_step(c, m),
            Mnemonic::SHA => load::sha_step(c, m),
            Mnemonic::SHX => load::shx_step(c, m),
            Mnemonic::SHY => load::shy_step(c, m),
            Mnemonic::STA => load::sta_step(c, m),
            Mnemonic::STX => load::stx_step(c, m),
            Mnemonic::STY => load::sty_step(c, m),
            Mnemonic::SHS => trans::shs_step(c, m),
            Mnemonic::TAX => (Cpu { x: c.a, p: c.p.with_zn(c.a), ..c }, m),
            Mnemonic::TAY => (Cpu { y: c.a, p: c.p.with_zn(c.a), ..c }, m),
            Mnemonic::TSX => (Cpu { x: c.s, p: c.p.with_zn(c.s), ..c }, m),
            Mnemonic::TXA => (Cpu { a: c.x, p: c.p.with_zn(c.x), ..c }, m),
            Mnemonic::TXS => (Cpu { s: c.x, ..c }, m),
            Mnemonic::TYA => (Cpu { a: c.y, p: c.p.with_zn(c.y), ..c }, m),
            Mnemonic::PHA => stack::pha_step(c, m, step),
            Mnemonic::PHP => stack::php_step(c, m, step),
            Mnemonic::PLA => stack::pla_step(c, m, step),
            Mnemonic::PLP => stack::plp_step(c, m, step),
            Mnemonic::ASL => shift::shift_step(c, m, step, Mnemonic::ASL, 0x0A),
            Mnemonic::LSR => shift::shift_step(c, m, step, Mnemonic::LSR, 0x4A),
            Mnemonic::ROL => shift::shift_step(c, m, step, Mnemonic::ROL, 0x2A),
            Mnemonic::ROR => shift::shift_step(c, m, step, Mnemonic::ROR, 0x6A),
            Mnemonic::AND => (logic::and_op(c, rd(m, c.effective_addr)), m),
            Mnemonic::BIT => (logic::bit_op(c, rd(m, c.effective_addr)), m),
            Mnemonic::EOR => (logic::eor_op(c, rd(m, c.effective_addr)), m),
            Mnemonic::ORA => (logic::ora_op(c, rd(m, c.effective_addr)), m),
            Mnemonic::ADC => arith::adc_step(c, m),
            Mnemonic::ANC => arith::anc_step(c, m),
            Mnemonic::ARR => arith::arr_step(c, m),
            Mnemonic::ASR => arith::asr_step(c, m),
            Mnemonic::CMP => arith::cmp_step(c, m),
            Mnemonic::CPX => arith::cpx_step(c, m),
            Mnemonic::CPY => arith::cpy_step(c, m),
            Mnemonic::DCP => arith::dcp_step(c, m, step),
            Mnemonic::ISC => arith::isc_step(c, m, step),
            Mnemonic::RLA => arith::rla_step(c, m, step),
            Mnemonic::RRA => arith::rra_step(c, m, step),
            Mnemonic::SBC => arith::sbc_step(c, m),
            Mnemonic::SBX => arith::sbx_step(c, m),
            Mnemonic::SLO => arith::slo_step(c, m, step),
            Mnemonic::SRE => arith::sre_step(c, m, step),
            Mnemonic::XAA => arith::xaa_step(c, m),
            Mnemonic::DEC => inc::inc_dec_step(c, m, step, false),
            Mnemonic::DEX => (Cpu { x: c.x.wrapping_sub(1), p: c.p.with_zn(c.x.wrapping_sub(1)), ..c }, m),
            Mnemonic::DEY => (Cpu { y: c.y.wrapping_sub(1), p: c.p.with_zn(c.y.wrapping_sub(1)), ..c }, m),
            Mnemonic::INC => inc::inc_dec_step(c, m, step, true),
            Mnemonic::INX => (Cpu { x: c.x.wrapping_add(1), p: c.p.with_zn(c.x.wrapping_add(1)), ..c }, m),
            Mnemonic::INY => (Cpu { y: c.y.wrapping_add(1), p: c.p.with_zn(c.y.wrapping_add(1)), ..c }, m),
            Mnemonic::BRK => ctrl::brk_step(c, m, step),
            Mnemonic::JMP => (c, m),
            Mnemonic::JSR => ctrl::jsr_step(c, m, step),
            Mnemonic::RTI => ctrl::rti_step(c, m, step),
            Mnemonic::RTS => ctrl::rts_step(c, m, step),
            Mnemonic::BCC => bra::branch_step(c, m, step, bra::bcc_taken(c)),
            Mnemonic::BCS => bra::branch_step(c, m, step, bra::bcs_taken(c)),
            Mnemonic::BEQ => bra::branch_step(c, m, step, bra::beq_taken(c)),
            Mnemonic::BMI => bra::branch_step(c, m, step, bra::bmi_taken(c)),
            Mnemonic::BNE => bra::branch_step(c, m, step, bra::bne_taken(c)),
            Mnemonic::BPL => bra::branch_step(c, m, step, bra::bpl_taken(c)),
            Mnemonic::BVC => bra::branch_step(c, m, step, bra::bvc_taken(c)),
            Mnemonic::BVS => bra::branch_step(c, m, step, bra::bvs_taken(c)),
            Mnemonic::CLC => flags::flag_step(c, m, Status::CARRY, false),
            Mnemonic::CLD => flags::flag_step(c, m, Status::DECIMAL, false),
            Mnemonic::CLI => flags::flag_step(c, m, Status::INTERRUPT, false),
            Mnemonic::CLV => flags::flag_step(c, m, Status::OVERFLOW, false),
            Mnemonic::SEC => flags::flag_step(c, m, Status::CARRY, true),
            Mnemonic::SED => flags::flag_step(c, m, Status::DECIMAL, true),
            Mnemonic::SEI => flags::flag_step(c, m, Status::INTERRUPT, true),
            Mnemonic::JAM => (c, m),
            Mnemonic::NOP => (c, m),
        }
    }

    /// Run execute cycle `step` of this mnemonic (static dispatch).
    pub fn exec(&self, cpu: &mut Cpu, bus: &mut CpuBus, step: u8)
        requires
            step < self.exec_len_spec(),
        ensures
            (*final(cpu), final(bus)@) == self.step_spec(*old(cpu), old(bus)@, step),
    {
        match self {
            Mnemonic::LAS => load::exec_las(cpu, bus, step),
            Mnemonic::LAX => load::exec_lax(cpu, bus, step),
            Mnemonic::LDA => load::exec_lda(cpu, bus, step),
            Mnemonic::LDX => load::exec_ldx(cpu, bus, step),
            Mnemonic::LDY => load::exec_ldy(cpu, bus, step),
            Mnemonic::SAX => load::exec_sax(cpu, bus, step),
            Mnemonic::SHA => load::exec_sha(cpu, bus, step),
            Mnemonic::SHX => load::exec_shx(cpu, bus, step),
            Mnemonic::SHY => load::exec_shy(cpu, bus, step),
            Mnemonic::STA => load::exec_sta(cpu, bus, step),
            Mnemonic::STX => load::exec_stx(cpu, bus, step),
            Mnemonic::STY => load::exec_sty(cpu, bus, step),
            Mnemonic::SHS => trans::exec_shs(cpu, bus, step),
            Mnemonic::TAX => trans::exec_tax(cpu, bus, step),
            Mnemonic::TAY => trans::exec_tay(cpu, bus, step),
            Mnemonic::TSX => trans::exec_tsx(cpu, bus, step),
            Mnemonic::TXA => trans::exec_txa(cpu, bus, step),
            Mnemonic::TXS => trans::exec_txs(cpu, bus, step),
            Mnemonic::TYA => trans::exec_tya(cpu, bus, step),
            Mnemonic::PHA => stack::exec_pha(cpu, bus, step),
            Mnemonic::PHP => stack::exec_php(cpu, bus, step),
            Mnemonic::PLA => stack::exec_pla(cpu, bus, step),
            Mnemonic::PLP => stack::exec_plp(cpu, bus, step),
            Mnemonic::ASL => shift::exec_asl(cpu, bus, step),
            Mnemonic::LSR => shift::exec_lsr(cpu, bus, step),
            Mnemonic::ROL => shift::exec_rol(cpu, bus, step),
            Mnemonic::ROR => shift::exec_ror(cpu, bus, step),
            Mnemonic::AND => logic::exec_and(cpu, bus, step),
            Mnemonic::BIT => logic::exec_bit(cpu, bus, step),
            Mnemonic::EOR => logic::exec_eor(cpu, bus, step),
            Mnemonic::ORA => logic::exec_ora(cpu, bus, step),
            Mnemonic::ADC => arith::exec_adc(cpu, bus, step),
            Mnemonic::ANC => arith::exec_anc(cpu, bus, step),
            Mnemonic::ARR => arith::exec_arr(cpu, bus, step),
            Mnemonic::ASR => arith::exec_asr(cpu, bus, step),
            Mnemonic::CMP => arith::exec_cmp(cpu, bus, step),
            Mnemonic::CPX => arith::exec_cpx(cpu, bus, step),
            Mnemonic::CPY => arith::exec_cpy(cpu, bus, step),
            Mnemonic::DCP => arith::exec_dcp(cpu, bus, step),
            Mnemonic::ISC => arith::exec_isc(cpu, bus, step),
            Mnemonic::RLA => arith::exec_rla(cpu, bus, step),
            Mnemonic::RRA => arith::exec_rra(cpu, bus, step),
            Mnemonic::SBC => arith::exec_sbc(cpu, bus, step),
            Mnemonic::SBX => arith::exec_sbx(cpu, bus, step),
            Mnemonic::SLO => arith::exec_slo(cpu, bus, step),
            Mnemonic::SRE => arith::exec_sre(cpu, bus, step),
            Mnemonic::XAA => arith::exec_xaa(cpu, bus, step),
            Mnemonic::DEC => inc::exec_dec(cpu, bus, step),
            Mnemonic::DEX => inc::exec_dex(cpu, bus, step),
            Mnemonic::DEY => inc::exec_dey(cpu, bus, step),
            Mnemonic::INC => inc::exec_inc(cpu, bus, step),
            Mnemonic::INX => inc::exec_inx(cpu, bus, step),
            Mnemonic::INY => inc::exec_iny(cpu, bus, step),
            Mnemonic::BRK => ctrl::exec_brk(cpu, bus, step),
            Mnemonic::JMP => ctrl::exec_jmp(cpu, bus, step),
            Mnemonic::JSR => ctrl::exec_jsr(cpu, bus, step),
            Mnemonic::RTI => ctrl::exec_rti(cpu, bus, step),
            Mnemonic::RTS => ctrl::exec_rts(cpu, bus, step),
            Mnemonic::BCC => bra::exec_bcc(cpu, bus, step),
            Mnemonic::BCS => bra::exec_bcs(cpu, bus, step),
            Mnemonic::BEQ => bra::exec_beq(cpu, bus, step),
            Mnemonic::BMI => bra::exec_bmi(cpu, bus, step),
            Mnemonic::BNE => bra::exec_bne(cpu, bus, step),
            Mnemonic::BPL => bra::exec_bpl(cpu, bus, step),
            Mnemonic::BVC => bra::exec_bvc(cpu, bus, step),
            Mnemonic::BVS => bra::exec_bvs(cpu, bus, step),
            Mnemonic::CLC => flags::exec_clc(cpu, bus, step),
            Mnemonic::CLD => flags::exec_cld(cpu, bus, step),
            Mnemonic::CLI => flags::exec_cli(cpu, bus, step),
            Mnemonic::CLV => flags::exec_clv(cpu, bus, step),
            Mnemonic::SEC => flags::exec_sec(cpu, bus, step),
            Mnemonic::SED => flags::exec_sed(cpu, bus, step),
            Mnemonic::SEI => flags::exec_sei(cpu, bus, step),
            Mnemonic::JAM => kil::exec_jam(cpu, bus, step),
            Mnemonic::NOP => nop::exec_nop(cpu, bus, step),
        }
    }
}

/// The store of SHA/SHX/SHY/SHS-style instructions in their final cycle: the value is
/// `value_reg & (H + 1)`, H being the unindexed base's high byte latched in `tmp`;
/// when the indexing crossed a page, the high byte of the address is ANDed with
/// `value_reg` as well.
pub open spec fn hi_byte_store_spec(c: Cpu, m: Seq<u8>, value_reg: u8) -> Seq<u8> {
    let base_hi = c.tmp;
    let addr = c.effective_addr;
    let hi = (addr >> 8) as u8;
    let lo = (addr & 0x00FF) as u8;
    let final_hi = if hi != base_hi {
        hi & value_reg
    } else {
        hi
    };
    wr(m, word(lo, final_hi), value_reg & base_hi.wrapping_add(1))
}

/// The final store of the unstable high-byte stores.
pub fn hi_byte_store_final(cpu: &mut Cpu, bus: &mut CpuBus, value_reg: u8)
    ensures
        *final(cpu) == *old(cpu),
        final(bus)@ == hi_byte_store_spec(*old(cpu), old(bus)@, value_reg),
{
    let base_hi = cpu.tmp;
    let addr = cpu.effective_addr;
    let crossed = ((addr >> 8) as u8) != base_hi;
    let mut hi = (addr >> 8) as u8;
    let lo = (addr & 0x00FF) as u8;
    if crossed {
        hi = hi & value_reg;
    }
    let value = value_reg & base_hi.wrapping_add(1);
    let final_addr = ((hi as u16) << 8) | (lo as u16);
    bus.write(final_addr, value);
}

/// Execute cycle `step` of `mn`, as the mnemonic defines it.
#[verifier::opaque]
pub open spec fn exec_cycle(mn: Mnemonic, c: Cpu, m: Seq<u8>, step: u8) -> (Cpu, Seq<u8>) {
    mn.step_spec(c, m, step)
}

/// The state after execute cycles `0..n` of `mn`, run one after another.
pub open spec fn run_steps(mn: Mnemonic, c: Cpu, m: Seq<u8>, n: nat) -> (Cpu, Seq<u8>)
    decreases n,
{
    if n == 0 {
        (c, m)
    } else {
        let (c1, m1) = run_steps(mn, c, m, (n - 1) as nat);
        mn.step_spec(c1, m1, (n - 1) as u8)
    }
}

} // verus!
