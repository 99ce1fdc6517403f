use vstd::prelude::*;

use crate::addressing::{
    is_operand_mode, operand_address, page_crossed_spec, past_instruction, Addressing,
};
use crate::cpu::{rd, same_registers, word, wr, Cpu, CpuBus};
use crate::lookup::{lookup, lookup_spec};
use crate::mnemonic::bra::{branch_taken, is_branch};
use crate::mnemonic::{exec_cycle, Mnemonic};
use crate::timing::{timing, timing_spec, Timing};

verus! {

/// An instruction: what it does and how it addresses its operand.
#[derive(Clone, Copy, PartialEq, Eq, Structural, Debug, Hash)]
pub struct Instruction {
    pub mnemonic: Mnemonic,
    pub addressing: Addressing,
}

impl Instruction {
    /// Number of addressing cycles plus execution cycles.
    pub open spec fn len_spec(self) -> int {
        self.addressing.exec_len_spec() + self.mnemonic.exec_len_spec()
    }

    /// Number of addressing cycles plus execution cycles.
    pub fn len(&self) -> (r: u8)
        ensures
            r == self.len_spec(),
    {
        self.addr_len() + self.mnemonic.exec_len()
    }

    /// Number of addressing cycles.
    pub fn addr_len(&self) -> (r: u8)
        ensures
            r == self.addressing.exec_len_spec(),
    {
        self.addressing.exec_len()
    }

    /// What cycle `step` of the instruction does: the addressing cycles come
    /// first (they only read memory), then the execute cycles of the mnemonic.
    pub open spec fn step_spec(self, c: Cpu, m: Seq<u8>, step: u8) -> (Cpu, Seq<u8>) {
        let addr_len = self.addressing.exec_len_spec();
        if step < addr_len {
            (self.addressing.step_spec(c, m, step), m)
        } else {
            exec_cycle(self.mnemonic, c, m, (step - addr_len) as u8)
        }
    }

    /// Execute cycle `step` of the instruction (addressing, then mnemonic).
    pub fn exec(&self, cpu: &mut Cpu, bus: &mut CpuBus, step: u8)
        requires
            step < self.len_spec(),
        ensures
            (*final(cpu), final(bus)@) == self.step_spec(*old(cpu), old(bus)@, step),
    {
        let addr_len = self.addr_len();
        if step < addr_len {
            self.addressing.exec(cpu, bus, step);
        } else {
            let offset = step - addr_len;
            self.mnemonic.exec(cpu, bus, offset);
            proof {
                reveal(exec_cycle);
            }
        }
    }

    /// Whether `op` is the first opcode of the table that decodes to this instruction.
    pub open spec fn is_first_opcode(self, op: u8) -> bool {
        &&& lookup_spec(op) == self
        &&& forall|o: u8| o < op ==> lookup_spec(o) != self
    }

    /// The first opcode that decodes to this instruction; the instruction must
    /// be in the table.
    pub fn opcode(&self) -> (r: u8)
        requires
            exists|op: u8| lookup_spec(op) == *self,
        ensures
            self.is_first_opcode(r),
    {
        let mut i: u16 = 0;
        while i < 256
            invariant
                i <= 256,
                forall|o: u8| o < i ==> lookup_spec(o) != *self,
            decreases 256 - i,
        {
            let op = i as u8;
            if lookup(op) == *self {
                return op;
            }
            i += 1;
        }
        proof {
            let w = choose|op: u8| lookup_spec(op) == *self;
            assert(w < i);
        }
        0
    }

    /// The timing class of the instruction, that of its first opcode; the
    /// instruction must be in the table.
    pub fn cycle(&self) -> (r: Timing)
        requires
            exists|op: u8| lookup_spec(op) == *self,
        ensures
            exists|op: u8| self.is_first_opcode(op) && r == timing_spec(op),
    {
        let op = self.opcode();
        timing(op)
    }

    /// `LAS` with the given addressing mode.
    pub fn las(addr: Addressing) -> (r: Self)
        ensures
            r == (Instruction { mnemonic: Mnemonic::LAS, addressing: addr }),
    {
        Self { mnemonic: Mnemonic::LAS, addressing: addr }
    }

    /// `LAX` with the given addressing mode.
    pub fn lax(addr: Addressing) -> (r: Self)
        ensures
            r == (Instruction { mnemonic: Mnemonic::LAX, addressing: addr }),
    {
        Self { mnemonic: Mnemonic::LAX, addressing: addr }
    }

    /// `LDA` with the given addressing mode.
    pub fn lda(addr: Addressing) -> (r: Self)
        ensures
            r == (Instruction { mnemonic: Mnemonic::LDA, addressing: addr }),
    {
        Self { mnemonic: Mnemonic::LDA, addressing: addr }
    }

    /// `LDX` with the given addressing mode.
    pub fn ldx(addr: Addressing) -> (r: Self)
        ensures
            r == (Instruction { mnemonic: Mnemonic::LDX, addressing: addr }),
    {
        Self { mnemonic: Mnemonic::LDX, addressing: addr }
    }

    /// `LDY` with the given addressing mode.
    pub fn ldy(addr: Addressing) -> (r: Self)
        ensures
            r == (Instruction { mnemonic: Mnemonic::LDY, addressing: addr }),
    {
        Self { mnemonic: Mnemonic::LDY, addressing: addr }
    }

    /// `SAX` with the given addressing mode.
    pub fn sax(addr: Addressing) -> (r: Self)
        ensures
            r == (Instruction { mnemonic: Mnemonic::SAX, addressing: addr }),
    {
        Self { mnemonic: Mnemonic::SAX, addressing: addr }
    }

    /// `SHA` with the given addressing mode.
    pub fn sha(addr: Addressing) -> (r: Self)
        ensures
            r == (Instruction { mnemonic: Mnemonic::SHA, addressing: addr }),
    {
        Self { mnemonic: Mnemonic::SHA, addressing: addr }
    }

    /// `SHX` with the given addressing mode.
    pub fn shx(addr: Addressing) -> (r: Self)
        ensures
            r == (Instruction { mnemonic: Mnemonic::SHX, addressing: addr }),
    {
        Self { mnemonic: Mnemonic::SHX, addressing: addr }
    }

    /// `SHY` with the given addressing mode.
    pub fn shy(addr: Addressing) -> (r: Self)
        ensures
            r == (Instruction { mnemonic: Mnemonic::SHY, addressing: addr }),
    {
        Self { mnemonic: Mnemonic::SHY, addressing: addr }
    }

    /// `STA` with the given addressing mode.
    pub fn sta(addr: Addressing) -> (r: Self)
        ensures
            r == (Instruction { mnemonic: Mnemonic::STA, addressing: addr }),
    {
        Self { mnemonic: Mnemonic::STA, addressing: addr }
    }

    /// `STX` with the given addressing mode.
    pub fn stx(addr: Addressing) -> (r: Self)
        ensures
            r == (Instruction { mnemonic: Mnemonic::STX, addressing: addr }),
    {
        Self { mnemonic: Mnemonic::STX, addressing: addr }
    }

    /// `STY` with the given addressing mode.
    pub fn sty(addr: Addressing) -> (r: Self)
        ensures
            r == (Instruction { mnemonic: Mnemonic::STY, addressing: addr }),
    {
        Self { mnemonic: Mnemonic::STY, addressing: addr }
    }

    /// `SHS` with the given addressing mode.
    pub fn shs(addr: Addressing) -> (r: Self)
        ensures
            r == (Instruction { mnemonic: Mnemonic::SHS, addressing: addr }),
    {
        Self { mnemonic: Mnemonic::SHS, addressing: addr }
    }

    /// `TAX` with the given addressing mode.
    pub fn tax(addr: Addressing) -> (r: Self)
        ensures
            r == (Instruction { mnemonic: Mnemonic::TAX, addressing: addr }),
    {
        Self { mnemonic: Mnemonic::TAX, addressing: addr }
    }

    /// `TAY` with the given addressing mode.
    pub fn tay(addr: Addressing) -> (r: Self)
        ensures
            r == (Instruction { mnemonic: Mnemonic::TAY, addressing: addr }),
    {
        Self { mnemonic: Mnemonic::TAY, addressing: addr }
    }

    /// `TSX` with the given addressing mode.
    pub fn tsx(addr: Addressing) -> (r: Self)
        ensures
            r == (Instruction { mnemonic: Mnemonic::TSX, addressing: addr }),
    {
        Self { mnemonic: Mnemonic::TSX, addressing: addr }
    }

    /// `TXA` with the given addressing mode.
    pub fn txa(addr: Addressing) -> (r: Self)
        ensures
            r == (Instruction { mnemonic: Mnemonic::TXA, addressing: addr }),
    {
        Self { mnemonic: Mnemonic::TXA, addressing: addr }
    }

    /// `TXS` with the given addressing mode.
    pub fn txs(addr: Addressing) -> (r: Self)
        ensures
            r == (Instruction { mnemonic: Mnemonic::TXS, addressing: addr }),
    {
        Self { mnemonic: Mnemonic::TXS, addressing: addr }
    }

    /// `TYA` with the given addressing mode.
    pub fn tya(addr: Addressing) -> (r: Self)
        ensures
            r == (Instruction { mnemonic: Mnemonic::TYA, addressing: addr }),
    {
        Self { mnemonic: Mnemonic::TYA, addressing: addr }
    }

    /// `PHA` with the given addressing mode.
    pub fn pha(addr: Addressing) -> (r: Self)
        ensures
            r == (Instruction { mnemonic: Mnemonic::PHA, addressing: addr }),
    {
        Self { mnemonic: Mnemonic::PHA, addressing: addr }
    }

    /// `PHP` with the given addressing mode.
    pub fn php(addr: Addressing) -> (r: Self)
        ensures
            r == (Instruction { mnemonic: Mnemonic::PHP, addressing: addr }),
    {
        Self { mnemonic: Mnemonic::PHP, addressing: addr }
    }

    /// `PLA` with the given addressing mode.
    pub fn pla(addr: Addressing) -> (r: Self)
        ensures
            r == (Instruction { mnemonic: Mnemonic::PLA, addressing: addr }),
    {
        Self { mnemonic: Mnemonic::PLA, addressing: addr }
    }

    /// `PLP` with the given addressing mode.
    pub fn plp(addr: Addressing) -> (r: Self)
        ensures
            r == (Instruction { mnemonic: Mnemonic::PLP, addressing: addr }),
    {
        Self { mnemonic: Mnemonic::PLP, addressing: addr }
    }

    /// `ASL` with the given addressing mode.
    pub fn asl(addr: Addressing) -> (r: Self)
        ensures
            r == (Instruction { mnemonic: Mnemonic::ASL, addressing: addr }),
    {
        Self { mnemonic: Mnemonic::ASL, addressing: addr }
    }

    /// `LSR` with the given addressing mode.
    pub fn lsr(addr: Addressing) -> (r: Self)
        ensures
            r == (Instruction { mnemonic: Mnemonic::LSR, addressing: addr }),
    {
        Self { mnemonic: Mnemonic::LSR, addressing: addr }
    }

    /// `ROL` with the given addressing mode.
    pub fn rol(addr: Addressing) -> (r: Self)
        ensures
            r == (Instruction { mnemonic: Mnemonic::ROL, addressing: addr }),
    {
        Self { mnemonic: Mnemonic::ROL, addressing: addr }
    }

    /// `ROR` with the given addressing mode.
    pub fn ror(addr: Addressing) -> (r: Self)
        ensures
            r == (Instruction { mnemonic: Mnemonic::ROR, addressing: addr }),
    {
        Self { mnemonic: Mnemonic::ROR, addressing: addr }
    }

    /// `AND` with the given addressing mode.
    pub fn and(addr: Addressing) -> (r: Self)
        ensures
            r == (Instruction { mnemonic: Mnemonic::AND, addressing: addr }),
    {
        Self { mnemonic: Mnemonic::AND, addressing: addr }
    }

    /// `BIT` with the given addressing mode.
    pub fn bit(addr: Addressing) -> (r: Self)
        ensures
            r == (Instruction { mnemonic: Mnemonic::BIT, addressing: addr }),
    {
        Self { mnemonic: Mnemonic::BIT, addressing: addr }
    }

    /// `EOR` with the given addressing mode.
    pub fn eor(addr: Addressing) -> (r: Self)
        ensures
            r == (Instruction { mnemonic: Mnemonic::EOR, addressing: addr }),
    {
        Self { mnemonic: Mnemonic::EOR, addressing: addr }
    }

    /// `ORA` with the given addressing mode.
    pub fn ora(addr: Addressing) -> (r: Self)
        ensures
            r == (Instruction { mnemonic: Mnemonic::ORA, addressing: addr }),
    {
        Self { mnemonic: Mnemonic::ORA, addressing: addr }
    }

    /// `ADC` with the given addressing mode.
    pub fn adc(addr: Addressing) -> (r: Self)
        ensures
            r == (Instruction { mnemonic: Mnemonic::ADC, addressing: addr }),
    {
        Self { mnemonic: Mnemonic::ADC, addressing: addr }
    }

    /// `ANC` with the given addressing mode.
    pub fn anc(addr: Addressing) -> (r: Self)
        ensures
            r == (Instruction { mnemonic: Mnemonic::ANC, addressing: addr }),
    {
        Self { mnemonic: Mnemonic::ANC, addressing: addr }
    }

    /// `ARR` with the given addressing mode.
    pub fn arr(addr: Addressing) -> (r: Self)
        ensures
            r == (Instruction { mnemonic: Mnemonic::ARR, addressing: addr }),
    {
        Self { mnemonic: Mnemonic::ARR, addressing: addr }
    }

    /// `ASR` with the given addressing mode.
    pub fn asr(addr: Addressing) -> (r: Self)
        ensures
            r == (Instruction { mnemonic: Mnemonic::ASR, addressing: addr }),
    {
        Self { mnemonic: Mnemonic::ASR, addressing: addr }
    }

    /// `CMP` with the given addressing mode.
    pub fn cmp(addr: Addressing) -> (r: Self)
        ensures
            r == (Instruction { mnemonic: Mnemonic::CMP, addressing: addr }),
    {
        Self { mnemonic: Mnemonic::CMP, addressing: addr }
    }

    /// `CPX` with the given addressing mode.
    pub fn cpx(addr: Addressing) -> (r: Self)
        ensures
            r == (Instruction { mnemonic: Mnemonic::CPX, addressing: addr }),
    {
        Self { mnemonic: Mnemonic::CPX, addressing: addr }
    }

    /// `CPY` with the given addressing mode.
    pub fn cpy(addr: Addressing) -> (r: Self)
        ensures
            r == (Instruction { mnemonic: Mnemonic::CPY, addressing: addr }),
    {
        Self { mnemonic: Mnemonic::CPY, addressing: addr }
    }

    /// `DCP` with the given addressing mode.
    pub fn dcp(addr: Addressing) -> (r: Self)
        ensures
            r == (Instruction { mnemonic: Mnemonic::DCP, addressing: addr }),
    {
        Self { mnemonic: Mnemonic::DCP, addressing: addr }
    }

    /// `ISC` with the given addressing mode.
    pub fn isc(addr: Addressing) -> (r: Self)
        ensures
            r == (Instruction { mnemonic: Mnemonic::ISC, addressing: addr }),
    {
        Self { mnemonic: Mnemonic::ISC, addressing: addr }
    }

    /// `RLA` with the given addressing mode.
    pub fn rla(addr: Addressing) -> (r: Self)
        ensures
            r == (Instruction { mnemonic: Mnemonic::RLA, addressing: addr }),
    {
        Self { mnemonic: Mnemonic::RLA, addressing: addr }
    }

    /// `RRA` with the given addressing mode.
    pub fn rra(addr: Addressing) -> (r: Self)
        ensures
            r == (Instruction { mnemonic: Mnemonic::RRA, addressing: addr }),
    {
        Self { mnemonic: Mnemonic::RRA, addressing: addr }
    }

    /// `SBC` with the given addressing mode.
    pub fn sbc(addr: Addressing) -> (r: Self)
        ensures
            r == (Instruction { mnemonic: Mnemonic::SBC, addressing: addr }),
    {
        Self { mnemonic: Mnemonic::SBC, addressing: addr }
    }

    /// `SBX` with the given addressing mode.
    pub fn sbx(addr: Addressing) -> (r: Self)
        ensures
            r == (Instruction { mnemonic: Mnemonic::SBX, addressing: addr }),
    {
        Self { mnemonic: Mnemonic::SBX, addressing: addr }
    }

    /// `SLO` with the given addressing mode.
    pub fn slo(addr: Addressing) -> (r: Self)
        ensures
            r == (Instruction { mnemonic: Mnemonic::SLO, addressing: addr }),
    {
        Self { mnemonic: Mnemonic::SLO, addressing: addr }
    }

    /// `SRE` with the given addressing mode.
    pub fn sre(addr: Addressing) -> (r: Self)
        ensures
            r == (Instruction { mnemonic: Mnemonic::SRE, addressing: addr }),
    {
        Self { mnemonic: Mnemonic::SRE, addressing: addr }
    }

    /// `XAA` with the given addressing mode.
    pub fn xaa(addr: Addressing) -> (r: Self)
        ensures
            r == (Instruction { mnemonic: Mnemonic::XAA, addressing: addr }),
    {
        Self { mnemonic: Mnemonic::XAA, addressing: addr }
    }

    /// `DEC` with the given addressing mode.
    pub fn dec(addr: Addressing) -> (r: Self)
        ensures
            r == (Instruction { mnemonic: Mnemonic::DEC, addressing: addr }),
    {
        Self { mnemonic: Mnemonic::DEC, addressing: addr }
    }

    /// `DEX` with the given addressing mode.
    pub fn dex(addr: Addressing) -> (r: Self)
        ensures
            r == (Instruction { mnemonic: Mnemonic::DEX, addressing: addr }),
    {
        Self { mnemonic: Mnemonic::DEX, addressing: addr }
    }

    /// `DEY` with the given addressing mode.
    pub fn dey(addr: Addressing) -> (r: Self)
        ensures
            r == (Instruction { mnemonic: Mnemonic::DEY, addressing: addr }),
    {
        Self { mnemonic: Mnemonic::DEY, addressing: addr }
    }

    /// `INC` with the given addressing mode.
    pub fn inc(addr: Addressing) -> (r: Self)
        ensures
            r == (Instruction { mnemonic: Mnemonic::INC, addressing: addr }),
    {
        Self { mnemonic: Mnemonic::INC, addressing: addr }
    }

    /// `INX` with the given addressing mode.
    pub fn inx(addr: Addressing) -> (r: Self)
        ensures
            r == (Instruction { mnemonic: Mnemonic::INX, addressing: addr }),
    {
        Self { mnemonic: Mnemonic::INX, addressing: addr }
    }

    /// `INY` with the given addressing mode.
    pub fn iny(addr: Addressing) -> (r: Self)
        ensures
            r == (Instruction { mnemonic: Mnemonic::INY, addressing: addr }),
    {
        Self { mnemonic: Mnemonic::INY, addressing: addr }
    }

    /// `BRK` with the given addressing mode.
    pub fn brk(addr: Addressing) -> (r: Self)
        ensures
            r == (Instruction { mnemonic: Mnemonic::BRK, addressing: addr }),
    {
        Self { mnemonic: Mnemonic::BRK, addressing: addr }
    }

    /// `JMP` with the given addressing mode.
    pub fn jmp(addr: Addressing) -> (r: Self)
        ensures
            r == (Instruction { mnemonic: Mnemonic::JMP, addressing: addr }),
    {
        Self { mnemonic: Mnemonic::JMP, addressing: addr }
    }

    /// `JSR` with the given addressing mode.
    pub fn jsr(addr: Addressing) -> (r: Self)
        ensures
            r == (Instruction { mnemonic: Mnemonic::JSR, addressing: addr }),
    {
        Self { mnemonic: Mnemonic::JSR, addressing: addr }
    }

    /// `RTI` with the given addressing mode.
    pub fn rti(addr: Addressing) -> (r: Self)
        ensures
            r == (Instruction { mnemonic: Mnemonic::RTI, addressing: addr }),
    {
        Self { mnemonic: Mnemonic::RTI, addressing: addr }
    }

    /// `RTS` with the given addressing mode.
    pub fn rts(addr: Addressing) -> (r: Self)
        ensures
            r == (Instruction { mnemonic: Mnemonic::RTS, addressing: addr }),
    {
        Self { mnemonic: Mnemonic::RTS, addressing: addr }
    }

    /// `BCC` with the given addressing mode.
    pub fn bcc(addr: Addressing) -> (r: Self)
        ensures
            r == (Instruction { mnemonic: Mnemonic::BCC, addressing: addr }),
    {
        Self { mnemonic: Mnemonic::BCC, addressing: addr }
    }

    /// `BCS` with the given addressing mode.
    pub fn bcs(addr: Addressing) -> (r: Self)
        ensures
            r == (Instruction { mnemonic: Mnemonic::BCS, addressing: addr }),
    {
        Self { mnemonic: Mnemonic::BCS, addressing: addr }
    }

    /// `BEQ` with the given addressing mode.
    pub fn beq(addr: Addressing) -> (r: Self)
        ensures
            r == (Instruction { mnemonic: Mnemonic::BEQ, addressing: addr }),
    {
        Self { mnemonic: Mnemonic::BEQ, addressing: addr }
    }

    /// `BMI` with the given addressing mode.
    pub fn bmi(addr: Addressing) -> (r: Self)
        ensures
            r == (Instruction { mnemonic: Mnemonic::BMI, addressing: addr }),
    {
        Self { mnemonic: Mnemonic::BMI, addressing: addr }
    }

    /// `BNE` with the given addressing mode.
    pub fn bne(addr: Addressing) -> (r: Self)
        ensures
            r == (Instruction { mnemonic: Mnemonic::BNE, addressing: addr }),
    {
        Self { mnemonic: Mnemonic::BNE, addressing: addr }
    }

    /// `BPL` with the given addressing mode.
    pub fn bpl(addr: Addressing) -> (r: Self)
        ensures
            r == (Instruction { mnemonic: Mnemonic::BPL, addressing: addr }),
    {
        Self { mnemonic: Mnemonic::BPL, addressing: addr }
    }

    /// `BVC` with the given addressing mode.
    pub fn bvc(addr: Addressing) -> (r: Self)
        ensures
            r == (Instruction { mnemonic: Mnemonic::BVC, addressing: addr }),
    {
        Self { mnemonic: Mnemonic::BVC, addressing: addr }
    }

    /// `BVS` with the given addressing mode.
    pub fn bvs(addr: Addressing) -> (r: Self)
        ensures
            r == (Instruction { mnemonic: Mnemonic::BVS, addressing: addr }),
    {
        Self { mnemonic: Mnemonic::BVS, addressing: addr }
    }

    /// `CLC` with the given addressing mode.
    pub fn clc(addr: Addressing) -> (r: Self)
        ensures
            r == (Instruction { mnemonic: Mnemonic::CLC, addressing: addr }),
    {
        Self { mnemonic: Mnemonic::CLC, addressing: addr }
    }

    /// `CLD` with the given addressing mode.
    pub fn cld(addr: Addressing) -> (r: Self)
        ensures
            r == (Instruction { mnemonic: Mnemonic::CLD, addressing: addr }),
    {
        Self { mnemonic: Mnemonic::CLD, addressing: addr }
    }

    /// `CLI` with the given addressing mode.
    pub fn cli(addr: Addressing) -> (r: Self)
        ensures
            r == (Instruction { mnemonic: Mnemonic::CLI, addressing: addr }),
    {
        Self { mnemonic: Mnemonic::CLI, addressing: addr }
    }

    /// `CLV` with the given addressing mode.
    pub fn clv(addr: Addressing) -> (r: Self)
        ensures
            r == (Instruction { mnemonic: Mnemonic::CLV, addressing: addr }),
    {
        Self { mnemonic: Mnemonic::CLV, addressing: addr }
    }

    /// `SEC` with the given addressing mode.
    pub fn sec(addr: Addressing) -> (r: Self)
        ensures
            r == (Instruction { mnemonic: Mnemonic::SEC, addressing: addr }),
    {
        Self { mnemonic: Mnemonic::SEC, addressing: addr }
    }

    /// `SED` with the given addressing mode.
    pub fn sed(addr: Addressing) -> (r: Self)
        ensures
            r == (Instruction { mnemonic: Mnemonic::SED, addressing: addr }),
    {
        Self { mnemonic: Mnemonic::SED, addressing: addr }
    }

    /// `SEI` with the given addressing mode.
    pub fn sei(addr: Addressing) -> (r: Self)
        ensures
            r == (Instruction { mnemonic: Mnemonic::SEI, addressing: addr }),
    {
        Self { mnemonic: Mnemonic::SEI, addressing: addr }
    }

    /// `JAM` with the given addressing mode.
    pub fn jam(addr: Addressing) -> (r: Self)
        ensures
            r == (Instruction { mnemonic: Mnemonic::JAM, addressing: addr }),
    {
        Self { mnemonic: Mnemonic::JAM, addressing: addr }
    }

    /// `NOP` with the given addressing mode.
    pub fn nop(addr: Addressing) -> (r: Self)
        ensures
            r == (Instruction { mnemonic: Mnemonic::NOP, addressing: addr }),
    {
        Self { mnemonic: Mnemonic::NOP, addressing: addr }
    }

}


/// The state after the first `n` cycles of `instr`.
pub open spec fn run_cycles(instr: Instruction, c: Cpu, m: Seq<u8>, n: nat) -> (Cpu, Seq<u8>)
    decreases n,
{
    if n == 0 {
        (c, m)
    } else {
        let (c1, m1) = run_cycles(instr, c, m, (n - 1) as nat);
        instr.step_spec(c1, m1, (n - 1) as u8)
    }
}

/// The state with the opcode fetched: PC on the first operand byte.
pub open spec fn opcode_fetched(c: Cpu) -> Cpu {
    Cpu { pc: c.pc.wrapping_add(1), ..c }
}

/// What holds after the addressing cycles of `instr`, started with the opcode
/// fetched from `c.pc`: memory is untouched, PC is past the operand bytes, no
/// other register changed, and the effective address is the operand address.
pub open spec fn after_addressing(instr: Instruction, c: Cpu, m: Seq<u8>) -> bool {
    let (c1, m1) = run_cycles(
        instr,
        opcode_fetched(c),
        m,
        instr.addressing.exec_len_spec() as nat,
    );
    &&& m1 == m
    &&& same_registers(c1, past_instruction(instr.addressing, c))
    &&& c1.effective_addr == operand_address(instr.addressing, c, m)
    &&& c1.opcode_in_flight == c.opcode_in_flight
}

/// Adding an index to a zero-page byte wraps within page zero, however the sum
/// is masked on the way.
proof fn lemma_zero_page_wrap(b: u16, x: u16)
    requires
        b < 256,
        x < 256,
    ensures
        (((b & 0x00FF) + x) as u16) & 0x00FF == (b + x) as u16 & 0x00FF,
        ((((b + x) as u16 & 0x00FF) + 1) as u16) & 0x00FF == ((b + x) as u16 + 1) as u16
            & 0x00FF,
        ((b + x) as u16 & 0x00FF) & 0x00FF == (b + x) as u16 & 0x00FF,
{
    assert((((b & 0x00FF) + x) as u16) & 0x00FF == (b + x) as u16 & 0x00FF
        && ((((b + x) as u16 & 0x00FF) + 1) as u16) & 0x00FF == ((b + x) as u16 + 1) as u16
        & 0x00FF && ((b + x) as u16 & 0x00FF) & 0x00FF == (b + x) as u16 & 0x00FF) by (bit_vector)
        requires
            b < 256,
            x < 256,
    ;
}
proof fn lemma_addressing_zero_page(mn: Mnemonic, c0: Cpu, m: Seq<u8>)
    ensures
        after_addressing(Instruction { mnemonic: mn, addressing: Addressing::ZeroPage }, c0, m),
{
    let instr = Instruction { mnemonic: mn, addressing: Addressing::ZeroPage };
    let c = opcode_fetched(c0);
    assert(c0.pc.wrapping_add(1).wrapping_add(1) == c0.pc.wrapping_add(2));
    assert(c0.pc.wrapping_add(2).wrapping_add(1) == c0.pc.wrapping_add(3));
    assert(run_cycles(instr, c, m, 0) == (c, m));
    let (c1, m1) = run_cycles(instr, c, m, 1);
    assert(m1 == m);
}

proof fn lemma_addressing_zero_page_x(mn: Mnemonic, c0: Cpu, m: Seq<u8>)
    ensures
        after_addressing(Instruction { mnemonic: mn, addressing: Addressing::ZeroPageX }, c0, m),
{
    let instr = Instruction { mnemonic: mn, addressing: Addressing::ZeroPageX };
    let c = opcode_fetched(c0);
    assert(c0.pc.wrapping_add(1).wrapping_add(1) == c0.pc.wrapping_add(2));
    assert(c0.pc.wrapping_add(2).wrapping_add(1) == c0.pc.wrapping_add(3));
    assert(run_cycles(instr, c, m, 0) == (c, m));
    let (c1, m1) = run_cycles(instr, c, m, 1);
    assert(m1 == m);
    let (c2, m2) = run_cycles(instr, c, m, 2);
    assert(m2 == m);
    lemma_zero_page_wrap(rd(m, c0.pc.wrapping_add(1)) as u16, c0.x as u16);
}

proof fn lemma_addressing_zero_page_y(mn: Mnemonic, c0: Cpu, m: Seq<u8>)
    ensures
        after_addressing(Instruction { mnemonic: mn, addressing: Addressing::ZeroPageY }, c0, m),
{
    let instr = Instruction { mnemonic: mn, addressing: Addressing::ZeroPageY };
    let c = opcode_fetched(c0);
    assert(c0.pc.wrapping_add(1).wrapping_add(1) == c0.pc.wrapping_add(2));
    assert(c0.pc.wrapping_add(2).wrapping_add(1) == c0.pc.wrapping_add(3));
    assert(run_cycles(instr, c, m, 0) == (c, m));
    let (c1, m1) = run_cycles(instr, c, m, 1);
    assert(m1 == m);
    let (c2, m2) = run_cycles(instr, c, m, 2);
    assert(m2 == m);
    lemma_zero_page_wrap(rd(m, c0.pc.wrapping_add(1)) as u16, c0.y as u16);
}

proof fn lemma_addressing_absolute(mn: Mnemonic, c0: Cpu, m: Seq<u8>)
    ensures
        after_addressing(Instruction { mnemonic: mn, addressing: Addressing::Absolute }, c0, m),
{
    let instr = Instruction { mnemonic: mn, addressing: Addressing::Absolute };
    let c = opcode_fetched(c0);
    assert(c0.pc.wrapping_add(1).wrapping_add(1) == c0.pc.wrapping_add(2));
    assert(c0.pc.wrapping_add(2).wrapping_add(1) == c0.pc.wrapping_add(3));
    assert(run_cycles(instr, c, m, 0) == (c, m));
    let (c1, m1) = run_cycles(instr, c, m, 1);
    assert(m1 == m);
    let (c2, m2) = run_cycles(instr, c, m, 2);
    assert(m2 == m);
}

proof fn lemma_addressing_absolute_x(mn: Mnemonic, c0: Cpu, m: Seq<u8>)
    ensures
        after_addressing(Instruction { mnemonic: mn, addressing: Addressing::AbsoluteX }, c0, m),
{
    let instr = Instruction { mnemonic: mn, addressing: Addressing::AbsoluteX };
    let c = opcode_fetched(c0);
    assert(c0.pc.wrapping_add(1).wrapping_add(1) == c0.pc.wrapping_add(2));
    assert(c0.pc.wrapping_add(2).wrapping_add(1) == c0.pc.wrapping_add(3));
    assert(run_cycles(instr, c, m, 0) == (c, m));
    let (c1, m1) = run_cycles(instr, c, m, 1);
    assert(m1 == m);
    let (c2, m2) = run_cycles(instr, c, m, 2);
    assert(m2 == m);
    let (c3, m3) = run_cycles(instr, c, m, 3);
    assert(m3 == m);
}

proof fn lemma_addressing_absolute_y(mn: Mnemonic, c0: Cpu, m: Seq<u8>)
    ensures
        after_addressing(Instruction { mnemonic: mn, addressing: Addressing::AbsoluteY }, c0, m),
{
    let instr = Instruction { mnemonic: mn, addressing: Addressing::AbsoluteY };
    let c = opcode_fetched(c0);
    assert(c0.pc.wrapping_add(1).wrapping_add(1) == c0.pc.wrapping_add(2));
    assert(c0.pc.wrapping_add(2).wrapping_add(1) == c0.pc.wrapping_add(3));
    assert(run_cycles(instr, c, m, 0) == (c, m));
    let (c1, m1) = run_cycles(instr, c, m, 1);
    assert(m1 == m);
    let (c2, m2) = run_cycles(instr, c, m, 2);
    assert(m2 == m);
    let (c3, m3) = run_cycles(instr, c, m, 3);
    assert(m3 == m);
}

proof fn lemma_addressing_indirect_x(mn: Mnemonic, c0: Cpu, m: Seq<u8>)
    ensures
        after_addressing(Instruction { mnemonic: mn, addressing: Addressing::IndirectX }, c0, m),
{
    let instr = Instruction { mnemonic: mn, addressing: Addressing::IndirectX };
    let c = opcode_fetched(c0);
    assert(c0.pc.wrapping_add(1).wrapping_add(1) == c0.pc.wrapping_add(2));
    assert(c0.pc.wrapping_add(2).wrapping_add(1) == c0.pc.wrapping_add(3));
    assert(run_cycles(instr, c, m, 0) == (c, m));
    let (c1, m1) = run_cycles(instr, c, m, 1);
    assert(m1 == m);
    let (c2, m2) = run_cycles(instr, c, m, 2);
    assert(m2 == m);
    let (c3, m3) = run_cycles(instr, c, m, 3);
    assert(m3 == m);
    let (c4, m4) = run_cycles(instr, c, m, 4);
    assert(m4 == m);
    lemma_zero_page_wrap(rd(m, c0.pc.wrapping_add(1)) as u16, c0.x as u16);
}

proof fn lemma_addressing_indirect_y(mn: Mnemonic, c0: Cpu, m: Seq<u8>)
    ensures
        after_addressing(Instruction { mnemonic: mn, addressing: Addressing::IndirectY }, c0, m),
{
    let instr = Instruction { mnemonic: mn, addressing: Addressing::IndirectY };
    let c = opcode_fetched(c0);
    assert(c0.pc.wrapping_add(1).wrapping_add(1) == c0.pc.wrapping_add(2));
    assert(c0.pc.wrapping_add(2).wrapping_add(1) == c0.pc.wrapping_add(3));
    assert(run_cycles(instr, c, m, 0) == (c, m));
    let (c1, m1) = run_cycles(instr, c, m, 1);
    assert(m1 == m);
    let (c2, m2) = run_cycles(instr, c, m, 2);
    assert(m2 == m);
    let (c3, m3) = run_cycles(instr, c, m, 3);
    assert(m3 == m);
    let (c4, m4) = run_cycles(instr, c, m, 4);
    assert(m4 == m);
}

/// The addressing cycles of every memory operand mode form the operand
/// address of the instruction whose opcode was fetched from `c.pc`, move PC
/// past the operand bytes, and change no other register and no memory.
pub proof fn lemma_addressing_cycles(instr: Instruction, c: Cpu, m: Seq<u8>)
    requires
        is_operand_mode(instr.addressing),
        instr.addressing != Addressing::Immediate,
    ensures
        after_addressing(instr, c, m),
{
    match instr.addressing {
        Addressing::ZeroPage => lemma_addressing_zero_page(instr.mnemonic, c, m),
        Addressing::ZeroPageX => lemma_addressing_zero_page_x(instr.mnemonic, c, m),
        Addressing::ZeroPageY => lemma_addressing_zero_page_y(instr.mnemonic, c, m),
        Addressing::Absolute => lemma_addressing_absolute(instr.mnemonic, c, m),
        Addressing::AbsoluteX => lemma_addressing_absolute_x(instr.mnemonic, c, m),
        Addressing::AbsoluteY => lemma_addressing_absolute_y(instr.mnemonic, c, m),
        Addressing::IndirectX => lemma_addressing_indirect_x(instr.mnemonic, c, m),
        _ => lemma_addressing_indirect_y(instr.mnemonic, c, m),
    }
}


/// The registers after the load `mn` (LDA, LDX, LDY, LAX) of `v`: the target
/// registers take `v`, N and Z describe it.
pub open spec fn load_effect(mn: Mnemonic, c: Cpu, v: u8) -> Cpu {
    match mn {
        Mnemonic::LDA => Cpu { a: v, p: c.p.with_zn(v), ..c },
        Mnemonic::LDX => Cpu { x: v, p: c.p.with_zn(v), ..c },
        Mnemonic::LDY => Cpu { y: v, p: c.p.with_zn(v), ..c },
        _ => Cpu { a: v, x: v, p: c.p.with_zn(v), ..c },
    }
}

/// The byte that the store `mn` (STA, STX, STY) writes.
pub open spec fn store_register(mn: Mnemonic, c: Cpu) -> u8 {
    match mn {
        Mnemonic::STA => c.a,
        Mnemonic::STX => c.x,
        _ => c.y,
    }
}

/// Run cycle by cycle from the opcode fetch, a load loads the byte at its
/// operand address and a store writes its register there; PC ends past the
/// instruction, and nothing else changes.
pub proof fn lemma_load_store_cycles(instr: Instruction, c: Cpu, m: Seq<u8>)
    requires
        is_operand_mode(instr.addressing),
        instr.addressing != Addressing::Immediate,
        instr.mnemonic == Mnemonic::LDA || instr.mnemonic == Mnemonic::LDX || instr.mnemonic
            == Mnemonic::LDY || instr.mnemonic == Mnemonic::LAX || instr.mnemonic == Mnemonic::STA
            || instr.mnemonic == Mnemonic::STX || instr.mnemonic == Mnemonic::STY,
    ensures
        ({
            let (c1, m1) = run_cycles(instr, opcode_fetched(c), m, instr.len_spec() as nat);
            let ea = operand_address(instr.addressing, c, m);
            let past = past_instruction(instr.addressing, c);
            let is_store = instr.mnemonic == Mnemonic::STA || instr.mnemonic == Mnemonic::STX
                || instr.mnemonic == Mnemonic::STY;
            &&& is_store ==> m1 == wr(m, ea, store_register(instr.mnemonic, c))
                && same_registers(c1, past)
            &&& !is_store ==> m1 == m && same_registers(
                c1,
                load_effect(instr.mnemonic, past, rd(m, ea)),
            )
        }),
{
    lemma_addressing_cycles(instr, c, m);
    let n = instr.addressing.exec_len_spec() as nat;
    let (c1, m1) = run_cycles(instr, opcode_fetched(c), m, n);
    assert(instr.len_spec() == n + 1);
    assert(run_cycles(instr, opcode_fetched(c), m, n + 1) == instr.step_spec(c1, m1, n as u8));
    reveal(exec_cycle);
}


/// Whether the opcode fetch, the addressing cycles and the execute cycles of the
/// instruction at `opcode` are at least its longest cycle count in the timing
/// table (page crossed, branch taken).
pub open spec fn cycles_cover_timing(opcode: u8) -> bool {
    1 + lookup_spec(opcode).len_spec() >= timing_spec(opcode).total_spec(true, true)
}

proof fn lemma_cycles_cover_timing_0()
    ensures
        forall|o: u8| 0x00 <= o <= 0x0F ==> cycles_cover_timing(o),
{
    assert forall|o: u8| 0x00 <= o <= 0x0F implies cycles_cover_timing(o) by {
        if o == 0x00u8 {
            assert(cycles_cover_timing(0x00u8));
        } else if o == 0x01u8 {
            assert(cycles_cover_timing(0x01u8));
        } else if o == 0x02u8 {
            assert(cycles_cover_timing(0x02u8));
        } else if o == 0x03u8 {
            assert(cycles_cover_timing(0x03u8));
        } else if o == 0x04u8 {
            assert(cycles_cover_timing(0x04u8));
        } else if o == 0x05u8 {
            assert(cycles_cover_timing(0x05u8));
        } else if o == 0x06u8 {
            assert(cycles_cover_timing(0x06u8));
        } else if o == 0x07u8 {
            assert(cycles_cover_timing(0x07u8));
        } else if o == 0x08u8 {
            assert(cycles_cover_timing(0x08u8));
        } else if o == 0x09u8 {
            assert(cycles_cover_timing(0x09u8));
        } else if o == 0x0Au8 {
            assert(cycles_cover_timing(0x0Au8));
        } else if o == 0x0Bu8 {
            assert(cycles_cover_timing(0x0Bu8));
        } else if o == 0x0Cu8 {
            assert(cycles_cover_timing(0x0Cu8));
        } else if o == 0x0Du8 {
            assert(cycles_cover_timing(0x0Du8));
        } else if o == 0x0Eu8 {
            assert(cycles_cover_timing(0x0Eu8));
        } else {
            assert(o == 0x0Fu8);
            assert(cycles_cover_timing(0x0Fu8));
        }
    }
}

proof fn lemma_cycles_cover_timing_1()
    ensures
        forall|o: u8| 0x10 <= o <= 0x1F ==> cycles_cover_timing(o),
{
    assert forall|o: u8| 0x10 <= o <= 0x1F implies cycles_cover_timing(o) by {
        if o == 0x10u8 {
            assert(cycles_cover_timing(0x10u8));
        } else if o == 0x11u8 {
            assert(cycles_cover_timing(0x11u8));
        } else if o == 0x12u8 {
            assert(cycles_cover_timing(0x12u8));
        } else if o == 0x13u8 {
            assert(cycles_cover_timing(0x13u8));
        } else if o == 0x14u8 {
            assert(cycles_cover_timing(0x14u8));
        } else if o == 0x15u8 {
            assert(cycles_cover_timing(0x15u8));
        } else if o == 0x16u8 {
            assert(cycles_cover_timing(0x16u8));
        } else if o == 0x17u8 {
            assert(cycles_cover_timing(0x17u8));
        } else if o == 0x18u8 {
            assert(cycles_cover_timing(0x18u8));
        } else if o == 0x19u8 {
            assert(cycles_cover_timing(0x19u8));
        } else if o == 0x1Au8 {
            assert(cycles_cover_timing(0x1Au8));
        } else if o == 0x1Bu8 {
            assert(cycles_cover_timing(0x1Bu8));
        } else if o == 0x1Cu8 {
            assert(cycles_cover_timing(0x1Cu8));
        } else if o == 0x1Du8 {
            assert(cycles_cover_timing(0x1Du8));
        } else if o == 0x1Eu8 {
            assert(cycles_cover_timing(0x1Eu8));
        } else {
            assert(o == 0x1Fu8);
            assert(cycles_cover_timing(0x1Fu8));
        }
    }
}

proof fn lemma_cycles_cover_timing_2()
    ensures
        forall|o: u8| 0x20 <= o <= 0x2F ==> cycles_cover_timing(o),
{
    assert forall|o: u8| 0x20 <= o <= 0x2F implies cycles_cover_timing(o) by {
        if o == 0x20u8 {
            assert(cycles_cover_timing(0x20u8));
        } else if o == 0x21u8 {
            assert(cycles_cover_timing(0x21u8));
        } else if o == 0x22u8 {
            assert(cycles_cover_timing(0x22u8));
        } else if o == 0x23u8 {
            assert(cycles_cover_timing(0x23u8));
        } else if o == 0x24u8 {
            assert(cycles_cover_timing(0x24u8));
        } else if o == 0x25u8 {
            assert(cycles_cover_timing(0x25u8));
        } else if o == 0x26u8 {
            assert(cycles_cover_timing(0x26u8));
        } else if o == 0x27u8 {
            assert(cycles_cover_timing(0x27u8));
        } else if o == 0x28u8 {
            assert(cycles_cover_timing(0x28u8));
        } else if o == 0x29u8 {
            assert(cycles_cover_timing(0x29u8));
        } else if o == 0x2Au8 {
            assert(cycles_cover_timing(0x2Au8));
        } else if o == 0x2Bu8 {
            assert(cycles_cover_timing(0x2Bu8));
        } else if o == 0x2Cu8 {
            assert(cycles_cover_timing(0x2Cu8));
        } else if o == 0x2Du8 {
            assert(cycles_cover_timing(0x2Du8));
        } else if o == 0x2Eu8 {
            assert(cycles_cover_timing(0x2Eu8));
        } else {
            assert(o == 0x2Fu8);
            assert(cycles_cover_timing(0x2Fu8));
        }
    }
}

proof fn lemma_cycles_cover_timing_3()
    ensures
        forall|o: u8| 0x30 <= o <= 0x3F ==> cycles_cover_timing(o),
{
    assert forall|o: u8| 0x30 <= o <= 0x3F implies cycles_cover_timing(o) by {
        if o == 0x30u8 {
            assert(cycles_cover_timing(0x30u8));
        } else if o == 0x31u8 {
            assert(cycles_cover_timing(0x31u8));
        } else if o == 0x32u8 {
            assert(cycles_cover_timing(0x32u8));
        } else if o == 0x33u8 {
            assert(cycles_cover_timing(0x33u8));
        } else if o == 0x34u8 {
            assert(cycles_cover_timing(0x34u8));
        } else if o == 0x35u8 {
            assert(cycles_cover_timing(0x35u8));
        } else if o == 0x36u8 {
            assert(cycles_cover_timing(0x36u8));
        } else if o == 0x37u8 {
            assert(cycles_cover_timing(0x37u8));
        } else if o == 0x38u8 {
            assert(cycles_cover_timing(0x38u8));
        } else if o == 0x39u8 {
            assert(cycles_cover_timing(0x39u8));
        } else if o == 0x3Au8 {
            assert(cycles_cover_timing(0x3Au8));
        } else if o == 0x3Bu8 {
            assert(cycles_cover_timing(0x3Bu8));
        } else if o == 0x3Cu8 {
            assert(cycles_cover_timing(0x3Cu8));
        } else if o == 0x3Du8 {
            assert(cycles_cover_timing(0x3Du8));
        } else if o == 0x3Eu8 {
            assert(cycles_cover_timing(0x3Eu8));
        } else {
            assert(o == 0x3Fu8);
            assert(cycles_cover_timing(0x3Fu8));
        }
    }
}

proof fn lemma_cycles_cover_timing_4()
    ensures
        forall|o: u8| 0x40 <= o <= 0x4F ==> cycles_cover_timing(o),
{
    assert forall|o: u8| 0x40 <= o <= 0x4F implies cycles_cover_timing(o) by {
        if o == 0x40u8 {
            assert(cycles_cover_timing(0x40u8));
        } else if o == 0x41u8 {
            assert(cycles_cover_timing(0x41u8));
        } else if o == 0x42u8 {
            assert(cycles_cover_timing(0x42u8));
        } else if o == 0x43u8 {
            assert(cycles_cover_timing(0x43u8));
        } else if o == 0x44u8 {
            assert(cycles_cover_timing(0x44u8));
        } else if o == 0x45u8 {
            assert(cycles_cover_timing(0x45u8));
        } else if o == 0x46u8 {
            assert(cycles_cover_timing(0x46u8));
        } else if o == 0x47u8 {
            assert(cycles_cover_timing(0x47u8));
        } else if o == 0x48u8 {
            assert(cycles_cover_timing(0x48u8));
        } else if o == 0x49u8 {
            assert(cycles_cover_timing(0x49u8));
        } else if o == 0x4Au8 {
            assert(cycles_cover_timing(0x4Au8));
        } else if o == 0x4Bu8 {
            assert(cycles_cover_timing(0x4Bu8));
        } else if o == 0x4Cu8 {
            assert(cycles_cover_timing(0x4Cu8));
        } else if o == 0x4Du8 {
            assert(cycles_cover_timing(0x4Du8));
        } else if o == 0x4Eu8 {
            assert(cycles_cover_timing(0x4Eu8));
        } else {
            assert(o == 0x4Fu8);
            assert(cycles_cover_timing(0x4Fu8));
        }
    }
}

proof fn lemma_cycles_cover_timing_5()
    ensures
        forall|o: u8| 0x50 <= o <= 0x5F ==> cycles_cover_timing(o),
{
    assert forall|o: u8| 0x50 <= o <= 0x5F implies cycles_cover_timing(o) by {
        if o == 0x50u8 {
            assert(cycles_cover_timing(0x50u8));
        } else if o == 0x51u8 {
            assert(cycles_cover_timing(0x51u8));
        } else if o == 0x52u8 {
            assert(cycles_cover_timing(0x52u8));
        } else if o == 0x53u8 {
            assert(cycles_cover_timing(0x53u8));
        } else if o == 0x54u8 {
            assert(cycles_cover_timing(0x54u8));
        } else if o == 0x55u8 {
            assert(cycles_cover_timing(0x55u8));
        } else if o == 0x56u8 {
            assert(cycles_cover_timing(0x56u8));
        } else if o == 0x57u8 {
            assert(cycles_cover_timing(0x57u8));
        } else if o == 0x58u8 {
            assert(cycles_cover_timing(0x58u8));
        } else if o == 0x59u8 {
            assert(cycles_cover_timing(0x59u8));
        } else if o == 0x5Au8 {
            assert(cycles_cover_timing(0x5Au8));
        } else if o == 0x5Bu8 {
            assert(cycles_cover_timing(0x5Bu8));
        } else if o == 0x5Cu8 {
            assert(cycles_cover_timing(0x5Cu8));
        } else if o == 0x5Du8 {
            assert(cycles_cover_timing(0x5Du8));
        } else if o == 0x5Eu8 {
            assert(cycles_cover_timing(0x5Eu8));
        } else {
            assert(o == 0x5Fu8);
            assert(cycles_cover_timing(0x5Fu8));
        }
    }
}

proof fn lemma_cycles_cover_timing_6()
    ensures
        forall|o: u8| 0x60 <= o <= 0x6F ==> cycles_cover_timing(o),
{
    assert forall|o: u8| 0x60 <= o <= 0x6F implies cycles_cover_timing(o) by {
        if o == 0x60u8 {
            assert(cycles_cover_timing(0x60u8));
        } else if o == 0x61u8 {
            assert(cycles_cover_timing(0x61u8));
        } else if o == 0x62u8 {
            assert(cycles_cover_timing(0x62u8));
        } else if o == 0x63u8 {
            assert(cycles_cover_timing(0x63u8));
        } else if o == 0x64u8 {
            assert(cycles_cover_timing(0x64u8));
        } else if o == 0x65u8 {
            assert(cycles_cover_timing(0x65u8));
        } else if o == 0x66u8 {
            assert(cycles_cover_timing(0x66u8));
        } else if o == 0x67u8 {
            assert(cycles_cover_timing(0x67u8));
        } else if o == 0x68u8 {
            assert(cycles_cover_timing(0x68u8));
        } else if o == 0x69u8 {
            assert(cycles_cover_timing(0x69u8));
        } else if o == 0x6Au8 {
            assert(cycles_cover_timing(0x6Au8));
        } else if o == 0x6Bu8 {
            assert(cycles_cover_timing(0x6Bu8));
        } else if o == 0x6Cu8 {
            assert(cycles_cover_timing(0x6Cu8));
        } else if o == 0x6Du8 {
            assert(cycles_cover_timing(0x6Du8));
        } else if o == 0x6Eu8 {
            assert(cycles_cover_timing(0x6Eu8));
        } else {
            assert(o == 0x6Fu8);
            assert(cycles_cover_timing(0x6Fu8));
        }
    }
}

proof fn lemma_cycles_cover_timing_7()
    ensures
        forall|o: u8| 0x70 <= o <= 0x7F ==> cycles_cover_timing(o),
{
    assert forall|o: u8| 0x70 <= o <= 0x7F implies cycles_cover_timing(o) by {
        if o == 0x70u8 {
            assert(cycles_cover_timing(0x70u8));
        } else if o == 0x71u8 {
            assert(cycles_cover_timing(0x71u8));
        } else if o == 0x72u8 {
            assert(cycles_cover_timing(0x72u8));
        } else if o == 0x73u8 {
            assert(cycles_cover_timing(0x73u8));
        } else if o == 0x74u8 {
            assert(cycles_cover_timing(0x74u8));
        } else if o == 0x75u8 {
            assert(cycles_cover_timing(0x75u8));
        } else if o == 0x76u8 {
            assert(cycles_cover_timing(0x76u8));
        } else if o == 0x77u8 {
            assert(cycles_cover_timing(0x77u8));
        } else if o == 0x78u8 {
            assert(cycles_cover_timing(0x78u8));
        } else if o == 0x79u8 {
            assert(cycles_cover_timing(0x79u8));
        } else if o == 0x7Au8 {
            assert(cycles_cover_timing(0x7Au8));
        } else if o == 0x7Bu8 {
            assert(cycles_cover_timing(0x7Bu8));
        } else if o == 0x7Cu8 {
            assert(cycles_cover_timing(0x7Cu8));
        } else if o == 0x7Du8 {
            assert(cycles_cover_timing(0x7Du8));
        } else if o == 0x7Eu8 {
            assert(cycles_cover_timing(0x7Eu8));
        } else {
            assert(o == 0x7Fu8);
            assert(cycles_cover_timing(0x7Fu8));
        }
    }
}

proof fn lemma_cycles_cover_timing_8()
    ensures
        forall|o: u8| 0x80 <= o <= 0x8F ==> cycles_cover_timing(o),
{
    assert forall|o: u8| 0x80 <= o <= 0x8F implies cycles_cover_timing(o) by {
        if o == 0x80u8 {
            assert(cycles_cover_timing(0x80u8));
        } else if o == 0x81u8 {
            assert(cycles_cover_timing(0x81u8));
        } else if o == 0x82u8 {
            assert(cycles_cover_timing(0x82u8));
        } else if o == 0x83u8 {
            assert(cycles_cover_timing(0x83u8));
        } else if o == 0x84u8 {
            assert(cycles_cover_timing(0x84u8));
        } else if o == 0x85u8 {
            assert(cycles_cover_timing(0x85u8));
        } else if o == 0x86u8 {
            assert(cycles_cover_timing(0x86u8));
        } else if o == 0x87u8 {
            assert(cycles_cover_timing(0x87u8));
        } else if o == 0x88u8 {
            assert(cycles_cover_timing(0x88u8));
        } else if o == 0x89u8 {
            assert(cycles_cover_timing(0x89u8));
        } else if o == 0x8Au8 {
            assert(cycles_cover_timing(0x8Au8));
        } else if o == 0x8Bu8 {
            assert(cycles_cover_timing(0x8Bu8));
        } else if o == 0x8Cu8 {
            assert(cycles_cover_timing(0x8Cu8));
        } else if o == 0x8Du8 {
            assert(cycles_cover_timing(0x8Du8));
        } else if o == 0x8Eu8 {
            assert(cycles_cover_timing(0x8Eu8));
        } else {
            assert(o == 0x8Fu8);
            assert(cycles_cover_timing(0x8Fu8));
        }
    }
}

proof fn lemma_cycles_cover_timing_9()
    ensures
        forall|o: u8| 0x90 <= o <= 0x9F ==> cycles_cover_timing(o),
{
    assert forall|o: u8| 0x90 <= o <= 0x9F implies cycles_cover_timing(o) by {
        if o == 0x90u8 {
            assert(cycles_cover_timing(0x90u8));
        } else if o == 0x91u8 {
            assert(cycles_cover_timing(0x91u8));
        } else if o == 0x92u8 {
            assert(cycles_cover_timing(0x92u8));
        } else if o == 0x93u8 {
            assert(cycles_cover_timing(0x93u8));
        } else if o == 0x94u8 {
            assert(cycles_cover_timing(0x94u8));
        } else if o == 0x95u8 {
            assert(cycles_cover_timing(0x95u8));
        } else if o == 0x96u8 {
            assert(cycles_cover_timing(0x96u8));
        } else if o == 0x97u8 {
            assert(cycles_cover_timing(0x97u8));
        } else if o == 0x98u8 {
            assert(cycles_cover_timing(0x98u8));
        } else if o == 0x99u8 {
            assert(cycles_cover_timing(0x99u8));
        } else if o == 0x9Au8 {
            assert(cycles_cover_timing(0x9Au8));
        } else if o == 0x9Bu8 {
            assert(cycles_cover_timing(0x9Bu8));
        } else if o == 0x9Cu8 {
            assert(cycles_cover_timing(0x9Cu8));
        } else if o == 0x9Du8 {
            assert(cycles_cover_timing(0x9Du8));
        } else if o == 0x9Eu8 {
            assert(cycles_cover_timing(0x9Eu8));
        } else {
            assert(o == 0x9Fu8);
            assert(cycles_cover_timing(0x9Fu8));
        }
    }
}

proof fn lemma_cycles_cover_timing_A()
    ensures
        forall|o: u8| 0xA0 <= o <= 0xAF ==> cycles_cover_timing(o),
{
    assert forall|o: u8| 0xA0 <= o <= 0xAF implies cycles_cover_timing(o) by {
        if o == 0xA0u8 {
            assert(cycles_cover_timing(0xA0u8));
        } else if o == 0xA1u8 {
            assert(cycles_cover_timing(0xA1u8));
        } else if o == 0xA2u8 {
            assert(cycles_cover_timing(0xA2u8));
        } else if o == 0xA3u8 {
            assert(cycles_cover_timing(0xA3u8));
        } else if o == 0xA4u8 {
            assert(cycles_cover_timing(0xA4u8));
        } else if o == 0xA5u8 {
            assert(cycles_cover_timing(0xA5u8));
        } else if o == 0xA6u8 {
            assert(cycles_cover_timing(0xA6u8));
        } else if o == 0xA7u8 {
            assert(cycles_cover_timing(0xA7u8));
        } else if o == 0xA8u8 {
            assert(cycles_cover_timing(0xA8u8));
        } else if o == 0xA9u8 {
            assert(cycles_cover_timing(0xA9u8));
        } else if o == 0xAAu8 {
            assert(cycles_cover_timing(0xAAu8));
        } else if o == 0xABu8 {
            assert(cycles_cover_timing(0xABu8));
        } else if o == 0xACu8 {
            assert(cycles_cover_timing(0xACu8));
        } else if o == 0xADu8 {
            assert(cycles_cover_timing(0xADu8));
        } else if o == 0xAEu8 {
            assert(cycles_cover_timing(0xAEu8));
        } else {
            assert(o == 0xAFu8);
            assert(cycles_cover_timing(0xAFu8));
        }
    }
}

proof fn lemma_cycles_cover_timing_B()
    ensures
        forall|o: u8| 0xB0 <= o <= 0xBF ==> cycles_cover_timing(o),
{
    assert forall|o: u8| 0xB0 <= o <= 0xBF implies cycles_cover_timing(o) by {
        if o == 0xB0u8 {
            assert(cycles_cover_timing(0xB0u8));
        } else if o == 0xB1u8 {
            assert(cycles_cover_timing(0xB1u8));
        } else if o == 0xB2u8 {
            assert(cycles_cover_timing(0xB2u8));
        } else if o == 0xB3u8 {
            assert(cycles_cover_timing(0xB3u8));
        } else if o == 0xB4u8 {
            assert(cycles_cover_timing(0xB4u8));
        } else if o == 0xB5u8 {
            assert(cycles_cover_timing(0xB5u8));
        } else if o == 0xB6u8 {
            assert(cycles_cover_timing(0xB6u8));
        } else if o == 0xB7u8 {
            assert(cycles_cover_timing(0xB7u8));
        } else if o == 0xB8u8 {
            assert(cycles_cover_timing(0xB8u8));
        } else if o == 0xB9u8 {
            assert(cycles_cover_timing(0xB9u8));
        } else if o == 0xBAu8 {
            assert(cycles_cover_timing(0xBAu8));
        } else if o == 0xBBu8 {
            assert(cycles_cover_timing(0xBBu8));
        } else if o == 0xBCu8 {
            assert(cycles_cover_timing(0xBCu8));
        } else if o == 0xBDu8 {
            assert(cycles_cover_timing(0xBDu8));
        } else if o == 0xBEu8 {
            assert(cycles_cover_timing(0xBEu8));
        } else {
            assert(o == 0xBFu8);
            assert(cycles_cover_timing(0xBFu8));
        }
    }
}

proof fn lemma_cycles_cover_timing_C()
    ensures
        forall|o: u8| 0xC0 <= o <= 0xCF ==> cycles_cover_timing(o),
{
    assert forall|o: u8| 0xC0 <= o <= 0xCF implies cycles_cover_timing(o) by {
        if o == 0xC0u8 {
            assert(cycles_cover_timing(0xC0u8));
        } else if o == 0xC1u8 {
            assert(cycles_cover_timing(0xC1u8));
        } else if o == 0xC2u8 {
            assert(cycles_cover_timing(0xC2u8));
        } else if o == 0xC3u8 {
            assert(cycles_cover_timing(0xC3u8));
        } else if o == 0xC4u8 {
            assert(cycles_cover_timing(0xC4u8));
        } else if o == 0xC5u8 {
            assert(cycles_cover_timing(0xC5u8));
        } else if o == 0xC6u8 {
            assert(cycles_cover_timing(0xC6u8));
        } else if o == 0xC7u8 {
            assert(cycles_cover_timing(0xC7u8));
        } else if o == 0xC8u8 {
            assert(cycles_cover_timing(0xC8u8));
        } else if o == 0xC9u8 {
            assert(cycles_cover_timing(0xC9u8));
        } else if o == 0xCAu8 {
            assert(cycles_cover_timing(0xCAu8));
        } else if o == 0xCBu8 {
            assert(cycles_cover_timing(0xCBu8));
        } else if o == 0xCCu8 {
            assert(cycles_cover_timing(0xCCu8));
        } else if o == 0xCDu8 {
            assert(cycles_cover_timing(0xCDu8));
        } else if o == 0xCEu8 {
            assert(cycles_cover_timing(0xCEu8));
        } else {
            assert(o == 0xCFu8);
            assert(cycles_cover_timing(0xCFu8));
        }
    }
}

proof fn lemma_cycles_cover_timing_D()
    ensures
        forall|o: u8| 0xD0 <= o <= 0xDF ==> cycles_cover_timing(o),
{
    assert forall|o: u8| 0xD0 <= o <= 0xDF implies cycles_cover_timing(o) by {
        if o == 0xD0u8 {
            assert(cycles_cover_timing(0xD0u8));
        } else if o == 0xD1u8 {
            assert(cycles_cover_timing(0xD1u8));
        } else if o == 0xD2u8 {
            assert(cycles_cover_timing(0xD2u8));
        } else if o == 0xD3u8 {
            assert(cycles_cover_timing(0xD3u8));
        } else if o == 0xD4u8 {
            assert(cycles_cover_timing(0xD4u8));
        } else if o == 0xD5u8 {
            assert(cycles_cover_timing(0xD5u8));
        } else if o == 0xD6u8 {
            assert(cycles_cover_timing(0xD6u8));
        } else if o == 0xD7u8 {
            assert(cycles_cover_timing(0xD7u8));
        } else if o == 0xD8u8 {
            assert(cycles_cover_timing(0xD8u8));
        } else if o == 0xD9u8 {
            assert(cycles_cover_timing(0xD9u8));
        } else if o == 0xDAu8 {
            assert(cycles_cover_timing(0xDAu8));
        } else if o == 0xDBu8 {
            assert(cycles_cover_timing(0xDBu8));
        } else if o == 0xDCu8 {
            assert(cycles_cover_timing(0xDCu8));
        } else if o == 0xDDu8 {
            assert(cycles_cover_timing(0xDDu8));
        } else if o == 0xDEu8 {
            assert(cycles_cover_timing(0xDEu8));
        } else {
            assert(o == 0xDFu8);
            assert(cycles_cover_timing(0xDFu8));
        }
    }
}

proof fn lemma_cycles_cover_timing_E()
    ensures
        forall|o: u8| 0xE0 <= o <= 0xEF ==> cycles_cover_timing(o),
{
    assert forall|o: u8| 0xE0 <= o <= 0xEF implies cycles_cover_timing(o) by {
        if o == 0xE0u8 {
            assert(cycles_cover_timing(0xE0u8));
        } else if o == 0xE1u8 {
            assert(cycles_cover_timing(0xE1u8));
        } else if o == 0xE2u8 {
            assert(cycles_cover_timing(0xE2u8));
        } else if o == 0xE3u8 {
            assert(cycles_cover_timing(0xE3u8));
        } else if o == 0xE4u8 {
            assert(cycles_cover_timing(0xE4u8));
        } else if o == 0xE5u8 {
            assert(cycles_cover_timing(0xE5u8));
        } else if o == 0xE6u8 {
            assert(cycles_cover_timing(0xE6u8));
        } else if o == 0xE7u8 {
            assert(cycles_cover_timing(0xE7u8));
        } else if o == 0xE8u8 {
            assert(cycles_cover_timing(0xE8u8));
        } else if o == 0xE9u8 {
            assert(cycles_cover_timing(0xE9u8));
        } else if o == 0xEAu8 {
            assert(cycles_cover_timing(0xEAu8));
        } else if o == 0xEBu8 {
            assert(cycles_cover_timing(0xEBu8));
        } else if o == 0xECu8 {
            assert(cycles_cover_timing(0xECu8));
        } else if o == 0xEDu8 {
            assert(cycles_cover_timing(0xEDu8));
        } else if o == 0xEEu8 {
            assert(cycles_cover_timing(0xEEu8));
        } else {
            assert(o == 0xEFu8);
            assert(cycles_cover_timing(0xEFu8));
        }
    }
}

proof fn lemma_cycles_cover_timing_F()
    ensures
        forall|o: u8| 0xF0 <= o <= 0xFF ==> cycles_cover_timing(o),
{
    assert forall|o: u8| 0xF0 <= o <= 0xFF implies cycles_cover_timing(o) by {
        if o == 0xF0u8 {
            assert(cycles_cover_timing(0xF0u8));
        } else if o == 0xF1u8 {
            assert(cycles_cover_timing(0xF1u8));
        } else if o == 0xF2u8 {
            assert(cycles_cover_timing(0xF2u8));
        } else if o == 0xF3u8 {
            assert(cycles_cover_timing(0xF3u8));
        } else if o == 0xF4u8 {
            assert(cycles_cover_timing(0xF4u8));
        } else if o == 0xF5u8 {
            assert(cycles_cover_timing(0xF5u8));
        } else if o == 0xF6u8 {
            assert(cycles_cover_timing(0xF6u8));
        } else if o == 0xF7u8 {
            assert(cycles_cover_timing(0xF7u8));
        } else if o == 0xF8u8 {
            assert(cycles_cover_timing(0xF8u8));
        } else if o == 0xF9u8 {
            assert(cycles_cover_timing(0xF9u8));
        } else if o == 0xFAu8 {
            assert(cycles_cover_timing(0xFAu8));
        } else if o == 0xFBu8 {
            assert(cycles_cover_timing(0xFBu8));
        } else if o == 0xFCu8 {
            assert(cycles_cover_timing(0xFCu8));
        } else if o == 0xFDu8 {
            assert(cycles_cover_timing(0xFDu8));
        } else if o == 0xFEu8 {
            assert(cycles_cover_timing(0xFEu8));
        } else {
            assert(o == 0xFFu8);
            assert(cycles_cover_timing(0xFFu8));
        }
    }
}

/// For every opcode, the opcode fetch plus the addressing and execute cycles of
/// its instruction cover the longest cycle count of the timing table.
pub proof fn lemma_cycles_cover_timing()
    ensures
        forall|o: u8| cycles_cover_timing(o),
{
    lemma_cycles_cover_timing_0();
    lemma_cycles_cover_timing_1();
    lemma_cycles_cover_timing_2();
    lemma_cycles_cover_timing_3();
    lemma_cycles_cover_timing_4();
    lemma_cycles_cover_timing_5();
    lemma_cycles_cover_timing_6();
    lemma_cycles_cover_timing_7();
    lemma_cycles_cover_timing_8();
    lemma_cycles_cover_timing_9();
    lemma_cycles_cover_timing_A();
    lemma_cycles_cover_timing_B();
    lemma_cycles_cover_timing_C();
    lemma_cycles_cover_timing_D();
    lemma_cycles_cover_timing_E();
    lemma_cycles_cover_timing_F();
    assert forall|o: u8| cycles_cover_timing(o) by {
        if o <= 0x0F {
            assert(0x00 <= o <= 0x0F);
        } else if o <= 0x1F {
            assert(0x10 <= o <= 0x1F);
        } else if o <= 0x2F {
            assert(0x20 <= o <= 0x2F);
        } else if o <= 0x3F {
            assert(0x30 <= o <= 0x3F);
        } else if o <= 0x4F {
            assert(0x40 <= o <= 0x4F);
        } else if o <= 0x5F {
            assert(0x50 <= o <= 0x5F);
        } else if o <= 0x6F {
            assert(0x60 <= o <= 0x6F);
        } else if o <= 0x7F {
            assert(0x70 <= o <= 0x7F);
        } else if o <= 0x8F {
            assert(0x80 <= o <= 0x8F);
        } else if o <= 0x9F {
            assert(0x90 <= o <= 0x9F);
        } else if o <= 0xAF {
            assert(0xA0 <= o <= 0xAF);
        } else if o <= 0xBF {
            assert(0xB0 <= o <= 0xBF);
        } else if o <= 0xCF {
            assert(0xC0 <= o <= 0xCF);
        } else if o <= 0xDF {
            assert(0xD0 <= o <= 0xDF);
        } else if o <= 0xEF {
            assert(0xE0 <= o <= 0xEF);
        } else {
            assert(0xF0 <= o <= 0xFF);
        }
    }
}


/// The unindexed base address of an indexed mode: the operand word for the
/// absolute indexed modes, the word the zero-page pointer holds for `(zp),Y`.
pub open spec fn indexed_base(mode: Addressing, c: Cpu, m: Seq<u8>) -> u16 {
    let b1 = rd(m, c.pc.wrapping_add(1));
    if mode == Addressing::IndirectY {
        word(rd(m, b1 as u16), rd(m, (b1 as u16).wrapping_add(1) & 0x00FF))
    } else {
        word(b1, rd(m, c.pc.wrapping_add(2)))
    }
}

/// Whether the opcode latched in `c` always takes the fix-up cycle.
pub open spec fn latched_forces_fixup(c: Cpu) -> bool {
    match c.opcode_in_flight {
        Some(op) => Addressing::forces_dummy_read_cycle_spec(op),
        None => false,
    }
}

/// What holds after the addressing cycles of an indexed mode started with no
/// skip scheduled: the page crossing is recorded, and when the latched opcode
/// does not always take the fix-up cycle, that cycle is skipped exactly when no
/// page was crossed.
pub open spec fn after_indexing(instr: Instruction, c: Cpu, m: Seq<u8>) -> bool {
    let (c1, m1) = run_cycles(
        instr,
        opcode_fetched(c),
        m,
        instr.addressing.exec_len_spec() as nat,
    );
    let crossed = page_crossed_spec(
        indexed_base(instr.addressing, c, m),
        operand_address(instr.addressing, c, m),
    );
    &&& c1.crossed_page == crossed
    &&& c1.skip_cycles == (if !crossed && !latched_forces_fixup(c) {
        1u8
    } else {
        0u8
    })
}

proof fn lemma_indexing_absolute_x(mn: Mnemonic, c0: Cpu, m: Seq<u8>)
    requires
        c0.skip_cycles == 0,
    ensures
        after_indexing(Instruction { mnemonic: mn, addressing: Addressing::AbsoluteX }, c0, m),
{
    let instr = Instruction { mnemonic: mn, addressing: Addressing::AbsoluteX };
    let c = opcode_fetched(c0);
    assert(c0.pc.wrapping_add(1).wrapping_add(1) == c0.pc.wrapping_add(2));
    assert(run_cycles(instr, c, m, 0) == (c, m));
    let (c1, m1) = run_cycles(instr, c, m, 1);
    assert(m1 == m && c1.opcode_in_flight == c0.opcode_in_flight);
    let (c2, m2) = run_cycles(instr, c, m, 2);
    assert(m2 == m && c2.opcode_in_flight == c0.opcode_in_flight);
    let (c3, m3) = run_cycles(instr, c, m, 3);
    assert(m3 == m && c3.opcode_in_flight == c0.opcode_in_flight);
}

proof fn lemma_indexing_absolute_y(mn: Mnemonic, c0: Cpu, m: Seq<u8>)
    requires
        c0.skip_cycles == 0,
    ensures
        after_indexing(Instruction { mnemonic: mn, addressing: Addressing::AbsoluteY }, c0, m),
{
    let instr = Instruction { mnemonic: mn, addressing: Addressing::AbsoluteY };
    let c = opcode_fetched(c0);
    assert(c0.pc.wrapping_add(1).wrapping_add(1) == c0.pc.wrapping_add(2));
    assert(run_cycles(instr, c, m, 0) == (c, m));
    let (c1, m1) = run_cycles(instr, c, m, 1);
    assert(m1 == m && c1.opcode_in_flight == c0.opcode_in_flight);
    let (c2, m2) = run_cycles(instr, c, m, 2);
    assert(m2 == m && c2.opcode_in_flight == c0.opcode_in_flight);
    let (c3, m3) = run_cycles(instr, c, m, 3);
    assert(m3 == m && c3.opcode_in_flight == c0.opcode_in_flight);
}

proof fn lemma_indexing_indirect_y(mn: Mnemonic, c0: Cpu, m: Seq<u8>)
    requires
        c0.skip_cycles == 0,
    ensures
        after_indexing(Instruction { mnemonic: mn, addressing: Addressing::IndirectY }, c0, m),
{
    let instr = Instruction { mnemonic: mn, addressing: Addressing::IndirectY };
    let c = opcode_fetched(c0);
    assert(c0.pc.wrapping_add(1).wrapping_add(1) == c0.pc.wrapping_add(2));
    assert(run_cycles(instr, c, m, 0) == (c, m));
    let (c1, m1) = run_cycles(instr, c, m, 1);
    assert(m1 == m && c1.opcode_in_flight == c0.opcode_in_flight);
    let (c2, m2) = run_cycles(instr, c, m, 2);
    assert(m2 == m && c2.opcode_in_flight == c0.opcode_in_flight);
    let (c3, m3) = run_cycles(instr, c, m, 3);
    assert(m3 == m && c3.opcode_in_flight == c0.opcode_in_flight);
    let (c4, m4) = run_cycles(instr, c, m, 4);
    assert(m4 == m && c4.opcode_in_flight == c0.opcode_in_flight);
}

/// What the timing class of `opcode` says of its instruction: with a
/// page-crossing penalty, the mode is indexed and the cycles are one more than
/// the base count; for a branch, the instruction is a relative branch whose
/// cycles are two more than the base count.
pub open spec fn timing_shape(opcode: u8) -> bool {
    let instr = lookup_spec(opcode);
    &&& timing_spec(opcode) is PageCross ==> {
        &&& (instr.addressing == Addressing::AbsoluteX || instr.addressing == Addressing::AbsoluteY
            || instr.addressing == Addressing::IndirectY)
        &&& 1 + instr.len_spec() == timing_spec(opcode).basic_spec() + 1
    }
    &&& timing_spec(opcode) is Branch ==> {
        &&& is_branch(instr.mnemonic)
        &&& instr.addressing == Addressing::Relative
        &&& 1 + instr.len_spec() == timing_spec(opcode).basic_spec() + 2
    }
}

proof fn lemma_timing_shape_0()
    ensures
        forall|o: u8| 0x00 <= o <= 0x0F ==> timing_shape(o),
{
    assert forall|o: u8| 0x00 <= o <= 0x0F implies timing_shape(o) by {
        if o == 0x00u8 {
            assert(timing_shape(0x00u8));
        } else if o == 0x01u8 {
            assert(timing_shape(0x01u8));
        } else if o == 0x02u8 {
            assert(timing_shape(0x02u8));
        } else if o == 0x03u8 {
            assert(timing_shape(0x03u8));
        } else if o == 0x04u8 {
            assert(timing_shape(0x04u8));
        } else if o == 0x05u8 {
            assert(timing_shape(0x05u8));
        } else if o == 0x06u8 {
            assert(timing_shape(0x06u8));
        } else if o == 0x07u8 {
            assert(timing_shape(0x07u8));
        } else if o == 0x08u8 {
            assert(timing_shape(0x08u8));
        } else if o == 0x09u8 {
            assert(timing_shape(0x09u8));
        } else if o == 0x0Au8 {
            assert(timing_shape(0x0Au8));
        } else if o == 0x0Bu8 {
            assert(timing_shape(0x0Bu8));
        } else if o == 0x0Cu8 {
            assert(timing_shape(0x0Cu8));
        } else if o == 0x0Du8 {
            assert(timing_shape(0x0Du8));
        } else if o == 0x0Eu8 {
            assert(timing_shape(0x0Eu8));
        } else {
            assert(o == 0x0Fu8);
            assert(timing_shape(0x0Fu8));
        }
    }
}

proof fn lemma_timing_shape_1()
    ensures
        forall|o: u8| 0x10 <= o <= 0x1F ==> timing_shape(o),
{
    assert forall|o: u8| 0x10 <= o <= 0x1F implies timing_shape(o) by {
        if o == 0x10u8 {
            assert(timing_shape(0x10u8));
        } else if o == 0x11u8 {
            assert(timing_shape(0x11u8));
        } else if o == 0x12u8 {
            assert(timing_shape(0x12u8));
        } else if o == 0x13u8 {
            assert(timing_shape(0x13u8));
        } else if o == 0x14u8 {
            assert(timing_shape(0x14u8));
        } else if o == 0x15u8 {
            assert(timing_shape(0x15u8));
        } else if o == 0x16u8 {
            assert(timing_shape(0x16u8));
        } else if o == 0x17u8 {
            assert(timing_shape(0x17u8));
        } else if o == 0x18u8 {
            assert(timing_shape(0x18u8));
        } else if o == 0x19u8 {
            assert(timing_shape(0x19u8));
        } else if o == 0x1Au8 {
            assert(timing_shape(0x1Au8));
        } else if o == 0x1Bu8 {
            assert(timing_shape(0x1Bu8));
        } else if o == 0x1Cu8 {
            assert(timing_shape(0x1Cu8));
        } else if o == 0x1Du8 {
            assert(timing_shape(0x1Du8));
        } else if o == 0x1Eu8 {
            assert(timing_shape(0x1Eu8));
        } else {
            assert(o == 0x1Fu8);
            assert(timing_shape(0x1Fu8));
        }
    }
}

proof fn lemma_timing_shape_2()
    ensures
        forall|o: u8| 0x20 <= o <= 0x2F ==> timing_shape(o),
{
    assert forall|o: u8| 0x20 <= o <= 0x2F implies timing_shape(o) by {
        if o == 0x20u8 {
            assert(timing_shape(0x20u8));
        } else if o == 0x21u8 {
            assert(timing_shape(0x21u8));
        } else if o == 0x22u8 {
            assert(timing_shape(0x22u8));
        } else if o == 0x23u8 {
            assert(timing_shape(0x23u8));
        } else if o == 0x24u8 {
            assert(timing_shape(0x24u8));
        } else if o == 0x25u8 {
            assert(timing_shape(0x25u8));
        } else if o == 0x26u8 {
            assert(timing_shape(0x26u8));
        } else if o == 0x27u8 {
            assert(timing_shape(0x27u8));
        } else if o == 0x28u8 {
            assert(timing_shape(0x28u8));
        } else if o == 0x29u8 {
            assert(timing_shape(0x29u8));
        } else if o == 0x2Au8 {
            assert(timing_shape(0x2Au8));
        } else if o == 0x2Bu8 {
            assert(timing_shape(0x2Bu8));
        } else if o == 0x2Cu8 {
            assert(timing_shape(0x2Cu8));
        } else if o == 0x2Du8 {
            assert(timing_shape(0x2Du8));
        } else if o == 0x2Eu8 {
            assert(timing_shape(0x2Eu8));
        } else {
            assert(o == 0x2Fu8);
            assert(timing_shape(0x2Fu8));
        }
    }
}

proof fn lemma_timing_shape_3()
    ensures
        forall|o: u8| 0x30 <= o <= 0x3F ==> timing_shape(o),
{
    assert forall|o: u8| 0x30 <= o <= 0x3F implies timing_shape(o) by {
        if o == 0x30u8 {
            assert(timing_shape(0x30u8));
        } else if o == 0x31u8 {
            assert(timing_shape(0x31u8));
        } else if o == 0x32u8 {
            assert(timing_shape(0x32u8));
        } else if o == 0x33u8 {
            assert(timing_shape(0x33u8));
        } else if o == 0x34u8 {
            assert(timing_shape(0x34u8));
        } else if o == 0x35u8 {
            assert(timing_shape(0x35u8));
        } else if o == 0x36u8 {
            assert(timing_shape(0x36u8));
        } else if o == 0x37u8 {
            assert(timing_shape(0x37u8));
        } else if o == 0x38u8 {
            assert(timing_shape(0x38u8));
        } else if o == 0x39u8 {
            assert(timing_shape(0x39u8));
        } else if o == 0x3Au8 {
            assert(timing_shape(0x3Au8));
        } else if o == 0x3Bu8 {
            assert(timing_shape(0x3Bu8));
        } else if o == 0x3Cu8 {
            assert(timing_shape(0x3Cu8));
        } else if o == 0x3Du8 {
            assert(timing_shape(0x3Du8));
        } else if o == 0x3Eu8 {
            assert(timing_shape(0x3Eu8));
        } else {
            assert(o == 0x3Fu8);
            assert(timing_shape(0x3Fu8));
        }
    }
}

proof fn lemma_timing_shape_4()
    ensures
        forall|o: u8| 0x40 <= o <= 0x4F ==> timing_shape(o),
{
    assert forall|o: u8| 0x40 <= o <= 0x4F implies timing_shape(o) by {
        if o == 0x40u8 {
            assert(timing_shape(0x40u8));
        } else if o == 0x41u8 {
            assert(timing_shape(0x41u8));
        } else if o == 0x42u8 {
            assert(timing_shape(0x42u8));
        } else if o == 0x43u8 {
            assert(timing_shape(0x43u8));
        } else if o == 0x44u8 {
            assert(timing_shape(0x44u8));
        } else if o == 0x45u8 {
            assert(timing_shape(0x45u8));
        } else if o == 0x46u8 {
            assert(timing_shape(0x46u8));
        } else if o == 0x47u8 {
            assert(timing_shape(0x47u8));
        } else if o == 0x48u8 {
            assert(timing_shape(0x48u8));
        } else if o == 0x49u8 {
            assert(timing_shape(0x49u8));
        } else if o == 0x4Au8 {
            assert(timing_shape(0x4Au8));
        } else if o == 0x4Bu8 {
            assert(timing_shape(0x4Bu8));
        } else if o == 0x4Cu8 {
            assert(timing_shape(0x4Cu8));
        } else if o == 0x4Du8 {
            assert(timing_shape(0x4Du8));
        } else if o == 0x4Eu8 {
            assert(timing_shape(0x4Eu8));
        } else {
            assert(o == 0x4Fu8);
            assert(timing_shape(0x4Fu8));
        }
    }
}

proof fn lemma_timing_shape_5()
    ensures
        forall|o: u8| 0x50 <= o <= 0x5F ==> timing_shape(o),
{
    assert forall|o: u8| 0x50 <= o <= 0x5F implies timing_shape(o) by {
        if o == 0x50u8 {
            assert(timing_shape(0x50u8));
        } else if o == 0x51u8 {
            assert(timing_shape(0x51u8));
        } else if o == 0x52u8 {
            assert(timing_shape(0x52u8));
        } else if o == 0x53u8 {
            assert(timing_shape(0x53u8));
        } else if o == 0x54u8 {
            assert(timing_shape(0x54u8));
        } else if o == 0x55u8 {
            assert(timing_shape(0x55u8));
        } else if o == 0x56u8 {
            assert(timing_shape(0x56u8));
        } else if o == 0x57u8 {
            assert(timing_shape(0x57u8));
        } else if o == 0x58u8 {
            assert(timing_shape(0x58u8));
        } else if o == 0x59u8 {
            assert(timing_shape(0x59u8));
        } else if o == 0x5Au8 {
            assert(timing_shape(0x5Au8));
        } else if o == 0x5Bu8 {
            assert(timing_shape(0x5Bu8));
        } else if o == 0x5Cu8 {
            assert(timing_shape(0x5Cu8));
        } else if o == 0x5Du8 {
            assert(timing_shape(0x5Du8));
        } else if o == 0x5Eu8 {
            assert(timing_shape(0x5Eu8));
        } else {
            assert(o == 0x5Fu8);
            assert(timing_shape(0x5Fu8));
        }
    }
}

proof fn lemma_timing_shape_6()
    ensures
        forall|o: u8| 0x60 <= o <= 0x6F ==> timing_shape(o),
{
    assert forall|o: u8| 0x60 <= o <= 0x6F implies timing_shape(o) by {
        if o == 0x60u8 {
            assert(timing_shape(0x60u8));
        } else if o == 0x61u8 {
            assert(timing_shape(0x61u8));
        } else if o == 0x62u8 {
            assert(timing_shape(0x62u8));
        } else if o == 0x63u8 {
            assert(timing_shape(0x63u8));
        } else if o == 0x64u8 {
            assert(timing_shape(0x64u8));
        } else if o == 0x65u8 {
            assert(timing_shape(0x65u8));
        } else if o == 0x66u8 {
            assert(timing_shape(0x66u8));
        } else if o == 0x67u8 {
            assert(timing_shape(0x67u8));
        } else if o == 0x68u8 {
            assert(timing_shape(0x68u8));
        } else if o == 0x69u8 {
            assert(timing_shape(0x69u8));
        } else if o == 0x6Au8 {
            assert(timing_shape(0x6Au8));
        } else if o == 0x6Bu8 {
            assert(timing_shape(0x6Bu8));
        } else if o == 0x6Cu8 {
            assert(timing_shape(0x6Cu8));
        } else if o == 0x6Du8 {
            assert(timing_shape(0x6Du8));
        } else if o == 0x6Eu8 {
            assert(timing_shape(0x6Eu8));
        } else {
            assert(o == 0x6Fu8);
            assert(timing_shape(0x6Fu8));
        }
    }
}

proof fn lemma_timing_shape_7()
    ensures
        forall|o: u8| 0x70 <= o <= 0x7F ==> timing_shape(o),
{
    assert forall|o: u8| 0x70 <= o <= 0x7F implies timing_shape(o) by {
        if o == 0x70u8 {
            assert(timing_shape(0x70u8));
        } else if o == 0x71u8 {
            assert(timing_shape(0x71u8));
        } else if o == 0x72u8 {
            assert(timing_shape(0x72u8));
        } else if o == 0x73u8 {
            assert(timing_shape(0x73u8));
        } else if o == 0x74u8 {
            assert(timing_shape(0x74u8));
        } else if o == 0x75u8 {
            assert(timing_shape(0x75u8));
        } else if o == 0x76u8 {
            assert(timing_shape(0x76u8));
        } else if o == 0x77u8 {
            assert(timing_shape(0x77u8));
        } else if o == 0x78u8 {
            assert(timing_shape(0x78u8));
        } else if o == 0x79u8 {
            assert(timing_shape(0x79u8));
        } else if o == 0x7Au8 {
            assert(timing_shape(0x7Au8));
        } else if o == 0x7Bu8 {
            assert(timing_shape(0x7Bu8));
        } else if o == 0x7Cu8 {
            assert(timing_shape(0x7Cu8));
        } else if o == 0x7Du8 {
            assert(timing_shape(0x7Du8));
        } else if o == 0x7Eu8 {
            assert(timing_shape(0x7Eu8));
        } else {
            assert(o == 0x7Fu8);
            assert(timing_shape(0x7Fu8));
        }
    }
}

proof fn lemma_timing_shape_8()
    ensures
        forall|o: u8| 0x80 <= o <= 0x8F ==> timing_shape(o),
{
    assert forall|o: u8| 0x80 <= o <= 0x8F implies timing_shape(o) by {
        if o == 0x80u8 {
            assert(timing_shape(0x80u8));
        } else if o == 0x81u8 {
            assert(timing_shape(0x81u8));
        } else if o == 0x82u8 {
            assert(timing_shape(0x82u8));
        } else if o == 0x83u8 {
            assert(timing_shape(0x83u8));
        } else if o == 0x84u8 {
            assert(timing_shape(0x84u8));
        } else if o == 0x85u8 {
            assert(timing_shape(0x85u8));
        } else if o == 0x86u8 {
            assert(timing_shape(0x86u8));
        } else if o == 0x87u8 {
            assert(timing_shape(0x87u8));
        } else if o == 0x88u8 {
            assert(timing_shape(0x88u8));
        } else if o == 0x89u8 {
            assert(timing_shape(0x89u8));
        } else if o == 0x8Au8 {
            assert(timing_shape(0x8Au8));
        } else if o == 0x8Bu8 {
            assert(timing_shape(0x8Bu8));
        } else if o == 0x8Cu8 {
            assert(timing_shape(0x8Cu8));
        } else if o == 0x8Du8 {
            assert(timing_shape(0x8Du8));
        } else if o == 0x8Eu8 {
            assert(timing_shape(0x8Eu8));
        } else {
            assert(o == 0x8Fu8);
            assert(timing_shape(0x8Fu8));
        }
    }
}

proof fn lemma_timing_shape_9()
    ensures
        forall|o: u8| 0x90 <= o <= 0x9F ==> timing_shape(o),
{
    assert forall|o: u8| 0x90 <= o <= 0x9F implies timing_shape(o) by {
        if o == 0x90u8 {
            assert(timing_shape(0x90u8));
        } else if o == 0x91u8 {
            assert(timing_shape(0x91u8));
        } else if o == 0x92u8 {
            assert(timing_shape(0x92u8));
        } else if o == 0x93u8 {
            assert(timing_shape(0x93u8));
        } else if o == 0x94u8 {
            assert(timing_shape(0x94u8));
        } else if o == 0x95u8 {
            assert(timing_shape(0x95u8));
        } else if o == 0x96u8 {
            assert(timing_shape(0x96u8));
        } else if o == 0x97u8 {
            assert(timing_shape(0x97u8));
        } else if o == 0x98u8 {
            assert(timing_shape(0x98u8));
        } else if o == 0x99u8 {
            assert(timing_shape(0x99u8));
        } else if o == 0x9Au8 {
            assert(timing_shape(0x9Au8));
        } else if o == 0x9Bu8 {
            assert(timing_shape(0x9Bu8));
        } else if o == 0x9Cu8 {
            assert(timing_shape(0x9Cu8));
        } else if o == 0x9Du8 {
            assert(timing_shape(0x9Du8));
        } else if o == 0x9Eu8 {
            assert(timing_shape(0x9Eu8));
        } else {
            assert(o == 0x9Fu8);
            assert(timing_shape(0x9Fu8));
        }
    }
}

proof fn lemma_timing_shape_A()
    ensures
        forall|o: u8| 0xA0 <= o <= 0xAF ==> timing_shape(o),
{
    assert forall|o: u8| 0xA0 <= o <= 0xAF implies timing_shape(o) by {
        if o == 0xA0u8 {
            assert(timing_shape(0xA0u8));
        } else if o == 0xA1u8 {
            assert(timing_shape(0xA1u8));
        } else if o == 0xA2u8 {
            assert(timing_shape(0xA2u8));
        } else if o == 0xA3u8 {
            assert(timing_shape(0xA3u8));
        } else if o == 0xA4u8 {
            assert(timing_shape(0xA4u8));
        } else if o == 0xA5u8 {
            assert(timing_shape(0xA5u8));
        } else if o == 0xA6u8 {
            assert(timing_shape(0xA6u8));
        } else if o == 0xA7u8 {
            assert(timing_shape(0xA7u8));
        } else if o == 0xA8u8 {
            assert(timing_shape(0xA8u8));
        } else if o == 0xA9u8 {
            assert(timing_shape(0xA9u8));
        } else if o == 0xAAu8 {
            assert(timing_shape(0xAAu8));
        } else if o == 0xABu8 {
            assert(timing_shape(0xABu8));
        } else if o == 0xACu8 {
            assert(timing_shape(0xACu8));
        } else if o == 0xADu8 {
            assert(timing_shape(0xADu8));
        } else if o == 0xAEu8 {
            assert(timing_shape(0xAEu8));
        } else {
            assert(o == 0xAFu8);
            assert(timing_shape(0xAFu8));
        }
    }
}

proof fn lemma_timing_shape_B()
    ensures
        forall|o: u8| 0xB0 <= o <= 0xBF ==> timing_shape(o),
{
    assert forall|o: u8| 0xB0 <= o <= 0xBF implies timing_shape(o) by {
        if o == 0xB0u8 {
            assert(timing_shape(0xB0u8));
        } else if o == 0xB1u8 {
            assert(timing_shape(0xB1u8));
        } else if o == 0xB2u8 {
            assert(timing_shape(0xB2u8));
        } else if o == 0xB3u8 {
            assert(timing_shape(0xB3u8));
        } else if o == 0xB4u8 {
            assert(timing_shape(0xB4u8));
        } else if o == 0xB5u8 {
            assert(timing_shape(0xB5u8));
        } else if o == 0xB6u8 {
            assert(timing_shape(0xB6u8));
        } else if o == 0xB7u8 {
            assert(timing_shape(0xB7u8));
        } else if o == 0xB8u8 {
            assert(timing_shape(0xB8u8));
        } else if o == 0xB9u8 {
            assert(timing_shape(0xB9u8));
        } else if o == 0xBAu8 {
            assert(timing_shape(0xBAu8));
        } else if o == 0xBBu8 {
            assert(timing_shape(0xBBu8));
        } else if o == 0xBCu8 {
            assert(timing_shape(0xBCu8));
        } else if o == 0xBDu8 {
            assert(timing_shape(0xBDu8));
        } else if o == 0xBEu8 {
            assert(timing_shape(0xBEu8));
        } else {
            assert(o == 0xBFu8);
            assert(timing_shape(0xBFu8));
        }
    }
}

proof fn lemma_timing_shape_C()
    ensures
        forall|o: u8| 0xC0 <= o <= 0xCF ==> timing_shape(o),
{
    assert forall|o: u8| 0xC0 <= o <= 0xCF implies timing_shape(o) by {
        if o == 0xC0u8 {
            assert(timing_shape(0xC0u8));
        } else if o == 0xC1u8 {
            assert(timing_shape(0xC1u8));
        } else if o == 0xC2u8 {
            assert(timing_shape(0xC2u8));
        } else if o == 0xC3u8 {
            assert(timing_shape(0xC3u8));
        } else if o == 0xC4u8 {
            assert(timing_shape(0xC4u8));
        } else if o == 0xC5u8 {
            assert(timing_shape(0xC5u8));
        } else if o == 0xC6u8 {
            assert(timing_shape(0xC6u8));
        } else if o == 0xC7u8 {
            assert(timing_shape(0xC7u8));
        } else if o == 0xC8u8 {
            assert(timing_shape(0xC8u8));
        } else if o == 0xC9u8 {
            assert(timing_shape(0xC9u8));
        } else if o == 0xCAu8 {
            assert(timing_shape(0xCAu8));
        } else if o == 0xCBu8 {
            assert(timing_shape(0xCBu8));
        } else if o == 0xCCu8 {
            assert(timing_shape(0xCCu8));
        } else if o == 0xCDu8 {
            assert(timing_shape(0xCDu8));
        } else if o == 0xCEu8 {
            assert(timing_shape(0xCEu8));
        } else {
            assert(o == 0xCFu8);
            assert(timing_shape(0xCFu8));
        }
    }
}

proof fn lemma_timing_shape_D()
    ensures
        forall|o: u8| 0xD0 <= o <= 0xDF ==> timing_shape(o),
{
    assert forall|o: u8| 0xD0 <= o <= 0xDF implies timing_shape(o) by {
        if o == 0xD0u8 {
            assert(timing_shape(0xD0u8));
        } else if o == 0xD1u8 {
            assert(timing_shape(0xD1u8));
        } else if o == 0xD2u8 {
            assert(timing_shape(0xD2u8));
        } else if o == 0xD3u8 {
            assert(timing_shape(0xD3u8));
        } else if o == 0xD4u8 {
            assert(timing_shape(0xD4u8));
        } else if o == 0xD5u8 {
            assert(timing_shape(0xD5u8));
        } else if o == 0xD6u8 {
            assert(timing_shape(0xD6u8));
        } else if o == 0xD7u8 {
            assert(timing_shape(0xD7u8));
        } else if o == 0xD8u8 {
            assert(timing_shape(0xD8u8));
        } else if o == 0xD9u8 {
            assert(timing_shape(0xD9u8));
        } else if o == 0xDAu8 {
            assert(timing_shape(0xDAu8));
        } else if o == 0xDBu8 {
            assert(timing_shape(0xDBu8));
        } else if o == 0xDCu8 {
            assert(timing_shape(0xDCu8));
        } else if o == 0xDDu8 {
            assert(timing_shape(0xDDu8));
        } else if o == 0xDEu8 {
            assert(timing_shape(0xDEu8));
        } else {
            assert(o == 0xDFu8);
            assert(timing_shape(0xDFu8));
        }
    }
}

proof fn lemma_timing_shape_E()
    ensures
        forall|o: u8| 0xE0 <= o <= 0xEF ==> timing_shape(o),
{
    assert forall|o: u8| 0xE0 <= o <= 0xEF implies timing_shape(o) by {
        if o == 0xE0u8 {
            assert(timing_shape(0xE0u8));
        } else if o == 0xE1u8 {
            assert(timing_shape(0xE1u8));
        } else if o == 0xE2u8 {
            assert(timing_shape(0xE2u8));
        } else if o == 0xE3u8 {
            assert(timing_shape(0xE3u8));
        } else if o == 0xE4u8 {
            assert(timing_shape(0xE4u8));
        } else if o == 0xE5u8 {
            assert(timing_shape(0xE5u8));
        } else if o == 0xE6u8 {
            assert(timing_shape(0xE6u8));
        } else if o == 0xE7u8 {
            assert(timing_shape(0xE7u8));
        } else if o == 0xE8u8 {
            assert(timing_shape(0xE8u8));
        } else if o == 0xE9u8 {
            assert(timing_shape(0xE9u8));
        } else if o == 0xEAu8 {
            assert(timing_shape(0xEAu8));
        } else if o == 0xEBu8 {
            assert(timing_shape(0xEBu8));
        } else if o == 0xECu8 {
            assert(timing_shape(0xECu8));
        } else if o == 0xEDu8 {
            assert(timing_shape(0xEDu8));
        } else if o == 0xEEu8 {
            assert(timing_shape(0xEEu8));
        } else {
            assert(o == 0xEFu8);
            assert(timing_shape(0xEFu8));
        }
    }
}

proof fn lemma_timing_shape_F()
    ensures
        forall|o: u8| 0xF0 <= o <= 0xFF ==> timing_shape(o),
{
    assert forall|o: u8| 0xF0 <= o <= 0xFF implies timing_shape(o) by {
        if o == 0xF0u8 {
            assert(timing_shape(0xF0u8));
        } else if o == 0xF1u8 {
            assert(timing_shape(0xF1u8));
        } else if o == 0xF2u8 {
            assert(timing_shape(0xF2u8));
        } else if o == 0xF3u8 {
            assert(timing_shape(0xF3u8));
        } else if o == 0xF4u8 {
            assert(timing_shape(0xF4u8));
        } else if o == 0xF5u8 {
            assert(timing_shape(0xF5u8));
        } else if o == 0xF6u8 {
            assert(timing_shape(0xF6u8));
        } else if o == 0xF7u8 {
            assert(timing_shape(0xF7u8));
        } else if o == 0xF8u8 {
            assert(timing_shape(0xF8u8));
        } else if o == 0xF9u8 {
            assert(timing_shape(0xF9u8));
        } else if o == 0xFAu8 {
            assert(timing_shape(0xFAu8));
        } else if o == 0xFBu8 {
            assert(timing_shape(0xFBu8));
        } else if o == 0xFCu8 {
            assert(timing_shape(0xFCu8));
        } else if o == 0xFDu8 {
            assert(timing_shape(0xFDu8));
        } else if o == 0xFEu8 {
            assert(timing_shape(0xFEu8));
        } else {
            assert(o == 0xFFu8);
            assert(timing_shape(0xFFu8));
        }
    }
}

proof fn lemma_timing_shape(o: u8)
    ensures
        timing_shape(o),
{
    lemma_timing_shape_0();
    lemma_timing_shape_1();
    lemma_timing_shape_2();
    lemma_timing_shape_3();
    lemma_timing_shape_4();
    lemma_timing_shape_5();
    lemma_timing_shape_6();
    lemma_timing_shape_7();
    lemma_timing_shape_8();
    lemma_timing_shape_9();
    lemma_timing_shape_A();
    lemma_timing_shape_B();
    lemma_timing_shape_C();
    lemma_timing_shape_D();
    lemma_timing_shape_E();
    lemma_timing_shape_F();
}

/// Every opcode whose timing has a page-crossing penalty runs, from the opcode
/// fetch with no skip scheduled, its addressing cycles so that the cycles it
/// then takes (opcode fetch, addressing and execute cycles, less the skipped
/// fix-up cycle) are the timing table's count for whether a page was crossed.
pub proof fn lemma_page_cross_timing(o: u8, c: Cpu, m: Seq<u8>)
    requires
        timing_spec(o) is PageCross,
        c.opcode_in_flight == Some(o),
        c.skip_cycles == 0,
    ensures
        ({
            let instr = lookup_spec(o);
            let (c1, m1) = run_cycles(
                instr,
                opcode_fetched(c),
                m,
                instr.addressing.exec_len_spec() as nat,
            );
            &&& c1.crossed_page == page_crossed_spec(
                indexed_base(instr.addressing, c, m),
                operand_address(instr.addressing, c, m),
            )
            &&& c1.skip_cycles == (if c1.crossed_page {
                0u8
            } else {
                1u8
            })
            &&& 1 + instr.len_spec() - c1.skip_cycles == timing_spec(o).total_spec(
                c1.crossed_page,
                false,
            )
        }),
{
    lemma_timing_shape(o);
    let instr = lookup_spec(o);
    assert(!latched_forces_fixup(c));
    match instr.addressing {
        Addressing::AbsoluteX => lemma_indexing_absolute_x(instr.mnemonic, c, m),
        Addressing::AbsoluteY => lemma_indexing_absolute_y(instr.mnemonic, c, m),
        _ => lemma_indexing_indirect_y(instr.mnemonic, c, m),
    }
}


/// Every branch opcode, run from the opcode fetch with no skip scheduled:
/// when not taken, its first cycle schedules the skip of the other two, so it
/// takes the table's count for a branch not taken; when taken, PC moves by the
/// signed offset and the fix-up cycle is skipped exactly when the target is on
/// the same page, so it takes the table's count for a taken branch.
pub proof fn lemma_branch_timing(o: u8, c: Cpu, m: Seq<u8>)
    requires
        timing_spec(o) is Branch,
        c.opcode_in_flight == Some(o),
        c.skip_cycles == 0,
    ensures
        ({
            let instr = lookup_spec(o);
            let taken = branch_taken(instr.mnemonic, c);
            let (c1, m1) = run_cycles(instr, opcode_fetched(c), m, 1);
            let (c2, m2) = run_cycles(instr, opcode_fetched(c), m, 2);
            let operand_end = c.pc.wrapping_add(2);
            let target = operand_end.wrapping_add((rd(m, c.pc.wrapping_add(1)) as i8) as u16);
            let crossed = page_crossed_spec(operand_end, target);
            &&& !taken ==> c1.skip_cycles == 2 && 1 + instr.len_spec() - c1.skip_cycles
                == timing_spec(o).total_spec(false, false)
            &&& taken ==> c2.pc == target && c2.skip_cycles == (if crossed {
                0u8
            } else {
                1u8
            }) && 1 + instr.len_spec() - c2.skip_cycles == timing_spec(o).total_spec(
                crossed,
                true,
            )
        }),
{
    lemma_timing_shape(o);
    let instr = lookup_spec(o);
    let cf = opcode_fetched(c);
    assert(c.pc.wrapping_add(1).wrapping_add(1) == c.pc.wrapping_add(2));
    assert(run_cycles(instr, cf, m, 0) == (cf, m));
    reveal(exec_cycle);
    let (c1, m1) = run_cycles(instr, cf, m, 1);
    assert(c1.p == c.p && c1.pc == c.pc.wrapping_add(2) && c1.opcode_in_flight == Some(o));
    assert(c1.tmp == rd(m, c.pc.wrapping_add(1)));
    let (c2, m2) = run_cycles(instr, cf, m, 2);
    assert(!latched_forces_fixup(c1));
}

} // verus!
