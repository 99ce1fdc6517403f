//! What the one-cycle register, flag, load, store and logic instructions and
//! the stack and memory increments do, stated over integers and flags.

use vstd::prelude::*;

use crate::cpu::{rd, Cpu};
use crate::mnemonic::arith::keeps_control_flags;
use crate::mnemonic::Mnemonic;
use crate::status::{is_flag, lemma_with_flag, lemma_with_zn, Status};

verus! {

/// Whether `after` holds Z and N as they describe `r`, and agrees with `before`
/// on the other six flags.
pub open spec fn sets_zn(before: Status, after: Status, r: u8) -> bool {
    &&& after.has(Status::ZERO) == (r == 0)
    &&& after.has(Status::NEGATIVE) == (r >= 0x80)
    &&& after.has(Status::CARRY) == before.has(Status::CARRY)
    &&& after.has(Status::OVERFLOW) == before.has(Status::OVERFLOW)
    &&& keeps_control_flags(before, after)
}

/// Taking Z and N from `r` sets them as they describe `r` and keeps the others.
pub proof fn lemma_sets_zn(p: Status, r: u8)
    ensures
        sets_zn(p, p.with_zn(r), r),
{
    lemma_with_zn(p, r, Status::CARRY);
    lemma_with_zn(p, r, Status::OVERFLOW);
    lemma_with_zn(p, r, Status::INTERRUPT);
    lemma_with_zn(p, r, Status::DECIMAL);
    lemma_with_zn(p, r, Status::BREAK);
    lemma_with_zn(p, r, Status::UNUSED);
}

/// INX, INY, DEX and DEY add or subtract one modulo 256 in their register and
/// set Z and N from the result; nothing else changes.
pub proof fn lemma_index_steps(c: Cpu, m: Seq<u8>)
    ensures
        ({
            let r = Mnemonic::INX.step_spec(c, m, 0);
            &&& r.0.x == (c.x + 1) % 256
            &&& sets_zn(c.p, r.0.p, r.0.x)
            &&& r.0 == (Cpu { x: r.0.x, p: r.0.p, ..c })
            &&& r.1 == m
        }),
        ({
            let r = Mnemonic::INY.step_spec(c, m, 0);
            &&& r.0.y == (c.y + 1) % 256
            &&& sets_zn(c.p, r.0.p, r.0.y)
            &&& r.0 == (Cpu { y: r.0.y, p: r.0.p, ..c })
            &&& r.1 == m
        }),
        ({
            let r = Mnemonic::DEX.step_spec(c, m, 0);
            &&& r.0.x == (c.x - 1) % 256
            &&& sets_zn(c.p, r.0.p, r.0.x)
            &&& r.0 == (Cpu { x: r.0.x, p: r.0.p, ..c })
            &&& r.1 == m
        }),
        ({
            let r = Mnemonic::DEY.step_spec(c, m, 0);
            &&& r.0.y == (c.y - 1) % 256
            &&& sets_zn(c.p, r.0.p, r.0.y)
            &&& r.0 == (Cpu { y: r.0.y, p: r.0.p, ..c })
            &&& r.1 == m
        }),
{
    lemma_sets_zn(c.p, c.x.wrapping_add(1));
    lemma_sets_zn(c.p, c.y.wrapping_add(1));
    lemma_sets_zn(c.p, c.x.wrapping_sub(1));
    lemma_sets_zn(c.p, c.y.wrapping_sub(1));
}

/// TAX, TAY, TXA, TYA and TSX copy one register into another and set Z and N
/// from the copied value; TXS copies X into S and leaves the flags alone.
pub proof fn lemma_transfer_steps(c: Cpu, m: Seq<u8>)
    ensures
        Mnemonic::TAX.step_spec(c, m, 0).0 == (Cpu {
            x: c.a,
            p: Mnemonic::TAX.step_spec(c, m, 0).0.p,
            ..c
        }),
        sets_zn(c.p, Mnemonic::TAX.step_spec(c, m, 0).0.p, c.a),
        Mnemonic::TAY.step_spec(c, m, 0).0 == (Cpu {
            y: c.a,
            p: Mnemonic::TAY.step_spec(c, m, 0).0.p,
            ..c
        }),
        sets_zn(c.p, Mnemonic::TAY.step_spec(c, m, 0).0.p, c.a),
        Mnemonic::TXA.step_spec(c, m, 0).0 == (Cpu {
            a: c.x,
            p: Mnemonic::TXA.step_spec(c, m, 0).0.p,
            ..c
        }),
        sets_zn(c.p, Mnemonic::TXA.step_spec(c, m, 0).0.p, c.x),
        Mnemonic::TYA.step_spec(c, m, 0).0 == (Cpu {
            a: c.y,
            p: Mnemonic::TYA.step_spec(c, m, 0).0.p,
            ..c
        }),
        sets_zn(c.p, Mnemonic::TYA.step_spec(c, m, 0).0.p, c.y),
        Mnemonic::TSX.step_spec(c, m, 0).0 == (Cpu {
            x: c.s,
            p: Mnemonic::TSX.step_spec(c, m, 0).0.p,
            ..c
        }),
        sets_zn(c.p, Mnemonic::TSX.step_spec(c, m, 0).0.p, c.s),
        Mnemonic::TXS.step_spec(c, m, 0).0 == (Cpu { s: c.x, ..c }),
        forall|mn: Mnemonic|
            #![trigger mn.step_spec(c, m, 0)]
            mn == Mnemonic::TAX || mn == Mnemonic::TAY || mn == Mnemonic::TXA || mn
                == Mnemonic::TYA || mn == Mnemonic::TSX || mn == Mnemonic::TXS ==> mn.step_spec(
                c,
                m,
                0,
            ).1 == m,
{
    lemma_sets_zn(c.p, c.a);
    lemma_sets_zn(c.p, c.x);
    lemma_sets_zn(c.p, c.y);
    lemma_sets_zn(c.p, c.s);
}

/// Whether `after` holds `mask` as `value` and agrees with `before` on every
/// other flag.
pub open spec fn sets_flag(before: Status, after: Status, mask: u8, value: bool) -> bool {
    forall|f: u8| #[trigger] is_flag(f) ==> after.has(f) == if f == mask {
        value
    } else {
        before.has(f)
    }
}

/// CLC, SEC, CLI, SEI, CLD, SED and CLV clear or set their one flag and change
/// nothing else.
pub proof fn lemma_flag_steps(c: Cpu, m: Seq<u8>)
    ensures
        sets_flag(c.p, Mnemonic::CLC.step_spec(c, m, 0).0.p, Status::CARRY, false),
        sets_flag(c.p, Mnemonic::SEC.step_spec(c, m, 0).0.p, Status::CARRY, true),
        sets_flag(c.p, Mnemonic::CLI.step_spec(c, m, 0).0.p, Status::INTERRUPT, false),
        sets_flag(c.p, Mnemonic::SEI.step_spec(c, m, 0).0.p, Status::INTERRUPT, true),
        sets_flag(c.p, Mnemonic::CLD.step_spec(c, m, 0).0.p, Status::DECIMAL, false),
        sets_flag(c.p, Mnemonic::SED.step_spec(c, m, 0).0.p, Status::DECIMAL, true),
        sets_flag(c.p, Mnemonic::CLV.step_spec(c, m, 0).0.p, Status::OVERFLOW, false),
        forall|mn: Mnemonic|
            #![trigger mn.step_spec(c, m, 0)]
            mn == Mnemonic::CLC || mn == Mnemonic::SEC || mn == Mnemonic::CLI || mn
                == Mnemonic::SEI || mn == Mnemonic::CLD || mn == Mnemonic::SED || mn
                == Mnemonic::CLV ==> mn.step_spec(c, m, 0).0 == (Cpu {
                p: mn.step_spec(c, m, 0).0.p,
                ..c
            }) && mn.step_spec(c, m, 0).1 == m,
{
    assert forall|f: u8| #[trigger] is_flag(f) implies {
        &&& c.p.with(Status::CARRY, false).has(f) == (f != Status::CARRY && c.p.has(f))
        &&& c.p.with(Status::CARRY, true).has(f) == (f == Status::CARRY || c.p.has(f))
        &&& c.p.with(Status::INTERRUPT, false).has(f) == (f != Status::INTERRUPT && c.p.has(f))
        &&& c.p.with(Status::INTERRUPT, true).has(f) == (f == Status::INTERRUPT || c.p.has(f))
        &&& c.p.with(Status::DECIMAL, false).has(f) == (f != Status::DECIMAL && c.p.has(f))
        &&& c.p.with(Status::DECIMAL, true).has(f) == (f == Status::DECIMAL || c.p.has(f))
        &&& c.p.with(Status::OVERFLOW, false).has(f) == (f != Status::OVERFLOW && c.p.has(f))
    } by {
        lemma_with_flag(c.p, Status::CARRY, false, f);
        lemma_with_flag(c.p, Status::CARRY, true, f);
        lemma_with_flag(c.p, Status::INTERRUPT, false, f);
        lemma_with_flag(c.p, Status::INTERRUPT, true, f);
        lemma_with_flag(c.p, Status::DECIMAL, false, f);
        lemma_with_flag(c.p, Status::DECIMAL, true, f);
        lemma_with_flag(c.p, Status::OVERFLOW, false, f);
    }
}

/// LDA, LDX and LDY copy the byte at the effective address into their register,
/// LAX into both A and X, and LAS copies that byte ANDed with S into A, X and S;
/// each sets Z and N from the value loaded, writes no memory and changes nothing
/// else.
pub proof fn lemma_load_steps(c: Cpu, m: Seq<u8>)
    ensures
        ({
            let v = rd(m, c.effective_addr);
            let r = Mnemonic::LDA.step_spec(c, m, 0);
            &&& r.0 == (Cpu { a: v, p: r.0.p, ..c })
            &&& sets_zn(c.p, r.0.p, v)
            &&& r.1 == m
        }),
        ({
            let v = rd(m, c.effective_addr);
            let r = Mnemonic::LDX.step_spec(c, m, 0);
            &&& r.0 == (Cpu { x: v, p: r.0.p, ..c })
            &&& sets_zn(c.p, r.0.p, v)
            &&& r.1 == m
        }),
        ({
            let v = rd(m, c.effective_addr);
            let r = Mnemonic::LDY.step_spec(c, m, 0);
            &&& r.0 == (Cpu { y: v, p: r.0.p, ..c })
            &&& sets_zn(c.p, r.0.p, v)
            &&& r.1 == m
        }),
        ({
            let v = rd(m, c.effective_addr);
            let r = Mnemonic::LAX.step_spec(c, m, 0);
            &&& r.0 == (Cpu { a: v, x: v, p: r.0.p, ..c })
            &&& sets_zn(c.p, r.0.p, v)
            &&& r.1 == m
        }),
        ({
            let v = rd(m, c.effective_addr) & c.s;
            let r = Mnemonic::LAS.step_spec(c, m, 0);
            &&& r.0 == (Cpu { a: v, x: v, s: v, p: r.0.p, ..c })
            &&& sets_zn(c.p, r.0.p, v)
            &&& r.1 == m
        }),
{
    lemma_sets_zn(c.p, rd(m, c.effective_addr));
    lemma_sets_zn(c.p, rd(m, c.effective_addr) & c.s);
}

/// STA, STX and STY write their register at the effective address, leave the
/// rest of memory as it was and change no register or flag.
pub proof fn lemma_store_steps(c: Cpu, m: Seq<u8>)
    requires
        m.len() == 0x10000,
    ensures
        ({
            let r = Mnemonic::STA.step_spec(c, m, 0);
            &&& r.0 == c
            &&& r.1.len() == m.len()
            &&& rd(r.1, c.effective_addr) == c.a
            &&& forall|i: int| 0 <= i < m.len() && i != c.effective_addr ==> r.1[i] == m[i]
        }),
        ({
            let r = Mnemonic::STX.step_spec(c, m, 0);
            &&& r.0 == c
            &&& r.1.len() == m.len()
            &&& rd(r.1, c.effective_addr) == c.x
            &&& forall|i: int| 0 <= i < m.len() && i != c.effective_addr ==> r.1[i] == m[i]
        }),
        ({
            let r = Mnemonic::STY.step_spec(c, m, 0);
            &&& r.0 == c
            &&& r.1.len() == m.len()
            &&& rd(r.1, c.effective_addr) == c.y
            &&& forall|i: int| 0 <= i < m.len() && i != c.effective_addr ==> r.1[i] == m[i]
        }),
{
}

/// AND, ORA and EOR combine A with the byte at the effective address bit by
/// bit (and, or, exclusive or) and set Z and N from the result; BIT leaves A
/// alone, sets Z exactly when A and the byte share no set bit, and copies bit 7
/// and bit 6 of the byte into N and V.
pub proof fn lemma_logic_steps(c: Cpu, m: Seq<u8>)
    ensures
        ({
            let v = rd(m, c.effective_addr);
            let r = Mnemonic::AND.step_spec(c, m, 0);
            &&& r.0 == (Cpu { a: c.a & v, p: r.0.p, ..c })
            &&& sets_zn(c.p, r.0.p, c.a & v)
            &&& r.1 == m
        }),
        ({
            let v = rd(m, c.effective_addr);
            let r = Mnemonic::ORA.step_spec(c, m, 0);
            &&& r.0 == (Cpu { a: c.a | v, p: r.0.p, ..c })
            &&& sets_zn(c.p, r.0.p, c.a | v)
            &&& r.1 == m
        }),
        ({
            let v = rd(m, c.effective_addr);
            let r = Mnemonic::EOR.step_spec(c, m, 0);
            &&& r.0 == (Cpu { a: c.a ^ v, p: r.0.p, ..c })
            &&& sets_zn(c.p, r.0.p, c.a ^ v)
            &&& r.1 == m
        }),
        ({
            let v = rd(m, c.effective_addr);
            let r = Mnemonic::BIT.step_spec(c, m, 0);
            &&& r.0 == (Cpu { p: r.0.p, ..c })
            &&& r.0.p.has(Status::ZERO) == (c.a & v == 0)
            &&& r.0.p.has(Status::NEGATIVE) == (v >= 0x80)
            &&& r.0.p.has(Status::OVERFLOW) == ((v / 64) % 2 == 1)
            &&& r.0.p.has(Status::CARRY) == c.p.has(Status::CARRY)
            &&& keeps_control_flags(c.p, r.0.p)
            &&& r.1 == m
        }),
{
    let v = rd(m, c.effective_addr);
    lemma_sets_zn(c.p, c.a & v);
    lemma_sets_zn(c.p, c.a | v);
    lemma_sets_zn(c.p, c.a ^ v);
    assert((v & 0x80u8 != 0) == (v >= 0x80) && (v & 0x40u8 != 0) == ((v / 64) % 2 == 1))
        by (bit_vector);
    let p1 = c.p.with(Status::ZERO, c.a & v == 0);
    let p2 = p1.with(Status::NEGATIVE, v & 0x80u8 != 0);
    let fs = seq![
        Status::CARRY,
        Status::ZERO,
        Status::INTERRUPT,
        Status::DECIMAL,
        Status::BREAK,
        Status::UNUSED,
        Status::OVERFLOW,
        Status::NEGATIVE,
    ];
    assert forall|k: int| 0 <= k < 8 implies {
        let f = #[trigger] fs[k];
        p2.with(Status::OVERFLOW, v & 0x40u8 != 0).has(f) == if f == Status::OVERFLOW {
            v & 0x40u8 != 0
        } else if f == Status::NEGATIVE {
            v & 0x80u8 != 0
        } else if f == Status::ZERO {
            c.a & v == 0
        } else {
            c.p.has(f)
        }
    } by {
        let f = fs[k];
        lemma_with_flag(c.p, Status::ZERO, c.a & v == 0, f);
        lemma_with_flag(p1, Status::NEGATIVE, v & 0x80u8 != 0, f);
        lemma_with_flag(p2, Status::OVERFLOW, v & 0x40u8 != 0, f);
    }
    assert(fs[0] == Status::CARRY);
    assert(fs[1] == Status::ZERO);
    assert(fs[2] == Status::INTERRUPT);
    assert(fs[3] == Status::DECIMAL);
    assert(fs[4] == Status::BREAK);
    assert(fs[5] == Status::UNUSED);
    assert(fs[6] == Status::OVERFLOW);
    assert(fs[7] == Status::NEGATIVE);
}

/// INC and DEC, over their three cycles, leave at the effective address the byte
/// that was there plus or minus one modulo 256, set Z and N from it, change no
/// other memory and no register but the latch that holds the byte.
pub proof fn lemma_inc_dec_steps(c: Cpu, m: Seq<u8>)
    requires
        m.len() == 0x10000,
    ensures
        ({
            let v = rd(m, c.effective_addr);
            let r0 = Mnemonic::INC.step_spec(c, m, 0);
            let r1 = Mnemonic::INC.step_spec(r0.0, r0.1, 1);
            let r2 = Mnemonic::INC.step_spec(r1.0, r1.1, 2);
            &&& r2.0.base == (v + 1) % 256
            &&& r2.1 == m.update(c.effective_addr as int, r2.0.base)
            &&& sets_zn(c.p, r2.0.p, r2.0.base)
            &&& r2.0 == (Cpu { base: r2.0.base, p: r2.0.p, ..c })
        }),
        ({
            let v = rd(m, c.effective_addr);
            let r0 = Mnemonic::DEC.step_spec(c, m, 0);
            let r1 = Mnemonic::DEC.step_spec(r0.0, r0.1, 1);
            let r2 = Mnemonic::DEC.step_spec(r1.0, r1.1, 2);
            &&& r2.0.base == (v - 1) % 256
            &&& r2.1 == m.update(c.effective_addr as int, r2.0.base)
            &&& sets_zn(c.p, r2.0.p, r2.0.base)
            &&& r2.0 == (Cpu { base: r2.0.base, p: r2.0.p, ..c })
        }),
{
    let v = rd(m, c.effective_addr);
    lemma_sets_zn(c.p, v.wrapping_add(1));
    lemma_sets_zn(c.p, v.wrapping_sub(1));
    let ea = c.effective_addr as int;
    assert(m.update(ea, v).update(ea, v.wrapping_add(1)) =~= m.update(ea, v.wrapping_add(1)));
    assert(m.update(ea, v).update(ea, v.wrapping_sub(1)) =~= m.update(ea, v.wrapping_sub(1)));
}

/// PHA and PHP store A, and P with B and U set, at the stack slot `$0100 + S`
/// and decrement S modulo 256; PLA and PLP increment S modulo 256 and take A,
/// and P with B and U clear, from the slot it then names. PLA sets Z and N from
/// the value pulled. Nothing else changes.
pub proof fn lemma_stack_steps(c: Cpu, m: Seq<u8>)
    requires
        m.len() == 0x10000,
    ensures
        ({
            let r = Mnemonic::PHA.step_spec(c, m, 1);
            &&& r.0 == (Cpu { s: r.0.s, ..c })
            &&& r.0.s == (c.s - 1) % 256
            &&& r.1 == m.update(0x100 + c.s, c.a)
        }),
        ({
            let r = Mnemonic::PHP.step_spec(c, m, 1);
            &&& r.0 == (Cpu { s: r.0.s, ..c })
            &&& r.0.s == (c.s - 1) % 256
            &&& r.1 == m.update(0x100 + c.s, c.p.bits | 0x30)
        }),
        ({
            let r = Mnemonic::PLA.step_spec(c, m, 2);
            let v = m[0x100 + (c.s + 1) % 256];
            &&& r.0 == (Cpu { a: v, s: r.0.s, p: r.0.p, ..c })
            &&& r.0.s == (c.s + 1) % 256
            &&& sets_zn(c.p, r.0.p, v)
            &&& r.1 == m
        }),
        ({
            let r = Mnemonic::PLP.step_spec(c, m, 2);
            let v = m[0x100 + (c.s + 1) % 256];
            &&& r.0 == (Cpu { s: r.0.s, p: r.0.p, ..c })
            &&& r.0.s == (c.s + 1) % 256
            &&& r.0.p.bits == v & 0xCF
            &&& r.1 == m
        }),
{
    let v = m[0x100 + (c.s + 1) % 256];
    assert(crate::cpu::pop_value(c, m) == v);
    lemma_sets_zn(c.p, v);
    assert(Status::BREAK | Status::UNUSED == 0x30u8 && Status::UNUSED | Status::BREAK == 0x30u8
        && v & !0x30u8 == v & 0xCFu8) by (bit_vector);
}

} // verus!
