use vstd::prelude::*;

use crate::cpu::{rd, word, Cpu, CpuBus};
use crate::lookup::{lookup, lookup_spec};
use crate::timing::{timing, timing_spec, Timing};

verus! {

/// The addressing modes of the 6502.
///
/// An addressing mode says how the operand bytes that follow an opcode
/// are turned into an effective address or an immediate value.
#[derive(Clone, Copy, PartialEq, Eq, Structural, Debug, Hash)]
pub enum Addressing {
    /// No operand; the instruction works on implicit state (`CLC`, `NOP`).
    Implied,
    /// The operand is the accumulator (`ASL A`).
    Accumulator,
    /// The byte after the opcode is the operand (`LDA #$42`).
    Immediate,
    /// A full 16-bit address follows the opcode (`LDA $1234`).
    Absolute,
    /// Absolute address plus X; a page crossing may cost a cycle (`LDA $1234,X`).
    AbsoluteX,
    /// Absolute address plus Y; a page crossing may cost a cycle (`LDA $1234,Y`).
    AbsoluteY,
    /// The operand points at the target address; used by `JMP ($1234)` only.
    Indirect,
    /// A one-byte address in page zero (`LDA $42`).
    ZeroPage,
    /// Zero-page address plus X, wrapping within page zero (`LDA $42,X`).
    ZeroPageX,
    /// Zero-page address plus Y, wrapping within page zero (`LDX $42,Y`).
    ZeroPageY,
    /// `(zp,X)`: the pointer is read at zero-page address `zp + X`.
    IndirectX,
    /// `(zp),Y`: the pointer read at `zp` is then indexed by Y.
    IndirectY,
    /// A signed 8-bit offset from the next instruction; used by branches.
    Relative,
}

/// Whether `base` and `effective` lie on different 256-byte pages.
pub open spec fn page_crossed_spec(base: u16, effective: u16) -> bool {
    (base & 0xFF00) != (effective & 0xFF00)
}

impl Addressing {
    /// Number of operand bytes following the opcode.
    pub open spec fn operand_len_spec(self) -> usize {
        match self {
            Addressing::Implied | Addressing::Accumulator => 0,
            Addressing::Immediate
            | Addressing::ZeroPage
            | Addressing::ZeroPageX
            | Addressing::ZeroPageY
            | Addressing::IndirectX
            | Addressing::IndirectY
            | Addressing::Relative => 1,
            Addressing::Absolute
            | Addressing::AbsoluteX
            | Addressing::AbsoluteY
            | Addressing::Indirect => 2,
        }
    }

    /// Number of operand bytes following the opcode.
    pub fn operand_len(&self) -> (r: usize)
        ensures
            r == self.operand_len_spec(),
    {
        match self {
            Addressing::Implied | Addressing::Accumulator => 0,
            Addressing::Immediate
            | Addressing::ZeroPage
            | Addressing::ZeroPageX
            | Addressing::ZeroPageY
            | Addressing::IndirectX
            | Addressing::IndirectY
            | Addressing::Relative => 1,
            Addressing::Absolute
            | Addressing::AbsoluteX
            | Addressing::AbsoluteY
            | Addressing::Indirect => 2,
        }
    }

    /// Longest addressing sequence (in cycles) of the static-dispatch executor,
    /// including the optional page-cross cycle; 0 for modes without addressing cycles.
    pub open spec fn exec_len_spec(self) -> u8 {
        match self {
            Addressing::Implied | Addressing::Accumulator | Addressing::Immediate => 0,
            Addressing::Absolute => 2,
            Addressing::AbsoluteX | Addressing::AbsoluteY => 3,
            Addressing::Indirect => 4,
            Addressing::ZeroPage => 1,
            Addressing::ZeroPageX | Addressing::ZeroPageY => 2,
            Addressing::IndirectX | Addressing::IndirectY => 4,
            Addressing::Relative => 0,
        }
    }

    /// Longest addressing sequence (in cycles) of the static-dispatch executor.
    pub fn exec_len(&self) -> (r: u8)
        ensures
            r == self.exec_len_spec(),
    {
        match self {
            Addressing::Implied | Addressing::Accumulator | Addressing::Immediate => 0,
            Addressing::Absolute => 2,
            Addressing::AbsoluteX | Addressing::AbsoluteY => 3,
            Addressing::Indirect => 4,
            Addressing::ZeroPage => 1,
            Addressing::ZeroPageX | Addressing::ZeroPageY => 2,
            Addressing::IndirectX | Addressing::IndirectY => 4,
            Addressing::Relative => 0,
        }
    }

    /// What addressing cycle `step` of this mode does to the CPU (memory is only read).
    pub open spec fn step_spec(self, c: Cpu, m: Seq<u8>, step: u8) -> Cpu {
        match self {
            Addressing::Absolute => absolute_step(c, m, step),
            Addressing::AbsoluteX => absolute_indexed_step(c, m, step, c.x),
            Addressing::AbsoluteY => absolute_indexed_step(c, m, step, c.y),
            Addressing::Indirect => indirect_step(c, m, step),
            Addressing::ZeroPage => fetch_ea_lo(c, m),
            Addressing::ZeroPageX => zero_page_indexed_step(c, m, step, c.x),
            Addressing::ZeroPageY => zero_page_indexed_step(c, m, step, c.y),
            Addressing::IndirectX => indirect_x_step(c, m, step),
            Addressing::IndirectY => indirect_y_step(c, m, step),
            _ => c,
        }
    }

    /// Run addressing cycle `step` of this mode (static dispatch). Implied,
    /// accumulator, immediate and relative modes have no addressing cycles.
    pub fn exec(&self, cpu: &mut Cpu, bus: &mut CpuBus, step: u8)
        requires
            step < self.exec_len_spec(),
        ensures
            *final(cpu) == self.step_spec(*old(cpu), old(bus)@, step),
            final(bus)@ == old(bus)@,
    {
        match self {
            Addressing::Absolute => exec_absolute(cpu, bus, step),
            Addressing::AbsoluteX => exec_absolute_x(cpu, bus, step),
            Addressing::AbsoluteY => exec_absolute_y(cpu, bus, step),
            Addressing::Indirect => exec_indirect(cpu, bus, step),
            Addressing::ZeroPage => exec_zero_page(cpu, bus, step),
            Addressing::ZeroPageX => exec_zero_page_x(cpu, bus, step),
            Addressing::ZeroPageY => exec_zero_page_y(cpu, bus, step),
            Addressing::IndirectX => exec_indirect_x(cpu, bus, step),
            Addressing::IndirectY => exec_indirect_y(cpu, bus, step),
            _ => {},
        }
    }

    /// The label of the mode as disassemblers write it.
    pub open spec fn label_spec(self) -> Seq<char> {
        match self {
            Addressing::Implied => "impl"@,
            Addressing::Accumulator => "A"@,
            Addressing::Immediate => "#"@,
            Addressing::Absolute => "abs"@,
            Addressing::AbsoluteX => "abs,X"@,
            Addressing::AbsoluteY => "abs,Y"@,
            Addressing::Indirect => "(abs)"@,
            Addressing::ZeroPage => "zp"@,
            Addressing::ZeroPageX => "zp,X"@,
            Addressing::ZeroPageY => "zp,Y"@,
            Addressing::IndirectX => "(zp,X)"@,
            Addressing::IndirectY => "(zp),Y"@,
            Addressing::Relative => "rel"@,
        }
    }

    /// The label of the mode as disassemblers write it (`abs,X`, `(zp),Y`, `#`, ...).
    pub fn to_str(&self) -> (r: &'static str)
        ensures
            r@ == self.label_spec(),
    {
        match self {
            Addressing::Implied => "impl",
            Addressing::Accumulator => "A",
            Addressing::Immediate => "#",
            Addressing::Absolute => "abs",
            Addressing::AbsoluteX => "abs,X",
            Addressing::AbsoluteY => "abs,Y",
            Addressing::Indirect => "(abs)",
            Addressing::ZeroPage => "zp",
            Addressing::ZeroPageX => "zp,X",
            Addressing::ZeroPageY => "zp,Y",
            Addressing::IndirectX => "(zp,X)",
            Addressing::IndirectY => "(zp),Y",
            Addressing::Relative => "rel",
        }
    }

    /// Whether a page crossing can add a cycle in this mode.
    pub open spec fn has_page_cross_penalty_spec(self) -> bool {
        self is AbsoluteX || self is AbsoluteY || self is IndirectY || self is Relative
    }

    /// Whether a page crossing can add a cycle in this mode.
    pub fn has_page_cross_penalty(&self) -> (r: bool)
        ensures
            r == self.has_page_cross_penalty_spec(),
    {
        match self {
            Addressing::AbsoluteX | Addressing::AbsoluteY | Addressing::IndirectY
            | Addressing::Relative => true,
            _ => false,
        }
    }

    /// Whether `base` and `effective_addr` lie on different pages.
    pub fn page_crossed(base_addr: u16, effective_addr: u16) -> (r: bool)
        ensures
            r == page_crossed_spec(base_addr, effective_addr),
    {
        (base_addr & 0xFF00) != (effective_addr & 0xFF00)
    }

    /// Whether the opcode always takes the fix-up cycle of its indexed mode:
    /// its mode has a page-cross penalty but its timing is fixed (stores and
    /// read-modify-write instructions).
    pub open spec fn forces_dummy_read_cycle_spec(opcode: u8) -> bool {
        lookup_spec(opcode).addressing.has_page_cross_penalty_spec()
            && timing_spec(opcode) is Fixed
    }

    /// Whether the opcode always takes the fix-up cycle of its indexed mode.
    pub fn forces_dummy_read_cycle(opcode: u8) -> (r: bool)
        ensures
            r == Addressing::forces_dummy_read_cycle_spec(opcode),
    {
        let t = timing(opcode);
        let instr = lookup(opcode);
        instr.addressing.has_page_cross_penalty() && match t {
            Timing::Fixed(_) => true,
            _ => false,
        }
    }
}

/// The state after the operand byte at `pc` has been fetched into the low byte
/// of the effective address (high byte cleared).
pub open spec fn fetch_ea_lo(c: Cpu, m: Seq<u8>) -> Cpu {
    Cpu { effective_addr: rd(m, c.pc) as u16, pc: c.next_pc(), ..c }
}

/// Absolute: fetch the low byte, then the high byte, of the effective address.
pub open spec fn absolute_step(c: Cpu, m: Seq<u8>, step: u8) -> Cpu {
    if step == 0 {
        fetch_ea_lo(c, m)
    } else {
        Cpu {
            effective_addr: ((rd(m, c.pc) as u16) << 8) | c.effective_addr,
            pc: c.next_pc(),
            ..c
        }
    }
}

/// Absolute indexed by `index`: fetch the address, add the index (wrapping at 16
/// bits), record the page crossing; the last cycle is the fix-up read.
pub open spec fn absolute_indexed_step(c: Cpu, m: Seq<u8>, step: u8, index: u8) -> Cpu {
    if step == 0 {
        fetch_ea_lo(c, m)
    } else if step == 1 {
        let hi = rd(m, c.pc);
        let base = ((hi as u16) << 8) | c.effective_addr;
        let addr = base.wrapping_add(index as u16);
        Cpu { tmp: hi, pc: c.next_pc(), effective_addr: addr, ..c }.after_index(base, addr)
    } else {
        c
    }
}

/// Indirect (JMP only): fetch the pointer, then read the target from it; a
/// pointer ending in $FF takes its high byte from the start of the same page.
pub open spec fn indirect_step(c: Cpu, m: Seq<u8>, step: u8) -> Cpu {
    if step < 2 {
        absolute_step(c, m, step)
    } else if step == 2 {
        Cpu { tmp: rd(m, c.effective_addr), ..c }
    } else {
        let hi_addr = if (c.effective_addr & 0xFF) == 0xFF {
            c.effective_addr & 0xFF00
        } else {
            c.effective_addr.wrapping_add(1)
        };
        Cpu { effective_addr: word(c.tmp, rd(m, hi_addr)), ..c }
    }
}

/// Zero page indexed by `index`: fetch the base, then add the index within page zero.
pub open spec fn zero_page_indexed_step(c: Cpu, m: Seq<u8>, step: u8, index: u8) -> Cpu {
    if step == 0 {
        fetch_ea_lo(c, m)
    } else {
        Cpu { effective_addr: c.effective_addr.wrapping_add(index as u16) & 0x00FF, ..c }
    }
}

/// `(zp,X)`: fetch zp, add X within page zero, read the pointer's two bytes there.
pub open spec fn indirect_x_step(c: Cpu, m: Seq<u8>, step: u8) -> Cpu {
    if step == 0 {
        fetch_ea_lo(c, m)
    } else if step == 1 {
        Cpu { effective_addr: ((c.effective_addr & 0x00FF) + c.x) as u16 & 0x00FF, ..c }
    } else if step == 2 {
        Cpu { tmp: rd(m, c.effective_addr & 0x00FF), ..c }
    } else {
        let ptr = c.effective_addr & 0x00FF;
        Cpu { effective_addr: word(c.tmp, rd(m, ((ptr + 1) as u16) & 0x00FF)), ..c }
    }
}

/// `(zp),Y`: fetch zp, read the pointer there (wrapping in page zero), add Y and
/// record the page crossing; the last cycle is the fix-up read.
pub open spec fn indirect_y_step(c: Cpu, m: Seq<u8>, step: u8) -> Cpu {
    if step == 0 {
        fetch_ea_lo(c, m)
    } else if step == 1 {
        Cpu { tmp: rd(m, c.effective_addr), ..c }
    } else if step == 2 {
        let hi = rd(m, c.effective_addr.wrapping_add(1) & 0x00FF);
        let base = word(c.tmp, hi);
        let addr = base.wrapping_add(c.y as u16);
        Cpu { tmp: hi, effective_addr: addr, ..c }.after_index(base, addr)
    } else {
        c
    }
}

/// The addressing modes whose operand lies in memory or follows the opcode.
pub open spec fn is_operand_mode(mode: Addressing) -> bool {
    match mode {
        Addressing::Immediate | Addressing::ZeroPage | Addressing::ZeroPageX
        | Addressing::ZeroPageY | Addressing::Absolute | Addressing::AbsoluteX
        | Addressing::AbsoluteY | Addressing::IndirectX | Addressing::IndirectY => true,
        _ => false,
    }
}

/// The address of the operand of the instruction whose opcode is at `pc`:
/// the byte after the opcode for immediate operands; a zero-page index wraps
/// within page zero, and so does the pointer of the indirect modes.
pub open spec fn operand_address(mode: Addressing, c: Cpu, m: Seq<u8>) -> u16 {
    let b1 = rd(m, c.pc.wrapping_add(1));
    let b2 = rd(m, c.pc.wrapping_add(2));
    match mode {
        Addressing::Immediate => c.pc.wrapping_add(1),
        Addressing::ZeroPage => b1 as u16,
        Addressing::ZeroPageX => (b1 as u16).wrapping_add(c.x as u16) & 0x00FF,
        Addressing::ZeroPageY => (b1 as u16).wrapping_add(c.y as u16) & 0x00FF,
        Addressing::Absolute => word(b1, b2),
        Addressing::AbsoluteX => word(b1, b2).wrapping_add(c.x as u16),
        Addressing::AbsoluteY => word(b1, b2).wrapping_add(c.y as u16),
        Addressing::IndirectX => {
            let ptr = (b1 as u16).wrapping_add(c.x as u16);
            word(rd(m, ptr & 0x00FF), rd(m, ptr.wrapping_add(1) & 0x00FF))
        },
        Addressing::IndirectY => word(
            rd(m, b1 as u16),
            rd(m, (b1 as u16).wrapping_add(1) & 0x00FF),
        ).wrapping_add(c.y as u16),
        _ => 0,
    }
}

/// The state with PC moved past the opcode and the operand bytes of `mode`.
pub open spec fn past_instruction(mode: Addressing, c: Cpu) -> Cpu {
    Cpu { pc: c.pc.wrapping_add((1 + mode.operand_len_spec()) as u16), ..c }
}

/// The low byte of a 16-bit value is at most $FF.
pub proof fn lemma_low_byte_bound(v: u16)
    ensures
        v & 0x00FF <= 0xFF,
{
    assert(v & 0x00FF <= 0xFF) by (bit_vector);
}

fn exec_absolute(cpu: &mut Cpu, bus: &mut CpuBus, step: u8)
    requires
        step < 2,
    ensures
        *final(cpu) == absolute_step(*old(cpu), old(bus)@, step),
        final(bus)@ == old(bus)@,
{
    match step {
        0 => {
            cpu.effective_addr = cpu.fetch_u8(bus) as u16;
        },
        _ => {
            let hi = cpu.fetch_u8(bus);
            cpu.effective_addr = ((hi as u16) << 8) | cpu.effective_addr;
        },
    }
}

fn exec_absolute_indexed(cpu: &mut Cpu, bus: &mut CpuBus, step: u8, index: u8)
    requires
        step < 3,
    ensures
        *final(cpu) == absolute_indexed_step(*old(cpu), old(bus)@, step, index),
        final(bus)@ == old(bus)@,
{
    match step {
        0 => {
            cpu.effective_addr = cpu.fetch_u8(bus) as u16;
        },
        1 => {
            let hi = cpu.fetch_u8(bus);
            let base = ((hi as u16) << 8) | cpu.effective_addr;
            cpu.tmp = hi;
            let addr = base.wrapping_add(index as u16);
            cpu.effective_addr = addr;
            cpu.skip_optional_dummy_read_cycle(base, addr);
        },
        _ => {
            let base = cpu.effective_addr.wrapping_sub(index as u16);
            let page_crossed = Addressing::page_crossed(base, cpu.effective_addr);
            let dummy_addr = if page_crossed {
                cpu.effective_addr.wrapping_sub(0x100)
            } else {
                cpu.effective_addr
            };
            let _ = bus.read(dummy_addr);
        },
    }
}

fn exec_absolute_x(cpu: &mut Cpu, bus: &mut CpuBus, step: u8)
    requires
        step < 3,
    ensures
        *final(cpu) == absolute_indexed_step(*old(cpu), old(bus)@, step, old(cpu).x),
        final(bus)@ == old(bus)@,
{
    let x = cpu.x;
    exec_absolute_indexed(cpu, bus, step, x);
}

fn exec_absolute_y(cpu: &mut Cpu, bus: &mut CpuBus, step: u8)
    requires
        step < 3,
    ensures
        *final(cpu) == absolute_indexed_step(*old(cpu), old(bus)@, step, old(cpu).y),
        final(bus)@ == old(bus)@,
{
    let y = cpu.y;
    exec_absolute_indexed(cpu, bus, step, y);
}

fn exec_indirect(cpu: &mut Cpu, bus: &mut CpuBus, step: u8)
    requires
        step < 4,
    ensures
        *final(cpu) == indirect_step(*old(cpu), old(bus)@, step),
        final(bus)@ == old(bus)@,
{
    match step {
        0 | 1 => {
            exec_absolute(cpu, bus, step);
        },
        2 => {
            cpu.tmp = bus.read(cpu.effective_addr);
        },
        _ => {
            let hi_addr = if (cpu.effective_addr & 0xFF) == 0xFF {
                cpu.effective_addr & 0xFF00
            } else {
                cpu.effective_addr.wrapping_add(1)
            };
            let hi = bus.read(hi_addr);
            cpu.effective_addr = ((hi as u16) << 8) | (cpu.tmp as u16);
        },
    }
}

fn exec_zero_page(cpu: &mut Cpu, bus: &mut CpuBus, step: u8)
    requires
        step < 1,
    ensures
        *final(cpu) == fetch_ea_lo(*old(cpu), old(bus)@),
        final(bus)@ == old(bus)@,
{
    cpu.effective_addr = cpu.fetch_u8(bus) as u16;
}

fn exec_zero_page_indexed(cpu: &mut Cpu, bus: &mut CpuBus, step: u8, index: u8)
    requires
        step < 2,
    ensures
        *final(cpu) == zero_page_indexed_step(*old(cpu), old(bus)@, step, index),
        final(bus)@ == old(bus)@,
{
    match step {
        0 => {
            cpu.effective_addr = cpu.fetch_u8(bus) as u16;
        },
        _ => {
            let base = cpu.effective_addr & 0x00FF;
            let _ = bus.read(base);
            let addr = cpu.effective_addr.wrapping_add(index as u16) & 0x00FF;
            cpu.effective_addr = addr;
        },
    }
}

fn exec_zero_page_x(cpu: &mut Cpu, bus: &mut CpuBus, step: u8)
    requires
        step < 2,
    ensures
        *final(cpu) == zero_page_indexed_step(*old(cpu), old(bus)@, step, old(cpu).x),
        final(bus)@ == old(bus)@,
{
    let x = cpu.x;
    exec_zero_page_indexed(cpu, bus, step, x);
}

fn exec_zero_page_y(cpu: &mut Cpu, bus: &mut CpuBus, step: u8)
    requires
        step < 2,
    ensures
        *final(cpu) == zero_page_indexed_step(*old(cpu), old(bus)@, step, old(cpu).y),
        final(bus)@ == old(bus)@,
{
    let y = cpu.y;
    exec_zero_page_indexed(cpu, bus, step, y);
}

fn exec_indirect_x(cpu: &mut Cpu, bus: &mut CpuBus, step: u8)
    requires
        step < 4,
    ensures
        *final(cpu) == indirect_x_step(*old(cpu), old(bus)@, step),
        final(bus)@ == old(bus)@,
{
    match step {
        0 => {
            cpu.effective_addr = cpu.fetch_u8(bus) as u16;
        },
        1 => {
            let base = cpu.effective_addr & 0x00FF;
            proof {
                lemma_low_byte_bound(cpu.effective_addr);
            }
            let _ = bus.read(base);
            cpu.effective_addr = (base + cpu.x as u16) & 0x00FF;
        },
        2 => {
            let ptr = cpu.effective_addr & 0x00FF;
            cpu.tmp = bus.read(ptr);
        },
        _ => {
            let ptr = cpu.effective_addr & 0x00FF;
            proof {
                lemma_low_byte_bound(cpu.effective_addr);
            }
            let hi = bus.read((ptr + 1) & 0x00FF);
            cpu.effective_addr = ((hi as u16) << 8) | (cpu.tmp as u16);
        },
    }
}

fn exec_indirect_y(cpu: &mut Cpu, bus: &mut CpuBus, step: u8)
    requires
        step < 4,
    ensures
        *final(cpu) == indirect_y_step(*old(cpu), old(bus)@, step),
        final(bus)@ == old(bus)@,
{
    match step {
        0 => {
            cpu.effective_addr = cpu.fetch_u8(bus) as u16;
        },
        1 => {
            cpu.tmp = bus.read(cpu.effective_addr);
        },
        2 => {
            let hi_addr = cpu.effective_addr.wrapping_add(1) & 0x00FF;
            let hi = bus.read(hi_addr);
            let base = ((hi as u16) << 8) | (cpu.tmp as u16);
            cpu.tmp = hi;
            let addr = base.wrapping_add(cpu.y as u16);
            cpu.effective_addr = addr;
            cpu.skip_optional_dummy_read_cycle(base, addr);
        },
        _ => {
            let base = cpu.effective_addr.wrapping_sub(cpu.y as u16);
            let page_crossed = Addressing::page_crossed(base, cpu.effective_addr);
            let dummy_addr = if page_crossed {
                cpu.effective_addr.wrapping_sub(0x100)
            } else {
                cpu.effective_addr
            };
            let _ = bus.read(dummy_addr);
        },
    }
}

/// A 16-bit word built from two bytes is `lo + 256 * hi`.
pub proof fn lemma_word(lo: u8, hi: u8)
    ensures
        word(lo, hi) as int == lo + 256 * hi,
{
    assert((((hi as u16) << 8) | (lo as u16)) as int == lo + 256 * hi) by (bit_vector);
}

/// Two addresses lie on different pages exactly when their page numbers
/// (the address divided by 256) differ.
pub proof fn lemma_page_crossed(base: u16, effective: u16)
    ensures
        page_crossed_spec(base, effective) == (base / 256 != effective / 256),
{
    assert(((base & 0xFF00) != (effective & 0xFF00)) == (base / 256 != effective / 256))
        by (bit_vector);
}

proof fn lemma_zero_page_address_arith(c: Cpu, m: Seq<u8>)
    ensures
        ({
            let b1 = m[(c.pc + 1) % 0x10000];
            &&& operand_address(Addressing::Immediate, c, m) == (c.pc + 1) % 0x10000
            &&& operand_address(Addressing::ZeroPage, c, m) == b1
            &&& operand_address(Addressing::ZeroPageX, c, m) == (b1 + c.x) % 256
            &&& operand_address(Addressing::ZeroPageY, c, m) == (b1 + c.y) % 256
        }),
{
    let b1 = rd(m, c.pc.wrapping_add(1));
    let x = c.x;
    let y = c.y;
    assert(((b1 as u16).wrapping_add(x as u16) & 0x00FF) as int == (b1 + x) % 256) by (bit_vector);
    assert(((b1 as u16).wrapping_add(y as u16) & 0x00FF) as int == (b1 + y) % 256) by (bit_vector);
}

proof fn lemma_absolute_address_arith(c: Cpu, m: Seq<u8>)
    ensures
        ({
            let b1 = m[(c.pc + 1) % 0x10000];
            let b2 = m[(c.pc + 2) % 0x10000];
            &&& operand_address(Addressing::Absolute, c, m) == b1 + 256 * b2
            &&& operand_address(Addressing::AbsoluteX, c, m) == (b1 + 256 * b2 + c.x) % 0x10000
            &&& operand_address(Addressing::AbsoluteY, c, m) == (b1 + 256 * b2 + c.y) % 0x10000
        }),
{
    lemma_word(rd(m, c.pc.wrapping_add(1)), rd(m, c.pc.wrapping_add(2)));
}

proof fn lemma_indirect_address_arith(c: Cpu, m: Seq<u8>)
    ensures
        ({
            let b1 = m[(c.pc + 1) % 0x10000];
            &&& operand_address(Addressing::IndirectX, c, m) == m[(b1 + c.x) % 256] + 256 * m[(b1
                + c.x + 1) % 256]
            &&& operand_address(Addressing::IndirectY, c, m) == (m[b1 as int] + 256 * m[(b1 + 1)
                % 256] + c.y) % 0x10000
        }),
{
    let b1 = rd(m, c.pc.wrapping_add(1));
    let x = c.x;
    assert(((b1 as u16).wrapping_add(x as u16) & 0x00FF) as int == (b1 + x) % 256) by (bit_vector);
    assert(((b1 as u16).wrapping_add(1) & 0x00FF) as int == (b1 + 1) % 256) by (bit_vector);
    assert(((b1 as u16).wrapping_add(x as u16).wrapping_add(1) & 0x00FF) as int == (b1 + x + 1)
        % 256) by (bit_vector);
    let ptr = (b1 as u16).wrapping_add(x as u16);
    lemma_word(rd(m, ptr & 0x00FF), rd(m, ptr.wrapping_add(1) & 0x00FF));
    lemma_word(rd(m, b1 as u16), rd(m, (b1 as u16).wrapping_add(1) & 0x00FF));
}

/// The operand address of each mode, as arithmetic on the bytes after the
/// opcode (`b1`, then `b2`): immediate operands follow the opcode; zero-page
/// indexing wraps within page zero; absolute addresses are `b1 + 256 * b2` and
/// absolute indexing wraps at 64 KiB; the pointer of `(zp,X)` is taken at
/// `b1 + X` and the one of `(zp),Y` at `b1`, each read as two bytes that wrap
/// within page zero, and `(zp),Y` adds Y to the pointer modulo 64 KiB.
pub proof fn lemma_operand_address_arith(c: Cpu, m: Seq<u8>)
    ensures
        ({
            let b1 = m[(c.pc + 1) % 0x10000];
            let b2 = m[(c.pc + 2) % 0x10000];
            &&& operand_address(Addressing::Immediate, c, m) == (c.pc + 1) % 0x10000
            &&& operand_address(Addressing::ZeroPage, c, m) == b1
            &&& operand_address(Addressing::ZeroPageX, c, m) == (b1 + c.x) % 256
            &&& operand_address(Addressing::ZeroPageY, c, m) == (b1 + c.y) % 256
            &&& operand_address(Addressing::Absolute, c, m) == b1 + 256 * b2
            &&& operand_address(Addressing::AbsoluteX, c, m) == (b1 + 256 * b2 + c.x) % 0x10000
            &&& operand_address(Addressing::AbsoluteY, c, m) == (b1 + 256 * b2 + c.y) % 0x10000
            &&& operand_address(Addressing::IndirectX, c, m) == m[(b1 + c.x) % 256] + 256 * m[(b1
                + c.x + 1) % 256]
            &&& operand_address(Addressing::IndirectY, c, m) == (m[b1 as int] + 256 * m[(b1 + 1)
                % 256] + c.y) % 0x10000
        }),
{
    lemma_zero_page_address_arith(c, m);
    lemma_absolute_address_arith(c, m);
    lemma_indirect_address_arith(c, m);
}

/// The last two cycles of JMP's indirect mode read the target's low byte at the
/// pointer and its high byte at the next address within the same page: a pointer
/// at the end of a page takes its high byte from the start of that page.
pub proof fn lemma_indirect_target(c: Cpu, m: Seq<u8>)
    ensures
        ({
            let ptr = c.effective_addr;
            let c3 = indirect_step(indirect_step(c, m, 2), m, 3);
            c3.effective_addr == m[ptr as int] + 256 * m[(ptr / 256) * 256 + (ptr + 1) % 256]
        }),
{
    let ptr = c.effective_addr;
    assert((ptr & 0xFF) as int == ptr % 256 && (ptr & 0xFF00) as int == (ptr / 256) * 256)
        by (bit_vector);
    let hi_addr = if (ptr & 0xFF) == 0xFF {
        ptr & 0xFF00
    } else {
        ptr.wrapping_add(1)
    };
    if (ptr & 0xFF) == 0xFF {
        assert(hi_addr == (ptr / 256) * 256 + (ptr + 1) % 256);
    } else {
        assert(hi_addr == (ptr / 256) * 256 + (ptr + 1) % 256);
    }
    lemma_word(rd(m, ptr), rd(m, hi_addr));
}

} // verus!
