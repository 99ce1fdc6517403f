use vstd::prelude::*;

use crate::addressing::{page_crossed_spec, Addressing};
use crate::status::Status;

verus! {

/// Base address of the hardware stack page ($0100-$01FF).
pub const STACK_ADDR: u16 = 0x0100;

/// Number of addressable bytes on the CPU bus.
pub const BUS_SIZE: usize = 0x10000;

/// The CPU address space as 64 KiB of plain memory.
///
/// Reads have no side effects; a write replaces one byte.
pub struct CpuBus {
    pub mem: [u8; 0x10000],
}

impl View for CpuBus {
    type V = Seq<u8>;

    open spec fn view(&self) -> Seq<u8> {
        self.mem@
    }
}

/// The byte at `addr` of a memory image.
pub open spec fn rd(m: Seq<u8>, addr: u16) -> u8 {
    m[addr as int]
}

/// The memory image after `value` has been written at `addr`.
pub open spec fn wr(m: Seq<u8>, addr: u16, value: u8) -> Seq<u8> {
    m.update(addr as int, value)
}

/// The 16-bit address whose high byte is `hi` and low byte is `lo`.
pub open spec fn word(lo: u8, hi: u8) -> u16 {
    ((hi as u16) << 8) | (lo as u16)
}

/// Vector of the non-maskable interrupt handler (low byte).
pub const NMI_VECTOR_LO: u16 = 0xFFFA;
/// Vector of the non-maskable interrupt handler (high byte).
pub const NMI_VECTOR_HI: u16 = 0xFFFB;
/// Vector of the IRQ/BRK handler (low byte).
pub const IRQ_VECTOR_LO: u16 = 0xFFFE;
/// Vector of the IRQ/BRK handler (high byte).
pub const IRQ_VECTOR_HI: u16 = 0xFFFF;

/// Whether two CPU states agree on the programmer-visible registers:
/// A, X, Y, S, PC and P.
pub open spec fn same_registers(c1: Cpu, c2: Cpu) -> bool {
    &&& c1.a == c2.a
    &&& c1.x == c2.x
    &&& c1.y == c2.y
    &&& c1.s == c2.s
    &&& c1.pc == c2.pc
    &&& c1.p == c2.p
}

/// Push `value`: write it at the top of the stack, then decrement `s`.
pub open spec fn push_spec(c: Cpu, m: Seq<u8>, value: u8) -> (Cpu, Seq<u8>) {
    (Cpu { s: c.s.wrapping_sub(1), ..c }, wr(m, c.stack_top(), value))
}

/// The CPU after a pop: `s` incremented.
pub open spec fn popped(c: Cpu) -> Cpu {
    Cpu { s: c.s.wrapping_add(1), ..c }
}

/// The byte that a pop returns: the one at the incremented stack pointer.
pub open spec fn pop_value(c: Cpu, m: Seq<u8>) -> u8 {
    rd(m, popped(c).stack_top())
}

impl CpuBus {
    /// A bus whose 64 KiB are all zero.
    pub fn new() -> (r: CpuBus)
        ensures
            r@.len() == BUS_SIZE,
            forall|i: int| 0 <= i < BUS_SIZE ==> r@[i] == 0,
    {
        CpuBus { mem: [0u8; 0x10000] }
    }

    /// Read the byte at `addr`.
    pub fn read(&self, addr: u16) -> (r: u8)
        ensures
            r == rd(self@, addr),
    {
        self.mem[addr as usize]
    }

    /// Write `value` at `addr`.
    pub fn write(&mut self, addr: u16, value: u8)
        ensures
            final(self)@ == wr(old(self)@, addr, value),
    {
        self.mem[addr as usize] = value;
    }
}

/// The register file and internal latches of the 6502 core.
#[derive(Clone, Copy, PartialEq, Eq, Structural, Debug)]
pub struct Cpu {
    /// Accumulator.
    pub a: u8,
    /// Index register X.
    pub x: u8,
    /// Index register Y.
    pub y: u8,
    /// Stack pointer (offset into page $01).
    pub s: u8,
    /// Program counter.
    pub pc: u16,
    /// Processor status register.
    pub p: Status,
    /// Scratch byte used between cycles (operand low byte, fetched data, branch offset).
    pub tmp: u8,
    /// Scratch byte used by read-modify-write cycles and the unstable stores.
    pub base: u8,
    /// Low byte of a fetched absolute operand.
    pub base_lo: u8,
    /// Fetched zero-page operand.
    pub zp_addr: u8,
    /// Effective address computed by the addressing cycles.
    pub effective_addr: u16,
    /// Whether the last indexed address computation crossed a page.
    pub crossed_page: bool,
    /// Opcode of the instruction being executed, when known.
    pub opcode_in_flight: Option<u8>,
    /// Pending NMI latched for the next interrupt sequence.
    pub nmi_latch: bool,
    /// NMI latch as seen at the previous cycle.
    pub prev_nmi_latch: bool,
    /// Number of upcoming optional cycles that the sequencer skips.
    pub skip_cycles: u8,
}

impl Cpu {
    /// The register state after power-on: S = $FD, I and U set, everything else zero.
    pub open spec fn power_on() -> Cpu {
        Cpu {
            a: 0,
            x: 0,
            y: 0,
            s: 0xFD,
            pc: 0,
            p: Status { bits: 0x24 },
            tmp: 0,
            base: 0,
            base_lo: 0,
            zp_addr: 0,
            effective_addr: 0,
            crossed_page: false,
            opcode_in_flight: None,
            nmi_latch: false,
            prev_nmi_latch: false,
            skip_cycles: 0,
        }
    }

    /// A CPU in its power-on state.
    pub fn new() -> (r: Cpu)
        ensures
            r == Cpu::power_on(),
    {
        Cpu {
            a: 0,
            x: 0,
            y: 0,
            s: 0xFD,
            pc: 0,
            p: Status { bits: 0x24 },
            tmp: 0,
            base: 0,
            base_lo: 0,
            zp_addr: 0,
            effective_addr: 0,
            crossed_page: false,
            opcode_in_flight: None,
            nmi_latch: false,
            prev_nmi_latch: false,
            skip_cycles: 0,
        }
    }

    /// `pc + 1`, wrapping at 16 bits.
    pub open spec fn next_pc(self) -> u16 {
        self.pc.wrapping_add(1)
    }

    /// Advance the program counter by one byte.
    pub fn incr_pc(&mut self)
        ensures
            *final(self) == (Cpu { pc: old(self).next_pc(), ..*old(self) }),
    {
        self.pc = self.pc.wrapping_add(1);
    }

    /// Read the byte at `pc` and advance `pc`.
    pub fn fetch_u8(&mut self, bus: &CpuBus) -> (r: u8)
        ensures
            r == rd(bus@, old(self).pc),
            *final(self) == (Cpu { pc: old(self).next_pc(), ..*old(self) }),
    {
        let v = bus.read(self.pc);
        self.incr_pc();
        v
    }

    /// The stack address that `s` points to.
    pub open spec fn stack_top(self) -> u16 {
        (0x0100 + self.s) as u16
    }

    /// Write `value` at the top of the stack and decrement `s`.
    pub fn push_stack(&mut self, bus: &mut CpuBus, value: u8)
        ensures
            final(bus)@ == wr(old(bus)@, old(self).stack_top(), value),
            *final(self) == (Cpu { s: old(self).s.wrapping_sub(1), ..*old(self) }),
    {
        bus.write(STACK_ADDR + self.s as u16, value);
        self.s = self.s.wrapping_sub(1);
    }

    /// Increment `s` and read the byte it then points to.
    pub fn pop_stack(&mut self, bus: &CpuBus) -> (r: u8)
        ensures
            *final(self) == (Cpu { s: old(self).s.wrapping_add(1), ..*old(self) }),
            r == rd(bus@, final(self).stack_top()),
    {
        self.s = self.s.wrapping_add(1);
        bus.read(STACK_ADDR + self.s as u16)
    }

    /// Record whether a branch is taken; a branch that is not taken skips its
    /// two remaining cycles.
    pub fn test_branch(&mut self, taken: bool)
        ensures
            *final(self) == (if taken {
                *old(self)
            } else {
                Cpu { skip_cycles: 2, ..*old(self) }
            }),
    {
        if !taken {
            self.skip_cycles = 2;
        }
    }

    /// The state after an indexed address `base` -> `addr` was formed: the page
    /// crossing is recorded, and when no page was crossed and the instruction in
    /// flight does not always take the fix-up cycle, that cycle is skipped.
    pub open spec fn after_index(self, base: u16, addr: u16) -> Cpu {
        let crossed = page_crossed_spec(base, addr);
        let forced = match self.opcode_in_flight {
            Some(op) => Addressing::forces_dummy_read_cycle_spec(op),
            None => false,
        };
        Cpu {
            crossed_page: crossed,
            skip_cycles: if !crossed && !forced {
                1
            } else {
                self.skip_cycles
            },
            ..self
        }
    }

    /// Record the page crossing of an indexed address and schedule the skip of
    /// the optional fix-up cycle when it is not needed.
    pub fn skip_optional_dummy_read_cycle(&mut self, base: u16, addr: u16)
        ensures
            *final(self) == old(self).after_index(base, addr),
    {
        let crossed = Addressing::page_crossed(base, addr);
        self.crossed_page = crossed;
        let forced = match self.opcode_in_flight {
            Some(op) => Addressing::forces_dummy_read_cycle(op),
            None => false,
        };
        if !crossed && !forced {
            self.skip_cycles = 1;
        }
    }
}

} // verus!
