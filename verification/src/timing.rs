use vstd::prelude::*;

verus! {

/// Cycle count class of an opcode.
#[derive(Clone, Copy, PartialEq, Eq, Structural, Debug, Hash)]
pub enum Timing {
    /// Always the given number of cycles.
    Fixed(u8),
    /// The given number of cycles, plus one when an indexed address crosses a page.
    PageCross(u8),
    /// A branch: the given number of cycles, plus one when taken, plus one more
    /// when the taken branch lands on another page.
    Branch(u8),
}

/// A fixed cycle count.
pub fn f(cycle: u8) -> (r: Timing)
    ensures
        r == Timing::Fixed(cycle),
{
    Timing::Fixed(cycle)
}

/// A cycle count with a page-cross penalty.
pub fn p(cycle: u8) -> (r: Timing)
    ensures
        r == Timing::PageCross(cycle),
{
    Timing::PageCross(cycle)
}

/// A branch cycle count.
pub fn b(cycle: u8) -> (r: Timing)
    ensures
        r == Timing::Branch(cycle),
{
    Timing::Branch(cycle)
}

impl Timing {
    /// The cycle count without penalties.
    pub open spec fn basic_spec(self) -> nat {
        match self {
            Timing::Fixed(c) | Timing::PageCross(c) | Timing::Branch(c) => c as nat,
        }
    }

    /// The cycle count when `page_crossed` and `branch_taken` hold as given.
    pub open spec fn total_spec(self, page_crossed: bool, branch_taken: bool) -> nat {
        self.basic_spec() + (if page_crossed && self is PageCross {
            1nat
        } else {
            0nat
        }) + (if branch_taken && self is Branch {
            if page_crossed {
                2nat
            } else {
                1nat
            }
        } else {
            0nat
        })
    }

    /// The cycle count without penalties.
    pub fn basic_cycles(&self) -> (r: usize)
        ensures
            r == self.basic_spec(),
    {
        match self {
            Timing::Fixed(c) | Timing::PageCross(c) | Timing::Branch(c) => *c as usize,
        }
    }

    /// The cycle count once the page crossing and the branch outcome are known.
    pub fn total_cycles(&self, page_crossed: bool, branch_taken: bool) -> (r: usize)
        ensures
            r == self.total_spec(page_crossed, branch_taken),
    {
        let mut total = self.basic_cycles();
        if page_crossed && matches!(self, Timing::PageCross(_)) {
            total += 1;
        }
        if branch_taken && matches!(self, Timing::Branch(_)) {
            total += 1;
            if page_crossed {
                total += 1;
            }
        }
        total
    }
}

/// The timing table: the cycle class of each of the 256 opcodes.
pub open spec fn timing_spec(opcode: u8) -> Timing {
    match opcode {
        0x00 => Timing::Fixed(7),
        0x01 => Timing::Fixed(6),
        0x02 => Timing::Fixed(0),
        0x03 => Timing::Fixed(8),
        0x04 => Timing::Fixed(3),
        0x05 => Timing::Fixed(3),
        0x06 => Timing::Fixed(5),
        0x07 => Timing::Fixed(5),
        0x08 => Timing::Fixed(3),
        0x09 => Timing::Fixed(2),
        0x0A => Timing::Fixed(2),
        0x0B => Timing::Fixed(2),
        0x0C => Timing::Fixed(4),
        0x0D => Timing::Fixed(4),
        0x0E => Timing::Fixed(6),
        0x0F => Timing::Fixed(6),
        0x10 => Timing::Branch(2),
        0x11 => Timing::PageCross(5),
        0x12 => Timing::Fixed(0),
        0x13 => Timing::Fixed(8),
        0x14 => Timing::Fixed(4),
        0x15 => Timing::Fixed(4),
        0x16 => Timing::Fixed(6),
        0x17 => Timing::Fixed(6),
        0x18 => Timing::Fixed(2),
        0x19 => Timing::PageCross(4),
        0x1A => Timing::Fixed(2),
        0x1B => Timing::Fixed(7),
        0x1C => Timing::PageCross(4),
        0x1D => Timing::PageCross(4),
        0x1E => Timing::Fixed(7),
        0x1F => Timing::Fixed(7),
        0x20 => Timing::Fixed(6),
        0x21 => Timing::Fixed(6),
        0x22 => Timing::Fixed(0),
        0x23 => Timing::Fixed(8),
        0x24 => Timing::Fixed(3),
        0x25 => Timing::Fixed(3),
        0x26 => Timing::Fixed(5),
        0x27 => Timing::Fixed(5),
        0x28 => Timing::Fixed(4),
        0x29 => Timing::Fixed(2),
        0x2A => Timing::Fixed(2),
        0x2B => Timing::Fixed(2),
        0x2C => Timing::Fixed(4),
        0x2D => Timing::Fixed(4),
        0x2E => Timing::Fixed(6),
        0x2F => Timing::Fixed(6),
        0x30 => Timing::Branch(2),
        0x31 => Timing::PageCross(5),
        0x32 => Timing::Fixed(0),
        0x33 => Timing::Fixed(8),
        0x34 => Timing::Fixed(4),
        0x35 => Timing::Fixed(4),
        0x36 => Timing::Fixed(6),
        0x37 => Timing::Fixed(6),
        0x38 => Timing::Fixed(2),
        0x39 => Timing::PageCross(4),
        0x3A => Timing::Fixed(2),
        0x3B => Timing::Fixed(7),
        0x3C => Timing::PageCross(4),
        0x3D => Timing::PageCross(4),
        0x3E => Timing::Fixed(7),
        0x3F => Timing::Fixed(7),
        0x40 => Timing::Fixed(6),
        0x41 => Timing::Fixed(6),
        0x42 => Timing::Fixed(0),
        0x43 => Timing::Fixed(8),
        0x44 => Timing::Fixed(3),
        0x45 => Timing::Fixed(3),
        0x46 => Timing::Fixed(5),
        0x47 => Timing::Fixed(5),
        0x48 => Timing::Fixed(3),
        0x49 => Timing::Fixed(2),
        0x4A => Timing::Fixed(2),
        0x4B => Timing::Fixed(2),
        0x4C => Timing::Fixed(3),
        0x4D => Timing::Fixed(4),
        0x4E => Timing::Fixed(6),
        0x4F => Timing::Fixed(6),
        0x50 => Timing::Branch(2),
        0x51 => Timing::PageCross(5),
        0x52 => Timing::Fixed(0),
        0x53 => Timing::Fixed(8),
        0x54 => Timing::Fixed(4),
        0x55 => Timing::Fixed(4),
        0x56 => Timing::Fixed(6),
        0x57 => Timing::Fixed(6),
        0x58 => Timing::Fixed(2),
        0x59 => Timing::PageCross(4),
        0x5A => Timing::Fixed(2),
        0x5B => Timing::Fixed(7),
        0x5C => Timing::PageCross(4),
        0x5D => Timing::PageCross(4),
        0x5E => Timing::Fixed(7),
        0x5F => Timing::Fixed(7),
        0x60 => Timing::Fixed(6),
        0x61 => Timing::Fixed(6),
        0x62 => Timing::Fixed(0),
        0x63 => Timing::Fixed(8),
        0x64 => Timing::Fixed(3),
        0x65 => Timing::Fixed(3),
        0x66 => Timing::Fixed(5),
        0x67 => Timing::Fixed(5),
        0x68 => Timing::Fixed(4),
        0x69 => Timing::Fixed(2),
        0x6A => Timing::Fixed(2),
        0x6B => Timing::Fixed(2),
        0x6C => Timing::Fixed(5),
        0x6D => Timing::Fixed(4),
        0x6E => Timing::Fixed(6),
        0x6F => Timing::Fixed(6),
        0x70 => Timing::Branch(2),
        0x71 => Timing::PageCross(5),
        0x72 => Timing::Fixed(0),
        0x73 => Timing::Fixed(8),
        0x74 => Timing::Fixed(4),
        0x75 => Timing::Fixed(4),
        0x76 => Timing::Fixed(6),
        0x77 => Timing::Fixed(6),
        0x78 => Timing::Fixed(2),
        0x79 => Timing::PageCross(4),
        0x7A => Timing::Fixed(2),
        0x7B => Timing::Fixed(7),
        0x7C => Timing::PageCross(4),
        0x7D => Timing::PageCross(4),
        0x7E => Timing::Fixed(7),
        0x7F => Timing::Fixed(7),
        0x80 => Timing::Fixed(2),
        0x81 => Timing::Fixed(6),
        0x82 => Timing::Fixed(2),
        0x83 => Timing::Fixed(6),
        0x84 => Timing::Fixed(3),
        0x85 => Timing::Fixed(3),
        0x86 => Timing::Fixed(3),
        0x87 => Timing::Fixed(3),
        0x88 => Timing::Fixed(2),
        0x89 => Timing::Fixed(2),
        0x8A => Timing::Fixed(2),
        0x8B => Timing::Fixed(2),
        0x8C => Timing::Fixed(4),
        0x8D => Timing::Fixed(4),
        0x8E => Timing::Fixed(4),
        0x8F => Timing::Fixed(4),
        0x90 => Timing::Branch(2),
        0x91 => Timing::Fixed(6),
        0x92 => Timing::Fixed(0),
        0x93 => Timing::Fixed(6),
        0x94 => Timing::Fixed(4),
        0x95 => Timing::Fixed(4),
        0x96 => Timing::Fixed(4),
        0x97 => Timing::Fixed(4),
        0x98 => Timing::Fixed(2),
        0x99 => Timing::Fixed(5),
        0x9A => Timing::Fixed(2),
        0x9B => Timing::Fixed(5),
        0x9C => Timing::Fixed(5),
        0x9D => Timing::Fixed(5),
        0x9E => Timing::Fixed(5),
        0x9F => Timing::Fixed(5),
        0xA0 => Timing::Fixed(2),
        0xA1 => Timing::Fixed(6),
        0xA2 => Timing::Fixed(2),
        0xA3 => Timing::Fixed(6),
        0xA4 => Timing::Fixed(3),
        0xA5 => Timing::Fixed(3),
        0xA6 => Timing::Fixed(3),
        0xA7 => Timing::Fixed(3),
        0xA8 => Timing::Fixed(2),
        0xA9 => Timing::Fixed(2),
        0xAA => Timing::Fixed(2),
        0xAB => Timing::Fixed(2),
        0xAC => Timing::Fixed(4),
        0xAD => Timing::Fixed(4),
        0xAE => Timing::Fixed(4),
        0xAF => Timing::Fixed(4),
        0xB0 => Timing::Branch(2),
        0xB1 => Timing::PageCross(5),
        0xB2 => Timing::Fixed(0),
        0xB3 => Timing::PageCross(5),
        0xB4 => Timing::Fixed(4),
        0xB5 => Timing::Fixed(4),
        0xB6 => Timing::Fixed(4),
        0xB7 => Timing::Fixed(4),
        0xB8 => Timing::Fixed(2),
        0xB9 => Timing::PageCross(4),
        0xBA => Timing::Fixed(2),
        0xBB => Timing::PageCross(4),
        0xBC => Timing::PageCross(4),
        0xBD => Timing::PageCross(4),
        0xBE => Timing::PageCross(4),
        0xBF => Timing::PageCross(4),
        0xC0 => Timing::Fixed(2),
        0xC1 => Timing::Fixed(6),
        0xC2 => Timing::Fixed(2),
        0xC3 => Timing::Fixed(8),
        0xC4 => Timing::Fixed(3),
        0xC5 => Timing::Fixed(3),
        0xC6 => Timing::Fixed(5),
        0xC7 => Timing::Fixed(5),
        0xC8 => Timing::Fixed(2),
        0xC9 => Timing::Fixed(2),
        0xCA => Timing::Fixed(2),
        0xCB => Timing::Fixed(2),
        0xCC => Timing::Fixed(4),
        0xCD => Timing::Fixed(4),
        0xCE => Timing::Fixed(6),
        0xCF => Timing::Fixed(6),
        0xD0 => Timing::Branch(2),
        0xD1 => Timing::PageCross(5),
        0xD2 => Timing::Fixed(0),
        0xD3 => Timing::Fixed(8),
        0xD4 => Timing::Fixed(4),
        0xD5 => Timing::Fixed(4),
        0xD6 => Timing::Fixed(6),
        0xD7 => Timing::Fixed(6),
        0xD8 => Timing::Fixed(2),
        0xD9 => Timing::PageCross(4),
        0xDA => Timing::Fixed(2),
        0xDB => Timing::Fixed(7),
        0xDC => Timing::PageCross(4),
        0xDD => Timing::PageCross(4),
        0xDE => Timing::Fixed(7),
        0xDF => Timing::Fixed(7),
        0xE0 => Timing::Fixed(2),
        0xE1 => Timing::Fixed(6),
        0xE2 => Timing::Fixed(2),
        0xE3 => Timing::Fixed(8),
        0xE4 => Timing::Fixed(3),
        0xE5 => Timing::Fixed(3),
        0xE6 => Timing::Fixed(5),
        0xE7 => Timing::Fixed(5),
        0xE8 => Timing::Fixed(2),
        0xE9 => Timing::Fixed(2),
        0xEA => Timing::Fixed(2),
        0xEB => Timing::Fixed(2),
        0xEC => Timing::Fixed(4),
        0xED => Timing::Fixed(4),
        0xEE => Timing::Fixed(6),
        0xEF => Timing::Fixed(6),
        0xF0 => Timing::Branch(2),
        0xF1 => Timing::PageCross(5),
        0xF2 => Timing::Fixed(0),
        0xF3 => Timing::Fixed(8),
        0xF4 => Timing::Fixed(4),
        0xF5 => Timing::Fixed(4),
        0xF6 => Timing::Fixed(6),
        0xF7 => Timing::Fixed(6),
        0xF8 => Timing::Fixed(2),
        0xF9 => Timing::PageCross(4),
        0xFA => Timing::Fixed(2),
        0xFB => Timing::Fixed(7),
        0xFC => Timing::PageCross(4),
        0xFD => Timing::PageCross(4),
        0xFE => Timing::Fixed(7),
        0xFF => Timing::Fixed(7),
    }
}

/// The cycle class of an opcode.
pub fn timing(opcode: u8) -> (r: Timing)
    ensures
        r == timing_spec(opcode),
{
    match opcode {
        0x00 => Timing::Fixed(7),
        0x01 => Timing::Fixed(6),
        0x02 => Timing::Fixed(0),
        0x03 => Timing::Fixed(8),
        0x04 => Timing::Fixed(3),
        0x05 => Timing::Fixed(3),
        0x06 => Timing::Fixed(5),
        0x07 => Timing::Fixed(5),
        0x08 => Timing::Fixed(3),
        0x09 => Timing::Fixed(2),
        0x0A => Timing::Fixed(2),
        0x0B => Timing::Fixed(2),
        0x0C => Timing::Fixed(4),
        0x0D => Timing::Fixed(4),
        0x0E => Timing::Fixed(6),
        0x0F => Timing::Fixed(6),
        0x10 => Timing::Branch(2),
        0x11 => Timing::PageCross(5),
        0x12 => Timing::Fixed(0),
        0x13 => Timing::Fixed(8),
        0x14 => Timing::Fixed(4),
        0x15 => Timing::Fixed(4),
        0x16 => Timing::Fixed(6),
        0x17 => Timing::Fixed(6),
        0x18 => Timing::Fixed(2),
        0x19 => Timing::PageCross(4),
        0x1A => Timing::Fixed(2),
        0x1B => Timing::Fixed(7),
        0x1C => Timing::PageCross(4),
        0x1D => Timing::PageCross(4),
        0x1E => Timing::Fixed(7),
        0x1F => Timing::Fixed(7),
        0x20 => Timing::Fixed(6),
        0x21 => Timing::Fixed(6),
        0x22 => Timing::Fixed(0),
        0x23 => Timing::Fixed(8),
        0x24 => Timing::Fixed(3),
        0x25 => Timing::Fixed(3),
        0x26 => Timing::Fixed(5),
        0x27 => Timing::Fixed(5),
        0x28 => Timing::Fixed(4),
        0x29 => Timing::Fixed(2),
        0x2A => Timing::Fixed(2),
        0x2B => Timing::Fixed(2),
        0x2C => Timing::Fixed(4),
        0x2D => Timing::Fixed(4),
        0x2E => Timing::Fixed(6),
        0x2F => Timing::Fixed(6),
        0x30 => Timing::Branch(2),
        0x31 => Timing::PageCross(5),
        0x32 => Timing::Fixed(0),
        0x33 => Timing::Fixed(8),
        0x34 => Timing::Fixed(4),
        0x35 => Timing::Fixed(4),
        0x36 => Timing::Fixed(6),
        0x37 => Timing::Fixed(6),
        0x38 => Timing::Fixed(2),
        0x39 => Timing::PageCross(4),
        0x3A => Timing::Fixed(2),
        0x3B => Timing::Fixed(7),
        0x3C => Timing::PageCross(4),
        0x3D => Timing::PageCross(4),
        0x3E => Timing::Fixed(7),
        0x3F => Timing::Fixed(7),
        0x40 => Timing::Fixed(6),
        0x41 => Timing::Fixed(6),
        0x42 => Timing::Fixed(0),
        0x43 => Timing::Fixed(8),
        0x44 => Timing::Fixed(3),
        0x45 => Timing::Fixed(3),
        0x46 => Timing::Fixed(5),
        0x47 => Timing::Fixed(5),
        0x48 => Timing::Fixed(3),
        0x49 => Timing::Fixed(2),
        0x4A => Timing::Fixed(2),
        0x4B => Timing::Fixed(2),
        0x4C => Timing::Fixed(3),
        0x4D => Timing::Fixed(4),
        0x4E => Timing::Fixed(6),
        0x4F => Timing::Fixed(6),
        0x50 => Timing::Branch(2),
        0x51 => Timing::PageCross(5),
        0x52 => Timing::Fixed(0),
        0x53 => Timing::Fixed(8),
        0x54 => Timing::Fixed(4),
        0x55 => Timing::Fixed(4),
        0x56 => Timing::Fixed(6),
        0x57 => Timing::Fixed(6),
        0x58 => Timing::Fixed(2),
        0x59 => Timing::PageCross(4),
        0x5A => Timing::Fixed(2),
        0x5B => Timing::Fixed(7),
        0x5C => Timing::PageCross(4),
        0x5D => Timing::PageCross(4),
        0x5E => Timing::Fixed(7),
        0x5F => Timing::Fixed(7),
        0x60 => Timing::Fixed(6),
        0x61 => Timing::Fixed(6),
        0x62 => Timing::Fixed(0),
        0x63 => Timing::Fixed(8),
        0x64 => Timing::Fixed(3),
        0x65 => Timing::Fixed(3),
        0x66 => Timing::Fixed(5),
        0x67 => Timing::Fixed(5),
        0x68 => Timing::Fixed(4),
        0x69 => Timing::Fixed(2),
        0x6A => Timing::Fixed(2),
        0x6B => Timing::Fixed(2),
        0x6C => Timing::Fixed(5),
        0x6D => Timing::Fixed(4),
        0x6E => Timing::Fixed(6),
        0x6F => Timing::Fixed(6),
        0x70 => Timing::Branch(2),
        0x71 => Timing::PageCross(5),
        0x72 => Timing::Fixed(0),
        0x73 => Timing::Fixed(8),
        0x74 => Timing::Fixed(4),
        0x75 => Timing::Fixed(4),
        0x76 => Timing::Fixed(6),
        0x77 => Timing::Fixed(6),
        0x78 => Timing::Fixed(2),
        0x79 => Timing::PageCross(4),
        0x7A => Timing::Fixed(2),
        0x7B => Timing::Fixed(7),
        0x7C => Timing::PageCross(4),
        0x7D => Timing::PageCross(4),
        0x7E => Timing::Fixed(7),
        0x7F => Timing::Fixed(7),
        0x80 => Timing::Fixed(2),
        0x81 => Timing::Fixed(6),
        0x82 => Timing::Fixed(2),
        0x83 => Timing::Fixed(6),
        0x84 => Timing::Fixed(3),
        0x85 => Timing::Fixed(3),
        0x86 => Timing::Fixed(3),
        0x87 => Timing::Fixed(3),
        0x88 => Timing::Fixed(2),
        0x89 => Timing::Fixed(2),
        0x8A => Timing::Fixed(2),
        0x8B => Timing::Fixed(2),
        0x8C => Timing::Fixed(4),
        0x8D => Timing::Fixed(4),
        0x8E => Timing::Fixed(4),
        0x8F => Timing::Fixed(4),
        0x90 => Timing::Branch(2),
        0x91 => Timing::Fixed(6),
        0x92 => Timing::Fixed(0),
        0x93 => Timing::Fixed(6),
        0x94 => Timing::Fixed(4),
        0x95 => Timing::Fixed(4),
        0x96 => Timing::Fixed(4),
        0x97 => Timing::Fixed(4),
        0x98 => Timing::Fixed(2),
        0x99 => Timing::Fixed(5),
        0x9A => Timing::Fixed(2),
        0x9B => Timing::Fixed(5),
        0x9C => Timing::Fixed(5),
        0x9D => Timing::Fixed(5),
        0x9E => Timing::Fixed(5),
        0x9F => Timing::Fixed(5),
        0xA0 => Timing::Fixed(2),
        0xA1 => Timing::Fixed(6),
        0xA2 => Timing::Fixed(2),
        0xA3 => Timing::Fixed(6),
        0xA4 => Timing::Fixed(3),
        0xA5 => Timing::Fixed(3),
        0xA6 => Timing::Fixed(3),
        0xA7 => Timing::Fixed(3),
        0xA8 => Timing::Fixed(2),
        0xA9 => Timing::Fixed(2),
        0xAA => Timing::Fixed(2),
        0xAB => Timing::Fixed(2),
        0xAC => Timing::Fixed(4),
        0xAD => Timing::Fixed(4),
        0xAE => Timing::Fixed(4),
        0xAF => Timing::Fixed(4),
        0xB0 => Timing::Branch(2),
        0xB1 => Timing::PageCross(5),
        0xB2 => Timing::Fixed(0),
        0xB3 => Timing::PageCross(5),
        0xB4 => Timing::Fixed(4),
        0xB5 => Timing::Fixed(4),
        0xB6 => Timing::Fixed(4),
        0xB7 => Timing::Fixed(4),
        0xB8 => Timing::Fixed(2),
        0xB9 => Timing::PageCross(4),
        0xBA => Timing::Fixed(2),
        0xBB => Timing::PageCross(4),
        0xBC => Timing::PageCross(4),
        0xBD => Timing::PageCross(4),
        0xBE => Timing::PageCross(4),
        0xBF => Timing::PageCross(4),
        0xC0 => Timing::Fixed(2),
        0xC1 => Timing::Fixed(6),
        0xC2 => Timing::Fixed(2),
        0xC3 => Timing::Fixed(8),
        0xC4 => Timing::Fixed(3),
        0xC5 => Timing::Fixed(3),
        0xC6 => Timing::Fixed(5),
        0xC7 => Timing::Fixed(5),
        0xC8 => Timing::Fixed(2),
        0xC9 => Timing::Fixed(2),
        0xCA => Timing::Fixed(2),
        0xCB => Timing::Fixed(2),
        0xCC => Timing::Fixed(4),
        0xCD => Timing::Fixed(4),
        0xCE => Timing::Fixed(6),
        0xCF => Timing::Fixed(6),
        0xD0 => Timing::Branch(2),
        0xD1 => Timing::PageCross(5),
        0xD2 => Timing::Fixed(0),
        0xD3 => Timing::Fixed(8),
        0xD4 => Timing::Fixed(4),
        0xD5 => Timing::Fixed(4),
        0xD6 => Timing::Fixed(6),
        0xD7 => Timing::Fixed(6),
        0xD8 => Timing::Fixed(2),
        0xD9 => Timing::PageCross(4),
        0xDA => Timing::Fixed(2),
        0xDB => Timing::Fixed(7),
        0xDC => Timing::PageCross(4),
        0xDD => Timing::PageCross(4),
        0xDE => Timing::Fixed(7),
        0xDF => Timing::Fixed(7),
        0xE0 => Timing::Fixed(2),
        0xE1 => Timing::Fixed(6),
        0xE2 => Timing::Fixed(2),
        0xE3 => Timing::Fixed(8),
        0xE4 => Timing::Fixed(3),
        0xE5 => Timing::Fixed(3),
        0xE6 => Timing::Fixed(5),
        0xE7 => Timing::Fixed(5),
        0xE8 => Timing::Fixed(2),
        0xE9 => Timing::Fixed(2),
        0xEA => Timing::Fixed(2),
        0xEB => Timing::Fixed(2),
        0xEC => Timing::Fixed(4),
        0xED => Timing::Fixed(4),
        0xEE => Timing::Fixed(6),
        0xEF => Timing::Fixed(6),
        0xF0 => Timing::Branch(2),
        0xF1 => Timing::PageCross(5),
        0xF2 => Timing::Fixed(0),
        0xF3 => Timing::Fixed(8),
        0xF4 => Timing::Fixed(4),
        0xF5 => Timing::Fixed(4),
        0xF6 => Timing::Fixed(6),
        0xF7 => Timing::Fixed(6),
        0xF8 => Timing::Fixed(2),
        0xF9 => Timing::PageCross(4),
        0xFA => Timing::Fixed(2),
        0xFB => Timing::Fixed(7),
        0xFC => Timing::PageCross(4),
        0xFD => Timing::PageCross(4),
        0xFE => Timing::Fixed(7),
        0xFF => Timing::Fixed(7),
    }
}

} // verus!
