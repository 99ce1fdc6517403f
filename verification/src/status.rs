use vstd::prelude::*;

verus! {

/// Mask of bit 0.
pub const BIT_0: u8 = 0x01;
/// Mask of bit 5.
pub const BIT_5: u8 = 0x20;
/// Mask of bit 6.
pub const BIT_6: u8 = 0x40;
/// Mask of bit 7.
pub const BIT_7: u8 = 0x80;

/// Whether `mask` names exactly one of the eight status bits.
pub open spec fn is_flag(mask: u8) -> bool {
    mask == 0x01 || mask == 0x02 || mask == 0x04 || mask == 0x08 || mask == 0x10 || mask == 0x20
        || mask == 0x40 || mask == 0x80
}

/// Whether bit 7 of `value` is set.
pub open spec fn bit7(value: u8) -> bool {
    value & 0x80 != 0
}

/// The 8-bit processor status register (P) of the NES CPU.
///
/// Bit layout, bit 7 down to bit 0: `N V U B D I Z C`.
/// Each bit is a flag that reflects CPU state after arithmetic,
/// logical, or control operations.
#[derive(Clone, Copy, PartialEq, Eq, Structural, Debug, Hash)]
pub struct Status {
    pub bits: u8,
}

impl Status {
    /// Carry flag (C): set when an addition carries out of bit 7,
    /// or a subtraction needs no borrow.
    pub const CARRY: u8 = 0x01;
    /// Zero flag (Z): set when the result of an operation is zero.
    pub const ZERO: u8 = 0x02;
    /// Interrupt disable flag (I): maskable interrupts are disabled while set.
    pub const INTERRUPT: u8 = 0x04;
    /// Decimal mode flag (D): kept for compatibility with the 6502 instruction
    /// set; it has no effect on the NES CPU, whose additions are always binary.
    pub const DECIMAL: u8 = 0x08;
    /// Break flag (B): set in the copy of P pushed by BRK and PHP.
    pub const BREAK: u8 = 0x10;
    /// Unused bit (U): always 1 in the copy of P pushed to the stack.
    pub const UNUSED: u8 = 0x20;
    /// Overflow flag (V): set when signed arithmetic overflows.
    pub const OVERFLOW: u8 = 0x40;
    /// Negative flag (N): bit 7 of the result of the last operation.
    pub const NEGATIVE: u8 = 0x80;

    /// The status value with the bits of `mask` set to `value` and the others kept.
    pub open spec fn with(self, mask: u8, value: bool) -> Status {
        if value {
            Status { bits: self.bits | mask }
        } else {
            Status { bits: self.bits & !mask }
        }
    }

    /// Whether every bit of `mask` is set.
    pub open spec fn has(self, mask: u8) -> bool {
        self.bits & mask == mask
    }

    /// The status value after Z and N have been taken from `value`.
    pub open spec fn with_zn(self, value: u8) -> Status {
        self.with(Status::ZERO, value == 0).with(Status::NEGATIVE, bit7(value))
    }

    /// The status value with no flag set.
    pub fn empty() -> (r: Status)
        ensures
            r.bits == 0,
    {
        Status { bits: 0 }
    }

    /// The raw bits of the register.
    pub fn bits(&self) -> (r: u8)
        ensures
            r == self.bits,
    {
        self.bits
    }

    /// The status value whose bits are `bits` (every bit of a byte names a flag).
    pub fn from_bits_truncate(bits: u8) -> (r: Status)
        ensures
            r.bits == bits,
    {
        Status { bits }
    }

    /// Whether every flag of `mask` is set.
    pub fn contains(&self, mask: u8) -> (r: bool)
        ensures
            r == self.has(mask),
    {
        self.bits & mask == mask
    }

    /// Set the flags of `mask`.
    pub fn insert(&mut self, mask: u8)
        ensures
            *final(self) == old(self).with(mask, true),
    {
        self.bits = self.bits | mask;
    }

    /// Clear the flags of `mask`.
    pub fn remove(&mut self, mask: u8)
        ensures
            *final(self) == old(self).with(mask, false),
    {
        self.bits = self.bits & !mask;
    }

    /// Set or clear the flags of `mask` according to `value`.
    pub fn set(&mut self, mask: u8, value: bool)
        ensures
            *final(self) == old(self).with(mask, value),
    {
        if value {
            self.insert(mask);
        } else {
            self.remove(mask);
        }
    }

    /// The flags of `self` together with those of `mask`.
    pub fn union(self, mask: u8) -> (r: Status)
        ensures
            r == self.with(mask, true),
    {
        Status { bits: self.bits | mask }
    }

    /// Set or clear the Zero flag based on a value.
    pub fn update_zero(&mut self, value: u8)
        ensures
            *final(self) == old(self).with(Status::ZERO, value == 0),
    {
        if value == 0 {
            self.insert(Status::ZERO);
        } else {
            self.remove(Status::ZERO);
        }
    }

    /// Set or clear the Negative flag based on bit 7 of a value.
    pub fn update_negative(&mut self, value: u8)
        ensures
            *final(self) == old(self).with(Status::NEGATIVE, bit7(value)),
    {
        if value & 0x80 != 0 {
            self.insert(Status::NEGATIVE);
        } else {
            self.remove(Status::NEGATIVE);
        }
    }

    /// Set Z and N from a value: Z when it is zero, N from its bit 7.
    pub fn set_zn(&mut self, value: u8)
        ensures
            *final(self) == old(self).with_zn(value),
    {
        self.update_zero(value);
        self.update_negative(value);
    }

    /// Update the carry flag (C).
    pub fn set_c(&mut self, value: bool)
        ensures
            *final(self) == old(self).with(Status::CARRY, value),
    {
        self.set(Status::CARRY, value);
    }

    /// Update the decimal flag (D).
    pub fn set_d(&mut self, value: bool)
        ensures
            *final(self) == old(self).with(Status::DECIMAL, value),
    {
        self.set(Status::DECIMAL, value);
    }

    /// Update the interrupt disable flag (I).
    pub fn set_i(&mut self, value: bool)
        ensures
            *final(self) == old(self).with(Status::INTERRUPT, value),
    {
        self.set(Status::INTERRUPT, value);
    }

    /// Update the unused bit (U).
    pub fn set_u(&mut self, value: bool)
        ensures
            *final(self) == old(self).with(Status::UNUSED, value),
    {
        self.set(Status::UNUSED, value);
    }

    /// Update the break flag (B).
    pub fn set_b(&mut self, value: bool)
        ensures
            *final(self) == old(self).with(Status::BREAK, value),
    {
        self.set(Status::BREAK, value);
    }

    /// Update the negative flag (N).
    pub fn set_n(&mut self, value: bool)
        ensures
            *final(self) == old(self).with(Status::NEGATIVE, value),
    {
        self.set(Status::NEGATIVE, value);
    }

    /// Update the overflow flag (V).
    pub fn set_v(&mut self, value: bool)
        ensures
            *final(self) == old(self).with(Status::OVERFLOW, value),
    {
        self.set(Status::OVERFLOW, value);
    }

    /// Update the zero flag (Z).
    pub fn set_z(&mut self, value: bool)
        ensures
            *final(self) == old(self).with(Status::ZERO, value),
    {
        self.set(Status::ZERO, value);
    }

    /// The negative flag (N).
    pub fn n(&self) -> (r: bool)
        ensures
            r == self.has(Status::NEGATIVE),
    {
        self.contains(Status::NEGATIVE)
    }

    /// The zero flag (Z).
    pub fn z(&self) -> (r: bool)
        ensures
            r == self.has(Status::ZERO),
    {
        self.contains(Status::ZERO)
    }

    /// The unused bit (U).
    pub fn u(&self) -> (r: bool)
        ensures
            r == self.has(Status::UNUSED),
    {
        self.contains(Status::UNUSED)
    }

    /// The overflow flag (V).
    pub fn v(&self) -> (r: bool)
        ensures
            r == self.has(Status::OVERFLOW),
    {
        self.contains(Status::OVERFLOW)
    }

    /// The carry flag (C).
    pub fn c(&self) -> (r: bool)
        ensures
            r == self.has(Status::CARRY),
    {
        self.contains(Status::CARRY)
    }

    /// The interrupt disable flag (I).
    pub fn i(&self) -> (r: bool)
        ensures
            r == self.has(Status::INTERRUPT),
    {
        self.contains(Status::INTERRUPT)
    }

    /// The break flag (B).
    pub fn b(&self) -> (r: bool)
        ensures
            r == self.has(Status::BREAK),
    {
        self.contains(Status::BREAK)
    }

    /// The decimal flag (D).
    pub fn d(&self) -> (r: bool)
        ensures
            r == self.has(Status::DECIMAL),
    {
        self.contains(Status::DECIMAL)
    }
}

/// Setting one flag to `value` makes that flag read back as `value`
/// and leaves every other flag as it was.
pub proof fn lemma_with_flag(s: Status, mask: u8, value: bool, other: u8)
    requires
        is_flag(mask),
        is_flag(other),
    ensures
        s.with(mask, value).has(other) == if other == mask {
            value
        } else {
            s.has(other)
        },
{
    let b = s.bits;
    assert(((b | mask) & other == other) == (if other == mask {
        true
    } else {
        b & other == other
    })) by (bit_vector)
        requires
            mask == 0x01u8 || mask == 0x02u8 || mask == 0x04u8 || mask == 0x08u8 || mask == 0x10u8
                || mask == 0x20u8 || mask == 0x40u8 || mask == 0x80u8,
            other == 0x01u8 || other == 0x02u8 || other == 0x04u8 || other == 0x08u8 || other
                == 0x10u8 || other == 0x20u8 || other == 0x40u8 || other == 0x80u8,
    ;
    assert(((b & !mask) & other == other) == (if other == mask {
        false
    } else {
        b & other == other
    })) by (bit_vector)
        requires
            mask == 0x01u8 || mask == 0x02u8 || mask == 0x04u8 || mask == 0x08u8 || mask == 0x10u8
                || mask == 0x20u8 || mask == 0x40u8 || mask == 0x80u8,
            other == 0x01u8 || other == 0x02u8 || other == 0x04u8 || other == 0x08u8 || other
                == 0x10u8 || other == 0x20u8 || other == 0x40u8 || other == 0x80u8,
    ;
}

/// After `set_zn(value)`, Z tells whether `value` is zero, N is bit 7 of `value`,
/// and the other six flags are unchanged.
pub proof fn lemma_with_zn(s: Status, value: u8, other: u8)
    requires
        is_flag(other),
    ensures
        s.with_zn(value).has(Status::ZERO) == (value == 0),
        s.with_zn(value).has(Status::NEGATIVE) == (value >= 0x80),
        other != Status::ZERO && other != Status::NEGATIVE ==> s.with_zn(value).has(other)
            == s.has(other),
{
    lemma_with_flag(s, Status::ZERO, value == 0, other);
    lemma_with_flag(s, Status::ZERO, value == 0, Status::ZERO);
    lemma_with_flag(s, Status::ZERO, value == 0, Status::NEGATIVE);
    let s1 = s.with(Status::ZERO, value == 0);
    lemma_with_flag(s1, Status::NEGATIVE, bit7(value), other);
    lemma_with_flag(s1, Status::NEGATIVE, bit7(value), Status::ZERO);
    lemma_with_flag(s1, Status::NEGATIVE, bit7(value), Status::NEGATIVE);
    lemma_bit7(value);
}

/// Bit 7 of a byte is set exactly when the byte is at least 0x80.
pub proof fn lemma_bit7(value: u8)
    ensures
        bit7(value) == (value >= 0x80),
{
    assert((value & 0x80 != 0) == (value >= 0x80)) by (bit_vector);
}

/// Writing two flags and then Z and N from `r`: each of the eight flags reads
/// back as the last value written to it, or as before where none was written.
pub proof fn lemma_flags_after(p: Status, m1: u8, b1: bool, m2: u8, b2: bool, r: u8, f: u8)
    requires
        is_flag(m1),
        is_flag(m2),
        is_flag(f),
    ensures
        p.with(m1, b1).with(m2, b2).with_zn(r).has(f) == if f == Status::ZERO {
            r == 0
        } else if f == Status::NEGATIVE {
            r >= 0x80
        } else if f == m2 {
            b2
        } else if f == m1 {
            b1
        } else {
            p.has(f)
        },
{
    lemma_with_flag(p, m1, b1, f);
    lemma_with_flag(p.with(m1, b1), m2, b2, f);
    lemma_with_zn(p.with(m1, b1).with(m2, b2), r, f);
}

/// Writing one flag and then Z and N from `r`: each of the eight flags reads
/// back as the last value written to it, or as before where none was written.
pub proof fn lemma_flag_then_zn(p: Status, m: u8, b: bool, r: u8, f: u8)
    requires
        is_flag(m),
        is_flag(f),
    ensures
        p.with(m, b).with_zn(r).has(f) == if f == Status::ZERO {
            r == 0
        } else if f == Status::NEGATIVE {
            r >= 0x80
        } else if f == m {
            b
        } else {
            p.has(f)
        },
{
    lemma_with_flag(p, m, b, f);
    lemma_with_zn(p.with(m, b), r, f);
}

} // verus!
