//! The processor status register.
//!
//! ```text
//!  7 6 5 4 3 2 1 0
//!  N V _ B D I Z C
//!  | | | | | | | +--- carry
//!  | | | | | | +----- zero
//!  | | | | | +------- interrupt disable
//!  | | | | +--------- decimal mode (kept, never used for arithmetic)
//!  | | | +----------- break
//!  | | +------------- second break bit
//!  | +--------------- overflow
//!  +----------------- negative
//! ```
//!
//! A flag is named by its mask, a byte with one bit set. The register's
//! model is the byte itself; `flag_on` and `with_flag` read and change a
//! flag in that byte.

use vstd::prelude::*;

verus! {

/// Carry: the last addition passed 255, or the last shift pushed a bit
/// out.
pub const CARRY: u8 = 0b0000_0001;

/// Zero: the last result was zero.
pub const ZERO: u8 = 0b0000_0010;

/// Interrupt disable.
pub const INTERRUPT_DISABLE: u8 = 0b0000_0100;

/// Decimal mode: kept, and never used for arithmetic.
pub const DECIMAL_MODE: u8 = 0b0000_1000;

/// Break.
pub const BREAK: u8 = 0b0001_0000;

/// The second break bit: set in every status byte that is pushed or
/// popped.
pub const BREAK2: u8 = 0b0010_0000;

/// Overflow: the last addition overflowed as a signed addition.
pub const OVERFLOW: u8 = 0b0100_0000;

/// Negative: bit 7 of the last result.
pub const NEGATIVE: u8 = 0b1000_0000;

/// The register's value at power-on and after a reset: interrupt disable
/// and the second break bit set, everything else clear.
pub const POWER_ON: u8 = 0b0010_0100;

/// Whether every bit of `mask` is set in `bits`.
pub open spec fn flag_on(bits: u8, mask: u8) -> bool {
    bits & mask == mask
}

/// `bits` with the bits of `mask` all set (`on`) or all cleared.
pub open spec fn with_flag(bits: u8, mask: u8, on: bool) -> u8 {
    if on {
        bits | mask
    } else {
        bits & !mask
    }
}

/// After `with_flag(bits, mask, on)` the flag `mask` is on exactly when
/// `on` says so, whatever `bits` held.
pub proof fn lemma_with_flag_reads_back(bits: u8, mask: u8, on: bool)
    requires
        mask != 0,
    ensures
        flag_on(with_flag(bits, mask, on), mask) == on,
{
    assert(flag_on(bits | mask, mask)) by (bit_vector);
    assert(mask != 0 ==> !flag_on(bits & !mask, mask)) by (bit_vector);
}

/// Changing one flag leaves every flag that shares no bit with it as it
/// was.
pub proof fn lemma_with_flag_keeps_others(bits: u8, mask: u8, on: bool, other: u8)
    requires
        mask & other == 0,
    ensures
        flag_on(with_flag(bits, mask, on), other) == flag_on(bits, other),
        with_flag(bits, mask, on) & other == bits & other,
{
    assert(mask & other == 0 ==> (bits | mask) & other == bits & other) by (bit_vector);
    assert(mask & other == 0 ==> (bits & !mask) & other == bits & other) by (bit_vector);
}

/// The status register: eight named bits packed in one byte.
#[derive(Clone, Copy, Debug)]
pub struct CpuFlags {
    bits: u8,
}

impl View for CpuFlags {
    type V = u8;

    closed spec fn view(&self) -> u8 {
        self.bits
    }
}

impl CpuFlags {
    /// The register that holds the bits of `bits`. Every bit names a flag,
    /// so none is dropped.
    pub fn from_bits_truncate(bits: u8) -> (flags: CpuFlags)
        ensures
            flags@ == bits,
    {
        CpuFlags { bits }
    }

    /// The register as a byte.
    pub fn bits(&self) -> (bits: u8)
        ensures
            bits == self@,
    {
        self.bits
    }

    /// Whether the flags of `mask` are all set.
    pub fn contains(&self, mask: u8) -> (on: bool)
        ensures
            on == flag_on(self@, mask),
    {
        self.bits & mask == mask
    }

    /// Sets the flags of `mask`.
    pub fn insert(&mut self, mask: u8)
        ensures
            final(self)@ == with_flag(old(self)@, mask, true),
    {
        self.bits = self.bits | mask;
    }

    /// Clears the flags of `mask`.
    pub fn remove(&mut self, mask: u8)
        ensures
            final(self)@ == with_flag(old(self)@, mask, false),
    {
        self.bits = self.bits & !mask;
    }

    /// Sets the flags of `mask` when `value` holds, clears them otherwise.
    pub fn set(&mut self, mask: u8, value: bool)
        ensures
            final(self)@ == with_flag(old(self)@, mask, value),
    {
        if value {
            self.insert(mask);
        } else {
            self.remove(mask);
        }
    }
}

} // verus!
