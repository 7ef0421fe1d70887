//! The processor status register: seven independent one-bit flags.
//!
//! The register is one packed byte. Its mathematical model is `Flags`, a
//! record of seven booleans; every operation on the register says what it
//! does to that record, so a flag that an operation does not name is
//! preserved by its contract.

use vstd::prelude::*;
use crate::word::{bit7, lemma_bit7_is_mask};

verus! {

/// Bit of the carry flag in the status byte.
pub const CARRY: u8 = 0x01;

/// Bit of the zero flag in the status byte.
pub const ZERO: u8 = 0x02;

/// Bit of the interrupt-disable flag in the status byte.
pub const INTERRUPT_DISABLE: u8 = 0x04;

/// Bit of the decimal-mode flag in the status byte.
pub const DECIMAL: u8 = 0x08;

/// Bit of the break-command flag in the status byte.
pub const BREAK: u8 = 0x10;

/// The one bit of the status byte that holds no flag; it is always clear.
pub const UNUSED: u8 = 0x20;

/// Bit of the overflow flag in the status byte.
pub const OVERFLOW: u8 = 0x40;

/// Bit of the negative flag in the status byte.
pub const NEGATIVE: u8 = 0x80;

/// The name of one status flag.
#[derive(Clone, Copy, Debug, PartialEq, Eq)]
pub enum Flag {
    Carry,
    Zero,
    InterruptDisable,
    Decimal,
    Break,
    Overflow,
    Negative,
}

impl Flag {
    /// The bit that holds this flag in the status byte.
    pub open spec fn spec_mask(self) -> u8 {
        match self {
            Flag::Carry => CARRY,
            Flag::Zero => ZERO,
            Flag::InterruptDisable => INTERRUPT_DISABLE,
            Flag::Decimal => DECIMAL,
            Flag::Break => BREAK,
            Flag::Overflow => OVERFLOW,
            Flag::Negative => NEGATIVE,
        }
    }

    /// The bit that holds this flag in the status byte.
    #[verifier::when_used_as_spec(spec_mask)]
    pub fn mask(self) -> (m: u8)
        ensures
            m == self.spec_mask(),
    {
        match self {
            Flag::Carry => CARRY,
            Flag::Zero => ZERO,
            Flag::InterruptDisable => INTERRUPT_DISABLE,
            Flag::Decimal => DECIMAL,
            Flag::Break => BREAK,
            Flag::Overflow => OVERFLOW,
            Flag::Negative => NEGATIVE,
        }
    }
}

/// The seven status flags as a record of booleans: the model of `Status`.
pub struct Flags {
    pub carry: bool,
    pub zero: bool,
    pub interrupt_disable: bool,
    pub decimal: bool,
    pub break_command: bool,
    pub overflow: bool,
    pub negative: bool,
}

impl Flags {
    /// All seven flags clear.
    pub open spec fn cleared() -> Flags {
        Flags {
            carry: false,
            zero: false,
            interrupt_disable: false,
            decimal: false,
            break_command: false,
            overflow: false,
            negative: false,
        }
    }

    /// The flags that a status byte holds.
    pub open spec fn of_bits(bits: u8) -> Flags {
        Flags {
            carry: bits & CARRY != 0,
            zero: bits & ZERO != 0,
            interrupt_disable: bits & INTERRUPT_DISABLE != 0,
            decimal: bits & DECIMAL != 0,
            break_command: bits & BREAK != 0,
            overflow: bits & OVERFLOW != 0,
            negative: bits & NEGATIVE != 0,
        }
    }

    /// The status byte that holds these flags: the sum of the bits of the
    /// flags that are set.
    pub open spec fn bits(self) -> u8 {
        ((if self.carry { CARRY as int } else { 0 })
            + (if self.zero { ZERO as int } else { 0 })
            + (if self.interrupt_disable { INTERRUPT_DISABLE as int } else { 0 })
            + (if self.decimal { DECIMAL as int } else { 0 })
            + (if self.break_command { BREAK as int } else { 0 })
            + (if self.overflow { OVERFLOW as int } else { 0 })
            + (if self.negative { NEGATIVE as int } else { 0 })) as u8
    }

    /// The value of one flag.
    pub open spec fn get(self, flag: Flag) -> bool {
        match flag {
            Flag::Carry => self.carry,
            Flag::Zero => self.zero,
            Flag::InterruptDisable => self.interrupt_disable,
            Flag::Decimal => self.decimal,
            Flag::Break => self.break_command,
            Flag::Overflow => self.overflow,
            Flag::Negative => self.negative,
        }
    }

    /// These flags with one of them set to `on`.
    pub open spec fn with(self, flag: Flag, on: bool) -> Flags {
        match flag {
            Flag::Carry => Flags { carry: on, ..self },
            Flag::Zero => Flags { zero: on, ..self },
            Flag::InterruptDisable => Flags { interrupt_disable: on, ..self },
            Flag::Decimal => Flags { decimal: on, ..self },
            Flag::Break => Flags { break_command: on, ..self },
            Flag::Overflow => Flags { overflow: on, ..self },
            Flag::Negative => Flags { negative: on, ..self },
        }
    }

    /// These flags after `value` was loaded into a register: the zero flag
    /// says whether `value` is zero, the negative flag is bit 7 of `value`,
    /// and the other five are as before.
    pub open spec fn with_zero_negative(self, value: u8) -> Flags {
        Flags { zero: value == 0, negative: bit7(value), ..self }
    }
}

/// The status register, packed into one byte.
#[derive(Clone, Copy, Debug, PartialEq, Eq)]
pub struct Status {
    bits: u8,
}

impl View for Status {
    type V = Flags;

    closed spec fn view(&self) -> Flags {
        Flags::of_bits(self.bits)
    }
}

impl Status {
    /// The bit that holds no flag is never set.
    #[verifier::type_invariant]
    spec fn well_formed(self) -> bool {
        self.bits & UNUSED == 0
    }

    /// A register with all flags clear.
    pub fn new() -> (status: Status)
        ensures
            status@ == Flags::cleared(),
    {
        proof {
            lemma_no_bits();
        }
        Status { bits: 0 }
    }

    /// The register that holds the flags of the byte `bits`. The bit that
    /// holds no flag is dropped.
    pub fn from_bits(bits: u8) -> (status: Status)
        ensures
            status@ == Flags::of_bits(bits),
    {
        proof {
            lemma_drop_unused(bits);
        }
        Status { bits: bits & !UNUSED }
    }

    /// The register as one byte.
    pub fn bits(&self) -> (bits: u8)
        ensures
            bits == self@.bits(),
    {
        proof {
            use_type_invariant(self);
            lemma_bits_of_flags(self.bits);
        }
        self.bits
    }

    /// The value of one flag.
    pub fn get(&self, flag: Flag) -> (on: bool)
        ensures
            on == self@.get(flag),
    {
        self.bits & flag.mask() != 0
    }

    /// This register with one flag set to `on` and the other six unchanged.
    pub fn with(self, flag: Flag, on: bool) -> (status: Status)
        ensures
            status@ == self@.with(flag, on),
    {
        let mask: u8 = flag.mask();
        proof {
            use_type_invariant(self);
            lemma_set_bit(self.bits, mask);
            lemma_clear_bit(self.bits, mask);
        }
        if on {
            Status { bits: self.bits | mask }
        } else {
            Status { bits: self.bits & !mask }
        }
    }

    /// This register after `value` was loaded into a register of the
    /// processor: zero and negative follow `value`, the other five flags are
    /// unchanged.
    pub fn with_zero_negative(self, value: u8) -> (status: Status)
        ensures
            status@ == self@.with_zero_negative(value),
    {
        let zero: u8 = if value == 0 { ZERO } else { 0 };
        proof {
            use_type_invariant(self);
            lemma_load_bits(self.bits, value, zero);
            lemma_bit7_is_mask(value);
        }
        Status { bits: (self.bits & !(ZERO | NEGATIVE)) | (value & NEGATIVE) | zero }
    }
}

/// A status byte without the unused bit is the sum of its flag bits.
proof fn lemma_bits_of_flags(bits: u8)
    by (bit_vector)
    requires
        bits & 0x20 == 0,
    ensures
        bits == (if bits & 0x01 != 0 { 0x01u8 } else { 0 }) + (if bits & 0x02 != 0 { 0x02u8 } else { 0 })
            + (if bits & 0x04 != 0 { 0x04u8 } else { 0 }) + (if bits & 0x08 != 0 { 0x08u8 } else { 0 })
            + (if bits & 0x10 != 0 { 0x10u8 } else { 0 }) + (if bits & 0x40 != 0 { 0x40u8 } else { 0 })
            + (if bits & 0x80 != 0 { 0x80u8 } else { 0 }),
{
}

/// The zero byte has no bit set.
proof fn lemma_no_bits()
    by (bit_vector)
    ensures
        0u8 & 0x01 == 0,
        0u8 & 0x02 == 0,
        0u8 & 0x04 == 0,
        0u8 & 0x08 == 0,
        0u8 & 0x10 == 0,
        0u8 & 0x20 == 0,
        0u8 & 0x40 == 0,
        0u8 & 0x80 == 0,
{
}

/// Clearing the unused bit of a byte leaves every flag bit as it was.
proof fn lemma_drop_unused(bits: u8)
    by (bit_vector)
    ensures
        (bits & !0x20u8) & 0x20 == 0,
        (bits & !0x20u8) & 0x01 == bits & 0x01,
        (bits & !0x20u8) & 0x02 == bits & 0x02,
        (bits & !0x20u8) & 0x04 == bits & 0x04,
        (bits & !0x20u8) & 0x08 == bits & 0x08,
        (bits & !0x20u8) & 0x10 == bits & 0x10,
        (bits & !0x20u8) & 0x40 == bits & 0x40,
        (bits & !0x20u8) & 0x80 == bits & 0x80,
{
}

/// Setting the bit of one flag sets that flag and leaves every other bit.
proof fn lemma_set_bit(bits: u8, mask: u8)
    by (bit_vector)
    requires
        mask == 0x01 || mask == 0x02 || mask == 0x04 || mask == 0x08 || mask == 0x10 || mask
            == 0x40 || mask == 0x80,
    ensures
        (bits | mask) & mask != 0,
        (bits | mask) & 0x20 == bits & 0x20,
        mask != 0x01 ==> (bits | mask) & 0x01 == bits & 0x01,
        mask != 0x02 ==> (bits | mask) & 0x02 == bits & 0x02,
        mask != 0x04 ==> (bits | mask) & 0x04 == bits & 0x04,
        mask != 0x08 ==> (bits | mask) & 0x08 == bits & 0x08,
        mask != 0x10 ==> (bits | mask) & 0x10 == bits & 0x10,
        mask != 0x40 ==> (bits | mask) & 0x40 == bits & 0x40,
        mask != 0x80 ==> (bits | mask) & 0x80 == bits & 0x80,
{
}

/// Clearing the bit of one flag clears that flag and leaves every other bit.
proof fn lemma_clear_bit(bits: u8, mask: u8)
    by (bit_vector)
    requires
        mask == 0x01 || mask == 0x02 || mask == 0x04 || mask == 0x08 || mask == 0x10 || mask
            == 0x40 || mask == 0x80,
    ensures
        (bits & !mask) & mask == 0,
        (bits & !mask) & 0x20 == bits & 0x20,
        mask != 0x01 ==> (bits & !mask) & 0x01 == bits & 0x01,
        mask != 0x02 ==> (bits & !mask) & 0x02 == bits & 0x02,
        mask != 0x04 ==> (bits & !mask) & 0x04 == bits & 0x04,
        mask != 0x08 ==> (bits & !mask) & 0x08 == bits & 0x08,
        mask != 0x10 ==> (bits & !mask) & 0x10 == bits & 0x10,
        mask != 0x40 ==> (bits & !mask) & 0x40 == bits & 0x40,
        mask != 0x80 ==> (bits & !mask) & 0x80 == bits & 0x80,
{
}

/// The status byte after a load: the zero bit is `zero`, the negative bit is
/// bit 7 of `value`, and every other bit is as in `bits`.
proof fn lemma_load_bits(bits: u8, value: u8, zero: u8)
    by (bit_vector)
    requires
        zero == 0x00 || zero == 0x02,
    ensures
        ((bits & !(0x02u8 | 0x80u8)) | (value & 0x80) | zero) & 0x02 == zero,
        ((bits & !(0x02u8 | 0x80u8)) | (value & 0x80) | zero) & 0x80 == value & 0x80,
        ((bits & !(0x02u8 | 0x80u8)) | (value & 0x80) | zero) & 0x01 == bits & 0x01,
        ((bits & !(0x02u8 | 0x80u8)) | (value & 0x80) | zero) & 0x04 == bits & 0x04,
        ((bits & !(0x02u8 | 0x80u8)) | (value & 0x80) | zero) & 0x08 == bits & 0x08,
        ((bits & !(0x02u8 | 0x80u8)) | (value & 0x80) | zero) & 0x10 == bits & 0x10,
        ((bits & !(0x02u8 | 0x80u8)) | (value & 0x80) | zero) & 0x20 == bits & 0x20,
        ((bits & !(0x02u8 | 0x80u8)) | (value & 0x80) | zero) & 0x40 == bits & 0x40,
{
}

} // verus!
