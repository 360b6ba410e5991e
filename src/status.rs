//! The processor status register: seven named flags packed into one byte.

use vstd::prelude::*;

verus! {

/// One named bit of the status register.
#[derive(Clone, Copy, Debug, PartialEq, Eq, Structural)]
pub enum Flag {
    Carry,
    Zero,
    IrqDisable,
    DecimalMode,
    BreakCommand,
    Overflow,
    Negative,
}

impl Flag {
    /// The position of the flag's bit in the register.
    pub open spec fn bit_spec(self) -> u8 {
        match self {
            Flag::Carry => 0,
            Flag::Zero => 1,
            Flag::IrqDisable => 2,
            Flag::DecimalMode => 3,
            Flag::BreakCommand => 4,
            Flag::Overflow => 6,
            Flag::Negative => 7,
        }
    }

    pub fn bit(self) -> (r: u8)
        ensures
            r == self.bit_spec(),
            r < 8,
    {
        match self {
            Flag::Carry => 0,
            Flag::Zero => 1,
            Flag::IrqDisable => 2,
            Flag::DecimalMode => 3,
            Flag::BreakCommand => 4,
            Flag::Overflow => 6,
            Flag::Negative => 7,
        }
    }
}

/// Whether bit `i` of `b` is one.
pub open spec fn bit_set(b: u8, i: u8) -> bool {
    (b >> i) & 1 == 1
}

proof fn lemma_or_bit(b: u8, i: u8, j: u8)
    by (bit_vector)
    requires
        i < 8,
        j < 8,
    ensures
        i == j ==> ((b | (1u8 << i)) >> j) & 1 == 1,
        i != j ==> ((b | (1u8 << i)) >> j) & 1 == (b >> j) & 1,
{
}

proof fn lemma_clear_bit(b: u8, i: u8, j: u8)
    by (bit_vector)
    requires
        i < 8,
        j < 8,
    ensures
        i == j ==> ((b & !(1u8 << i)) >> j) & 1 == 0,
        i != j ==> ((b & !(1u8 << i)) >> j) & 1 == (b >> j) & 1,
{
}

/// The status register. Each flag that an instruction governs is assigned
/// outright on every execution, never only set.
#[derive(Clone, Copy, Debug, PartialEq, Eq, Structural)]
pub struct ProcessorStatus {
    pub bits: u8,
}

impl ProcessorStatus {
    /// Whether flag `f` is set.
    pub open spec fn has(self, f: Flag) -> bool {
        bit_set(self.bits, f.bit_spec())
    }

    /// The register with every flag clear.
    pub fn empty() -> (r: ProcessorStatus)
        ensures
            r.bits == 0,
            forall|f: Flag| !r.has(f),
    {
        let r = ProcessorStatus { bits: 0 };
        assert forall|f: Flag| !r.has(f) by {
            let i = f.bit_spec();
            assert((0u8 >> i) & 1 == 0) by (bit_vector);
        }
        r
    }

    /// Whether flag `f` is set.
    pub fn contains(&self, f: Flag) -> (r: bool)
        ensures
            r == self.has(f),
    {
        (self.bits >> f.bit()) & 1 == 1
    }

    /// Sets flag `f` to `on`, leaving the other flags as they were.
    pub fn set(&mut self, f: Flag, on: bool)
        ensures
            final(self).bits == with_flag(old(self).bits, f, on),
            final(self).has(f) == on,
            forall|g: Flag| g != f ==> final(self).has(g) == old(self).has(g),
    {
        let i = f.bit();
        if on {
            self.bits = self.bits | (1u8 << i);
        } else {
            self.bits = self.bits & !(1u8 << i);
        }
        proof {
            lemma_with_flag(old(self).bits, f, on);
        }
    }

    /// The register after Zero and Negative are recomputed from `value`.
    pub open spec fn zero_negative(self, value: u8) -> ProcessorStatus {
        ProcessorStatus {
            bits: with_flag(
                with_flag(self.bits, Flag::Zero, value == 0),
                Flag::Negative,
                value >= 0x80,
            ),
        }
    }

    /// Recomputes Zero and Negative from `value`: Zero is set exactly when
    /// `value` is 0, Negative exactly when bit 7 of `value` is 1. Every other
    /// flag is left as it was.
    pub fn recompute_zero_negative(&mut self, value: u8)
        ensures
            *final(self) == old(self).zero_negative(value),
            final(self).has(Flag::Zero) == (value == 0),
            final(self).has(Flag::Negative) == (value >= 0x80),
            forall|g: Flag|
                g != Flag::Zero && g != Flag::Negative ==> final(self).has(g) == old(self).has(g),
    {
        self.set(Flag::Zero, value == 0);
        let negative = (value >> 7u8) & 1 == 1;
        assert(negative == (value >= 0x80)) by (bit_vector)
            requires
                negative == ((value >> 7u8) & 1 == 1),
        ;
        self.set(Flag::Negative, negative);
        proof {
            lemma_zero_negative(*old(self), value);
        }
    }
}

/// `bits` with flag `f` set to `on`.
pub open spec fn with_flag(bits: u8, f: Flag, on: bool) -> u8 {
    if on {
        bits | (1u8 << f.bit_spec())
    } else {
        bits & !(1u8 << f.bit_spec())
    }
}

proof fn lemma_with_flag(bits: u8, f: Flag, on: bool)
    ensures
        bit_set(with_flag(bits, f, on), f.bit_spec()) == on,
        forall|g: Flag|
            g != f ==> #[trigger] bit_set(with_flag(bits, f, on), g.bit_spec()) == bit_set(
                bits,
                g.bit_spec(),
            ),
{
    let i = f.bit_spec();
    if on {
        lemma_or_bit(bits, i, i);
    } else {
        lemma_clear_bit(bits, i, i);
    }
    assert forall|g: Flag| g != f implies #[trigger] bit_set(with_flag(bits, f, on), g.bit_spec())
        == bit_set(bits, g.bit_spec()) by {
        if on {
            lemma_or_bit(bits, i, g.bit_spec());
        } else {
            lemma_clear_bit(bits, i, g.bit_spec());
        }
    }
}

/// Recomputing Zero and Negative assigns both outright, whatever they were:
/// Zero holds exactly when the value is 0 and Negative exactly when its bit 7
/// is 1. The other flags keep their state.
pub proof fn lemma_zero_negative(s: ProcessorStatus, value: u8)
    ensures
        s.zero_negative(value).has(Flag::Zero) == (value == 0),
        s.zero_negative(value).has(Flag::Negative) == (value >= 0x80),
        forall|g: Flag|
            g != Flag::Zero && g != Flag::Negative ==> #[trigger] s.zero_negative(value).has(g)
                == s.has(g),
{
    let b1 = with_flag(s.bits, Flag::Zero, value == 0);
    lemma_with_flag(s.bits, Flag::Zero, value == 0);
    lemma_with_flag(b1, Flag::Negative, value >= 0x80);
}

} // verus!
