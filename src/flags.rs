use vstd::prelude::*;

verus! {

/// Bit of the carry flag.
pub const CARRY: u8 = 0b0000_0001;

/// Bit of the zero flag.
pub const ZERO: u8 = 0b0000_0010;

/// Bit of the interrupt-disable flag.
pub const INTERRUPT_DISABLE: u8 = 0b0000_0100;

/// Bit of the decimal-mode flag (present but unused on the NES).
pub const DECIMAL_MODE: u8 = 0b0000_1000;

/// Bit of the break flag.
pub const BREAK: u8 = 0b0001_0000;

/// Bit of the second break flag (always reads as set on real hardware).
pub const BREAK2: u8 = 0b0010_0000;

/// Bit of the overflow flag.
pub const OVERFLOW: u8 = 0b0100_0000;

/// Bit of the negative flag.
pub const NEGATIVE: u8 = 0b1000_0000;

/// Status register value after power-up and after a reset.
pub const POWER_UP_STATUS: u8 = 0b0010_0100;

/// One of the eight status flags.
#[derive(Clone, Copy, Debug, PartialEq, Eq, Structural)]
pub enum Flag {
    Carry,
    Zero,
    InterruptDisable,
    DecimalMode,
    Break,
    Break2,
    Overflow,
    Negative,
}

/// The bit that a flag occupies in the status register.
pub open spec fn flag_bit(f: Flag) -> u8 {
    match f {
        Flag::Carry => CARRY,
        Flag::Zero => ZERO,
        Flag::InterruptDisable => INTERRUPT_DISABLE,
        Flag::DecimalMode => DECIMAL_MODE,
        Flag::Break => BREAK,
        Flag::Break2 => BREAK2,
        Flag::Overflow => OVERFLOW,
        Flag::Negative => NEGATIVE,
    }
}

/// A value with exactly one of the eight bits set.
pub open spec fn is_single_bit(m: u8) -> bool {
    m == 1 || m == 2 || m == 4 || m == 8 || m == 16 || m == 32 || m == 64 || m == 128
}

/// Bit 7 of a byte: the sign bit of the value read as two's complement.
pub open spec fn sign_bit(v: u8) -> bool {
    v & 0x80 != 0
}

impl Flag {
    pub fn mask(self) -> (r: u8)
        ensures
            r == flag_bit(self),
    {
        match self {
            Flag::Carry => CARRY,
            Flag::Zero => ZERO,
            Flag::InterruptDisable => INTERRUPT_DISABLE,
            Flag::DecimalMode => DECIMAL_MODE,
            Flag::Break => BREAK,
            Flag::Break2 => BREAK2,
            Flag::Overflow => OVERFLOW,
            Flag::Negative => NEGATIVE,
        }
    }
}

/// Distinct flags occupy distinct single bits.
pub proof fn lemma_flag_bits_distinct(f: Flag, g: Flag)
    ensures
        is_single_bit(flag_bit(f)),
        (flag_bit(f) == flag_bit(g)) == (f == g),
{
}

/// Setting or clearing one single bit leaves every other single bit as it was.
pub proof fn lemma_single_bit_update(b: u8, m: u8, n: u8)
    requires
        is_single_bit(m),
        is_single_bit(n),
    ensures
        ((b | m) & n != 0) == (m == n || b & n != 0),
        ((b & !m) & n != 0) == (m != n && b & n != 0),
{
    assert(((b | m) & n != 0) == (m == n || b & n != 0)) by (bit_vector)
        requires
            is_single_bit(m),
            is_single_bit(n),
    ;
    assert(((b & !m) & n != 0) == (m != n && b & n != 0)) by (bit_vector)
        requires
            is_single_bit(m),
            is_single_bit(n),
    ;
}

/// The processor status register: eight independent flags packed in a byte.
#[derive(Clone, Copy, Debug, PartialEq, Eq, Structural)]
pub struct CpuFlags {
    pub bits: u8,
}

/// `s` with flag `f` set when `on` holds, cleared otherwise.
pub open spec fn assign_flag(s: CpuFlags, f: Flag, on: bool) -> CpuFlags {
    CpuFlags { bits: if on { s.bits | flag_bit(f) } else { s.bits & !flag_bit(f) } }
}

/// The status after an instruction that affects Zero and Negative produced `result`.
pub open spec fn with_zero_negative(s: CpuFlags, result: u8) -> CpuFlags {
    assign_flag(assign_flag(s, Flag::Zero, result == 0), Flag::Negative, sign_bit(result))
}

impl CpuFlags {
    /// Whether flag `f` is set.
    pub open spec fn has(self, f: Flag) -> bool {
        self.bits & flag_bit(f) != 0
    }

    /// Keeps every bit of `bits`: each of the eight is a flag.
    pub fn from_bits_truncate(bits: u8) -> (r: CpuFlags)
        ensures
            r.bits == bits,
    {
        CpuFlags { bits }
    }

    pub fn bits(&self) -> (r: u8)
        ensures
            r == self.bits,
    {
        self.bits
    }

    pub fn test(&self, f: Flag) -> (r: bool)
        ensures
            r == self.has(f),
    {
        self.bits & f.mask() != 0
    }

    pub fn set(&mut self, f: Flag)
        ensures
            *final(self) == assign_flag(*old(self), f, true),
            final(self).has(f),
            forall|g: Flag| g != f ==> final(self).has(g) == old(self).has(g),
    {
        self.bits = self.bits | f.mask();
        proof {
            lemma_assign_flag(*old(self), f, true);
        }
    }

    pub fn clear(&mut self, f: Flag)
        ensures
            *final(self) == assign_flag(*old(self), f, false),
            !final(self).has(f),
            forall|g: Flag| g != f ==> final(self).has(g) == old(self).has(g),
    {
        self.bits = self.bits & !f.mask();
        proof {
            lemma_assign_flag(*old(self), f, false);
        }
    }

    /// Sets `f` when `on` holds, clears it otherwise.
    pub fn assign(&mut self, f: Flag, on: bool)
        ensures
            *final(self) == assign_flag(*old(self), f, on),
            final(self).has(f) == on,
            forall|g: Flag| g != f ==> final(self).has(g) == old(self).has(g),
    {
        if on {
            self.set(f);
        } else {
            self.clear(f);
        }
    }

    /// Recomputes Zero and Negative from the result of an instruction.
    pub fn update_zero_negative(&mut self, result: u8)
        ensures
            *final(self) == with_zero_negative(*old(self), result),
    {
        self.assign(Flag::Zero, result == 0);
        self.assign(Flag::Negative, result & 0b1000_0000 != 0);
    }
}

/// Assigning one flag gives it the value asked for and keeps every other flag.
pub proof fn lemma_assign_flag(s: CpuFlags, f: Flag, on: bool)
    ensures
        assign_flag(s, f, on).has(f) == on,
        forall|g: Flag| g != f ==> #[trigger] assign_flag(s, f, on).has(g) == s.has(g),
{
    lemma_flag_bits_distinct(f, f);
    lemma_single_bit_update(s.bits, flag_bit(f), flag_bit(f));
    assert forall|g: Flag| g != f implies #[trigger] assign_flag(s, f, on).has(g) == s.has(g) by {
        lemma_flag_bits_distinct(g, f);
        lemma_single_bit_update(s.bits, flag_bit(f), flag_bit(g));
    }
}

/// Zero is set iff the result is 0, Negative iff its bit 7 is set, and no other flag changes.
pub proof fn lemma_zero_negative_flags(s: CpuFlags, result: u8)
    ensures
        with_zero_negative(s, result).has(Flag::Zero) == (result == 0),
        with_zero_negative(s, result).has(Flag::Negative) == sign_bit(result),
        forall|g: Flag|
            g != Flag::Zero && g != Flag::Negative ==> #[trigger] with_zero_negative(s, result).has(g)
                == s.has(g),
{
    let z = assign_flag(s, Flag::Zero, result == 0);
    lemma_assign_flag(s, Flag::Zero, result == 0);
    lemma_assign_flag(z, Flag::Negative, sign_bit(result));
}

} // verus!
