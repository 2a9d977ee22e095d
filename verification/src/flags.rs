//! The processor status register and its eight flags.
use vstd::prelude::*;

verus! {

/// One flag of the status register. The variants are listed from bit 0 to
/// bit 7.
#[derive(Clone, Copy, Debug, PartialEq, Eq, Structural)]
pub enum Flag {
    Carry,
    Zero,
    InterruptDisable,
    Decimal,
    Break,
    Break2,
    Overflow,
    Negative,
}

impl Flag {
    /// The byte with only this flag's bit set.
    pub open spec fn spec_mask(self) -> u8 {
        match self {
            Flag::Carry => 0x01,
            Flag::Zero => 0x02,
            Flag::InterruptDisable => 0x04,
            Flag::Decimal => 0x08,
            Flag::Break => 0x10,
            Flag::Break2 => 0x20,
            Flag::Overflow => 0x40,
            Flag::Negative => 0x80,
        }
    }

    #[verifier::when_used_as_spec(spec_mask)]
    pub fn mask(self) -> (m: u8)
        ensures
            m == self.spec_mask(),
    {
        match self {
            Flag::Carry => 0x01,
            Flag::Zero => 0x02,
            Flag::InterruptDisable => 0x04,
            Flag::Decimal => 0x08,
            Flag::Break => 0x10,
            Flag::Break2 => 0x20,
            Flag::Overflow => 0x40,
            Flag::Negative => 0x80,
        }
    }
}

/// The status register: one byte, one flag per bit.
#[derive(Clone, Copy, Debug, PartialEq, Eq, Structural)]
pub struct CpuFlags {
    pub bits: u8,
}

/// True of the eight bytes that have exactly one bit set.
pub open spec fn single_bit(m: u8) -> bool {
    m == 0x01 || m == 0x02 || m == 0x04 || m == 0x08 || m == 0x10 || m == 0x20 || m == 0x40 || m
        == 0x80
}

/// How setting and clearing one bit of a byte shows under a single-bit mask.
pub proof fn lemma_single_bit_masks(b: u8, m: u8, n: u8)
    by (bit_vector)
    requires
        single_bit(m),
        single_bit(n),
    ensures
        (b | m) & m == m,
        (b & !m) & m != m,
        m != n ==> (b | m) & n == b & n,
        m != n ==> (b & !m) & n == b & n,
{
}

impl CpuFlags {
    /// Whether `flag` is set.
    pub open spec fn has(self, flag: Flag) -> bool {
        self.bits & flag.spec_mask() == flag.spec_mask()
    }

    /// The register with `flag` set (`on`) or cleared, every other flag as
    /// it was.
    pub open spec fn with(self, flag: Flag, on: bool) -> CpuFlags {
        if on {
            CpuFlags { bits: self.bits | flag.spec_mask() }
        } else {
            CpuFlags { bits: self.bits & !flag.spec_mask() }
        }
    }

    /// After `with(flag, on)` the flag reads as `on`.
    pub proof fn lemma_with_same(self, flag: Flag, on: bool)
        ensures
            self.with(flag, on).has(flag) == on,
    {
        lemma_single_bit_masks(self.bits, flag.spec_mask(), flag.spec_mask());
    }

    /// `with(flag, on)` leaves every other flag as it was.
    pub proof fn lemma_with_other(self, flag: Flag, on: bool, other: Flag)
        requires
            flag != other,
        ensures
            self.with(flag, on).has(other) == self.has(other),
    {
        lemma_single_bit_masks(self.bits, flag.spec_mask(), other.spec_mask());
    }

    /// The register that holds exactly `bits`. All eight bits name a flag,
    /// so nothing is cut off.
    pub fn from_bits_truncate(bits: u8) -> (flags: CpuFlags)
        ensures
            flags.bits == bits,
    {
        CpuFlags { bits }
    }

    /// The register as a byte.
    pub fn bits(&self) -> (bits: u8)
        ensures
            bits == self.bits,
    {
        self.bits
    }

    pub fn contains(&self, flag: Flag) -> (set: bool)
        ensures
            set == self.has(flag),
    {
        let m: u8 = flag.mask();
        self.bits & m == m
    }

    pub fn insert(&mut self, flag: Flag)
        ensures
            *final(self) == old(self).with(flag, true),
    {
        self.bits = self.bits | flag.mask();
    }

    pub fn remove(&mut self, flag: Flag)
        ensures
            *final(self) == old(self).with(flag, false),
    {
        self.bits = self.bits & !flag.mask();
    }

    pub fn set(&mut self, flag: Flag, value: bool)
        ensures
            *final(self) == old(self).with(flag, value),
    {
        if value {
            self.insert(flag);
        } else {
            self.remove(flag);
        }
    }
}

} // verus!
