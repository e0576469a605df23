//! The processor status register: eight one-bit flags packed in a byte.
use vstd::prelude::*;

verus! {

/// Bit index of the Carry flag.
pub const CARRY: u8 = 0;
/// Bit index of the Zero flag.
pub const ZERO: u8 = 1;
/// Bit index of the Interrupt-disable flag.
pub const INTERRUPT: u8 = 2;
/// Bit index of the Decimal flag (stored, never honoured by arithmetic).
pub const DECIMAL: u8 = 3;
/// Bit index of the Break flag.
pub const BREAK: u8 = 4;
/// Bit index of the unused flag, which reads as 1.
pub const UNUSED: u8 = 5;
/// Bit index of the Overflow flag.
pub const OVERFLOW: u8 = 6;
/// Bit index of the Negative flag.
pub const NEGATIVE: u8 = 7;

/// Whether bit `bit` of `status` is set.
pub open spec fn is_set(status: u8, bit: u8) -> bool {
    status & (1u8 << bit) != 0
}

/// `status` with bit `bit` set to `val` and every other bit kept.
pub open spec fn with_flag(status: u8, bit: u8, val: bool) -> u8 {
    if val {
        status | (1u8 << bit)
    } else {
        status & !(1u8 << bit)
    }
}

/// `status` with Zero set iff `v == 0` and Negative set iff bit 7 of `v` is set.
pub open spec fn zn(status: u8, v: u8) -> u8 {
    (status & 0x7D) | (if v == 0 { 0x02u8 } else { 0u8 }) | (v & 0x80)
}

/// Setting one flag changes that bit alone.
pub proof fn lemma_with_flag(status: u8, bit: u8, val: bool, i: u8)
    requires
        bit < 8,
        i < 8,
    ensures
        is_set(with_flag(status, bit, val), i) == if i == bit {
            val
        } else {
            is_set(status, i)
        },
{
    if val {
        assert((status | (1u8 << bit)) & (1u8 << i) != 0 <==> (i == bit || status & (1u8 << i)
            != 0)) by (bit_vector)
            requires
                bit < 8,
                i < 8,
        ;
    } else {
        assert((status & !(1u8 << bit)) & (1u8 << i) != 0 <==> (i != bit && status & (1u8 << i)
            != 0)) by (bit_vector)
            requires
                bit < 8,
                i < 8,
        ;
    }
}

/// Zero reflects `v == 0`, Negative reflects bit 7 of `v`, and no other bit moves.
pub proof fn lemma_zn(status: u8, v: u8)
    ensures
        is_set(zn(status, v), ZERO) == (v == 0),
        is_set(zn(status, v), NEGATIVE) == (v & 0x80 != 0),
        forall|i: u8| i < 8 && i != ZERO && i != NEGATIVE ==> is_set(zn(status, v), i) == is_set(status, i),
{
    let z: u8 = if v == 0 { 0x02u8 } else { 0u8 };
    assert(z & 0x80 == 0 && z & 0x7D == 0 && ((z & 0x02 != 0) == (v == 0))) by (bit_vector)
        requires
            z == if v == 0 { 0x02u8 } else { 0u8 },
    ;
    assert(((status & 0x7D) | z | (v & 0x80)) & (1u8 << 1u8) != 0 <==> z & 0x02 != 0) by (bit_vector)
        requires z & 0x80 == 0 && z & 0x7D == 0;
    assert(((status & 0x7D) | z | (v & 0x80)) & (1u8 << 7u8) != 0 <==> v & 0x80 != 0) by (bit_vector)
        requires z & 0x80 == 0 && z & 0x7D == 0;
    assert forall|i: u8| i < 8 && i != 1 && i != 7 implies (((status & 0x7D) | z | (v & 0x80)) & (1u8 << i) != 0)
        == (status & (1u8 << i) != 0) by {
        assert(i < 8 && i != 1 && i != 7 && z & 0x80 == 0 && z & 0x7D == 0 ==> ((((status & 0x7D) | z | (v & 0x80)) & (1u8 << i) != 0)
            == (status & (1u8 << i) != 0))) by (bit_vector);
    }
}

/// A named flag of the status register.
#[derive(Clone, Copy, Debug, PartialEq, Eq, Structural)]
pub enum Flag {
    Carry,
    Zero,
    Interrupt,
    Decimal,
    Break,
    Unused,
    Overflow,
    Negative,
}

impl Flag {
    /// The bit index of the flag.
    pub open spec fn spec_bit(self) -> u8 {
        match self {
            Flag::Carry => CARRY,
            Flag::Zero => ZERO,
            Flag::Interrupt => INTERRUPT,
            Flag::Decimal => DECIMAL,
            Flag::Break => BREAK,
            Flag::Unused => UNUSED,
            Flag::Overflow => OVERFLOW,
            Flag::Negative => NEGATIVE,
        }
    }

    pub fn bit(self) -> (r: u8)
        ensures
            r == self.spec_bit(),
            r < 8,
    {
        match self {
            Flag::Carry => CARRY,
            Flag::Zero => ZERO,
            Flag::Interrupt => INTERRUPT,
            Flag::Decimal => DECIMAL,
            Flag::Break => BREAK,
            Flag::Unused => UNUSED,
            Flag::Overflow => OVERFLOW,
            Flag::Negative => NEGATIVE,
        }
    }
}

} // verus!
