//! Condition-flag computation: zero, sign, parity and carry from a
//! widened arithmetic result, the carry-preserving variant used by
//! increment/decrement, and the packed flag byte of PUSH PSW / POP PSW.

use vstd::prelude::*;

use crate::state::{CpuState, Flags, Processor8080};

verus! {

/// Number of set bits of `v`.
pub open spec fn num_ones(v: u16) -> nat
    decreases v,
{
    if v == 0 {
        0
    } else {
        (v % 2) as nat + num_ones(v / 2)
    }
}

/// True if `v` has an even number of set bits.
pub open spec fn spec_parity(v: u16) -> bool {
    num_ones(v) % 2 == 0
}

/// Auxiliary carry of an addition: bit 4 of operand A, bit 4 of
/// operand B and bit 4 of the result XOR to 1 exactly when a carry
/// left bit 3.
pub open spec fn spec_add_auxiliary(a: u8, b: u8, answer: u16) -> bool {
    ((answer ^ (a as u16) ^ (b as u16)) & 0x10) != 0
}

/// Auxiliary carry of the two's-complement subtraction path: the
/// complement of the addition rule, stated on the original operand.
pub open spec fn spec_borrow_auxiliary(a: u8, b: u8, answer: u16) -> bool {
    ((!((a as u16) ^ answer ^ (b as u16))) & 0x10) != 0
}

/// Flags computed from a widened arithmetic result: zero, sign and
/// parity of the low byte, carry from the ninth bit, auxiliary carry
/// untouched.
pub open spec fn spec_flags_of(answer: u16, previous: Flags) -> Flags {
    Flags {
        zero: answer & 0xff == 0,
        sign: answer & 0x80 != 0,
        parity: spec_parity(answer & 0xff),
        carry: answer > 0xff,
        auxiliary_carry: previous.auxiliary_carry,
    }
}

/// [`set_flags`] on the whole processor state.
pub open spec fn spec_set_flags(s: CpuState, answer: u16) -> CpuState {
    CpuState { flags: spec_flags_of(answer, s.flags), ..s }
}

/// [`step_register_flags`] on the whole processor state: as
/// [`spec_set_flags`], but carry is preserved, and auxiliary carry
/// comes from the bit-4 rule on the stepped value and the operand
/// the step added (1 for an increment, the two's-complement 0xff for
/// a decrement).
pub open spec fn spec_step_register_flags(s: CpuState, answer: u16, previous: u8, operand: u8) -> CpuState {
    CpuState {
        flags: Flags {
            carry: s.flags.carry,
            auxiliary_carry: spec_add_auxiliary(previous, operand, answer),
            ..spec_flags_of(answer, s.flags)
        },
        ..s
    }
}

/// The processor-status word: sign, zero, parity and carry packed into
/// their architectural bit positions, bit 1 always set, the rest clear.
pub open spec fn spec_pack_psw(f: Flags) -> u8 {
    (0b00000010u8 | (if f.sign {
        0b10000000u8
    } else {
        0
    }) | (if f.zero {
        0b01000000u8
    } else {
        0
    }) | (if f.parity {
        0b00000100u8
    } else {
        0
    }) | (if f.carry {
        0b00000001u8
    } else {
        0
    }))
}

/// Flags restored from a processor-status word: the four packed flags
/// are read back from their bit positions, auxiliary carry is left as
/// it was.
pub open spec fn spec_apply_psw(f: Flags, value: u8) -> Flags {
    Flags {
        sign: value & 0b10000000 != 0,
        zero: value & 0b01000000 != 0,
        parity: value & 0b00000100 != 0,
        carry: value & 0b00000001 != 0,
        auxiliary_carry: f.auxiliary_carry,
    }
}

/// Clearing the lowest set bit removes exactly one set bit.
proof fn lemma_clear_lowest_bit(v: u16)
    requires
        v != 0,
    ensures
        num_ones((v & (v - 1) as u16)) == num_ones(v) - 1,
    decreases v,
{
    let vm1: u16 = (v - 1) as u16;
    let w: u16 = (v & vm1);
    if v % 2 == 1 {
        assert(w == v - 1) by (bit_vector)
            requires
                v % 2 == 1 && vm1 == v - 1 && w == (v & vm1),
        ;
        assert(num_ones(v) == 1 + num_ones(v / 2));
        if v == 1 {
            assert(num_ones(w) == 0);
        } else {
            assert(num_ones(vm1) == num_ones(vm1 / 2));
            assert(vm1 / 2 == v / 2);
        }
    } else {
        let h: u16 = v / 2;
        assert(h != 0 && h < v);
        let hm1: u16 = (h - 1) as u16;
        let x: u16 = (h & hm1);
        assert(w == 2 * x && x < 0x8000) by (bit_vector)
            requires
                v % 2 == 0 && v != 0 && h == v / 2 && hm1 == h - 1 && w == (v & vm1) && vm1 == v
                    - 1 && x == (h & hm1),
        ;
        lemma_clear_lowest_bit(h);
        assert(num_ones(w) == (w % 2) as nat + num_ones(w / 2));
        assert(w % 2 == 0 && w / 2 == x);
        assert(num_ones(v) == num_ones(h));
    }
}

/// True if `value` has an even number of set bits, found by clearing
/// the lowest set bit until none is left.
pub fn check_parity(value: u16) -> (r: bool)
    ensures
        r == spec_parity(value),
{
    let mut remaining: u16 = value;
    let mut is_even = true;
    while remaining != 0
        invariant
            spec_parity(value) == (is_even == spec_parity(remaining)),
        decreases remaining,
    {
        is_even = !is_even;
        let next: u16 = remaining & (remaining - 1);
        proof {
            lemma_clear_lowest_bit(remaining);
            assert(next < remaining) by (bit_vector)
                requires
                    remaining != 0 && next == (remaining & (remaining - 1) as u16),
            ;
        }
        remaining = next;
    }
    is_even
}

/// Recompute zero, sign, parity and carry from a widened result,
/// leaving auxiliary carry alone.
pub fn set_flags(answer: u16, processor: &mut Processor8080)
    ensures
        final(processor)@ == spec_set_flags(old(processor)@, answer),
{
    processor.flags.zero = (answer & 0xff) == 0;
    processor.flags.sign = (answer & 0x80) != 0;
    processor.flags.carry = answer > 0xff;
    processor.flags.parity = check_parity(answer & 0xff);
}

/// Flag update for increment and decrement: all of [`set_flags`],
/// then auxiliary carry from bit 4 of the stepped value, the added
/// operand and the result, with carry restored to its value before
/// the operation (increment and decrement never affect carry).
pub fn step_register_flags(processor: &mut Processor8080, answer: u16, previous: u8, operand: u8)
    ensures
        final(processor)@ == spec_step_register_flags(old(processor)@, answer, previous, operand),
{
    let carry_value = processor.flags.carry;
    set_flags(answer, processor);
    processor.flags.auxiliary_carry = ((answer ^ (previous as u16) ^ (operand as u16)) & 0x10)
        != 0;
    processor.flags.carry = carry_value;
}

/// Pack the flags into the processor-status word.
pub fn pack_psw(f: &Flags) -> (r: u8)
    ensures
        r == spec_pack_psw(*f),
{
    0b00000010u8 | (if f.sign {
        0b10000000u8
    } else {
        0
    }) | (if f.zero {
        0b01000000u8
    } else {
        0
    }) | (if f.parity {
        0b00000100u8
    } else {
        0
    }) | (if f.carry {
        0b00000001u8
    } else {
        0
    })
}

/// Restore the four packed flags from a processor-status word.
pub fn apply_psw(f: &mut Flags, value: u8)
    ensures
        *final(f) == spec_apply_psw(*old(f), value),
{
    f.sign = value & 0b10000000 != 0;
    f.zero = value & 0b01000000 != 0;
    f.parity = value & 0b00000100 != 0;
    f.carry = value & 0b00000001 != 0;
}

} // verus!
