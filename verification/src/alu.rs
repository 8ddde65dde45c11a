//! Arithmetic and logic on the accumulator: add, subtract (by two's
//! complement, with the borrow convention of the carry flag), the
//! logical operations with their historic auxiliary-carry quirks,
//! 16-bit double add, the four rotates, and decimal adjustment.

use vstd::prelude::*;

use crate::flags;
use crate::flags::{spec_add_auxiliary, spec_borrow_auxiliary, spec_set_flags};
use crate::state::{CpuState, Flags, Processor8080};

verus! {

/// The 16-bit two's complement of a byte.
pub open spec fn spec_twos_complement(byte: u8) -> u16 {
    ((!(byte as u16)) as u32 + 1) as u16
}

/// [`add`]: the accumulator plus an operand and optional carry-in,
/// with flags from the widened result and auxiliary carry from bit 4
/// of operands and result.
pub open spec fn spec_add(s: CpuState, byte: u8, carry: bool) -> CpuState {
    let answer: u16 = (s.a + byte + (if carry {
        1int
    } else {
        0int
    })) as u16;
    let s1 = spec_set_flags(s, answer);
    CpuState {
        a: answer as u8,
        flags: Flags { auxiliary_carry: spec_add_auxiliary(s.a, byte, answer), ..s1.flags },
        ..s1
    }
}

/// [`subtract`]: addition of the operand's two's complement (and of
/// the borrow's, when present); by that encoding the carry flag ends
/// up reading as "a borrow occurred", and auxiliary carry follows
/// the complemented bit-4 rule of the subtraction path.
pub open spec fn spec_subtract(s: CpuState, byte: u8, carry: bool) -> CpuState {
    let answer: u16 = ((s.a as u32 + spec_twos_complement(byte) as u32 + (if carry {
        spec_twos_complement(1) as u32
    } else {
        0u32
    }) as int) as u32) as u16;
    let s1 = spec_set_flags(s, answer);
    CpuState {
        a: answer as u8,
        flags: Flags { auxiliary_carry: spec_borrow_auxiliary(s.a, byte, answer), ..s1.flags },
        ..s1
    }
}

/// [`compare`]: identical to [`spec_subtract`] without a borrow-in,
/// except that the accumulator keeps its value.
pub open spec fn spec_compare(s: CpuState, byte: u8) -> CpuState {
    CpuState { a: s.a, ..spec_subtract(s, byte, false) }
}

/// The flag treatment shared by the logical operations: flags from
/// the result, carry forced false.
pub open spec fn spec_logical(s: CpuState, answer: u16) -> CpuState {
    let s1 = spec_set_flags(s, answer);
    CpuState { a: answer as u8, flags: Flags { carry: false, ..s1.flags }, ..s1 }
}

/// [`and`]: auxiliary carry is set from bit 3 of the OR of the
/// operands, a quirk of the 8080's ANA instruction.
pub open spec fn spec_and(s: CpuState, byte: u8) -> CpuState {
    let aux = ((s.a | byte) & 0x08) != 0;
    let s1 = spec_logical(
        CpuState { flags: Flags { auxiliary_carry: aux, ..s.flags }, ..s },
        (s.a & byte) as u16,
    );
    s1
}

/// [`or`]: auxiliary carry forced false.
pub open spec fn spec_or(s: CpuState, byte: u8) -> CpuState {
    let s1 = spec_logical(s, (s.a | byte) as u16);
    CpuState { flags: Flags { auxiliary_carry: false, ..s1.flags }, ..s1 }
}

/// [`xor`]: auxiliary carry forced false.
pub open spec fn spec_xor(s: CpuState, byte: u8) -> CpuState {
    let s1 = spec_logical(s, (s.a ^ byte) as u16);
    CpuState { flags: Flags { auxiliary_carry: false, ..s1.flags }, ..s1 }
}

/// [`double_add`]: HL plus a 16-bit value given as two bytes; carry
/// reports overflow past 0xffff, no other flag moves.
pub open spec fn spec_double_add(s: CpuState, byte_a: u8, byte_b: u8) -> CpuState {
    let new_address: u32 = ((((s.h as u32) << 8) | (s.l as u32)) + (((byte_a as u32) << 8) | (
    byte_b as u32))) as u32;
    let split = crate::addressing::spec_split_pair(new_address as u16);
    CpuState {
        h: split.0,
        l: split.1,
        flags: Flags { carry: new_address > 0xffff, ..s.flags },
        ..s
    }
}

/// [`rotate_carry_logic`]: copy the carry flag into the accumulator
/// bit selected by `or_value` (whose complement is `and_value`).
pub open spec fn spec_rotate_carry_logic(s: CpuState, or_value: u8, and_value: u8) -> CpuState {
    if s.flags.carry {
        CpuState { a: s.a | or_value, ..s }
    } else {
        CpuState { a: s.a & and_value, ..s }
    }
}

/// RLC: the high bit becomes the carry and re-enters at the bottom.
pub open spec fn spec_rotate_left(s: CpuState) -> CpuState {
    let s1 = CpuState {
        a: (s.a << 1) as u8,
        flags: Flags { carry: (s.a & 0b10000000) != 0, ..s.flags },
        ..s
    };
    spec_rotate_carry_logic(s1, 0b00000001, 0b11111110)
}

/// RRC: the low bit becomes the carry and re-enters at the top.
pub open spec fn spec_rotate_right(s: CpuState) -> CpuState {
    let s1 = CpuState {
        a: (s.a >> 1) as u8,
        flags: Flags { carry: (s.a & 0b00000001) != 0, ..s.flags },
        ..s
    };
    spec_rotate_carry_logic(s1, 0b10000000, 0b01111111)
}

/// RAL: the previous carry enters at the bottom, the outgoing high
/// bit becomes the new carry.
pub open spec fn spec_rotate_left_through_carry(s: CpuState) -> CpuState {
    let carry_out = (s.a & 0b10000000) != 0;
    let s1 = CpuState { a: (s.a << 1) as u8, ..s };
    let s2 = spec_rotate_carry_logic(s1, 0b00000001, 0b11111110);
    CpuState { flags: Flags { carry: carry_out, ..s2.flags }, ..s2 }
}

/// RAR: the previous carry enters at the top, the outgoing low bit
/// becomes the new carry.
pub open spec fn spec_rotate_right_through_carry(s: CpuState) -> CpuState {
    let carry_out = (s.a & 0b00000001) != 0;
    let s1 = CpuState { a: (s.a >> 1) as u8, ..s };
    let s2 = spec_rotate_carry_logic(s1, 0b10000000, 0b01111111);
    CpuState { flags: Flags { carry: carry_out, ..s2.flags }, ..s2 }
}

/// [`decimal_adjust`]: add 0x06 when the low nibble exceeds 9 or
/// auxiliary carry is set, then 0x60 more when the adjusted value's
/// high bits exceed 9 or carry is set, forcing carry true in that
/// case; the correction runs through the ADD path so every other flag
/// updates consistently, and the decided carry value is kept.
pub open spec fn spec_decimal_adjust(s: CpuState) -> CpuState {
    let low_correction: u8 = if (s.a & 0x0f) > 9 || s.flags.auxiliary_carry {
        0x06u8
    } else {
        0u8
    };
    let adjusted: u16 = (s.a + low_correction) as u16;
    let high_needed = (adjusted >> 4) > 9 || s.flags.carry;
    let correction: u8 = if high_needed {
        (low_correction + 0x60) as u8
    } else {
        low_correction
    };
    let final_carry = if high_needed {
        true
    } else {
        s.flags.carry
    };
    let s1 = spec_add(s, correction, false);
    CpuState { flags: Flags { carry: final_carry, ..s1.flags }, ..s1 }
}

/// A high/low byte pair never names more than 16 bits.
pub proof fn lemma_pair_fits(high: u8, low: u8)
    by (bit_vector)
    ensures
        (((high as u32) << 8) | (low as u32)) <= 0xffff,
{
}

pub fn get_twos_complement(byte: u8) -> (r: u16)
    ensures
        r == spec_twos_complement(byte),
        r as int == (0x10000 - byte as int) % 0x10000,
{
    let r: u16 = ((!(byte as u16)) as u32 + 1) as u16;
    proof {
        assert(r as int == (0x10000 - byte as int) % 0x10000) by (bit_vector)
            requires
                r == ((!(byte as u16)) as u32 + 1) as u16,
        ;
    }
    r
}

/// Accumulator plus operand plus optional carry-in.
pub fn add(processor: &mut Processor8080, byte: u8, carry: bool)
    ensures
        final(processor)@ == spec_add(old(processor)@, byte, carry),
{
    let answer: u16 = (processor.a as u16) + (byte as u16) + (if carry {
        1
    } else {
        0
    });
    let operand_a: u8 = processor.a;
    flags::set_flags(answer, processor);
    processor.flags.auxiliary_carry = ((answer ^ (operand_a as u16) ^ (byte as u16)) & 0x10) != 0;
    processor.a = answer as u8;
}

/// Accumulator minus operand minus optional borrow-in, encoded as
/// two's-complement addition.
pub fn subtract(processor: &mut Processor8080, byte: u8, carry: bool)
    ensures
        final(processor)@ == spec_subtract(old(processor)@, byte, carry),
{
    let answer: u16 = ((processor.a as u32 + get_twos_complement(byte) as u32 + (if carry {
        get_twos_complement(1) as u32
    } else {
        0
    })) as u16);
    let operand_a: u8 = processor.a;
    flags::set_flags(answer, processor);
    processor.flags.auxiliary_carry = ((!((operand_a as u16) ^ answer ^ (byte as u16))) & 0x10)
        != 0;
    processor.a = answer as u8;
}

/// Compare: subtract without committing the result.
pub fn compare(processor: &mut Processor8080, byte: u8)
    ensures
        final(processor)@ == spec_compare(old(processor)@, byte),
{
    let answer: u16 = ((processor.a as u32 + get_twos_complement(byte) as u32) as u16);
    let operand_a: u8 = processor.a;
    flags::set_flags(answer, processor);
    processor.flags.auxiliary_carry = ((!((operand_a as u16) ^ answer ^ (byte as u16))) & 0x10)
        != 0;
}

/// Logical AND into the accumulator.
pub fn and(processor: &mut Processor8080, byte: u8)
    ensures
        final(processor)@ == spec_and(old(processor)@, byte),
{
    processor.flags.auxiliary_carry = ((processor.a | byte) & 0x08) != 0;
    let answer: u16 = (processor.a & byte) as u16;
    flags::set_flags(answer, processor);
    processor.flags.carry = false;
    processor.a = answer as u8;
}

/// Logical OR into the accumulator.
pub fn or(processor: &mut Processor8080, byte: u8)
    ensures
        final(processor)@ == spec_or(old(processor)@, byte),
{
    let answer: u16 = (processor.a | byte) as u16;
    flags::set_flags(answer, processor);
    processor.flags.carry = false;
    processor.a = answer as u8;
    processor.flags.auxiliary_carry = false;
}

/// Logical exclusive OR into the accumulator.
pub fn xor(processor: &mut Processor8080, byte: u8)
    ensures
        final(processor)@ == spec_xor(old(processor)@, byte),
{
    let answer: u16 = (processor.a ^ byte) as u16;
    flags::set_flags(answer, processor);
    processor.flags.carry = false;
    processor.a = answer as u8;
    processor.flags.auxiliary_carry = false;
}

/// HL plus the 16-bit value held in a byte pair.
pub fn double_add(processor: &mut Processor8080, byte_a: u8, byte_b: u8)
    ensures
        final(processor)@ == spec_double_add(old(processor)@, byte_a, byte_b),
{
    proof {
        lemma_pair_fits(processor.h, processor.l);
        lemma_pair_fits(byte_a, byte_b);
    }
    let new_address: u32 = (((processor.h as u32) << 8) | (processor.l as u32)) + (((byte_a as u32)
        << 8) | (byte_b as u32));
    processor.flags.carry = new_address > 0xffff;
    let split_address: (u8, u8) = crate::addressing::seperate_16bit_pair(
        #[verifier::truncate] (new_address as u16),
    );
    processor.h = split_address.0;
    processor.l = split_address.1;
}

// Handles the transfer of either the carry bit, high order bit or low
// order bit into any of the other respective positions; e.g. the high
// order bit of the accumulator is transferred to the low order bit.
pub fn rotate_carry_logic(processor: &mut Processor8080, or_value: u8, and_value: u8)
    ensures
        final(processor)@ == spec_rotate_carry_logic(old(processor)@, or_value, and_value),
{
    if processor.flags.carry {
        processor.a = processor.a | or_value;
    } else {
        processor.a = processor.a & and_value;
    }
}

/// RLC.
pub fn rotate_left(processor: &mut Processor8080)
    ensures
        final(processor)@ == spec_rotate_left(old(processor)@),
{
    processor.flags.carry = (processor.a & 0b10000000) != 0;
    processor.a = processor.a << 1;
    rotate_carry_logic(processor, 0b00000001, 0b11111110);
}

/// RRC.
pub fn rotate_right(processor: &mut Processor8080)
    ensures
        final(processor)@ == spec_rotate_right(old(processor)@),
{
    processor.flags.carry = (processor.a & 0b00000001) != 0;
    processor.a = processor.a >> 1;
    rotate_carry_logic(processor, 0b10000000, 0b01111111);
}

/// RAL: read the old carry, shift, then write the new carry.
pub fn rotate_left_through_carry(processor: &mut Processor8080)
    ensures
        final(processor)@ == spec_rotate_left_through_carry(old(processor)@),
{
    let carry_temp = (processor.a & 0b10000000) != 0;
    processor.a = processor.a << 1;
    rotate_carry_logic(processor, 0b00000001, 0b11111110);
    processor.flags.carry = carry_temp;
}

/// RAR: read the old carry, shift, then write the new carry.
pub fn rotate_right_through_carry(processor: &mut Processor8080)
    ensures
        final(processor)@ == spec_rotate_right_through_carry(old(processor)@),
{
    let carry_temp = (processor.a & 0b00000001) != 0;
    processor.a = processor.a >> 1;
    rotate_carry_logic(processor, 0b10000000, 0b01111111);
    processor.flags.carry = carry_temp;
}

/// DAA.
pub fn decimal_adjust(processor: &mut Processor8080)
    ensures
        final(processor)@ == spec_decimal_adjust(old(processor)@),
{
    let mut correction: u8 = 0;
    let mut carry_temp = processor.flags.carry;
    if processor.a & 0x0f > 9 || processor.flags.auxiliary_carry {
        correction = correction + 0x06;
    }
    let adjusted: u16 = processor.a as u16 + correction as u16;
    if (adjusted >> 4) > 9 || carry_temp {
        correction = correction + 0x60;
        carry_temp = true;
    }
    crate::alu::add(processor, correction, false);
    processor.flags.carry = carry_temp;
}

} // verus!
