//! The laws the processor core guarantees, stated over the same
//! spec functions its contracts use.

use vstd::prelude::*;

use crate::alu::{spec_add, spec_decimal_adjust, spec_twos_complement};
use crate::flags::{num_ones, spec_apply_psw, spec_flags_of, spec_pack_psw};
use crate::flow::{spec_call, spec_ret};
use crate::stack::{spec_pop, spec_push, spec_push_address, spec_push_slots};
use crate::state::{CpuState, Flags};

verus! {

/// Every arithmetic or logical result sets the flags by one rule:
/// zero exactly when the low byte is 0, sign exactly when bit 7 of
/// the low byte is set, parity exactly when the low byte has an even
/// number of set bits, and carry exactly when the result exceeds the
/// 8-bit range.
pub proof fn lemma_flag_law(answer: u16, previous: Flags)
    ensures
        ({
            let f = spec_flags_of(answer, previous);
            &&& f.zero == (answer & 0xff == 0)
            &&& f.sign == (answer & 0x80 != 0)
            &&& f.parity == (num_ones(answer & 0xff) % 2 == 0)
            &&& f.carry == (answer > 0xff)
        }),
{
}

/// With at least two bytes of headroom, a push writes the slots just
/// below the stack pointer.
pub proof fn lemma_push_slots(s: CpuState)
    requires
        2 <= s.stack_pointer,
    ensures
        spec_push_slots(s).0 == s.stack_pointer - 1,
        spec_push_slots(s).1 == s.stack_pointer - 2,
{
    let sp = s.stack_pointer;
    assert(spec_twos_complement(1) == 0xffff && spec_twos_complement(2) == 0xfffe)
        by (bit_vector);
    let slot1 = spec_push_slots(s).0;
    let slot2 = spec_push_slots(s).1;
    assert(slot1 == sp - 1 && slot2 == sp - 2) by (bit_vector)
        requires
            sp >= 2 && slot1 == (((sp as u32 + 0xffffu32) as u32) as u16) && slot2 == (((sp
                as u32 + 0xfffeu32) as u32) as u16),
    ;
}

/// Round trip: pushing a register pair and popping it back restores
/// both bytes exactly and returns the stack pointer to its old value.
pub proof fn lemma_push_pop_round_trip(s: CpuState, high: u8, low: u8)
    requires
        2 <= s.stack_pointer,
        s.stack_pointer as int <= s.memory.len(),
    ensures
        ({
            let popped = spec_pop(spec_push(s, high, low));
            &&& popped.0 == high
            &&& popped.1 == low
            &&& popped.2.stack_pointer == s.stack_pointer
        }),
{
    lemma_push_slots(s);
}

/// Round trip: packing the flags into the processor-status word and
/// reading it back restores all four user-visible flags exactly,
/// whatever flags the word lands on.
pub proof fn lemma_psw_round_trip(f: Flags, g: Flags)
    ensures
        ({
            let restored = spec_apply_psw(g, spec_pack_psw(f));
            &&& restored.zero == f.zero
            &&& restored.sign == f.sign
            &&& restored.parity == f.parity
            &&& restored.carry == f.carry
        }),
{
    let sign = f.sign;
    let zero = f.zero;
    let parity = f.parity;
    let carry = f.carry;
    let packed = spec_pack_psw(f);
    assert((packed & 0b10000000 != 0) == sign && (packed & 0b01000000 != 0) == zero && (packed
        & 0b00000100 != 0) == parity && (packed & 0b00000001 != 0) == carry) by (bit_vector)
        requires
            packed == (0b00000010u8 | (if sign {
                0b10000000u8
            } else {
                0
            }) | (if zero {
                0b01000000u8
            } else {
                0
            }) | (if parity {
                0b00000100u8
            } else {
                0
            }) | (if carry {
                0b00000001u8
            } else {
                0
            })),
    ;
}

/// Call/return law: a taken call from call-site address `p - 1` (the
/// operand position is `p`), followed eventually by a taken return
/// from any state `mid` that has kept the two pushed stack bytes and
/// the stack pointer the call left, restores the program counter to
/// exactly call-site + 3 and the stack pointer to its value before
/// the call.
pub proof fn lemma_call_return(s: CpuState, mid: CpuState)
    requires
        2 <= s.stack_pointer,
        s.stack_pointer as int <= s.memory.len(),
        s.memory.len() <= 0x10000,
        1 <= s.program_counter,
        s.program_counter + 2 < s.memory.len() - 1,
        mid.memory.len() == s.memory.len(),
        mid.stack_pointer == spec_call(s, true).stack_pointer,
        mid.memory[mid.stack_pointer as int] == spec_call(s, true).memory[mid.stack_pointer as int],
        mid.memory[mid.stack_pointer + 1] == spec_call(s, true).memory[mid.stack_pointer + 1],
    ensures
        spec_ret(mid, true).program_counter == (s.program_counter - 1) + 3,
        spec_ret(mid, true).stack_pointer == s.stack_pointer,
{
    lemma_push_slots(s);
    let return_address: u16 = (s.program_counter + 2) as u16;
    let pushed = spec_push_address(s, return_address);
    let high = pushed.memory[s.stack_pointer - 1];
    let low = pushed.memory[s.stack_pointer - 2];
    assert(high == (return_address >> 8) as u8 && low == (return_address & 0xff) as u8);
    assert((((return_address >> 8) as u8 as u16) << 8) | (((return_address & 0xff) as u8)
        as u16) == return_address) by (bit_vector);
    let resolved = crate::addressing::spec_pair_address(high, low, (s.memory.len() - 1) as u16);
    assert(resolved.2 == return_address);
}

/// Decimal-adjust law: for every accumulator value that results from
/// an 8-bit addition of two packed-BCD bytes (with any carry-in),
/// decimal adjustment yields the packed-BCD encoding of the decimal
/// sum together with the correct carry, across every carry and
/// auxiliary-carry combination that addition can produce.
#[verifier::rlimit(100)]
pub proof fn lemma_decimal_adjust_bcd(s: CpuState, x: u8, y: u8, carry_in: bool)
    requires
        s.a == x,
        x & 0x0f <= 9,
        x >> 4 <= 9,
        y & 0x0f <= 9,
        y >> 4 <= 9,
    ensures
        ({
            let adjusted = spec_decimal_adjust(spec_add(s, y, carry_in));
            let total = 10 * ((x >> 4) as int) + ((x & 0x0f) as int) + 10 * ((y >> 4) as int) + ((
            y & 0x0f) as int) + (if carry_in {
                1int
            } else {
                0int
            });
            &&& adjusted.a & 0x0f <= 9
            &&& adjusted.a >> 4 <= 9
            &&& 10 * ((adjusted.a >> 4) as int) + ((adjusted.a & 0x0f) as int) + (
            if adjusted.flags.carry {
                100int
            } else {
                0int
            }) == total
        }),
{
    let k: u8 = if carry_in {
        1u8
    } else {
        0u8
    };
    let added = spec_add(s, y, carry_in);
    let answer: u16 = (x + y + k) as u16;
    assert(added.a == answer as u8);
    let a1: u8 = added.a;
    let cy1: bool = added.flags.carry;
    let aux1: bool = added.flags.auxiliary_carry;
    let adjusted = spec_decimal_adjust(added);
    let low_correction: u8 = if (a1 & 0x0f) > 9 || aux1 {
        0x06u8
    } else {
        0u8
    };
    let widened: u16 = (a1 + low_correction) as u16;
    let high_needed: bool = (widened >> 4) > 9 || cy1;
    let correction: u8 = if high_needed {
        (low_correction + 0x60) as u8
    } else {
        low_correction
    };
    let answer2: u16 = (a1 + correction) as u16;
    assert(adjusted.a == answer2 as u8);
    assert(adjusted.flags.carry == (high_needed || cy1));
    assert((answer2 as u8) & 0x0f <= 9 && (answer2 as u8) >> 4 <= 9 && 10 * (((answer2 as u8)
        >> 4) as int) + (((answer2 as u8) & 0x0f) as int) + (if high_needed || cy1 {
        100int
    } else {
        0int
    }) == 10 * ((x >> 4) as int) + ((x & 0x0f) as int) + 10 * ((y >> 4) as int) + ((y
        & 0x0f) as int) + (k as int)) by (bit_vector)
        requires
            x & 0x0f <= 9 && x >> 4 <= 9 && y & 0x0f <= 9 && y >> 4 <= 9 && k <= 1 && answer == x
                + y + k && a1 == answer as u8 && cy1 == (answer > 0xff) && aux1 == (((answer ^ (
            x as u16)) ^ (y as u16)) & 0x10 != 0) && low_correction == (if (a1 & 0x0f) > 9
                || aux1 {
                0x06u8
            } else {
                0u8
            }) && widened == a1 + low_correction && high_needed == ((widened >> 4) > 9 || cy1)
                && correction == (if high_needed {
                (low_correction + 0x60) as u8
            } else {
                low_correction
            }) && answer2 == a1 + correction,
    ;
}

} // verus!
