//! The downward-growing stack: 16-bit push and pop with the 8080's
//! byte ordering (high byte at stack pointer + 1, low byte at the
//! stack pointer).

use vstd::prelude::*;
use vstd::pervasive::VecAdditionalExecFns;

use crate::alu::{get_twos_complement, spec_twos_complement};
use crate::state::{CpuState, Processor8080};

verus! {

/// The two memory slots a push writes, both taken modulo the 16-bit
/// address space as the stack pointer wraps.
pub open spec fn spec_push_slots(s: CpuState) -> (u16, u16) {
    (
        (((s.stack_pointer as u32 + spec_twos_complement(1) as u32) as u32) as u16),
        (((s.stack_pointer as u32 + spec_twos_complement(2) as u32) as u32) as u16),
    )
}

/// Both slots of a push lie inside memory.
pub open spec fn spec_push_ok(s: CpuState) -> bool {
    let slots = spec_push_slots(s);
    (slots.0 as int) < s.memory.len() && (slots.1 as int) < s.memory.len()
}

/// [`push_onto_stack`]: the high byte lands at stack pointer - 1, the
/// low byte at stack pointer - 2, and the stack pointer drops by two.
pub open spec fn spec_push(s: CpuState, byte_1: u8, byte_2: u8) -> CpuState {
    let slots = spec_push_slots(s);
    CpuState {
        memory: s.memory.update(slots.0 as int, byte_1).update(slots.1 as int, byte_2),
        stack_pointer: slots.1,
        ..s
    }
}

/// [`push_address_onto_stack`]: a 16-bit value pushed as its two bytes.
pub open spec fn spec_push_address(s: CpuState, address: u16) -> CpuState {
    let pair = crate::addressing::spec_split_pair(address);
    spec_push(s, pair.0, pair.1)
}

/// [`pop_off_stack`]: the bytes read back (high, low) and the state
/// with the stack pointer raised by two.
pub open spec fn spec_pop(s: CpuState) -> (u8, u8, CpuState) {
    (
        s.memory[s.stack_pointer + 1],
        s.memory[s.stack_pointer as int],
        CpuState { stack_pointer: (s.stack_pointer + 2) as u16, ..s },
    )
}

/// `byte_1` is the highest order byte, `byte_2` the lowest.
pub fn push_onto_stack(processor: &mut Processor8080, byte_1: u8, byte_2: u8)
    requires
        spec_push_ok(old(processor)@),
    ensures
        final(processor)@ == spec_push(old(processor)@, byte_1, byte_2),
{
    let slot_high: u16 = #[verifier::truncate] ((processor.stack_pointer as u32
        + get_twos_complement(1) as u32) as u16);
    let slot_low: u16 = #[verifier::truncate] ((processor.stack_pointer as u32
        + get_twos_complement(2) as u32) as u16);
    processor.memory.set(slot_high as usize, byte_1);
    processor.memory.set(slot_low as usize, byte_2);
    processor.stack_pointer = slot_low;
}

pub fn push_address_onto_stack(processor: &mut Processor8080, address: u16)
    requires
        spec_push_ok(old(processor)@),
    ensures
        final(processor)@ == spec_push_address(old(processor)@, address),
{
    let pair: (u8, u8) = crate::addressing::seperate_16bit_pair(address);
    push_onto_stack(processor, pair.0, pair.1);
}

/// Read the 16-bit value on top of the stack and raise the stack
/// pointer past it; returns (high byte, low byte).
pub fn pop_off_stack(processor: &mut Processor8080) -> (r: (u8, u8))
    requires
        old(processor).stack_pointer + 1 < old(processor)@.memory.len(),
        old(processor).stack_pointer + 2 <= 0xffff,
    ensures
        (r.0, r.1, final(processor)@) == spec_pop(old(processor)@),
{
    let high: u8 = processor.memory[(processor.stack_pointer + 1) as usize];
    let low: u8 = processor.memory[processor.stack_pointer as usize];
    processor.stack_pointer = processor.stack_pointer + 2;
    (high, low)
}

} // verus!
