//! Control transfer: conditional jump, call and return, and the
//! restart used by RST and by interrupts.  A call pushes the address
//! of the next instruction before it reads its operand bytes, exactly
//! as the dispatcher's ordering has it, so a push that lands on the
//! operand bytes is reflected in the target address.

use vstd::prelude::*;

use crate::addressing::{get_address_from_pair, spec_pair_address};
use crate::stack::{
    push_address_onto_stack, spec_pop, spec_push_address, spec_push_ok,
};
use crate::state::{CpuState, Processor8080};

verus! {

/// [`jump`]: on a met condition the program counter moves to the
/// operand address (through the pair guard); otherwise it skips the
/// two operand bytes.
pub open spec fn spec_jump(s: CpuState, flag: bool) -> CpuState {
    if flag {
        let resolved = spec_pair_address(
            s.memory[s.program_counter + 1],
            s.memory[s.program_counter as int],
            (s.memory.len() - 1) as u16,
        );
        CpuState { program_counter: resolved.2, ..s }
    } else {
        CpuState { program_counter: (s.program_counter + 2) as u16, ..s }
    }
}

/// [`call`]: on a met condition the return address (two bytes past
/// the operand position) is pushed, then the program counter moves to
/// the operand address read from the memory the push produced.
pub open spec fn spec_call(s: CpuState, flag: bool) -> CpuState {
    if flag {
        let pushed = spec_push_address(s, (s.program_counter + 2) as u16);
        let resolved = spec_pair_address(
            pushed.memory[pushed.program_counter + 1],
            pushed.memory[pushed.program_counter as int],
            (pushed.memory.len() - 1) as u16,
        );
        CpuState { program_counter: resolved.2, ..pushed }
    } else {
        CpuState { program_counter: (s.program_counter + 2) as u16, ..s }
    }
}

/// [`ret`]: on a met condition the program counter is popped (through
/// the pair guard); otherwise nothing changes.
pub open spec fn spec_ret(s: CpuState, flag: bool) -> CpuState {
    if flag {
        let popped = spec_pop(s);
        let resolved = spec_pair_address(popped.0, popped.1, (s.memory.len() - 1) as u16);
        CpuState { program_counter: resolved.2, ..popped.2 }
    } else {
        s
    }
}

/// [`reset`]: push the address two bytes on and jump to a fixed
/// vector.
pub open spec fn spec_reset(s: CpuState, address: u16) -> CpuState {
    let pushed = spec_push_address(s, (s.program_counter + 2) as u16);
    CpuState { program_counter: address, ..pushed }
}

pub fn jump(processor: &mut Processor8080, flag: bool)
    requires
        2 <= old(processor)@.memory.len() <= 0x10000,
        flag ==> old(processor).program_counter + 1 < old(processor)@.memory.len(),
        !flag ==> old(processor).program_counter + 2 <= 0xffff,
    ensures
        final(processor)@ == spec_jump(old(processor)@, flag),
{
    if flag {
        let mut first_byte: u8 = processor.memory[(processor.program_counter + 1) as usize];
        let mut second_byte: u8 = processor.memory[processor.program_counter as usize];
        let address: u16 = get_address_from_pair(
            &mut first_byte,
            &mut second_byte,
            (processor.memory.len() - 1) as u16,
        );
        processor.program_counter = address;
    } else {
        processor.program_counter = processor.program_counter + 2;
    }
}

pub fn call(processor: &mut Processor8080, flag: bool)
    requires
        2 <= old(processor)@.memory.len() <= 0x10000,
        old(processor).program_counter + 2 <= 0xffff,
        flag ==> spec_push_ok(old(processor)@) && old(processor).program_counter + 1 < old(
            processor,
        )@.memory.len(),
    ensures
        final(processor)@ == spec_call(old(processor)@, flag),
{
    if flag {
        let return_address: u16 = processor.program_counter + 2;
        push_address_onto_stack(processor, return_address);
        let mut first_byte: u8 = processor.memory[(processor.program_counter + 1) as usize];
        let mut second_byte: u8 = processor.memory[processor.program_counter as usize];
        let address: u16 = get_address_from_pair(
            &mut first_byte,
            &mut second_byte,
            (processor.memory.len() - 1) as u16,
        );
        processor.program_counter = address;
    } else {
        processor.program_counter = processor.program_counter + 2;
    }
}

pub fn ret(processor: &mut Processor8080, flag: bool)
    requires
        2 <= old(processor)@.memory.len() <= 0x10000,
        flag ==> old(processor).stack_pointer + 1 < old(processor)@.memory.len() && old(
            processor,
        ).stack_pointer + 2 <= 0xffff,
    ensures
        final(processor)@ == spec_ret(old(processor)@, flag),
{
    if flag {
        let mut first_byte: u8 = processor.memory[(processor.stack_pointer + 1) as usize];
        let mut second_byte: u8 = processor.memory[processor.stack_pointer as usize];
        let address: u16 = get_address_from_pair(
            &mut first_byte,
            &mut second_byte,
            (processor.memory.len() - 1) as u16,
        );
        processor.program_counter = address;
        processor.stack_pointer = processor.stack_pointer + 2;
    }
}

pub fn reset(processor: &mut Processor8080, address: u16)
    requires
        spec_push_ok(old(processor)@),
        old(processor).program_counter + 2 <= 0xffff,
    ensures
        final(processor)@ == spec_reset(old(processor)@, address),
{
    let return_address: u16 = processor.program_counter + 2;
    push_address_onto_stack(processor, return_address);
    processor.program_counter = address;
}

} // verus!
