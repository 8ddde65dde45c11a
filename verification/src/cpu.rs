//! The instruction dispatcher: fetch the opcode at the program
//! counter, charge its fixed cycle cost, execute its effects, and
//! apply the post-instruction stack-pointer and program-counter
//! guards.  The whole step is specified by [`spec_step`], a
//! mathematical interpreter over [`CpuState`], and [`emulate`] is
//! proved to implement it exactly.

pub mod disassembler;
pub mod tables;

use vstd::prelude::*;
use vstd::pervasive::VecAdditionalExecFns;

use crate::addressing;
use crate::addressing::{spec_pair_address, spec_split_pair, spec_write_to_memory};
use crate::alu;
use crate::alu::{
    spec_add, spec_and, spec_compare, spec_decimal_adjust, spec_double_add, spec_or,
    spec_rotate_left, spec_rotate_left_through_carry, spec_rotate_right,
    spec_rotate_right_through_carry, spec_subtract, spec_twos_complement, spec_xor,
};
use crate::flags;
use crate::flags::{spec_apply_psw, spec_pack_psw, spec_step_register_flags};
use crate::flow;
use crate::flow::{spec_call, spec_jump, spec_reset, spec_ret};
use crate::io_handlers;
use crate::io_handlers::{
    AudioAction, spec_space_invaders_in, spec_space_invaders_out, spec_test_in,
};
use crate::stack;
use crate::stack::{spec_pop, spec_push, spec_push_ok};
use crate::state::{wf, CpuState, Flags, IoDevice, Processor8080};

use self::tables::{spec_instr_len, spec_is_defined, spec_opcode_cycles};

verus! {

/// What one instruction step reports back to the host.
#[derive(Debug)]
pub struct StepEvent {
    /// True when the halt opcode executed: a terminal state, not an
    /// error; the host must stop stepping.
    pub halted: bool,
    /// Sound actions the port write of this step asks the host to
    /// perform, in order.
    pub audio_actions: Vec<AudioAction>,
}

/// The one unrecoverable condition: an opcode outside the documented
/// instruction set.
#[derive(Clone, Copy, Debug, PartialEq, Eq, Structural)]
pub enum EmulationError {
    UnimplementedOpcode { opcode: u8, program_counter: u16 },
}

/// The failure value for an opcode with no defined operation,
/// carrying the opcode and the address it was fetched from.
pub fn unimplemented_opcode(opcode: u8, program_counter: u16) -> (r: EmulationError)
    ensures
        r == (EmulationError::UnimplementedOpcode { opcode: opcode, program_counter: program_counter }),
{
    EmulationError::UnimplementedOpcode { opcode: opcode, program_counter: program_counter }
}

/// How a specified step ended.
#[derive(Clone, Copy, Debug, PartialEq, Eq, Structural)]
pub enum SpecOutcome {
    Normal,
    Halted,
    Unimplemented,
}

/// The effect of one instruction's operation: the processor state,
/// the port array, and the audio actions it produced.
#[verifier::ext_equal]
pub ghost struct ExecEffect {
    pub cpu: CpuState,
    pub ports: Seq<u8>,
    pub audio: Seq<AudioAction>,
}

/// The effect of one full step, guards included.
#[verifier::ext_equal]
pub ghost struct StepSpec {
    pub cpu: CpuState,
    pub ports: Seq<u8>,
    pub outcome: SpecOutcome,
    pub audio: Seq<AudioAction>,
}

/// An effect that leaves the ports alone and plays nothing.
pub open spec fn effect(cpu: CpuState, ports: Seq<u8>) -> ExecEffect {
    ExecEffect { cpu: cpu, ports: ports, audio: Seq::empty() }
}

/// The byte HL points at, together with the state the pair guard
/// leaves behind.
pub open spec fn spec_hl_source(s: CpuState) -> (CpuState, u8) {
    let resolved = spec_pair_address(s.h, s.l, (s.memory.len() - 1) as u16);
    (CpuState { h: resolved.0, l: resolved.1, ..s }, s.memory[resolved.2 as int])
}

/// Opcode fetch: charge the cycle cost and advance past the opcode.
pub open spec fn spec_fetch(s: CpuState) -> CpuState {
    let opcode = s.memory[s.program_counter as int];
    CpuState {
        cycles_elapsed: (s.cycles_elapsed + spec_opcode_cycles(opcode)) as u16,
        program_counter: (s.program_counter + 1) as u16,
        ..s
    }
}

/// The post-instruction safety nets: a stack pointer below the ROM
/// boundary or at the end of memory resets to 0, and so does a
/// program counter at the end of memory.
pub open spec fn spec_apply_guards(s: CpuState) -> CpuState {
    CpuState {
        stack_pointer: if s.stack_pointer < s.rom_size || s.stack_pointer as int >= s.memory.len()
            - 1 {
            0u16
        } else {
            s.stack_pointer
        },
        program_counter: if s.program_counter as int >= s.memory.len() - 1 {
            0u16
        } else {
            s.program_counter
        },
        ..s
    }
}

pub open spec fn spec_is_push_op(opcode: u8) -> bool {
    opcode == 0xc5 || opcode == 0xd5 || opcode == 0xe5 || opcode == 0xf5
}

pub open spec fn spec_is_pop_op(opcode: u8) -> bool {
    opcode == 0xc1 || opcode == 0xd1 || opcode == 0xe1 || opcode == 0xf1
}

pub open spec fn spec_is_rst_op(opcode: u8) -> bool {
    opcode == 0xc7 || opcode == 0xcf || opcode == 0xd7 || opcode == 0xdf || opcode == 0xe7
        || opcode == 0xef || opcode == 0xf7 || opcode == 0xff
}

pub open spec fn spec_is_call_op(opcode: u8) -> bool {
    opcode == 0xcd || opcode == 0xc4 || opcode == 0xcc || opcode == 0xd4 || opcode == 0xdc
        || opcode == 0xe4 || opcode == 0xec || opcode == 0xf4 || opcode == 0xfc
}

pub open spec fn spec_is_ret_op(opcode: u8) -> bool {
    opcode == 0xc9 || opcode == 0xc0 || opcode == 0xc8 || opcode == 0xd0 || opcode == 0xd8
        || opcode == 0xe0 || opcode == 0xe8 || opcode == 0xf0 || opcode == 0xf8
}

/// The condition a conditional jump, call or return tests.
pub open spec fn spec_flow_condition(s: CpuState, opcode: u8) -> bool {
    match opcode {
        0xc3 | 0xcd | 0xc9 => true,
        0xc2 | 0xc4 | 0xc0 => !s.flags.zero,
        0xca | 0xcc | 0xc8 => s.flags.zero,
        0xd2 | 0xd4 | 0xd0 => !s.flags.carry,
        0xda | 0xdc | 0xd8 => s.flags.carry,
        0xe2 | 0xe4 | 0xe0 => !s.flags.parity,
        0xea | 0xec | 0xe8 => s.flags.parity,
        0xf2 | 0xf4 | 0xf0 => !s.flags.sign,
        0xfa | 0xfc | 0xf8 => s.flags.sign,
        _ => false,
    }
}

/// The dispatcher's standing invariant at the point an operation
/// executes (the opcode already fetched): bounded memory, the program
/// counter on a readable byte, the stack pointer reset or in RAM, and
/// a 3-bit shift amount.
pub open spec fn dispatch_inv(s: CpuState) -> bool {
    &&& 2 <= s.memory.len() <= 0x10000
    &&& s.program_counter as int <= s.memory.len() - 1
    &&& (s.stack_pointer == 0 || (s.stack_pointer as int) < s.memory.len() - 1)
    &&& s.shift_register.amount <= 7
}

/// The accesses of this opcode's operation stay inside memory, its
/// address arithmetic inside 16 bits, and its port accesses inside
/// the port array; states the exact conditions under which the
/// operation is free of memory faults.
pub open spec fn exec_ok(s: CpuState, opcode: u8, ports: Seq<u8>) -> bool {
    let len = s.memory.len() as int;
    let pc = s.program_counter as int;
    &&& (spec_instr_len(opcode) == 2 ==> pc + 1 <= 0xffff)
    &&& (spec_instr_len(opcode) == 3 ==> pc + 1 < len && pc + 2 <= 0xffff)
    &&& (spec_is_push_op(opcode) ==> spec_push_ok(s))
    &&& (spec_is_rst_op(opcode) ==> spec_push_ok(s) && pc + 2 <= 0xffff)
    &&& (spec_is_call_op(opcode) && spec_flow_condition(s, opcode) ==> spec_push_ok(s))
    &&& (spec_is_pop_op(opcode) ==> s.stack_pointer + 2 <= 0xffff)
    &&& (spec_is_ret_op(opcode) && spec_flow_condition(s, opcode) ==> s.stack_pointer + 2
        <= 0xffff)
    // SHLD increments its low operand byte in 8-bit arithmetic to place
    // the high byte; an operand of 0xff would overflow that increment.
    &&& (opcode == 0x22 ==> s.memory[pc] != 0xff)
    &&& ((opcode == 0xdb || opcode == 0xd3) && s.io == IoDevice::SpaceInvaders ==> ports.len()
        >= 6)
}

/// A full step of [`emulate`] is free of memory faults and counter
/// overflow: the cycle counter has room for this opcode's cost, and
/// the operation's accesses are in bounds.
pub open spec fn step_ok(s: CpuState, ports: Seq<u8>) -> bool {
    let opcode = s.memory[s.program_counter as int];
    &&& s.cycles_elapsed + spec_opcode_cycles(opcode) <= 0xffff
    &&& exec_ok(spec_fetch(s), opcode, ports)
}

/// XTHL: the 16-bit value on top of the stack and HL trade places.
pub open spec fn spec_exchange_top(s: CpuState) -> CpuState {
    let sp = s.stack_pointer as int;
    CpuState {
        h: s.memory[sp + 1],
        l: s.memory[sp],
        memory: s.memory.update(sp + 1, s.h).update(sp, s.l),
        ..s
    }
}

/// Operations 0x00..0x0f: pair loads, stores, steps, rotates.
#[verifier::opaque]
pub open spec fn spec_execute_misc_0(s: CpuState, opcode: u8, ports: Seq<u8>) -> ExecEffect {
    match opcode {
        0x00 => effect(s, ports),
        0x01 => effect(
            CpuState {
                b: s.memory[s.program_counter + 1],
                c: s.memory[s.program_counter as int],
                program_counter: (s.program_counter + 2) as u16,
                ..s
            },
            ports,
        ),
        0x02 => effect(spec_write_to_memory(s, s.b, s.c, s.a), ports),
        0x0a => {
            let resolved = spec_pair_address(s.b, s.c, (s.memory.len() - 1) as u16);
            effect(
                CpuState {
                    a: s.memory[resolved.2 as int],
                    b: resolved.0,
                    c: resolved.1,
                    ..s
                },
                ports,
            )
        },
        0x03 => {
            let pair = spec_split_pair(
                ((((((s.b as u16) << 8) | (s.c as u16)) as u32) + 1) as u32) as u16,
            );
            effect(CpuState { b: pair.0, c: pair.1, ..s }, ports)
        },
        0x0b => {
            let pair = spec_split_pair(
                ((((((s.b as u16) << 8) | (s.c as u16)) as u32) + spec_twos_complement(1)
                    as u32) as u32) as u16,
            );
            effect(CpuState { b: pair.0, c: pair.1, ..s }, ports)
        },
        0x04 => {
            let answer: u16 = (s.b + 1) as u16;
            let s1 = spec_step_register_flags(s, answer, s.b, 0x01);
            effect(CpuState { b: answer as u8, ..s1 }, ports)
        },
        0x0c => {
            let answer: u16 = (s.c + 1) as u16;
            let s1 = spec_step_register_flags(s, answer, s.c, 0x01);
            effect(CpuState { c: answer as u8, ..s1 }, ports)
        },
        0x05 => {
            let answer: u16 = (((s.b as u32 + spec_twos_complement(1) as u32) as u32) as u16);
            let s1 = spec_step_register_flags(s, answer, s.b, 0xff);
            effect(CpuState { b: answer as u8, ..s1 }, ports)
        },
        0x0d => {
            let answer: u16 = (((s.c as u32 + spec_twos_complement(1) as u32) as u32) as u16);
            let s1 = spec_step_register_flags(s, answer, s.c, 0xff);
            effect(CpuState { c: answer as u8, ..s1 }, ports)
        },
        0x06 => effect(
            CpuState {
                b: s.memory[s.program_counter as int],
                program_counter: (s.program_counter + 1) as u16,
                ..s
            },
            ports,
        ),
        0x0e => effect(
            CpuState {
                c: s.memory[s.program_counter as int],
                program_counter: (s.program_counter + 1) as u16,
                ..s
            },
            ports,
        ),
        0x07 => effect(spec_rotate_left(s), ports),
        0x0f => effect(spec_rotate_right(s), ports),
        0x09 => effect(spec_double_add(s, s.b, s.c), ports),
        _ => effect(s, ports),
    }
}

/// Operations 0x10..0x1f: pair loads, stores, steps, rotates.
#[verifier::opaque]
pub open spec fn spec_execute_misc_1(s: CpuState, opcode: u8, ports: Seq<u8>) -> ExecEffect {
    match opcode {
        0x11 => effect(
            CpuState {
                d: s.memory[s.program_counter + 1],
                e: s.memory[s.program_counter as int],
                program_counter: (s.program_counter + 2) as u16,
                ..s
            },
            ports,
        ),
        0x12 => effect(spec_write_to_memory(s, s.d, s.e, s.a), ports),
        0x1a => {
            let resolved = spec_pair_address(s.d, s.e, (s.memory.len() - 1) as u16);
            effect(
                CpuState {
                    a: s.memory[resolved.2 as int],
                    d: resolved.0,
                    e: resolved.1,
                    ..s
                },
                ports,
            )
        },
        0x13 => {
            let pair = spec_split_pair(
                ((((((s.d as u16) << 8) | (s.e as u16)) as u32) + 1) as u32) as u16,
            );
            effect(CpuState { d: pair.0, e: pair.1, ..s }, ports)
        },
        0x1b => {
            let pair = spec_split_pair(
                ((((((s.d as u16) << 8) | (s.e as u16)) as u32) + spec_twos_complement(1)
                    as u32) as u32) as u16,
            );
            effect(CpuState { d: pair.0, e: pair.1, ..s }, ports)
        },
        0x14 => {
            let answer: u16 = (s.d + 1) as u16;
            let s1 = spec_step_register_flags(s, answer, s.d, 0x01);
            effect(CpuState { d: answer as u8, ..s1 }, ports)
        },
        0x1c => {
            let answer: u16 = (s.e + 1) as u16;
            let s1 = spec_step_register_flags(s, answer, s.e, 0x01);
            effect(CpuState { e: answer as u8, ..s1 }, ports)
        },
        0x15 => {
            let answer: u16 = (((s.d as u32 + spec_twos_complement(1) as u32) as u32) as u16);
            let s1 = spec_step_register_flags(s, answer, s.d, 0xff);
            effect(CpuState { d: answer as u8, ..s1 }, ports)
        },
        0x1d => {
            let answer: u16 = (((s.e as u32 + spec_twos_complement(1) as u32) as u32) as u16);
            let s1 = spec_step_register_flags(s, answer, s.e, 0xff);
            effect(CpuState { e: answer as u8, ..s1 }, ports)
        },
        0x16 => effect(
            CpuState {
                d: s.memory[s.program_counter as int],
                program_counter: (s.program_counter + 1) as u16,
                ..s
            },
            ports,
        ),
        0x1e => effect(
            CpuState {
                e: s.memory[s.program_counter as int],
                program_counter: (s.program_counter + 1) as u16,
                ..s
            },
            ports,
        ),
        0x17 => effect(spec_rotate_left_through_carry(s), ports),
        0x1f => effect(spec_rotate_right_through_carry(s), ports),
        0x19 => effect(spec_double_add(s, s.d, s.e), ports),
        _ => effect(s, ports),
    }
}

/// Operations 0x20..0x2f: HL loads and stores, decimal adjust.
#[verifier::opaque]
pub open spec fn spec_execute_misc_2(s: CpuState, opcode: u8, ports: Seq<u8>) -> ExecEffect {
    match opcode {
        0x21 => effect(
            CpuState {
                h: s.memory[s.program_counter + 1],
                l: s.memory[s.program_counter as int],
                program_counter: (s.program_counter + 2) as u16,
                ..s
            },
            ports,
        ),
        0x22 => {
            let first = s.memory[s.program_counter + 1];
            let second = s.memory[s.program_counter as int];
            let s1 = spec_write_to_memory(s, first, (second + 1) as u8, s.h);
            let s2 = spec_write_to_memory(s1, first, second, s1.l);
            effect(CpuState { program_counter: (s.program_counter + 2) as u16, ..s2 }, ports)
        },
        0x2a => {
            let resolved = spec_pair_address(
                s.memory[s.program_counter + 1],
                s.memory[s.program_counter as int],
                (s.memory.len() - 1) as u16,
            );
            effect(
                CpuState {
                    h: s.memory[resolved.2 + 1],
                    l: s.memory[resolved.2 as int],
                    program_counter: (s.program_counter + 2) as u16,
                    ..s
                },
                ports,
            )
        },
        0x23 => {
            let pair = spec_split_pair(
                ((((((s.h as u16) << 8) | (s.l as u16)) as u32) + 1) as u32) as u16,
            );
            effect(CpuState { h: pair.0, l: pair.1, ..s }, ports)
        },
        0x2b => {
            let pair = spec_split_pair(
                ((((((s.h as u16) << 8) | (s.l as u16)) as u32) + spec_twos_complement(1)
                    as u32) as u32) as u16,
            );
            effect(CpuState { h: pair.0, l: pair.1, ..s }, ports)
        },
        0x24 => {
            let answer: u16 = (s.h + 1) as u16;
            let s1 = spec_step_register_flags(s, answer, s.h, 0x01);
            effect(CpuState { h: answer as u8, ..s1 }, ports)
        },
        0x2c => {
            let answer: u16 = (s.l + 1) as u16;
            let s1 = spec_step_register_flags(s, answer, s.l, 0x01);
            effect(CpuState { l: answer as u8, ..s1 }, ports)
        },
        0x25 => {
            let answer: u16 = (((s.h as u32 + spec_twos_complement(1) as u32) as u32) as u16);
            let s1 = spec_step_register_flags(s, answer, s.h, 0xff);
            effect(CpuState { h: answer as u8, ..s1 }, ports)
        },
        0x2d => {
            let answer: u16 = (((s.l as u32 + spec_twos_complement(1) as u32) as u32) as u16);
            let s1 = spec_step_register_flags(s, answer, s.l, 0xff);
            effect(CpuState { l: answer as u8, ..s1 }, ports)
        },
        0x26 => effect(
            CpuState {
                h: s.memory[s.program_counter as int],
                program_counter: (s.program_counter + 1) as u16,
                ..s
            },
            ports,
        ),
        0x2e => effect(
            CpuState {
                l: s.memory[s.program_counter as int],
                program_counter: (s.program_counter + 1) as u16,
                ..s
            },
            ports,
        ),
        0x29 => effect(spec_double_add(s, s.h, s.l), ports),
        0x27 => effect(spec_decimal_adjust(s), ports),
        0x2f => effect(CpuState { a: !s.a, ..s }, ports),
        _ => effect(s, ports),
    }
}

/// Operations 0x30..0x3f: direct stores, memory steps, carry opcodes.
#[verifier::opaque]
pub open spec fn spec_execute_misc_3(s: CpuState, opcode: u8, ports: Seq<u8>) -> ExecEffect {
    match opcode {
        0x31 => {
            let resolved = spec_pair_address(
                s.memory[s.program_counter + 1],
                s.memory[s.program_counter as int],
                (s.memory.len() - 1) as u16,
            );
            effect(
                CpuState {
                    stack_pointer: resolved.2,
                    program_counter: (s.program_counter + 2) as u16,
                    ..s
                },
                ports,
            )
        },
        0x32 => {
            let first = s.memory[s.program_counter + 1];
            let second = s.memory[s.program_counter as int];
            let s1 = spec_write_to_memory(s, first, second, s.a);
            effect(CpuState { program_counter: (s.program_counter + 2) as u16, ..s1 }, ports)
        },
        0x3a => {
            let resolved = spec_pair_address(
                s.memory[s.program_counter + 1],
                s.memory[s.program_counter as int],
                (s.memory.len() - 1) as u16,
            );
            effect(
                CpuState {
                    a: s.memory[resolved.2 as int],
                    program_counter: (s.program_counter + 2) as u16,
                    ..s
                },
                ports,
            )
        },
        0x33 => effect(CpuState { stack_pointer: (s.stack_pointer + 1) as u16, ..s }, ports),
        0x3b => effect(
            CpuState {
                stack_pointer: (((s.stack_pointer as u32 + spec_twos_complement(1) as u32)
                    as u32) as u16),
                ..s
            },
            ports,
        ),
        0x3c => {
            let answer: u16 = (s.a + 1) as u16;
            let s1 = spec_step_register_flags(s, answer, s.a, 0x01);
            effect(CpuState { a: answer as u8, ..s1 }, ports)
        },
        0x3d => {
            let answer: u16 = (((s.a as u32 + spec_twos_complement(1) as u32) as u32) as u16);
            let s1 = spec_step_register_flags(s, answer, s.a, 0xff);
            effect(CpuState { a: answer as u8, ..s1 }, ports)
        },
        0x34 => {
            let t = spec_hl_source(s);
            let answer: u16 = (t.1 + 1) as u16;
            let s1 = spec_step_register_flags(t.0, answer, t.1, 0x01);
            effect(spec_write_to_memory(s1, s1.h, s1.l, answer as u8), ports)
        },
        0x35 => {
            let t = spec_hl_source(s);
            let answer: u16 = (((t.1 as u32 + spec_twos_complement(1) as u32) as u32) as u16);
            let s1 = spec_step_register_flags(t.0, answer, t.1, 0xff);
            effect(spec_write_to_memory(s1, s1.h, s1.l, answer as u8), ports)
        },
        0x3e => effect(
            CpuState {
                a: s.memory[s.program_counter as int],
                program_counter: (s.program_counter + 1) as u16,
                ..s
            },
            ports,
        ),
        0x36 => {
            let s1 = spec_write_to_memory(s, s.h, s.l, s.memory[s.program_counter as int]);
            effect(CpuState { program_counter: (s.program_counter + 1) as u16, ..s1 }, ports)
        },
        0x39 => {
            let split = spec_split_pair(s.stack_pointer);
            effect(spec_double_add(s, split.0, split.1), ports)
        },
        0x37 => effect(CpuState { flags: Flags { carry: true, ..s.flags }, ..s }, ports),
        0x3f => effect(CpuState { flags: Flags { carry: !s.flags.carry, ..s.flags }, ..s }, ports),
        _ => effect(s, ports),
    }
}

/// Operations 0x40..0x7f: the register and memory moves.
#[verifier::opaque]
pub open spec fn spec_execute_move(s: CpuState, opcode: u8, ports: Seq<u8>) -> ExecEffect {
    match opcode {
        0x40 => effect(s, ports),
        0x41 => effect(CpuState { b: s.c, ..s }, ports),
        0x42 => effect(CpuState { b: s.d, ..s }, ports),
        0x43 => effect(CpuState { b: s.e, ..s }, ports),
        0x44 => effect(CpuState { b: s.h, ..s }, ports),
        0x45 => effect(CpuState { b: s.l, ..s }, ports),
        0x46 => {
            let t = spec_hl_source(s);
            effect(CpuState { b: t.1, ..t.0 }, ports)
        },
        0x47 => effect(CpuState { b: s.a, ..s }, ports),
        0x48 => effect(CpuState { c: s.b, ..s }, ports),
        0x49 => effect(s, ports),
        0x4a => effect(CpuState { c: s.d, ..s }, ports),
        0x4b => effect(CpuState { c: s.e, ..s }, ports),
        0x4c => effect(CpuState { c: s.h, ..s }, ports),
        0x4d => effect(CpuState { c: s.l, ..s }, ports),
        0x4e => {
            let t = spec_hl_source(s);
            effect(CpuState { c: t.1, ..t.0 }, ports)
        },
        0x4f => effect(CpuState { c: s.a, ..s }, ports),
        0x50 => effect(CpuState { d: s.b, ..s }, ports),
        0x51 => effect(CpuState { d: s.c, ..s }, ports),
        0x52 => effect(s, ports),
        0x53 => effect(CpuState { d: s.e, ..s }, ports),
        0x54 => effect(CpuState { d: s.h, ..s }, ports),
        0x55 => effect(CpuState { d: s.l, ..s }, ports),
        0x56 => {
            let t = spec_hl_source(s);
            effect(CpuState { d: t.1, ..t.0 }, ports)
        },
        0x57 => effect(CpuState { d: s.a, ..s }, ports),
        0x58 => effect(CpuState { e: s.b, ..s }, ports),
        0x59 => effect(CpuState { e: s.c, ..s }, ports),
        0x5a => effect(CpuState { e: s.d, ..s }, ports),
        0x5b => effect(s, ports),
        0x5c => effect(CpuState { e: s.h, ..s }, ports),
        0x5d => effect(CpuState { e: s.l, ..s }, ports),
        0x5e => {
            let t = spec_hl_source(s);
            effect(CpuState { e: t.1, ..t.0 }, ports)
        },
        0x5f => effect(CpuState { e: s.a, ..s }, ports),
        0x60 => effect(CpuState { h: s.b, ..s }, ports),
        0x61 => effect(CpuState { h: s.c, ..s }, ports),
        0x62 => effect(CpuState { h: s.d, ..s }, ports),
        0x63 => effect(CpuState { h: s.e, ..s }, ports),
        0x64 => effect(s, ports),
        0x65 => effect(CpuState { h: s.l, ..s }, ports),
        0x66 => {
            let t = spec_hl_source(s);
            effect(CpuState { h: t.1, ..t.0 }, ports)
        },
        0x67 => effect(CpuState { h: s.a, ..s }, ports),
        0x68 => effect(CpuState { l: s.b, ..s }, ports),
        0x69 => effect(CpuState { l: s.c, ..s }, ports),
        0x6a => effect(CpuState { l: s.d, ..s }, ports),
        0x6b => effect(CpuState { l: s.e, ..s }, ports),
        0x6c => effect(CpuState { l: s.h, ..s }, ports),
        0x6d => effect(s, ports),
        0x6e => {
            let t = spec_hl_source(s);
            effect(CpuState { l: t.1, ..t.0 }, ports)
        },
        0x6f => effect(CpuState { l: s.a, ..s }, ports),
        0x70 => effect(spec_write_to_memory(s, s.h, s.l, s.b), ports),
        0x71 => effect(spec_write_to_memory(s, s.h, s.l, s.c), ports),
        0x72 => effect(spec_write_to_memory(s, s.h, s.l, s.d), ports),
        0x73 => effect(spec_write_to_memory(s, s.h, s.l, s.e), ports),
        0x74 => effect(spec_write_to_memory(s, s.h, s.l, s.h), ports),
        0x75 => effect(spec_write_to_memory(s, s.h, s.l, s.l), ports),
        0x77 => effect(spec_write_to_memory(s, s.h, s.l, s.a), ports),
        0x78 => effect(CpuState { a: s.b, ..s }, ports),
        0x79 => effect(CpuState { a: s.c, ..s }, ports),
        0x7a => effect(CpuState { a: s.d, ..s }, ports),
        0x7b => effect(CpuState { a: s.e, ..s }, ports),
        0x7c => effect(CpuState { a: s.h, ..s }, ports),
        0x7d => effect(CpuState { a: s.l, ..s }, ports),
        0x7e => {
            let t = spec_hl_source(s);
            effect(CpuState { a: t.1, ..t.0 }, ports)
        },
        0x7f => effect(s, ports),
        _ => effect(s, ports),
    }
}

/// Operations 0x80..0xbf: accumulator arithmetic and logic.
#[verifier::opaque]
pub open spec fn spec_execute_accumulator(s: CpuState, opcode: u8, ports: Seq<u8>) -> ExecEffect {
    match opcode {
        0x80 => effect(spec_add(s, s.b, false), ports),
        0x81 => effect(spec_add(s, s.c, false), ports),
        0x82 => effect(spec_add(s, s.d, false), ports),
        0x83 => effect(spec_add(s, s.e, false), ports),
        0x84 => effect(spec_add(s, s.h, false), ports),
        0x85 => effect(spec_add(s, s.l, false), ports),
        0x86 => {
            let t = spec_hl_source(s);
            effect(spec_add(t.0, t.1, false), ports)
        },
        0x87 => effect(spec_add(s, s.a, false), ports),
        0x88 => effect(spec_add(s, s.b, s.flags.carry), ports),
        0x89 => effect(spec_add(s, s.c, s.flags.carry), ports),
        0x8a => effect(spec_add(s, s.d, s.flags.carry), ports),
        0x8b => effect(spec_add(s, s.e, s.flags.carry), ports),
        0x8c => effect(spec_add(s, s.h, s.flags.carry), ports),
        0x8d => effect(spec_add(s, s.l, s.flags.carry), ports),
        0x8e => {
            let t = spec_hl_source(s);
            effect(spec_add(t.0, t.1, s.flags.carry), ports)
        },
        0x8f => effect(spec_add(s, s.a, s.flags.carry), ports),
        0x90 => effect(spec_subtract(s, s.b, false), ports),
        0x91 => effect(spec_subtract(s, s.c, false), ports),
        0x92 => effect(spec_subtract(s, s.d, false), ports),
        0x93 => effect(spec_subtract(s, s.e, false), ports),
        0x94 => effect(spec_subtract(s, s.h, false), ports),
        0x95 => effect(spec_subtract(s, s.l, false), ports),
        0x96 => {
            let t = spec_hl_source(s);
            effect(spec_subtract(t.0, t.1, false), ports)
        },
        0x97 => effect(spec_subtract(s, s.a, false), ports),
        0x98 => effect(spec_subtract(s, s.b, s.flags.carry), ports),
        0x99 => effect(spec_subtract(s, s.c, s.flags.carry), ports),
        0x9a => effect(spec_subtract(s, s.d, s.flags.carry), ports),
        0x9b => effect(spec_subtract(s, s.e, s.flags.carry), ports),
        0x9c => effect(spec_subtract(s, s.h, s.flags.carry), ports),
        0x9d => effect(spec_subtract(s, s.l, s.flags.carry), ports),
        0x9e => {
            let t = spec_hl_source(s);
            effect(spec_subtract(t.0, t.1, s.flags.carry), ports)
        },
        0x9f => effect(spec_subtract(s, s.a, s.flags.carry), ports),
        0xa0 => effect(spec_and(s, s.b), ports),
        0xa1 => effect(spec_and(s, s.c), ports),
        0xa2 => effect(spec_and(s, s.d), ports),
        0xa3 => effect(spec_and(s, s.e), ports),
        0xa4 => effect(spec_and(s, s.h), ports),
        0xa5 => effect(spec_and(s, s.l), ports),
        0xa6 => {
            let t = spec_hl_source(s);
            effect(spec_and(t.0, t.1), ports)
        },
        0xa7 => effect(spec_and(s, s.a), ports),
        0xa8 => effect(spec_xor(s, s.b), ports),
        0xa9 => effect(spec_xor(s, s.c), ports),
        0xaa => effect(spec_xor(s, s.d), ports),
        0xab => effect(spec_xor(s, s.e), ports),
        0xac => effect(spec_xor(s, s.h), ports),
        0xad => effect(spec_xor(s, s.l), ports),
        0xae => {
            let t = spec_hl_source(s);
            effect(spec_xor(t.0, t.1), ports)
        },
        0xaf => effect(spec_xor(s, s.a), ports),
        0xb0 => effect(spec_or(s, s.b), ports),
        0xb1 => effect(spec_or(s, s.c), ports),
        0xb2 => effect(spec_or(s, s.d), ports),
        0xb3 => effect(spec_or(s, s.e), ports),
        0xb4 => effect(spec_or(s, s.h), ports),
        0xb5 => effect(spec_or(s, s.l), ports),
        0xb6 => {
            let t = spec_hl_source(s);
            effect(spec_or(t.0, t.1), ports)
        },
        0xb7 => effect(spec_or(s, s.a), ports),
        0xb8 => effect(spec_compare(s, s.b), ports),
        0xb9 => effect(spec_compare(s, s.c), ports),
        0xba => effect(spec_compare(s, s.d), ports),
        0xbb => effect(spec_compare(s, s.e), ports),
        0xbc => effect(spec_compare(s, s.h), ports),
        0xbd => effect(spec_compare(s, s.l), ports),
        0xbe => {
            let t = spec_hl_source(s);
            effect(spec_compare(t.0, t.1), ports)
        },
        0xbf => effect(spec_compare(s, s.a), ports),
        _ => effect(s, ports),
    }
}

/// Operations 0xc0..0xcf: zero-conditioned flow, stack, add immediates.
#[verifier::opaque]
pub open spec fn spec_execute_control_c(s: CpuState, opcode: u8, ports: Seq<u8>) -> ExecEffect {
    match opcode {
        0xc0 => effect(spec_ret(s, !s.flags.zero), ports),
        0xc8 => effect(spec_ret(s, s.flags.zero), ports),
        0xc9 => effect(spec_ret(s, true), ports),
        0xc2 => effect(spec_jump(s, !s.flags.zero), ports),
        0xc3 => effect(spec_jump(s, true), ports),
        0xca => effect(spec_jump(s, s.flags.zero), ports),
        0xc4 => effect(spec_call(s, !s.flags.zero), ports),
        0xcc => effect(spec_call(s, s.flags.zero), ports),
        0xcd => effect(spec_call(s, true), ports),
        0xc7 => effect(spec_reset(s, 0x00), ports),
        0xcf => effect(spec_reset(s, 0x08), ports),
        0xc5 => effect(spec_push(s, s.b, s.c), ports),
        0xc1 => {
            let popped = spec_pop(s);
            effect(CpuState { b: popped.0, c: popped.1, ..popped.2 }, ports)
        },
        0xc6 => {
            let s1 = spec_add(s, s.memory[s.program_counter as int], false);
            effect(CpuState { program_counter: (s1.program_counter + 1) as u16, ..s1 }, ports)
        },
        0xce => {
            let s1 = spec_add(s, s.memory[s.program_counter as int], s.flags.carry);
            effect(CpuState { program_counter: (s1.program_counter + 1) as u16, ..s1 }, ports)
        },
        _ => effect(s, ports),
    }
}

/// Operations 0xd0..0xdf: carry-conditioned flow, ports, subtract immediates.
#[verifier::opaque]
pub open spec fn spec_execute_control_d(s: CpuState, opcode: u8, ports: Seq<u8>) -> ExecEffect {
    match opcode {
        0xd0 => effect(spec_ret(s, !s.flags.carry), ports),
        0xd8 => effect(spec_ret(s, s.flags.carry), ports),
        0xd2 => effect(spec_jump(s, !s.flags.carry), ports),
        0xda => effect(spec_jump(s, s.flags.carry), ports),
        0xd4 => effect(spec_call(s, !s.flags.carry), ports),
        0xdc => effect(spec_call(s, s.flags.carry), ports),
        0xd7 => effect(spec_reset(s, 0x10), ports),
        0xdf => effect(spec_reset(s, 0x18), ports),
        0xd5 => effect(spec_push(s, s.d, s.e), ports),
        0xd1 => {
            let popped = spec_pop(s);
            effect(CpuState { d: popped.0, e: popped.1, ..popped.2 }, ports)
        },
        0xd6 => {
            let s1 = spec_subtract(s, s.memory[s.program_counter as int], false);
            effect(CpuState { program_counter: (s1.program_counter + 1) as u16, ..s1 }, ports)
        },
        0xde => {
            let s1 = spec_subtract(s, s.memory[s.program_counter as int], s.flags.carry);
            effect(CpuState { program_counter: (s1.program_counter + 1) as u16, ..s1 }, ports)
        },
        0xd3 => {
            let port = s.memory[s.program_counter as int];
            let out = match s.io {
                IoDevice::Test => (s, ports, Seq::<AudioAction>::empty()),
                IoDevice::SpaceInvaders => spec_space_invaders_out(s, port, s.a, ports),
            };
            ExecEffect {
                cpu: CpuState { program_counter: (s.program_counter + 1) as u16, ..out.0 },
                ports: out.1,
                audio: out.2,
            }
        },
        0xdb => {
            let port = s.memory[s.program_counter as int];
            let value = match s.io {
                IoDevice::Test => spec_test_in(port),
                IoDevice::SpaceInvaders => spec_space_invaders_in(s, port, ports),
            };
            effect(
                CpuState { a: value, program_counter: (s.program_counter + 1) as u16, ..s },
                ports,
            )
        },
        _ => effect(s, ports),
    }
}

/// Operations 0xe0..0xef: parity-conditioned flow, exchanges, logic immediates.
#[verifier::opaque]
pub open spec fn spec_execute_control_e(s: CpuState, opcode: u8, ports: Seq<u8>) -> ExecEffect {
    match opcode {
        0xe0 => effect(spec_ret(s, !s.flags.parity), ports),
        0xe8 => effect(spec_ret(s, s.flags.parity), ports),
        0xe2 => effect(spec_jump(s, !s.flags.parity), ports),
        0xea => effect(spec_jump(s, s.flags.parity), ports),
        0xe4 => effect(spec_call(s, !s.flags.parity), ports),
        0xec => effect(spec_call(s, s.flags.parity), ports),
        0xe7 => effect(spec_reset(s, 0x20), ports),
        0xef => effect(spec_reset(s, 0x28), ports),
        0xe5 => effect(spec_push(s, s.h, s.l), ports),
        0xe1 => {
            let popped = spec_pop(s);
            effect(CpuState { h: popped.0, l: popped.1, ..popped.2 }, ports)
        },
        0xe6 => {
            let s1 = spec_and(s, s.memory[s.program_counter as int]);
            effect(CpuState { program_counter: (s1.program_counter + 1) as u16, ..s1 }, ports)
        },
        0xee => {
            let s1 = spec_xor(s, s.memory[s.program_counter as int]);
            effect(CpuState { program_counter: (s1.program_counter + 1) as u16, ..s1 }, ports)
        },
        0xe3 => effect(spec_exchange_top(s), ports),
        0xeb => effect(CpuState { h: s.d, d: s.h, l: s.e, e: s.l, ..s }, ports),
        0xe9 => {
            let resolved = spec_pair_address(s.h, s.l, (s.memory.len() - 1) as u16);
            effect(
                CpuState { h: resolved.0, l: resolved.1, program_counter: resolved.2, ..s },
                ports,
            )
        },
        _ => effect(s, ports),
    }
}

/// Operations 0xf0..0xff: sign-conditioned flow, flag word, interrupts.
#[verifier::opaque]
pub open spec fn spec_execute_control_f(s: CpuState, opcode: u8, ports: Seq<u8>) -> ExecEffect {
    match opcode {
        0xf0 => effect(spec_ret(s, !s.flags.sign), ports),
        0xf8 => effect(spec_ret(s, s.flags.sign), ports),
        0xf2 => effect(spec_jump(s, !s.flags.sign), ports),
        0xfa => effect(spec_jump(s, s.flags.sign), ports),
        0xf4 => effect(spec_call(s, !s.flags.sign), ports),
        0xfc => effect(spec_call(s, s.flags.sign), ports),
        0xf7 => effect(spec_reset(s, 0x30), ports),
        0xff => effect(spec_reset(s, 0x38), ports),
        0xf5 => effect(spec_push(s, s.a, spec_pack_psw(s.flags)), ports),
        0xf1 => {
            let popped = spec_pop(s);
            effect(
                CpuState { a: popped.0, flags: spec_apply_psw(s.flags, popped.1), ..popped.2 },
                ports,
            )
        },
        0xf6 => {
            let s1 = spec_or(s, s.memory[s.program_counter as int]);
            effect(CpuState { program_counter: (s1.program_counter + 1) as u16, ..s1 }, ports)
        },
        0xfe => {
            let s1 = spec_compare(s, s.memory[s.program_counter as int]);
            effect(CpuState { program_counter: (s1.program_counter + 1) as u16, ..s1 }, ports)
        },
        0xf9 => effect(CpuState { stack_pointer: (((s.h as u16) << 8) | (s.l as u16)), ..s }, ports),
        0xf3 => effect(CpuState { interrupt_enabled: false, ..s }, ports),
        0xfb => effect(CpuState { interrupt_enabled: true, ..s }, ports),
        _ => effect(s, ports),
    }
}

/// The operation of one defined opcode, on the state left by the
/// fetch.
pub open spec fn spec_execute(s: CpuState, opcode: u8, ports: Seq<u8>) -> ExecEffect {
    if opcode < 0x10 {
        spec_execute_misc_0(s, opcode, ports)
    } else if opcode < 0x20 {
        spec_execute_misc_1(s, opcode, ports)
    } else if opcode < 0x30 {
        spec_execute_misc_2(s, opcode, ports)
    } else if opcode < 0x40 {
        spec_execute_misc_3(s, opcode, ports)
    } else if opcode < 0x80 {
        spec_execute_move(s, opcode, ports)
    } else if opcode < 0xc0 {
        spec_execute_accumulator(s, opcode, ports)
    } else if opcode < 0xd0 {
        spec_execute_control_c(s, opcode, ports)
    } else if opcode < 0xe0 {
        spec_execute_control_d(s, opcode, ports)
    } else if opcode < 0xf0 {
        spec_execute_control_e(s, opcode, ports)
    } else {
        spec_execute_control_f(s, opcode, ports)
    }
}

/// One full instruction step: fetch, then either the unimplemented
/// failure, the halt signal, or the operation's effect with the
/// post-instruction guards applied.
pub open spec fn spec_step(pre: CpuState, ports: Seq<u8>) -> StepSpec {
    let opcode = pre.memory[pre.program_counter as int];
    let fetched = spec_fetch(pre);
    if !spec_is_defined(opcode) {
        StepSpec {
            cpu: fetched,
            ports: ports,
            outcome: SpecOutcome::Unimplemented,
            audio: Seq::empty(),
        }
    } else if opcode == 0x76 {
        StepSpec { cpu: fetched, ports: ports, outcome: SpecOutcome::Halted, audio: Seq::empty() }
    } else {
        let e = spec_execute(fetched, opcode, ports);
        StepSpec {
            cpu: spec_apply_guards(e.cpu),
            ports: e.ports,
            outcome: SpecOutcome::Normal,
            audio: e.audio,
        }
    }
}

impl Processor8080 {
    /// The byte HL points at, applying the pair guard to H and L.
    fn read_hl_source(&mut self) -> (r: u8)
        requires
            2 <= old(self)@.memory.len() <= 0x10000,
        ensures
            ({
                let t = spec_hl_source(old(self)@);
                final(self)@ == t.0 && r == t.1
            }),
    {
        let max: u16 = (self.memory.len() - 1) as u16;
        let mut hi: u8 = self.h;
        let mut lo: u8 = self.l;
        let address: u16 = addressing::get_address_from_pair(&mut hi, &mut lo, max);
        self.h = hi;
        self.l = lo;
        self.memory[address as usize]
    }

    #[verifier::rlimit(100)]
    #[verifier::spinoff_prover]
    fn op_nop(&mut self, ports: &Vec<u8>)
        requires
            dispatch_inv(old(self)@),
            exec_ok(old(self)@, 0x00, ports@),
        ensures
            ({
                let e = spec_execute_misc_0(old(self)@, 0x00, ports@);
                &&& final(self)@ == e.cpu
                &&& e.ports == ports@
                &&& e.audio == Seq::<AudioAction>::empty()
            }),
            final(self)@.memory.len() == old(self)@.memory.len(),
            final(self)@.shift_register.amount <= 7,
    {
        proof {
            reveal(spec_execute_misc_0);
        }
        // no effect
    }
    #[verifier::rlimit(100)]
    #[verifier::spinoff_prover]
    fn op_lxi_b(&mut self, ports: &Vec<u8>)
        requires
            dispatch_inv(old(self)@),
            exec_ok(old(self)@, 0x01, ports@),
        ensures
            ({
                let e = spec_execute_misc_0(old(self)@, 0x01, ports@);
                &&& final(self)@ == e.cpu
                &&& e.ports == ports@
                &&& e.audio == Seq::<AudioAction>::empty()
            }),
            final(self)@.memory.len() == old(self)@.memory.len(),
            final(self)@.shift_register.amount <= 7,
    {
        proof {
            reveal(spec_execute_misc_0);
        }
        self.b = self.memory[(self.program_counter + 1) as usize];
        self.c = self.memory[self.program_counter as usize];
        self.program_counter = self.program_counter + 2;
            
    }
    #[verifier::rlimit(100)]
    #[verifier::spinoff_prover]
    fn op_stax_b(&mut self, ports: &Vec<u8>)
        requires
            dispatch_inv(old(self)@),
            exec_ok(old(self)@, 0x02, ports@),
        ensures
            ({
                let e = spec_execute_misc_0(old(self)@, 0x02, ports@);
                &&& final(self)@ == e.cpu
                &&& e.ports == ports@
                &&& e.audio == Seq::<AudioAction>::empty()
            }),
            final(self)@.memory.len() == old(self)@.memory.len(),
            final(self)@.shift_register.amount <= 7,
    {
        proof {
            reveal(spec_execute_misc_0);
        }
        let hv: u8 = self.b;
        let lv: u8 = self.c;
        let value: u8 = self.a;
        addressing::write_to_memory(self, hv, lv, value);
            
    }
    #[verifier::rlimit(100)]
    #[verifier::spinoff_prover]
    fn op_inx_b(&mut self, ports: &Vec<u8>)
        requires
            dispatch_inv(old(self)@),
            exec_ok(old(self)@, 0x03, ports@),
        ensures
            ({
                let e = spec_execute_misc_0(old(self)@, 0x03, ports@);
                &&& final(self)@ == e.cpu
                &&& e.ports == ports@
                &&& e.audio == Seq::<AudioAction>::empty()
            }),
            final(self)@.memory.len() == old(self)@.memory.len(),
            final(self)@.shift_register.amount <= 7,
    {
        proof {
            reveal(spec_execute_misc_0);
        }
        let address: u32 = (((self.b as u16) << 8) | (self.c as u16)) as u32;
        let pair: (u8, u8) = addressing::seperate_16bit_pair(
            #[verifier::truncate] ((address + 1) as u16),
        );
        self.b = pair.0;
        self.c = pair.1;
            
    }
    #[verifier::rlimit(100)]
    #[verifier::spinoff_prover]
    fn op_inr_b(&mut self, ports: &Vec<u8>)
        requires
            dispatch_inv(old(self)@),
            exec_ok(old(self)@, 0x04, ports@),
        ensures
            ({
                let e = spec_execute_misc_0(old(self)@, 0x04, ports@);
                &&& final(self)@ == e.cpu
                &&& e.ports == ports@
                &&& e.audio == Seq::<AudioAction>::empty()
            }),
            final(self)@.memory.len() == old(self)@.memory.len(),
            final(self)@.shift_register.amount <= 7,
    {
        proof {
            reveal(spec_execute_misc_0);
        }
        let previous: u8 = self.b;
        let answer: u16 = (previous as u16) + 1;
        flags::step_register_flags(self, answer, previous, 0x01);
        self.b = #[verifier::truncate] (answer as u8);
            
    }
    #[verifier::rlimit(100)]
    #[verifier::spinoff_prover]
    fn op_dcr_b(&mut self, ports: &Vec<u8>)
        requires
            dispatch_inv(old(self)@),
            exec_ok(old(self)@, 0x05, ports@),
        ensures
            ({
                let e = spec_execute_misc_0(old(self)@, 0x05, ports@);
                &&& final(self)@ == e.cpu
                &&& e.ports == ports@
                &&& e.audio == Seq::<AudioAction>::empty()
            }),
            final(self)@.memory.len() == old(self)@.memory.len(),
            final(self)@.shift_register.amount <= 7,
    {
        proof {
            reveal(spec_execute_misc_0);
        }
        let previous: u8 = self.b;
        let answer: u16 = #[verifier::truncate] (((previous as u32
            + alu::get_twos_complement(1) as u32)) as u16);
        flags::step_register_flags(self, answer, previous, 0xff);
        self.b = #[verifier::truncate] (answer as u8);
            
    }
    #[verifier::rlimit(100)]
    #[verifier::spinoff_prover]
    fn op_mvi_b(&mut self, ports: &Vec<u8>)
        requires
            dispatch_inv(old(self)@),
            exec_ok(old(self)@, 0x06, ports@),
        ensures
            ({
                let e = spec_execute_misc_0(old(self)@, 0x06, ports@);
                &&& final(self)@ == e.cpu
                &&& e.ports == ports@
                &&& e.audio == Seq::<AudioAction>::empty()
            }),
            final(self)@.memory.len() == old(self)@.memory.len(),
            final(self)@.shift_register.amount <= 7,
    {
        proof {
            reveal(spec_execute_misc_0);
        }
        self.b = self.memory[self.program_counter as usize];
        self.program_counter = self.program_counter + 1;
            
    }
    #[verifier::rlimit(100)]
    #[verifier::spinoff_prover]
    fn op_rlc(&mut self, ports: &Vec<u8>)
        requires
            dispatch_inv(old(self)@),
            exec_ok(old(self)@, 0x07, ports@),
        ensures
            ({
                let e = spec_execute_misc_0(old(self)@, 0x07, ports@);
                &&& final(self)@ == e.cpu
                &&& e.ports == ports@
                &&& e.audio == Seq::<AudioAction>::empty()
            }),
            final(self)@.memory.len() == old(self)@.memory.len(),
            final(self)@.shift_register.amount <= 7,
    {
        proof {
            reveal(spec_execute_misc_0);
        }
        alu::rotate_left(self);
            
    }
    #[verifier::rlimit(100)]
    #[verifier::spinoff_prover]
    fn op_dad_b(&mut self, ports: &Vec<u8>)
        requires
            dispatch_inv(old(self)@),
            exec_ok(old(self)@, 0x09, ports@),
        ensures
            ({
                let e = spec_execute_misc_0(old(self)@, 0x09, ports@);
                &&& final(self)@ == e.cpu
                &&& e.ports == ports@
                &&& e.audio == Seq::<AudioAction>::empty()
            }),
            final(self)@.memory.len() == old(self)@.memory.len(),
            final(self)@.shift_register.amount <= 7,
    {
        proof {
            reveal(spec_execute_misc_0);
        }
        let hi: u8 = self.b;
        let lo: u8 = self.c;
        alu::double_add(self, hi, lo);
            
    }
    #[verifier::rlimit(100)]
    #[verifier::spinoff_prover]
    fn op_ldax_b(&mut self, ports: &Vec<u8>)
        requires
            dispatch_inv(old(self)@),
            exec_ok(old(self)@, 0x0a, ports@),
        ensures
            ({
                let e = spec_execute_misc_0(old(self)@, 0x0a, ports@);
                &&& final(self)@ == e.cpu
                &&& e.ports == ports@
                &&& e.audio == Seq::<AudioAction>::empty()
            }),
            final(self)@.memory.len() == old(self)@.memory.len(),
            final(self)@.shift_register.amount <= 7,
    {
        proof {
            reveal(spec_execute_misc_0);
        }
        let max: u16 = (self.memory.len() - 1) as u16;
        let mut hi: u8 = self.b;
        let mut lo: u8 = self.c;
        let address: u16 = addressing::get_address_from_pair(&mut hi, &mut lo, max);
        self.b = hi;
        self.c = lo;
        self.a = self.memory[address as usize];
            
    }
    #[verifier::rlimit(100)]
    #[verifier::spinoff_prover]
    fn op_dcx_b(&mut self, ports: &Vec<u8>)
        requires
            dispatch_inv(old(self)@),
            exec_ok(old(self)@, 0x0b, ports@),
        ensures
            ({
                let e = spec_execute_misc_0(old(self)@, 0x0b, ports@);
                &&& final(self)@ == e.cpu
                &&& e.ports == ports@
                &&& e.audio == Seq::<AudioAction>::empty()
            }),
            final(self)@.memory.len() == old(self)@.memory.len(),
            final(self)@.shift_register.amount <= 7,
    {
        proof {
            reveal(spec_execute_misc_0);
        }
        let address: u32 = (((self.b as u16) << 8) | (self.c as u16)) as u32;
        let pair: (u8, u8) = addressing::seperate_16bit_pair(
            #[verifier::truncate] ((address + alu::get_twos_complement(1) as u32) as u16),
        );
        self.b = pair.0;
        self.c = pair.1;
            
    }
    #[verifier::rlimit(100)]
    #[verifier::spinoff_prover]
    fn op_inr_c(&mut self, ports: &Vec<u8>)
        requires
            dispatch_inv(old(self)@),
            exec_ok(old(self)@, 0x0c, ports@),
        ensures
            ({
                let e = spec_execute_misc_0(old(self)@, 0x0c, ports@);
                &&& final(self)@ == e.cpu
                &&& e.ports == ports@
                &&& e.audio == Seq::<AudioAction>::empty()
            }),
            final(self)@.memory.len() == old(self)@.memory.len(),
            final(self)@.shift_register.amount <= 7,
    {
        proof {
            reveal(spec_execute_misc_0);
        }
        let previous: u8 = self.c;
        let answer: u16 = (previous as u16) + 1;
        flags::step_register_flags(self, answer, previous, 0x01);
        self.c = #[verifier::truncate] (answer as u8);
            
    }
    #[verifier::rlimit(100)]
    #[verifier::spinoff_prover]
    fn op_dcr_c(&mut self, ports: &Vec<u8>)
        requires
            dispatch_inv(old(self)@),
            exec_ok(old(self)@, 0x0d, ports@),
        ensures
            ({
                let e = spec_execute_misc_0(old(self)@, 0x0d, ports@);
                &&& final(self)@ == e.cpu
                &&& e.ports == ports@
                &&& e.audio == Seq::<AudioAction>::empty()
            }),
            final(self)@.memory.len() == old(self)@.memory.len(),
            final(self)@.shift_register.amount <= 7,
    {
        proof {
            reveal(spec_execute_misc_0);
        }
        let previous: u8 = self.c;
        let answer: u16 = #[verifier::truncate] (((previous as u32
            + alu::get_twos_complement(1) as u32)) as u16);
        flags::step_register_flags(self, answer, previous, 0xff);
        self.c = #[verifier::truncate] (answer as u8);
            
    }
    #[verifier::rlimit(100)]
    #[verifier::spinoff_prover]
    fn op_mvi_c(&mut self, ports: &Vec<u8>)
        requires
            dispatch_inv(old(self)@),
            exec_ok(old(self)@, 0x0e, ports@),
        ensures
            ({
                let e = spec_execute_misc_0(old(self)@, 0x0e, ports@);
                &&& final(self)@ == e.cpu
                &&& e.ports == ports@
                &&& e.audio == Seq::<AudioAction>::empty()
            }),
            final(self)@.memory.len() == old(self)@.memory.len(),
            final(self)@.shift_register.amount <= 7,
    {
        proof {
            reveal(spec_execute_misc_0);
        }
        self.c = self.memory[self.program_counter as usize];
        self.program_counter = self.program_counter + 1;
            
    }
    #[verifier::rlimit(100)]
    #[verifier::spinoff_prover]
    fn op_rrc(&mut self, ports: &Vec<u8>)
        requires
            dispatch_inv(old(self)@),
            exec_ok(old(self)@, 0x0f, ports@),
        ensures
            ({
                let e = spec_execute_misc_0(old(self)@, 0x0f, ports@);
                &&& final(self)@ == e.cpu
                &&& e.ports == ports@
                &&& e.audio == Seq::<AudioAction>::empty()
            }),
            final(self)@.memory.len() == old(self)@.memory.len(),
            final(self)@.shift_register.amount <= 7,
    {
        proof {
            reveal(spec_execute_misc_0);
        }
        alu::rotate_right(self);
            
    }
    #[verifier::rlimit(100)]
    #[verifier::spinoff_prover]
    fn op_lxi_d(&mut self, ports: &Vec<u8>)
        requires
            dispatch_inv(old(self)@),
            exec_ok(old(self)@, 0x11, ports@),
        ensures
            ({
                let e = spec_execute_misc_1(old(self)@, 0x11, ports@);
                &&& final(self)@ == e.cpu
                &&& e.ports == ports@
                &&& e.audio == Seq::<AudioAction>::empty()
            }),
            final(self)@.memory.len() == old(self)@.memory.len(),
            final(self)@.shift_register.amount <= 7,
    {
        proof {
            reveal(spec_execute_misc_1);
        }
        self.d = self.memory[(self.program_counter + 1) as usize];
        self.e = self.memory[self.program_counter as usize];
        self.program_counter = self.program_counter + 2;
            
    }
    #[verifier::rlimit(100)]
    #[verifier::spinoff_prover]
    fn op_stax_d(&mut self, ports: &Vec<u8>)
        requires
            dispatch_inv(old(self)@),
            exec_ok(old(self)@, 0x12, ports@),
        ensures
            ({
                let e = spec_execute_misc_1(old(self)@, 0x12, ports@);
                &&& final(self)@ == e.cpu
                &&& e.ports == ports@
                &&& e.audio == Seq::<AudioAction>::empty()
            }),
            final(self)@.memory.len() == old(self)@.memory.len(),
            final(self)@.shift_register.amount <= 7,
    {
        proof {
            reveal(spec_execute_misc_1);
        }
        let hv: u8 = self.d;
        let lv: u8 = self.e;
        let value: u8 = self.a;
        addressing::write_to_memory(self, hv, lv, value);
            
    }
    #[verifier::rlimit(100)]
    #[verifier::spinoff_prover]
    fn op_inx_d(&mut self, ports: &Vec<u8>)
        requires
            dispatch_inv(old(self)@),
            exec_ok(old(self)@, 0x13, ports@),
        ensures
            ({
                let e = spec_execute_misc_1(old(self)@, 0x13, ports@);
                &&& final(self)@ == e.cpu
                &&& e.ports == ports@
                &&& e.audio == Seq::<AudioAction>::empty()
            }),
            final(self)@.memory.len() == old(self)@.memory.len(),
            final(self)@.shift_register.amount <= 7,
    {
        proof {
            reveal(spec_execute_misc_1);
        }
        let address: u32 = (((self.d as u16) << 8) | (self.e as u16)) as u32;
        let pair: (u8, u8) = addressing::seperate_16bit_pair(
            #[verifier::truncate] ((address + 1) as u16),
        );
        self.d = pair.0;
        self.e = pair.1;
            
    }
    #[verifier::rlimit(100)]
    #[verifier::spinoff_prover]
    fn op_inr_d(&mut self, ports: &Vec<u8>)
        requires
            dispatch_inv(old(self)@),
            exec_ok(old(self)@, 0x14, ports@),
        ensures
            ({
                let e = spec_execute_misc_1(old(self)@, 0x14, ports@);
                &&& final(self)@ == e.cpu
                &&& e.ports == ports@
                &&& e.audio == Seq::<AudioAction>::empty()
            }),
            final(self)@.memory.len() == old(self)@.memory.len(),
            final(self)@.shift_register.amount <= 7,
    {
        proof {
            reveal(spec_execute_misc_1);
        }
        let previous: u8 = self.d;
        let answer: u16 = (previous as u16) + 1;
        flags::step_register_flags(self, answer, previous, 0x01);
        self.d = #[verifier::truncate] (answer as u8);
            
    }
    #[verifier::rlimit(100)]
    #[verifier::spinoff_prover]
    fn op_dcr_d(&mut self, ports: &Vec<u8>)
        requires
            dispatch_inv(old(self)@),
            exec_ok(old(self)@, 0x15, ports@),
        ensures
            ({
                let e = spec_execute_misc_1(old(self)@, 0x15, ports@);
                &&& final(self)@ == e.cpu
                &&& e.ports == ports@
                &&& e.audio == Seq::<AudioAction>::empty()
            }),
            final(self)@.memory.len() == old(self)@.memory.len(),
            final(self)@.shift_register.amount <= 7,
    {
        proof {
            reveal(spec_execute_misc_1);
        }
        let previous: u8 = self.d;
        let answer: u16 = #[verifier::truncate] (((previous as u32
            + alu::get_twos_complement(1) as u32)) as u16);
        flags::step_register_flags(self, answer, previous, 0xff);
        self.d = #[verifier::truncate] (answer as u8);
            
    }
    #[verifier::rlimit(100)]
    #[verifier::spinoff_prover]
    fn op_mvi_d(&mut self, ports: &Vec<u8>)
        requires
            dispatch_inv(old(self)@),
            exec_ok(old(self)@, 0x16, ports@),
        ensures
            ({
                let e = spec_execute_misc_1(old(self)@, 0x16, ports@);
                &&& final(self)@ == e.cpu
                &&& e.ports == ports@
                &&& e.audio == Seq::<AudioAction>::empty()
            }),
            final(self)@.memory.len() == old(self)@.memory.len(),
            final(self)@.shift_register.amount <= 7,
    {
        proof {
            reveal(spec_execute_misc_1);
        }
        self.d = self.memory[self.program_counter as usize];
        self.program_counter = self.program_counter + 1;
            
    }
    #[verifier::rlimit(100)]
    #[verifier::spinoff_prover]
    fn op_ral(&mut self, ports: &Vec<u8>)
        requires
            dispatch_inv(old(self)@),
            exec_ok(old(self)@, 0x17, ports@),
        ensures
            ({
                let e = spec_execute_misc_1(old(self)@, 0x17, ports@);
                &&& final(self)@ == e.cpu
                &&& e.ports == ports@
                &&& e.audio == Seq::<AudioAction>::empty()
            }),
            final(self)@.memory.len() == old(self)@.memory.len(),
            final(self)@.shift_register.amount <= 7,
    {
        proof {
            reveal(spec_execute_misc_1);
        }
        alu::rotate_left_through_carry(self);
            
    }
    #[verifier::rlimit(100)]
    #[verifier::spinoff_prover]
    fn op_dad_d(&mut self, ports: &Vec<u8>)
        requires
            dispatch_inv(old(self)@),
            exec_ok(old(self)@, 0x19, ports@),
        ensures
            ({
                let e = spec_execute_misc_1(old(self)@, 0x19, ports@);
                &&& final(self)@ == e.cpu
                &&& e.ports == ports@
                &&& e.audio == Seq::<AudioAction>::empty()
            }),
            final(self)@.memory.len() == old(self)@.memory.len(),
            final(self)@.shift_register.amount <= 7,
    {
        proof {
            reveal(spec_execute_misc_1);
        }
        let hi: u8 = self.d;
        let lo: u8 = self.e;
        alu::double_add(self, hi, lo);
            
    }
    #[verifier::rlimit(100)]
    #[verifier::spinoff_prover]
    fn op_ldax_d(&mut self, ports: &Vec<u8>)
        requires
            dispatch_inv(old(self)@),
            exec_ok(old(self)@, 0x1a, ports@),
        ensures
            ({
                let e = spec_execute_misc_1(old(self)@, 0x1a, ports@);
                &&& final(self)@ == e.cpu
                &&& e.ports == ports@
                &&& e.audio == Seq::<AudioAction>::empty()
            }),
            final(self)@.memory.len() == old(self)@.memory.len(),
            final(self)@.shift_register.amount <= 7,
    {
        proof {
            reveal(spec_execute_misc_1);
        }
        let max: u16 = (self.memory.len() - 1) as u16;
        let mut hi: u8 = self.d;
        let mut lo: u8 = self.e;
        let address: u16 = addressing::get_address_from_pair(&mut hi, &mut lo, max);
        self.d = hi;
        self.e = lo;
        self.a = self.memory[address as usize];
            
    }
    #[verifier::rlimit(100)]
    #[verifier::spinoff_prover]
    fn op_dcx_d(&mut self, ports: &Vec<u8>)
        requires
            dispatch_inv(old(self)@),
            exec_ok(old(self)@, 0x1b, ports@),
        ensures
            ({
                let e = spec_execute_misc_1(old(self)@, 0x1b, ports@);
                &&& final(self)@ == e.cpu
                &&& e.ports == ports@
                &&& e.audio == Seq::<AudioAction>::empty()
            }),
            final(self)@.memory.len() == old(self)@.memory.len(),
            final(self)@.shift_register.amount <= 7,
    {
        proof {
            reveal(spec_execute_misc_1);
        }
        let address: u32 = (((self.d as u16) << 8) | (self.e as u16)) as u32;
        let pair: (u8, u8) = addressing::seperate_16bit_pair(
            #[verifier::truncate] ((address + alu::get_twos_complement(1) as u32) as u16),
        );
        self.d = pair.0;
        self.e = pair.1;
            
    }
    #[verifier::rlimit(100)]
    #[verifier::spinoff_prover]
    fn op_inr_e(&mut self, ports: &Vec<u8>)
        requires
            dispatch_inv(old(self)@),
            exec_ok(old(self)@, 0x1c, ports@),
        ensures
            ({
                let e = spec_execute_misc_1(old(self)@, 0x1c, ports@);
                &&& final(self)@ == e.cpu
                &&& e.ports == ports@
                &&& e.audio == Seq::<AudioAction>::empty()
            }),
            final(self)@.memory.len() == old(self)@.memory.len(),
            final(self)@.shift_register.amount <= 7,
    {
        proof {
            reveal(spec_execute_misc_1);
        }
        let previous: u8 = self.e;
        let answer: u16 = (previous as u16) + 1;
        flags::step_register_flags(self, answer, previous, 0x01);
        self.e = #[verifier::truncate] (answer as u8);
            
    }
    #[verifier::rlimit(100)]
    #[verifier::spinoff_prover]
    fn op_dcr_e(&mut self, ports: &Vec<u8>)
        requires
            dispatch_inv(old(self)@),
            exec_ok(old(self)@, 0x1d, ports@),
        ensures
            ({
                let e = spec_execute_misc_1(old(self)@, 0x1d, ports@);
                &&& final(self)@ == e.cpu
                &&& e.ports == ports@
                &&& e.audio == Seq::<AudioAction>::empty()
            }),
            final(self)@.memory.len() == old(self)@.memory.len(),
            final(self)@.shift_register.amount <= 7,
    {
        proof {
            reveal(spec_execute_misc_1);
        }
        let previous: u8 = self.e;
        let answer: u16 = #[verifier::truncate] (((previous as u32
            + alu::get_twos_complement(1) as u32)) as u16);
        flags::step_register_flags(self, answer, previous, 0xff);
        self.e = #[verifier::truncate] (answer as u8);
            
    }
    #[verifier::rlimit(100)]
    #[verifier::spinoff_prover]
    fn op_mvi_e(&mut self, ports: &Vec<u8>)
        requires
            dispatch_inv(old(self)@),
            exec_ok(old(self)@, 0x1e, ports@),
        ensures
            ({
                let e = spec_execute_misc_1(old(self)@, 0x1e, ports@);
                &&& final(self)@ == e.cpu
                &&& e.ports == ports@
                &&& e.audio == Seq::<AudioAction>::empty()
            }),
            final(self)@.memory.len() == old(self)@.memory.len(),
            final(self)@.shift_register.amount <= 7,
    {
        proof {
            reveal(spec_execute_misc_1);
        }
        self.e = self.memory[self.program_counter as usize];
        self.program_counter = self.program_counter + 1;
            
    }
    #[verifier::rlimit(100)]
    #[verifier::spinoff_prover]
    fn op_rar(&mut self, ports: &Vec<u8>)
        requires
            dispatch_inv(old(self)@),
            exec_ok(old(self)@, 0x1f, ports@),
        ensures
            ({
                let e = spec_execute_misc_1(old(self)@, 0x1f, ports@);
                &&& final(self)@ == e.cpu
                &&& e.ports == ports@
                &&& e.audio == Seq::<AudioAction>::empty()
            }),
            final(self)@.memory.len() == old(self)@.memory.len(),
            final(self)@.shift_register.amount <= 7,
    {
        proof {
            reveal(spec_execute_misc_1);
        }
        alu::rotate_right_through_carry(self);
            
    }
    #[verifier::rlimit(100)]
    #[verifier::spinoff_prover]
    fn op_lxi_h(&mut self, ports: &Vec<u8>)
        requires
            dispatch_inv(old(self)@),
            exec_ok(old(self)@, 0x21, ports@),
        ensures
            ({
                let e = spec_execute_misc_2(old(self)@, 0x21, ports@);
                &&& final(self)@ == e.cpu
                &&& e.ports == ports@
                &&& e.audio == Seq::<AudioAction>::empty()
            }),
            final(self)@.memory.len() == old(self)@.memory.len(),
            final(self)@.shift_register.amount <= 7,
    {
        proof {
            reveal(spec_execute_misc_2);
        }
        self.h = self.memory[(self.program_counter + 1) as usize];
        self.l = self.memory[self.program_counter as usize];
        self.program_counter = self.program_counter + 2;
            
    }
    #[verifier::rlimit(100)]
    #[verifier::spinoff_prover]
    fn op_shld(&mut self, ports: &Vec<u8>)
        requires
            dispatch_inv(old(self)@),
            exec_ok(old(self)@, 0x22, ports@),
        ensures
            ({
                let e = spec_execute_misc_2(old(self)@, 0x22, ports@);
                &&& final(self)@ == e.cpu
                &&& e.ports == ports@
                &&& e.audio == Seq::<AudioAction>::empty()
            }),
            final(self)@.memory.len() == old(self)@.memory.len(),
            final(self)@.shift_register.amount <= 7,
    {
        proof {
            reveal(spec_execute_misc_2);
        }
        let first_byte: u8 = self.memory[(self.program_counter + 1) as usize];
        let second_byte: u8 = self.memory[self.program_counter as usize];
        let hv: u8 = self.h;
        addressing::write_to_memory(self, first_byte, second_byte + 1, hv);
        let lv: u8 = self.l;
        addressing::write_to_memory(self, first_byte, second_byte, lv);
        self.program_counter = self.program_counter + 2;
            
    }
    #[verifier::rlimit(100)]
    #[verifier::spinoff_prover]
    fn op_inx_h(&mut self, ports: &Vec<u8>)
        requires
            dispatch_inv(old(self)@),
            exec_ok(old(self)@, 0x23, ports@),
        ensures
            ({
                let e = spec_execute_misc_2(old(self)@, 0x23, ports@);
                &&& final(self)@ == e.cpu
                &&& e.ports == ports@
                &&& e.audio == Seq::<AudioAction>::empty()
            }),
            final(self)@.memory.len() == old(self)@.memory.len(),
            final(self)@.shift_register.amount <= 7,
    {
        proof {
            reveal(spec_execute_misc_2);
        }
        let address: u32 = (((self.h as u16) << 8) | (self.l as u16)) as u32;
        let pair: (u8, u8) = addressing::seperate_16bit_pair(
            #[verifier::truncate] ((address + 1) as u16),
        );
        self.h = pair.0;
        self.l = pair.1;
            
    }
    #[verifier::rlimit(100)]
    #[verifier::spinoff_prover]
    fn op_inr_h(&mut self, ports: &Vec<u8>)
        requires
            dispatch_inv(old(self)@),
            exec_ok(old(self)@, 0x24, ports@),
        ensures
            ({
                let e = spec_execute_misc_2(old(self)@, 0x24, ports@);
                &&& final(self)@ == e.cpu
                &&& e.ports == ports@
                &&& e.audio == Seq::<AudioAction>::empty()
            }),
            final(self)@.memory.len() == old(self)@.memory.len(),
            final(self)@.shift_register.amount <= 7,
    {
        proof {
            reveal(spec_execute_misc_2);
        }
        let previous: u8 = self.h;
        let answer: u16 = (previous as u16) + 1;
        flags::step_register_flags(self, answer, previous, 0x01);
        self.h = #[verifier::truncate] (answer as u8);
            
    }
    #[verifier::rlimit(100)]
    #[verifier::spinoff_prover]
    fn op_dcr_h(&mut self, ports: &Vec<u8>)
        requires
            dispatch_inv(old(self)@),
            exec_ok(old(self)@, 0x25, ports@),
        ensures
            ({
                let e = spec_execute_misc_2(old(self)@, 0x25, ports@);
                &&& final(self)@ == e.cpu
                &&& e.ports == ports@
                &&& e.audio == Seq::<AudioAction>::empty()
            }),
            final(self)@.memory.len() == old(self)@.memory.len(),
            final(self)@.shift_register.amount <= 7,
    {
        proof {
            reveal(spec_execute_misc_2);
        }
        let previous: u8 = self.h;
        let answer: u16 = #[verifier::truncate] (((previous as u32
            + alu::get_twos_complement(1) as u32)) as u16);
        flags::step_register_flags(self, answer, previous, 0xff);
        self.h = #[verifier::truncate] (answer as u8);
            
    }
    #[verifier::rlimit(100)]
    #[verifier::spinoff_prover]
    fn op_mvi_h(&mut self, ports: &Vec<u8>)
        requires
            dispatch_inv(old(self)@),
            exec_ok(old(self)@, 0x26, ports@),
        ensures
            ({
                let e = spec_execute_misc_2(old(self)@, 0x26, ports@);
                &&& final(self)@ == e.cpu
                &&& e.ports == ports@
                &&& e.audio == Seq::<AudioAction>::empty()
            }),
            final(self)@.memory.len() == old(self)@.memory.len(),
            final(self)@.shift_register.amount <= 7,
    {
        proof {
            reveal(spec_execute_misc_2);
        }
        self.h = self.memory[self.program_counter as usize];
        self.program_counter = self.program_counter + 1;
            
    }
    #[verifier::rlimit(100)]
    #[verifier::spinoff_prover]
    fn op_daa(&mut self, ports: &Vec<u8>)
        requires
            dispatch_inv(old(self)@),
            exec_ok(old(self)@, 0x27, ports@),
        ensures
            ({
                let e = spec_execute_misc_2(old(self)@, 0x27, ports@);
                &&& final(self)@ == e.cpu
                &&& e.ports == ports@
                &&& e.audio == Seq::<AudioAction>::empty()
            }),
            final(self)@.memory.len() == old(self)@.memory.len(),
            final(self)@.shift_register.amount <= 7,
    {
        proof {
            reveal(spec_execute_misc_2);
        }
        alu::decimal_adjust(self);
            
    }
    #[verifier::rlimit(100)]
    #[verifier::spinoff_prover]
    fn op_dad_h(&mut self, ports: &Vec<u8>)
        requires
            dispatch_inv(old(self)@),
            exec_ok(old(self)@, 0x29, ports@),
        ensures
            ({
                let e = spec_execute_misc_2(old(self)@, 0x29, ports@);
                &&& final(self)@ == e.cpu
                &&& e.ports == ports@
                &&& e.audio == Seq::<AudioAction>::empty()
            }),
            final(self)@.memory.len() == old(self)@.memory.len(),
            final(self)@.shift_register.amount <= 7,
    {
        proof {
            reveal(spec_execute_misc_2);
        }
        let hi: u8 = self.h;
        let lo: u8 = self.l;
        alu::double_add(self, hi, lo);
            
    }
    #[verifier::rlimit(100)]
    #[verifier::spinoff_prover]
    fn op_lhld(&mut self, ports: &Vec<u8>)
        requires
            dispatch_inv(old(self)@),
            exec_ok(old(self)@, 0x2a, ports@),
        ensures
            ({
                let e = spec_execute_misc_2(old(self)@, 0x2a, ports@);
                &&& final(self)@ == e.cpu
                &&& e.ports == ports@
                &&& e.audio == Seq::<AudioAction>::empty()
            }),
            final(self)@.memory.len() == old(self)@.memory.len(),
            final(self)@.shift_register.amount <= 7,
    {
        proof {
            reveal(spec_execute_misc_2);
        }
        let mut hi: u8 = self.memory[(self.program_counter + 1) as usize];
        let mut lo: u8 = self.memory[self.program_counter as usize];
        let address: u16 = addressing::get_address_from_pair(
            &mut hi,
            &mut lo,
            (self.memory.len() - 1) as u16,
        );
        self.h = self.memory[(address + 1) as usize];
        self.l = self.memory[address as usize];
        self.program_counter = self.program_counter + 2;
            
    }
    #[verifier::rlimit(100)]
    #[verifier::spinoff_prover]
    fn op_dcx_h(&mut self, ports: &Vec<u8>)
        requires
            dispatch_inv(old(self)@),
            exec_ok(old(self)@, 0x2b, ports@),
        ensures
            ({
                let e = spec_execute_misc_2(old(self)@, 0x2b, ports@);
                &&& final(self)@ == e.cpu
                &&& e.ports == ports@
                &&& e.audio == Seq::<AudioAction>::empty()
            }),
            final(self)@.memory.len() == old(self)@.memory.len(),
            final(self)@.shift_register.amount <= 7,
    {
        proof {
            reveal(spec_execute_misc_2);
        }
        let address: u32 = (((self.h as u16) << 8) | (self.l as u16)) as u32;
        let pair: (u8, u8) = addressing::seperate_16bit_pair(
            #[verifier::truncate] ((address + alu::get_twos_complement(1) as u32) as u16),
        );
        self.h = pair.0;
        self.l = pair.1;
            
    }
    #[verifier::rlimit(100)]
    #[verifier::spinoff_prover]
    fn op_inr_l(&mut self, ports: &Vec<u8>)
        requires
            dispatch_inv(old(self)@),
            exec_ok(old(self)@, 0x2c, ports@),
        ensures
            ({
                let e = spec_execute_misc_2(old(self)@, 0x2c, ports@);
                &&& final(self)@ == e.cpu
                &&& e.ports == ports@
                &&& e.audio == Seq::<AudioAction>::empty()
            }),
            final(self)@.memory.len() == old(self)@.memory.len(),
            final(self)@.shift_register.amount <= 7,
    {
        proof {
            reveal(spec_execute_misc_2);
        }
        let previous: u8 = self.l;
        let answer: u16 = (previous as u16) + 1;
        flags::step_register_flags(self, answer, previous, 0x01);
        self.l = #[verifier::truncate] (answer as u8);
            
    }
    #[verifier::rlimit(100)]
    #[verifier::spinoff_prover]
    fn op_dcr_l(&mut self, ports: &Vec<u8>)
        requires
            dispatch_inv(old(self)@),
            exec_ok(old(self)@, 0x2d, ports@),
        ensures
            ({
                let e = spec_execute_misc_2(old(self)@, 0x2d, ports@);
                &&& final(self)@ == e.cpu
                &&& e.ports == ports@
                &&& e.audio == Seq::<AudioAction>::empty()
            }),
            final(self)@.memory.len() == old(self)@.memory.len(),
            final(self)@.shift_register.amount <= 7,
    {
        proof {
            reveal(spec_execute_misc_2);
        }
        let previous: u8 = self.l;
        let answer: u16 = #[verifier::truncate] (((previous as u32
            + alu::get_twos_complement(1) as u32)) as u16);
        flags::step_register_flags(self, answer, previous, 0xff);
        self.l = #[verifier::truncate] (answer as u8);
            
    }
    #[verifier::rlimit(100)]
    #[verifier::spinoff_prover]
    fn op_mvi_l(&mut self, ports: &Vec<u8>)
        requires
            dispatch_inv(old(self)@),
            exec_ok(old(self)@, 0x2e, ports@),
        ensures
            ({
                let e = spec_execute_misc_2(old(self)@, 0x2e, ports@);
                &&& final(self)@ == e.cpu
                &&& e.ports == ports@
                &&& e.audio == Seq::<AudioAction>::empty()
            }),
            final(self)@.memory.len() == old(self)@.memory.len(),
            final(self)@.shift_register.amount <= 7,
    {
        proof {
            reveal(spec_execute_misc_2);
        }
        self.l = self.memory[self.program_counter as usize];
        self.program_counter = self.program_counter + 1;
            
    }
    #[verifier::rlimit(100)]
    #[verifier::spinoff_prover]
    fn op_cma(&mut self, ports: &Vec<u8>)
        requires
            dispatch_inv(old(self)@),
            exec_ok(old(self)@, 0x2f, ports@),
        ensures
            ({
                let e = spec_execute_misc_2(old(self)@, 0x2f, ports@);
                &&& final(self)@ == e.cpu
                &&& e.ports == ports@
                &&& e.audio == Seq::<AudioAction>::empty()
            }),
            final(self)@.memory.len() == old(self)@.memory.len(),
            final(self)@.shift_register.amount <= 7,
    {
        proof {
            reveal(spec_execute_misc_2);
        }
        self.a = !self.a;
            
    }
    #[verifier::rlimit(100)]
    #[verifier::spinoff_prover]
    fn op_lxi_sp(&mut self, ports: &Vec<u8>)
        requires
            dispatch_inv(old(self)@),
            exec_ok(old(self)@, 0x31, ports@),
        ensures
            ({
                let e = spec_execute_misc_3(old(self)@, 0x31, ports@);
                &&& final(self)@ == e.cpu
                &&& e.ports == ports@
                &&& e.audio == Seq::<AudioAction>::empty()
            }),
            final(self)@.memory.len() == old(self)@.memory.len(),
            final(self)@.shift_register.amount <= 7,
    {
        proof {
            reveal(spec_execute_misc_3);
        }
        let mut hi: u8 = self.memory[(self.program_counter + 1) as usize];
        let mut lo: u8 = self.memory[self.program_counter as usize];
        let address: u16 = addressing::get_address_from_pair(
            &mut hi,
            &mut lo,
            (self.memory.len() - 1) as u16,
        );
        self.stack_pointer = address;
        self.program_counter = self.program_counter + 2;
            
    }
    #[verifier::rlimit(100)]
    #[verifier::spinoff_prover]
    fn op_sta(&mut self, ports: &Vec<u8>)
        requires
            dispatch_inv(old(self)@),
            exec_ok(old(self)@, 0x32, ports@),
        ensures
            ({
                let e = spec_execute_misc_3(old(self)@, 0x32, ports@);
                &&& final(self)@ == e.cpu
                &&& e.ports == ports@
                &&& e.audio == Seq::<AudioAction>::empty()
            }),
            final(self)@.memory.len() == old(self)@.memory.len(),
            final(self)@.shift_register.amount <= 7,
    {
        proof {
            reveal(spec_execute_misc_3);
        }
        let first_byte: u8 = self.memory[(self.program_counter + 1) as usize];
        let second_byte: u8 = self.memory[self.program_counter as usize];
        let value: u8 = self.a;
        addressing::write_to_memory(self, first_byte, second_byte, value);
        self.program_counter = self.program_counter + 2;
            
    }
    #[verifier::rlimit(100)]
    #[verifier::spinoff_prover]
    fn op_inx_sp(&mut self, ports: &Vec<u8>)
        requires
            dispatch_inv(old(self)@),
            exec_ok(old(self)@, 0x33, ports@),
        ensures
            ({
                let e = spec_execute_misc_3(old(self)@, 0x33, ports@);
                &&& final(self)@ == e.cpu
                &&& e.ports == ports@
                &&& e.audio == Seq::<AudioAction>::empty()
            }),
            final(self)@.memory.len() == old(self)@.memory.len(),
            final(self)@.shift_register.amount <= 7,
    {
        proof {
            reveal(spec_execute_misc_3);
        }
        self.stack_pointer = self.stack_pointer + 1;
            
    }
    #[verifier::rlimit(100)]
    #[verifier::spinoff_prover]
    fn op_inr_m(&mut self, ports: &Vec<u8>)
        requires
            dispatch_inv(old(self)@),
            exec_ok(old(self)@, 0x34, ports@),
        ensures
            ({
                let e = spec_execute_misc_3(old(self)@, 0x34, ports@);
                &&& final(self)@ == e.cpu
                &&& e.ports == ports@
                &&& e.audio == Seq::<AudioAction>::empty()
            }),
            final(self)@.memory.len() == old(self)@.memory.len(),
            final(self)@.shift_register.amount <= 7,
    {
        proof {
            reveal(spec_execute_misc_3);
        }
        let value: u8 = self.read_hl_source();
        let answer: u16 = (value as u16) + 1;
        flags::step_register_flags(self, answer, value, 0x01);
        let hv: u8 = self.h;
        let lv: u8 = self.l;
        addressing::write_to_memory(self, hv, lv, #[verifier::truncate] (answer as u8));
            
    }
    #[verifier::rlimit(100)]
    #[verifier::spinoff_prover]
    fn op_dcr_m(&mut self, ports: &Vec<u8>)
        requires
            dispatch_inv(old(self)@),
            exec_ok(old(self)@, 0x35, ports@),
        ensures
            ({
                let e = spec_execute_misc_3(old(self)@, 0x35, ports@);
                &&& final(self)@ == e.cpu
                &&& e.ports == ports@
                &&& e.audio == Seq::<AudioAction>::empty()
            }),
            final(self)@.memory.len() == old(self)@.memory.len(),
            final(self)@.shift_register.amount <= 7,
    {
        proof {
            reveal(spec_execute_misc_3);
        }
        let value: u8 = self.read_hl_source();
        let answer: u16 = #[verifier::truncate] (((value as u32
            + alu::get_twos_complement(1) as u32)) as u16);
        flags::step_register_flags(self, answer, value, 0xff);
        let hv: u8 = self.h;
        let lv: u8 = self.l;
        addressing::write_to_memory(self, hv, lv, #[verifier::truncate] (answer as u8));
            
    }
    #[verifier::rlimit(100)]
    #[verifier::spinoff_prover]
    fn op_mvi_m(&mut self, ports: &Vec<u8>)
        requires
            dispatch_inv(old(self)@),
            exec_ok(old(self)@, 0x36, ports@),
        ensures
            ({
                let e = spec_execute_misc_3(old(self)@, 0x36, ports@);
                &&& final(self)@ == e.cpu
                &&& e.ports == ports@
                &&& e.audio == Seq::<AudioAction>::empty()
            }),
            final(self)@.memory.len() == old(self)@.memory.len(),
            final(self)@.shift_register.amount <= 7,
    {
        proof {
            reveal(spec_execute_misc_3);
        }
        let value: u8 = self.memory[self.program_counter as usize];
        let hv: u8 = self.h;
        let lv: u8 = self.l;
        addressing::write_to_memory(self, hv, lv, value);
        self.program_counter = self.program_counter + 1;
            
    }
    #[verifier::rlimit(100)]
    #[verifier::spinoff_prover]
    fn op_stc(&mut self, ports: &Vec<u8>)
        requires
            dispatch_inv(old(self)@),
            exec_ok(old(self)@, 0x37, ports@),
        ensures
            ({
                let e = spec_execute_misc_3(old(self)@, 0x37, ports@);
                &&& final(self)@ == e.cpu
                &&& e.ports == ports@
                &&& e.audio == Seq::<AudioAction>::empty()
            }),
            final(self)@.memory.len() == old(self)@.memory.len(),
            final(self)@.shift_register.amount <= 7,
    {
        proof {
            reveal(spec_execute_misc_3);
        }
        self.flags.carry = true;
            
    }
    #[verifier::rlimit(100)]
    #[verifier::spinoff_prover]
    fn op_dad_sp(&mut self, ports: &Vec<u8>)
        requires
            dispatch_inv(old(self)@),
            exec_ok(old(self)@, 0x39, ports@),
        ensures
            ({
                let e = spec_execute_misc_3(old(self)@, 0x39, ports@);
                &&& final(self)@ == e.cpu
                &&& e.ports == ports@
                &&& e.audio == Seq::<AudioAction>::empty()
            }),
            final(self)@.memory.len() == old(self)@.memory.len(),
            final(self)@.shift_register.amount <= 7,
    {
        proof {
            reveal(spec_execute_misc_3);
        }
        let split: (u8, u8) = addressing::seperate_16bit_pair(self.stack_pointer);
        alu::double_add(self, split.0, split.1);
            
    }
    #[verifier::rlimit(100)]
    #[verifier::spinoff_prover]
    fn op_lda(&mut self, ports: &Vec<u8>)
        requires
            dispatch_inv(old(self)@),
            exec_ok(old(self)@, 0x3a, ports@),
        ensures
            ({
                let e = spec_execute_misc_3(old(self)@, 0x3a, ports@);
                &&& final(self)@ == e.cpu
                &&& e.ports == ports@
                &&& e.audio == Seq::<AudioAction>::empty()
            }),
            final(self)@.memory.len() == old(self)@.memory.len(),
            final(self)@.shift_register.amount <= 7,
    {
        proof {
            reveal(spec_execute_misc_3);
        }
        let mut hi: u8 = self.memory[(self.program_counter + 1) as usize];
        let mut lo: u8 = self.memory[self.program_counter as usize];
        let address: u16 = addressing::get_address_from_pair(
            &mut hi,
            &mut lo,
            (self.memory.len() - 1) as u16,
        );
        self.a = self.memory[address as usize];
        self.program_counter = self.program_counter + 2;
            
    }
    #[verifier::rlimit(100)]
    #[verifier::spinoff_prover]
    fn op_dcx_sp(&mut self, ports: &Vec<u8>)
        requires
            dispatch_inv(old(self)@),
            exec_ok(old(self)@, 0x3b, ports@),
        ensures
            ({
                let e = spec_execute_misc_3(old(self)@, 0x3b, ports@);
                &&& final(self)@ == e.cpu
                &&& e.ports == ports@
                &&& e.audio == Seq::<AudioAction>::empty()
            }),
            final(self)@.memory.len() == old(self)@.memory.len(),
            final(self)@.shift_register.amount <= 7,
    {
        proof {
            reveal(spec_execute_misc_3);
        }
        self.stack_pointer = #[verifier::truncate] (((self.stack_pointer as u32
            + alu::get_twos_complement(1) as u32)) as u16);
            
    }
    #[verifier::rlimit(100)]
    #[verifier::spinoff_prover]
    fn op_inr_a(&mut self, ports: &Vec<u8>)
        requires
            dispatch_inv(old(self)@),
            exec_ok(old(self)@, 0x3c, ports@),
        ensures
            ({
                let e = spec_execute_misc_3(old(self)@, 0x3c, ports@);
                &&& final(self)@ == e.cpu
                &&& e.ports == ports@
                &&& e.audio == Seq::<AudioAction>::empty()
            }),
            final(self)@.memory.len() == old(self)@.memory.len(),
            final(self)@.shift_register.amount <= 7,
    {
        proof {
            reveal(spec_execute_misc_3);
        }
        let previous: u8 = self.a;
        let answer: u16 = (previous as u16) + 1;
        flags::step_register_flags(self, answer, previous, 0x01);
        self.a = #[verifier::truncate] (answer as u8);
            
    }
    #[verifier::rlimit(100)]
    #[verifier::spinoff_prover]
    fn op_dcr_a(&mut self, ports: &Vec<u8>)
        requires
            dispatch_inv(old(self)@),
            exec_ok(old(self)@, 0x3d, ports@),
        ensures
            ({
                let e = spec_execute_misc_3(old(self)@, 0x3d, ports@);
                &&& final(self)@ == e.cpu
                &&& e.ports == ports@
                &&& e.audio == Seq::<AudioAction>::empty()
            }),
            final(self)@.memory.len() == old(self)@.memory.len(),
            final(self)@.shift_register.amount <= 7,
    {
        proof {
            reveal(spec_execute_misc_3);
        }
        let previous: u8 = self.a;
        let answer: u16 = #[verifier::truncate] (((previous as u32
            + alu::get_twos_complement(1) as u32)) as u16);
        flags::step_register_flags(self, answer, previous, 0xff);
        self.a = #[verifier::truncate] (answer as u8);
            
    }
    #[verifier::rlimit(100)]
    #[verifier::spinoff_prover]
    fn op_mvi_a(&mut self, ports: &Vec<u8>)
        requires
            dispatch_inv(old(self)@),
            exec_ok(old(self)@, 0x3e, ports@),
        ensures
            ({
                let e = spec_execute_misc_3(old(self)@, 0x3e, ports@);
                &&& final(self)@ == e.cpu
                &&& e.ports == ports@
                &&& e.audio == Seq::<AudioAction>::empty()
            }),
            final(self)@.memory.len() == old(self)@.memory.len(),
            final(self)@.shift_register.amount <= 7,
    {
        proof {
            reveal(spec_execute_misc_3);
        }
        self.a = self.memory[self.program_counter as usize];
        self.program_counter = self.program_counter + 1;
            
    }
    #[verifier::rlimit(100)]
    #[verifier::spinoff_prover]
    fn op_cmc(&mut self, ports: &Vec<u8>)
        requires
            dispatch_inv(old(self)@),
            exec_ok(old(self)@, 0x3f, ports@),
        ensures
            ({
                let e = spec_execute_misc_3(old(self)@, 0x3f, ports@);
                &&& final(self)@ == e.cpu
                &&& e.ports == ports@
                &&& e.audio == Seq::<AudioAction>::empty()
            }),
            final(self)@.memory.len() == old(self)@.memory.len(),
            final(self)@.shift_register.amount <= 7,
    {
        proof {
            reveal(spec_execute_misc_3);
        }
        self.flags.carry = !self.flags.carry;
            
    }
    #[verifier::rlimit(100)]
    #[verifier::spinoff_prover]
    fn op_mov_b_b(&mut self, ports: &Vec<u8>)
        requires
            dispatch_inv(old(self)@),
            exec_ok(old(self)@, 0x40, ports@),
        ensures
            ({
                let e = spec_execute_move(old(self)@, 0x40, ports@);
                &&& final(self)@ == e.cpu
                &&& e.ports == ports@
                &&& e.audio == Seq::<AudioAction>::empty()
            }),
            final(self)@.memory.len() == old(self)@.memory.len(),
            final(self)@.shift_register.amount <= 7,
    {
        proof {
            reveal(spec_execute_move);
        }
        // no effect
    }
    #[verifier::rlimit(100)]
    #[verifier::spinoff_prover]
    fn op_mov_b_c(&mut self, ports: &Vec<u8>)
        requires
            dispatch_inv(old(self)@),
            exec_ok(old(self)@, 0x41, ports@),
        ensures
            ({
                let e = spec_execute_move(old(self)@, 0x41, ports@);
                &&& final(self)@ == e.cpu
                &&& e.ports == ports@
                &&& e.audio == Seq::<AudioAction>::empty()
            }),
            final(self)@.memory.len() == old(self)@.memory.len(),
            final(self)@.shift_register.amount <= 7,
    {
        proof {
            reveal(spec_execute_move);
        }
        self.b = self.c;
            
    }
    #[verifier::rlimit(100)]
    #[verifier::spinoff_prover]
    fn op_mov_b_d(&mut self, ports: &Vec<u8>)
        requires
            dispatch_inv(old(self)@),
            exec_ok(old(self)@, 0x42, ports@),
        ensures
            ({
                let e = spec_execute_move(old(self)@, 0x42, ports@);
                &&& final(self)@ == e.cpu
                &&& e.ports == ports@
                &&& e.audio == Seq::<AudioAction>::empty()
            }),
            final(self)@.memory.len() == old(self)@.memory.len(),
            final(self)@.shift_register.amount <= 7,
    {
        proof {
            reveal(spec_execute_move);
        }
        self.b = self.d;
            
    }
    #[verifier::rlimit(100)]
    #[verifier::spinoff_prover]
    fn op_mov_b_e(&mut self, ports: &Vec<u8>)
        requires
            dispatch_inv(old(self)@),
            exec_ok(old(self)@, 0x43, ports@),
        ensures
            ({
                let e = spec_execute_move(old(self)@, 0x43, ports@);
                &&& final(self)@ == e.cpu
                &&& e.ports == ports@
                &&& e.audio == Seq::<AudioAction>::empty()
            }),
            final(self)@.memory.len() == old(self)@.memory.len(),
            final(self)@.shift_register.amount <= 7,
    {
        proof {
            reveal(spec_execute_move);
        }
        self.b = self.e;
            
    }
    #[verifier::rlimit(100)]
    #[verifier::spinoff_prover]
    fn op_mov_b_h(&mut self, ports: &Vec<u8>)
        requires
            dispatch_inv(old(self)@),
            exec_ok(old(self)@, 0x44, ports@),
        ensures
            ({
                let e = spec_execute_move(old(self)@, 0x44, ports@);
                &&& final(self)@ == e.cpu
                &&& e.ports == ports@
                &&& e.audio == Seq::<AudioAction>::empty()
            }),
            final(self)@.memory.len() == old(self)@.memory.len(),
            final(self)@.shift_register.amount <= 7,
    {
        proof {
            reveal(spec_execute_move);
        }
        self.b = self.h;
            
    }
    #[verifier::rlimit(100)]
    #[verifier::spinoff_prover]
    fn op_mov_b_l(&mut self, ports: &Vec<u8>)
        requires
            dispatch_inv(old(self)@),
            exec_ok(old(self)@, 0x45, ports@),
        ensures
            ({
                let e = spec_execute_move(old(self)@, 0x45, ports@);
                &&& final(self)@ == e.cpu
                &&& e.ports == ports@
                &&& e.audio == Seq::<AudioAction>::empty()
            }),
            final(self)@.memory.len() == old(self)@.memory.len(),
            final(self)@.shift_register.amount <= 7,
    {
        proof {
            reveal(spec_execute_move);
        }
        self.b = self.l;
            
    }
    #[verifier::rlimit(100)]
    #[verifier::spinoff_prover]
    fn op_mov_b_m(&mut self, ports: &Vec<u8>)
        requires
            dispatch_inv(old(self)@),
            exec_ok(old(self)@, 0x46, ports@),
        ensures
            ({
                let e = spec_execute_move(old(self)@, 0x46, ports@);
                &&& final(self)@ == e.cpu
                &&& e.ports == ports@
                &&& e.audio == Seq::<AudioAction>::empty()
            }),
            final(self)@.memory.len() == old(self)@.memory.len(),
            final(self)@.shift_register.amount <= 7,
    {
        proof {
            reveal(spec_execute_move);
        }
        let value: u8 = self.read_hl_source();
        self.b = value;
            
    }
    #[verifier::rlimit(100)]
    #[verifier::spinoff_prover]
    fn op_mov_b_a(&mut self, ports: &Vec<u8>)
        requires
            dispatch_inv(old(self)@),
            exec_ok(old(self)@, 0x47, ports@),
        ensures
            ({
                let e = spec_execute_move(old(self)@, 0x47, ports@);
                &&& final(self)@ == e.cpu
                &&& e.ports == ports@
                &&& e.audio == Seq::<AudioAction>::empty()
            }),
            final(self)@.memory.len() == old(self)@.memory.len(),
            final(self)@.shift_register.amount <= 7,
    {
        proof {
            reveal(spec_execute_move);
        }
        self.b = self.a;
            
    }
    #[verifier::rlimit(100)]
    #[verifier::spinoff_prover]
    fn op_mov_c_b(&mut self, ports: &Vec<u8>)
        requires
            dispatch_inv(old(self)@),
            exec_ok(old(self)@, 0x48, ports@),
        ensures
            ({
                let e = spec_execute_move(old(self)@, 0x48, ports@);
                &&& final(self)@ == e.cpu
                &&& e.ports == ports@
                &&& e.audio == Seq::<AudioAction>::empty()
            }),
            final(self)@.memory.len() == old(self)@.memory.len(),
            final(self)@.shift_register.amount <= 7,
    {
        proof {
            reveal(spec_execute_move);
        }
        self.c = self.b;
            
    }
    #[verifier::rlimit(100)]
    #[verifier::spinoff_prover]
    fn op_mov_c_c(&mut self, ports: &Vec<u8>)
        requires
            dispatch_inv(old(self)@),
            exec_ok(old(self)@, 0x49, ports@),
        ensures
            ({
                let e = spec_execute_move(old(self)@, 0x49, ports@);
                &&& final(self)@ == e.cpu
                &&& e.ports == ports@
                &&& e.audio == Seq::<AudioAction>::empty()
            }),
            final(self)@.memory.len() == old(self)@.memory.len(),
            final(self)@.shift_register.amount <= 7,
    {
        proof {
            reveal(spec_execute_move);
        }
        // no effect
    }
    #[verifier::rlimit(100)]
    #[verifier::spinoff_prover]
    fn op_mov_c_d(&mut self, ports: &Vec<u8>)
        requires
            dispatch_inv(old(self)@),
            exec_ok(old(self)@, 0x4a, ports@),
        ensures
            ({
                let e = spec_execute_move(old(self)@, 0x4a, ports@);
                &&& final(self)@ == e.cpu
                &&& e.ports == ports@
                &&& e.audio == Seq::<AudioAction>::empty()
            }),
            final(self)@.memory.len() == old(self)@.memory.len(),
            final(self)@.shift_register.amount <= 7,
    {
        proof {
            reveal(spec_execute_move);
        }
        self.c = self.d;
            
    }
    #[verifier::rlimit(100)]
    #[verifier::spinoff_prover]
    fn op_mov_c_e(&mut self, ports: &Vec<u8>)
        requires
            dispatch_inv(old(self)@),
            exec_ok(old(self)@, 0x4b, ports@),
        ensures
            ({
                let e = spec_execute_move(old(self)@, 0x4b, ports@);
                &&& final(self)@ == e.cpu
                &&& e.ports == ports@
                &&& e.audio == Seq::<AudioAction>::empty()
            }),
            final(self)@.memory.len() == old(self)@.memory.len(),
            final(self)@.shift_register.amount <= 7,
    {
        proof {
            reveal(spec_execute_move);
        }
        self.c = self.e;
            
    }
    #[verifier::rlimit(100)]
    #[verifier::spinoff_prover]
    fn op_mov_c_h(&mut self, ports: &Vec<u8>)
        requires
            dispatch_inv(old(self)@),
            exec_ok(old(self)@, 0x4c, ports@),
        ensures
            ({
                let e = spec_execute_move(old(self)@, 0x4c, ports@);
                &&& final(self)@ == e.cpu
                &&& e.ports == ports@
                &&& e.audio == Seq::<AudioAction>::empty()
            }),
            final(self)@.memory.len() == old(self)@.memory.len(),
            final(self)@.shift_register.amount <= 7,
    {
        proof {
            reveal(spec_execute_move);
        }
        self.c = self.h;
            
    }
    #[verifier::rlimit(100)]
    #[verifier::spinoff_prover]
    fn op_mov_c_l(&mut self, ports: &Vec<u8>)
        requires
            dispatch_inv(old(self)@),
            exec_ok(old(self)@, 0x4d, ports@),
        ensures
            ({
                let e = spec_execute_move(old(self)@, 0x4d, ports@);
                &&& final(self)@ == e.cpu
                &&& e.ports == ports@
                &&& e.audio == Seq::<AudioAction>::empty()
            }),
            final(self)@.memory.len() == old(self)@.memory.len(),
            final(self)@.shift_register.amount <= 7,
    {
        proof {
            reveal(spec_execute_move);
        }
        self.c = self.l;
            
    }
    #[verifier::rlimit(100)]
    #[verifier::spinoff_prover]
    fn op_mov_c_m(&mut self, ports: &Vec<u8>)
        requires
            dispatch_inv(old(self)@),
            exec_ok(old(self)@, 0x4e, ports@),
        ensures
            ({
                let e = spec_execute_move(old(self)@, 0x4e, ports@);
                &&& final(self)@ == e.cpu
                &&& e.ports == ports@
                &&& e.audio == Seq::<AudioAction>::empty()
            }),
            final(self)@.memory.len() == old(self)@.memory.len(),
            final(self)@.shift_register.amount <= 7,
    {
        proof {
            reveal(spec_execute_move);
        }
        let value: u8 = self.read_hl_source();
        self.c = value;
            
    }
    #[verifier::rlimit(100)]
    #[verifier::spinoff_prover]
    fn op_mov_c_a(&mut self, ports: &Vec<u8>)
        requires
            dispatch_inv(old(self)@),
            exec_ok(old(self)@, 0x4f, ports@),
        ensures
            ({
                let e = spec_execute_move(old(self)@, 0x4f, ports@);
                &&& final(self)@ == e.cpu
                &&& e.ports == ports@
                &&& e.audio == Seq::<AudioAction>::empty()
            }),
            final(self)@.memory.len() == old(self)@.memory.len(),
            final(self)@.shift_register.amount <= 7,
    {
        proof {
            reveal(spec_execute_move);
        }
        self.c = self.a;
            
    }
    #[verifier::rlimit(100)]
    #[verifier::spinoff_prover]
    fn op_mov_d_b(&mut self, ports: &Vec<u8>)
        requires
            dispatch_inv(old(self)@),
            exec_ok(old(self)@, 0x50, ports@),
        ensures
            ({
                let e = spec_execute_move(old(self)@, 0x50, ports@);
                &&& final(self)@ == e.cpu
                &&& e.ports == ports@
                &&& e.audio == Seq::<AudioAction>::empty()
            }),
            final(self)@.memory.len() == old(self)@.memory.len(),
            final(self)@.shift_register.amount <= 7,
    {
        proof {
            reveal(spec_execute_move);
        }
        self.d = self.b;
            
    }
    #[verifier::rlimit(100)]
    #[verifier::spinoff_prover]
    fn op_mov_d_c(&mut self, ports: &Vec<u8>)
        requires
            dispatch_inv(old(self)@),
            exec_ok(old(self)@, 0x51, ports@),
        ensures
            ({
                let e = spec_execute_move(old(self)@, 0x51, ports@);
                &&& final(self)@ == e.cpu
                &&& e.ports == ports@
                &&& e.audio == Seq::<AudioAction>::empty()
            }),
            final(self)@.memory.len() == old(self)@.memory.len(),
            final(self)@.shift_register.amount <= 7,
    {
        proof {
            reveal(spec_execute_move);
        }
        self.d = self.c;
            
    }
    #[verifier::rlimit(100)]
    #[verifier::spinoff_prover]
    fn op_mov_d_d(&mut self, ports: &Vec<u8>)
        requires
            dispatch_inv(old(self)@),
            exec_ok(old(self)@, 0x52, ports@),
        ensures
            ({
                let e = spec_execute_move(old(self)@, 0x52, ports@);
                &&& final(self)@ == e.cpu
                &&& e.ports == ports@
                &&& e.audio == Seq::<AudioAction>::empty()
            }),
            final(self)@.memory.len() == old(self)@.memory.len(),
            final(self)@.shift_register.amount <= 7,
    {
        proof {
            reveal(spec_execute_move);
        }
        // no effect
    }
    #[verifier::rlimit(100)]
    #[verifier::spinoff_prover]
    fn op_mov_d_e(&mut self, ports: &Vec<u8>)
        requires
            dispatch_inv(old(self)@),
            exec_ok(old(self)@, 0x53, ports@),
        ensures
            ({
                let e = spec_execute_move(old(self)@, 0x53, ports@);
                &&& final(self)@ == e.cpu
                &&& e.ports == ports@
                &&& e.audio == Seq::<AudioAction>::empty()
            }),
            final(self)@.memory.len() == old(self)@.memory.len(),
            final(self)@.shift_register.amount <= 7,
    {
        proof {
            reveal(spec_execute_move);
        }
        self.d = self.e;
            
    }
    #[verifier::rlimit(100)]
    #[verifier::spinoff_prover]
    fn op_mov_d_h(&mut self, ports: &Vec<u8>)
        requires
            dispatch_inv(old(self)@),
            exec_ok(old(self)@, 0x54, ports@),
        ensures
            ({
                let e = spec_execute_move(old(self)@, 0x54, ports@);
                &&& final(self)@ == e.cpu
                &&& e.ports == ports@
                &&& e.audio == Seq::<AudioAction>::empty()
            }),
            final(self)@.memory.len() == old(self)@.memory.len(),
            final(self)@.shift_register.amount <= 7,
    {
        proof {
            reveal(spec_execute_move);
        }
        self.d = self.h;
            
    }
    #[verifier::rlimit(100)]
    #[verifier::spinoff_prover]
    fn op_mov_d_l(&mut self, ports: &Vec<u8>)
        requires
            dispatch_inv(old(self)@),
            exec_ok(old(self)@, 0x55, ports@),
        ensures
            ({
                let e = spec_execute_move(old(self)@, 0x55, ports@);
                &&& final(self)@ == e.cpu
                &&& e.ports == ports@
                &&& e.audio == Seq::<AudioAction>::empty()
            }),
            final(self)@.memory.len() == old(self)@.memory.len(),
            final(self)@.shift_register.amount <= 7,
    {
        proof {
            reveal(spec_execute_move);
        }
        self.d = self.l;
            
    }
    #[verifier::rlimit(100)]
    #[verifier::spinoff_prover]
    fn op_mov_d_m(&mut self, ports: &Vec<u8>)
        requires
            dispatch_inv(old(self)@),
            exec_ok(old(self)@, 0x56, ports@),
        ensures
            ({
                let e = spec_execute_move(old(self)@, 0x56, ports@);
                &&& final(self)@ == e.cpu
                &&& e.ports == ports@
                &&& e.audio == Seq::<AudioAction>::empty()
            }),
            final(self)@.memory.len() == old(self)@.memory.len(),
            final(self)@.shift_register.amount <= 7,
    {
        proof {
            reveal(spec_execute_move);
        }
        let value: u8 = self.read_hl_source();
        self.d = value;
            
    }
    #[verifier::rlimit(100)]
    #[verifier::spinoff_prover]
    fn op_mov_d_a(&mut self, ports: &Vec<u8>)
        requires
            dispatch_inv(old(self)@),
            exec_ok(old(self)@, 0x57, ports@),
        ensures
            ({
                let e = spec_execute_move(old(self)@, 0x57, ports@);
                &&& final(self)@ == e.cpu
                &&& e.ports == ports@
                &&& e.audio == Seq::<AudioAction>::empty()
            }),
            final(self)@.memory.len() == old(self)@.memory.len(),
            final(self)@.shift_register.amount <= 7,
    {
        proof {
            reveal(spec_execute_move);
        }
        self.d = self.a;
            
    }
    #[verifier::rlimit(100)]
    #[verifier::spinoff_prover]
    fn op_mov_e_b(&mut self, ports: &Vec<u8>)
        requires
            dispatch_inv(old(self)@),
            exec_ok(old(self)@, 0x58, ports@),
        ensures
            ({
                let e = spec_execute_move(old(self)@, 0x58, ports@);
                &&& final(self)@ == e.cpu
                &&& e.ports == ports@
                &&& e.audio == Seq::<AudioAction>::empty()
            }),
            final(self)@.memory.len() == old(self)@.memory.len(),
            final(self)@.shift_register.amount <= 7,
    {
        proof {
            reveal(spec_execute_move);
        }
        self.e = self.b;
            
    }
    #[verifier::rlimit(100)]
    #[verifier::spinoff_prover]
    fn op_mov_e_c(&mut self, ports: &Vec<u8>)
        requires
            dispatch_inv(old(self)@),
            exec_ok(old(self)@, 0x59, ports@),
        ensures
            ({
                let e = spec_execute_move(old(self)@, 0x59, ports@);
                &&& final(self)@ == e.cpu
                &&& e.ports == ports@
                &&& e.audio == Seq::<AudioAction>::empty()
            }),
            final(self)@.memory.len() == old(self)@.memory.len(),
            final(self)@.shift_register.amount <= 7,
    {
        proof {
            reveal(spec_execute_move);
        }
        self.e = self.c;
            
    }
    #[verifier::rlimit(100)]
    #[verifier::spinoff_prover]
    fn op_mov_e_d(&mut self, ports: &Vec<u8>)
        requires
            dispatch_inv(old(self)@),
            exec_ok(old(self)@, 0x5a, ports@),
        ensures
            ({
                let e = spec_execute_move(old(self)@, 0x5a, ports@);
                &&& final(self)@ == e.cpu
                &&& e.ports == ports@
                &&& e.audio == Seq::<AudioAction>::empty()
            }),
            final(self)@.memory.len() == old(self)@.memory.len(),
            final(self)@.shift_register.amount <= 7,
    {
        proof {
            reveal(spec_execute_move);
        }
        self.e = self.d;
            
    }
    #[verifier::rlimit(100)]
    #[verifier::spinoff_prover]
    fn op_mov_e_e(&mut self, ports: &Vec<u8>)
        requires
            dispatch_inv(old(self)@),
            exec_ok(old(self)@, 0x5b, ports@),
        ensures
            ({
                let e = spec_execute_move(old(self)@, 0x5b, ports@);
                &&& final(self)@ == e.cpu
                &&& e.ports == ports@
                &&& e.audio == Seq::<AudioAction>::empty()
            }),
            final(self)@.memory.len() == old(self)@.memory.len(),
            final(self)@.shift_register.amount <= 7,
    {
        proof {
            reveal(spec_execute_move);
        }
        // no effect
    }
    #[verifier::rlimit(100)]
    #[verifier::spinoff_prover]
    fn op_mov_e_h(&mut self, ports: &Vec<u8>)
        requires
            dispatch_inv(old(self)@),
            exec_ok(old(self)@, 0x5c, ports@),
        ensures
            ({
                let e = spec_execute_move(old(self)@, 0x5c, ports@);
                &&& final(self)@ == e.cpu
                &&& e.ports == ports@
                &&& e.audio == Seq::<AudioAction>::empty()
            }),
            final(self)@.memory.len() == old(self)@.memory.len(),
            final(self)@.shift_register.amount <= 7,
    {
        proof {
            reveal(spec_execute_move);
        }
        self.e = self.h;
            
    }
    #[verifier::rlimit(100)]
    #[verifier::spinoff_prover]
    fn op_mov_e_l(&mut self, ports: &Vec<u8>)
        requires
            dispatch_inv(old(self)@),
            exec_ok(old(self)@, 0x5d, ports@),
        ensures
            ({
                let e = spec_execute_move(old(self)@, 0x5d, ports@);
                &&& final(self)@ == e.cpu
                &&& e.ports == ports@
                &&& e.audio == Seq::<AudioAction>::empty()
            }),
            final(self)@.memory.len() == old(self)@.memory.len(),
            final(self)@.shift_register.amount <= 7,
    {
        proof {
            reveal(spec_execute_move);
        }
        self.e = self.l;
            
    }
    #[verifier::rlimit(100)]
    #[verifier::spinoff_prover]
    fn op_mov_e_m(&mut self, ports: &Vec<u8>)
        requires
            dispatch_inv(old(self)@),
            exec_ok(old(self)@, 0x5e, ports@),
        ensures
            ({
                let e = spec_execute_move(old(self)@, 0x5e, ports@);
                &&& final(self)@ == e.cpu
                &&& e.ports == ports@
                &&& e.audio == Seq::<AudioAction>::empty()
            }),
            final(self)@.memory.len() == old(self)@.memory.len(),
            final(self)@.shift_register.amount <= 7,
    {
        proof {
            reveal(spec_execute_move);
        }
        let value: u8 = self.read_hl_source();
        self.e = value;
            
    }
    #[verifier::rlimit(100)]
    #[verifier::spinoff_prover]
    fn op_mov_e_a(&mut self, ports: &Vec<u8>)
        requires
            dispatch_inv(old(self)@),
            exec_ok(old(self)@, 0x5f, ports@),
        ensures
            ({
                let e = spec_execute_move(old(self)@, 0x5f, ports@);
                &&& final(self)@ == e.cpu
                &&& e.ports == ports@
                &&& e.audio == Seq::<AudioAction>::empty()
            }),
            final(self)@.memory.len() == old(self)@.memory.len(),
            final(self)@.shift_register.amount <= 7,
    {
        proof {
            reveal(spec_execute_move);
        }
        self.e = self.a;
            
    }
    #[verifier::rlimit(100)]
    #[verifier::spinoff_prover]
    fn op_mov_h_b(&mut self, ports: &Vec<u8>)
        requires
            dispatch_inv(old(self)@),
            exec_ok(old(self)@, 0x60, ports@),
        ensures
            ({
                let e = spec_execute_move(old(self)@, 0x60, ports@);
                &&& final(self)@ == e.cpu
                &&& e.ports == ports@
                &&& e.audio == Seq::<AudioAction>::empty()
            }),
            final(self)@.memory.len() == old(self)@.memory.len(),
            final(self)@.shift_register.amount <= 7,
    {
        proof {
            reveal(spec_execute_move);
        }
        self.h = self.b;
            
    }
    #[verifier::rlimit(100)]
    #[verifier::spinoff_prover]
    fn op_mov_h_c(&mut self, ports: &Vec<u8>)
        requires
            dispatch_inv(old(self)@),
            exec_ok(old(self)@, 0x61, ports@),
        ensures
            ({
                let e = spec_execute_move(old(self)@, 0x61, ports@);
                &&& final(self)@ == e.cpu
                &&& e.ports == ports@
                &&& e.audio == Seq::<AudioAction>::empty()
            }),
            final(self)@.memory.len() == old(self)@.memory.len(),
            final(self)@.shift_register.amount <= 7,
    {
        proof {
            reveal(spec_execute_move);
        }
        self.h = self.c;
            
    }
    #[verifier::rlimit(100)]
    #[verifier::spinoff_prover]
    fn op_mov_h_d(&mut self, ports: &Vec<u8>)
        requires
            dispatch_inv(old(self)@),
            exec_ok(old(self)@, 0x62, ports@),
        ensures
            ({
                let e = spec_execute_move(old(self)@, 0x62, ports@);
                &&& final(self)@ == e.cpu
                &&& e.ports == ports@
                &&& e.audio == Seq::<AudioAction>::empty()
            }),
            final(self)@.memory.len() == old(self)@.memory.len(),
            final(self)@.shift_register.amount <= 7,
    {
        proof {
            reveal(spec_execute_move);
        }
        self.h = self.d;
            
    }
    #[verifier::rlimit(100)]
    #[verifier::spinoff_prover]
    fn op_mov_h_e(&mut self, ports: &Vec<u8>)
        requires
            dispatch_inv(old(self)@),
            exec_ok(old(self)@, 0x63, ports@),
        ensures
            ({
                let e = spec_execute_move(old(self)@, 0x63, ports@);
                &&& final(self)@ == e.cpu
                &&& e.ports == ports@
                &&& e.audio == Seq::<AudioAction>::empty()
            }),
            final(self)@.memory.len() == old(self)@.memory.len(),
            final(self)@.shift_register.amount <= 7,
    {
        proof {
            reveal(spec_execute_move);
        }
        self.h = self.e;
            
    }
    #[verifier::rlimit(100)]
    #[verifier::spinoff_prover]
    fn op_mov_h_h(&mut self, ports: &Vec<u8>)
        requires
            dispatch_inv(old(self)@),
            exec_ok(old(self)@, 0x64, ports@),
        ensures
            ({
                let e = spec_execute_move(old(self)@, 0x64, ports@);
                &&& final(self)@ == e.cpu
                &&& e.ports == ports@
                &&& e.audio == Seq::<AudioAction>::empty()
            }),
            final(self)@.memory.len() == old(self)@.memory.len(),
            final(self)@.shift_register.amount <= 7,
    {
        proof {
            reveal(spec_execute_move);
        }
        // no effect
    }
    #[verifier::rlimit(100)]
    #[verifier::spinoff_prover]
    fn op_mov_h_l(&mut self, ports: &Vec<u8>)
        requires
            dispatch_inv(old(self)@),
            exec_ok(old(self)@, 0x65, ports@),
        ensures
            ({
                let e = spec_execute_move(old(self)@, 0x65, ports@);
                &&& final(self)@ == e.cpu
                &&& e.ports == ports@
                &&& e.audio == Seq::<AudioAction>::empty()
            }),
            final(self)@.memory.len() == old(self)@.memory.len(),
            final(self)@.shift_register.amount <= 7,
    {
        proof {
            reveal(spec_execute_move);
        }
        self.h = self.l;
            
    }
    #[verifier::rlimit(100)]
    #[verifier::spinoff_prover]
    fn op_mov_h_m(&mut self, ports: &Vec<u8>)
        requires
            dispatch_inv(old(self)@),
            exec_ok(old(self)@, 0x66, ports@),
        ensures
            ({
                let e = spec_execute_move(old(self)@, 0x66, ports@);
                &&& final(self)@ == e.cpu
                &&& e.ports == ports@
                &&& e.audio == Seq::<AudioAction>::empty()
            }),
            final(self)@.memory.len() == old(self)@.memory.len(),
            final(self)@.shift_register.amount <= 7,
    {
        proof {
            reveal(spec_execute_move);
        }
        let value: u8 = self.read_hl_source();
        self.h = value;
            
    }
    #[verifier::rlimit(100)]
    #[verifier::spinoff_prover]
    fn op_mov_h_a(&mut self, ports: &Vec<u8>)
        requires
            dispatch_inv(old(self)@),
            exec_ok(old(self)@, 0x67, ports@),
        ensures
            ({
                let e = spec_execute_move(old(self)@, 0x67, ports@);
                &&& final(self)@ == e.cpu
                &&& e.ports == ports@
                &&& e.audio == Seq::<AudioAction>::empty()
            }),
            final(self)@.memory.len() == old(self)@.memory.len(),
            final(self)@.shift_register.amount <= 7,
    {
        proof {
            reveal(spec_execute_move);
        }
        self.h = self.a;
            
    }
    #[verifier::rlimit(100)]
    #[verifier::spinoff_prover]
    fn op_mov_l_b(&mut self, ports: &Vec<u8>)
        requires
            dispatch_inv(old(self)@),
            exec_ok(old(self)@, 0x68, ports@),
        ensures
            ({
                let e = spec_execute_move(old(self)@, 0x68, ports@);
                &&& final(self)@ == e.cpu
                &&& e.ports == ports@
                &&& e.audio == Seq::<AudioAction>::empty()
            }),
            final(self)@.memory.len() == old(self)@.memory.len(),
            final(self)@.shift_register.amount <= 7,
    {
        proof {
            reveal(spec_execute_move);
        }
        self.l = self.b;
            
    }
    #[verifier::rlimit(100)]
    #[verifier::spinoff_prover]
    fn op_mov_l_c(&mut self, ports: &Vec<u8>)
        requires
            dispatch_inv(old(self)@),
            exec_ok(old(self)@, 0x69, ports@),
        ensures
            ({
                let e = spec_execute_move(old(self)@, 0x69, ports@);
                &&& final(self)@ == e.cpu
                &&& e.ports == ports@
                &&& e.audio == Seq::<AudioAction>::empty()
            }),
            final(self)@.memory.len() == old(self)@.memory.len(),
            final(self)@.shift_register.amount <= 7,
    {
        proof {
            reveal(spec_execute_move);
        }
        self.l = self.c;
            
    }
    #[verifier::rlimit(100)]
    #[verifier::spinoff_prover]
    fn op_mov_l_d(&mut self, ports: &Vec<u8>)
        requires
            dispatch_inv(old(self)@),
            exec_ok(old(self)@, 0x6a, ports@),
        ensures
            ({
                let e = spec_execute_move(old(self)@, 0x6a, ports@);
                &&& final(self)@ == e.cpu
                &&& e.ports == ports@
                &&& e.audio == Seq::<AudioAction>::empty()
            }),
            final(self)@.memory.len() == old(self)@.memory.len(),
            final(self)@.shift_register.amount <= 7,
    {
        proof {
            reveal(spec_execute_move);
        }
        self.l = self.d;
            
    }
    #[verifier::rlimit(100)]
    #[verifier::spinoff_prover]
    fn op_mov_l_e(&mut self, ports: &Vec<u8>)
        requires
            dispatch_inv(old(self)@),
            exec_ok(old(self)@, 0x6b, ports@),
        ensures
            ({
                let e = spec_execute_move(old(self)@, 0x6b, ports@);
                &&& final(self)@ == e.cpu
                &&& e.ports == ports@
                &&& e.audio == Seq::<AudioAction>::empty()
            }),
            final(self)@.memory.len() == old(self)@.memory.len(),
            final(self)@.shift_register.amount <= 7,
    {
        proof {
            reveal(spec_execute_move);
        }
        self.l = self.e;
            
    }
    #[verifier::rlimit(100)]
    #[verifier::spinoff_prover]
    fn op_mov_l_h(&mut self, ports: &Vec<u8>)
        requires
            dispatch_inv(old(self)@),
            exec_ok(old(self)@, 0x6c, ports@),
        ensures
            ({
                let e = spec_execute_move(old(self)@, 0x6c, ports@);
                &&& final(self)@ == e.cpu
                &&& e.ports == ports@
                &&& e.audio == Seq::<AudioAction>::empty()
            }),
            final(self)@.memory.len() == old(self)@.memory.len(),
            final(self)@.shift_register.amount <= 7,
    {
        proof {
            reveal(spec_execute_move);
        }
        self.l = self.h;
            
    }
    #[verifier::rlimit(100)]
    #[verifier::spinoff_prover]
    fn op_mov_l_l(&mut self, ports: &Vec<u8>)
        requires
            dispatch_inv(old(self)@),
            exec_ok(old(self)@, 0x6d, ports@),
        ensures
            ({
                let e = spec_execute_move(old(self)@, 0x6d, ports@);
                &&& final(self)@ == e.cpu
                &&& e.ports == ports@
                &&& e.audio == Seq::<AudioAction>::empty()
            }),
            final(self)@.memory.len() == old(self)@.memory.len(),
            final(self)@.shift_register.amount <= 7,
    {
        proof {
            reveal(spec_execute_move);
        }
        // no effect
    }
    #[verifier::rlimit(100)]
    #[verifier::spinoff_prover]
    fn op_mov_l_m(&mut self, ports: &Vec<u8>)
        requires
            dispatch_inv(old(self)@),
            exec_ok(old(self)@, 0x6e, ports@),
        ensures
            ({
                let e = spec_execute_move(old(self)@, 0x6e, ports@);
                &&& final(self)@ == e.cpu
                &&& e.ports == ports@
                &&& e.audio == Seq::<AudioAction>::empty()
            }),
            final(self)@.memory.len() == old(self)@.memory.len(),
            final(self)@.shift_register.amount <= 7,
    {
        proof {
            reveal(spec_execute_move);
        }
        let value: u8 = self.read_hl_source();
        self.l = value;
            
    }
    #[verifier::rlimit(100)]
    #[verifier::spinoff_prover]
    fn op_mov_l_a(&mut self, ports: &Vec<u8>)
        requires
            dispatch_inv(old(self)@),
            exec_ok(old(self)@, 0x6f, ports@),
        ensures
            ({
                let e = spec_execute_move(old(self)@, 0x6f, ports@);
                &&& final(self)@ == e.cpu
                &&& e.ports == ports@
                &&& e.audio == Seq::<AudioAction>::empty()
            }),
            final(self)@.memory.len() == old(self)@.memory.len(),
            final(self)@.shift_register.amount <= 7,
    {
        proof {
            reveal(spec_execute_move);
        }
        self.l = self.a;
            
    }
    #[verifier::rlimit(100)]
    #[verifier::spinoff_prover]
    fn op_mov_m_b(&mut self, ports: &Vec<u8>)
        requires
            dispatch_inv(old(self)@),
            exec_ok(old(self)@, 0x70, ports@),
        ensures
            ({
                let e = spec_execute_move(old(self)@, 0x70, ports@);
                &&& final(self)@ == e.cpu
                &&& e.ports == ports@
                &&& e.audio == Seq::<AudioAction>::empty()
            }),
            final(self)@.memory.len() == old(self)@.memory.len(),
            final(self)@.shift_register.amount <= 7,
    {
        proof {
            reveal(spec_execute_move);
        }
        let hv: u8 = self.h;
        let lv: u8 = self.l;
        let value: u8 = self.b;
        addressing::write_to_memory(self, hv, lv, value);
            
    }
    #[verifier::rlimit(100)]
    #[verifier::spinoff_prover]
    fn op_mov_m_c(&mut self, ports: &Vec<u8>)
        requires
            dispatch_inv(old(self)@),
            exec_ok(old(self)@, 0x71, ports@),
        ensures
            ({
                let e = spec_execute_move(old(self)@, 0x71, ports@);
                &&& final(self)@ == e.cpu
                &&& e.ports == ports@
                &&& e.audio == Seq::<AudioAction>::empty()
            }),
            final(self)@.memory.len() == old(self)@.memory.len(),
            final(self)@.shift_register.amount <= 7,
    {
        proof {
            reveal(spec_execute_move);
        }
        let hv: u8 = self.h;
        let lv: u8 = self.l;
        let value: u8 = self.c;
        addressing::write_to_memory(self, hv, lv, value);
            
    }
    #[verifier::rlimit(100)]
    #[verifier::spinoff_prover]
    fn op_mov_m_d(&mut self, ports: &Vec<u8>)
        requires
            dispatch_inv(old(self)@),
            exec_ok(old(self)@, 0x72, ports@),
        ensures
            ({
                let e = spec_execute_move(old(self)@, 0x72, ports@);
                &&& final(self)@ == e.cpu
                &&& e.ports == ports@
                &&& e.audio == Seq::<AudioAction>::empty()
            }),
            final(self)@.memory.len() == old(self)@.memory.len(),
            final(self)@.shift_register.amount <= 7,
    {
        proof {
            reveal(spec_execute_move);
        }
        let hv: u8 = self.h;
        let lv: u8 = self.l;
        let value: u8 = self.d;
        addressing::write_to_memory(self, hv, lv, value);
            
    }
    #[verifier::rlimit(100)]
    #[verifier::spinoff_prover]
    fn op_mov_m_e(&mut self, ports: &Vec<u8>)
        requires
            dispatch_inv(old(self)@),
            exec_ok(old(self)@, 0x73, ports@),
        ensures
            ({
                let e = spec_execute_move(old(self)@, 0x73, ports@);
                &&& final(self)@ == e.cpu
                &&& e.ports == ports@
                &&& e.audio == Seq::<AudioAction>::empty()
            }),
            final(self)@.memory.len() == old(self)@.memory.len(),
            final(self)@.shift_register.amount <= 7,
    {
        proof {
            reveal(spec_execute_move);
        }
        let hv: u8 = self.h;
        let lv: u8 = self.l;
        let value: u8 = self.e;
        addressing::write_to_memory(self, hv, lv, value);
            
    }
    #[verifier::rlimit(100)]
    #[verifier::spinoff_prover]
    fn op_mov_m_h(&mut self, ports: &Vec<u8>)
        requires
            dispatch_inv(old(self)@),
            exec_ok(old(self)@, 0x74, ports@),
        ensures
            ({
                let e = spec_execute_move(old(self)@, 0x74, ports@);
                &&& final(self)@ == e.cpu
                &&& e.ports == ports@
                &&& e.audio == Seq::<AudioAction>::empty()
            }),
            final(self)@.memory.len() == old(self)@.memory.len(),
            final(self)@.shift_register.amount <= 7,
    {
        proof {
            reveal(spec_execute_move);
        }
        let hv: u8 = self.h;
        let lv: u8 = self.l;
        let value: u8 = self.h;
        addressing::write_to_memory(self, hv, lv, value);
            
    }
    #[verifier::rlimit(100)]
    #[verifier::spinoff_prover]
    fn op_mov_m_l(&mut self, ports: &Vec<u8>)
        requires
            dispatch_inv(old(self)@),
            exec_ok(old(self)@, 0x75, ports@),
        ensures
            ({
                let e = spec_execute_move(old(self)@, 0x75, ports@);
                &&& final(self)@ == e.cpu
                &&& e.ports == ports@
                &&& e.audio == Seq::<AudioAction>::empty()
            }),
            final(self)@.memory.len() == old(self)@.memory.len(),
            final(self)@.shift_register.amount <= 7,
    {
        proof {
            reveal(spec_execute_move);
        }
        let hv: u8 = self.h;
        let lv: u8 = self.l;
        let value: u8 = self.l;
        addressing::write_to_memory(self, hv, lv, value);
            
    }
    #[verifier::rlimit(100)]
    #[verifier::spinoff_prover]
    fn op_mov_m_a(&mut self, ports: &Vec<u8>)
        requires
            dispatch_inv(old(self)@),
            exec_ok(old(self)@, 0x77, ports@),
        ensures
            ({
                let e = spec_execute_move(old(self)@, 0x77, ports@);
                &&& final(self)@ == e.cpu
                &&& e.ports == ports@
                &&& e.audio == Seq::<AudioAction>::empty()
            }),
            final(self)@.memory.len() == old(self)@.memory.len(),
            final(self)@.shift_register.amount <= 7,
    {
        proof {
            reveal(spec_execute_move);
        }
        let hv: u8 = self.h;
        let lv: u8 = self.l;
        let value: u8 = self.a;
        addressing::write_to_memory(self, hv, lv, value);
            
    }
    #[verifier::rlimit(100)]
    #[verifier::spinoff_prover]
    fn op_mov_a_b(&mut self, ports: &Vec<u8>)
        requires
            dispatch_inv(old(self)@),
            exec_ok(old(self)@, 0x78, ports@),
        ensures
            ({
                let e = spec_execute_move(old(self)@, 0x78, ports@);
                &&& final(self)@ == e.cpu
                &&& e.ports == ports@
                &&& e.audio == Seq::<AudioAction>::empty()
            }),
            final(self)@.memory.len() == old(self)@.memory.len(),
            final(self)@.shift_register.amount <= 7,
    {
        proof {
            reveal(spec_execute_move);
        }
        self.a = self.b;
            
    }
    #[verifier::rlimit(100)]
    #[verifier::spinoff_prover]
    fn op_mov_a_c(&mut self, ports: &Vec<u8>)
        requires
            dispatch_inv(old(self)@),
            exec_ok(old(self)@, 0x79, ports@),
        ensures
            ({
                let e = spec_execute_move(old(self)@, 0x79, ports@);
                &&& final(self)@ == e.cpu
                &&& e.ports == ports@
                &&& e.audio == Seq::<AudioAction>::empty()
            }),
            final(self)@.memory.len() == old(self)@.memory.len(),
            final(self)@.shift_register.amount <= 7,
    {
        proof {
            reveal(spec_execute_move);
        }
        self.a = self.c;
            
    }
    #[verifier::rlimit(100)]
    #[verifier::spinoff_prover]
    fn op_mov_a_d(&mut self, ports: &Vec<u8>)
        requires
            dispatch_inv(old(self)@),
            exec_ok(old(self)@, 0x7a, ports@),
        ensures
            ({
                let e = spec_execute_move(old(self)@, 0x7a, ports@);
                &&& final(self)@ == e.cpu
                &&& e.ports == ports@
                &&& e.audio == Seq::<AudioAction>::empty()
            }),
            final(self)@.memory.len() == old(self)@.memory.len(),
            final(self)@.shift_register.amount <= 7,
    {
        proof {
            reveal(spec_execute_move);
        }
        self.a = self.d;
            
    }
    #[verifier::rlimit(100)]
    #[verifier::spinoff_prover]
    fn op_mov_a_e(&mut self, ports: &Vec<u8>)
        requires
            dispatch_inv(old(self)@),
            exec_ok(old(self)@, 0x7b, ports@),
        ensures
            ({
                let e = spec_execute_move(old(self)@, 0x7b, ports@);
                &&& final(self)@ == e.cpu
                &&& e.ports == ports@
                &&& e.audio == Seq::<AudioAction>::empty()
            }),
            final(self)@.memory.len() == old(self)@.memory.len(),
            final(self)@.shift_register.amount <= 7,
    {
        proof {
            reveal(spec_execute_move);
        }
        self.a = self.e;
            
    }
    #[verifier::rlimit(100)]
    #[verifier::spinoff_prover]
    fn op_mov_a_h(&mut self, ports: &Vec<u8>)
        requires
            dispatch_inv(old(self)@),
            exec_ok(old(self)@, 0x7c, ports@),
        ensures
            ({
                let e = spec_execute_move(old(self)@, 0x7c, ports@);
                &&& final(self)@ == e.cpu
                &&& e.ports == ports@
                &&& e.audio == Seq::<AudioAction>::empty()
            }),
            final(self)@.memory.len() == old(self)@.memory.len(),
            final(self)@.shift_register.amount <= 7,
    {
        proof {
            reveal(spec_execute_move);
        }
        self.a = self.h;
            
    }
    #[verifier::rlimit(100)]
    #[verifier::spinoff_prover]
    fn op_mov_a_l(&mut self, ports: &Vec<u8>)
        requires
            dispatch_inv(old(self)@),
            exec_ok(old(self)@, 0x7d, ports@),
        ensures
            ({
                let e = spec_execute_move(old(self)@, 0x7d, ports@);
                &&& final(self)@ == e.cpu
                &&& e.ports == ports@
                &&& e.audio == Seq::<AudioAction>::empty()
            }),
            final(self)@.memory.len() == old(self)@.memory.len(),
            final(self)@.shift_register.amount <= 7,
    {
        proof {
            reveal(spec_execute_move);
        }
        self.a = self.l;
            
    }
    #[verifier::rlimit(100)]
    #[verifier::spinoff_prover]
    fn op_mov_a_m(&mut self, ports: &Vec<u8>)
        requires
            dispatch_inv(old(self)@),
            exec_ok(old(self)@, 0x7e, ports@),
        ensures
            ({
                let e = spec_execute_move(old(self)@, 0x7e, ports@);
                &&& final(self)@ == e.cpu
                &&& e.ports == ports@
                &&& e.audio == Seq::<AudioAction>::empty()
            }),
            final(self)@.memory.len() == old(self)@.memory.len(),
            final(self)@.shift_register.amount <= 7,
    {
        proof {
            reveal(spec_execute_move);
        }
        let value: u8 = self.read_hl_source();
        self.a = value;
            
    }
    #[verifier::rlimit(100)]
    #[verifier::spinoff_prover]
    fn op_mov_a_a(&mut self, ports: &Vec<u8>)
        requires
            dispatch_inv(old(self)@),
            exec_ok(old(self)@, 0x7f, ports@),
        ensures
            ({
                let e = spec_execute_move(old(self)@, 0x7f, ports@);
                &&& final(self)@ == e.cpu
                &&& e.ports == ports@
                &&& e.audio == Seq::<AudioAction>::empty()
            }),
            final(self)@.memory.len() == old(self)@.memory.len(),
            final(self)@.shift_register.amount <= 7,
    {
        proof {
            reveal(spec_execute_move);
        }
        // no effect
    }
    #[verifier::rlimit(100)]
    #[verifier::spinoff_prover]
    fn op_add_b(&mut self, ports: &Vec<u8>)
        requires
            dispatch_inv(old(self)@),
            exec_ok(old(self)@, 0x80, ports@),
        ensures
            ({
                let e = spec_execute_accumulator(old(self)@, 0x80, ports@);
                &&& final(self)@ == e.cpu
                &&& e.ports == ports@
                &&& e.audio == Seq::<AudioAction>::empty()
            }),
            final(self)@.memory.len() == old(self)@.memory.len(),
            final(self)@.shift_register.amount <= 7,
    {
        proof {
            reveal(spec_execute_accumulator);
        }
        let value: u8 = self.b;
        alu::add(self, value, false);
            
    }
    #[verifier::rlimit(100)]
    #[verifier::spinoff_prover]
    fn op_add_c(&mut self, ports: &Vec<u8>)
        requires
            dispatch_inv(old(self)@),
            exec_ok(old(self)@, 0x81, ports@),
        ensures
            ({
                let e = spec_execute_accumulator(old(self)@, 0x81, ports@);
                &&& final(self)@ == e.cpu
                &&& e.ports == ports@
                &&& e.audio == Seq::<AudioAction>::empty()
            }),
            final(self)@.memory.len() == old(self)@.memory.len(),
            final(self)@.shift_register.amount <= 7,
    {
        proof {
            reveal(spec_execute_accumulator);
        }
        let value: u8 = self.c;
        alu::add(self, value, false);
            
    }
    #[verifier::rlimit(100)]
    #[verifier::spinoff_prover]
    fn op_add_d(&mut self, ports: &Vec<u8>)
        requires
            dispatch_inv(old(self)@),
            exec_ok(old(self)@, 0x82, ports@),
        ensures
            ({
                let e = spec_execute_accumulator(old(self)@, 0x82, ports@);
                &&& final(self)@ == e.cpu
                &&& e.ports == ports@
                &&& e.audio == Seq::<AudioAction>::empty()
            }),
            final(self)@.memory.len() == old(self)@.memory.len(),
            final(self)@.shift_register.amount <= 7,
    {
        proof {
            reveal(spec_execute_accumulator);
        }
        let value: u8 = self.d;
        alu::add(self, value, false);
            
    }
    #[verifier::rlimit(100)]
    #[verifier::spinoff_prover]
    fn op_add_e(&mut self, ports: &Vec<u8>)
        requires
            dispatch_inv(old(self)@),
            exec_ok(old(self)@, 0x83, ports@),
        ensures
            ({
                let e = spec_execute_accumulator(old(self)@, 0x83, ports@);
                &&& final(self)@ == e.cpu
                &&& e.ports == ports@
                &&& e.audio == Seq::<AudioAction>::empty()
            }),
            final(self)@.memory.len() == old(self)@.memory.len(),
            final(self)@.shift_register.amount <= 7,
    {
        proof {
            reveal(spec_execute_accumulator);
        }
        let value: u8 = self.e;
        alu::add(self, value, false);
            
    }
    #[verifier::rlimit(100)]
    #[verifier::spinoff_prover]
    fn op_add_h(&mut self, ports: &Vec<u8>)
        requires
            dispatch_inv(old(self)@),
            exec_ok(old(self)@, 0x84, ports@),
        ensures
            ({
                let e = spec_execute_accumulator(old(self)@, 0x84, ports@);
                &&& final(self)@ == e.cpu
                &&& e.ports == ports@
                &&& e.audio == Seq::<AudioAction>::empty()
            }),
            final(self)@.memory.len() == old(self)@.memory.len(),
            final(self)@.shift_register.amount <= 7,
    {
        proof {
            reveal(spec_execute_accumulator);
        }
        let value: u8 = self.h;
        alu::add(self, value, false);
            
    }
    #[verifier::rlimit(100)]
    #[verifier::spinoff_prover]
    fn op_add_l(&mut self, ports: &Vec<u8>)
        requires
            dispatch_inv(old(self)@),
            exec_ok(old(self)@, 0x85, ports@),
        ensures
            ({
                let e = spec_execute_accumulator(old(self)@, 0x85, ports@);
                &&& final(self)@ == e.cpu
                &&& e.ports == ports@
                &&& e.audio == Seq::<AudioAction>::empty()
            }),
            final(self)@.memory.len() == old(self)@.memory.len(),
            final(self)@.shift_register.amount <= 7,
    {
        proof {
            reveal(spec_execute_accumulator);
        }
        let value: u8 = self.l;
        alu::add(self, value, false);
            
    }
    #[verifier::rlimit(100)]
    #[verifier::spinoff_prover]
    fn op_add_m(&mut self, ports: &Vec<u8>)
        requires
            dispatch_inv(old(self)@),
            exec_ok(old(self)@, 0x86, ports@),
        ensures
            ({
                let e = spec_execute_accumulator(old(self)@, 0x86, ports@);
                &&& final(self)@ == e.cpu
                &&& e.ports == ports@
                &&& e.audio == Seq::<AudioAction>::empty()
            }),
            final(self)@.memory.len() == old(self)@.memory.len(),
            final(self)@.shift_register.amount <= 7,
    {
        proof {
            reveal(spec_execute_accumulator);
        }
        let value: u8 = self.read_hl_source();
        alu::add(self, value, false);
            
    }
    #[verifier::rlimit(100)]
    #[verifier::spinoff_prover]
    fn op_add_a(&mut self, ports: &Vec<u8>)
        requires
            dispatch_inv(old(self)@),
            exec_ok(old(self)@, 0x87, ports@),
        ensures
            ({
                let e = spec_execute_accumulator(old(self)@, 0x87, ports@);
                &&& final(self)@ == e.cpu
                &&& e.ports == ports@
                &&& e.audio == Seq::<AudioAction>::empty()
            }),
            final(self)@.memory.len() == old(self)@.memory.len(),
            final(self)@.shift_register.amount <= 7,
    {
        proof {
            reveal(spec_execute_accumulator);
        }
        let value: u8 = self.a;
        alu::add(self, value, false);
            
    }
    #[verifier::rlimit(100)]
    #[verifier::spinoff_prover]
    fn op_adc_b(&mut self, ports: &Vec<u8>)
        requires
            dispatch_inv(old(self)@),
            exec_ok(old(self)@, 0x88, ports@),
        ensures
            ({
                let e = spec_execute_accumulator(old(self)@, 0x88, ports@);
                &&& final(self)@ == e.cpu
                &&& e.ports == ports@
                &&& e.audio == Seq::<AudioAction>::empty()
            }),
            final(self)@.memory.len() == old(self)@.memory.len(),
            final(self)@.shift_register.amount <= 7,
    {
        proof {
            reveal(spec_execute_accumulator);
        }
        let value: u8 = self.b;
        let carry: bool = self.flags.carry;
        alu::add(self, value, carry);
            
    }
    #[verifier::rlimit(100)]
    #[verifier::spinoff_prover]
    fn op_adc_c(&mut self, ports: &Vec<u8>)
        requires
            dispatch_inv(old(self)@),
            exec_ok(old(self)@, 0x89, ports@),
        ensures
            ({
                let e = spec_execute_accumulator(old(self)@, 0x89, ports@);
                &&& final(self)@ == e.cpu
                &&& e.ports == ports@
                &&& e.audio == Seq::<AudioAction>::empty()
            }),
            final(self)@.memory.len() == old(self)@.memory.len(),
            final(self)@.shift_register.amount <= 7,
    {
        proof {
            reveal(spec_execute_accumulator);
        }
        let value: u8 = self.c;
        let carry: bool = self.flags.carry;
        alu::add(self, value, carry);
            
    }
    #[verifier::rlimit(100)]
    #[verifier::spinoff_prover]
    fn op_adc_d(&mut self, ports: &Vec<u8>)
        requires
            dispatch_inv(old(self)@),
            exec_ok(old(self)@, 0x8a, ports@),
        ensures
            ({
                let e = spec_execute_accumulator(old(self)@, 0x8a, ports@);
                &&& final(self)@ == e.cpu
                &&& e.ports == ports@
                &&& e.audio == Seq::<AudioAction>::empty()
            }),
            final(self)@.memory.len() == old(self)@.memory.len(),
            final(self)@.shift_register.amount <= 7,
    {
        proof {
            reveal(spec_execute_accumulator);
        }
        let value: u8 = self.d;
        let carry: bool = self.flags.carry;
        alu::add(self, value, carry);
            
    }
    #[verifier::rlimit(100)]
    #[verifier::spinoff_prover]
    fn op_adc_e(&mut self, ports: &Vec<u8>)
        requires
            dispatch_inv(old(self)@),
            exec_ok(old(self)@, 0x8b, ports@),
        ensures
            ({
                let e = spec_execute_accumulator(old(self)@, 0x8b, ports@);
                &&& final(self)@ == e.cpu
                &&& e.ports == ports@
                &&& e.audio == Seq::<AudioAction>::empty()
            }),
            final(self)@.memory.len() == old(self)@.memory.len(),
            final(self)@.shift_register.amount <= 7,
    {
        proof {
            reveal(spec_execute_accumulator);
        }
        let value: u8 = self.e;
        let carry: bool = self.flags.carry;
        alu::add(self, value, carry);
            
    }
    #[verifier::rlimit(100)]
    #[verifier::spinoff_prover]
    fn op_adc_h(&mut self, ports: &Vec<u8>)
        requires
            dispatch_inv(old(self)@),
            exec_ok(old(self)@, 0x8c, ports@),
        ensures
            ({
                let e = spec_execute_accumulator(old(self)@, 0x8c, ports@);
                &&& final(self)@ == e.cpu
                &&& e.ports == ports@
                &&& e.audio == Seq::<AudioAction>::empty()
            }),
            final(self)@.memory.len() == old(self)@.memory.len(),
            final(self)@.shift_register.amount <= 7,
    {
        proof {
            reveal(spec_execute_accumulator);
        }
        let value: u8 = self.h;
        let carry: bool = self.flags.carry;
        alu::add(self, value, carry);
            
    }
    #[verifier::rlimit(100)]
    #[verifier::spinoff_prover]
    fn op_adc_l(&mut self, ports: &Vec<u8>)
        requires
            dispatch_inv(old(self)@),
            exec_ok(old(self)@, 0x8d, ports@),
        ensures
            ({
                let e = spec_execute_accumulator(old(self)@, 0x8d, ports@);
                &&& final(self)@ == e.cpu
                &&& e.ports == ports@
                &&& e.audio == Seq::<AudioAction>::empty()
            }),
            final(self)@.memory.len() == old(self)@.memory.len(),
            final(self)@.shift_register.amount <= 7,
    {
        proof {
            reveal(spec_execute_accumulator);
        }
        let value: u8 = self.l;
        let carry: bool = self.flags.carry;
        alu::add(self, value, carry);
            
    }
    #[verifier::rlimit(100)]
    #[verifier::spinoff_prover]
    fn op_adc_m(&mut self, ports: &Vec<u8>)
        requires
            dispatch_inv(old(self)@),
            exec_ok(old(self)@, 0x8e, ports@),
        ensures
            ({
                let e = spec_execute_accumulator(old(self)@, 0x8e, ports@);
                &&& final(self)@ == e.cpu
                &&& e.ports == ports@
                &&& e.audio == Seq::<AudioAction>::empty()
            }),
            final(self)@.memory.len() == old(self)@.memory.len(),
            final(self)@.shift_register.amount <= 7,
    {
        proof {
            reveal(spec_execute_accumulator);
        }
        let value: u8 = self.read_hl_source();
        let carry: bool = self.flags.carry;
        alu::add(self, value, carry);
            
    }
    #[verifier::rlimit(100)]
    #[verifier::spinoff_prover]
    fn op_adc_a(&mut self, ports: &Vec<u8>)
        requires
            dispatch_inv(old(self)@),
            exec_ok(old(self)@, 0x8f, ports@),
        ensures
            ({
                let e = spec_execute_accumulator(old(self)@, 0x8f, ports@);
                &&& final(self)@ == e.cpu
                &&& e.ports == ports@
                &&& e.audio == Seq::<AudioAction>::empty()
            }),
            final(self)@.memory.len() == old(self)@.memory.len(),
            final(self)@.shift_register.amount <= 7,
    {
        proof {
            reveal(spec_execute_accumulator);
        }
        let value: u8 = self.a;
        let carry: bool = self.flags.carry;
        alu::add(self, value, carry);
            
    }
    #[verifier::rlimit(100)]
    #[verifier::spinoff_prover]
    fn op_sub_b(&mut self, ports: &Vec<u8>)
        requires
            dispatch_inv(old(self)@),
            exec_ok(old(self)@, 0x90, ports@),
        ensures
            ({
                let e = spec_execute_accumulator(old(self)@, 0x90, ports@);
                &&& final(self)@ == e.cpu
                &&& e.ports == ports@
                &&& e.audio == Seq::<AudioAction>::empty()
            }),
            final(self)@.memory.len() == old(self)@.memory.len(),
            final(self)@.shift_register.amount <= 7,
    {
        proof {
            reveal(spec_execute_accumulator);
        }
        let value: u8 = self.b;
        alu::subtract(self, value, false);
            
    }
    #[verifier::rlimit(100)]
    #[verifier::spinoff_prover]
    fn op_sub_c(&mut self, ports: &Vec<u8>)
        requires
            dispatch_inv(old(self)@),
            exec_ok(old(self)@, 0x91, ports@),
        ensures
            ({
                let e = spec_execute_accumulator(old(self)@, 0x91, ports@);
                &&& final(self)@ == e.cpu
                &&& e.ports == ports@
                &&& e.audio == Seq::<AudioAction>::empty()
            }),
            final(self)@.memory.len() == old(self)@.memory.len(),
            final(self)@.shift_register.amount <= 7,
    {
        proof {
            reveal(spec_execute_accumulator);
        }
        let value: u8 = self.c;
        alu::subtract(self, value, false);
            
    }
    #[verifier::rlimit(100)]
    #[verifier::spinoff_prover]
    fn op_sub_d(&mut self, ports: &Vec<u8>)
        requires
            dispatch_inv(old(self)@),
            exec_ok(old(self)@, 0x92, ports@),
        ensures
            ({
                let e = spec_execute_accumulator(old(self)@, 0x92, ports@);
                &&& final(self)@ == e.cpu
                &&& e.ports == ports@
                &&& e.audio == Seq::<AudioAction>::empty()
            }),
            final(self)@.memory.len() == old(self)@.memory.len(),
            final(self)@.shift_register.amount <= 7,
    {
        proof {
            reveal(spec_execute_accumulator);
        }
        let value: u8 = self.d;
        alu::subtract(self, value, false);
            
    }
    #[verifier::rlimit(100)]
    #[verifier::spinoff_prover]
    fn op_sub_e(&mut self, ports: &Vec<u8>)
        requires
            dispatch_inv(old(self)@),
            exec_ok(old(self)@, 0x93, ports@),
        ensures
            ({
                let e = spec_execute_accumulator(old(self)@, 0x93, ports@);
                &&& final(self)@ == e.cpu
                &&& e.ports == ports@
                &&& e.audio == Seq::<AudioAction>::empty()
            }),
            final(self)@.memory.len() == old(self)@.memory.len(),
            final(self)@.shift_register.amount <= 7,
    {
        proof {
            reveal(spec_execute_accumulator);
        }
        let value: u8 = self.e;
        alu::subtract(self, value, false);
            
    }
    #[verifier::rlimit(100)]
    #[verifier::spinoff_prover]
    fn op_sub_h(&mut self, ports: &Vec<u8>)
        requires
            dispatch_inv(old(self)@),
            exec_ok(old(self)@, 0x94, ports@),
        ensures
            ({
                let e = spec_execute_accumulator(old(self)@, 0x94, ports@);
                &&& final(self)@ == e.cpu
                &&& e.ports == ports@
                &&& e.audio == Seq::<AudioAction>::empty()
            }),
            final(self)@.memory.len() == old(self)@.memory.len(),
            final(self)@.shift_register.amount <= 7,
    {
        proof {
            reveal(spec_execute_accumulator);
        }
        let value: u8 = self.h;
        alu::subtract(self, value, false);
            
    }
    #[verifier::rlimit(100)]
    #[verifier::spinoff_prover]
    fn op_sub_l(&mut self, ports: &Vec<u8>)
        requires
            dispatch_inv(old(self)@),
            exec_ok(old(self)@, 0x95, ports@),
        ensures
            ({
                let e = spec_execute_accumulator(old(self)@, 0x95, ports@);
                &&& final(self)@ == e.cpu
                &&& e.ports == ports@
                &&& e.audio == Seq::<AudioAction>::empty()
            }),
            final(self)@.memory.len() == old(self)@.memory.len(),
            final(self)@.shift_register.amount <= 7,
    {
        proof {
            reveal(spec_execute_accumulator);
        }
        let value: u8 = self.l;
        alu::subtract(self, value, false);
            
    }
    #[verifier::rlimit(100)]
    #[verifier::spinoff_prover]
    fn op_sub_m(&mut self, ports: &Vec<u8>)
        requires
            dispatch_inv(old(self)@),
            exec_ok(old(self)@, 0x96, ports@),
        ensures
            ({
                let e = spec_execute_accumulator(old(self)@, 0x96, ports@);
                &&& final(self)@ == e.cpu
                &&& e.ports == ports@
                &&& e.audio == Seq::<AudioAction>::empty()
            }),
            final(self)@.memory.len() == old(self)@.memory.len(),
            final(self)@.shift_register.amount <= 7,
    {
        proof {
            reveal(spec_execute_accumulator);
        }
        let value: u8 = self.read_hl_source();
        alu::subtract(self, value, false);
            
    }
    #[verifier::rlimit(100)]
    #[verifier::spinoff_prover]
    fn op_sub_a(&mut self, ports: &Vec<u8>)
        requires
            dispatch_inv(old(self)@),
            exec_ok(old(self)@, 0x97, ports@),
        ensures
            ({
                let e = spec_execute_accumulator(old(self)@, 0x97, ports@);
                &&& final(self)@ == e.cpu
                &&& e.ports == ports@
                &&& e.audio == Seq::<AudioAction>::empty()
            }),
            final(self)@.memory.len() == old(self)@.memory.len(),
            final(self)@.shift_register.amount <= 7,
    {
        proof {
            reveal(spec_execute_accumulator);
        }
        let value: u8 = self.a;
        alu::subtract(self, value, false);
            
    }
    #[verifier::rlimit(100)]
    #[verifier::spinoff_prover]
    fn op_sbb_b(&mut self, ports: &Vec<u8>)
        requires
            dispatch_inv(old(self)@),
            exec_ok(old(self)@, 0x98, ports@),
        ensures
            ({
                let e = spec_execute_accumulator(old(self)@, 0x98, ports@);
                &&& final(self)@ == e.cpu
                &&& e.ports == ports@
                &&& e.audio == Seq::<AudioAction>::empty()
            }),
            final(self)@.memory.len() == old(self)@.memory.len(),
            final(self)@.shift_register.amount <= 7,
    {
        proof {
            reveal(spec_execute_accumulator);
        }
        let value: u8 = self.b;
        let carry: bool = self.flags.carry;
        alu::subtract(self, value, carry);
            
    }
    #[verifier::rlimit(100)]
    #[verifier::spinoff_prover]
    fn op_sbb_c(&mut self, ports: &Vec<u8>)
        requires
            dispatch_inv(old(self)@),
            exec_ok(old(self)@, 0x99, ports@),
        ensures
            ({
                let e = spec_execute_accumulator(old(self)@, 0x99, ports@);
                &&& final(self)@ == e.cpu
                &&& e.ports == ports@
                &&& e.audio == Seq::<AudioAction>::empty()
            }),
            final(self)@.memory.len() == old(self)@.memory.len(),
            final(self)@.shift_register.amount <= 7,
    {
        proof {
            reveal(spec_execute_accumulator);
        }
        let value: u8 = self.c;
        let carry: bool = self.flags.carry;
        alu::subtract(self, value, carry);
            
    }
    #[verifier::rlimit(100)]
    #[verifier::spinoff_prover]
    fn op_sbb_d(&mut self, ports: &Vec<u8>)
        requires
            dispatch_inv(old(self)@),
            exec_ok(old(self)@, 0x9a, ports@),
        ensures
            ({
                let e = spec_execute_accumulator(old(self)@, 0x9a, ports@);
                &&& final(self)@ == e.cpu
                &&& e.ports == ports@
                &&& e.audio == Seq::<AudioAction>::empty()
            }),
            final(self)@.memory.len() == old(self)@.memory.len(),
            final(self)@.shift_register.amount <= 7,
    {
        proof {
            reveal(spec_execute_accumulator);
        }
        let value: u8 = self.d;
        let carry: bool = self.flags.carry;
        alu::subtract(self, value, carry);
            
    }
    #[verifier::rlimit(100)]
    #[verifier::spinoff_prover]
    fn op_sbb_e(&mut self, ports: &Vec<u8>)
        requires
            dispatch_inv(old(self)@),
            exec_ok(old(self)@, 0x9b, ports@),
        ensures
            ({
                let e = spec_execute_accumulator(old(self)@, 0x9b, ports@);
                &&& final(self)@ == e.cpu
                &&& e.ports == ports@
                &&& e.audio == Seq::<AudioAction>::empty()
            }),
            final(self)@.memory.len() == old(self)@.memory.len(),
            final(self)@.shift_register.amount <= 7,
    {
        proof {
            reveal(spec_execute_accumulator);
        }
        let value: u8 = self.e;
        let carry: bool = self.flags.carry;
        alu::subtract(self, value, carry);
            
    }
    #[verifier::rlimit(100)]
    #[verifier::spinoff_prover]
    fn op_sbb_h(&mut self, ports: &Vec<u8>)
        requires
            dispatch_inv(old(self)@),
            exec_ok(old(self)@, 0x9c, ports@),
        ensures
            ({
                let e = spec_execute_accumulator(old(self)@, 0x9c, ports@);
                &&& final(self)@ == e.cpu
                &&& e.ports == ports@
                &&& e.audio == Seq::<AudioAction>::empty()
            }),
            final(self)@.memory.len() == old(self)@.memory.len(),
            final(self)@.shift_register.amount <= 7,
    {
        proof {
            reveal(spec_execute_accumulator);
        }
        let value: u8 = self.h;
        let carry: bool = self.flags.carry;
        alu::subtract(self, value, carry);
            
    }
    #[verifier::rlimit(100)]
    #[verifier::spinoff_prover]
    fn op_sbb_l(&mut self, ports: &Vec<u8>)
        requires
            dispatch_inv(old(self)@),
            exec_ok(old(self)@, 0x9d, ports@),
        ensures
            ({
                let e = spec_execute_accumulator(old(self)@, 0x9d, ports@);
                &&& final(self)@ == e.cpu
                &&& e.ports == ports@
                &&& e.audio == Seq::<AudioAction>::empty()
            }),
            final(self)@.memory.len() == old(self)@.memory.len(),
            final(self)@.shift_register.amount <= 7,
    {
        proof {
            reveal(spec_execute_accumulator);
        }
        let value: u8 = self.l;
        let carry: bool = self.flags.carry;
        alu::subtract(self, value, carry);
            
    }
    #[verifier::rlimit(100)]
    #[verifier::spinoff_prover]
    fn op_sbb_m(&mut self, ports: &Vec<u8>)
        requires
            dispatch_inv(old(self)@),
            exec_ok(old(self)@, 0x9e, ports@),
        ensures
            ({
                let e = spec_execute_accumulator(old(self)@, 0x9e, ports@);
                &&& final(self)@ == e.cpu
                &&& e.ports == ports@
                &&& e.audio == Seq::<AudioAction>::empty()
            }),
            final(self)@.memory.len() == old(self)@.memory.len(),
            final(self)@.shift_register.amount <= 7,
    {
        proof {
            reveal(spec_execute_accumulator);
        }
        let value: u8 = self.read_hl_source();
        let carry: bool = self.flags.carry;
        alu::subtract(self, value, carry);
            
    }
    #[verifier::rlimit(100)]
    #[verifier::spinoff_prover]
    fn op_sbb_a(&mut self, ports: &Vec<u8>)
        requires
            dispatch_inv(old(self)@),
            exec_ok(old(self)@, 0x9f, ports@),
        ensures
            ({
                let e = spec_execute_accumulator(old(self)@, 0x9f, ports@);
                &&& final(self)@ == e.cpu
                &&& e.ports == ports@
                &&& e.audio == Seq::<AudioAction>::empty()
            }),
            final(self)@.memory.len() == old(self)@.memory.len(),
            final(self)@.shift_register.amount <= 7,
    {
        proof {
            reveal(spec_execute_accumulator);
        }
        let value: u8 = self.a;
        let carry: bool = self.flags.carry;
        alu::subtract(self, value, carry);
            
    }
    #[verifier::rlimit(100)]
    #[verifier::spinoff_prover]
    fn op_ana_b(&mut self, ports: &Vec<u8>)
        requires
            dispatch_inv(old(self)@),
            exec_ok(old(self)@, 0xa0, ports@),
        ensures
            ({
                let e = spec_execute_accumulator(old(self)@, 0xa0, ports@);
                &&& final(self)@ == e.cpu
                &&& e.ports == ports@
                &&& e.audio == Seq::<AudioAction>::empty()
            }),
            final(self)@.memory.len() == old(self)@.memory.len(),
            final(self)@.shift_register.amount <= 7,
    {
        proof {
            reveal(spec_execute_accumulator);
        }
        let value: u8 = self.b;
        alu::and(self, value);
            
    }
    #[verifier::rlimit(100)]
    #[verifier::spinoff_prover]
    fn op_ana_c(&mut self, ports: &Vec<u8>)
        requires
            dispatch_inv(old(self)@),
            exec_ok(old(self)@, 0xa1, ports@),
        ensures
            ({
                let e = spec_execute_accumulator(old(self)@, 0xa1, ports@);
                &&& final(self)@ == e.cpu
                &&& e.ports == ports@
                &&& e.audio == Seq::<AudioAction>::empty()
            }),
            final(self)@.memory.len() == old(self)@.memory.len(),
            final(self)@.shift_register.amount <= 7,
    {
        proof {
            reveal(spec_execute_accumulator);
        }
        let value: u8 = self.c;
        alu::and(self, value);
            
    }
    #[verifier::rlimit(100)]
    #[verifier::spinoff_prover]
    fn op_ana_d(&mut self, ports: &Vec<u8>)
        requires
            dispatch_inv(old(self)@),
            exec_ok(old(self)@, 0xa2, ports@),
        ensures
            ({
                let e = spec_execute_accumulator(old(self)@, 0xa2, ports@);
                &&& final(self)@ == e.cpu
                &&& e.ports == ports@
                &&& e.audio == Seq::<AudioAction>::empty()
            }),
            final(self)@.memory.len() == old(self)@.memory.len(),
            final(self)@.shift_register.amount <= 7,
    {
        proof {
            reveal(spec_execute_accumulator);
        }
        let value: u8 = self.d;
        alu::and(self, value);
            
    }
    #[verifier::rlimit(100)]
    #[verifier::spinoff_prover]
    fn op_ana_e(&mut self, ports: &Vec<u8>)
        requires
            dispatch_inv(old(self)@),
            exec_ok(old(self)@, 0xa3, ports@),
        ensures
            ({
                let e = spec_execute_accumulator(old(self)@, 0xa3, ports@);
                &&& final(self)@ == e.cpu
                &&& e.ports == ports@
                &&& e.audio == Seq::<AudioAction>::empty()
            }),
            final(self)@.memory.len() == old(self)@.memory.len(),
            final(self)@.shift_register.amount <= 7,
    {
        proof {
            reveal(spec_execute_accumulator);
        }
        let value: u8 = self.e;
        alu::and(self, value);
            
    }
    #[verifier::rlimit(100)]
    #[verifier::spinoff_prover]
    fn op_ana_h(&mut self, ports: &Vec<u8>)
        requires
            dispatch_inv(old(self)@),
            exec_ok(old(self)@, 0xa4, ports@),
        ensures
            ({
                let e = spec_execute_accumulator(old(self)@, 0xa4, ports@);
                &&& final(self)@ == e.cpu
                &&& e.ports == ports@
                &&& e.audio == Seq::<AudioAction>::empty()
            }),
            final(self)@.memory.len() == old(self)@.memory.len(),
            final(self)@.shift_register.amount <= 7,
    {
        proof {
            reveal(spec_execute_accumulator);
        }
        let value: u8 = self.h;
        alu::and(self, value);
            
    }
    #[verifier::rlimit(100)]
    #[verifier::spinoff_prover]
    fn op_ana_l(&mut self, ports: &Vec<u8>)
        requires
            dispatch_inv(old(self)@),
            exec_ok(old(self)@, 0xa5, ports@),
        ensures
            ({
                let e = spec_execute_accumulator(old(self)@, 0xa5, ports@);
                &&& final(self)@ == e.cpu
                &&& e.ports == ports@
                &&& e.audio == Seq::<AudioAction>::empty()
            }),
            final(self)@.memory.len() == old(self)@.memory.len(),
            final(self)@.shift_register.amount <= 7,
    {
        proof {
            reveal(spec_execute_accumulator);
        }
        let value: u8 = self.l;
        alu::and(self, value);
            
    }
    #[verifier::rlimit(100)]
    #[verifier::spinoff_prover]
    fn op_ana_m(&mut self, ports: &Vec<u8>)
        requires
            dispatch_inv(old(self)@),
            exec_ok(old(self)@, 0xa6, ports@),
        ensures
            ({
                let e = spec_execute_accumulator(old(self)@, 0xa6, ports@);
                &&& final(self)@ == e.cpu
                &&& e.ports == ports@
                &&& e.audio == Seq::<AudioAction>::empty()
            }),
            final(self)@.memory.len() == old(self)@.memory.len(),
            final(self)@.shift_register.amount <= 7,
    {
        proof {
            reveal(spec_execute_accumulator);
        }
        let value: u8 = self.read_hl_source();
        alu::and(self, value);
            
    }
    #[verifier::rlimit(100)]
    #[verifier::spinoff_prover]
    fn op_ana_a(&mut self, ports: &Vec<u8>)
        requires
            dispatch_inv(old(self)@),
            exec_ok(old(self)@, 0xa7, ports@),
        ensures
            ({
                let e = spec_execute_accumulator(old(self)@, 0xa7, ports@);
                &&& final(self)@ == e.cpu
                &&& e.ports == ports@
                &&& e.audio == Seq::<AudioAction>::empty()
            }),
            final(self)@.memory.len() == old(self)@.memory.len(),
            final(self)@.shift_register.amount <= 7,
    {
        proof {
            reveal(spec_execute_accumulator);
        }
        let value: u8 = self.a;
        alu::and(self, value);
            
    }
    #[verifier::rlimit(100)]
    #[verifier::spinoff_prover]
    fn op_xra_b(&mut self, ports: &Vec<u8>)
        requires
            dispatch_inv(old(self)@),
            exec_ok(old(self)@, 0xa8, ports@),
        ensures
            ({
                let e = spec_execute_accumulator(old(self)@, 0xa8, ports@);
                &&& final(self)@ == e.cpu
                &&& e.ports == ports@
                &&& e.audio == Seq::<AudioAction>::empty()
            }),
            final(self)@.memory.len() == old(self)@.memory.len(),
            final(self)@.shift_register.amount <= 7,
    {
        proof {
            reveal(spec_execute_accumulator);
        }
        let value: u8 = self.b;
        alu::xor(self, value);
            
    }
    #[verifier::rlimit(100)]
    #[verifier::spinoff_prover]
    fn op_xra_c(&mut self, ports: &Vec<u8>)
        requires
            dispatch_inv(old(self)@),
            exec_ok(old(self)@, 0xa9, ports@),
        ensures
            ({
                let e = spec_execute_accumulator(old(self)@, 0xa9, ports@);
                &&& final(self)@ == e.cpu
                &&& e.ports == ports@
                &&& e.audio == Seq::<AudioAction>::empty()
            }),
            final(self)@.memory.len() == old(self)@.memory.len(),
            final(self)@.shift_register.amount <= 7,
    {
        proof {
            reveal(spec_execute_accumulator);
        }
        let value: u8 = self.c;
        alu::xor(self, value);
            
    }
    #[verifier::rlimit(100)]
    #[verifier::spinoff_prover]
    fn op_xra_d(&mut self, ports: &Vec<u8>)
        requires
            dispatch_inv(old(self)@),
            exec_ok(old(self)@, 0xaa, ports@),
        ensures
            ({
                let e = spec_execute_accumulator(old(self)@, 0xaa, ports@);
                &&& final(self)@ == e.cpu
                &&& e.ports == ports@
                &&& e.audio == Seq::<AudioAction>::empty()
            }),
            final(self)@.memory.len() == old(self)@.memory.len(),
            final(self)@.shift_register.amount <= 7,
    {
        proof {
            reveal(spec_execute_accumulator);
        }
        let value: u8 = self.d;
        alu::xor(self, value);
            
    }
    #[verifier::rlimit(100)]
    #[verifier::spinoff_prover]
    fn op_xra_e(&mut self, ports: &Vec<u8>)
        requires
            dispatch_inv(old(self)@),
            exec_ok(old(self)@, 0xab, ports@),
        ensures
            ({
                let e = spec_execute_accumulator(old(self)@, 0xab, ports@);
                &&& final(self)@ == e.cpu
                &&& e.ports == ports@
                &&& e.audio == Seq::<AudioAction>::empty()
            }),
            final(self)@.memory.len() == old(self)@.memory.len(),
            final(self)@.shift_register.amount <= 7,
    {
        proof {
            reveal(spec_execute_accumulator);
        }
        let value: u8 = self.e;
        alu::xor(self, value);
            
    }
    #[verifier::rlimit(100)]
    #[verifier::spinoff_prover]
    fn op_xra_h(&mut self, ports: &Vec<u8>)
        requires
            dispatch_inv(old(self)@),
            exec_ok(old(self)@, 0xac, ports@),
        ensures
            ({
                let e = spec_execute_accumulator(old(self)@, 0xac, ports@);
                &&& final(self)@ == e.cpu
                &&& e.ports == ports@
                &&& e.audio == Seq::<AudioAction>::empty()
            }),
            final(self)@.memory.len() == old(self)@.memory.len(),
            final(self)@.shift_register.amount <= 7,
    {
        proof {
            reveal(spec_execute_accumulator);
        }
        let value: u8 = self.h;
        alu::xor(self, value);
            
    }
    #[verifier::rlimit(100)]
    #[verifier::spinoff_prover]
    fn op_xra_l(&mut self, ports: &Vec<u8>)
        requires
            dispatch_inv(old(self)@),
            exec_ok(old(self)@, 0xad, ports@),
        ensures
            ({
                let e = spec_execute_accumulator(old(self)@, 0xad, ports@);
                &&& final(self)@ == e.cpu
                &&& e.ports == ports@
                &&& e.audio == Seq::<AudioAction>::empty()
            }),
            final(self)@.memory.len() == old(self)@.memory.len(),
            final(self)@.shift_register.amount <= 7,
    {
        proof {
            reveal(spec_execute_accumulator);
        }
        let value: u8 = self.l;
        alu::xor(self, value);
            
    }
    #[verifier::rlimit(100)]
    #[verifier::spinoff_prover]
    fn op_xra_m(&mut self, ports: &Vec<u8>)
        requires
            dispatch_inv(old(self)@),
            exec_ok(old(self)@, 0xae, ports@),
        ensures
            ({
                let e = spec_execute_accumulator(old(self)@, 0xae, ports@);
                &&& final(self)@ == e.cpu
                &&& e.ports == ports@
                &&& e.audio == Seq::<AudioAction>::empty()
            }),
            final(self)@.memory.len() == old(self)@.memory.len(),
            final(self)@.shift_register.amount <= 7,
    {
        proof {
            reveal(spec_execute_accumulator);
        }
        let value: u8 = self.read_hl_source();
        alu::xor(self, value);
            
    }
    #[verifier::rlimit(100)]
    #[verifier::spinoff_prover]
    fn op_xra_a(&mut self, ports: &Vec<u8>)
        requires
            dispatch_inv(old(self)@),
            exec_ok(old(self)@, 0xaf, ports@),
        ensures
            ({
                let e = spec_execute_accumulator(old(self)@, 0xaf, ports@);
                &&& final(self)@ == e.cpu
                &&& e.ports == ports@
                &&& e.audio == Seq::<AudioAction>::empty()
            }),
            final(self)@.memory.len() == old(self)@.memory.len(),
            final(self)@.shift_register.amount <= 7,
    {
        proof {
            reveal(spec_execute_accumulator);
        }
        let value: u8 = self.a;
        alu::xor(self, value);
            
    }
    #[verifier::rlimit(100)]
    #[verifier::spinoff_prover]
    fn op_ora_b(&mut self, ports: &Vec<u8>)
        requires
            dispatch_inv(old(self)@),
            exec_ok(old(self)@, 0xb0, ports@),
        ensures
            ({
                let e = spec_execute_accumulator(old(self)@, 0xb0, ports@);
                &&& final(self)@ == e.cpu
                &&& e.ports == ports@
                &&& e.audio == Seq::<AudioAction>::empty()
            }),
            final(self)@.memory.len() == old(self)@.memory.len(),
            final(self)@.shift_register.amount <= 7,
    {
        proof {
            reveal(spec_execute_accumulator);
        }
        let value: u8 = self.b;
        alu::or(self, value);
            
    }
    #[verifier::rlimit(100)]
    #[verifier::spinoff_prover]
    fn op_ora_c(&mut self, ports: &Vec<u8>)
        requires
            dispatch_inv(old(self)@),
            exec_ok(old(self)@, 0xb1, ports@),
        ensures
            ({
                let e = spec_execute_accumulator(old(self)@, 0xb1, ports@);
                &&& final(self)@ == e.cpu
                &&& e.ports == ports@
                &&& e.audio == Seq::<AudioAction>::empty()
            }),
            final(self)@.memory.len() == old(self)@.memory.len(),
            final(self)@.shift_register.amount <= 7,
    {
        proof {
            reveal(spec_execute_accumulator);
        }
        let value: u8 = self.c;
        alu::or(self, value);
            
    }
    #[verifier::rlimit(100)]
    #[verifier::spinoff_prover]
    fn op_ora_d(&mut self, ports: &Vec<u8>)
        requires
            dispatch_inv(old(self)@),
            exec_ok(old(self)@, 0xb2, ports@),
        ensures
            ({
                let e = spec_execute_accumulator(old(self)@, 0xb2, ports@);
                &&& final(self)@ == e.cpu
                &&& e.ports == ports@
                &&& e.audio == Seq::<AudioAction>::empty()
            }),
            final(self)@.memory.len() == old(self)@.memory.len(),
            final(self)@.shift_register.amount <= 7,
    {
        proof {
            reveal(spec_execute_accumulator);
        }
        let value: u8 = self.d;
        alu::or(self, value);
            
    }
    #[verifier::rlimit(100)]
    #[verifier::spinoff_prover]
    fn op_ora_e(&mut self, ports: &Vec<u8>)
        requires
            dispatch_inv(old(self)@),
            exec_ok(old(self)@, 0xb3, ports@),
        ensures
            ({
                let e = spec_execute_accumulator(old(self)@, 0xb3, ports@);
                &&& final(self)@ == e.cpu
                &&& e.ports == ports@
                &&& e.audio == Seq::<AudioAction>::empty()
            }),
            final(self)@.memory.len() == old(self)@.memory.len(),
            final(self)@.shift_register.amount <= 7,
    {
        proof {
            reveal(spec_execute_accumulator);
        }
        let value: u8 = self.e;
        alu::or(self, value);
            
    }
    #[verifier::rlimit(100)]
    #[verifier::spinoff_prover]
    fn op_ora_h(&mut self, ports: &Vec<u8>)
        requires
            dispatch_inv(old(self)@),
            exec_ok(old(self)@, 0xb4, ports@),
        ensures
            ({
                let e = spec_execute_accumulator(old(self)@, 0xb4, ports@);
                &&& final(self)@ == e.cpu
                &&& e.ports == ports@
                &&& e.audio == Seq::<AudioAction>::empty()
            }),
            final(self)@.memory.len() == old(self)@.memory.len(),
            final(self)@.shift_register.amount <= 7,
    {
        proof {
            reveal(spec_execute_accumulator);
        }
        let value: u8 = self.h;
        alu::or(self, value);
            
    }
    #[verifier::rlimit(100)]
    #[verifier::spinoff_prover]
    fn op_ora_l(&mut self, ports: &Vec<u8>)
        requires
            dispatch_inv(old(self)@),
            exec_ok(old(self)@, 0xb5, ports@),
        ensures
            ({
                let e = spec_execute_accumulator(old(self)@, 0xb5, ports@);
                &&& final(self)@ == e.cpu
                &&& e.ports == ports@
                &&& e.audio == Seq::<AudioAction>::empty()
            }),
            final(self)@.memory.len() == old(self)@.memory.len(),
            final(self)@.shift_register.amount <= 7,
    {
        proof {
            reveal(spec_execute_accumulator);
        }
        let value: u8 = self.l;
        alu::or(self, value);
            
    }
    #[verifier::rlimit(100)]
    #[verifier::spinoff_prover]
    fn op_ora_m(&mut self, ports: &Vec<u8>)
        requires
            dispatch_inv(old(self)@),
            exec_ok(old(self)@, 0xb6, ports@),
        ensures
            ({
                let e = spec_execute_accumulator(old(self)@, 0xb6, ports@);
                &&& final(self)@ == e.cpu
                &&& e.ports == ports@
                &&& e.audio == Seq::<AudioAction>::empty()
            }),
            final(self)@.memory.len() == old(self)@.memory.len(),
            final(self)@.shift_register.amount <= 7,
    {
        proof {
            reveal(spec_execute_accumulator);
        }
        let value: u8 = self.read_hl_source();
        alu::or(self, value);
            
    }
    #[verifier::rlimit(100)]
    #[verifier::spinoff_prover]
    fn op_ora_a(&mut self, ports: &Vec<u8>)
        requires
            dispatch_inv(old(self)@),
            exec_ok(old(self)@, 0xb7, ports@),
        ensures
            ({
                let e = spec_execute_accumulator(old(self)@, 0xb7, ports@);
                &&& final(self)@ == e.cpu
                &&& e.ports == ports@
                &&& e.audio == Seq::<AudioAction>::empty()
            }),
            final(self)@.memory.len() == old(self)@.memory.len(),
            final(self)@.shift_register.amount <= 7,
    {
        proof {
            reveal(spec_execute_accumulator);
        }
        let value: u8 = self.a;
        alu::or(self, value);
            
    }
    #[verifier::rlimit(100)]
    #[verifier::spinoff_prover]
    fn op_cmp_b(&mut self, ports: &Vec<u8>)
        requires
            dispatch_inv(old(self)@),
            exec_ok(old(self)@, 0xb8, ports@),
        ensures
            ({
                let e = spec_execute_accumulator(old(self)@, 0xb8, ports@);
                &&& final(self)@ == e.cpu
                &&& e.ports == ports@
                &&& e.audio == Seq::<AudioAction>::empty()
            }),
            final(self)@.memory.len() == old(self)@.memory.len(),
            final(self)@.shift_register.amount <= 7,
    {
        proof {
            reveal(spec_execute_accumulator);
        }
        let value: u8 = self.b;
        alu::compare(self, value);
            
    }
    #[verifier::rlimit(100)]
    #[verifier::spinoff_prover]
    fn op_cmp_c(&mut self, ports: &Vec<u8>)
        requires
            dispatch_inv(old(self)@),
            exec_ok(old(self)@, 0xb9, ports@),
        ensures
            ({
                let e = spec_execute_accumulator(old(self)@, 0xb9, ports@);
                &&& final(self)@ == e.cpu
                &&& e.ports == ports@
                &&& e.audio == Seq::<AudioAction>::empty()
            }),
            final(self)@.memory.len() == old(self)@.memory.len(),
            final(self)@.shift_register.amount <= 7,
    {
        proof {
            reveal(spec_execute_accumulator);
        }
        let value: u8 = self.c;
        alu::compare(self, value);
            
    }
    #[verifier::rlimit(100)]
    #[verifier::spinoff_prover]
    fn op_cmp_d(&mut self, ports: &Vec<u8>)
        requires
            dispatch_inv(old(self)@),
            exec_ok(old(self)@, 0xba, ports@),
        ensures
            ({
                let e = spec_execute_accumulator(old(self)@, 0xba, ports@);
                &&& final(self)@ == e.cpu
                &&& e.ports == ports@
                &&& e.audio == Seq::<AudioAction>::empty()
            }),
            final(self)@.memory.len() == old(self)@.memory.len(),
            final(self)@.shift_register.amount <= 7,
    {
        proof {
            reveal(spec_execute_accumulator);
        }
        let value: u8 = self.d;
        alu::compare(self, value);
            
    }
    #[verifier::rlimit(100)]
    #[verifier::spinoff_prover]
    fn op_cmp_e(&mut self, ports: &Vec<u8>)
        requires
            dispatch_inv(old(self)@),
            exec_ok(old(self)@, 0xbb, ports@),
        ensures
            ({
                let e = spec_execute_accumulator(old(self)@, 0xbb, ports@);
                &&& final(self)@ == e.cpu
                &&& e.ports == ports@
                &&& e.audio == Seq::<AudioAction>::empty()
            }),
            final(self)@.memory.len() == old(self)@.memory.len(),
            final(self)@.shift_register.amount <= 7,
    {
        proof {
            reveal(spec_execute_accumulator);
        }
        let value: u8 = self.e;
        alu::compare(self, value);
            
    }
    #[verifier::rlimit(100)]
    #[verifier::spinoff_prover]
    fn op_cmp_h(&mut self, ports: &Vec<u8>)
        requires
            dispatch_inv(old(self)@),
            exec_ok(old(self)@, 0xbc, ports@),
        ensures
            ({
                let e = spec_execute_accumulator(old(self)@, 0xbc, ports@);
                &&& final(self)@ == e.cpu
                &&& e.ports == ports@
                &&& e.audio == Seq::<AudioAction>::empty()
            }),
            final(self)@.memory.len() == old(self)@.memory.len(),
            final(self)@.shift_register.amount <= 7,
    {
        proof {
            reveal(spec_execute_accumulator);
        }
        let value: u8 = self.h;
        alu::compare(self, value);
            
    }
    #[verifier::rlimit(100)]
    #[verifier::spinoff_prover]
    fn op_cmp_l(&mut self, ports: &Vec<u8>)
        requires
            dispatch_inv(old(self)@),
            exec_ok(old(self)@, 0xbd, ports@),
        ensures
            ({
                let e = spec_execute_accumulator(old(self)@, 0xbd, ports@);
                &&& final(self)@ == e.cpu
                &&& e.ports == ports@
                &&& e.audio == Seq::<AudioAction>::empty()
            }),
            final(self)@.memory.len() == old(self)@.memory.len(),
            final(self)@.shift_register.amount <= 7,
    {
        proof {
            reveal(spec_execute_accumulator);
        }
        let value: u8 = self.l;
        alu::compare(self, value);
            
    }
    #[verifier::rlimit(100)]
    #[verifier::spinoff_prover]
    fn op_cmp_m(&mut self, ports: &Vec<u8>)
        requires
            dispatch_inv(old(self)@),
            exec_ok(old(self)@, 0xbe, ports@),
        ensures
            ({
                let e = spec_execute_accumulator(old(self)@, 0xbe, ports@);
                &&& final(self)@ == e.cpu
                &&& e.ports == ports@
                &&& e.audio == Seq::<AudioAction>::empty()
            }),
            final(self)@.memory.len() == old(self)@.memory.len(),
            final(self)@.shift_register.amount <= 7,
    {
        proof {
            reveal(spec_execute_accumulator);
        }
        let value: u8 = self.read_hl_source();
        alu::compare(self, value);
            
    }
    #[verifier::rlimit(100)]
    #[verifier::spinoff_prover]
    fn op_cmp_a(&mut self, ports: &Vec<u8>)
        requires
            dispatch_inv(old(self)@),
            exec_ok(old(self)@, 0xbf, ports@),
        ensures
            ({
                let e = spec_execute_accumulator(old(self)@, 0xbf, ports@);
                &&& final(self)@ == e.cpu
                &&& e.ports == ports@
                &&& e.audio == Seq::<AudioAction>::empty()
            }),
            final(self)@.memory.len() == old(self)@.memory.len(),
            final(self)@.shift_register.amount <= 7,
    {
        proof {
            reveal(spec_execute_accumulator);
        }
        let value: u8 = self.a;
        alu::compare(self, value);
            
    }
    #[verifier::rlimit(100)]
    #[verifier::spinoff_prover]
    fn op_rnz(&mut self, ports: &mut Vec<u8>)
        requires
            dispatch_inv(old(self)@),
            exec_ok(old(self)@, 0xc0, old(ports)@),
        ensures
            ({
                let e = spec_execute_control_c(old(self)@, 0xc0, old(ports)@);
                &&& final(self)@ == e.cpu
                &&& final(ports)@ == e.ports
                &&& e.audio == Seq::<AudioAction>::empty()
            }),
            final(self)@.memory.len() == old(self)@.memory.len(),
            final(self)@.shift_register.amount <= 7,
    {
        proof {
            reveal(spec_execute_control_c);
        }
        let condition: bool = !self.flags.zero;
        flow::ret(self, condition);
            
    }
    #[verifier::rlimit(100)]
    #[verifier::spinoff_prover]
    fn op_pop_b(&mut self, ports: &mut Vec<u8>)
        requires
            dispatch_inv(old(self)@),
            exec_ok(old(self)@, 0xc1, old(ports)@),
        ensures
            ({
                let e = spec_execute_control_c(old(self)@, 0xc1, old(ports)@);
                &&& final(self)@ == e.cpu
                &&& final(ports)@ == e.ports
                &&& e.audio == Seq::<AudioAction>::empty()
            }),
            final(self)@.memory.len() == old(self)@.memory.len(),
            final(self)@.shift_register.amount <= 7,
    {
        proof {
            reveal(spec_execute_control_c);
        }
        let popped: (u8, u8) = stack::pop_off_stack(self);
        self.b = popped.0;
        self.c = popped.1;
            
    }
    #[verifier::rlimit(100)]
    #[verifier::spinoff_prover]
    fn op_jnz(&mut self, ports: &mut Vec<u8>)
        requires
            dispatch_inv(old(self)@),
            exec_ok(old(self)@, 0xc2, old(ports)@),
        ensures
            ({
                let e = spec_execute_control_c(old(self)@, 0xc2, old(ports)@);
                &&& final(self)@ == e.cpu
                &&& final(ports)@ == e.ports
                &&& e.audio == Seq::<AudioAction>::empty()
            }),
            final(self)@.memory.len() == old(self)@.memory.len(),
            final(self)@.shift_register.amount <= 7,
    {
        proof {
            reveal(spec_execute_control_c);
        }
        let condition: bool = !self.flags.zero;
        flow::jump(self, condition);
            
    }
    #[verifier::rlimit(100)]
    #[verifier::spinoff_prover]
    fn op_jmp(&mut self, ports: &mut Vec<u8>)
        requires
            dispatch_inv(old(self)@),
            exec_ok(old(self)@, 0xc3, old(ports)@),
        ensures
            ({
                let e = spec_execute_control_c(old(self)@, 0xc3, old(ports)@);
                &&& final(self)@ == e.cpu
                &&& final(ports)@ == e.ports
                &&& e.audio == Seq::<AudioAction>::empty()
            }),
            final(self)@.memory.len() == old(self)@.memory.len(),
            final(self)@.shift_register.amount <= 7,
    {
        proof {
            reveal(spec_execute_control_c);
        }
        flow::jump(self, true);
            
    }
    #[verifier::rlimit(100)]
    #[verifier::spinoff_prover]
    fn op_cnz(&mut self, ports: &mut Vec<u8>)
        requires
            dispatch_inv(old(self)@),
            exec_ok(old(self)@, 0xc4, old(ports)@),
        ensures
            ({
                let e = spec_execute_control_c(old(self)@, 0xc4, old(ports)@);
                &&& final(self)@ == e.cpu
                &&& final(ports)@ == e.ports
                &&& e.audio == Seq::<AudioAction>::empty()
            }),
            final(self)@.memory.len() == old(self)@.memory.len(),
            final(self)@.shift_register.amount <= 7,
    {
        proof {
            reveal(spec_execute_control_c);
        }
        let condition: bool = !self.flags.zero;
        flow::call(self, condition);
            
    }
    #[verifier::rlimit(100)]
    #[verifier::spinoff_prover]
    fn op_push_b(&mut self, ports: &mut Vec<u8>)
        requires
            dispatch_inv(old(self)@),
            exec_ok(old(self)@, 0xc5, old(ports)@),
        ensures
            ({
                let e = spec_execute_control_c(old(self)@, 0xc5, old(ports)@);
                &&& final(self)@ == e.cpu
                &&& final(ports)@ == e.ports
                &&& e.audio == Seq::<AudioAction>::empty()
            }),
            final(self)@.memory.len() == old(self)@.memory.len(),
            final(self)@.shift_register.amount <= 7,
    {
        proof {
            reveal(spec_execute_control_c);
        }
        let hi: u8 = self.b;
        let lo: u8 = self.c;
        stack::push_onto_stack(self, hi, lo);
            
    }
    #[verifier::rlimit(100)]
    #[verifier::spinoff_prover]
    fn op_adi(&mut self, ports: &mut Vec<u8>)
        requires
            dispatch_inv(old(self)@),
            exec_ok(old(self)@, 0xc6, old(ports)@),
        ensures
            ({
                let e = spec_execute_control_c(old(self)@, 0xc6, old(ports)@);
                &&& final(self)@ == e.cpu
                &&& final(ports)@ == e.ports
                &&& e.audio == Seq::<AudioAction>::empty()
            }),
            final(self)@.memory.len() == old(self)@.memory.len(),
            final(self)@.shift_register.amount <= 7,
    {
        proof {
            reveal(spec_execute_control_c);
        }
        let value: u8 = self.memory[self.program_counter as usize];
        alu::add(self, value, false);
        self.program_counter = self.program_counter + 1;
            
    }
    #[verifier::rlimit(100)]
    #[verifier::spinoff_prover]
    fn op_rst_0(&mut self, ports: &mut Vec<u8>)
        requires
            dispatch_inv(old(self)@),
            exec_ok(old(self)@, 0xc7, old(ports)@),
        ensures
            ({
                let e = spec_execute_control_c(old(self)@, 0xc7, old(ports)@);
                &&& final(self)@ == e.cpu
                &&& final(ports)@ == e.ports
                &&& e.audio == Seq::<AudioAction>::empty()
            }),
            final(self)@.memory.len() == old(self)@.memory.len(),
            final(self)@.shift_register.amount <= 7,
    {
        proof {
            reveal(spec_execute_control_c);
        }
        flow::reset(self, 0x00);
            
    }
    #[verifier::rlimit(100)]
    #[verifier::spinoff_prover]
    fn op_rz(&mut self, ports: &mut Vec<u8>)
        requires
            dispatch_inv(old(self)@),
            exec_ok(old(self)@, 0xc8, old(ports)@),
        ensures
            ({
                let e = spec_execute_control_c(old(self)@, 0xc8, old(ports)@);
                &&& final(self)@ == e.cpu
                &&& final(ports)@ == e.ports
                &&& e.audio == Seq::<AudioAction>::empty()
            }),
            final(self)@.memory.len() == old(self)@.memory.len(),
            final(self)@.shift_register.amount <= 7,
    {
        proof {
            reveal(spec_execute_control_c);
        }
        let condition: bool = self.flags.zero;
        flow::ret(self, condition);
            
    }
    #[verifier::rlimit(100)]
    #[verifier::spinoff_prover]
    fn op_ret(&mut self, ports: &mut Vec<u8>)
        requires
            dispatch_inv(old(self)@),
            exec_ok(old(self)@, 0xc9, old(ports)@),
        ensures
            ({
                let e = spec_execute_control_c(old(self)@, 0xc9, old(ports)@);
                &&& final(self)@ == e.cpu
                &&& final(ports)@ == e.ports
                &&& e.audio == Seq::<AudioAction>::empty()
            }),
            final(self)@.memory.len() == old(self)@.memory.len(),
            final(self)@.shift_register.amount <= 7,
    {
        proof {
            reveal(spec_execute_control_c);
        }
        flow::ret(self, true);
            
    }
    #[verifier::rlimit(100)]
    #[verifier::spinoff_prover]
    fn op_jz(&mut self, ports: &mut Vec<u8>)
        requires
            dispatch_inv(old(self)@),
            exec_ok(old(self)@, 0xca, old(ports)@),
        ensures
            ({
                let e = spec_execute_control_c(old(self)@, 0xca, old(ports)@);
                &&& final(self)@ == e.cpu
                &&& final(ports)@ == e.ports
                &&& e.audio == Seq::<AudioAction>::empty()
            }),
            final(self)@.memory.len() == old(self)@.memory.len(),
            final(self)@.shift_register.amount <= 7,
    {
        proof {
            reveal(spec_execute_control_c);
        }
        let condition: bool = self.flags.zero;
        flow::jump(self, condition);
            
    }
    #[verifier::rlimit(100)]
    #[verifier::spinoff_prover]
    fn op_cz(&mut self, ports: &mut Vec<u8>)
        requires
            dispatch_inv(old(self)@),
            exec_ok(old(self)@, 0xcc, old(ports)@),
        ensures
            ({
                let e = spec_execute_control_c(old(self)@, 0xcc, old(ports)@);
                &&& final(self)@ == e.cpu
                &&& final(ports)@ == e.ports
                &&& e.audio == Seq::<AudioAction>::empty()
            }),
            final(self)@.memory.len() == old(self)@.memory.len(),
            final(self)@.shift_register.amount <= 7,
    {
        proof {
            reveal(spec_execute_control_c);
        }
        let condition: bool = self.flags.zero;
        flow::call(self, condition);
            
    }
    #[verifier::rlimit(100)]
    #[verifier::spinoff_prover]
    fn op_call(&mut self, ports: &mut Vec<u8>)
        requires
            dispatch_inv(old(self)@),
            exec_ok(old(self)@, 0xcd, old(ports)@),
        ensures
            ({
                let e = spec_execute_control_c(old(self)@, 0xcd, old(ports)@);
                &&& final(self)@ == e.cpu
                &&& final(ports)@ == e.ports
                &&& e.audio == Seq::<AudioAction>::empty()
            }),
            final(self)@.memory.len() == old(self)@.memory.len(),
            final(self)@.shift_register.amount <= 7,
    {
        proof {
            reveal(spec_execute_control_c);
        }
        flow::call(self, true);
            
    }
    #[verifier::rlimit(100)]
    #[verifier::spinoff_prover]
    fn op_aci(&mut self, ports: &mut Vec<u8>)
        requires
            dispatch_inv(old(self)@),
            exec_ok(old(self)@, 0xce, old(ports)@),
        ensures
            ({
                let e = spec_execute_control_c(old(self)@, 0xce, old(ports)@);
                &&& final(self)@ == e.cpu
                &&& final(ports)@ == e.ports
                &&& e.audio == Seq::<AudioAction>::empty()
            }),
            final(self)@.memory.len() == old(self)@.memory.len(),
            final(self)@.shift_register.amount <= 7,
    {
        proof {
            reveal(spec_execute_control_c);
        }
        let value: u8 = self.memory[self.program_counter as usize];
        let carry: bool = self.flags.carry;
        alu::add(self, value, carry);
        self.program_counter = self.program_counter + 1;
            
    }
    #[verifier::rlimit(100)]
    #[verifier::spinoff_prover]
    fn op_rst_1(&mut self, ports: &mut Vec<u8>)
        requires
            dispatch_inv(old(self)@),
            exec_ok(old(self)@, 0xcf, old(ports)@),
        ensures
            ({
                let e = spec_execute_control_c(old(self)@, 0xcf, old(ports)@);
                &&& final(self)@ == e.cpu
                &&& final(ports)@ == e.ports
                &&& e.audio == Seq::<AudioAction>::empty()
            }),
            final(self)@.memory.len() == old(self)@.memory.len(),
            final(self)@.shift_register.amount <= 7,
    {
        proof {
            reveal(spec_execute_control_c);
        }
        flow::reset(self, 0x08);
            
    }
    #[verifier::rlimit(100)]
    #[verifier::spinoff_prover]
    fn op_rnc(&mut self, ports: &mut Vec<u8>)
        requires
            dispatch_inv(old(self)@),
            exec_ok(old(self)@, 0xd0, old(ports)@),
        ensures
            ({
                let e = spec_execute_control_d(old(self)@, 0xd0, old(ports)@);
                &&& final(self)@ == e.cpu
                &&& final(ports)@ == e.ports
                &&& e.audio == Seq::<AudioAction>::empty()
            }),
            final(self)@.memory.len() == old(self)@.memory.len(),
            final(self)@.shift_register.amount <= 7,
    {
        proof {
            reveal(spec_execute_control_d);
        }
        let condition: bool = !self.flags.carry;
        flow::ret(self, condition);
            
    }
    #[verifier::rlimit(100)]
    #[verifier::spinoff_prover]
    fn op_pop_d(&mut self, ports: &mut Vec<u8>)
        requires
            dispatch_inv(old(self)@),
            exec_ok(old(self)@, 0xd1, old(ports)@),
        ensures
            ({
                let e = spec_execute_control_d(old(self)@, 0xd1, old(ports)@);
                &&& final(self)@ == e.cpu
                &&& final(ports)@ == e.ports
                &&& e.audio == Seq::<AudioAction>::empty()
            }),
            final(self)@.memory.len() == old(self)@.memory.len(),
            final(self)@.shift_register.amount <= 7,
    {
        proof {
            reveal(spec_execute_control_d);
        }
        let popped: (u8, u8) = stack::pop_off_stack(self);
        self.d = popped.0;
        self.e = popped.1;
            
    }
    #[verifier::rlimit(100)]
    #[verifier::spinoff_prover]
    fn op_jnc(&mut self, ports: &mut Vec<u8>)
        requires
            dispatch_inv(old(self)@),
            exec_ok(old(self)@, 0xd2, old(ports)@),
        ensures
            ({
                let e = spec_execute_control_d(old(self)@, 0xd2, old(ports)@);
                &&& final(self)@ == e.cpu
                &&& final(ports)@ == e.ports
                &&& e.audio == Seq::<AudioAction>::empty()
            }),
            final(self)@.memory.len() == old(self)@.memory.len(),
            final(self)@.shift_register.amount <= 7,
    {
        proof {
            reveal(spec_execute_control_d);
        }
        let condition: bool = !self.flags.carry;
        flow::jump(self, condition);
            
    }
    #[verifier::rlimit(100)]
    #[verifier::spinoff_prover]
    fn op_output(&mut self, ports: &mut Vec<u8>) -> (r: Vec<AudioAction>)
        requires
            dispatch_inv(old(self)@),
            exec_ok(old(self)@, 0xd3, old(ports)@),
        ensures
            ({
                let e = spec_execute_control_d(old(self)@, 0xd3, old(ports)@);
                &&& final(self)@ == e.cpu
                &&& final(ports)@ == e.ports
                &&& r@ == e.audio
            }),
            final(self)@.memory.len() == old(self)@.memory.len(),
            final(self)@.shift_register.amount <= 7,
    {
        proof {
            reveal(spec_execute_control_d);
        }
        let mut actions: Vec<AudioAction> = Vec::new();
        let port: u8 = self.memory[self.program_counter as usize];
        let value: u8 = self.a;
        actions = match self.io {
            IoDevice::Test => {
                io_handlers::test_out(self, port, value, ports);
                Vec::new()
            },
            IoDevice::SpaceInvaders => io_handlers::space_invaders_out(
                self,
                port,
                value,
                ports,
            ),
        };
        self.program_counter = self.program_counter + 1;
            
        actions
    }
    #[verifier::rlimit(100)]
    #[verifier::spinoff_prover]
    fn op_cnc(&mut self, ports: &mut Vec<u8>)
        requires
            dispatch_inv(old(self)@),
            exec_ok(old(self)@, 0xd4, old(ports)@),
        ensures
            ({
                let e = spec_execute_control_d(old(self)@, 0xd4, old(ports)@);
                &&& final(self)@ == e.cpu
                &&& final(ports)@ == e.ports
                &&& e.audio == Seq::<AudioAction>::empty()
            }),
            final(self)@.memory.len() == old(self)@.memory.len(),
            final(self)@.shift_register.amount <= 7,
    {
        proof {
            reveal(spec_execute_control_d);
        }
        let condition: bool = !self.flags.carry;
        flow::call(self, condition);
            
    }
    #[verifier::rlimit(100)]
    #[verifier::spinoff_prover]
    fn op_push_d(&mut self, ports: &mut Vec<u8>)
        requires
            dispatch_inv(old(self)@),
            exec_ok(old(self)@, 0xd5, old(ports)@),
        ensures
            ({
                let e = spec_execute_control_d(old(self)@, 0xd5, old(ports)@);
                &&& final(self)@ == e.cpu
                &&& final(ports)@ == e.ports
                &&& e.audio == Seq::<AudioAction>::empty()
            }),
            final(self)@.memory.len() == old(self)@.memory.len(),
            final(self)@.shift_register.amount <= 7,
    {
        proof {
            reveal(spec_execute_control_d);
        }
        let hi: u8 = self.d;
        let lo: u8 = self.e;
        stack::push_onto_stack(self, hi, lo);
            
    }
    #[verifier::rlimit(100)]
    #[verifier::spinoff_prover]
    fn op_sui(&mut self, ports: &mut Vec<u8>)
        requires
            dispatch_inv(old(self)@),
            exec_ok(old(self)@, 0xd6, old(ports)@),
        ensures
            ({
                let e = spec_execute_control_d(old(self)@, 0xd6, old(ports)@);
                &&& final(self)@ == e.cpu
                &&& final(ports)@ == e.ports
                &&& e.audio == Seq::<AudioAction>::empty()
            }),
            final(self)@.memory.len() == old(self)@.memory.len(),
            final(self)@.shift_register.amount <= 7,
    {
        proof {
            reveal(spec_execute_control_d);
        }
        let value: u8 = self.memory[self.program_counter as usize];
        alu::subtract(self, value, false);
        self.program_counter = self.program_counter + 1;
            
    }
    #[verifier::rlimit(100)]
    #[verifier::spinoff_prover]
    fn op_rst_2(&mut self, ports: &mut Vec<u8>)
        requires
            dispatch_inv(old(self)@),
            exec_ok(old(self)@, 0xd7, old(ports)@),
        ensures
            ({
                let e = spec_execute_control_d(old(self)@, 0xd7, old(ports)@);
                &&& final(self)@ == e.cpu
                &&& final(ports)@ == e.ports
                &&& e.audio == Seq::<AudioAction>::empty()
            }),
            final(self)@.memory.len() == old(self)@.memory.len(),
            final(self)@.shift_register.amount <= 7,
    {
        proof {
            reveal(spec_execute_control_d);
        }
        flow::reset(self, 0x10);
            
    }
    #[verifier::rlimit(100)]
    #[verifier::spinoff_prover]
    fn op_rc(&mut self, ports: &mut Vec<u8>)
        requires
            dispatch_inv(old(self)@),
            exec_ok(old(self)@, 0xd8, old(ports)@),
        ensures
            ({
                let e = spec_execute_control_d(old(self)@, 0xd8, old(ports)@);
                &&& final(self)@ == e.cpu
                &&& final(ports)@ == e.ports
                &&& e.audio == Seq::<AudioAction>::empty()
            }),
            final(self)@.memory.len() == old(self)@.memory.len(),
            final(self)@.shift_register.amount <= 7,
    {
        proof {
            reveal(spec_execute_control_d);
        }
        let condition: bool = self.flags.carry;
        flow::ret(self, condition);
            
    }
    #[verifier::rlimit(100)]
    #[verifier::spinoff_prover]
    fn op_jc(&mut self, ports: &mut Vec<u8>)
        requires
            dispatch_inv(old(self)@),
            exec_ok(old(self)@, 0xda, old(ports)@),
        ensures
            ({
                let e = spec_execute_control_d(old(self)@, 0xda, old(ports)@);
                &&& final(self)@ == e.cpu
                &&& final(ports)@ == e.ports
                &&& e.audio == Seq::<AudioAction>::empty()
            }),
            final(self)@.memory.len() == old(self)@.memory.len(),
            final(self)@.shift_register.amount <= 7,
    {
        proof {
            reveal(spec_execute_control_d);
        }
        let condition: bool = self.flags.carry;
        flow::jump(self, condition);
            
    }
    #[verifier::rlimit(100)]
    #[verifier::spinoff_prover]
    fn op_input(&mut self, ports: &mut Vec<u8>)
        requires
            dispatch_inv(old(self)@),
            exec_ok(old(self)@, 0xdb, old(ports)@),
        ensures
            ({
                let e = spec_execute_control_d(old(self)@, 0xdb, old(ports)@);
                &&& final(self)@ == e.cpu
                &&& final(ports)@ == e.ports
                &&& e.audio == Seq::<AudioAction>::empty()
            }),
            final(self)@.memory.len() == old(self)@.memory.len(),
            final(self)@.shift_register.amount <= 7,
    {
        proof {
            reveal(spec_execute_control_d);
        }
        let port: u8 = self.memory[self.program_counter as usize];
        let value: u8 = match self.io {
            IoDevice::Test => io_handlers::test_in(self, port, ports),
            IoDevice::SpaceInvaders => io_handlers::space_invaders_in(self, port, ports),
        };
        self.a = value;
        self.program_counter = self.program_counter + 1;
            
    }
    #[verifier::rlimit(100)]
    #[verifier::spinoff_prover]
    fn op_cc(&mut self, ports: &mut Vec<u8>)
        requires
            dispatch_inv(old(self)@),
            exec_ok(old(self)@, 0xdc, old(ports)@),
        ensures
            ({
                let e = spec_execute_control_d(old(self)@, 0xdc, old(ports)@);
                &&& final(self)@ == e.cpu
                &&& final(ports)@ == e.ports
                &&& e.audio == Seq::<AudioAction>::empty()
            }),
            final(self)@.memory.len() == old(self)@.memory.len(),
            final(self)@.shift_register.amount <= 7,
    {
        proof {
            reveal(spec_execute_control_d);
        }
        let condition: bool = self.flags.carry;
        flow::call(self, condition);
            
    }
    #[verifier::rlimit(100)]
    #[verifier::spinoff_prover]
    fn op_sbi(&mut self, ports: &mut Vec<u8>)
        requires
            dispatch_inv(old(self)@),
            exec_ok(old(self)@, 0xde, old(ports)@),
        ensures
            ({
                let e = spec_execute_control_d(old(self)@, 0xde, old(ports)@);
                &&& final(self)@ == e.cpu
                &&& final(ports)@ == e.ports
                &&& e.audio == Seq::<AudioAction>::empty()
            }),
            final(self)@.memory.len() == old(self)@.memory.len(),
            final(self)@.shift_register.amount <= 7,
    {
        proof {
            reveal(spec_execute_control_d);
        }
        let value: u8 = self.memory[self.program_counter as usize];
        let carry: bool = self.flags.carry;
        alu::subtract(self, value, carry);
        self.program_counter = self.program_counter + 1;
            
    }
    #[verifier::rlimit(100)]
    #[verifier::spinoff_prover]
    fn op_rst_3(&mut self, ports: &mut Vec<u8>)
        requires
            dispatch_inv(old(self)@),
            exec_ok(old(self)@, 0xdf, old(ports)@),
        ensures
            ({
                let e = spec_execute_control_d(old(self)@, 0xdf, old(ports)@);
                &&& final(self)@ == e.cpu
                &&& final(ports)@ == e.ports
                &&& e.audio == Seq::<AudioAction>::empty()
            }),
            final(self)@.memory.len() == old(self)@.memory.len(),
            final(self)@.shift_register.amount <= 7,
    {
        proof {
            reveal(spec_execute_control_d);
        }
        flow::reset(self, 0x18);
            
    }
    #[verifier::rlimit(100)]
    #[verifier::spinoff_prover]
    fn op_rpo(&mut self, ports: &mut Vec<u8>)
        requires
            dispatch_inv(old(self)@),
            exec_ok(old(self)@, 0xe0, old(ports)@),
        ensures
            ({
                let e = spec_execute_control_e(old(self)@, 0xe0, old(ports)@);
                &&& final(self)@ == e.cpu
                &&& final(ports)@ == e.ports
                &&& e.audio == Seq::<AudioAction>::empty()
            }),
            final(self)@.memory.len() == old(self)@.memory.len(),
            final(self)@.shift_register.amount <= 7,
    {
        proof {
            reveal(spec_execute_control_e);
        }
        let condition: bool = !self.flags.parity;
        flow::ret(self, condition);
            
    }
    #[verifier::rlimit(100)]
    #[verifier::spinoff_prover]
    fn op_pop_h(&mut self, ports: &mut Vec<u8>)
        requires
            dispatch_inv(old(self)@),
            exec_ok(old(self)@, 0xe1, old(ports)@),
        ensures
            ({
                let e = spec_execute_control_e(old(self)@, 0xe1, old(ports)@);
                &&& final(self)@ == e.cpu
                &&& final(ports)@ == e.ports
                &&& e.audio == Seq::<AudioAction>::empty()
            }),
            final(self)@.memory.len() == old(self)@.memory.len(),
            final(self)@.shift_register.amount <= 7,
    {
        proof {
            reveal(spec_execute_control_e);
        }
        let popped: (u8, u8) = stack::pop_off_stack(self);
        self.h = popped.0;
        self.l = popped.1;
            
    }
    #[verifier::rlimit(100)]
    #[verifier::spinoff_prover]
    fn op_jpo(&mut self, ports: &mut Vec<u8>)
        requires
            dispatch_inv(old(self)@),
            exec_ok(old(self)@, 0xe2, old(ports)@),
        ensures
            ({
                let e = spec_execute_control_e(old(self)@, 0xe2, old(ports)@);
                &&& final(self)@ == e.cpu
                &&& final(ports)@ == e.ports
                &&& e.audio == Seq::<AudioAction>::empty()
            }),
            final(self)@.memory.len() == old(self)@.memory.len(),
            final(self)@.shift_register.amount <= 7,
    {
        proof {
            reveal(spec_execute_control_e);
        }
        let condition: bool = !self.flags.parity;
        flow::jump(self, condition);
            
    }
    #[verifier::rlimit(100)]
    #[verifier::spinoff_prover]
    fn op_xthl(&mut self, ports: &mut Vec<u8>)
        requires
            dispatch_inv(old(self)@),
            exec_ok(old(self)@, 0xe3, old(ports)@),
        ensures
            final(self)@ == spec_exchange_top(old(self)@),
            final(ports)@ == old(ports)@,
            final(self)@.memory.len() == old(self)@.memory.len(),
            final(self)@.shift_register.amount <= 7,
    {
        let sp: usize = self.stack_pointer as usize;
        let stacked_high: u8 = self.memory[sp + 1];
        let stacked_low: u8 = self.memory[sp];
        let high_temp: u8 = self.h;
        let low_temp: u8 = self.l;
        self.h = stacked_high;
        self.l = stacked_low;
        self.memory.set(sp + 1, high_temp);
        self.memory.set(sp, low_temp);
        proof {
            assert(self@.memory =~= spec_exchange_top(old(self)@).memory);
            assert(self@ =~= spec_exchange_top(old(self)@));
        }
    }
    #[verifier::rlimit(100)]
    #[verifier::spinoff_prover]
    fn op_cpo(&mut self, ports: &mut Vec<u8>)
        requires
            dispatch_inv(old(self)@),
            exec_ok(old(self)@, 0xe4, old(ports)@),
        ensures
            ({
                let e = spec_execute_control_e(old(self)@, 0xe4, old(ports)@);
                &&& final(self)@ == e.cpu
                &&& final(ports)@ == e.ports
                &&& e.audio == Seq::<AudioAction>::empty()
            }),
            final(self)@.memory.len() == old(self)@.memory.len(),
            final(self)@.shift_register.amount <= 7,
    {
        proof {
            reveal(spec_execute_control_e);
        }
        let condition: bool = !self.flags.parity;
        flow::call(self, condition);
            
    }
    #[verifier::rlimit(100)]
    #[verifier::spinoff_prover]
    fn op_push_h(&mut self, ports: &mut Vec<u8>)
        requires
            dispatch_inv(old(self)@),
            exec_ok(old(self)@, 0xe5, old(ports)@),
        ensures
            ({
                let e = spec_execute_control_e(old(self)@, 0xe5, old(ports)@);
                &&& final(self)@ == e.cpu
                &&& final(ports)@ == e.ports
                &&& e.audio == Seq::<AudioAction>::empty()
            }),
            final(self)@.memory.len() == old(self)@.memory.len(),
            final(self)@.shift_register.amount <= 7,
    {
        proof {
            reveal(spec_execute_control_e);
        }
        let hi: u8 = self.h;
        let lo: u8 = self.l;
        stack::push_onto_stack(self, hi, lo);
            
    }
    #[verifier::rlimit(100)]
    #[verifier::spinoff_prover]
    fn op_ani(&mut self, ports: &mut Vec<u8>)
        requires
            dispatch_inv(old(self)@),
            exec_ok(old(self)@, 0xe6, old(ports)@),
        ensures
            ({
                let e = spec_execute_control_e(old(self)@, 0xe6, old(ports)@);
                &&& final(self)@ == e.cpu
                &&& final(ports)@ == e.ports
                &&& e.audio == Seq::<AudioAction>::empty()
            }),
            final(self)@.memory.len() == old(self)@.memory.len(),
            final(self)@.shift_register.amount <= 7,
    {
        proof {
            reveal(spec_execute_control_e);
        }
        let value: u8 = self.memory[self.program_counter as usize];
        alu::and(self, value);
        self.program_counter = self.program_counter + 1;
            
    }
    #[verifier::rlimit(100)]
    #[verifier::spinoff_prover]
    fn op_rst_4(&mut self, ports: &mut Vec<u8>)
        requires
            dispatch_inv(old(self)@),
            exec_ok(old(self)@, 0xe7, old(ports)@),
        ensures
            ({
                let e = spec_execute_control_e(old(self)@, 0xe7, old(ports)@);
                &&& final(self)@ == e.cpu
                &&& final(ports)@ == e.ports
                &&& e.audio == Seq::<AudioAction>::empty()
            }),
            final(self)@.memory.len() == old(self)@.memory.len(),
            final(self)@.shift_register.amount <= 7,
    {
        proof {
            reveal(spec_execute_control_e);
        }
        flow::reset(self, 0x20);
            
    }
    #[verifier::rlimit(100)]
    #[verifier::spinoff_prover]
    fn op_rpe(&mut self, ports: &mut Vec<u8>)
        requires
            dispatch_inv(old(self)@),
            exec_ok(old(self)@, 0xe8, old(ports)@),
        ensures
            ({
                let e = spec_execute_control_e(old(self)@, 0xe8, old(ports)@);
                &&& final(self)@ == e.cpu
                &&& final(ports)@ == e.ports
                &&& e.audio == Seq::<AudioAction>::empty()
            }),
            final(self)@.memory.len() == old(self)@.memory.len(),
            final(self)@.shift_register.amount <= 7,
    {
        proof {
            reveal(spec_execute_control_e);
        }
        let condition: bool = self.flags.parity;
        flow::ret(self, condition);
            
    }
    #[verifier::rlimit(100)]
    #[verifier::spinoff_prover]
    fn op_pchl(&mut self, ports: &mut Vec<u8>)
        requires
            dispatch_inv(old(self)@),
            exec_ok(old(self)@, 0xe9, old(ports)@),
        ensures
            ({
                let e = spec_execute_control_e(old(self)@, 0xe9, old(ports)@);
                &&& final(self)@ == e.cpu
                &&& final(ports)@ == e.ports
                &&& e.audio == Seq::<AudioAction>::empty()
            }),
            final(self)@.memory.len() == old(self)@.memory.len(),
            final(self)@.shift_register.amount <= 7,
    {
        proof {
            reveal(spec_execute_control_e);
        }
        let max: u16 = (self.memory.len() - 1) as u16;
        let mut hi: u8 = self.h;
        let mut lo: u8 = self.l;
        let address: u16 = addressing::get_address_from_pair(&mut hi, &mut lo, max);
        self.h = hi;
        self.l = lo;
        self.program_counter = address;
            
    }
    #[verifier::rlimit(100)]
    #[verifier::spinoff_prover]
    fn op_jpe(&mut self, ports: &mut Vec<u8>)
        requires
            dispatch_inv(old(self)@),
            exec_ok(old(self)@, 0xea, old(ports)@),
        ensures
            ({
                let e = spec_execute_control_e(old(self)@, 0xea, old(ports)@);
                &&& final(self)@ == e.cpu
                &&& final(ports)@ == e.ports
                &&& e.audio == Seq::<AudioAction>::empty()
            }),
            final(self)@.memory.len() == old(self)@.memory.len(),
            final(self)@.shift_register.amount <= 7,
    {
        proof {
            reveal(spec_execute_control_e);
        }
        let condition: bool = self.flags.parity;
        flow::jump(self, condition);
            
    }
    #[verifier::rlimit(100)]
    #[verifier::spinoff_prover]
    fn op_xchg(&mut self, ports: &mut Vec<u8>)
        requires
            dispatch_inv(old(self)@),
            exec_ok(old(self)@, 0xeb, old(ports)@),
        ensures
            ({
                let e = spec_execute_control_e(old(self)@, 0xeb, old(ports)@);
                &&& final(self)@ == e.cpu
                &&& final(ports)@ == e.ports
                &&& e.audio == Seq::<AudioAction>::empty()
            }),
            final(self)@.memory.len() == old(self)@.memory.len(),
            final(self)@.shift_register.amount <= 7,
    {
        proof {
            reveal(spec_execute_control_e);
        }
        let high_temp: u8 = self.h;
        self.h = self.d;
        self.d = high_temp;
        let low_temp: u8 = self.l;
        self.l = self.e;
        self.e = low_temp;
            
    }
    #[verifier::rlimit(100)]
    #[verifier::spinoff_prover]
    fn op_cpe(&mut self, ports: &mut Vec<u8>)
        requires
            dispatch_inv(old(self)@),
            exec_ok(old(self)@, 0xec, old(ports)@),
        ensures
            ({
                let e = spec_execute_control_e(old(self)@, 0xec, old(ports)@);
                &&& final(self)@ == e.cpu
                &&& final(ports)@ == e.ports
                &&& e.audio == Seq::<AudioAction>::empty()
            }),
            final(self)@.memory.len() == old(self)@.memory.len(),
            final(self)@.shift_register.amount <= 7,
    {
        proof {
            reveal(spec_execute_control_e);
        }
        let condition: bool = self.flags.parity;
        flow::call(self, condition);
            
    }
    #[verifier::rlimit(100)]
    #[verifier::spinoff_prover]
    fn op_xri(&mut self, ports: &mut Vec<u8>)
        requires
            dispatch_inv(old(self)@),
            exec_ok(old(self)@, 0xee, old(ports)@),
        ensures
            ({
                let e = spec_execute_control_e(old(self)@, 0xee, old(ports)@);
                &&& final(self)@ == e.cpu
                &&& final(ports)@ == e.ports
                &&& e.audio == Seq::<AudioAction>::empty()
            }),
            final(self)@.memory.len() == old(self)@.memory.len(),
            final(self)@.shift_register.amount <= 7,
    {
        proof {
            reveal(spec_execute_control_e);
        }
        let value: u8 = self.memory[self.program_counter as usize];
        alu::xor(self, value);
        self.program_counter = self.program_counter + 1;
            
    }
    #[verifier::rlimit(100)]
    #[verifier::spinoff_prover]
    fn op_rst_5(&mut self, ports: &mut Vec<u8>)
        requires
            dispatch_inv(old(self)@),
            exec_ok(old(self)@, 0xef, old(ports)@),
        ensures
            ({
                let e = spec_execute_control_e(old(self)@, 0xef, old(ports)@);
                &&& final(self)@ == e.cpu
                &&& final(ports)@ == e.ports
                &&& e.audio == Seq::<AudioAction>::empty()
            }),
            final(self)@.memory.len() == old(self)@.memory.len(),
            final(self)@.shift_register.amount <= 7,
    {
        proof {
            reveal(spec_execute_control_e);
        }
        flow::reset(self, 0x28);
            
    }
    #[verifier::rlimit(100)]
    #[verifier::spinoff_prover]
    fn op_rp(&mut self, ports: &mut Vec<u8>)
        requires
            dispatch_inv(old(self)@),
            exec_ok(old(self)@, 0xf0, old(ports)@),
        ensures
            ({
                let e = spec_execute_control_f(old(self)@, 0xf0, old(ports)@);
                &&& final(self)@ == e.cpu
                &&& final(ports)@ == e.ports
                &&& e.audio == Seq::<AudioAction>::empty()
            }),
            final(self)@.memory.len() == old(self)@.memory.len(),
            final(self)@.shift_register.amount <= 7,
    {
        proof {
            reveal(spec_execute_control_f);
        }
        let condition: bool = !self.flags.sign;
        flow::ret(self, condition);
            
    }
    #[verifier::rlimit(100)]
    #[verifier::spinoff_prover]
    fn op_pop_psw(&mut self, ports: &mut Vec<u8>)
        requires
            dispatch_inv(old(self)@),
            exec_ok(old(self)@, 0xf1, old(ports)@),
        ensures
            ({
                let e = spec_execute_control_f(old(self)@, 0xf1, old(ports)@);
                &&& final(self)@ == e.cpu
                &&& final(ports)@ == e.ports
                &&& e.audio == Seq::<AudioAction>::empty()
            }),
            final(self)@.memory.len() == old(self)@.memory.len(),
            final(self)@.shift_register.amount <= 7,
    {
        proof {
            reveal(spec_execute_control_f);
        }
        let popped: (u8, u8) = stack::pop_off_stack(self);
        self.a = popped.0;
        let mut updated: Flags = self.flags;
        flags::apply_psw(&mut updated, popped.1);
        self.flags = updated;
            
    }
    #[verifier::rlimit(100)]
    #[verifier::spinoff_prover]
    fn op_jp(&mut self, ports: &mut Vec<u8>)
        requires
            dispatch_inv(old(self)@),
            exec_ok(old(self)@, 0xf2, old(ports)@),
        ensures
            ({
                let e = spec_execute_control_f(old(self)@, 0xf2, old(ports)@);
                &&& final(self)@ == e.cpu
                &&& final(ports)@ == e.ports
                &&& e.audio == Seq::<AudioAction>::empty()
            }),
            final(self)@.memory.len() == old(self)@.memory.len(),
            final(self)@.shift_register.amount <= 7,
    {
        proof {
            reveal(spec_execute_control_f);
        }
        let condition: bool = !self.flags.sign;
        flow::jump(self, condition);
            
    }
    #[verifier::rlimit(100)]
    #[verifier::spinoff_prover]
    fn op_di(&mut self, ports: &mut Vec<u8>)
        requires
            dispatch_inv(old(self)@),
            exec_ok(old(self)@, 0xf3, old(ports)@),
        ensures
            ({
                let e = spec_execute_control_f(old(self)@, 0xf3, old(ports)@);
                &&& final(self)@ == e.cpu
                &&& final(ports)@ == e.ports
                &&& e.audio == Seq::<AudioAction>::empty()
            }),
            final(self)@.memory.len() == old(self)@.memory.len(),
            final(self)@.shift_register.amount <= 7,
    {
        proof {
            reveal(spec_execute_control_f);
        }
        self.interrupt_enabled = false;
            
    }
    #[verifier::rlimit(100)]
    #[verifier::spinoff_prover]
    fn op_cp(&mut self, ports: &mut Vec<u8>)
        requires
            dispatch_inv(old(self)@),
            exec_ok(old(self)@, 0xf4, old(ports)@),
        ensures
            ({
                let e = spec_execute_control_f(old(self)@, 0xf4, old(ports)@);
                &&& final(self)@ == e.cpu
                &&& final(ports)@ == e.ports
                &&& e.audio == Seq::<AudioAction>::empty()
            }),
            final(self)@.memory.len() == old(self)@.memory.len(),
            final(self)@.shift_register.amount <= 7,
    {
        proof {
            reveal(spec_execute_control_f);
        }
        let condition: bool = !self.flags.sign;
        flow::call(self, condition);
            
    }
    #[verifier::rlimit(100)]
    #[verifier::spinoff_prover]
    fn op_push_psw(&mut self, ports: &mut Vec<u8>)
        requires
            dispatch_inv(old(self)@),
            exec_ok(old(self)@, 0xf5, old(ports)@),
        ensures
            ({
                let e = spec_execute_control_f(old(self)@, 0xf5, old(ports)@);
                &&& final(self)@ == e.cpu
                &&& final(ports)@ == e.ports
                &&& e.audio == Seq::<AudioAction>::empty()
            }),
            final(self)@.memory.len() == old(self)@.memory.len(),
            final(self)@.shift_register.amount <= 7,
    {
        proof {
            reveal(spec_execute_control_f);
        }
        let hi: u8 = self.a;
        let psw: u8 = flags::pack_psw(&self.flags);
        stack::push_onto_stack(self, hi, psw);
            
    }
    #[verifier::rlimit(100)]
    #[verifier::spinoff_prover]
    fn op_ori(&mut self, ports: &mut Vec<u8>)
        requires
            dispatch_inv(old(self)@),
            exec_ok(old(self)@, 0xf6, old(ports)@),
        ensures
            ({
                let e = spec_execute_control_f(old(self)@, 0xf6, old(ports)@);
                &&& final(self)@ == e.cpu
                &&& final(ports)@ == e.ports
                &&& e.audio == Seq::<AudioAction>::empty()
            }),
            final(self)@.memory.len() == old(self)@.memory.len(),
            final(self)@.shift_register.amount <= 7,
    {
        proof {
            reveal(spec_execute_control_f);
        }
        let value: u8 = self.memory[self.program_counter as usize];
        alu::or(self, value);
        self.program_counter = self.program_counter + 1;
            
    }
    #[verifier::rlimit(100)]
    #[verifier::spinoff_prover]
    fn op_rst_6(&mut self, ports: &mut Vec<u8>)
        requires
            dispatch_inv(old(self)@),
            exec_ok(old(self)@, 0xf7, old(ports)@),
        ensures
            ({
                let e = spec_execute_control_f(old(self)@, 0xf7, old(ports)@);
                &&& final(self)@ == e.cpu
                &&& final(ports)@ == e.ports
                &&& e.audio == Seq::<AudioAction>::empty()
            }),
            final(self)@.memory.len() == old(self)@.memory.len(),
            final(self)@.shift_register.amount <= 7,
    {
        proof {
            reveal(spec_execute_control_f);
        }
        flow::reset(self, 0x30);
            
    }
    #[verifier::rlimit(100)]
    #[verifier::spinoff_prover]
    fn op_rm(&mut self, ports: &mut Vec<u8>)
        requires
            dispatch_inv(old(self)@),
            exec_ok(old(self)@, 0xf8, old(ports)@),
        ensures
            ({
                let e = spec_execute_control_f(old(self)@, 0xf8, old(ports)@);
                &&& final(self)@ == e.cpu
                &&& final(ports)@ == e.ports
                &&& e.audio == Seq::<AudioAction>::empty()
            }),
            final(self)@.memory.len() == old(self)@.memory.len(),
            final(self)@.shift_register.amount <= 7,
    {
        proof {
            reveal(spec_execute_control_f);
        }
        let condition: bool = self.flags.sign;
        flow::ret(self, condition);
            
    }
    #[verifier::rlimit(100)]
    #[verifier::spinoff_prover]
    fn op_sphl(&mut self, ports: &mut Vec<u8>)
        requires
            dispatch_inv(old(self)@),
            exec_ok(old(self)@, 0xf9, old(ports)@),
        ensures
            ({
                let e = spec_execute_control_f(old(self)@, 0xf9, old(ports)@);
                &&& final(self)@ == e.cpu
                &&& final(ports)@ == e.ports
                &&& e.audio == Seq::<AudioAction>::empty()
            }),
            final(self)@.memory.len() == old(self)@.memory.len(),
            final(self)@.shift_register.amount <= 7,
    {
        proof {
            reveal(spec_execute_control_f);
        }
        self.stack_pointer = ((self.h as u16) << 8) | (self.l as u16);
            
    }
    #[verifier::rlimit(100)]
    #[verifier::spinoff_prover]
    fn op_jm(&mut self, ports: &mut Vec<u8>)
        requires
            dispatch_inv(old(self)@),
            exec_ok(old(self)@, 0xfa, old(ports)@),
        ensures
            ({
                let e = spec_execute_control_f(old(self)@, 0xfa, old(ports)@);
                &&& final(self)@ == e.cpu
                &&& final(ports)@ == e.ports
                &&& e.audio == Seq::<AudioAction>::empty()
            }),
            final(self)@.memory.len() == old(self)@.memory.len(),
            final(self)@.shift_register.amount <= 7,
    {
        proof {
            reveal(spec_execute_control_f);
        }
        let condition: bool = self.flags.sign;
        flow::jump(self, condition);
            
    }
    #[verifier::rlimit(100)]
    #[verifier::spinoff_prover]
    fn op_ei(&mut self, ports: &mut Vec<u8>)
        requires
            dispatch_inv(old(self)@),
            exec_ok(old(self)@, 0xfb, old(ports)@),
        ensures
            ({
                let e = spec_execute_control_f(old(self)@, 0xfb, old(ports)@);
                &&& final(self)@ == e.cpu
                &&& final(ports)@ == e.ports
                &&& e.audio == Seq::<AudioAction>::empty()
            }),
            final(self)@.memory.len() == old(self)@.memory.len(),
            final(self)@.shift_register.amount <= 7,
    {
        proof {
            reveal(spec_execute_control_f);
        }
        self.interrupt_enabled = true;
            
    }
    #[verifier::rlimit(100)]
    #[verifier::spinoff_prover]
    fn op_cm(&mut self, ports: &mut Vec<u8>)
        requires
            dispatch_inv(old(self)@),
            exec_ok(old(self)@, 0xfc, old(ports)@),
        ensures
            ({
                let e = spec_execute_control_f(old(self)@, 0xfc, old(ports)@);
                &&& final(self)@ == e.cpu
                &&& final(ports)@ == e.ports
                &&& e.audio == Seq::<AudioAction>::empty()
            }),
            final(self)@.memory.len() == old(self)@.memory.len(),
            final(self)@.shift_register.amount <= 7,
    {
        proof {
            reveal(spec_execute_control_f);
        }
        let condition: bool = self.flags.sign;
        flow::call(self, condition);
            
    }
    #[verifier::rlimit(100)]
    #[verifier::spinoff_prover]
    fn op_cpi(&mut self, ports: &mut Vec<u8>)
        requires
            dispatch_inv(old(self)@),
            exec_ok(old(self)@, 0xfe, old(ports)@),
        ensures
            ({
                let e = spec_execute_control_f(old(self)@, 0xfe, old(ports)@);
                &&& final(self)@ == e.cpu
                &&& final(ports)@ == e.ports
                &&& e.audio == Seq::<AudioAction>::empty()
            }),
            final(self)@.memory.len() == old(self)@.memory.len(),
            final(self)@.shift_register.amount <= 7,
    {
        proof {
            reveal(spec_execute_control_f);
        }
        let value: u8 = self.memory[self.program_counter as usize];
        alu::compare(self, value);
        self.program_counter = self.program_counter + 1;
            
    }
    #[verifier::rlimit(100)]
    #[verifier::spinoff_prover]
    fn op_rst_7(&mut self, ports: &mut Vec<u8>)
        requires
            dispatch_inv(old(self)@),
            exec_ok(old(self)@, 0xff, old(ports)@),
        ensures
            ({
                let e = spec_execute_control_f(old(self)@, 0xff, old(ports)@);
                &&& final(self)@ == e.cpu
                &&& final(ports)@ == e.ports
                &&& e.audio == Seq::<AudioAction>::empty()
            }),
            final(self)@.memory.len() == old(self)@.memory.len(),
            final(self)@.shift_register.amount <= 7,
    {
        proof {
            reveal(spec_execute_control_f);
        }
        flow::reset(self, 0x38);
            
    }

    #[verifier::rlimit(100)]
    fn execute_misc_0(&mut self, opcode: u8, ports: &Vec<u8>)
        requires
            opcode < 0x10,
            dispatch_inv(old(self)@),
            exec_ok(old(self)@, opcode, ports@),
        ensures
            ({
                let e = spec_execute_misc_0(old(self)@, opcode, ports@);
                &&& final(self)@ == e.cpu
                &&& e.ports == ports@
                &&& e.audio == Seq::<AudioAction>::empty()
            }),
            final(self)@.memory.len() == old(self)@.memory.len(),
            final(self)@.shift_register.amount <= 7,
    {
        proof {
            reveal(spec_execute_misc_0);
        }
        match opcode {
            0x00 => {
                self.op_nop(ports);
            },
            0x01 => {
                self.op_lxi_b(ports);
            },
            0x02 => {
                self.op_stax_b(ports);
            },
            0x03 => {
                self.op_inx_b(ports);
            },
            0x04 => {
                self.op_inr_b(ports);
            },
            0x05 => {
                self.op_dcr_b(ports);
            },
            0x06 => {
                self.op_mvi_b(ports);
            },
            0x07 => {
                self.op_rlc(ports);
            },
            0x09 => {
                self.op_dad_b(ports);
            },
            0x0a => {
                self.op_ldax_b(ports);
            },
            0x0b => {
                self.op_dcx_b(ports);
            },
            0x0c => {
                self.op_inr_c(ports);
            },
            0x0d => {
                self.op_dcr_c(ports);
            },
            0x0e => {
                self.op_mvi_c(ports);
            },
            0x0f => {
                self.op_rrc(ports);
            },
            _ => {},
        }
    }

    #[verifier::rlimit(100)]
    fn execute_misc_1(&mut self, opcode: u8, ports: &Vec<u8>)
        requires
            0x10 <= opcode < 0x20,
            dispatch_inv(old(self)@),
            exec_ok(old(self)@, opcode, ports@),
        ensures
            ({
                let e = spec_execute_misc_1(old(self)@, opcode, ports@);
                &&& final(self)@ == e.cpu
                &&& e.ports == ports@
                &&& e.audio == Seq::<AudioAction>::empty()
            }),
            final(self)@.memory.len() == old(self)@.memory.len(),
            final(self)@.shift_register.amount <= 7,
    {
        proof {
            reveal(spec_execute_misc_1);
        }
        match opcode {
            0x11 => {
                self.op_lxi_d(ports);
            },
            0x12 => {
                self.op_stax_d(ports);
            },
            0x13 => {
                self.op_inx_d(ports);
            },
            0x14 => {
                self.op_inr_d(ports);
            },
            0x15 => {
                self.op_dcr_d(ports);
            },
            0x16 => {
                self.op_mvi_d(ports);
            },
            0x17 => {
                self.op_ral(ports);
            },
            0x19 => {
                self.op_dad_d(ports);
            },
            0x1a => {
                self.op_ldax_d(ports);
            },
            0x1b => {
                self.op_dcx_d(ports);
            },
            0x1c => {
                self.op_inr_e(ports);
            },
            0x1d => {
                self.op_dcr_e(ports);
            },
            0x1e => {
                self.op_mvi_e(ports);
            },
            0x1f => {
                self.op_rar(ports);
            },
            _ => {},
        }
    }

    #[verifier::rlimit(100)]
    fn execute_misc_2(&mut self, opcode: u8, ports: &Vec<u8>)
        requires
            0x20 <= opcode < 0x30,
            dispatch_inv(old(self)@),
            exec_ok(old(self)@, opcode, ports@),
        ensures
            ({
                let e = spec_execute_misc_2(old(self)@, opcode, ports@);
                &&& final(self)@ == e.cpu
                &&& e.ports == ports@
                &&& e.audio == Seq::<AudioAction>::empty()
            }),
            final(self)@.memory.len() == old(self)@.memory.len(),
            final(self)@.shift_register.amount <= 7,
    {
        proof {
            reveal(spec_execute_misc_2);
        }
        match opcode {
            0x21 => {
                self.op_lxi_h(ports);
            },
            0x22 => {
                self.op_shld(ports);
            },
            0x23 => {
                self.op_inx_h(ports);
            },
            0x24 => {
                self.op_inr_h(ports);
            },
            0x25 => {
                self.op_dcr_h(ports);
            },
            0x26 => {
                self.op_mvi_h(ports);
            },
            0x27 => {
                self.op_daa(ports);
            },
            0x29 => {
                self.op_dad_h(ports);
            },
            0x2a => {
                self.op_lhld(ports);
            },
            0x2b => {
                self.op_dcx_h(ports);
            },
            0x2c => {
                self.op_inr_l(ports);
            },
            0x2d => {
                self.op_dcr_l(ports);
            },
            0x2e => {
                self.op_mvi_l(ports);
            },
            0x2f => {
                self.op_cma(ports);
            },
            _ => {},
        }
    }

    #[verifier::rlimit(100)]
    fn execute_misc_3(&mut self, opcode: u8, ports: &Vec<u8>)
        requires
            0x30 <= opcode < 0x40,
            dispatch_inv(old(self)@),
            exec_ok(old(self)@, opcode, ports@),
        ensures
            ({
                let e = spec_execute_misc_3(old(self)@, opcode, ports@);
                &&& final(self)@ == e.cpu
                &&& e.ports == ports@
                &&& e.audio == Seq::<AudioAction>::empty()
            }),
            final(self)@.memory.len() == old(self)@.memory.len(),
            final(self)@.shift_register.amount <= 7,
    {
        proof {
            reveal(spec_execute_misc_3);
        }
        match opcode {
            0x31 => {
                self.op_lxi_sp(ports);
            },
            0x32 => {
                self.op_sta(ports);
            },
            0x33 => {
                self.op_inx_sp(ports);
            },
            0x34 => {
                self.op_inr_m(ports);
            },
            0x35 => {
                self.op_dcr_m(ports);
            },
            0x36 => {
                self.op_mvi_m(ports);
            },
            0x37 => {
                self.op_stc(ports);
            },
            0x39 => {
                self.op_dad_sp(ports);
            },
            0x3a => {
                self.op_lda(ports);
            },
            0x3b => {
                self.op_dcx_sp(ports);
            },
            0x3c => {
                self.op_inr_a(ports);
            },
            0x3d => {
                self.op_dcr_a(ports);
            },
            0x3e => {
                self.op_mvi_a(ports);
            },
            0x3f => {
                self.op_cmc(ports);
            },
            _ => {},
        }
    }

    #[verifier::rlimit(100)]
    fn execute_move(&mut self, opcode: u8, ports: &Vec<u8>)
        requires
            0x40 <= opcode < 0x80 && opcode != 0x76,
            dispatch_inv(old(self)@),
            exec_ok(old(self)@, opcode, ports@),
        ensures
            ({
                let e = spec_execute_move(old(self)@, opcode, ports@);
                &&& final(self)@ == e.cpu
                &&& e.ports == ports@
                &&& e.audio == Seq::<AudioAction>::empty()
            }),
            final(self)@.memory.len() == old(self)@.memory.len(),
            final(self)@.shift_register.amount <= 7,
    {
        proof {
            reveal(spec_execute_move);
        }
        match opcode {
            0x40 => {
                self.op_mov_b_b(ports);
            },
            0x41 => {
                self.op_mov_b_c(ports);
            },
            0x42 => {
                self.op_mov_b_d(ports);
            },
            0x43 => {
                self.op_mov_b_e(ports);
            },
            0x44 => {
                self.op_mov_b_h(ports);
            },
            0x45 => {
                self.op_mov_b_l(ports);
            },
            0x46 => {
                self.op_mov_b_m(ports);
            },
            0x47 => {
                self.op_mov_b_a(ports);
            },
            0x48 => {
                self.op_mov_c_b(ports);
            },
            0x49 => {
                self.op_mov_c_c(ports);
            },
            0x4a => {
                self.op_mov_c_d(ports);
            },
            0x4b => {
                self.op_mov_c_e(ports);
            },
            0x4c => {
                self.op_mov_c_h(ports);
            },
            0x4d => {
                self.op_mov_c_l(ports);
            },
            0x4e => {
                self.op_mov_c_m(ports);
            },
            0x4f => {
                self.op_mov_c_a(ports);
            },
            0x50 => {
                self.op_mov_d_b(ports);
            },
            0x51 => {
                self.op_mov_d_c(ports);
            },
            0x52 => {
                self.op_mov_d_d(ports);
            },
            0x53 => {
                self.op_mov_d_e(ports);
            },
            0x54 => {
                self.op_mov_d_h(ports);
            },
            0x55 => {
                self.op_mov_d_l(ports);
            },
            0x56 => {
                self.op_mov_d_m(ports);
            },
            0x57 => {
                self.op_mov_d_a(ports);
            },
            0x58 => {
                self.op_mov_e_b(ports);
            },
            0x59 => {
                self.op_mov_e_c(ports);
            },
            0x5a => {
                self.op_mov_e_d(ports);
            },
            0x5b => {
                self.op_mov_e_e(ports);
            },
            0x5c => {
                self.op_mov_e_h(ports);
            },
            0x5d => {
                self.op_mov_e_l(ports);
            },
            0x5e => {
                self.op_mov_e_m(ports);
            },
            0x5f => {
                self.op_mov_e_a(ports);
            },
            0x60 => {
                self.op_mov_h_b(ports);
            },
            0x61 => {
                self.op_mov_h_c(ports);
            },
            0x62 => {
                self.op_mov_h_d(ports);
            },
            0x63 => {
                self.op_mov_h_e(ports);
            },
            0x64 => {
                self.op_mov_h_h(ports);
            },
            0x65 => {
                self.op_mov_h_l(ports);
            },
            0x66 => {
                self.op_mov_h_m(ports);
            },
            0x67 => {
                self.op_mov_h_a(ports);
            },
            0x68 => {
                self.op_mov_l_b(ports);
            },
            0x69 => {
                self.op_mov_l_c(ports);
            },
            0x6a => {
                self.op_mov_l_d(ports);
            },
            0x6b => {
                self.op_mov_l_e(ports);
            },
            0x6c => {
                self.op_mov_l_h(ports);
            },
            0x6d => {
                self.op_mov_l_l(ports);
            },
            0x6e => {
                self.op_mov_l_m(ports);
            },
            0x6f => {
                self.op_mov_l_a(ports);
            },
            0x70 => {
                self.op_mov_m_b(ports);
            },
            0x71 => {
                self.op_mov_m_c(ports);
            },
            0x72 => {
                self.op_mov_m_d(ports);
            },
            0x73 => {
                self.op_mov_m_e(ports);
            },
            0x74 => {
                self.op_mov_m_h(ports);
            },
            0x75 => {
                self.op_mov_m_l(ports);
            },
            0x77 => {
                self.op_mov_m_a(ports);
            },
            0x78 => {
                self.op_mov_a_b(ports);
            },
            0x79 => {
                self.op_mov_a_c(ports);
            },
            0x7a => {
                self.op_mov_a_d(ports);
            },
            0x7b => {
                self.op_mov_a_e(ports);
            },
            0x7c => {
                self.op_mov_a_h(ports);
            },
            0x7d => {
                self.op_mov_a_l(ports);
            },
            0x7e => {
                self.op_mov_a_m(ports);
            },
            0x7f => {
                self.op_mov_a_a(ports);
            },
            _ => {},
        }
    }

    #[verifier::rlimit(100)]
    fn execute_accumulator(&mut self, opcode: u8, ports: &Vec<u8>)
        requires
            0x80 <= opcode < 0xc0,
            dispatch_inv(old(self)@),
            exec_ok(old(self)@, opcode, ports@),
        ensures
            ({
                let e = spec_execute_accumulator(old(self)@, opcode, ports@);
                &&& final(self)@ == e.cpu
                &&& e.ports == ports@
                &&& e.audio == Seq::<AudioAction>::empty()
            }),
            final(self)@.memory.len() == old(self)@.memory.len(),
            final(self)@.shift_register.amount <= 7,
    {
        proof {
            reveal(spec_execute_accumulator);
        }
        match opcode {
            0x80 => {
                self.op_add_b(ports);
            },
            0x81 => {
                self.op_add_c(ports);
            },
            0x82 => {
                self.op_add_d(ports);
            },
            0x83 => {
                self.op_add_e(ports);
            },
            0x84 => {
                self.op_add_h(ports);
            },
            0x85 => {
                self.op_add_l(ports);
            },
            0x86 => {
                self.op_add_m(ports);
            },
            0x87 => {
                self.op_add_a(ports);
            },
            0x88 => {
                self.op_adc_b(ports);
            },
            0x89 => {
                self.op_adc_c(ports);
            },
            0x8a => {
                self.op_adc_d(ports);
            },
            0x8b => {
                self.op_adc_e(ports);
            },
            0x8c => {
                self.op_adc_h(ports);
            },
            0x8d => {
                self.op_adc_l(ports);
            },
            0x8e => {
                self.op_adc_m(ports);
            },
            0x8f => {
                self.op_adc_a(ports);
            },
            0x90 => {
                self.op_sub_b(ports);
            },
            0x91 => {
                self.op_sub_c(ports);
            },
            0x92 => {
                self.op_sub_d(ports);
            },
            0x93 => {
                self.op_sub_e(ports);
            },
            0x94 => {
                self.op_sub_h(ports);
            },
            0x95 => {
                self.op_sub_l(ports);
            },
            0x96 => {
                self.op_sub_m(ports);
            },
            0x97 => {
                self.op_sub_a(ports);
            },
            0x98 => {
                self.op_sbb_b(ports);
            },
            0x99 => {
                self.op_sbb_c(ports);
            },
            0x9a => {
                self.op_sbb_d(ports);
            },
            0x9b => {
                self.op_sbb_e(ports);
            },
            0x9c => {
                self.op_sbb_h(ports);
            },
            0x9d => {
                self.op_sbb_l(ports);
            },
            0x9e => {
                self.op_sbb_m(ports);
            },
            0x9f => {
                self.op_sbb_a(ports);
            },
            0xa0 => {
                self.op_ana_b(ports);
            },
            0xa1 => {
                self.op_ana_c(ports);
            },
            0xa2 => {
                self.op_ana_d(ports);
            },
            0xa3 => {
                self.op_ana_e(ports);
            },
            0xa4 => {
                self.op_ana_h(ports);
            },
            0xa5 => {
                self.op_ana_l(ports);
            },
            0xa6 => {
                self.op_ana_m(ports);
            },
            0xa7 => {
                self.op_ana_a(ports);
            },
            0xa8 => {
                self.op_xra_b(ports);
            },
            0xa9 => {
                self.op_xra_c(ports);
            },
            0xaa => {
                self.op_xra_d(ports);
            },
            0xab => {
                self.op_xra_e(ports);
            },
            0xac => {
                self.op_xra_h(ports);
            },
            0xad => {
                self.op_xra_l(ports);
            },
            0xae => {
                self.op_xra_m(ports);
            },
            0xaf => {
                self.op_xra_a(ports);
            },
            0xb0 => {
                self.op_ora_b(ports);
            },
            0xb1 => {
                self.op_ora_c(ports);
            },
            0xb2 => {
                self.op_ora_d(ports);
            },
            0xb3 => {
                self.op_ora_e(ports);
            },
            0xb4 => {
                self.op_ora_h(ports);
            },
            0xb5 => {
                self.op_ora_l(ports);
            },
            0xb6 => {
                self.op_ora_m(ports);
            },
            0xb7 => {
                self.op_ora_a(ports);
            },
            0xb8 => {
                self.op_cmp_b(ports);
            },
            0xb9 => {
                self.op_cmp_c(ports);
            },
            0xba => {
                self.op_cmp_d(ports);
            },
            0xbb => {
                self.op_cmp_e(ports);
            },
            0xbc => {
                self.op_cmp_h(ports);
            },
            0xbd => {
                self.op_cmp_l(ports);
            },
            0xbe => {
                self.op_cmp_m(ports);
            },
            0xbf => {
                self.op_cmp_a(ports);
            },
            _ => {},
        }
    }

    #[verifier::rlimit(100)]
    fn execute_control_c(&mut self, opcode: u8, ports: &mut Vec<u8>) -> (r: Vec<AudioAction>)
        requires
            0xc0 <= opcode < 0xd0,
            dispatch_inv(old(self)@),
            exec_ok(old(self)@, opcode, old(ports)@),
        ensures
            ({
                let e = spec_execute_control_c(old(self)@, opcode, old(ports)@);
                &&& final(self)@ == e.cpu
                &&& final(ports)@ == e.ports
                &&& r@ == e.audio
            }),
            final(self)@.memory.len() == old(self)@.memory.len(),
            final(self)@.shift_register.amount <= 7,
    {
        proof {
            reveal(spec_execute_control_c);
        }
        let mut actions: Vec<AudioAction> = Vec::new();
        match opcode {
            0xc0 => {
                self.op_rnz(ports);
            },
            0xc1 => {
                self.op_pop_b(ports);
            },
            0xc2 => {
                self.op_jnz(ports);
            },
            0xc3 => {
                self.op_jmp(ports);
            },
            0xc4 => {
                self.op_cnz(ports);
            },
            0xc5 => {
                self.op_push_b(ports);
            },
            0xc6 => {
                self.op_adi(ports);
            },
            0xc7 => {
                self.op_rst_0(ports);
            },
            0xc8 => {
                self.op_rz(ports);
            },
            0xc9 => {
                self.op_ret(ports);
            },
            0xca => {
                self.op_jz(ports);
            },
            0xcc => {
                self.op_cz(ports);
            },
            0xcd => {
                self.op_call(ports);
            },
            0xce => {
                self.op_aci(ports);
            },
            0xcf => {
                self.op_rst_1(ports);
            },
            _ => {},
        }
        actions
    }

    #[verifier::rlimit(100)]
    fn execute_control_d(&mut self, opcode: u8, ports: &mut Vec<u8>) -> (r: Vec<AudioAction>)
        requires
            0xd0 <= opcode < 0xe0,
            dispatch_inv(old(self)@),
            exec_ok(old(self)@, opcode, old(ports)@),
        ensures
            ({
                let e = spec_execute_control_d(old(self)@, opcode, old(ports)@);
                &&& final(self)@ == e.cpu
                &&& final(ports)@ == e.ports
                &&& r@ == e.audio
            }),
            final(self)@.memory.len() == old(self)@.memory.len(),
            final(self)@.shift_register.amount <= 7,
    {
        proof {
            reveal(spec_execute_control_d);
        }
        let mut actions: Vec<AudioAction> = Vec::new();
        match opcode {
            0xd0 => {
                self.op_rnc(ports);
            },
            0xd1 => {
                self.op_pop_d(ports);
            },
            0xd2 => {
                self.op_jnc(ports);
            },
            0xd3 => {
                actions = self.op_output(ports);
            },
            0xd4 => {
                self.op_cnc(ports);
            },
            0xd5 => {
                self.op_push_d(ports);
            },
            0xd6 => {
                self.op_sui(ports);
            },
            0xd7 => {
                self.op_rst_2(ports);
            },
            0xd8 => {
                self.op_rc(ports);
            },
            0xda => {
                self.op_jc(ports);
            },
            0xdb => {
                self.op_input(ports);
            },
            0xdc => {
                self.op_cc(ports);
            },
            0xde => {
                self.op_sbi(ports);
            },
            0xdf => {
                self.op_rst_3(ports);
            },
            _ => {},
        }
        actions
    }

    #[verifier::rlimit(100)]
    fn execute_control_e(&mut self, opcode: u8, ports: &mut Vec<u8>) -> (r: Vec<AudioAction>)
        requires
            0xe0 <= opcode < 0xf0,
            dispatch_inv(old(self)@),
            exec_ok(old(self)@, opcode, old(ports)@),
        ensures
            ({
                let e = spec_execute_control_e(old(self)@, opcode, old(ports)@);
                &&& final(self)@ == e.cpu
                &&& final(ports)@ == e.ports
                &&& r@ == e.audio
            }),
            final(self)@.memory.len() == old(self)@.memory.len(),
            final(self)@.shift_register.amount <= 7,
    {
        proof {
            reveal(spec_execute_control_e);
        }
        let mut actions: Vec<AudioAction> = Vec::new();
        match opcode {
            0xe0 => {
                self.op_rpo(ports);
            },
            0xe1 => {
                self.op_pop_h(ports);
            },
            0xe2 => {
                self.op_jpo(ports);
            },
            0xe3 => {
                self.op_xthl(ports);
            },
            0xe4 => {
                self.op_cpo(ports);
            },
            0xe5 => {
                self.op_push_h(ports);
            },
            0xe6 => {
                self.op_ani(ports);
            },
            0xe7 => {
                self.op_rst_4(ports);
            },
            0xe8 => {
                self.op_rpe(ports);
            },
            0xe9 => {
                self.op_pchl(ports);
            },
            0xea => {
                self.op_jpe(ports);
            },
            0xeb => {
                self.op_xchg(ports);
            },
            0xec => {
                self.op_cpe(ports);
            },
            0xee => {
                self.op_xri(ports);
            },
            0xef => {
                self.op_rst_5(ports);
            },
            _ => {},
        }
        actions
    }

    #[verifier::rlimit(100)]
    fn execute_control_f(&mut self, opcode: u8, ports: &mut Vec<u8>) -> (r: Vec<AudioAction>)
        requires
            0xf0 <= opcode,
            dispatch_inv(old(self)@),
            exec_ok(old(self)@, opcode, old(ports)@),
        ensures
            ({
                let e = spec_execute_control_f(old(self)@, opcode, old(ports)@);
                &&& final(self)@ == e.cpu
                &&& final(ports)@ == e.ports
                &&& r@ == e.audio
            }),
            final(self)@.memory.len() == old(self)@.memory.len(),
            final(self)@.shift_register.amount <= 7,
    {
        proof {
            reveal(spec_execute_control_f);
        }
        let mut actions: Vec<AudioAction> = Vec::new();
        match opcode {
            0xf0 => {
                self.op_rp(ports);
            },
            0xf1 => {
                self.op_pop_psw(ports);
            },
            0xf2 => {
                self.op_jp(ports);
            },
            0xf3 => {
                self.op_di(ports);
            },
            0xf4 => {
                self.op_cp(ports);
            },
            0xf5 => {
                self.op_push_psw(ports);
            },
            0xf6 => {
                self.op_ori(ports);
            },
            0xf7 => {
                self.op_rst_6(ports);
            },
            0xf8 => {
                self.op_rm(ports);
            },
            0xf9 => {
                self.op_sphl(ports);
            },
            0xfa => {
                self.op_jm(ports);
            },
            0xfb => {
                self.op_ei(ports);
            },
            0xfc => {
                self.op_cm(ports);
            },
            0xfe => {
                self.op_cpi(ports);
            },
            0xff => {
                self.op_rst_7(ports);
            },
            _ => {},
        }
        actions
    }

    /// Perform the operation of one defined, non-halt opcode.
    #[verifier::rlimit(100)]
    fn execute_operation(&mut self, opcode: u8, ports: &mut Vec<u8>) -> (r: Vec<AudioAction>)
        requires
            spec_is_defined(opcode),
            opcode != 0x76,
            dispatch_inv(old(self)@),
            exec_ok(old(self)@, opcode, old(ports)@),
        ensures
            ({
                let e = spec_execute(old(self)@, opcode, old(ports)@);
                &&& final(self)@ == e.cpu
                &&& final(ports)@ == e.ports
                &&& r@ == e.audio
            }),
            final(self)@.memory.len() == old(self)@.memory.len(),
            final(self)@.shift_register.amount <= 7,
    {
        let actions: Vec<AudioAction> = if opcode < 0x10 {
            self.execute_misc_0(opcode, ports);
            Vec::new()
        } else if opcode < 0x20 {
            self.execute_misc_1(opcode, ports);
            Vec::new()
        } else if opcode < 0x30 {
            self.execute_misc_2(opcode, ports);
            Vec::new()
        } else if opcode < 0x40 {
            self.execute_misc_3(opcode, ports);
            Vec::new()
        } else if opcode < 0x80 {
            self.execute_move(opcode, ports);
            Vec::new()
        } else if opcode < 0xc0 {
            self.execute_accumulator(opcode, ports);
            Vec::new()
        } else if opcode < 0xd0 {
            self.execute_control_c(opcode, ports)
        } else if opcode < 0xe0 {
            self.execute_control_d(opcode, ports)
        } else if opcode < 0xf0 {
            self.execute_control_e(opcode, ports)
        } else {
            self.execute_control_f(opcode, ports)
        };
        actions
    }

    /// The post-instruction safety nets on the two counters.
    #[verifier::rlimit(100)]
    fn apply_counter_guards(&mut self)
        requires
            1 <= old(self)@.memory.len() <= 0x10000,
        ensures
            final(self)@ == spec_apply_guards(old(self)@),
    {
        if self.stack_pointer < self.rom_size || self.stack_pointer >= (self.memory.len() - 1)
            as u16 {
            self.stack_pointer = 0;
        }
        if self.program_counter >= (self.memory.len() - 1) as u16 {
            self.program_counter = 0;
        }
    }

    /// Execute exactly one instruction: read the opcode at the
    /// program counter, charge its fixed cycle cost, advance past it,
    /// perform its operation, and apply the stack-pointer and
    /// program-counter safety nets.  An opcode outside the documented
    /// set fails with [`EmulationError::UnimplementedOpcode`]; the
    /// halt opcode reports a terminal state that is not an error.
    /// The whole transition equals [`spec_step`] on the prior state.
    #[verifier::rlimit(100)]
    pub fn emulate(&mut self, ports: &mut Vec<u8>) -> (r: Result<StepEvent, EmulationError>)
        requires
            wf(old(self)@),
            step_ok(old(self)@, old(ports)@),
        ensures
            ({
                let t = spec_step(old(self)@, old(ports)@);
                &&& final(self)@ == t.cpu
                &&& final(ports)@ == t.ports
                &&& (match r {
                    Result::Ok(event) => (t.outcome == SpecOutcome::Normal || t.outcome
                        == SpecOutcome::Halted) && event.halted == (t.outcome
                        == SpecOutcome::Halted) && event.audio_actions@ == t.audio,
                    Result::Err(failure) => t.outcome == SpecOutcome::Unimplemented && failure
                        == (EmulationError::UnimplementedOpcode {
                        opcode: old(self)@.memory[old(self).program_counter as int],
                        program_counter: old(self).program_counter,
                    }),
                })
                &&& (t.outcome == SpecOutcome::Normal ==> wf(final(self)@))
            }),
    {
        let opcode: u8 = self.memory[self.program_counter as usize];
        let instruction_address: u16 = self.program_counter;
        self.cycles_elapsed = self.cycles_elapsed + tables::opcode_cycles(opcode);
        self.program_counter = self.program_counter + 1;
        proof {
            assert(self@ =~= spec_fetch(old(self)@));
        }
        if !tables::is_defined(opcode) {
            return Result::Err(unimplemented_opcode(opcode, instruction_address));
        }
        if opcode == 0x76 {
            return Result::Ok(StepEvent { halted: true, audio_actions: Vec::new() });
        }
        let actions: Vec<AudioAction> = self.execute_operation(opcode, ports);
        self.apply_counter_guards();
        Result::Ok(StepEvent { halted: false, audio_actions: actions })
    }
}

} // verus!

verus! {

/// [`Processor8080::generate_interrupt`]: with interrupts disabled
/// nothing moves; otherwise the program counter is pushed, control
/// jumps to eight times the pending vector, the fixed interrupt cost
/// of 11 cycles is charged, and interrupts are disarmed until the
/// enable opcode runs again.
pub open spec fn spec_generate_interrupt(s: CpuState) -> CpuState {
    if !s.interrupt_enabled {
        s
    } else {
        let pushed = crate::stack::spec_push_address(s, s.program_counter);
        CpuState {
            program_counter: (8 * s.interrupt_value) as u16,
            cycles_elapsed: (pushed.cycles_elapsed + 11) as u16,
            interrupt_enabled: false,
            ..pushed
        }
    }
}

/// Zero-padding of a memory image out to `target` bytes; memory
/// already that long stays as it is.
pub open spec fn spec_pad_to(memory: Seq<u8>, target: int) -> Seq<u8> {
    if memory.len() >= target {
        memory
    } else {
        memory + Seq::new((target - memory.len()) as nat, |i: int| 0u8)
    }
}

impl Processor8080 {
    /// Fire the pending interrupt: a no-op while interrupts are
    /// disabled, else push the program counter and jump to the fixed
    /// restart vector.
    pub fn generate_interrupt(&mut self)
        requires
            old(self).interrupt_enabled ==> spec_push_ok(old(self)@) && old(
                self,
            ).cycles_elapsed + 11 <= 0xffff && old(self).interrupt_value < 32,
        ensures
            final(self)@ == spec_generate_interrupt(old(self)@),
    {
        if !self.interrupt_enabled {
            return ;
        }
        let return_address: u16 = self.program_counter;
        stack::push_address_onto_stack(self, return_address);
        self.program_counter = (8 * self.interrupt_value) as u16;
        self.cycles_elapsed = self.cycles_elapsed + 11;
        self.interrupt_enabled = false;
    }

    /// Push zero bytes until memory reaches `target` bytes.
    fn pad_memory(&mut self, target: usize)
        ensures
            final(self)@ == (CpuState {
                memory: spec_pad_to(old(self)@.memory, target as int),
                ..old(self)@
            }),
    {
        while self.memory.len() < target
            invariant
                old(self)@.memory.len() <= self@.memory.len(),
                self@.memory.len() <= old(self)@.memory.len() || self@.memory.len() <= target,
                self@.memory =~= spec_pad_to(old(self)@.memory, self@.memory.len() as int),
                self@ == (CpuState { memory: self@.memory, ..old(self)@ }),
            decreases target - self@.memory.len(),
        {
            self.memory.push(0);
        }
        proof {
            assert(self@.memory =~= spec_pad_to(old(self)@.memory, target as int));
        }
    }

    /// Place `image` at `offset`: memory is zero-padded up to the
    /// offset (an image aimed below the current end lands at the end
    /// instead), the bytes are appended, and the ROM boundary grows
    /// by the image's size.
    pub fn load_image(&mut self, image: &Vec<u8>, offset: usize)
        requires
            old(self).rom_size + image@.len() <= 0xffff,
        ensures
            final(self)@ == (CpuState {
                memory: spec_pad_to(old(self)@.memory, offset as int) + image@,
                rom_size: (old(self).rom_size + image@.len()) as u16,
                ..old(self)@
            }),
    {
        self.pad_memory(offset);
        self.rom_size = self.rom_size + (image.len() as u16);
        let ghost padded = self@.memory;
        let mut index: usize = 0;
        while index < image.len()
            invariant
                index <= image@.len(),
                self@.memory =~= padded + image@.subrange(0, index as int),
                self@ == (CpuState {
                    memory: self@.memory,
                    rom_size: self@.rom_size,
                    ..old(self)@
                }),
                self@.rom_size == (old(self).rom_size + image@.len()) as u16,
                padded == spec_pad_to(old(self)@.memory, offset as int),
            decreases image@.len() - index,
        {
            let byte: u8 = image[index];
            self.memory.push(byte);
            index = index + 1;
            proof {
                assert(self@.memory =~= padded + image@.subrange(0, index as int));
            }
        }
        proof {
            assert(image@.subrange(0, image@.len() as int) =~= image@);
        }
    }

    /// Pad working memory out to the 16 KiB the arcade program
    /// expects, after its images have been loaded.
    pub fn initialize(&mut self)
        ensures
            final(self)@ == (CpuState {
                memory: spec_pad_to(old(self)@.memory, 0x4000),
                ..old(self)@
            }),
    {
        self.pad_memory(0x4000);
    }

    /// Arrange the self-test program in a fresh processor: the image
    /// at 0x100, the output routine stubbed with an immediate return,
    /// no write protection, 64 KiB of memory, and execution starting
    /// at the image with diagnostics on.
    pub fn test(&mut self, program: &Vec<u8>)
        requires
            old(self)@.memory.len() == 0,
            old(self).rom_size + program@.len() <= 0xffff,
            program@.len() <= 0xff00,
        ensures
            final(self)@ == (CpuState {
                memory: spec_pad_to(
                    (spec_pad_to(Seq::empty(), 0x100) + program@).update(0x06, 0xc9u8),
                    0x10000,
                ),
                rom_size: 0,
                program_counter: 0x100,
                testing: true,
                debug: true,
                ..old(self)@
            }),
    {
        self.load_image(program, 0x100);
        self.memory.set(0x06, 0xc9);
        self.rom_size = 0;
        self.pad_memory(0x10000);
        self.program_counter = 0x100;
        self.testing = true;
        self.debug = true;
        proof {
            assert(self@.memory =~= spec_pad_to(
                (spec_pad_to(Seq::<u8>::empty(), 0x100) + program@).update(0x06, 0xc9u8),
                0x10000,
            ));
        }
    }
}

} // verus!

verus! {

/// What the self-test program asked of the host at this step.
#[derive(Debug)]
pub enum DiagEvent {
    /// Nothing to do.
    Nothing,
    /// Print this '$'-terminated message text (terminator excluded).
    Message(Vec<u8>),
    /// Print this one character.
    PutChar(u8),
    /// The program jumped to address 0: the run is over.
    Finished,
}

/// The first index at or after `start` holding the message
/// terminator '$' (0x24); past the end when there is none.
pub open spec fn spec_first_dollar(memory: Seq<u8>, start: int) -> int
    decreases memory.len() - start,
{
    if start < 0 || start >= memory.len() {
        start
    } else if memory[start] == 0x24 {
        start
    } else {
        spec_first_dollar(memory, start + 1)
    }
}

/// The terminator search never moves backwards.
pub proof fn lemma_first_dollar_lower_bound(memory: Seq<u8>, start: int)
    requires
        0 <= start,
    ensures
        start <= spec_first_dollar(memory, start),
    decreases memory.len() - start,
{
    if start < memory.len() && memory[start] != 0x24 {
        lemma_first_dollar_lower_bound(memory, start + 1);
    }
}

/// Where the self-test's message text begins: three bytes past the
/// address held in the DE pair.
pub open spec fn spec_diag_message_start(s: CpuState) -> int {
    ((((s.d as u16) << 8) | (s.e as u16)) as int) + 3
}

impl Processor8080 {
    /// The self-test program's console protocol: at address 5 with
    /// C = 9 it asks for the '$'-terminated message at DE + 3 to be
    /// printed (and per-instruction logging stops); at address 5 with
    /// C = 2 it asks for the character in E; reaching address 0 ends
    /// the run.  Printing and process exit stay with the host.
    pub fn check_cpudiag_status(&mut self) -> (r: DiagEvent)
        requires
            old(self).program_counter == 5 && old(self).c == 9 ==> ({
                let start = spec_diag_message_start(old(self)@);
                let stop = spec_first_dollar(old(self)@.memory, start);
                stop < old(self)@.memory.len() && old(self)@.memory.len() <= 0x10000
            }),
        ensures
            ({
                let s0 = old(self)@;
                let start = spec_diag_message_start(s0);
                let stop = spec_first_dollar(s0.memory, start);
                if s0.program_counter == 5 && s0.c == 9 {
                    final(self)@ == (CpuState { debug: false, ..s0 }) && (r matches
                    DiagEvent::Message(text) && text@ == s0.memory.subrange(start, stop))
                } else if s0.program_counter == 5 && s0.c == 2 {
                    final(self)@ == s0 && (r matches DiagEvent::PutChar(c) && c == s0.e)
                } else if s0.program_counter == 0 {
                    final(self)@ == s0 && (r matches DiagEvent::Finished)
                } else {
                    final(self)@ == s0 && (r matches DiagEvent::Nothing)
                }
            }),
    {
        if self.program_counter == 5 {
            if self.c == 9 {
                let ghost start = spec_diag_message_start(old(self)@);
                let ghost stop = spec_first_dollar(old(self)@.memory, start);
                proof {
                    lemma_first_dollar_lower_bound(old(self)@.memory, start);
                }
                let mut offset: u16 = ((self.d as u16) << 8) | (self.e as u16);
                let mut text: Vec<u8> = Vec::new();
                let mut letter: u8 = self.memory[(offset + 3) as usize];
                proof {
                    assert(text@ =~= self@.memory.subrange(start, offset as int + 3));
                }
                while letter != 0x24
                    invariant
                        self@ == old(self)@,
                        start == spec_diag_message_start(old(self)@),
                        stop == spec_first_dollar(old(self)@.memory, start),
                        stop < self@.memory.len() <= 0x10000,
                        start <= offset as int + 3 <= stop,
                        stop == spec_first_dollar(self@.memory, offset as int + 3),
                        letter == self@.memory[offset as int + 3],
                        text@ == self@.memory.subrange(start, offset as int + 3),
                    decreases stop - offset,
                {
                    text.push(letter);
                    proof {
                        lemma_first_dollar_lower_bound(self@.memory, offset as int + 4);
                    }
                    offset = offset + 1;
                    letter = self.memory[(offset + 3) as usize];
                    proof {
                        assert(text@ =~= self@.memory.subrange(start, offset as int + 3));
                    }
                }
                self.debug = false;
                DiagEvent::Message(text)
            } else if self.c == 2 {
                DiagEvent::PutChar(self.e)
            } else {
                DiagEvent::Nothing
            }
        } else if self.program_counter == 0 {
            DiagEvent::Finished
        } else {
            DiagEvent::Nothing
        }
    }
}

} // verus!
