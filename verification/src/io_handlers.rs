//! The I/O port bridge: the inert handlers of the self-test machine
//! and the arcade machine's peripherals — a programmable bit-shift
//! register and two sound latches whose rising edges start tracks.
//! The processor core only routes IN and OUT here; the host performs
//! the returned audio actions.

use vstd::prelude::*;
use vstd::pervasive::VecAdditionalExecFns;

use crate::state::{CpuState, Processor8080, ShiftRegister};

verus! {

/// What the host should do with one audio track.
#[derive(Clone, Copy, Debug, PartialEq, Eq, Structural)]
pub enum AudioAction {
    /// Start the track; `repeats` counts extra plays, -1 loops forever.
    Play { track: u8, repeats: i32 },
    /// Stop the track wherever it is playing.
    Stop { track: u8 },
}

/// [`test_in`]: every port reads as zero.
pub open spec fn spec_test_in(port: u8) -> u8 {
    0
}

/// [`space_invaders_in`]: ports 1 and 2 hand back the host-maintained
/// input-state bytes; port 3 reads the upper byte of the 16-bit shift
/// window, moved down by the programmed amount; every other port
/// reads as zero.
pub open spec fn spec_space_invaders_in(s: CpuState, port: u8, ports: Seq<u8>) -> u8 {
    if port == 1 {
        ports[1]
    } else if port == 2 {
        ports[2]
    } else if port == 3 {
        ((s.shift_register.value >> ((8 - s.shift_register.amount) as u16)) as u8)
    } else {
        0
    }
}

/// [`play_audio`]: a 0 to 1 transition of the masked bit starts the
/// given track once.
pub open spec fn spec_play_audio(value: u8, old_value: u8, and_value: u8, sound_index: u8) -> Seq<
    AudioAction,
> {
    if (value & and_value) != 0 && (old_value & and_value) == 0 {
        seq![AudioAction::Play { track: sound_index, repeats: 0 }]
    } else {
        Seq::empty()
    }
}

/// The UFO channel: a rising edge of bit 0 starts track 0 on an
/// endless loop, a falling edge stops it.
pub open spec fn spec_ufo_audio(value: u8, old_value: u8) -> Seq<AudioAction> {
    if (value & 0b00000001) != 0 && (old_value & 0b00000001) == 0 {
        seq![AudioAction::Play { track: 0, repeats: -1i32 }]
    } else if (value & 0b00000001) == 0 && (old_value & 0b00000001) != 0 {
        seq![AudioAction::Stop { track: 0 }]
    } else {
        Seq::empty()
    }
}

/// [`space_invaders_out`]: port 2 programs the shift amount from the
/// low three bits; port 4 feeds a byte into the shift window from the
/// top; ports 3 and 5 drive the sound latches, whose bit edges become
/// audio actions, and keep the written byte in the port array.
/// The result is the state, the port array, and the actions, in that
/// order.
pub open spec fn spec_space_invaders_out(s: CpuState, port: u8, value: u8, ports: Seq<u8>) -> (
    CpuState,
    Seq<u8>,
    Seq<AudioAction>,
) {
    if port == 2 {
        (
            CpuState {
                shift_register: ShiftRegister {
                    amount: (value & 0x07) as u16,
                    ..s.shift_register
                },
                ..s
            },
            ports,
            Seq::empty(),
        )
    } else if port == 3 {
        let actions = spec_ufo_audio(value, ports[3]) + spec_play_audio(value, ports[3], 0b00000010, 1)
            + spec_play_audio(value, ports[3], 0b00000100, 2) + spec_play_audio(
            value,
            ports[3],
            0b00001000,
            3,
        );
        (s, ports.update(3, value), actions)
    } else if port == 4 {
        (
            CpuState {
                shift_register: ShiftRegister {
                    value: (s.shift_register.value >> 8) | ((value as u16) << 8),
                    ..s.shift_register
                },
                ..s
            },
            ports,
            Seq::empty(),
        )
    } else if port == 5 {
        let actions = spec_play_audio(value, ports[5], 0b00000001, 4) + spec_play_audio(
            value,
            ports[5],
            0b00000010,
            5,
        ) + spec_play_audio(value, ports[5], 0b00000100, 6) + spec_play_audio(
            value,
            ports[5],
            0b00001000,
            7,
        ) + spec_play_audio(value, ports[5], 0b00010000, 8);
        (s, ports.update(5, value), actions)
    } else {
        (s, ports, Seq::empty())
    }
}

/// Port handler of the self-test machine: every port reads as zero.
pub fn test_in(processor: &mut Processor8080, port: u8, ports: &Vec<u8>) -> (r: u8)
    ensures
        final(processor)@ == old(processor)@,
        r == spec_test_in(port),
{
    0
}

/// Port handler of the self-test machine: writes go nowhere.
pub fn test_out(processor: &mut Processor8080, port: u8, value: u8, ports: &mut Vec<u8>)
    ensures
        final(processor)@ == old(processor)@,
        final(ports)@ == old(ports)@,
{
}

/// Arcade-machine port read.
pub fn space_invaders_in(processor: &mut Processor8080, port: u8, ports: &Vec<u8>) -> (r: u8)
    requires
        old(processor).shift_register.amount <= 7,
        port == 1 || port == 2 ==> ports@.len() >= 3,
    ensures
        final(processor)@ == old(processor)@,
        r == spec_space_invaders_in(old(processor)@, port, ports@),
{
    match port {
        1 => ports[1],
        2 => ports[2],
        3 => #[verifier::truncate] ((processor.shift_register.value >> (8
            - processor.shift_register.amount)) as u8),
        _ => 0,
    }
}

/// Append the start of `sound_index` when the masked bit of `value`
/// rises against `old_value`.
pub fn play_audio(
    value: u8,
    old_value: u8,
    and_value: u8,
    sound_index: u8,
    actions: &mut Vec<AudioAction>,
)
    ensures
        final(actions)@ == old(actions)@ + spec_play_audio(value, old_value, and_value, sound_index),
{
    if (value & and_value) != 0 && (old_value & and_value) == 0 {
        actions.push(AudioAction::Play { track: sound_index, repeats: 0 });
        proof {
            assert(actions@ =~= old(actions)@ + spec_play_audio(
                value,
                old_value,
                and_value,
                sound_index,
            ));
        }
    } else {
        proof {
            assert(actions@ =~= old(actions)@ + spec_play_audio(
                value,
                old_value,
                and_value,
                sound_index,
            ));
        }
    }
}

/// Arcade-machine port write; the caller performs the returned audio
/// actions in order.
pub fn space_invaders_out(
    processor: &mut Processor8080,
    port: u8,
    value: u8,
    ports: &mut Vec<u8>,
) -> (r: Vec<AudioAction>)
    requires
        port == 3 || port == 5 ==> old(ports)@.len() >= 6,
    ensures
        ({
            let out = spec_space_invaders_out(old(processor)@, port, value, old(ports)@);
            final(processor)@ == out.0 && final(ports)@ == out.1 && r@ == out.2
        }),
        old(processor).shift_register.amount <= 7 ==> final(processor).shift_register.amount <= 7,
{
    let mut actions: Vec<AudioAction> = Vec::new();
    match port {
        2 => {
            proof {
                assert((value & 0x07) <= 7) by (bit_vector);
            }
            processor.shift_register.amount = (value & 0x07) as u16;
        },
        3 => {
            if (value & 0b00000001) != 0 && (ports[3] & 0b00000001) == 0 {
                actions.push(AudioAction::Play { track: 0, repeats: -1i32 });
            } else if (value & 0b00000001) == 0 && (ports[3] & 0b00000001) != 0 {
                actions.push(AudioAction::Stop { track: 0 });
            }
            proof {
                assert(actions@ =~= spec_ufo_audio(value, old(ports)@[3]));
            }
            let latched: u8 = ports[3];
            play_audio(value, latched, 0b00000010, 1, &mut actions);
            play_audio(value, latched, 0b00000100, 2, &mut actions);
            play_audio(value, latched, 0b00001000, 3, &mut actions);
            ports.set(3, value);
        },
        4 => {
            processor.shift_register.value = (processor.shift_register.value >> 8) | ((value
                as u16) << 8);
        },
        5 => {
            let latched: u8 = ports[5];
            play_audio(value, latched, 0b00000001, 4, &mut actions);
            play_audio(value, latched, 0b00000010, 5, &mut actions);
            play_audio(value, latched, 0b00000100, 6, &mut actions);
            play_audio(value, latched, 0b00001000, 7, &mut actions);
            play_audio(value, latched, 0b00010000, 8, &mut actions);
            ports.set(5, value);
        },
        _ => {},
    }
    actions
}

/// [`space_invaders_interrupt`]: once half a frame's worth of cycles
/// (16666 at 2 MHz and 60 Hz, twice per frame) has accumulated, fire
/// the pending interrupt, take the half-frame out of the counter and
/// alternate the vector between 1 and 2.
pub open spec fn spec_space_invaders_interrupt(s: CpuState) -> CpuState {
    if s.cycles_elapsed >= 16666 {
        let fired = crate::cpu::spec_generate_interrupt(s);
        CpuState {
            cycles_elapsed: (fired.cycles_elapsed - 16666) as u16,
            interrupt_value: if s.interrupt_value == 1 {
                2u8
            } else {
                1u8
            },
            ..fired
        }
    } else {
        s
    }
}

/// Drive the arcade machine's twice-per-frame video interrupt from
/// the cycle counter.
pub fn space_invaders_interrupt(processor: &mut Processor8080)
    requires
        old(processor).cycles_elapsed >= 16666 && old(processor).interrupt_enabled
            ==> crate::stack::spec_push_ok(old(processor)@) && old(processor).cycles_elapsed
            + 11 <= 0xffff && old(processor).interrupt_value < 32,
    ensures
        final(processor)@ == spec_space_invaders_interrupt(old(processor)@),
{
    if processor.cycles_elapsed >= 16666 {
        processor.generate_interrupt();
        processor.cycles_elapsed = processor.cycles_elapsed - 16666;
        processor.interrupt_value = if processor.interrupt_value == 1 {
            2
        } else {
            1
        };
    }
}

} // verus!
