//! An Intel 8080 processor core for arcade-machine emulation.
//!
//! The crate verifies the instruction interpreter: flag computation,
//! address-pair resolution with its overflow trap, the ROM write guard,
//! stack discipline, the 256-entry opcode dispatch with per-opcode cycle
//! costs, interrupt generation, and the memory-mapped peripheral bridge
//! of the one supported arcade program.  Loading program images from
//! disk, rendering video memory, playing audio, and keyboard handling
//! are left to an unverified host layer built on top of this crate.

use vstd::prelude::*;

pub mod state;
pub mod flags;
pub mod alu;
pub mod addressing;
pub mod stack;
pub mod flow;
pub mod io_handlers;
pub mod cpu;
pub mod laws;

verus! {

/// Number of selectable target programs.
pub const NUMBER_OF_PROGRAMS_EMULATED: u8 = 1;

/// [`check_game_id`]: a parsed id selects its program exactly when
/// it lies below the number of emulated programs.
pub open spec fn spec_check_game_id(game_id: Option<u8>) -> Result<u8, ()> {
    match game_id {
        Option::Some(id) => if id < NUMBER_OF_PROGRAMS_EMULATED {
            Result::Ok(id)
        } else {
            Result::Err(())
        },
        Option::None => Result::Err(()),
    }
}

/// Decide whether a game id, as parsed from the selection prompt (or
/// nothing where parsing failed), names an emulated program.
pub fn check_game_id(game_id: Option<u8>) -> (r: Result<u8, ()>)
    ensures
        r == spec_check_game_id(game_id),
{
    match game_id {
        Option::Some(id) => if id < NUMBER_OF_PROGRAMS_EMULATED {
            Result::Ok(id)
        } else {
            Result::Err(())
        },
        Option::None => Result::Err(()),
    }
}

} // verus!
