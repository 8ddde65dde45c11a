//! Address-pair resolution with its overflow trap, and the guarded
//! memory write that protects the loaded program image.

use vstd::prelude::*;
use vstd::pervasive::VecAdditionalExecFns;

use crate::state::{CpuState, Processor8080};

verus! {

/// High and low byte of a 16-bit value.
pub open spec fn spec_split_pair(pair: u16) -> (u8, u8) {
    ((pair >> 8) as u8, (pair & 0xff) as u8)
}

/// [`get_address_from_pair`]: the address named by a high/low register
/// pair, and the bytes the pair holds afterwards.  An address at or
/// beyond `max_memory_index` trips the overflow trap: both source
/// bytes are zeroed and the address resolves to 0.
pub open spec fn spec_pair_address(byte_1: u8, byte_2: u8, max_memory_index: u16) -> (u8, u8, u16) {
    let address = (((byte_1 as u16) << 8) | (byte_2 as u16));
    if address >= max_memory_index {
        (0u8, 0u8, 0u16)
    } else {
        (byte_1, byte_2, address)
    }
}

/// [`write_to_memory`]: the mirrored range 0x4000..0x6000 is first
/// remapped back by 0x2000; a write whose (possibly remapped) address
/// falls below the ROM boundary is dropped.
pub open spec fn spec_write_to_memory(s: CpuState, byte_1: u8, byte_2: u8, value: u8) -> CpuState {
    let max = (s.memory.len() - 1) as u16;
    let resolved = spec_pair_address(byte_1, byte_2, max);
    let address = resolved.2;
    let remapped: u16 = if 0x4000 <= address < 0x6000 {
        (address - 0x2000) as u16
    } else {
        address
    };
    if remapped < s.rom_size {
        s
    } else {
        CpuState { memory: s.memory.update(remapped as int, value), ..s }
    }
}

// Highest order bits at position 0, lowest order bits at position 1.
pub fn seperate_16bit_pair(pair: u16) -> (r: (u8, u8))
    ensures
        r == spec_split_pair(pair),
{
    ((pair >> 8) as u8, (pair & 0xff) as u8)
}

/// Resolve a high/low register pair to an address, zeroing the pair
/// and resolving to 0 when it reaches past `max_memory_index`.
///
/// `byte_1` is the highest order byte, `byte_2` the lowest.
pub fn get_address_from_pair(byte_1: &mut u8, byte_2: &mut u8, max_memory_index: u16) -> (r: u16)
    ensures
        (*final(byte_1), *final(byte_2), r) == spec_pair_address(
            *old(byte_1),
            *old(byte_2),
            max_memory_index,
        ),
{
    let mut address: u16 = ((*byte_1 as u16) << 8) | (*byte_2 as u16);
    if address >= max_memory_index {
        *byte_1 = 0;
        *byte_2 = 0;
        address = 0;
    }
    address
}

/// Store `value` at the address named by the byte pair, dropping the
/// write when it lands below the ROM boundary and remapping the
/// mirrored range first.  The pair is taken by value, so the overflow
/// trap does not reach the caller's registers.
pub fn write_to_memory(processor: &mut Processor8080, byte_1: u8, byte_2: u8, value: u8)
    requires
        2 <= old(processor)@.memory.len() <= 0x10000,
    ensures
        final(processor)@ == spec_write_to_memory(old(processor)@, byte_1, byte_2, value),
{
    let max: u16 = (processor.memory.len() - 1) as u16;
    let mut high = byte_1;
    let mut low = byte_2;
    let mut address: u16 = get_address_from_pair(&mut high, &mut low, max);
    if address >= 0x4000 && address < 0x6000 {
        address = address - 0x2000;
    }
    if address < processor.rom_size {
        return ;
    }
    processor.memory.set(address as usize, value);
}

} // verus!
