//! The immutable per-opcode tables: cycle cost, instruction length
//! in bytes, and whether the opcode is part of the documented
//! instruction set.

use vstd::prelude::*;

verus! {

/// Fixed cycle cost charged for each opcode.
pub open spec fn spec_opcode_cycles(opcode: u8) -> u16 {
    match opcode {
        0x03 | 0x04 | 0x05 | 0x0b | 0x0c | 0x0d | 0x13 | 0x14 | 0x15 | 0x1b | 0x1c
        | 0x1d | 0x23 | 0x24 | 0x25 | 0x2b | 0x2c | 0x2d | 0x33 | 0x3b | 0x3c | 0x3d
        | 0x40 | 0x41 | 0x42 | 0x43 | 0x44 | 0x45 | 0x47 | 0x48 | 0x49 | 0x4a | 0x4b
        | 0x4c | 0x4d | 0x4f | 0x50 | 0x51 | 0x52 | 0x53 | 0x54 | 0x55 | 0x57 | 0x58
        | 0x59 | 0x5a | 0x5b | 0x5c | 0x5d | 0x5f | 0x60 | 0x61 | 0x62 | 0x63 | 0x64
        | 0x65 | 0x67 | 0x68 | 0x69 | 0x6a | 0x6b | 0x6c | 0x6d | 0x6f | 0x78 | 0x79
        | 0x7a | 0x7b | 0x7c | 0x7d | 0x7f | 0xc0 | 0xc8 | 0xd0 | 0xd8 | 0xe0 | 0xe8
        | 0xe9 | 0xeb | 0xf0 | 0xf8 | 0xf9 => 5,
        0x02 | 0x06 | 0x0a | 0x0e | 0x12 | 0x16 | 0x1a | 0x1e | 0x26 | 0x2e | 0x3e
        | 0x46 | 0x4e | 0x56 | 0x5e | 0x66 | 0x6e | 0x70 | 0x71 | 0x72 | 0x73 | 0x74
        | 0x75 | 0x76 | 0x77 | 0x7e | 0x86 | 0x8e | 0x96 | 0x9e | 0xa6 | 0xae | 0xb6
        | 0xbe | 0xc6 | 0xce | 0xd6 | 0xde | 0xe6 | 0xee | 0xf6 | 0xfe => 7,
        0x01 | 0x09 | 0x11 | 0x19 | 0x21 | 0x29 | 0x31 | 0x34 | 0x35 | 0x36 | 0x39
        | 0xc1 | 0xc2 | 0xc3 | 0xc9 | 0xca | 0xcb | 0xd1 | 0xd2 | 0xd3 | 0xd9 | 0xda
        | 0xdb | 0xe1 | 0xe2 | 0xea | 0xf1 | 0xf2 | 0xfa => 10,
        0xc4 | 0xc5 | 0xc7 | 0xcc | 0xcd | 0xcf | 0xd4 | 0xd5 | 0xd7 | 0xdc | 0xdd
        | 0xdf | 0xe4 | 0xe5 | 0xe7 | 0xec | 0xed | 0xef | 0xf4 | 0xf5 | 0xf7 | 0xfc
        | 0xfd | 0xff => 11,
        0x32 | 0x3a => 13,
        0x22 | 0x2a => 16,
        0xe3 => 18,
        _ => 4,
    }
}

/// How many bytes the instruction occupies, operands included.
pub open spec fn spec_instr_len(opcode: u8) -> u8 {
    match opcode {
        0x06 | 0x0e | 0x16 | 0x1e | 0x26 | 0x2e | 0x36 | 0x3e | 0xc6 | 0xce | 0xd3
        | 0xd6 | 0xdb | 0xde | 0xe6 | 0xee | 0xf6 | 0xfe => 2,
        0x01 | 0x11 | 0x21 | 0x22 | 0x2a | 0x31 | 0x32 | 0x3a | 0xc2 | 0xc3 | 0xc4
        | 0xca | 0xcc | 0xcd | 0xd2 | 0xd4 | 0xda | 0xdc | 0xe2 | 0xe4 | 0xea | 0xec
        | 0xf2 | 0xf4 | 0xfa | 0xfc => 3,
        _ => 1,
    }
}

/// True for every opcode of the documented instruction set; the
/// twelve gaps of the opcode map dispatch to the unimplemented-opcode
/// failure.
pub open spec fn spec_is_defined(opcode: u8) -> bool {
    match opcode {
        0x08 | 0x10 | 0x18 | 0x20 | 0x28 | 0x30 | 0x38 | 0xcb | 0xd9 | 0xdd | 0xed
        | 0xfd => false,
        _ => true,
    }
}

/// Fixed cycle cost charged for each opcode.
pub fn opcode_cycles(opcode: u8) -> (r: u16)
    ensures
        r == spec_opcode_cycles(opcode),
{
    match opcode {
        0x03 | 0x04 | 0x05 | 0x0b | 0x0c | 0x0d | 0x13 | 0x14 | 0x15 | 0x1b | 0x1c
        | 0x1d | 0x23 | 0x24 | 0x25 | 0x2b | 0x2c | 0x2d | 0x33 | 0x3b | 0x3c | 0x3d
        | 0x40 | 0x41 | 0x42 | 0x43 | 0x44 | 0x45 | 0x47 | 0x48 | 0x49 | 0x4a | 0x4b
        | 0x4c | 0x4d | 0x4f | 0x50 | 0x51 | 0x52 | 0x53 | 0x54 | 0x55 | 0x57 | 0x58
        | 0x59 | 0x5a | 0x5b | 0x5c | 0x5d | 0x5f | 0x60 | 0x61 | 0x62 | 0x63 | 0x64
        | 0x65 | 0x67 | 0x68 | 0x69 | 0x6a | 0x6b | 0x6c | 0x6d | 0x6f | 0x78 | 0x79
        | 0x7a | 0x7b | 0x7c | 0x7d | 0x7f | 0xc0 | 0xc8 | 0xd0 | 0xd8 | 0xe0 | 0xe8
        | 0xe9 | 0xeb | 0xf0 | 0xf8 | 0xf9 => 5,
        0x02 | 0x06 | 0x0a | 0x0e | 0x12 | 0x16 | 0x1a | 0x1e | 0x26 | 0x2e | 0x3e
        | 0x46 | 0x4e | 0x56 | 0x5e | 0x66 | 0x6e | 0x70 | 0x71 | 0x72 | 0x73 | 0x74
        | 0x75 | 0x76 | 0x77 | 0x7e | 0x86 | 0x8e | 0x96 | 0x9e | 0xa6 | 0xae | 0xb6
        | 0xbe | 0xc6 | 0xce | 0xd6 | 0xde | 0xe6 | 0xee | 0xf6 | 0xfe => 7,
        0x01 | 0x09 | 0x11 | 0x19 | 0x21 | 0x29 | 0x31 | 0x34 | 0x35 | 0x36 | 0x39
        | 0xc1 | 0xc2 | 0xc3 | 0xc9 | 0xca | 0xcb | 0xd1 | 0xd2 | 0xd3 | 0xd9 | 0xda
        | 0xdb | 0xe1 | 0xe2 | 0xea | 0xf1 | 0xf2 | 0xfa => 10,
        0xc4 | 0xc5 | 0xc7 | 0xcc | 0xcd | 0xcf | 0xd4 | 0xd5 | 0xd7 | 0xdc | 0xdd
        | 0xdf | 0xe4 | 0xe5 | 0xe7 | 0xec | 0xed | 0xef | 0xf4 | 0xf5 | 0xf7 | 0xfc
        | 0xfd | 0xff => 11,
        0x32 | 0x3a => 13,
        0x22 | 0x2a => 16,
        0xe3 => 18,
        _ => 4,
    }
}

/// How many bytes the instruction occupies, operands included.
pub fn instr_len(opcode: u8) -> (r: u8)
    ensures
        r == spec_instr_len(opcode),
{
    match opcode {
        0x06 | 0x0e | 0x16 | 0x1e | 0x26 | 0x2e | 0x36 | 0x3e | 0xc6 | 0xce | 0xd3
        | 0xd6 | 0xdb | 0xde | 0xe6 | 0xee | 0xf6 | 0xfe => 2,
        0x01 | 0x11 | 0x21 | 0x22 | 0x2a | 0x31 | 0x32 | 0x3a | 0xc2 | 0xc3 | 0xc4
        | 0xca | 0xcc | 0xcd | 0xd2 | 0xd4 | 0xda | 0xdc | 0xe2 | 0xe4 | 0xea | 0xec
        | 0xf2 | 0xf4 | 0xfa | 0xfc => 3,
        _ => 1,
    }
}

/// True for every opcode of the documented instruction set.
pub fn is_defined(opcode: u8) -> (r: bool)
    ensures
        r == spec_is_defined(opcode),
{
    match opcode {
        0x08 | 0x10 | 0x18 | 0x20 | 0x28 | 0x30 | 0x38 | 0xcb | 0xd9 | 0xdd | 0xed
        | 0xfd => false,
        _ => true,
    }
}

} // verus!
