//! Processor state: registers, flags, memory, peripheral scratch
//! registers, and the mathematical view used by every contract.

use vstd::prelude::*;

verus! {

/// The five condition flags of the 8080.
#[derive(Clone, Copy, Debug, PartialEq, Eq, Structural)]
pub struct Flags {
    pub zero: bool,
    /// True if the result was negative (bit 7 set).
    pub sign: bool,
    /// True if the low byte of the result has an even number of set bits.
    pub parity: bool,
    pub carry: bool,
    pub auxiliary_carry: bool,
}

/// The programmable bit-shift peripheral: a write to the shift-amount
/// port keeps a 3-bit count, writes to the shift-data port feed a new
/// byte in from the top of a 16-bit window.
#[derive(Clone, Copy, Debug, PartialEq, Eq, Structural)]
pub struct ShiftRegister {
    pub amount: u16,
    pub value: u16,
}

/// Which set of port handlers the processor is wired to.
#[derive(Clone, Copy, Debug, PartialEq, Eq, Structural)]
pub enum IoDevice {
    /// Inert handlers: reads return 0, writes are dropped.
    Test,
    /// The arcade machine's shift register and sound latches.
    SpaceInvaders,
}

/// A program image to place into memory, described by file name,
/// load offset and byte count.  The host reads the file and hands
/// the bytes to [`Processor8080::load_image`].
pub struct FileToLoad {
    pub name: String,
    pub offset: usize,
    pub size: usize,
}

/// The complete processor state.
pub struct Processor8080 {
    pub a: u8,
    pub b: u8,
    pub c: u8,
    pub d: u8,
    pub e: u8,
    pub h: u8,
    pub l: u8,

    pub stack_pointer: u16,
    pub program_counter: u16,
    pub cycles_elapsed: u16,

    pub memory: Vec<u8>,

    pub flags: Flags,

    pub interrupt_enabled: bool,
    /// Pending restart vector: the next interrupt jumps to 8 times this.
    pub interrupt_value: u8,

    /// Writes strictly below this offset are dropped.
    pub rom_size: u16,

    /// Peripheral scratch state kept across port calls.
    pub shift_register: ShiftRegister,
    pub io: IoDevice,

    pub testing: bool,
    pub debug: bool,
}

/// Mathematical image of a [`Processor8080`], used by all contracts.
#[verifier::ext_equal]
pub ghost struct CpuState {
    pub a: u8,
    pub b: u8,
    pub c: u8,
    pub d: u8,
    pub e: u8,
    pub h: u8,
    pub l: u8,
    pub stack_pointer: u16,
    pub program_counter: u16,
    pub cycles_elapsed: u16,
    pub memory: Seq<u8>,
    pub flags: Flags,
    pub interrupt_enabled: bool,
    pub interrupt_value: u8,
    pub rom_size: u16,
    pub shift_register: ShiftRegister,
    pub io: IoDevice,
    pub testing: bool,
    pub debug: bool,
}

impl View for Processor8080 {
    type V = CpuState;

    open spec fn view(&self) -> CpuState {
        CpuState {
            a: self.a,
            b: self.b,
            c: self.c,
            d: self.d,
            e: self.e,
            h: self.h,
            l: self.l,
            stack_pointer: self.stack_pointer,
            program_counter: self.program_counter,
            cycles_elapsed: self.cycles_elapsed,
            memory: self.memory@,
            flags: self.flags,
            interrupt_enabled: self.interrupt_enabled,
            interrupt_value: self.interrupt_value,
            rom_size: self.rom_size,
            shift_register: self.shift_register,
            io: self.io,
            testing: self.testing,
            debug: self.debug,
        }
    }
}

/// Well-formedness: memory is a non-trivial address space of at most
/// 64 KiB, the program counter can fetch a full instruction head, the
/// stack pointer either sits in RAM or at its reset value 0, and the
/// shift amount is the 3-bit value the shift-amount port maintains.
pub open spec fn wf(s: CpuState) -> bool {
    &&& 2 <= s.memory.len() <= 0x10000
    &&& (s.program_counter as int) < s.memory.len() - 1
    &&& (s.stack_pointer == 0 || (s.stack_pointer as int) < s.memory.len() - 1)
    &&& s.shift_register.amount <= 7
}

impl Processor8080 {
    /// A freshly powered processor wired to the given device: all
    /// registers, flags and counters cleared, no memory loaded, the
    /// pending interrupt vector at 1, interrupts disabled.
    pub fn new(io: IoDevice) -> (r: Processor8080)
        ensures
            r@ == (CpuState {
                a: 0,
                b: 0,
                c: 0,
                d: 0,
                e: 0,
                h: 0,
                l: 0,
                stack_pointer: 0,
                program_counter: 0,
                cycles_elapsed: 0,
                memory: Seq::empty(),
                flags: Flags {
                    zero: false,
                    sign: false,
                    parity: false,
                    carry: false,
                    auxiliary_carry: false,
                },
                interrupt_enabled: false,
                interrupt_value: 1,
                rom_size: 0,
                shift_register: ShiftRegister { amount: 0, value: 0 },
                io: io,
                testing: false,
                debug: false,
            }),
    {
        let r = Processor8080 {
            a: 0,
            b: 0,
            c: 0,
            d: 0,
            e: 0,
            h: 0,
            l: 0,
            stack_pointer: 0,
            program_counter: 0,
            cycles_elapsed: 0,
            memory: Vec::new(),
            flags: Flags {
                zero: false,
                sign: false,
                parity: false,
                carry: false,
                auxiliary_carry: false,
            },
            interrupt_enabled: false,
            interrupt_value: 1,
            rom_size: 0,
            shift_register: ShiftRegister { amount: 0, value: 0 },
            io: io,
            testing: false,
            debug: false,
        };
        proof {
            assert(r@.memory =~= Seq::<u8>::empty());
        }
        r
    }
}

} // verus!
