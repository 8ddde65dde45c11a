use emulator_8080::state::{IoDevice, Processor8080};
use emulator_8080::cpu::{DiagEvent, EmulationError};
use emulator_8080::io_handlers::{space_invaders_out, AudioAction};

fn cpu_with(memory: Vec<u8>) -> Processor8080 {
    let mut cpu = Processor8080::new(IoDevice::Test);
    cpu.memory = memory;
    cpu
}

fn ports() -> Vec<u8> {
    vec![0; 256]
}

#[test]
fn add_sets_auxiliary_carry() {
    // accumulator 0x0f plus 0x01 -> 0x10 with only auxiliary carry
    let mut cpu = cpu_with(vec![0xc6, 0x01, 0x00, 0x00]);
    cpu.a = 0x0f;
    let mut p = ports();
    cpu.emulate(&mut p).unwrap();
    assert_eq!(cpu.a, 0x10);
    assert!(!cpu.flags.zero);
    assert!(!cpu.flags.sign);
    assert!(!cpu.flags.carry);
    assert!(cpu.flags.auxiliary_carry);
}

#[test]
fn add_wraps_with_carry() {
    // accumulator 0xff plus 0x01 -> 0x00 with zero, carry, parity
    let mut cpu = cpu_with(vec![0xc6, 0x01, 0x00, 0x00]);
    cpu.a = 0xff;
    let mut p = ports();
    cpu.emulate(&mut p).unwrap();
    assert_eq!(cpu.a, 0x00);
    assert!(cpu.flags.zero);
    assert!(cpu.flags.carry);
    assert!(cpu.flags.parity);
}

#[test]
fn rom_write_is_dropped() {
    // STA 0x0010 with the ROM boundary at 0x0800 leaves memory as it was
    let mut memory = vec![0u8; 0x1000];
    memory[0] = 0x32;
    memory[1] = 0x10;
    memory[2] = 0x00;
    memory[0x10] = 0x5a;
    let mut cpu = cpu_with(memory);
    cpu.rom_size = 0x0800;
    cpu.a = 0x77;
    let mut p = ports();
    cpu.emulate(&mut p).unwrap();
    assert_eq!(cpu.memory[0x10], 0x5a);
}

#[test]
fn interrupt_disabled_is_noop() {
    let mut cpu = cpu_with(vec![0u8; 0x100]);
    cpu.program_counter = 0x42;
    cpu.stack_pointer = 0x80;
    cpu.interrupt_enabled = false;
    cpu.generate_interrupt();
    assert_eq!(cpu.program_counter, 0x42);
    assert_eq!(cpu.stack_pointer, 0x80);
}

#[test]
fn interrupt_pushes_and_jumps() {
    let mut cpu = cpu_with(vec![0u8; 0x100]);
    cpu.program_counter = 0x1234 & 0xff; // 0x34
    cpu.program_counter = 0x34;
    cpu.stack_pointer = 0x80;
    cpu.interrupt_enabled = true;
    cpu.interrupt_value = 2;
    cpu.generate_interrupt();
    assert_eq!(cpu.program_counter, 16);
    assert_eq!(cpu.stack_pointer, 0x7e);
    assert_eq!(cpu.memory[0x7f], 0x00);
    assert_eq!(cpu.memory[0x7e], 0x34);
    assert_eq!(cpu.cycles_elapsed, 11);
    assert!(!cpu.interrupt_enabled);
}

#[test]
fn shift_register_window() {
    // amount 3, 0xaa fed twice, read back the shifted window
    let program = vec![
        0x3e, 0x03, // MVI A,3
        0xd3, 0x02, // OUT 2  (shift amount)
        0x3e, 0xaa, // MVI A,0xaa
        0xd3, 0x04, // OUT 4  (shift data)
        0xd3, 0x04, // OUT 4
        0xdb, 0x03, // IN 3   (shift result)
        0x00, 0x00,
    ];
    let mut cpu = cpu_with(program);
    cpu.io = IoDevice::SpaceInvaders;
    let mut p = ports();
    for _ in 0..6 {
        cpu.emulate(&mut p).unwrap();
    }
    assert_eq!(cpu.a, 0x55);
}

#[test]
fn decimal_adjust_packed_bcd() {
    // 0x99 + 0x01, then DAA -> 0x00 with carry (99 + 1 = 100)
    let mut cpu = cpu_with(vec![0xc6, 0x01, 0x27, 0x00, 0x00]);
    cpu.a = 0x99;
    let mut p = ports();
    cpu.emulate(&mut p).unwrap();
    cpu.emulate(&mut p).unwrap();
    assert_eq!(cpu.a, 0x00);
    assert!(cpu.flags.carry);
}

#[test]
fn push_pop_round_trip() {
    let mut program = vec![0xc5, 0xc1, 0x00, 0x00]; // PUSH B / POP B
    program.resize(0x100, 0);
    let mut cpu = cpu_with(program);
    cpu.stack_pointer = 0x80;
    cpu.b = 0xab;
    cpu.c = 0xcd;
    let mut p = ports();
    cpu.emulate(&mut p).unwrap();
    cpu.emulate(&mut p).unwrap();
    assert_eq!(cpu.b, 0xab);
    assert_eq!(cpu.c, 0xcd);
    assert_eq!(cpu.stack_pointer, 0x80);
}

#[test]
fn psw_round_trip() {
    let mut program = vec![0xf5, 0xf1, 0x00, 0x00]; // PUSH PSW / POP PSW
    program.resize(0x100, 0);
    let mut cpu = cpu_with(program);
    cpu.stack_pointer = 0x80;
    cpu.a = 0x12;
    cpu.flags.sign = true;
    cpu.flags.parity = true;
    let mut p = ports();
    cpu.emulate(&mut p).unwrap();
    cpu.emulate(&mut p).unwrap();
    assert_eq!(cpu.a, 0x12);
    assert!(cpu.flags.sign);
    assert!(cpu.flags.parity);
    assert!(!cpu.flags.zero);
    assert!(!cpu.flags.carry);
}

#[test]
fn call_and_return_restore_counters() {
    let mut program = vec![0u8; 0x200];
    program[0x10] = 0xcd; // CALL 0x0100
    program[0x11] = 0x00;
    program[0x12] = 0x01;
    program[0x100] = 0xc9; // RET
    let mut cpu = cpu_with(program);
    cpu.program_counter = 0x10;
    cpu.stack_pointer = 0x80;
    let mut p = ports();
    cpu.emulate(&mut p).unwrap();
    assert_eq!(cpu.program_counter, 0x100);
    cpu.emulate(&mut p).unwrap();
    assert_eq!(cpu.program_counter, 0x13);
    assert_eq!(cpu.stack_pointer, 0x80);
}

#[test]
fn unimplemented_opcode_is_reported() {
    let mut cpu = cpu_with(vec![0x08, 0x00, 0x00]);
    let mut p = ports();
    let err = cpu.emulate(&mut p).unwrap_err();
    assert_eq!(
        err,
        EmulationError::UnimplementedOpcode { opcode: 0x08, program_counter: 0 }
    );
}

#[test]
fn halt_is_terminal_not_error() {
    let mut cpu = cpu_with(vec![0x76, 0x00, 0x00]);
    let mut p = ports();
    let event = cpu.emulate(&mut p).unwrap();
    assert!(event.halted);
}

#[test]
fn nop_charges_four_cycles() {
    let mut cpu = cpu_with(vec![0x00, 0x00, 0x00]);
    let mut p = ports();
    let event = cpu.emulate(&mut p).unwrap();
    assert!(!event.halted);
    assert_eq!(cpu.cycles_elapsed, 4);
    assert_eq!(cpu.program_counter, 1);
}

#[test]
fn rotate_left_wraps_high_bit() {
    let mut cpu = cpu_with(vec![0x07, 0x00, 0x00]); // RLC
    cpu.a = 0x81;
    let mut p = ports();
    cpu.emulate(&mut p).unwrap();
    assert_eq!(cpu.a, 0x03);
    assert!(cpu.flags.carry);
}

#[test]
fn rotate_right_through_carry_uses_old_carry() {
    let mut cpu = cpu_with(vec![0x1f, 0x00, 0x00]); // RAR
    cpu.a = 0x02;
    cpu.flags.carry = true;
    let mut p = ports();
    cpu.emulate(&mut p).unwrap();
    assert_eq!(cpu.a, 0x81);
    assert!(!cpu.flags.carry);
}

#[test]
fn mirrored_write_is_remapped() {
    let mut memory = vec![0u8; 0x10000];
    memory[0] = 0x32; // STA 0x4123
    memory[1] = 0x23;
    memory[2] = 0x41;
    let mut cpu = cpu_with(memory);
    cpu.a = 0x9c;
    let mut p = ports();
    cpu.emulate(&mut p).unwrap();
    assert_eq!(cpu.memory[0x2123], 0x9c);
    assert_eq!(cpu.memory[0x4123], 0x00);
}

#[test]
fn address_pair_overflow_trap_zeroes_registers() {
    let mut cpu = cpu_with(vec![0x7e, 0x00, 0x00, 0x00]); // MOV A,M
    cpu.h = 0xff;
    cpu.l = 0xff;
    let mut p = ports();
    cpu.emulate(&mut p).unwrap();
    assert_eq!(cpu.h, 0);
    assert_eq!(cpu.l, 0);
    assert_eq!(cpu.a, cpu.memory[0]);
}

#[test]
fn sound_latch_edges_become_actions() {
    let mut cpu = cpu_with(vec![0u8; 16]);
    cpu.io = IoDevice::SpaceInvaders;
    let mut p = ports();
    let actions = space_invaders_out(&mut cpu, 3, 0b0000_0011, &mut p);
    assert_eq!(
        actions,
        vec![
            AudioAction::Play { track: 0, repeats: -1 },
            AudioAction::Play { track: 1, repeats: 0 },
        ]
    );
    // falling UFO bit stops the looping track
    let actions = space_invaders_out(&mut cpu, 3, 0b0000_0010, &mut p);
    assert_eq!(actions, vec![AudioAction::Stop { track: 0 }]);
}

#[test]
fn increment_preserves_carry() {
    let mut cpu = cpu_with(vec![0x04, 0x00, 0x00]); // INR B
    cpu.b = 0xff;
    cpu.flags.carry = true;
    let mut p = ports();
    cpu.emulate(&mut p).unwrap();
    assert_eq!(cpu.b, 0x00);
    assert!(cpu.flags.zero);
    assert!(cpu.flags.carry);
}

#[test]
fn disassembler_reports_lengths() {
    let buffer = vec![0x00, 0xc3, 0x34, 0x12, 0x3e, 0x07];
    let (mnemonic, len) = emulator_8080::cpu::disassembler::check_opcode_8080(0, &buffer);
    assert_eq!((mnemonic, len), ("NOP", 1));
    let (mnemonic, len) = emulator_8080::cpu::disassembler::check_opcode_8080(1, &buffer);
    assert_eq!((mnemonic, len), ("JMP", 3));
    let (mnemonic, len) = emulator_8080::cpu::disassembler::check_opcode_8080(4, &buffer);
    assert_eq!((mnemonic, len), ("MVI A", 2));
}

#[test]
fn loading_pads_and_protects() {
    let mut cpu = Processor8080::new(IoDevice::Test);
    let image = vec![1u8, 2, 3, 4];
    cpu.load_image(&image, 0x10);
    assert_eq!(cpu.memory.len(), 0x14);
    assert_eq!(cpu.memory[0x12], 3);
    assert_eq!(cpu.rom_size, 4);
    cpu.initialize();
    assert_eq!(cpu.memory.len(), 0x4000);
}

#[test]
fn subtract_borrows_invert_carry() {
    // SUI 0x01 on accumulator 0x00 borrows: result 0xff, carry set
    let mut cpu = cpu_with(vec![0xd6, 0x01, 0x00, 0x00]);
    cpu.a = 0x00;
    let mut p = ports();
    cpu.emulate(&mut p).unwrap();
    assert_eq!(cpu.a, 0xff);
    assert!(cpu.flags.carry); // a borrow occurred
    let mut cpu = cpu_with(vec![0xd6, 0x01, 0x00, 0x00]);
    cpu.a = 0x05;
    let mut p = ports();
    cpu.emulate(&mut p).unwrap();
    assert_eq!(cpu.a, 0x04);
}

#[test]
fn compare_sets_the_same_flags_as_subtract() {
    // SUI 0x05 on accumulator 0x05
    let mut subtracted = cpu_with(vec![0xd6, 0x05, 0x00, 0x00]);
    subtracted.a = 0x05;
    let mut p = ports();
    subtracted.emulate(&mut p).unwrap();
    // CPI 0x05 on accumulator 0x05
    let mut compared = cpu_with(vec![0xfe, 0x05, 0x00, 0x00]);
    compared.a = 0x05;
    let mut p = ports();
    compared.emulate(&mut p).unwrap();
    assert_eq!(compared.flags, subtracted.flags);
    assert_eq!(compared.a, 0x05); // the accumulator is not committed
    assert_eq!(subtracted.a, 0x00);
    assert!(compared.flags.zero);
    assert!(compared.flags.auxiliary_carry);
}

#[test]
fn increment_carries_out_of_the_low_nibble() {
    let mut cpu = cpu_with(vec![0x3c, 0x00, 0x00]); // INR A
    cpu.a = 0x0f;
    let mut p = ports();
    cpu.emulate(&mut p).unwrap();
    assert_eq!(cpu.a, 0x10);
    assert!(cpu.flags.auxiliary_carry);
    assert!(!cpu.flags.zero);
}

#[test]
fn decrement_borrows_from_the_low_nibble() {
    let mut cpu = cpu_with(vec![0x3d, 0x00, 0x00]); // DCR A
    cpu.a = 0x10;
    let mut p = ports();
    cpu.emulate(&mut p).unwrap();
    assert_eq!(cpu.a, 0x0f);
    assert!(!cpu.flags.auxiliary_carry);
    let mut cpu = cpu_with(vec![0x3d, 0x00, 0x00]);
    cpu.a = 0x05;
    let mut p = ports();
    cpu.emulate(&mut p).unwrap();
    assert_eq!(cpu.a, 0x04);
    assert!(cpu.flags.auxiliary_carry);
}

#[test]
fn decimal_adjust_without_spurious_carry() {
    // 0x29 + 0x68 = 0x91 with auxiliary carry set; the decimal sum
    // 29 + 68 = 97 fits in two digits, so DAA adjusts to 0x97 and
    // leaves carry clear
    let mut cpu = cpu_with(vec![0xc6, 0x68, 0x27, 0x00, 0x00]);
    cpu.a = 0x29;
    let mut p = ports();
    cpu.emulate(&mut p).unwrap();
    assert_eq!(cpu.a, 0x91);
    assert!(cpu.flags.auxiliary_carry);
    cpu.emulate(&mut p).unwrap();
    assert_eq!(cpu.a, 0x97);
    assert!(!cpu.flags.carry);
}

#[test]
fn game_id_must_name_an_emulated_program() {
    assert_eq!(emulator_8080::check_game_id(Some(0)), Ok(0));
    assert_eq!(emulator_8080::check_game_id(Some(1)), Err(()));
    assert_eq!(emulator_8080::check_game_id(None), Err(()));
}

#[test]
fn self_test_console_protocol() {
    let mut memory = vec![0u8; 0x100];
    let text = b"HELLO$";
    memory[0x43..0x43 + text.len()].copy_from_slice(text);
    let mut cpu = cpu_with(memory);
    cpu.program_counter = 5;
    cpu.c = 9;
    cpu.d = 0x00;
    cpu.e = 0x40; // message at DE + 3
    cpu.debug = true;
    match cpu.check_cpudiag_status() {
        DiagEvent::Message(message) => assert_eq!(message, b"HELLO".to_vec()),
        other => panic!("expected a message, got {:?}", other),
    }
    assert!(!cpu.debug);
    cpu.c = 2;
    cpu.e = b'X';
    assert!(matches!(cpu.check_cpudiag_status(), DiagEvent::PutChar(b'X')));
    cpu.program_counter = 0;
    assert!(matches!(cpu.check_cpudiag_status(), DiagEvent::Finished));
    cpu.program_counter = 0x50;
    assert!(matches!(cpu.check_cpudiag_status(), DiagEvent::Nothing));
}

#[test]
fn interrupt_cadence_alternates_vectors() {
    let mut cpu = cpu_with(vec![0u8; 0x100]);
    cpu.stack_pointer = 0x80;
    cpu.interrupt_enabled = true;
    cpu.interrupt_value = 1;
    cpu.cycles_elapsed = 16670;
    emulator_8080::io_handlers::space_invaders_interrupt(&mut cpu);
    assert_eq!(cpu.program_counter, 8);
    assert_eq!(cpu.cycles_elapsed, 16670 + 11 - 16666);
    assert_eq!(cpu.interrupt_value, 2);
    assert!(!cpu.interrupt_enabled);
}

#[test]
fn self_test_setup_arranges_memory() {
    let mut cpu = Processor8080::new(IoDevice::Test);
    let image = vec![0xaa; 1453];
    cpu.test(&image);
    assert_eq!(cpu.memory.len(), 0x10000);
    assert_eq!(cpu.memory[0x100], 0xaa);
    assert_eq!(cpu.memory[0x06], 0xc9);
    assert_eq!(cpu.rom_size, 0);
    assert_eq!(cpu.program_counter, 0x100);
    assert!(cpu.testing);
    assert!(cpu.debug);
}
