use gameboy_emulator::cpu::{Cpu, Flags};
use gameboy_emulator::fault::Fault;
use gameboy_emulator::memory::Memory;
use gameboy_emulator::opcodes::extended::bit::{bit_7_h, bit_cleared, bit_set, res_0_a};
use gameboy_emulator::opcodes::extended::shift::{rl, rl_c, rotate_left};
use gameboy_emulator::opcodes::jumps::jump_relative;
use gameboy_emulator::opcodes::{add, compare, dispatch, execute, extended, jumps, loads, misc, sub};
use gameboy_emulator::registers::{
    BackgroundPalette, ChannelControl, ChannelOneSoundLengthWavePattern,
    ChannelOneVolumeEnvelope, RegisterReport, SoundEnable, SoundSelection,
};
use gameboy_emulator::{ButtonState, Color, DirectionState, Video};

const START: u16 = 0x0150;

struct Counter {
    updates: usize,
    not_black: usize,
}

impl Video for Counter {
    fn is_running(&self) -> bool {
        true
    }

    fn render(&mut self) {}

    fn set_tile_pixel(&mut self, _tile: u16, _row: u16, _pixel: usize, color: Color) {
        self.updates += 1;
        if color != Color::Black {
            self.not_black += 1;
        }
    }

    fn button_state(&mut self) -> ButtonState {
        ButtonState { start: false, select: false, a: false, b: false }
    }

    fn direction_state(&mut self) -> DirectionState {
        DirectionState { up: false, down: false, left: false, right: false }
    }
}

fn machine(program: &[u8]) -> (Memory<'static, Counter>, Cpu) {
    let mut fixed = [0u8; 0x4000];
    fixed[0] = 0xAA;
    for (i, byte) in program.iter().enumerate() {
        fixed[START as usize + i] = *byte;
    }
    let memory = Memory::new(fixed, &[], Counter { updates: 0, not_black: 0 });
    let mut cpu = Cpu::default();
    cpu.set_program_counter(START);
    (memory, cpu)
}

fn flags(zero: bool, subtract: bool, half_carry: bool, carry: bool) -> Flags {
    Flags { zero, subtract, half_carry, carry }
}

#[test]
fn nop_takes_one_byte_and_four_cycles() {
    let (mut memory, mut cpu) = machine(&[0x00]);
    let before = cpu;
    assert_eq!(execute(&mut memory, &mut cpu), Ok(()));
    let mut expected = before;
    expected.pc = START + 1;
    expected.cycles = 4;
    expected.scanline_cycles = 4;
    assert_eq!(cpu, expected);
}

#[test]
fn unimplemented_opcode_stops_on_a_fault_and_changes_nothing() {
    let (mut memory, mut cpu) = machine(&[0xD3]);
    let before = cpu;
    assert_eq!(
        execute(&mut memory, &mut cpu),
        Err(Fault::UnimplementedOpcode { opcode: 0xD3, pc: START })
    );
    assert_eq!(cpu, before);
    assert_eq!(
        execute(&mut memory, &mut cpu),
        Err(Fault::UnimplementedOpcode { opcode: 0xD3, pc: START })
    );
}

#[test]
fn handlers_left_out_of_the_table_are_not_dispatched() {
    for opcode in [0x04u8, 0x05, 0x13, 0x16, 0x1D, 0x1E, 0x22, 0x23, 0x24, 0x2E, 0x3D, 0x47, 0x57,
        0x67, 0x78, 0x7B, 0x7C, 0x7D, 0x86, 0x90, 0xBE]
    {
        let (mut memory, mut cpu) = machine(&[opcode]);
        assert_eq!(
            execute(&mut memory, &mut cpu),
            Err(Fault::UnimplementedOpcode { opcode, pc: START })
        );
    }
}

#[test]
fn every_opcode_either_runs_or_names_itself() {
    let modelled = [
        0x00u8, 0x03, 0x06, 0x08, 0x0B, 0x0C, 0x0D, 0x0E, 0x11, 0x17, 0x18, 0x1A, 0x20, 0x21,
        0x28, 0x31, 0x32, 0x3E, 0x4F, 0x66, 0x73, 0x77, 0x83, 0x88, 0x89, 0xAF, 0xC1, 0xC3, 0xC5,
        0xCB, 0xCC, 0xCD, 0xCE, 0xE0, 0xE2, 0xEA, 0xF0, 0xF3, 0xFE, 0xFF,
    ];
    for opcode in 0..=u8::MAX {
        let (mut memory, mut cpu) = machine(&[opcode, 0x42, 0xC0]);
        cpu.set_hl(0xC000);
        cpu.set_sp(0xD000);
        cpu.set_c(0x42);
        let result = dispatch(opcode, &mut memory, &mut cpu);
        if opcode == 0xCB {
            assert_eq!(
                result,
                Err(Fault::UnimplementedExtendedOpcode { opcode: 0x42, pc: START + 1 })
            );
        } else if modelled.contains(&opcode) {
            assert_eq!(result, Ok(()), "opcode {:#04x}", opcode);
            assert_ne!(cpu.cycles, 0);
        } else {
            assert_eq!(result, Err(Fault::UnimplementedOpcode { opcode, pc: START }));
            assert_eq!(cpu.cycles, 0);
            assert_eq!(cpu.program_counter(), START);
        }
    }
}

#[test]
fn boot_overlay_goes_when_the_program_counter_reaches_its_end() {
    // JP 0x0100
    let (mut memory, mut cpu) = machine(&[0xC3, 0x00, 0x01]);
    assert_eq!(memory.read_byte(0x0000), Ok(0x31));
    assert_eq!(execute(&mut memory, &mut cpu), Ok(()));
    assert_eq!(cpu.program_counter(), 0x0100);
    assert_eq!(cpu.cycles, 16);
    assert!(!memory.bios_loaded());
    assert_eq!(memory.read_byte(0x0000), Ok(0xAA));
}

#[test]
fn boot_overlay_stays_while_the_program_counter_is_elsewhere() {
    // JP 0x0101, then JP 0x0150
    let (mut memory, mut cpu) = machine(&[0xC3, 0x01, 0x01]);
    assert_eq!(execute(&mut memory, &mut cpu), Ok(()));
    assert_eq!(cpu.program_counter(), 0x0101);
    assert!(memory.bios_loaded());
    assert_eq!(memory.read_byte(0x0000), Ok(0x31));
}

#[test]
fn fetch_from_an_unmodelled_register_faults() {
    let (mut memory, mut cpu) = machine(&[]);
    cpu.set_program_counter(0xFF00);
    assert_eq!(
        execute(&mut memory, &mut cpu),
        Err(Fault::UnimplementedRead { address: 0xFF00, value: 0 })
    );
    assert_eq!(cpu.program_counter(), 0xFF00);
}

#[test]
fn immediate_loads_fill_their_register() {
    let (mut memory, mut cpu) = machine(&[0x06, 0x11, 0x0E, 0x22, 0x3E, 0x33]);
    assert_eq!(execute(&mut memory, &mut cpu), Ok(()));
    assert_eq!(execute(&mut memory, &mut cpu), Ok(()));
    assert_eq!(execute(&mut memory, &mut cpu), Ok(()));
    assert_eq!((cpu.b(), cpu.c(), cpu.a()), (0x11, 0x22, 0x33));
    assert_eq!(cpu.program_counter(), START + 6);
    assert_eq!(cpu.cycles, 24);

    let (mut memory, mut cpu) = machine(&[0x00, 0x44]);
    assert_eq!(loads::ld_d_d8(&mut memory, &mut cpu), Ok(()));
    assert_eq!(cpu.d(), 0x44);
    cpu.set_program_counter(START);
    assert_eq!(loads::ld_e_d8(&mut memory, &mut cpu), Ok(()));
    assert_eq!(cpu.e(), 0x44);
    cpu.set_program_counter(START);
    assert_eq!(loads::ld_l_d8(&mut memory, &mut cpu), Ok(()));
    assert_eq!(cpu.l(), 0x44);
    assert_eq!(cpu.program_counter(), START + 2);
}

#[test]
fn word_loads_read_their_operand_low_byte_first() {
    let (mut memory, mut cpu) = machine(&[0x31, 0xFE, 0xFF, 0x21, 0xFF, 0x9F, 0x11, 0x04, 0x01]);
    cpu.set_sp(0);
    assert_eq!(execute(&mut memory, &mut cpu), Ok(()));
    assert_eq!(execute(&mut memory, &mut cpu), Ok(()));
    assert_eq!(execute(&mut memory, &mut cpu), Ok(()));
    assert_eq!(cpu.stack_pointer(), 0xFFFE);
    assert_eq!(cpu.hl(), 0x9FFF);
    assert_eq!(cpu.de(), 0x0104);
    assert_eq!(cpu.program_counter(), START + 9);
    assert_eq!(cpu.cycles, 36);
}

#[test]
fn register_moves_copy_source_into_destination() {
    let (mut memory, mut cpu) = machine(&[]);
    cpu.set_a(0xA1);
    cpu.set_c(0xC3);
    assert_eq!(loads::ld_c_a(&mut memory, &mut cpu), Ok(()));
    assert_eq!((cpu.a(), cpu.c()), (0xA1, 0xA1));
    assert_eq!(cpu.cycles, 4);

    cpu.set_e(0xE5);
    assert_eq!(loads::ld_a_e(&mut memory, &mut cpu), Ok(()));
    assert_eq!(cpu.a(), 0xE5);

    cpu.set_a(0x17);
    assert_eq!(loads::ld_h_a(&mut memory, &mut cpu), Ok(()));
    assert_eq!(loads::ld_d_a(&mut memory, &mut cpu), Ok(()));
    assert_eq!(loads::ld_b_a(&mut memory, &mut cpu), Ok(()));
    assert_eq!((cpu.h(), cpu.d(), cpu.b()), (0x17, 0x17, 0x17));
    assert_eq!(cpu.cycles, 4 + 4 + 8 + 4 + 4);

    cpu.set_l(0x2C);
    assert_eq!(loads::ld_a_l(&mut memory, &mut cpu), Ok(()));
    assert_eq!(cpu.a(), 0x2C);
    cpu.set_b(0x2B);
    assert_eq!(loads::ld_a_b(&mut memory, &mut cpu), Ok(()));
    assert_eq!(cpu.a(), 0x2B);

    cpu.set_h(0x77);
    let before = cpu;
    assert_eq!(loads::ld_a_h(&mut memory, &mut cpu), Ok(()));
    assert_eq!((cpu.a(), cpu.h()), (0x77, 0x77));
    assert_eq!(cpu.program_counter(), before.pc + 1);
    assert_eq!(cpu.cycles, before.cycles + 4);
    assert_eq!(cpu.flags, before.flags);
}

#[test]
fn ld_c_a_copies_a_into_c() {
    let mut memory = Memory::new([0u8; 0x4000], &[], Counter { updates: 0, not_black: 0 });
    let mut cpu = Cpu::default();
    cpu.set_a(0x12);
    cpu.set_c(0x34);
    assert_eq!(loads::ld_c_a(&mut memory, &mut cpu), Ok(()));
    assert_eq!((cpu.a(), cpu.c()), (0x12, 0x12));
    assert_eq!(cpu.flags, flags(false, false, false, false));
    assert_eq!(cpu.program_counter(), 1);
    assert_eq!(cpu.scanline_cycles, 4);
}

#[test]
fn ld_a_h_copies_h_into_a() {
    let mut memory = Memory::new([0u8; 0x4000], &[], Counter { updates: 0, not_black: 0 });
    let mut cpu = Cpu::default();
    cpu.set_a(0x12);
    cpu.set_h(0x34);
    assert_eq!(loads::ld_a_h(&mut memory, &mut cpu), Ok(()));
    assert_eq!((cpu.a(), cpu.h()), (0x34, 0x34));
    assert_eq!(cpu.flags, flags(false, false, false, false));
    assert_eq!(cpu.program_counter(), 1);
    assert_eq!(cpu.scanline_cycles, 4);
}

#[test]
fn stores_through_hl_write_and_step_hl() {
    let (mut memory, mut cpu) = machine(&[0x32, 0x77, 0x73]);
    cpu.set_hl(0xC010);
    cpu.set_a(0x5A);
    cpu.set_e(0xE7);
    assert_eq!(execute(&mut memory, &mut cpu), Ok(()));
    assert_eq!(memory.read_byte(0xC010), Ok(0x5A));
    assert_eq!(cpu.hl(), 0xC00F);
    assert_eq!(execute(&mut memory, &mut cpu), Ok(()));
    assert_eq!(memory.read_byte(0xC00F), Ok(0x5A));
    assert_eq!(cpu.hl(), 0xC00F);
    assert_eq!(execute(&mut memory, &mut cpu), Ok(()));
    assert_eq!(memory.read_byte(0xC00F), Ok(0xE7));
    assert_eq!(cpu.cycles, 24);

    assert_eq!(loads::ld_ptr_hl_plus_a(&mut memory, &mut cpu), Ok(()));
    assert_eq!(memory.read_byte(0xC00F), Ok(0x5A));
    assert_eq!(cpu.hl(), 0xC010);
}

#[test]
fn store_that_faults_still_steps_hl_down_but_not_up() {
    let (mut memory, mut cpu) = machine(&[]);
    cpu.set_hl(0x0010);
    cpu.set_a(1);
    assert_eq!(
        loads::ld_ptr_hl_minus_a(&mut memory, &mut cpu),
        Err(Fault::BootOverlayWrite { address: 0x0010, value: 1 })
    );
    assert_eq!(cpu.hl(), 0x000F);
    cpu.set_hl(0x0010);
    assert_eq!(
        loads::ld_ptr_hl_plus_a(&mut memory, &mut cpu),
        Err(Fault::BootOverlayWrite { address: 0x0010, value: 1 })
    );
    assert_eq!(cpu.hl(), 0x0010);
}

#[test]
fn loads_through_pointers_read_the_address_space() {
    let (mut memory, mut cpu) = machine(&[0x1A, 0x66]);
    assert_eq!(memory.write_byte(0xC100, 0x42), Ok(()));
    assert_eq!(memory.write_byte(0xC200, 0x99), Ok(()));
    cpu.set_de(0xC100);
    cpu.set_hl(0xC200);
    assert_eq!(execute(&mut memory, &mut cpu), Ok(()));
    assert_eq!(cpu.a(), 0x42);
    assert_eq!(cpu.cycles, 8);
    assert_eq!(execute(&mut memory, &mut cpu), Ok(()));
    assert_eq!(cpu.h(), 0x99);
    assert_eq!(cpu.l(), 0x00);
    assert_eq!(cpu.cycles, 8 + 8);
}

#[test]
fn high_page_stores_reach_the_registers() {
    // LDH (0x47),A; LD (C),A; LDH A,(0x42)
    let (mut memory, mut cpu) = machine(&[0xE0, 0x47, 0xE2, 0xF0, 0x42]);
    cpu.set_a(0xFC);
    cpu.set_c(0x42);
    assert_eq!(execute(&mut memory, &mut cpu), Ok(()));
    assert_eq!(execute(&mut memory, &mut cpu), Ok(()));
    cpu.set_a(0);
    assert_eq!(execute(&mut memory, &mut cpu), Ok(()));
    assert_eq!(cpu.a(), 0xFC);
    assert_eq!(cpu.cycles, 12 + 8 + 12);
    assert_eq!(cpu.program_counter(), START + 5);
    assert_eq!(
        memory.take_register_reports(),
        vec![
            RegisterReport::BackgroundPalette(BackgroundPalette(0xFC)),
            RegisterReport::ScrollPositionY(0xFC),
        ]
    );
}

#[test]
fn high_page_store_to_an_unmodelled_register_faults_after_its_operand() {
    let (mut memory, mut cpu) = machine(&[0xE0, 0x50]);
    cpu.set_a(1);
    assert_eq!(
        execute(&mut memory, &mut cpu),
        Err(Fault::UnimplementedWrite { address: 0xFF50, value: 1 })
    );
    assert_eq!(cpu.program_counter(), START + 2);
    assert_eq!(cpu.cycles, 12);
}

#[test]
fn absolute_stores_write_a_byte_or_the_stack_pointer() {
    // LD (0xC000),A; LD (0xC010),SP
    let (mut memory, mut cpu) = machine(&[0xEA, 0x00, 0xC0, 0x08, 0x10, 0xC0]);
    cpu.set_a(0x3C);
    cpu.set_sp(0xBEEF);
    assert_eq!(execute(&mut memory, &mut cpu), Ok(()));
    assert_eq!(memory.read_byte(0xC000), Ok(0x3C));
    assert_eq!(cpu.cycles, 16);
    assert_eq!(execute(&mut memory, &mut cpu), Ok(()));
    assert_eq!(memory.read_word(0xC010), Ok(0xBEEF));
    assert_eq!(cpu.cycles, 36);
    assert_eq!(cpu.program_counter(), START + 6);
}

#[test]
fn sixteen_bit_steps_wrap_and_keep_the_flags() {
    let (mut memory, mut cpu) = machine(&[0x03, 0x0B, 0x0B]);
    cpu.set_bc(0xFFFF);
    cpu.flags.set_zero();
    assert_eq!(execute(&mut memory, &mut cpu), Ok(()));
    assert_eq!(cpu.bc(), 0x0000);
    assert_eq!(execute(&mut memory, &mut cpu), Ok(()));
    assert_eq!(cpu.bc(), 0xFFFF);
    assert_eq!(execute(&mut memory, &mut cpu), Ok(()));
    assert_eq!(cpu.bc(), 0xFFFE);
    assert_eq!(cpu.flags, flags(true, false, false, false));
    assert_eq!(cpu.cycles, 24);

    cpu.set_hl(0x00FF);
    cpu.set_de(0xFFFF);
    assert_eq!(add::inc_hl(&mut memory, &mut cpu), Ok(()));
    assert_eq!(add::inc_de(&mut memory, &mut cpu), Ok(()));
    assert_eq!((cpu.hl(), cpu.de()), (0x0100, 0x0000));
}

#[test]
fn inc_c_tests_the_value_before_the_step() {
    let (mut memory, mut cpu) = machine(&[0x0C, 0x0C, 0x0C]);
    cpu.set_c(0x0F);
    cpu.flags.set_subtract();
    cpu.flags.update_carry(true);
    assert_eq!(execute(&mut memory, &mut cpu), Ok(()));
    assert_eq!(cpu.c(), 0x10);
    assert_eq!(cpu.flags, flags(false, false, true, true));

    cpu.set_c(0xFF);
    assert_eq!(execute(&mut memory, &mut cpu), Ok(()));
    assert_eq!(cpu.c(), 0x00);
    assert_eq!(cpu.flags, flags(true, false, false, true));

    // Any other value clears the zero flag.
    assert_eq!(execute(&mut memory, &mut cpu), Ok(()));
    assert_eq!(cpu.c(), 0x01);
    assert_eq!(cpu.flags, flags(false, false, false, true));
}

#[test]
fn inc_c_reads_both_flags_off_every_value_before_the_step() {
    for value in 0..=u8::MAX {
        for carry in [false, true] {
            let (mut memory, mut cpu) = machine(&[0x0C]);
            cpu.set_c(value);
            cpu.flags = flags(true, true, true, carry);
            let before = cpu;
            assert_eq!(add::inc_c(&mut memory, &mut cpu), Ok(()));
            assert_eq!(cpu.c(), value.wrapping_add(1));
            assert_eq!(cpu.flags, flags(value == 0xFF, false, value == 0x0F, carry));
            assert_eq!(cpu.program_counter(), before.pc + 1);
            assert_eq!(cpu.cycles, 4);
            assert_eq!(
                (cpu.a(), cpu.b(), cpu.d(), cpu.e(), cpu.h(), cpu.l(), cpu.stack_pointer()),
                (before.a, before.b, before.d, before.e, before.h, before.l, before.sp)
            );
        }
    }
}

#[test]
fn inc_b_and_inc_h_test_their_own_boundaries() {
    let (mut memory, mut cpu) = machine(&[]);
    cpu.set_b(0xFF);
    assert_eq!(add::inc_b(&mut memory, &mut cpu), Ok(()));
    assert_eq!(cpu.b(), 0);
    assert_eq!(cpu.flags, flags(true, false, false, false));
    cpu.set_b(0x80);
    assert_eq!(add::inc_b(&mut memory, &mut cpu), Ok(()));
    assert_eq!(cpu.b(), 0x81);
    assert_eq!(cpu.flags, flags(false, false, true, false));
    cpu.set_h(0x0F);
    cpu.flags.update_carry(true);
    assert_eq!(add::inc_h(&mut memory, &mut cpu), Ok(()));
    assert_eq!(cpu.h(), 0x10);
    assert_eq!(cpu.flags, flags(false, false, false, true));
    assert_eq!(cpu.cycles, 12);
}

#[test]
fn decrements_test_the_value_before_the_step() {
    let (mut memory, mut cpu) = machine(&[0x0D]);
    cpu.set_c(1);
    assert_eq!(execute(&mut memory, &mut cpu), Ok(()));
    assert_eq!(cpu.c(), 0);
    assert_eq!(cpu.flags, flags(true, true, false, false));

    cpu.set_b(0x10);
    cpu.flags.update_carry(true);
    assert_eq!(sub::dec_b(&mut memory, &mut cpu), Ok(()));
    assert_eq!(cpu.b(), 0x0F);
    assert_eq!(cpu.flags, flags(false, true, true, true));

    cpu.set_a(0);
    assert_eq!(sub::dec_a(&mut memory, &mut cpu), Ok(()));
    assert_eq!(cpu.a(), 0xFF);
    assert_eq!(cpu.flags, flags(false, true, false, true));

    cpu.set_d(2);
    cpu.set_e(1);
    assert_eq!(sub::dec_d(&mut memory, &mut cpu), Ok(()));
    assert_eq!(cpu.d(), 1);
    assert!(!cpu.flags.z());
    assert_eq!(sub::dec_e(&mut memory, &mut cpu), Ok(()));
    assert_eq!(cpu.e(), 0);
    assert!(cpu.flags.z());
    assert_eq!(cpu.cycles, 20);
}

#[test]
fn additions_to_a_take_their_operand_and_the_carry() {
    // ADD A,E; ADC A,B; ADC A,C; ADC A,0x01
    let (mut memory, mut cpu) = machine(&[0x83, 0x88, 0x89, 0xCE, 0x01]);
    cpu.set_a(0x0F);
    cpu.set_e(0x01);
    cpu.flags.update_carry(true);
    assert_eq!(execute(&mut memory, &mut cpu), Ok(()));
    assert_eq!(cpu.a(), 0x10);
    assert_eq!(cpu.flags, flags(false, false, true, false));

    cpu.set_b(0xF0);
    assert_eq!(execute(&mut memory, &mut cpu), Ok(()));
    assert_eq!(cpu.a(), 0x00);
    assert_eq!(cpu.flags, flags(true, false, false, true));

    cpu.set_c(0x01);
    assert_eq!(execute(&mut memory, &mut cpu), Ok(()));
    assert_eq!(cpu.a(), 0x02);
    assert_eq!(cpu.flags, flags(false, false, false, false));

    cpu.flags.update_carry(true);
    assert_eq!(execute(&mut memory, &mut cpu), Ok(()));
    assert_eq!(cpu.a(), 0x04);
    assert_eq!(cpu.cycles, 4 + 4 + 4 + 8);
    assert_eq!(cpu.program_counter(), START + 5);

    assert_eq!(memory.write_byte(0xC000, 0x0C), Ok(()));
    cpu.set_hl(0xC000);
    assert_eq!(add::add_a_ptr_hl(&mut memory, &mut cpu), Ok(()));
    assert_eq!(cpu.a(), 0x10);
    assert_eq!(cpu.flags, flags(false, false, true, false));
    assert_eq!(cpu.cycles, 28);
}

#[test]
fn compares_set_flags_and_keep_a() {
    let (mut memory, mut cpu) = machine(&[0xFE, 0x10]);
    cpu.set_a(0x10);
    assert_eq!(execute(&mut memory, &mut cpu), Ok(()));
    assert_eq!(cpu.a(), 0x10);
    assert_eq!(cpu.flags, flags(true, true, false, false));
    assert_eq!(cpu.program_counter(), START + 2);
    assert_eq!(cpu.cycles, 8);

    assert_eq!(memory.write_byte(0xC000, 0x21), Ok(()));
    cpu.set_hl(0xC000);
    assert_eq!(compare::cp_ptr_hl(&mut memory, &mut cpu), Ok(()));
    assert_eq!(cpu.a(), 0x10);
    assert_eq!(cpu.flags, flags(false, true, true, true));
    assert_eq!(cpu.program_counter(), START + 3);
}

#[test]
fn sub_b_subtracts_from_a() {
    let (mut memory, mut cpu) = machine(&[]);
    cpu.set_a(0x00);
    cpu.set_b(0x01);
    assert_eq!(sub::sub_b(&mut memory, &mut cpu), Ok(()));
    assert_eq!(cpu.a(), 0xFF);
    assert_eq!(cpu.flags, flags(false, true, true, true));
    assert_eq!(cpu.cycles, 4);
    assert_eq!(cpu.program_counter(), START + 1);
}

#[test]
fn xor_a_clears_a_and_sets_only_zero() {
    let (mut memory, mut cpu) = machine(&[0xAF]);
    cpu.set_a(0x5A);
    cpu.flags = flags(false, true, true, true);
    assert_eq!(execute(&mut memory, &mut cpu), Ok(()));
    assert_eq!(cpu.a(), 0);
    assert_eq!(cpu.flags, flags(true, false, false, false));
}

#[test]
fn rla_rotates_through_the_carry() {
    let (mut memory, mut cpu) = machine(&[0x17, 0x17]);
    cpu.set_a(0b1000_0001);
    cpu.flags = flags(true, true, true, false);
    assert_eq!(execute(&mut memory, &mut cpu), Ok(()));
    assert_eq!(cpu.a(), 0b0000_0010);
    assert_eq!(cpu.flags, flags(false, false, false, true));
    assert_eq!(execute(&mut memory, &mut cpu), Ok(()));
    assert_eq!(cpu.a(), 0b0000_0101);
    assert_eq!(cpu.flags, flags(false, false, false, false));
}

#[test]
fn rotate_helpers_shift_in_the_carry() {
    assert_eq!(rotate_left(0b1100_0000, false), 0b1000_0000);
    assert_eq!(rotate_left(0b1100_0000, true), 0b1000_0001);
    assert_eq!(rotate_left(0xFF, true), 0xFF);
    assert_eq!(rotate_left(0x00, false), 0x00);
    let mut cpu = Cpu::default();
    cpu.flags = flags(true, true, true, true);
    assert_eq!(rl(&mut cpu, 0x40), 0x81);
    assert_eq!(cpu.flags, flags(true, false, false, false));
}

#[test]
fn extended_table_runs_behind_the_prefix() {
    // CB 11 (RL C), CB 7C (BIT 7,H), CB 87 (RES 0,A)
    let (mut memory, mut cpu) = machine(&[0xCB, 0x11, 0xCB, 0x7C, 0xCB, 0x87]);
    cpu.set_c(0x80);
    assert_eq!(execute(&mut memory, &mut cpu), Ok(()));
    assert_eq!(cpu.c(), 0x00);
    assert_eq!(cpu.flags, flags(true, false, false, true));
    assert_eq!(cpu.program_counter(), START + 2);
    assert_eq!(cpu.cycles, 8);

    cpu.set_h(0x80);
    assert_eq!(execute(&mut memory, &mut cpu), Ok(()));
    assert_eq!(cpu.flags, flags(false, false, true, true));

    cpu.set_a(0xFF);
    assert_eq!(execute(&mut memory, &mut cpu), Ok(()));
    assert_eq!(cpu.a(), 0xFE);
    assert_eq!(cpu.flags, flags(false, false, true, true));
    assert_eq!(cpu.program_counter(), START + 6);
    assert_eq!(cpu.cycles, 24);
}

#[test]
fn extended_handlers_take_one_byte_and_four_cycles() {
    let (mut memory, mut cpu) = machine(&[]);
    cpu.set_h(0x7F);
    assert_eq!(bit_7_h(&mut memory, &mut cpu), Ok(()));
    assert_eq!(cpu.flags, flags(true, false, true, false));
    cpu.set_c(0x01);
    assert_eq!(rl_c(&mut memory, &mut cpu), Ok(()));
    assert_eq!(cpu.c(), 0x02);
    cpu.set_a(0x10);
    assert_eq!(res_0_a(&mut memory, &mut cpu), Ok(()));
    assert_eq!(cpu.a(), 0x10);
    assert_eq!(cpu.cycles, 12);
    assert_eq!(cpu.program_counter(), START + 3);
    assert!(bit_set(0b0001_0000, 4));
    assert!(!bit_set(0b0001_0000, 3));
    assert!(bit_cleared(0b0001_0000, 7));
    assert!(!bit_cleared(0b1000_0000, 7));
}

#[test]
fn unimplemented_extended_opcode_names_the_byte_behind_the_prefix() {
    let (mut memory, mut cpu) = machine(&[0xCB, 0x00]);
    assert_eq!(
        execute(&mut memory, &mut cpu),
        Err(Fault::UnimplementedExtendedOpcode { opcode: 0x00, pc: START + 1 })
    );
    assert_eq!(cpu.program_counter(), START + 1);
    assert_eq!(cpu.cycles, 4);
    let (mut memory, mut cpu) = machine(&[0x12]);
    assert_eq!(
        extended::dispatch(0x12, &mut memory, &mut cpu),
        Err(Fault::UnimplementedExtendedOpcode { opcode: 0x12, pc: START })
    );
}

#[test]
fn relative_jumps_go_both_ways() {
    // JR +5
    let (mut memory, mut cpu) = machine(&[0x18, 0x05]);
    assert_eq!(execute(&mut memory, &mut cpu), Ok(()));
    assert_eq!(cpu.program_counter(), START + 2 + 5);
    assert_eq!(cpu.cycles, 12);

    // JR -5
    let (mut memory, mut cpu) = machine(&[0x18, 0xFB]);
    assert_eq!(execute(&mut memory, &mut cpu), Ok(()));
    assert_eq!(cpu.program_counter(), START + 2 - 5);

    // JR -128
    let (mut memory, mut cpu) = machine(&[0x18, 0x80]);
    assert_eq!(execute(&mut memory, &mut cpu), Ok(()));
    assert_eq!(cpu.program_counter(), START + 2 - 128);

    // JR +127
    let (mut memory, mut cpu) = machine(&[0x18, 0x7F]);
    assert_eq!(execute(&mut memory, &mut cpu), Ok(()));
    assert_eq!(cpu.program_counter(), START + 2 + 127);
}

#[test]
fn relative_jump_wraps_around_the_address_space() {
    let mut cpu = Cpu::default();
    cpu.set_program_counter(0x0002);
    jump_relative(&mut cpu, 0x80);
    assert_eq!(cpu.program_counter(), 0xFF82);
    cpu.set_program_counter(0xFFFF);
    jump_relative(&mut cpu, 0x7F);
    assert_eq!(cpu.program_counter(), 0x007E);
    cpu.set_program_counter(0x1000);
    jump_relative(&mut cpu, 0xFF);
    assert_eq!(cpu.program_counter(), 0x0FFF);
    jump_relative(&mut cpu, 0x00);
    assert_eq!(cpu.program_counter(), 0x0FFF);
}

#[test]
fn conditional_relative_jumps_follow_the_zero_flag() {
    // JR NZ,+4
    let (mut memory, mut cpu) = machine(&[0x20, 0x04]);
    assert_eq!(execute(&mut memory, &mut cpu), Ok(()));
    assert_eq!(cpu.program_counter(), START + 6);
    assert_eq!(cpu.cycles, 12);

    let (mut memory, mut cpu) = machine(&[0x20, 0x04]);
    cpu.flags.set_zero();
    assert_eq!(execute(&mut memory, &mut cpu), Ok(()));
    assert_eq!(cpu.program_counter(), START + 2);
    assert_eq!(cpu.cycles, 8);

    // JR Z,-2
    let (mut memory, mut cpu) = machine(&[0x28, 0xFE]);
    cpu.flags.set_zero();
    assert_eq!(execute(&mut memory, &mut cpu), Ok(()));
    assert_eq!(cpu.program_counter(), START);
    assert_eq!(cpu.cycles, 12);

    let (mut memory, mut cpu) = machine(&[0x28, 0xFE]);
    assert_eq!(execute(&mut memory, &mut cpu), Ok(()));
    assert_eq!(cpu.program_counter(), START + 2);
    assert_eq!(cpu.cycles, 8);
}

#[test]
fn call_pushes_where_it_stands_and_jumps() {
    // CALL 0xC234
    let (mut memory, mut cpu) = machine(&[0xCD, 0x34, 0xC2]);
    assert_eq!(execute(&mut memory, &mut cpu), Ok(()));
    assert_eq!(cpu.program_counter(), 0xC234);
    assert_eq!(cpu.stack_pointer(), 0xFFFC);
    assert_eq!(memory.read_word(0xFFFE), Ok(START + 2));
    assert_eq!(cpu.cycles, 24);
}

#[test]
fn call_z_follows_the_zero_flag() {
    // CALL Z,0xC234
    let (mut memory, mut cpu) = machine(&[0xCC, 0x34, 0xC2]);
    assert_eq!(execute(&mut memory, &mut cpu), Ok(()));
    assert_eq!(cpu.program_counter(), START + 3);
    assert_eq!(cpu.stack_pointer(), 0xFFFE);
    assert_eq!(cpu.cycles, 12);
    assert_eq!(memory.read_word(0xFFFE), Ok(0));

    let (mut memory, mut cpu) = machine(&[0xCC, 0x34, 0xC2]);
    cpu.flags.set_zero();
    assert_eq!(execute(&mut memory, &mut cpu), Ok(()));
    assert_eq!(cpu.program_counter(), 0xC234);
    assert_eq!(cpu.stack_pointer(), 0xFFFC);
    assert_eq!(memory.read_word(0xFFFE), Ok(START + 1));
    assert_eq!(cpu.cycles, 24);
}

#[test]
fn rst_38_pushes_the_next_address_and_restarts() {
    let (mut memory, mut cpu) = machine(&[0xFF]);
    assert_eq!(execute(&mut memory, &mut cpu), Ok(()));
    assert_eq!(cpu.program_counter(), 0x0038);
    assert_eq!(cpu.stack_pointer(), 0xFFFC);
    assert_eq!(memory.read_word(0xFFFE), Ok(START + 1));
    assert_eq!(cpu.cycles, 16);

    let (mut memory, mut cpu) = machine(&[0xFF]);
    cpu.set_sp(0xFF00);
    assert_eq!(
        jumps::rst_38(&mut memory, &mut cpu),
        Err(Fault::UnimplementedWrite { address: 0xFF00, value: 0x51 })
    );
    assert_eq!(cpu.program_counter(), START + 1);
    assert_eq!(cpu.stack_pointer(), 0xFF00);
}

#[test]
fn push_bc_and_pop_bc_round_trip() {
    let (mut memory, mut cpu) = machine(&[0xC5, 0xC1]);
    cpu.set_bc(0xBEEF);
    assert_eq!(execute(&mut memory, &mut cpu), Ok(()));
    assert_eq!(cpu.stack_pointer(), 0xFFFC);
    cpu.set_bc(0);
    assert_eq!(execute(&mut memory, &mut cpu), Ok(()));
    assert_eq!(cpu.bc(), 0xBEEF);
    assert_eq!(cpu.stack_pointer(), 0xFFFE);
    assert_eq!(cpu.cycles, 28);
    assert_eq!(cpu.program_counter(), START + 2);
    assert_eq!(misc::pop_bc(&mut memory, &mut cpu), Ok(()));
    assert_eq!(cpu.stack_pointer(), 0x0000);
    assert_eq!(cpu.bc(), 0xFE31);
}

#[test]
fn di_clears_the_interrupt_enable_byte() {
    let (mut memory, mut cpu) = machine(&[0xF3]);
    assert_eq!(memory.write_byte(0xFFFF, 0x1F), Ok(()));
    assert_eq!(execute(&mut memory, &mut cpu), Ok(()));
    assert_eq!(memory.read_byte(0xFFFF), Ok(0));
    assert_eq!(cpu.cycles, 4);
    assert_eq!(cpu.program_counter(), START + 1);
}

#[test]
fn operand_read_that_faults_stops_after_the_opcode() {
    let (mut memory, mut cpu) = machine(&[]);
    cpu.set_program_counter(0xFEFF);
    assert_eq!(
        loads::ld_b_d8(&mut memory, &mut cpu),
        Err(Fault::UnimplementedRead { address: 0xFF00, value: 0 })
    );
    assert_eq!(cpu.program_counter(), 0xFF00);
    assert_eq!(cpu.cycles, 8);
    assert_eq!(cpu.b(), 0);

    cpu.set_program_counter(0xFEFF);
    assert_eq!(
        jumps::jr_r8(&mut memory, &mut cpu),
        Err(Fault::UnimplementedRead { address: 0xFF00, value: 0 })
    );
    assert_eq!(cpu.program_counter(), 0xFF00);
    assert_eq!(cpu.cycles, 8);
}

#[test]
fn boot_program_clears_video_ram_sets_up_sound_and_stops_at_dec_b() {
    let fixed = [0u8; 0x4000];
    let mut memory = Memory::new(fixed, &[], Counter { updates: 0, not_black: 0 });
    let mut cpu = Cpu::default();
    let mut steps: u32 = 0;
    let fault = loop {
        match execute(&mut memory, &mut cpu) {
            Ok(()) => steps += 1,
            Err(fault) => break fault,
        }
        let mut counter = cpu.scanline_cycles;
        memory.update_scanline(&mut counter);
        cpu.scanline_cycles = counter;
        cpu.frame_elapsed(60);
        assert!(steps < 100_000);
    };
    assert_eq!(fault, Fault::UnimplementedOpcode { opcode: 0x05, pc: 0x00A0 });
    assert!(memory.bios_loaded());
    // 0x2000 bytes of video RAM, eight pixels for each byte written.
    assert_eq!(memory.video.updates, 0x2000 * 8);
    assert_eq!(memory.video.not_black, 0);
    assert_eq!(
        memory.take_register_reports(),
        vec![
            RegisterReport::SoundEnable(SoundEnable(0x80)),
            RegisterReport::ChannelOneSoundLengthWavePattern(ChannelOneSoundLengthWavePattern(0x80)),
            RegisterReport::ChannelOneVolumeEnvelope(ChannelOneVolumeEnvelope(0xF3)),
            RegisterReport::SoundSelection(SoundSelection(0xF3)),
            RegisterReport::ChannelControl(ChannelControl(0x77)),
            RegisterReport::BackgroundPalette(BackgroundPalette(0xFC)),
        ]
    );
    assert_eq!(cpu.de(), 0x0104);
    assert_eq!(cpu.hl(), 0x8010);
    assert_eq!(cpu.b(), 4);
    assert_eq!(cpu.stack_pointer(), 0xFFFC);
}

#[test]
fn loads_and_adds_through_hl_count_eight_cycles() {
    let (mut memory, mut cpu) = machine(&[]);
    assert_eq!(memory.write_byte(0xC400, 0x21), Ok(()));
    cpu.set_hl(0xC400);
    cpu.set_a(0x01);
    assert_eq!(add::add_a_ptr_hl(&mut memory, &mut cpu), Ok(()));
    assert_eq!(cpu.a(), 0x22);
    assert_eq!(cpu.cycles, 8);
    assert_eq!(loads::ld_h_ptr_hl(&mut memory, &mut cpu), Ok(()));
    assert_eq!((cpu.h(), cpu.l()), (0x21, 0x00));
    assert_eq!(cpu.cycles, 16);
    assert_eq!(cpu.program_counter(), START + 2);
    cpu.set_a(0x5D);
    assert_eq!(loads::ld_d_a(&mut memory, &mut cpu), Ok(()));
    assert_eq!(cpu.d(), 0x5D);
    assert_eq!(cpu.cycles, 20);
}
