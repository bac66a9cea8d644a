use chip8::color::{from_u8_rgb, pixel_color};
use chip8::frame::scale_frame;
use chip8::{CPU, Fault, Instruction, Keyboard, ROM, decode};

/// A machine with the font loaded and `program` at the load address.
fn machine_with(program: &[u8]) -> CPU {
    let mut cpu = CPU::new(Keyboard::new());
    cpu.load_fontset();
    cpu.load_rom(ROM::new(program).unwrap());
    cpu
}

#[test]
fn add_wraps_and_sets_carry() {
    let mut cpu = machine_with(&[0x83, 0x44, 0x85, 0x64, 0x87, 0x84]);
    cpu.set_register(3, 200);
    cpu.set_register(4, 100);
    cpu.set_register(5, 1);
    cpu.set_register(6, 2);
    cpu.set_register(7, 255);
    cpu.set_register(8, 1);
    assert_eq!(cpu.step(0), Ok(false));
    assert_eq!(cpu.register(3), 44);
    assert_eq!(cpu.register(0xF), 1);
    assert_eq!(cpu.step(0), Ok(false));
    assert_eq!(cpu.register(5), 3);
    assert_eq!(cpu.register(0xF), 0);
    assert_eq!(cpu.step(0), Ok(false));
    assert_eq!(cpu.register(7), 0);
    assert_eq!(cpu.register(0xF), 1);
}

#[test]
fn add_of_exactly_255_has_no_carry() {
    let mut cpu = machine_with(&[0x81, 0x24]);
    cpu.set_register(1, 250);
    cpu.set_register(2, 5);
    cpu.step(0).unwrap();
    assert_eq!(cpu.register(1), 255);
    assert_eq!(cpu.register(0xF), 0);
}

#[test]
fn sub_wraps_and_flags_no_borrow() {
    let mut cpu = machine_with(&[0x81, 0x25, 0x83, 0x45, 0x85, 0x65]);
    cpu.set_register(1, 5);
    cpu.set_register(2, 3);
    cpu.set_register(3, 3);
    cpu.set_register(4, 5);
    cpu.set_register(5, 7);
    cpu.set_register(6, 7);
    cpu.step(0).unwrap();
    assert_eq!(cpu.register(1), 2);
    assert_eq!(cpu.register(0xF), 1);
    cpu.step(0).unwrap();
    assert_eq!(cpu.register(3), 254);
    assert_eq!(cpu.register(0xF), 0);
    cpu.step(0).unwrap();
    assert_eq!(cpu.register(5), 0);
    assert_eq!(cpu.register(0xF), 1);
}

#[test]
fn reverse_sub_uses_y_minus_x() {
    let mut cpu = machine_with(&[0x81, 0x27, 0x83, 0x47]);
    cpu.set_register(1, 3);
    cpu.set_register(2, 10);
    cpu.set_register(3, 10);
    cpu.set_register(4, 3);
    cpu.step(0).unwrap();
    assert_eq!(cpu.register(1), 7);
    assert_eq!(cpu.register(0xF), 1);
    cpu.step(0).unwrap();
    assert_eq!(cpu.register(3), 249);
    assert_eq!(cpu.register(0xF), 0);
}

#[test]
fn shifts_report_the_bit_shifted_out() {
    let mut cpu = machine_with(&[0x81, 0x06, 0x82, 0x0E, 0x83, 0x0E, 0x84, 0x06]);
    cpu.set_register(1, 0b1000_0011);
    cpu.set_register(2, 0x81);
    cpu.set_register(3, 0x40);
    cpu.set_register(4, 0x02);
    cpu.step(0).unwrap();
    assert_eq!(cpu.register(1), 0b0100_0001);
    assert_eq!(cpu.register(0xF), 1);
    cpu.step(0).unwrap();
    assert_eq!(cpu.register(2), 0x02);
    assert_eq!(cpu.register(0xF), 1);
    cpu.step(0).unwrap();
    assert_eq!(cpu.register(3), 0x80);
    assert_eq!(cpu.register(0xF), 0);
    cpu.step(0).unwrap();
    assert_eq!(cpu.register(4), 0x01);
    assert_eq!(cpu.register(0xF), 0);
}

#[test]
fn flag_register_as_destination_keeps_the_result() {
    let mut cpu = machine_with(&[0x8F, 0x14]);
    cpu.set_register(0xF, 200);
    cpu.set_register(1, 100);
    cpu.step(0).unwrap();
    assert_eq!(cpu.register(0xF), 44);
}

#[test]
fn bitwise_and_copy_operations() {
    let mut cpu = machine_with(&[0x81, 0x21, 0x83, 0x22, 0x85, 0x23, 0x87, 0x80]);
    cpu.set_register(1, 0b1100);
    cpu.set_register(2, 0b1010);
    cpu.set_register(3, 0b1100);
    cpu.set_register(4, 0b1010);
    cpu.set_register(5, 0b1100);
    cpu.set_register(6, 0b1010);
    cpu.set_register(8, 0x5A);
    cpu.step(0).unwrap();
    cpu.step(0).unwrap();
    cpu.step(0).unwrap();
    cpu.step(0).unwrap();
    assert_eq!(cpu.register(1), 0b1110);
    assert_eq!(cpu.register(3), 0b1000);
    assert_eq!(cpu.register(5), 0b0110);
    assert_eq!(cpu.register(7), 0x5A);
}

#[test]
fn jump_from_different_addresses_reaches_the_same_state() {
    // One machine jumps from 0x200, the other from 0x202, both to 0x300.
    let mut a = machine_with(&[0x13, 0x00]);
    let mut b = machine_with(&[0x00, 0x00, 0x13, 0x00]);
    b.step(0).unwrap();
    assert_eq!(b.pc(), 0x202);
    a.step(0).unwrap();
    b.step(0).unwrap();
    assert_eq!(a.pc(), 0x300);
    assert_eq!(b.pc(), 0x300);
    for _ in 0..3 {
        assert_eq!(a.step(0), b.step(0));
        assert_eq!(a.pc(), b.pc());
    }
}

#[test]
fn jump_twice_changes_nothing_more() {
    let mut cpu = machine_with(&[0x12, 0x00]);
    cpu.step(0).unwrap();
    assert_eq!(cpu.pc(), 0x200);
    cpu.step(0).unwrap();
    assert_eq!(cpu.pc(), 0x200);
    assert_eq!(cpu.stack_depth(), 0);
}

#[test]
fn call_then_return_resumes_after_the_call() {
    let mut program = vec![0u8; 0x102];
    program[0] = 0x23;
    program[1] = 0x00;
    program[0x100] = 0x00;
    program[0x101] = 0xEE;
    let mut cpu = machine_with(&program);
    assert_eq!(cpu.step(0), Ok(false));
    assert_eq!(cpu.pc(), 0x300);
    assert_eq!(cpu.stack_depth(), 1);
    assert_eq!(cpu.step(0), Ok(false));
    assert_eq!(cpu.pc(), 0x202);
    assert_eq!(cpu.stack_depth(), 0);
}

#[test]
fn draw_twice_restores_the_screen() {
    // I = glyph 0, draw it at (V0, V1) = (0, 0) twice.
    let mut cpu = machine_with(&[0xA0, 0x00, 0xD0, 0x15, 0xD0, 0x15]);
    cpu.step(0).unwrap();
    assert_eq!(cpu.step(0), Ok(true));
    assert_eq!(cpu.register(0xF), 0);
    assert!(cpu.pixel(0, 0));
    assert!(cpu.pixel(3, 0));
    assert!(!cpu.pixel(4, 0));
    assert!(cpu.pixel(0, 1));
    assert!(!cpu.pixel(1, 1));
    assert_eq!(cpu.step(0), Ok(true));
    assert_eq!(cpu.register(0xF), 1);
    for y in 0..32 {
        for x in 0..64 {
            assert!(!cpu.pixel(x, y));
        }
    }
}

#[test]
fn draw_wraps_past_the_right_edge() {
    // I = glyph 0 (top row 0xF0), V0 = 63, V1 = 0.
    let mut cpu = machine_with(&[0xA0, 0x00, 0x60, 0x3F, 0x61, 0x00, 0xD0, 0x11]);
    for _ in 0..4 {
        cpu.step(0).unwrap();
    }
    assert!(cpu.pixel(63, 0));
    assert!(cpu.pixel(0, 0));
    assert!(cpu.pixel(1, 0));
    assert!(cpu.pixel(2, 0));
    assert!(!cpu.pixel(3, 0));
    assert!(!cpu.pixel(62, 0));
}

#[test]
fn draw_wraps_past_the_bottom_edge() {
    // Glyph 0 (five rows) drawn at row 30: rows 30, 31, 0, 1, 2.
    let mut cpu = machine_with(&[0xA0, 0x00, 0x60, 0x00, 0x61, 0x1E, 0xD0, 0x15]);
    for _ in 0..4 {
        cpu.step(0).unwrap();
    }
    assert!(cpu.pixel(0, 30));
    assert!(cpu.pixel(0, 31));
    assert!(cpu.pixel(0, 0));
    assert!(cpu.pixel(0, 2));
    assert!(!cpu.pixel(0, 3));
    assert!(!cpu.pixel(0, 29));
}

#[test]
fn draw_with_zero_rows_draws_nothing() {
    let mut cpu = machine_with(&[0xA0, 0x00, 0xD0, 0x10]);
    cpu.step(0).unwrap();
    assert_eq!(cpu.step(0), Ok(true));
    assert_eq!(cpu.register(0xF), 0);
    assert!(!cpu.pixel(0, 0));
}

#[test]
fn clear_screen_unlights_everything() {
    let mut cpu = machine_with(&[0xA0, 0x00, 0xD0, 0x15, 0x00, 0xE0]);
    cpu.step(0).unwrap();
    cpu.step(0).unwrap();
    assert!(cpu.pixel(0, 0));
    assert_eq!(cpu.step(0), Ok(true));
    assert!(!cpu.pixel(0, 0));
    assert!(cpu.output_buffer().iter().all(|&c| c == 0));
}

#[test]
fn bcd_of_255() {
    let mut cpu = machine_with(&[0x63, 0xFF, 0xA3, 0x00, 0xF3, 0x33]);
    for _ in 0..3 {
        cpu.step(0).unwrap();
    }
    assert_eq!(cpu.memory_at(0x300), 2);
    assert_eq!(cpu.memory_at(0x301), 5);
    assert_eq!(cpu.memory_at(0x302), 5);
}

#[test]
fn bcd_of_7_and_140() {
    let mut cpu = machine_with(&[0x63, 0x07, 0xA3, 0x00, 0xF3, 0x33, 0x63, 0x8C, 0xA3, 0x10, 0xF3, 0x33]);
    for _ in 0..6 {
        cpu.step(0).unwrap();
    }
    assert_eq!([cpu.memory_at(0x300), cpu.memory_at(0x301), cpu.memory_at(0x302)], [0, 0, 7]);
    assert_eq!([cpu.memory_at(0x310), cpu.memory_at(0x311), cpu.memory_at(0x312)], [1, 4, 0]);
}

#[test]
fn font_address_of_digit_a() {
    let mut cpu = machine_with(&[0xF2, 0x29]);
    cpu.set_register(2, 0xA);
    cpu.step(0).unwrap();
    assert_eq!(cpu.index(), 50);
    assert_eq!(cpu.memory_at(50), 0xF0);
    assert_eq!(cpu.memory_at(54), 0x90);
}

#[test]
fn load_immediate_then_add_immediate() {
    let mut cpu = machine_with(&[0x6A, 0x02, 0x7A, 0x05]);
    cpu.step(0).unwrap();
    cpu.step(0).unwrap();
    assert_eq!(cpu.register(0xA), 7);
    assert_eq!(cpu.pc(), 0x200 + 4);
}

#[test]
fn add_immediate_wraps_without_flag() {
    let mut cpu = machine_with(&[0x7A, 0x05]);
    cpu.set_register(0xA, 254);
    cpu.set_register(0xF, 9);
    cpu.step(0).unwrap();
    assert_eq!(cpu.register(0xA), 3);
    assert_eq!(cpu.register(0xF), 9);
}

#[test]
fn set_index_then_font_lookup() {
    let mut cpu = machine_with(&[0xA2, 0x34, 0xF1, 0x29]);
    cpu.set_register(1, 4);
    cpu.step(0).unwrap();
    assert_eq!(cpu.index(), 0x234);
    cpu.step(0).unwrap();
    assert_eq!(cpu.index(), 20);
}

#[test]
fn delay_timer_counts_down_and_stops_at_zero() {
    let mut cpu = machine_with(&[0x00, 0x00, 0x00, 0x00, 0x00, 0x00, 0x00, 0x00]);
    cpu.set_delay_timer(3);
    for expected in [2u8, 1, 0] {
        cpu.cycle(0).unwrap();
        assert_eq!(cpu.delay_timer(), expected);
    }
    cpu.cycle(0).unwrap();
    assert_eq!(cpu.delay_timer(), 0);
}

#[test]
fn timers_set_and_read() {
    let mut cpu = machine_with(&[0xF1, 0x15, 0xF2, 0x18, 0xF3, 0x07]);
    cpu.set_register(1, 9);
    cpu.set_register(2, 4);
    cpu.cycle(0).unwrap();
    assert_eq!(cpu.delay_timer(), 8);
    cpu.cycle(0).unwrap();
    assert_eq!(cpu.sound_timer(), 3);
    cpu.step(0).unwrap();
    assert_eq!(cpu.register(3), 7);
}

#[test]
fn skips_on_immediates_and_registers() {
    let mut cpu = machine_with(&[0x31, 0x05, 0x00, 0x00, 0x41, 0x05, 0x51, 0x20, 0x00, 0x00, 0x91, 0x20]);
    cpu.set_register(1, 5);
    cpu.set_register(2, 5);
    cpu.step(0).unwrap();
    assert_eq!(cpu.pc(), 0x204);
    cpu.step(0).unwrap();
    assert_eq!(cpu.pc(), 0x206);
    cpu.step(0).unwrap();
    assert_eq!(cpu.pc(), 0x20A);
    cpu.step(0).unwrap();
    assert_eq!(cpu.pc(), 0x20C);
}

#[test]
fn key_skips_follow_the_keypad() {
    let mut cpu = machine_with(&[0xE1, 0x9E, 0x00, 0x00, 0xE1, 0xA1, 0x00, 0x00, 0xE1, 0x9E]);
    cpu.set_register(1, 0xC);
    cpu.poll_input(&vec!['4']);
    cpu.step(0).unwrap();
    assert_eq!(cpu.pc(), 0x204);
    cpu.step(0).unwrap();
    assert_eq!(cpu.pc(), 0x206);
    cpu.poll_input(&vec!['Q']);
    cpu.step(0).unwrap();
    cpu.step(0).unwrap();
    assert_eq!(cpu.pc(), 0x20A);
}

#[test]
fn key_value_past_fifteen_is_never_down() {
    let mut cpu = machine_with(&[0xE1, 0xA1]);
    cpu.set_register(1, 0x20);
    cpu.poll_input(&vec!['1', '2', '3', '4', 'Q', 'W', 'E', 'R', 'A', 'S', 'D', 'F', 'Z', 'X', 'C', 'V']);
    cpu.step(0).unwrap();
    assert_eq!(cpu.pc(), 0x204);
}

#[test]
fn store_and_load_registers() {
    let mut cpu = machine_with(&[0xA3, 0x00, 0xF2, 0x55, 0x60, 0x00, 0x61, 0x00, 0x62, 0x00, 0x63, 0x09, 0xF2, 0x65]);
    cpu.set_register(0, 10);
    cpu.set_register(1, 20);
    cpu.set_register(2, 30);
    cpu.set_register(3, 40);
    cpu.step(0).unwrap();
    cpu.step(0).unwrap();
    assert_eq!(cpu.memory_at(0x300), 10);
    assert_eq!(cpu.memory_at(0x301), 20);
    assert_eq!(cpu.memory_at(0x302), 30);
    assert_eq!(cpu.memory_at(0x303), 0);
    for _ in 0..5 {
        cpu.step(0).unwrap();
    }
    assert_eq!(cpu.register(0), 10);
    assert_eq!(cpu.register(1), 20);
    assert_eq!(cpu.register(2), 30);
    assert_eq!(cpu.register(3), 9);
}

#[test]
fn store_registers_wraps_at_end_of_memory() {
    let mut cpu = machine_with(&[0xAF, 0xFF, 0xF1, 0x55]);
    cpu.set_register(0, 0xAB);
    cpu.set_register(1, 0xCD);
    cpu.step(0).unwrap();
    cpu.step(0).unwrap();
    assert_eq!(cpu.memory_at(0xFFF), 0xAB);
    assert_eq!(cpu.memory_at(0x000), 0xCD);
}

#[test]
fn jump_with_offset_adds_v0() {
    let mut cpu = machine_with(&[0xB3, 0x00]);
    cpu.set_register(0, 0x10);
    cpu.step(0).unwrap();
    assert_eq!(cpu.pc(), 0x310);
}

#[test]
fn random_byte_is_masked() {
    let mut cpu = machine_with(&[0xC1, 0x0F, 0xC2, 0x00]);
    cpu.step(0xAB).unwrap();
    assert_eq!(cpu.register(1), 0x0B);
    assert_eq!(cpu.execute_op(), Ok(false));
    assert_eq!(cpu.register(2), 0);
}

#[test]
fn machine_call_is_a_no_op() {
    let mut cpu = machine_with(&[0x01, 0x23]);
    assert_eq!(cpu.step(0), Ok(false));
    assert_eq!(cpu.pc(), 0x202);
    assert_eq!(cpu.stack_depth(), 0);
}

#[test]
fn unknown_word_is_a_decode_fault() {
    let mut cpu = machine_with(&[0x50, 0x01]);
    assert_eq!(cpu.step(0), Err(Fault::Decode { address: 0x200, word: 0x5001 }));
    assert_eq!(cpu.pc(), 0x200);
}

#[test]
fn return_with_empty_stack_underflows() {
    let mut cpu = machine_with(&[0x00, 0xEE]);
    assert_eq!(cpu.step(0), Err(Fault::StackUnderflow { address: 0x200 }));
    assert_eq!(cpu.pc(), 0x200);
}

#[test]
fn seventeenth_nested_call_overflows() {
    let mut cpu = machine_with(&[0x22, 0x00]);
    for depth in 1..=16 {
        assert_eq!(cpu.step(0), Ok(false));
        assert_eq!(cpu.stack_depth(), depth);
    }
    assert_eq!(cpu.step(0), Err(Fault::StackOverflow { address: 0x200 }));
    assert_eq!(cpu.stack_depth(), 16);
}

#[test]
fn pc_at_end_of_memory_cannot_fetch() {
    let mut cpu = machine_with(&[0x1F, 0xFF]);
    cpu.step(0).unwrap();
    assert_eq!(cpu.pc(), 0xFFF);
    assert!(!cpu.is_halted());
    assert_eq!(cpu.step(0), Err(Fault::PcOutOfRange { pc: 0xFFF }));
}

#[test]
fn oversized_image_is_rejected() {
    let image = vec![0u8; 3585];
    assert!(matches!(ROM::new(&image), Err(Fault::ImageTooLarge { len: 3585 })));
    let full = vec![7u8; 3584];
    let rom = ROM::new(&full).unwrap();
    assert_eq!(rom.size, 3584);
}

#[test]
fn image_is_padded_with_zeros() {
    let rom = ROM::new(&[1, 2, 3]).unwrap();
    assert_eq!(rom.size, 3);
    assert_eq!(&rom.data[..4], &[1, 2, 3, 0]);
    let mut cpu = CPU::new(Keyboard::new());
    cpu.load_rom(rom);
    assert_eq!(cpu.memory_at(0x200), 1);
    assert_eq!(cpu.memory_at(0x202), 3);
    assert_eq!(cpu.memory_at(0x203), 0);
}

#[test]
fn new_machine_starts_at_load_address() {
    let cpu = CPU::new(Keyboard::new());
    assert_eq!(cpu.pc(), 0x200);
    assert_eq!(cpu.index(), 0);
    assert_eq!(cpu.stack_depth(), 0);
    assert_eq!(cpu.memory_at(0), 0);
    assert!(!cpu.debug_enabled());
}

#[test]
fn fontset_fills_the_first_eighty_bytes() {
    let mut cpu = CPU::new(Keyboard::new());
    cpu.load_fontset();
    assert_eq!(cpu.memory_at(0), 0xF0);
    assert_eq!(cpu.memory_at(5), 0x20);
    assert_eq!(cpu.memory_at(79), 0x80);
    assert_eq!(cpu.memory_at(80), 0);
}

#[test]
fn debug_flag_is_recorded() {
    let mut cpu = CPU::new(Keyboard::new());
    cpu.enable_debug();
    assert!(cpu.debug_enabled());
}

#[test]
fn halted_once_pc_leaves_memory() {
    let mut cpu = machine_with(&[0xB0, 0xFF]);
    cpu.set_register(0, 0x10);
    cpu.step(0).unwrap();
    assert_eq!(cpu.pc(), 0x10F);
    let mut far = machine_with(&[0xBF, 0xFF]);
    far.set_register(0, 0x01);
    far.step(0).unwrap();
    assert_eq!(far.pc(), 0x1000);
    assert!(far.is_halted());
}

#[test]
fn decode_covers_each_family() {
    assert_eq!(decode(0x00E0), Some(Instruction::ClearScreen));
    assert_eq!(decode(0x00EE), Some(Instruction::Return));
    assert_eq!(decode(0x0123), Some(Instruction::MachineCall { addr: 0x123 }));
    assert_eq!(decode(0x1ABC), Some(Instruction::Jump { addr: 0xABC }));
    assert_eq!(decode(0x2ABC), Some(Instruction::Call { addr: 0xABC }));
    assert_eq!(decode(0x3A12), Some(Instruction::SkipEqImm { x: 0xA, value: 0x12 }));
    assert_eq!(decode(0x4A12), Some(Instruction::SkipNeImm { x: 0xA, value: 0x12 }));
    assert_eq!(decode(0x5AB0), Some(Instruction::SkipEqReg { x: 0xA, y: 0xB }));
    assert_eq!(decode(0x6A12), Some(Instruction::LoadImm { x: 0xA, value: 0x12 }));
    assert_eq!(decode(0x7A12), Some(Instruction::AddImm { x: 0xA, value: 0x12 }));
    assert_eq!(decode(0x8AB4), Some(Instruction::AddReg { x: 0xA, y: 0xB }));
    assert_eq!(decode(0x8AB6), Some(Instruction::ShiftRight { x: 0xA }));
    assert_eq!(decode(0x8ABE), Some(Instruction::ShiftLeft { x: 0xA }));
    assert_eq!(decode(0x9AB0), Some(Instruction::SkipNeReg { x: 0xA, y: 0xB }));
    assert_eq!(decode(0xA123), Some(Instruction::LoadIndex { addr: 0x123 }));
    assert_eq!(decode(0xB123), Some(Instruction::JumpOffset { addr: 0x123 }));
    assert_eq!(decode(0xC1FF), Some(Instruction::Random { x: 1, mask: 0xFF }));
    assert_eq!(decode(0xD125), Some(Instruction::Draw { x: 1, y: 2, n: 5 }));
    assert_eq!(decode(0xE19E), Some(Instruction::SkipKeyPressed { x: 1 }));
    assert_eq!(decode(0xE1A1), Some(Instruction::SkipKeyNotPressed { x: 1 }));
    assert_eq!(decode(0xF107), Some(Instruction::ReadDelay { x: 1 }));
    assert_eq!(decode(0xF165), Some(Instruction::LoadRegisters { x: 1 }));
}

#[test]
fn decode_rejects_words_outside_every_family() {
    for w in [0x5001u16, 0x8008, 0x800F, 0x9001, 0xE100, 0xF100, 0xF11E, 0xF10A] {
        assert_eq!(decode(w), None);
    }
}

#[test]
fn execute_runs_a_decoded_instruction() {
    let mut cpu = CPU::new(Keyboard::new());
    cpu.set_register(1, 4);
    assert_eq!(cpu.execute(Instruction::FontAddress { x: 1 }, 0), Ok(false));
    assert_eq!(cpu.index(), 20);
    assert_eq!(cpu.pc(), 0x202);
}

#[test]
fn keypad_map_and_state() {
    let mut kb = Keyboard::new();
    assert!(!kb.is_key_pressed(3));
    kb.key_down(3);
    assert!(kb.is_key_pressed(3));
    kb.key_up(3);
    assert!(!kb.is_key_pressed(3));
    kb.get_input(&vec!['X', 'V', 'k']);
    assert!(kb.is_key_pressed(0x0));
    assert!(kb.is_key_pressed(0xF));
    assert!(!kb.is_key_pressed(0x1));
    kb.reset_keys();
    assert!(!kb.is_key_pressed(0x0));
    assert_eq!(chip8::keyboard::key_for_label('4'), Some(0xC));
    assert_eq!(chip8::keyboard::key_for_label('Z'), Some(0xA));
    assert_eq!(chip8::keyboard::key_for_label('P'), None);
}

#[test]
fn colours_pack_channels() {
    assert_eq!(from_u8_rgb(200, 200, 100), 0xC8C864);
    assert_eq!(from_u8_rgb(1, 2, 3), 0x010203);
    assert_eq!(pixel_color(true), 0xC8C864);
    assert_eq!(pixel_color(false), 0);
}

#[test]
fn output_buffer_colours_lit_pixels() {
    let mut cpu = machine_with(&[0xA0, 0x00, 0xD0, 0x11]);
    cpu.step(0).unwrap();
    cpu.step(0).unwrap();
    let buf = cpu.output_buffer();
    assert_eq!(buf.len(), 2048);
    assert_eq!(buf[0], 0xC8C864);
    assert_eq!(buf[4], 0);
}

#[test]
fn scaling_turns_pixels_into_blocks() {
    let mut frame = vec![0u32; 2048];
    frame[1] = 5;
    frame[64] = 9;
    let out = scale_frame(&frame, 2);
    assert_eq!(out.len(), 2048 * 4);
    assert_eq!(out[0], 0);
    assert_eq!(out[2], 5);
    assert_eq!(out[3], 5);
    assert_eq!(out[128 + 2], 5);
    assert_eq!(out[128 + 4], 0);
    assert_eq!(out[2 * 128], 9);
    assert_eq!(out[3 * 128 + 1], 9);
    let same = scale_frame(&frame, 1);
    assert_eq!(same, frame);
}

#[test]
fn run_cycle_reads_keys_then_steps_and_ticks() {
    let mut cpu = machine_with(&[0xE1, 0x9E]);
    cpu.set_register(1, 0x5);
    cpu.set_delay_timer(2);
    assert_eq!(cpu.run_cycle(&vec!['W']), Ok(false));
    assert_eq!(cpu.pc(), 0x204);
    assert_eq!(cpu.delay_timer(), 1);
}

#[test]
fn run_stops_at_budget_or_when_pc_leaves_memory() {
    let cpu = machine_with(&[]);
    assert!(cpu.should_continue(9_999, Some(10_000)));
    assert!(!cpu.should_continue(10_000, Some(10_000)));
    assert!(cpu.should_continue(u64::MAX, None));
    let mut far = machine_with(&[0xBF, 0xFF]);
    far.set_register(0, 0x01);
    far.step(0).unwrap();
    assert!(!far.should_continue(0, None));
}

#[test]
fn failed_cycle_does_not_tick_timers() {
    let mut cpu = machine_with(&[0x00, 0xEE]);
    cpu.set_delay_timer(5);
    assert_eq!(cpu.cycle(0), Err(Fault::StackUnderflow { address: 0x200 }));
    assert_eq!(cpu.delay_timer(), 5);
}
