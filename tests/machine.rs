use chip8::{decode, Chip8, Chip8Error, Instruction, HEIGHT, WIDTH};

fn lit(chip8: &Chip8, x: usize, y: usize) -> bool {
    chip8.display[y * WIDTH + x] == u32::MAX
}

#[test]
fn new_machine_holds_font_and_entry_point() {
    let chip8 = Chip8::new();
    assert_eq!(chip8.pc, 0x200);
    assert_eq!(&chip8.memory[0x50..0x55], &[0xF0, 0x90, 0x90, 0x90, 0xF0]);
    assert_eq!(&chip8.memory[0x9B..0xA0], &[0xF0, 0x80, 0xF0, 0x80, 0x80]);
    assert_eq!(chip8.memory[0x4F], 0);
    assert_eq!(chip8.memory[0xA0], 0);
    assert_eq!(chip8.sp, 0);
    assert!(!chip8.draw_flag);
}

#[test]
fn load_binary_copies_from_entry_point() {
    let mut chip8 = Chip8::new();
    chip8.load_binary(vec![1, 2, 3]);
    assert_eq!(&chip8.memory[0x200..0x204], &[1, 2, 3, 0]);
    assert_eq!(chip8.memory[0x1FF], 0);
}

#[test]
fn load_binary_drops_bytes_past_memory_end() {
    let mut chip8 = Chip8::new();
    let image: Vec<u8> = (0..4000u32).map(|k| (k % 251) as u8).collect();
    chip8.load_binary(image);
    assert_eq!(chip8.memory[0x200], 0);
    assert_eq!(chip8.memory[0xFFF], (3583 % 251) as u8);
    assert_eq!(chip8.memory[0x50], 0xF0);
}

#[test]
fn decrement_timers_counts_both_down_to_zero() {
    let mut chip8 = Chip8::new();
    chip8.delay = 2;
    chip8.sound = 1;
    chip8.decrement_timers();
    assert_eq!((chip8.delay, chip8.sound), (1, 0));
    chip8.decrement_timers();
    assert_eq!((chip8.delay, chip8.sound), (0, 0));
    chip8.decrement_timers();
    assert_eq!((chip8.delay, chip8.sound), (0, 0));
}

#[test]
fn step_fetches_high_byte_first() {
    let mut chip8 = Chip8::new();
    chip8.load_binary(vec![0x60, 0x2A, 0x71, 0x05]);
    chip8.step().unwrap();
    assert_eq!(chip8.v[0], 0x2A);
    assert_eq!(chip8.pc, 0x202);
    chip8.step().unwrap();
    assert_eq!(chip8.v[1], 0x05);
    assert_eq!(chip8.pc, 0x204);
}

#[test]
fn step_clears_redraw_signal() {
    let mut chip8 = Chip8::new();
    chip8.load_binary(vec![0xD0, 0x01, 0x60, 0x00]);
    chip8.i = 0x50;
    chip8.step().unwrap();
    assert!(chip8.draw_flag);
    chip8.step().unwrap();
    assert!(!chip8.draw_flag);
}

#[test]
fn unknown_opcode_is_an_error_and_changes_nothing() {
    for op in [0x8008u16, 0x800F, 0xE000, 0xF0FF, 0x0123] {
        let mut chip8 = Chip8::new();
        assert_eq!(chip8.handle_opcode(op), Err(Chip8Error::UnknownOpcode(op)));
        assert_eq!(chip8.pc, 0x200);
    }
}

#[test]
fn return_with_empty_stack_is_an_error() {
    let mut chip8 = Chip8::new();
    assert_eq!(chip8.handle_opcode(0x00EE), Err(Chip8Error::StackUnderflow));
    assert_eq!(chip8.pc, 0x200);
    assert_eq!(chip8.sp, 0);
}

#[test]
fn call_with_full_stack_is_an_error() {
    let mut chip8 = Chip8::new();
    for _ in 0..16 {
        chip8.handle_opcode(0x2300).unwrap();
    }
    assert_eq!(chip8.sp, 16);
    assert_eq!(chip8.handle_opcode(0x2400), Err(Chip8Error::StackOverflow));
    assert_eq!(chip8.pc, 0x300);
    assert_eq!(chip8.sp, 16);
}

#[test]
fn call_then_ret_comes_back_past_the_call() {
    let mut chip8 = Chip8::new();
    chip8.pc = 0x3FE;
    chip8.handle_opcode(0x2ABC).unwrap();
    assert_eq!(chip8.sp, 1);
    chip8.handle_opcode(0x00EE).unwrap();
    assert_eq!(chip8.pc, 0x400);
    assert_eq!(chip8.sp, 0);
}

#[test]
fn add_with_carry_examples() {
    let mut chip8 = Chip8::new();
    chip8.v[0] = 0xFF;
    chip8.v[1] = 0x23;
    chip8.handle_opcode(0x8014).unwrap();
    assert_eq!((chip8.v[0], chip8.v[0xF]), (0x22, 1));
    chip8.v[0] = 0x10;
    chip8.v[1] = 0x05;
    chip8.handle_opcode(0x8014).unwrap();
    assert_eq!((chip8.v[0], chip8.v[0xF]), (0x15, 0));
}

#[test]
fn flags_with_aliased_registers() {
    let mut chip8 = Chip8::new();
    chip8.v[2] = 0x80;
    chip8.handle_opcode(0x8224).unwrap();
    assert_eq!((chip8.v[2], chip8.v[0xF]), (0x00, 1));
    chip8.v[2] = 0x81;
    chip8.handle_opcode(0x8225).unwrap();
    assert_eq!((chip8.v[2], chip8.v[0xF]), (0x00, 1));
    chip8.v[2] = 0x81;
    chip8.handle_opcode(0x8226).unwrap();
    assert_eq!((chip8.v[2], chip8.v[0xF]), (0x40, 1));
    chip8.v[2] = 0x41;
    chip8.handle_opcode(0x822E).unwrap();
    assert_eq!((chip8.v[2], chip8.v[0xF]), (0x82, 0));
}

#[test]
fn flag_register_as_operand() {
    let mut chip8 = Chip8::new();
    chip8.v[0xF] = 0xFF;
    chip8.v[1] = 0x01;
    chip8.handle_opcode(0x8F14).unwrap();
    assert_eq!(chip8.v[0xF], 1);
    chip8.v[0xF] = 0x06;
    chip8.handle_opcode(0x8F16).unwrap();
    assert_eq!(chip8.v[0xF], 0x03);
    chip8.v[0xF] = 0x81;
    chip8.handle_opcode(0x8F1E).unwrap();
    assert_eq!(chip8.v[0xF], 0x02);
}

#[test]
fn collision_sets_flag_to_one() {
    let mut chip8 = Chip8::new();
    chip8.i = 0x50;
    chip8.handle_opcode(0xD015).unwrap();
    chip8.v[0xF] = 2;
    chip8.handle_opcode(0xD015).unwrap();
    assert_eq!(chip8.v[0xF], 1);
    chip8.v[0xF] = 2;
    chip8.handle_opcode(0xD015).unwrap();
    assert_eq!(chip8.v[0xF], 2);
}

#[test]
fn bcd_examples() {
    for (value, digits) in [(123u8, [1u8, 2, 3]), (0, [0, 0, 0]), (255, [2, 5, 5])] {
        let mut chip8 = Chip8::new();
        chip8.v[4] = value;
        chip8.i = 0x300;
        chip8.handle_opcode(0xF433).unwrap();
        assert_eq!(&chip8.memory[0x300..0x303], &digits);
    }
}

#[test]
fn store_then_load_round_trip() {
    for x in 0..16usize {
        let mut chip8 = Chip8::new();
        for k in 0..16 {
            chip8.v[k] = (k as u8) * 7 + 3;
        }
        let before = chip8.v;
        chip8.i = 0x400;
        chip8.handle_opcode(0xF055 | ((x as u16) << 8)).unwrap();
        for k in 0..=x {
            chip8.v[k] = 0;
        }
        chip8.handle_opcode(0xF065 | ((x as u16) << 8)).unwrap();
        assert_eq!(chip8.v, before);
    }
}

#[test]
fn store_wraps_at_memory_end() {
    let mut chip8 = Chip8::new();
    chip8.v[0] = 1;
    chip8.v[1] = 2;
    chip8.v[2] = 3;
    chip8.i = 0xFFE;
    chip8.handle_opcode(0xF255).unwrap();
    assert_eq!((chip8.memory[0xFFE], chip8.memory[0xFFF], chip8.memory[0]), (1, 2, 3));
}

#[test]
fn skips_advance_by_four_or_two() {
    let mut chip8 = Chip8::new();
    chip8.v[2] = 7;
    chip8.v[3] = 7;
    chip8.handle_opcode(0x9230).unwrap();
    assert_eq!(chip8.pc, 0x202);
    chip8.handle_opcode(0x5230).unwrap();
    assert_eq!(chip8.pc, 0x206);
    chip8.handle_opcode(0x3208).unwrap();
    assert_eq!(chip8.pc, 0x208);
    chip8.handle_opcode(0x4208).unwrap();
    assert_eq!(chip8.pc, 0x20C);
}

#[test]
fn key_skips() {
    let mut chip8 = Chip8::new();
    chip8.v[0] = 3;
    chip8.keypad[3] = true;
    chip8.handle_opcode(0xE09E).unwrap();
    assert_eq!(chip8.pc, 0x204);
    chip8.handle_opcode(0xE0A1).unwrap();
    assert_eq!(chip8.pc, 0x206);
    chip8.v[0] = 0x20;
    chip8.handle_opcode(0xE09E).unwrap();
    assert_eq!(chip8.pc, 0x208);
    chip8.handle_opcode(0xE0A1).unwrap();
    assert_eq!(chip8.pc, 0x20C);
}

#[test]
fn wait_for_key_repeats_until_pressed() {
    let mut chip8 = Chip8::new();
    chip8.load_binary(vec![0xF3, 0x0A]);
    chip8.v[3] = 0x77;
    for _ in 0..5 {
        chip8.step().unwrap();
        assert_eq!(chip8.pc, 0x200);
        assert_eq!(chip8.v[3], 0x77);
    }
    chip8.keypad[9] = true;
    chip8.keypad[5] = true;
    chip8.step().unwrap();
    assert_eq!(chip8.pc, 0x202);
    assert_eq!(chip8.v[3], 5);
}

#[test]
fn draw_font_glyph_and_collide() {
    let mut chip8 = Chip8::new();
    chip8.i = 0x50;
    chip8.handle_opcode(0xD015).unwrap();
    assert!(chip8.draw_flag);
    assert_eq!(chip8.v[0xF], 0);
    assert!(lit(&chip8, 0, 0) && lit(&chip8, 3, 0) && !lit(&chip8, 4, 0));
    assert!(lit(&chip8, 0, 1) && !lit(&chip8, 1, 1) && lit(&chip8, 3, 1));
    chip8.handle_opcode(0xD015).unwrap();
    assert_eq!(chip8.v[0xF], 1);
    assert_eq!(chip8.display, [0u32; WIDTH * HEIGHT]);
}

#[test]
fn draw_wraps_each_pixel() {
    let mut chip8 = Chip8::new();
    chip8.v[0] = 62;
    chip8.v[1] = 31;
    chip8.i = 0x50;
    chip8.handle_opcode(0xD012).unwrap();
    assert!(lit(&chip8, 62, 31) && lit(&chip8, 63, 31) && lit(&chip8, 0, 31) && lit(&chip8, 1, 31));
    assert!(!lit(&chip8, 2, 31));
    assert!(lit(&chip8, 62, 0) && !lit(&chip8, 63, 0) && !lit(&chip8, 0, 0) && lit(&chip8, 1, 0));
}

#[test]
fn draw_twice_restores_screen() {
    let mut chip8 = Chip8::new();
    for p in [5usize, 64 * 10 + 12, 64 * 11 + 13, 2047] {
        chip8.display[p] = u32::MAX;
    }
    let before = chip8.display;
    chip8.v[3] = 10;
    chip8.v[4] = 10;
    chip8.i = 0x5A;
    chip8.handle_opcode(0xD345).unwrap();
    assert_ne!(chip8.display, before);
    chip8.handle_opcode(0xD345).unwrap();
    assert_eq!(chip8.display, before);
}

#[test]
fn clear_then_cycles_without_draw_stay_dark() {
    let mut chip8 = Chip8::new();
    chip8.display[100] = u32::MAX;
    chip8.load_binary(vec![0x00, 0xE0, 0x61, 0x05, 0x71, 0x01, 0xA0, 0x50, 0x12, 0x02]);
    for _ in 0..20 {
        chip8.step().unwrap();
        assert_eq!(chip8.display, [0u32; WIDTH * HEIGHT]);
    }
}

#[test]
fn clear_sets_redraw_signal() {
    let mut chip8 = Chip8::new();
    chip8.handle_opcode(0x00E0).unwrap();
    assert!(chip8.draw_flag);
}

#[test]
fn random_is_masked_by_byte() {
    let mut chip8 = Chip8::new();
    for _ in 0..50 {
        chip8.handle_opcode(0xC20F).unwrap();
        assert_eq!(chip8.v[2] & 0xF0, 0);
        chip8.handle_opcode(0xC300).unwrap();
        assert_eq!(chip8.v[3], 0);
    }
}

#[test]
fn jump_with_offset_wraps_into_memory() {
    let mut chip8 = Chip8::new();
    chip8.v[0] = 0xFF;
    chip8.handle_opcode(0xBFFF).unwrap();
    assert_eq!(chip8.pc, 0x0FE);
}

#[test]
fn font_address_of_digit() {
    let mut chip8 = Chip8::new();
    chip8.v[6] = 0xF;
    chip8.handle_opcode(0xF629).unwrap();
    assert_eq!(chip8.i, 0x50 + 0xF * 5);
}

#[test]
fn decode_fields() {
    assert_eq!(decode(0x00E0), Some(Instruction::Cls));
    assert_eq!(decode(0x00EE), Some(Instruction::Ret));
    assert_eq!(decode(0xD125), Some(Instruction::Drw { x: 1, y: 2, n: 5 }));
    assert_eq!(decode(0x3AFE), Some(Instruction::SeByte { x: 0xA, kk: 0xFE }));
    assert_eq!(decode(0xB123), Some(Instruction::JpV0 { addr: 0x123 }));
    assert_eq!(decode(0xFE65), Some(Instruction::Load { x: 0xE }));
    assert_eq!(decode(0xF0FF), None);
    assert_eq!(decode(0x8009), None);
}
