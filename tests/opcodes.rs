use chip8::{Chip8, HEIGHT, WIDTH};

#[test]
fn op_00e0() {
    let mut chip8 = Chip8::new();
    for i in 0..WIDTH * HEIGHT {
        chip8.display[i] = u32::MAX;
    }

    chip8.handle_opcode(0x00e0).unwrap();

    assert_eq!(chip8.display, [0u32; WIDTH * HEIGHT]);
}

#[test]
fn op_00ee() {
    let mut chip8 = Chip8::new();
    chip8.pc = 0x23;

    chip8.handle_opcode(0x2ABC).unwrap();
    chip8.handle_opcode(0x00EE).unwrap();

    assert_eq!(chip8.pc, 0x23 + 2);
    assert_eq!(chip8.sp, 0);
}

#[test]
fn op_1nnn() {
    let mut chip8 = Chip8::new();
    chip8.handle_opcode(0x1ABC).unwrap();
    assert_eq!(chip8.pc, 0xABC)
}

#[test]
fn op_2nnn() {
    let mut chip8 = Chip8::new();
    chip8.pc = 0x23;
    chip8.handle_opcode(0x2ABC).unwrap();
    assert_eq!(chip8.pc, 0xABC);
    assert_eq!(chip8.sp, 1);
    assert_eq!(chip8.stack[0], 0x23 + 2);
}

#[test]
fn op_3xkk() {
    let mut chip8 = Chip8::new();
    chip8.pc = 0;
    chip8.v[1] = 0xFE;
    chip8.handle_opcode(0x31FE).unwrap();
    assert_eq!(chip8.pc, 4);
    chip8.handle_opcode(0x31FA).unwrap();
    assert_eq!(chip8.pc, 6);
}

#[test]
fn op_4xkk() {
    let mut chip8 = Chip8::new();
    chip8.pc = 0;
    chip8.v[1] = 0xFE;
    chip8.handle_opcode(0x41FE).unwrap();
    assert_eq!(chip8.pc, 2);
    chip8.handle_opcode(0x41FA).unwrap();
    assert_eq!(chip8.pc, 6);
}

#[test]
fn op_5xy0() {
    let mut chip8 = Chip8::new();
    chip8.pc = 0;
    chip8.v[0] = 12;
    chip8.v[1] = 12;
    chip8.handle_opcode(0x5010).unwrap();
    assert_eq!(chip8.pc, 4);
    chip8.v[1] = 13;
    chip8.handle_opcode(0x5010).unwrap();
    assert_eq!(chip8.pc, 6);
}

#[test]
fn op_6xkk() {
    let mut chip8 = Chip8::new();
    chip8.handle_opcode(0x6123).unwrap();
    assert_eq!(chip8.v[1], 0x23);
}

#[test]
fn op_7xkk() {
    let mut chip8 = Chip8::new();
    chip8.v[1] = 3;
    chip8.handle_opcode(0x7101).unwrap();
    assert_eq!(chip8.v[1], 4);
    chip8.v[1] = 0xFF;
    chip8.handle_opcode(0x7123).unwrap();
    assert_eq!(chip8.v[1], 0x22);
}

#[test]
fn op_8xy0() {
    let mut chip8 = Chip8::new();
    chip8.v[0] = 0x23;
    chip8.handle_opcode(0x8100).unwrap();
    assert_eq!(chip8.v[1], 0x23);
}

#[test]
fn op_8xy1() {
    let mut chip8 = Chip8::new();
    chip8.v[0] = 0x45;
    chip8.v[1] = 0x23;
    chip8.handle_opcode(0x8011).unwrap();
    assert_eq!(chip8.v[0], 0x45 | 0x23);
}

#[test]
fn op_8xy2() {
    let mut chip8 = Chip8::new();
    chip8.v[0] = 0x45;
    chip8.v[1] = 0x23;
    chip8.handle_opcode(0x8012).unwrap();
    assert_eq!(chip8.v[0], 0x45 & 0x23);
}

#[test]
fn op_8xy3() {
    let mut chip8 = Chip8::new();
    chip8.v[0] = 0x45;
    chip8.v[1] = 0x23;
    chip8.handle_opcode(0x8013).unwrap();
    assert_eq!(chip8.v[0], 0x45 ^ 0x23);
}

#[test]
fn op_8xy4() {
    let mut chip8 = Chip8::new();
    chip8.v[0] = 0x45;
    chip8.v[1] = 0x23;
    chip8.handle_opcode(0x8014).unwrap();
    assert_eq!(chip8.v[0], 0x45 + 0x23);
    assert_eq!(chip8.v[0x0F], 0);
    chip8.v[0] = 0xFF;
    chip8.v[1] = 0x23;
    chip8.handle_opcode(0x8014).unwrap();
    assert_eq!(chip8.v[0], 0x22);
    assert_eq!(chip8.v[0x0F], 1);
}

#[test]
fn op_8xy5() {
    let mut chip8 = Chip8::new();
    chip8.v[0] = 0x45;
    chip8.v[1] = 0x23;
    chip8.handle_opcode(0x8015).unwrap();
    assert_eq!(chip8.v[0], 0x45 - 0x23);
    assert_eq!(chip8.v[0x0F], 1);
    chip8.v[0] = 0x22;
    chip8.v[1] = 0x23;
    chip8.handle_opcode(0x8015).unwrap();
    assert_eq!(chip8.v[0], 0xFF);
    assert_eq!(chip8.v[0x0F], 0);
}

#[test]
fn op_8xy6() {
    let mut chip8 = Chip8::new();
    chip8.v[0] = 0x01;
    chip8.handle_opcode(0x8016).unwrap();
    assert_eq!(chip8.v[0], 0);
    assert_eq!(chip8.v[0x0F], 1);
    chip8.v[0] = 0x02;
    chip8.handle_opcode(0x8016).unwrap();
    assert_eq!(chip8.v[0], 1);
    assert_eq!(chip8.v[0x0F], 0);
}

#[test]
fn op_8xy7() {
    let mut chip8 = Chip8::new();
    chip8.v[0] = 0x05;
    chip8.v[1] = 0x06;
    chip8.handle_opcode(0x8017).unwrap();
    assert_eq!(chip8.v[0], 1);
    assert_eq!(chip8.v[0x0F], 1);
    chip8.v[0] = 0x06;
    chip8.v[1] = 0x05;
    chip8.handle_opcode(0x8017).unwrap();
    assert_eq!(chip8.v[0], 0xFF);
    assert_eq!(chip8.v[0x0F], 0);
}

#[test]
fn op_8xye() {
    let mut chip8 = Chip8::new();
    chip8.v[0] = 0xF0;
    chip8.handle_opcode(0x801E).unwrap();
    assert_eq!(chip8.v[0], 0xF0 << 1);
    assert_eq!(chip8.v[0x0F], 1);
    chip8.v[0] = 0x0F;
    chip8.handle_opcode(0x801E).unwrap();
    assert_eq!(chip8.v[0], 0x0F << 1);
    assert_eq!(chip8.v[0x0F], 0);
}

#[test]
fn op_9xy0() {
    let mut chip8 = Chip8::new();
    chip8.v[0] = 0x23;
    chip8.v[1] = 0x24;
    chip8.pc = 0;
    chip8.handle_opcode(0x9010).unwrap();
    assert_eq!(chip8.pc, 4);
    chip8.v[1] = 0x23;
    chip8.handle_opcode(0x9010).unwrap();
    assert_eq!(chip8.pc, 6);
}

#[test]
fn op_annn() {
    let mut chip8 = Chip8::new();
    chip8.handle_opcode(0xA123).unwrap();
    assert_eq!(chip8.i, 0x123);
}

#[test]
fn op_bnnn() {
    let mut chip8 = Chip8::new();
    chip8.v[0] = 0x23;
    chip8.handle_opcode(0xB123).unwrap();
    assert_eq!(chip8.pc, 0x23 + 0x123);
}

#[test]
fn op_fx07() {
    let mut chip8 = Chip8::new();
    chip8.delay = 5;
    chip8.handle_opcode(0xf007).unwrap();
    assert_eq!(chip8.v[0], 5);
}

#[test]
fn op_fx15() {
    let mut chip8 = Chip8::new();
    chip8.v[0] = 5;
    chip8.handle_opcode(0xf015).unwrap();
    assert_eq!(chip8.delay, 5);
}

#[test]
fn op_fx18() {
    let mut chip8 = Chip8::new();
    chip8.v[0] = 5;
    chip8.handle_opcode(0xf018).unwrap();
    assert_eq!(chip8.sound, 5);
}

#[test]
fn op_fx1e() {
    let mut chip8 = Chip8::new();
    chip8.i = 0x0023;
    chip8.v[0] = 0x02;
    chip8.handle_opcode(0xF01E).unwrap();
    assert_eq!(chip8.i, 0x25);
    chip8.i = 0xFFFF;
    chip8.handle_opcode(0xF01E).unwrap();
    assert_eq!(chip8.i, 0x01);
}

#[test]
fn op_fx29() {
    let mut chip8 = Chip8::new();
    chip8.v[0] = 0xA;
    chip8.handle_opcode(0xF029).unwrap();
    assert_eq!(chip8.i, 0xA * 5 + 0x50);
}

#[test]
fn op_fx33() {
    let mut chip8 = Chip8::new();
    chip8.v[0] = 123;
    chip8.handle_opcode(0xF033).unwrap();
    assert_eq!(chip8.memory[0], 1);
    assert_eq!(chip8.memory[1], 2);
    assert_eq!(chip8.memory[2], 3);
}

#[test]
fn op_fx55() {
    let mut chip8 = Chip8::new();
    chip8.v[0] = 0;
    chip8.v[1] = 1;
    chip8.v[2] = 2;
    chip8.i = 0x202;
    chip8.handle_opcode(0xF255).unwrap();
    assert_eq!(chip8.memory[0x202], 0);
    assert_eq!(chip8.memory[0x203], 1);
    assert_eq!(chip8.memory[0x204], 2);
}

#[test]
fn op_fx65() {
    let mut chip8 = Chip8::new();
    chip8.memory[0x202] = 0;
    chip8.memory[0x203] = 1;
    chip8.memory[0x204] = 2;
    chip8.i = 0x202;
    chip8.handle_opcode(0xF265).unwrap();
    assert_eq!(chip8.v[0], 0);
    assert_eq!(chip8.v[1], 1);
    assert_eq!(chip8.v[2], 2);
}
